use vstd::prelude::*;

use spl_tlv_account_resolution::account::ExtraAccountMeta;
use spl_tlv_account_resolution::seeds::Seed as SeedRule;
use spl_tlv_account_resolution::state::ExtraAccountMetaList;
use spl_transfer_hook_interface::instruction::ExecuteInstruction;

use crate::error::HookError;
use crate::policy::{initial_state, CounterAccount, CounterState};
use crate::seeds::{counter_seeds, policy_seed_configs, Seed, SeedConfig};

verus! {

#[verifier::external_type_specification]
#[verifier::external_body]
pub struct ExExtraAccountMeta(ExtraAccountMeta);

/// Bytes one seed rule takes inside an account meta's 32-byte address
/// configuration: a tag, then a length and the bytes, or three indices.
pub open spec fn seed_rule_len(seed: SeedConfig) -> nat {
    match seed {
        SeedConfig::Literal(bytes) => 2 + bytes.len(),
        SeedConfig::AccountData(_, _, _) => 4,
    }
}

/// Bytes a list of seed rules takes inside an address configuration.
pub open spec fn seed_rules_len(seeds: Seq<SeedConfig>) -> nat
    decreases seeds.len(),
{
    if seeds.len() == 0 {
        0
    } else {
        seed_rules_len(seeds.drop_last()) + seed_rule_len(seeds.last())
    }
}

/// The little-endian number that `bytes` spell.
pub open spec fn le_value(bytes: Seq<u8>) -> nat
    decreases bytes.len(),
{
    if bytes.len() == 0 {
        0
    } else {
        (bytes[0] + 256 * le_value(bytes.drop_first())) as nat
    }
}

/// Bytes of a descriptor account that lists `count` account metas: an
/// 8-byte instruction discriminator and a 4-byte length, then a 4-byte
/// count and 35 bytes for each meta.
pub open spec fn meta_list_len(count: nat) -> nat {
    16 + 35 * count
}

/// The stored bytes of a descriptor account that holds one account meta.
pub open spec fn descriptor_len() -> nat {
    meta_list_len(1)
}

/// Relies on ExtraAccountMeta::new_with_seeds: it packs the seed rules one
/// after another into 32 bytes, and fails exactly where they do not fit.
#[verifier::external_body]
fn meta_with_seeds(seeds: &Vec<Seed>, is_signer: bool, is_writable: bool) -> (r: Option<
    ExtraAccountMeta,
>)
    requires
        forall|i: int|
            0 <= i < seeds@.len() ==> match #[trigger] seeds@[i]@ {
                SeedConfig::Literal(bytes) => bytes.len() <= 253,
                SeedConfig::AccountData(_, _, _) => true,
            },
    ensures
        r is Some <==> seed_rules_len(seeds@.map_values(|s: Seed| s@)) <= 32,
{
    let rules: Vec<SeedRule> = seeds.iter().map(|s| match s {
        Seed::Literal { bytes } => SeedRule::Literal { bytes: bytes.clone() },
        Seed::AccountData { account_index, data_index, length } => SeedRule::AccountData {
            account_index: *account_index,
            data_index: *data_index,
            length: *length,
        },
    }).collect();
    ExtraAccountMeta::new_with_seeds(&rules, is_signer, is_writable).ok()
}

/// Relies on ExtraAccountMetaList::size_of: the bytes needed to store
/// `count` account metas.
#[verifier::external_body]
fn meta_list_size(count: usize) -> (r: Option<usize>)
    requires
        count <= 1000,
    ensures
        r == Some(meta_list_len(count as nat) as usize),
{
    ExtraAccountMetaList::size_of(count).ok()
}

/// Relies on ExtraAccountMetaList::init for the execute instruction: on a
/// zeroed buffer of exactly the size that `size_of` gives, it writes the
/// list and succeeds; it never changes the buffer's length. After the
/// 8-byte discriminator come the entry's length and the list's count, each
/// a little-endian `u32`.
#[verifier::external_body]
fn write_meta_list(data: &mut Vec<u8>, metas: &Vec<ExtraAccountMeta>) -> (r: bool)
    requires
        metas@.len() <= 1000,
        old(data)@.len() == meta_list_len(metas@.len()),
        forall|i: int| 0 <= i < old(data)@.len() ==> old(data)@[i] == 0,
    ensures
        r,
        final(data)@.len() == old(data)@.len(),
        le_value(final(data)@.subrange(8, 12)) == 4 + 35 * metas@.len(),
        le_value(final(data)@.subrange(12, 16)) == metas@.len(),
{
    ExtraAccountMetaList::init::<ExecuteInstruction>(data.as_mut_slice(), metas.as_slice()).is_ok()
}

/// The accounts that setting up a mint's descriptor works on. A descriptor
/// account that has not been allocated holds no bytes; a payer without a
/// policy account has `None`.
#[derive(Debug)]
pub struct InitializeExtraAccountMetaList {
    pub payer: [u8; 32],
    pub mint: [u8; 32],
    pub extra_account_meta_list: Vec<u8>,
    pub counter_account: Option<CounterAccount>,
}

/// The mathematical form of an optional policy account.
pub open spec fn counter_view(account: Option<CounterAccount>) -> Option<CounterState> {
    match account {
        Some(a) => Some(a@),
        None => None,
    }
}

/// A zeroed buffer of `len` bytes.
fn zeroed(len: usize) -> (r: Vec<u8>)
    ensures
        r@.len() == len,
        forall|i: int| 0 <= i < len ==> r@[i] == 0,
{
    let mut r: Vec<u8> = Vec::with_capacity(len);
    let mut i: usize = 0;
    while i < len
        invariant
            i <= len,
            r@.len() == i,
            forall|j: int| 0 <= j < i ==> r@[j] == 0,
        decreases len - i,
    {
        r.push(0u8);
        i = i + 1;
    }
    r
}

/// Sets up the descriptor of a mint: one account meta, located by the
/// policy account's seed rules, neither a signer nor read-only. A mint whose
/// descriptor already holds bytes is refused and nothing changes. The payer
/// gets a fresh policy record if it had none; an existing one is kept.
pub fn initialize_extra_account_meta_list(ctx: &mut InitializeExtraAccountMetaList) -> (r: Result<
    (),
    HookError,
>)
    ensures
        final(ctx).payer == old(ctx).payer,
        final(ctx).mint == old(ctx).mint,
        old(ctx).extra_account_meta_list@.len() != 0 ==> {
            &&& r == Err::<(), HookError>(HookError::AlreadyInitialized)
            &&& final(ctx).extra_account_meta_list@ == old(ctx).extra_account_meta_list@
            &&& counter_view(final(ctx).counter_account) == counter_view(old(ctx).counter_account)
        },
        old(ctx).extra_account_meta_list@.len() == 0 ==> {
            &&& r is Ok
            &&& final(ctx).extra_account_meta_list@.len() == descriptor_len()
            &&& le_value(final(ctx).extra_account_meta_list@.subrange(12, 16)) == 1
            &&& counter_view(final(ctx).counter_account) == match old(ctx).counter_account {
                Some(a) => Some(a@),
                None => Some(initial_state(old(ctx).payer@)),
            }
        },
{
    if ctx.extra_account_meta_list.len() != 0 {
        return Err(HookError::AlreadyInitialized);
    }
    let seeds = counter_seeds();
    proof {
        let configs = seeds@.map_values(|s: Seed| s@);
        assert(configs == policy_seed_configs());
        assert(configs.drop_last().drop_last() =~= Seq::<SeedConfig>::empty());
        assert(seed_rules_len(configs) == 13) by {
            reveal_with_fuel(seed_rules_len, 3);
        }
        assert(forall|i: int| 0 <= i < seeds@.len() ==> #[trigger] seeds@[i]@ == configs[i]);
    }
    let meta = match meta_with_seeds(&seeds, false, true) {
        Some(m) => m,
        None => {
            return Err(HookError::InvalidSeedConfig);
        },
    };
    let metas: Vec<ExtraAccountMeta> = vec![meta];
    let size = match meta_list_size(metas.len()) {
        Some(n) => n,
        None => {
            return Err(HookError::InvalidSeedConfig);
        },
    };
    let mut data = zeroed(size);
    let written = write_meta_list(&mut data, &metas);
    if !written {
        return Err(HookError::InvalidSeedConfig);
    }
    ctx.extra_account_meta_list = data;
    if ctx.counter_account.is_none() {
        ctx.counter_account = Some(
            CounterAccount { count: 0, authority: ctx.payer, white_list: Vec::new() },
        );
        assert(ctx.counter_account->Some_0@.white_list =~= Seq::<Seq<u8>>::empty());
    }
    Ok(())
}

} // verus!
