use vstd::prelude::*;

use crate::error::HookError;

verus! {

/// One rule for producing a seed of a derived account address.
#[derive(Debug)]
pub enum Seed {
    /// Fixed bytes, used as they are.
    Literal { bytes: Vec<u8> },
    /// `length` bytes starting at `data_index` in the stored data of the
    /// account at `account_index` of the resolution-time account list.
    AccountData { account_index: u8, data_index: u8, length: u8 },
}

/// The mathematical form of a [`Seed`].
pub enum SeedConfig {
    Literal(Seq<u8>),
    AccountData(u8, u8, u8),
}

impl View for Seed {
    type V = SeedConfig;

    open spec fn view(&self) -> SeedConfig {
        match self {
            Seed::Literal { bytes } => SeedConfig::Literal(bytes@),
            Seed::AccountData { account_index, data_index, length } => SeedConfig::AccountData(
                *account_index,
                *data_index,
                *length,
            ),
        }
    }
}

/// What a seed resolves to against the stored data of the supplied accounts,
/// or `None` where it reads outside them.
pub open spec fn resolved_seed(seed: SeedConfig, accounts: Seq<Seq<u8>>) -> Option<Seq<u8>> {
    match seed {
        SeedConfig::Literal(bytes) => Some(bytes),
        SeedConfig::AccountData(account_index, data_index, length) => {
            if account_index < accounts.len() && data_index + length
                <= accounts[account_index as int].len() {
                Some(
                    accounts[account_index as int].subrange(
                        data_index as int,
                        data_index + length,
                    ),
                )
            } else {
                None
            }
        },
    }
}

/// What a list of seeds resolves to: every seed's bytes, in order, or `None`
/// where any one of them reads outside the accounts.
pub open spec fn resolved_seeds(seeds: Seq<SeedConfig>, accounts: Seq<Seq<u8>>) -> Option<
    Seq<Seq<u8>>,
> {
    if forall|i: int| 0 <= i < seeds.len() ==> (#[trigger] resolved_seed(seeds[i], accounts)) is Some {
        Some(Seq::new(seeds.len(), |i: int| resolved_seed(seeds[i], accounts)->Some_0))
    } else {
        None
    }
}

/// The bytes `b"counter"` that begin every policy account's seeds.
pub open spec fn counter_tag() -> Seq<u8> {
    seq![99u8, 111u8, 117u8, 110u8, 116u8, 101u8, 114u8]
}

/// Offset of the owner's identity inside a token account's stored data.
pub const OWNER_OFFSET: u8 = 32;

/// Length in bytes of an identity.
pub const KEY_LEN: u8 = 32;

/// The rules that locate the policy account of a transfer's source owner:
/// the tag, then the owner's identity read from the source token account,
/// which stands first in the resolution-time account list.
pub open spec fn policy_seed_configs() -> Seq<SeedConfig> {
    seq![
        SeedConfig::Literal(counter_tag()),
        SeedConfig::AccountData(0, OWNER_OFFSET, KEY_LEN),
    ]
}

/// The seeds of the policy account that belongs to `owner`.
pub open spec fn policy_seeds(owner: Seq<u8>) -> Seq<Seq<u8>> {
    seq![counter_tag(), owner]
}

/// Copies `len` bytes of `src` starting at `start`.
fn copy_range(src: &Vec<u8>, start: usize, len: usize) -> (r: Vec<u8>)
    requires
        start + len <= src@.len(),
    ensures
        r@ == src@.subrange(start as int, start + len),
{
    let mut r: Vec<u8> = Vec::with_capacity(len);
    let mut i: usize = 0;
    while i < len
        invariant
            start + len <= src.len(),
            i <= len,
            r@ == src@.subrange(start as int, start + i),
        decreases len - i,
    {
        r.push(src[start + i]);
        i = i + 1;
        assert(r@ =~= src@.subrange(start as int, start + i));
    }
    r
}

/// Resolves one seed against the stored data of the supplied accounts.
pub fn resolve_seed(seed: &Seed, accounts: &Vec<Vec<u8>>) -> (r: Result<Vec<u8>, HookError>)
    ensures
        match resolved_seed(seed@, accounts.deep_view()) {
            Some(bytes) => r is Ok && r->Ok_0@ == bytes,
            None => r == Err::<Vec<u8>, HookError>(HookError::OutOfRange),
        },
{
    match seed {
        Seed::Literal { bytes } => Ok(copy_range(bytes, 0, bytes.len())),
        Seed::AccountData { account_index, data_index, length } => {
            let index = *account_index as usize;
            if index >= accounts.len() {
                return Err(HookError::OutOfRange);
            }
            let data = &accounts[index];
            let start = *data_index as usize;
            let len = *length as usize;
            if start + len > data.len() {
                return Err(HookError::OutOfRange);
            }
            let r = copy_range(data, start, len);
            assert(accounts.deep_view()[index as int] == data@);
            Ok(r)
        },
    }
}

/// Resolves every seed of a list, in order; fails with `OutOfRange` where any
/// one of them reads outside the accounts.
pub fn resolve_seeds(seeds: &Vec<Seed>, accounts: &Vec<Vec<u8>>) -> (r: Result<
    Vec<Vec<u8>>,
    HookError,
>)
    ensures
        match resolved_seeds(seeds@.map_values(|s: Seed| s@), accounts.deep_view()) {
            Some(all) => r is Ok && r->Ok_0.deep_view() == all,
            None => r == Err::<Vec<Vec<u8>>, HookError>(HookError::OutOfRange),
        },
{
    let ghost configs = seeds@.map_values(|s: Seed| s@);
    let ghost views = accounts.deep_view();
    let mut out: Vec<Vec<u8>> = Vec::with_capacity(seeds.len());
    let mut i: usize = 0;
    while i < seeds.len()
        invariant
            i <= seeds@.len(),
            configs == seeds@.map_values(|s: Seed| s@),
            views == accounts.deep_view(),
            out@.len() == i,
            forall|j: int|
                0 <= j < i ==> (#[trigger] resolved_seed(configs[j], views)) is Some
                    && out@[j]@ == resolved_seed(configs[j], views)->Some_0,
        decreases seeds.len() - i,
    {
        match resolve_seed(&seeds[i], accounts) {
            Ok(bytes) => {
                out.push(bytes);
            },
            Err(e) => {
                assert(resolved_seed(configs[i as int], views) is None);
                return Err(e);
            },
        }
        i = i + 1;
    }
    assert(forall|j: int| 0 <= j < out@.len() ==> out.deep_view()[j] == out@[j]@);
    assert(out.deep_view() =~= Seq::new(
        configs.len(),
        |j: int| resolved_seed(configs[j], views)->Some_0,
    ));
    Ok(out)
}

/// The descriptor's seed rules for the policy account of a transfer's
/// source owner.
pub fn counter_seeds() -> (r: Vec<Seed>)
    ensures
        r@.map_values(|s: Seed| s@) == policy_seed_configs(),
{
    let tag: Vec<u8> = vec![99u8, 111u8, 117u8, 110u8, 116u8, 101u8, 114u8];
    let r = vec![
        Seed::Literal { bytes: tag },
        Seed::AccountData { account_index: 0, data_index: OWNER_OFFSET, length: KEY_LEN },
    ];
    assert(r@.map_values(|s: Seed| s@) =~= policy_seed_configs());
    r
}

} // verus!
