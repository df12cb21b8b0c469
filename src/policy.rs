use vstd::prelude::*;

use crate::error::HookError;

verus! {

/// The largest amount a single transfer may move under the policy.
pub const MAX_TRANSFER_AMOUNT: u64 = 50;

/// The most destinations an allow-list can hold: the policy account is
/// allocated once, with room for this many entries.
pub const MAX_WHITE_LIST_LEN: usize = 10;

/// Per-owner policy record: how many transfers the hook has let through,
/// who may change the allow-list, and the destinations that may receive.
#[derive(Debug)]
pub struct CounterAccount {
    pub count: u64,
    pub authority: [u8; 32],
    pub white_list: Vec<[u8; 32]>,
}

/// The mathematical form of a [`CounterAccount`].
pub struct CounterState {
    pub count: u64,
    pub authority: Seq<u8>,
    pub white_list: Seq<Seq<u8>>,
}

impl View for CounterAccount {
    type V = CounterState;

    open spec fn view(&self) -> CounterState {
        CounterState {
            count: self.count,
            authority: self.authority@,
            white_list: self.white_list@.map_values(|k: [u8; 32]| k@),
        }
    }
}

/// The accounts a transfer hands the hook, in the order the token engine
/// supplies them: the first four belong to the transfer itself, the rest
/// were found through the descriptor.
#[derive(Debug)]
pub struct TransferHook {
    pub source_token: [u8; 32],
    pub mint: [u8; 32],
    pub destination_token: [u8; 32],
    pub owner: [u8; 32],
    pub extra_account_meta_list: [u8; 32],
    pub counter_account: CounterAccount,
}

/// The identities of `a` and `b` are the same.
pub open spec fn same_keys(a: TransferHook, b: TransferHook) -> bool {
    &&& a.source_token == b.source_token
    &&& a.mint == b.mint
    &&& a.destination_token == b.destination_token
    &&& a.owner == b.owner
    &&& a.extra_account_meta_list == b.extra_account_meta_list
}

/// The policy record of an owner that has not yet changed anything.
pub open spec fn initial_state(authority: Seq<u8>) -> CounterState {
    CounterState { count: 0, authority, white_list: Seq::empty() }
}

/// The counter after one more transfer; it wraps at the top of `u64`.
pub open spec fn next_count(count: u64) -> u64 {
    if count == u64::MAX {
        0
    } else {
        (count + 1) as u64
    }
}

/// The policy record after the hook ran for a transfer of `amount` to
/// `destination`, or the error that aborts it.
pub open spec fn hook_outcome(state: CounterState, destination: Seq<u8>, amount: u64) -> Result<
    CounterState,
    HookError,
> {
    if amount > MAX_TRANSFER_AMOUNT {
        Err(HookError::AmountExceedsLimit)
    } else if !state.white_list.contains(destination) {
        Err(HookError::DestinationNotAllowed)
    } else {
        Ok(
            CounterState {
                count: next_count(state.count),
                authority: state.authority,
                white_list: state.white_list,
            },
        )
    }
}

/// The policy record after `caller` asked to allow `address`, or the error
/// that refuses it.
pub open spec fn add_outcome(state: CounterState, caller: Seq<u8>, address: Seq<u8>) -> Result<
    CounterState,
    HookError,
> {
    if caller != state.authority {
        Err(HookError::Unauthorized)
    } else if state.white_list.len() >= MAX_WHITE_LIST_LEN {
        Err(HookError::CapacityExceeded)
    } else {
        Ok(
            CounterState {
                count: state.count,
                authority: state.authority,
                white_list: state.white_list.push(address),
            },
        )
    }
}

/// Compares two identities byte by byte.
fn keys_equal(a: &[u8; 32], b: &[u8; 32]) -> (r: bool)
    ensures
        r == (a@ == b@),
{
    let mut i: usize = 0;
    while i < 32
        invariant
            i <= 32,
            a@.len() == 32,
            b@.len() == 32,
            forall|j: int| 0 <= j < i ==> a@[j] == b@[j],
        decreases 32 - i,
    {
        if a[i] != b[i] {
            return false;
        }
        i = i + 1;
    }
    assert(a@ =~= b@);
    true
}

/// Whether `key` is on `list`.
fn list_contains(list: &Vec<[u8; 32]>, key: &[u8; 32]) -> (r: bool)
    ensures
        r == list@.map_values(|k: [u8; 32]| k@).contains(key@),
{
    let ghost views = list@.map_values(|k: [u8; 32]| k@);
    let mut i: usize = 0;
    while i < list.len()
        invariant
            i <= list@.len(),
            views == list@.map_values(|k: [u8; 32]| k@),
            forall|j: int| 0 <= j < i ==> views[j] != key@,
        decreases list.len() - i,
    {
        if keys_equal(&list[i], key) {
            assert(views[i as int] == key@);
            return true;
        }
        i = i + 1;
    }
    false
}

/// Runs the policy for a transfer of `amount`: refuses more than the
/// ceiling, refuses a destination that is not allowed, and otherwise counts
/// the transfer. A refusal changes nothing.
pub fn transfer_hook(ctx: &mut TransferHook, amount: u64) -> (r: Result<(), HookError>)
    ensures
        same_keys(*final(ctx), *old(ctx)),
        final(ctx).counter_account.authority == old(ctx).counter_account.authority,
        match hook_outcome(old(ctx).counter_account@, old(ctx).destination_token@, amount) {
            Ok(state) => r == Ok::<(), HookError>(()) && final(ctx).counter_account@ == state,
            Err(e) => r == Err::<(), HookError>(e) && final(ctx).counter_account@
                == old(ctx).counter_account@,
        },
{
    if amount > MAX_TRANSFER_AMOUNT {
        return Err(HookError::AmountExceedsLimit);
    }
    if !list_contains(&ctx.counter_account.white_list, &ctx.destination_token) {
        return Err(HookError::DestinationNotAllowed);
    }
    if ctx.counter_account.count == u64::MAX {
        ctx.counter_account.count = 0;
    } else {
        ctx.counter_account.count = ctx.counter_account.count + 1;
    }
    Ok(())
}

/// Lets the policy's authority, acting as the transfer's owner, allow one
/// more destination. Anyone else is refused, and so is an addition to a
/// full list; a refusal changes nothing.
pub fn add_to_white_list(ctx: &mut TransferHook, address: [u8; 32]) -> (r: Result<(), HookError>)
    ensures
        same_keys(*final(ctx), *old(ctx)),
        final(ctx).counter_account.authority == old(ctx).counter_account.authority,
        match add_outcome(old(ctx).counter_account@, old(ctx).owner@, address@) {
            Ok(state) => r == Ok::<(), HookError>(()) && final(ctx).counter_account@ == state,
            Err(e) => r == Err::<(), HookError>(e) && final(ctx).counter_account@
                == old(ctx).counter_account@,
        },
{
    if !keys_equal(&ctx.counter_account.authority, &ctx.owner) {
        return Err(HookError::Unauthorized);
    }
    if ctx.counter_account.white_list.len() >= MAX_WHITE_LIST_LEN {
        return Err(HookError::CapacityExceeded);
    }
    ctx.counter_account.white_list.push(address);
    assert(ctx.counter_account@.white_list =~= old(ctx).counter_account@.white_list.push(
        address@,
    ));
    Ok(())
}

} // verus!
