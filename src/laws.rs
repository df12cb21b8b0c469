use vstd::prelude::*;

use crate::error::HookError;
use crate::policy::{
    add_outcome, hook_outcome, initial_state, CounterState, MAX_TRANSFER_AMOUNT,
    MAX_WHITE_LIST_LEN,
};
use crate::seeds::{
    policy_seed_configs, policy_seeds, resolved_seed, resolved_seeds, SeedConfig, KEY_LEN,
    OWNER_OFFSET,
};

verus! {

/// A transfer within the ceiling to an allowed destination goes through and
/// raises the counter by exactly one; the authority and the allow-list stay
/// as they were.
pub proof fn lemma_allowed_transfer_counts_once(
    state: CounterState,
    destination: Seq<u8>,
    amount: u64,
)
    requires
        amount <= MAX_TRANSFER_AMOUNT,
        state.white_list.contains(destination),
        state.count < u64::MAX,
    ensures
        hook_outcome(state, destination, amount) matches Ok(after) && after.count == state.count
            + 1 && after.authority == state.authority && after.white_list == state.white_list,
{
}

/// A transfer above the ceiling is refused with `AmountExceedsLimit`,
/// whatever the destination.
pub proof fn lemma_amount_over_limit_refused(
    state: CounterState,
    destination: Seq<u8>,
    amount: u64,
)
    requires
        amount > MAX_TRANSFER_AMOUNT,
    ensures
        hook_outcome(state, destination, amount) == Err::<CounterState, HookError>(
            HookError::AmountExceedsLimit,
        ),
{
}

/// A transfer within the ceiling to a destination that is not allowed is
/// refused with `DestinationNotAllowed`; an empty allow-list refuses every
/// destination.
pub proof fn lemma_destination_not_allowed_refused(
    state: CounterState,
    destination: Seq<u8>,
    amount: u64,
)
    requires
        amount <= MAX_TRANSFER_AMOUNT,
        !state.white_list.contains(destination),
    ensures
        hook_outcome(state, destination, amount) == Err::<CounterState, HookError>(
            HookError::DestinationNotAllowed,
        ),
        state.white_list.len() == 0 ==> !state.white_list.contains(destination),
{
}

/// Only the authority may change the allow-list: anyone else is refused with
/// `Unauthorized`.
pub proof fn lemma_add_by_stranger_refused(state: CounterState, caller: Seq<u8>, address: Seq<u8>)
    requires
        caller != state.authority,
    ensures
        add_outcome(state, caller, address) == Err::<CounterState, HookError>(
            HookError::Unauthorized,
        ),
{
}

/// An addition by the authority to a list with room appends exactly one
/// entry, keeps every earlier entry in its place, and touches nothing else.
pub proof fn lemma_add_by_authority_appends(state: CounterState, address: Seq<u8>)
    requires
        state.white_list.len() < MAX_WHITE_LIST_LEN,
    ensures
        add_outcome(state, state.authority, address) matches Ok(after) && after.white_list.len()
            == state.white_list.len() + 1 && after.white_list.subrange(
            0,
            state.white_list.len() as int,
        ) == state.white_list && after.white_list.last() == address && after.count
            == state.count && after.authority == state.authority,
{
    let after = state.white_list.push(address);
    assert(after.subrange(0, state.white_list.len() as int) =~= state.white_list);
}

/// Resolving a seed depends on the seed and the accounts' bytes alone: the
/// same inputs always give the same bytes or the same refusal.
pub proof fn lemma_resolution_deterministic(
    seed: SeedConfig,
    accounts: Seq<Seq<u8>>,
    again: Seq<Seq<u8>>,
)
    requires
        accounts == again,
    ensures
        resolved_seed(seed, accounts) == resolved_seed(seed, again),
{
}

/// The owner seed reads the 32 bytes at offset 32 of the first account, and
/// is refused where that account holds fewer than 64 bytes.
pub proof fn lemma_owner_seed_reads_identity(accounts: Seq<Seq<u8>>)
    requires
        accounts.len() > 0,
    ensures
        accounts[0].len() >= 64 ==> resolved_seed(
            SeedConfig::AccountData(0, OWNER_OFFSET, KEY_LEN),
            accounts,
        ) == Some(accounts[0].subrange(32, 64)),
        accounts[0].len() < 64 ==> resolved_seed(
            SeedConfig::AccountData(0, OWNER_OFFSET, KEY_LEN),
            accounts,
        ) is None,
{
}

/// The descriptor's seed rules, resolved against a transfer whose source
/// token account records `owner` at offset 32, give exactly the seeds of
/// that owner's policy account.
pub proof fn lemma_descriptor_locates_policy_account(accounts: Seq<Seq<u8>>, owner: Seq<u8>)
    requires
        accounts.len() > 0,
        accounts[0].len() >= 64,
        accounts[0].subrange(32, 64) == owner,
    ensures
        resolved_seeds(policy_seed_configs(), accounts) == Some(policy_seeds(owner)),
{
    let configs = policy_seed_configs();
    assert(resolved_seed(configs[0], accounts) is Some);
    assert(resolved_seed(configs[1], accounts) is Some);
    assert(Seq::new(configs.len(), |i: int| resolved_seed(configs[i], accounts)->Some_0)
        =~= policy_seeds(owner));
}

/// A payer's fresh policy record, once the payer allows `destination`, lets
/// a transfer of 10 through and counts it, then refuses a transfer of 100
/// and keeps the count at one.
pub proof fn lemma_policy_lifecycle(payer: Seq<u8>, destination: Seq<u8>)
    ensures
        initial_state(payer).count == 0,
        initial_state(payer).white_list.len() == 0,
        add_outcome(initial_state(payer), payer, destination) is Ok,
        add_outcome(initial_state(payer), payer, destination)->Ok_0.white_list == seq![
            destination,
        ],
        hook_outcome(
            add_outcome(initial_state(payer), payer, destination)->Ok_0,
            destination,
            10,
        ) is Ok,
        hook_outcome(
            add_outcome(initial_state(payer), payer, destination)->Ok_0,
            destination,
            10,
        )->Ok_0.count == 1,
        hook_outcome(
            hook_outcome(
                add_outcome(initial_state(payer), payer, destination)->Ok_0,
                destination,
                10,
            )->Ok_0,
            destination,
            100,
        ) == Err::<CounterState, HookError>(HookError::AmountExceedsLimit),
{
    let fresh = initial_state(payer);
    let allowed = add_outcome(fresh, payer, destination)->Ok_0;
    assert(allowed.white_list =~= seq![destination]);
    assert(allowed.white_list[0] == destination);
}

} // verus!
