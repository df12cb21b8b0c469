//! A pre-transfer policy hook for a token-transfer pipeline: an account
//! resolution descriptor that tells callers which extra accounts to attach,
//! and a hook that enforces a transfer ceiling and a destination allow-list.

pub mod error;
pub mod seeds;
pub mod policy;
pub mod descriptor;
pub mod dispatch;
pub mod laws;


pub use error::HookError;
pub use seeds::{counter_seeds, resolve_seed, resolve_seeds, Seed, SeedConfig};

pub use policy::{
    add_outcome, add_to_white_list, hook_outcome, initial_state, next_count, transfer_hook,
    CounterAccount, CounterState, TransferHook, MAX_TRANSFER_AMOUNT, MAX_WHITE_LIST_LEN,
};
pub use descriptor::{
    descriptor_len, initialize_extra_account_meta_list, le_value, meta_list_len, InitializeExtraAccountMetaList,
};
pub use dispatch::{fallback, route_instruction, route_outcome, HookInstruction};
pub use laws::{
    lemma_add_by_authority_appends, lemma_add_by_stranger_refused,
    lemma_allowed_transfer_counts_once, lemma_amount_over_limit_refused,
    lemma_descriptor_locates_policy_account, lemma_destination_not_allowed_refused,
    lemma_owner_seed_reads_identity, lemma_policy_lifecycle, lemma_resolution_deterministic,
};
