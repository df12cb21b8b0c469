use vstd::prelude::*;

verus! {

/// Every way an operation of the hook can fail. Each failure leaves the
/// accounts it was given exactly as they were.
#[derive(Clone, Copy, Debug, PartialEq, Eq, Structural)]
pub enum HookError {
    /// The transfer moves more than the policy ceiling allows.
    AmountExceedsLimit,
    /// The destination is not on the owner's allow-list.
    DestinationNotAllowed,
    /// The caller is not the authority of the policy account.
    Unauthorized,
    /// The allow-list already holds as many entries as its account can store.
    CapacityExceeded,
    /// The descriptor account for this mint has already been allocated.
    AlreadyInitialized,
    /// A seed reads past the end of an account, or names an account that was not supplied.
    OutOfRange,
    /// The descriptor's seeds do not fit in one account-meta entry.
    InvalidSeedConfig,
    /// The instruction bytes could not be decoded.
    MalformedInstruction,
    /// The instruction decoded to an operation that this hook does not serve.
    UnsupportedInstruction,
}

} // verus!
