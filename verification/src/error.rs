use vstd::prelude::*;

verus! {

/// Why an engine operation was refused. Every refusal is terminal for the
/// attempted call and leaves the group and the proposal exactly as they
/// were before it.
#[derive(Clone, Copy, PartialEq, Eq, Structural, Debug)]
pub enum ErrorCode {
    /// The given identity is not a current owner of the group.
    UnknownSigner,
    /// The proposal was created under an owner set that is no longer
    /// current: its snapshot version differs from the group's.
    StaleConfig,
    /// Fewer distinct approvals were recorded than the group's threshold.
    QuorumNotReached,
    /// The proposal has already been executed and is burnt.
    AlreadyExecuted,
    /// The requested threshold is zero or exceeds the number of owners.
    InvalidThreshold,
    /// The presented credential is not the group's derived authority.
    Unauthorized,
    /// An owner list was empty or named the same identity twice.
    InvalidOwnerSet,
}

} // verus!
