//! Why a governance or treasury call was refused.
use vstd::prelude::*;

verus! {

/// Every refusal names its cause. A refused call leaves the state unchanged.
#[derive(Clone, Copy, Debug, PartialEq, Eq, Structural)]
pub enum ErrorCode {
    /// The caller is not a current signatory.
    InvalidSigner,
    /// The caller has already voted on this proposal.
    RepeatedSignature,
    /// There is no proposal of this kind to vote on.
    NoProposalCreated,
    /// A proposal of this kind is in flight and has not timed out.
    ProposalInProgress,
    /// The signatory to remove is not a member.
    SignatoryNotFound,
    /// The threshold is already 1, or a removal would leave nobody.
    MinimumThresholdReached,
    /// The pool has not been idle for 90 days.
    ShutDownCannotBeActivated,
    /// Not enough time has passed since the last reduction of the quorum.
    MinimumTimeNotPassed,
    /// The withdrawal wallet is not the receiver the proposal named.
    InvalidReciever,
    /// A pool with threshold 1 that is not dormant may not move funds.
    CannotTransferDueToLowThreshold,
    /// The deposited asset is not the pool's asset.
    MintMismatch,
    /// A threshold must be at least 1 and at most the number of signatories.
    InvalidThreshold,
    /// An identity to add is already a signatory, or is listed twice.
    DuplicateSignatory,
    /// The registry would hold more signatories than a `u32` can count.
    TooManySignatories,
    /// The staked amount would no longer fit in a `u32`.
    StakeOverflow,
}

} // verus!
