//! The proposal slots: one per kind, each idle or holding one proposal.
use vstd::prelude::*;

use crate::identity::Identity;

verus! {

/// The slot for adding signatories: the keys to add once quorum is reached.
#[derive(Debug)]
pub struct AddSignatory {
    pub status: bool,
    pub new_signatory: Vec<Identity>,
    pub timestamp: i64,
    pub votes: u32,
}

/// What an [`AddSignatory`] slot holds, with the keys as a sequence.
pub struct AddSignatoryView {
    pub status: bool,
    pub new_signatory: Seq<Identity>,
    pub timestamp: i64,
    pub votes: u32,
}

impl View for AddSignatory {
    type V = AddSignatoryView;

    open spec fn view(&self) -> AddSignatoryView {
        AddSignatoryView {
            status: self.status,
            new_signatory: self.new_signatory@,
            timestamp: self.timestamp,
            votes: self.votes,
        }
    }
}

/// The slot for removing one signatory.
#[derive(Clone, Copy, Debug, PartialEq, Eq, Structural)]
pub struct DeleteSignatory {
    pub status: bool,
    pub old_signatory: Identity,
    pub timestamp: i64,
    pub votes: u32,
}

/// The slot for changing the threshold.
#[derive(Clone, Copy, Debug, PartialEq, Eq, Structural)]
pub struct ChangeThreshold {
    pub status: bool,
    pub new_threshold: u32,
    pub timestamp: i64,
    pub votes: u32,
}

/// The slot for changing the proposal time limit (in seconds).
#[derive(Clone, Copy, Debug, PartialEq, Eq, Structural)]
pub struct ChangeTimeLimit {
    pub status: bool,
    pub new_time_limit: u32,
    pub timestamp: i64,
    pub votes: u32,
}

/// The slot for moving `amount` out of the pool to `reciever`.
#[derive(Clone, Copy, Debug, PartialEq, Eq, Structural)]
pub struct TransferAmount {
    pub status: bool,
    pub amount: u32,
    pub reciever: Identity,
    pub timestamp: i64,
    pub votes: u32,
}

impl AddSignatory {
    /// An idle slot.
    pub fn idle() -> (r: AddSignatory)
        ensures
            r@ == (AddSignatoryView { status: false, new_signatory: seq![], timestamp: 0, votes: 0 }),
    {
        AddSignatory { status: false, new_signatory: Vec::new(), timestamp: 0, votes: 0 }
    }
}

impl DeleteSignatory {
    /// An idle slot.
    pub fn idle() -> (r: DeleteSignatory)
        ensures
            r == (DeleteSignatory {
                status: false,
                old_signatory: Identity::spec_zero(),
                timestamp: 0,
                votes: 0,
            }),
    {
        DeleteSignatory { status: false, old_signatory: Identity::zero(), timestamp: 0, votes: 0 }
    }
}

impl ChangeThreshold {
    /// An idle slot.
    pub fn idle() -> (r: ChangeThreshold)
        ensures
            r == (ChangeThreshold { status: false, new_threshold: 0, timestamp: 0, votes: 0 }),
    {
        ChangeThreshold { status: false, new_threshold: 0, timestamp: 0, votes: 0 }
    }
}

impl ChangeTimeLimit {
    /// An idle slot.
    pub fn idle() -> (r: ChangeTimeLimit)
        ensures
            r == (ChangeTimeLimit { status: false, new_time_limit: 0, timestamp: 0, votes: 0 }),
    {
        ChangeTimeLimit { status: false, new_time_limit: 0, timestamp: 0, votes: 0 }
    }
}

impl TransferAmount {
    /// An idle slot.
    pub fn idle() -> (r: TransferAmount)
        ensures
            r == (TransferAmount {
                status: false,
                amount: 0,
                reciever: Identity::spec_zero(),
                timestamp: 0,
                votes: 0,
            }),
    {
        TransferAmount {
            status: false,
            amount: 0,
            reciever: Identity::zero(),
            timestamp: 0,
            votes: 0,
        }
    }
}

} // verus!
