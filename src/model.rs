//! The governance state as plain values, and what each call does to it.
//!
//! Each call is a function from the state before the call (and its inputs)
//! to either the state after it or the error that refused it.
use vstd::prelude::*;

use crate::error::ErrorCode;
use crate::identity::Identity;
use crate::proposal::{
    AddSignatoryView,
    ChangeThreshold,
    ChangeTimeLimit,
    DeleteSignatory,
    TransferAmount,
};
use crate::signatory::{
    append_members,
    clear_votes,
    count_voted,
    fresh_ids,
    keys,
    unique_keys,
    ProposalKind,
    Signature,
};
use crate::treasury::{split_of, DepositSplit, PoolTransfer};

verus! {

/// Seconds in a day.
pub const DAY: i64 = 86400;

/// Days without activity after which the quorum starts to decay.
pub const DORMANCY_DAYS: u64 = 90;

/// Days that make one month of the decay schedule.
pub const MONTH_DAYS: u64 = 30;

/// The whole governance record of one pool.
pub struct GovernanceState {
    /// The pool's administrator.
    pub authority: Identity,
    /// The members, in the order they joined.
    pub signatories: Seq<Signature>,
    pub add: AddSignatoryView,
    pub delete: DeleteSignatory,
    pub change_threshold: ChangeThreshold,
    pub change_time_limit: ChangeTimeLimit,
    pub transfer_amount: TransferAmount,
    /// The votes every proposal but a change of threshold needs.
    pub threshold: u32,
    /// Seconds after which a proposal in flight may be replaced.
    pub time_limit: u32,
    /// When the group last carried out a proposal or was configured.
    pub last_tx: i64,
    /// The tokens deposited into the pool, net of fees.
    pub staked_amount: u32,
    /// The fee taken from each deposit, in percent.
    pub percent_transfer: u8,
    /// Whether the pool has been declared dormant by the fallback.
    pub shutdown: bool,
    /// When the quorum was last lowered by the dormancy rules.
    pub last_reduced_threshold: i64,
    /// The approval floor: the votes a change of threshold needs.
    pub approval: u32,
}

/// Whole days from `since` to `now`; none if `now` is not later.
pub open spec fn elapsed_days(now: i64, since: i64) -> int {
    if now <= since {
        0
    } else {
        (now - since) / (DAY as int)
    }
}

/// A proposal may be created when its slot is idle, or when the proposal in
/// it is older than the time limit.
pub open spec fn can_create(active: bool, created_at: i64, now: i64, time_limit: u32) -> bool {
    !active || now - created_at > time_limit
}

/// The first position of `id` among the members, or -1.
pub open spec fn find_index(s: Seq<Signature>, id: Identity) -> int
    decreases s.len(),
{
    if s.len() == 0 {
        -1
    } else {
        let j = find_index(s.drop_last(), id);
        if j >= 0 {
            j
        } else if s.last().key == id {
            s.len() - 1
        } else {
            -1
        }
    }
}

/// One vote less when the removed member had voted.
pub open spec fn drop_vote(votes: u32, had_voted: bool) -> u32 {
    if had_voted {
        (votes - 1) as u32
    } else {
        votes
    }
}

/// The state of a pool just created by `admin`, with `creator` as its one
/// signatory and threshold 1.
pub open spec fn initial_state(
    admin: Identity,
    creator: Identity,
    percent_transfer: u8,
    now: i64,
) -> GovernanceState {
    GovernanceState {
        authority: admin,
        signatories: seq![Signature::fresh(creator)],
        add: AddSignatoryView { status: false, new_signatory: seq![], timestamp: 0, votes: 0 },
        delete: DeleteSignatory {
            status: false,
            old_signatory: Identity::spec_zero(),
            timestamp: 0,
            votes: 0,
        },
        change_threshold: ChangeThreshold { status: false, new_threshold: 0, timestamp: 0, votes: 0 },
        change_time_limit: ChangeTimeLimit {
            status: false,
            new_time_limit: 0,
            timestamp: 0,
            votes: 0,
        },
        transfer_amount: TransferAmount {
            status: false,
            amount: 0,
            reciever: Identity::spec_zero(),
            timestamp: 0,
            votes: 0,
        },
        threshold: 1,
        time_limit: 0,
        last_tx: now,
        staked_amount: 0,
        percent_transfer,
        shutdown: false,
        last_reduced_threshold: 0,
        approval: 1,
    }
}

impl GovernanceState {
    /// Whether a proposal of kind `k` is in flight.
    pub open spec fn active(self, k: ProposalKind) -> bool {
        match k {
            ProposalKind::Add => self.add.status,
            ProposalKind::Delete => self.delete.status,
            ProposalKind::ChangeThreshold => self.change_threshold.status,
            ProposalKind::ChangeTimeLimit => self.change_time_limit.status,
            ProposalKind::TransferAmount => self.transfer_amount.status,
        }
    }

    /// The votes cast on the proposal of kind `k`.
    pub open spec fn votes(self, k: ProposalKind) -> u32 {
        match k {
            ProposalKind::Add => self.add.votes,
            ProposalKind::Delete => self.delete.votes,
            ProposalKind::ChangeThreshold => self.change_threshold.votes,
            ProposalKind::ChangeTimeLimit => self.change_time_limit.votes,
            ProposalKind::TransferAmount => self.transfer_amount.votes,
        }
    }

    /// When the proposal of kind `k` was created.
    pub open spec fn created_at(self, k: ProposalKind) -> i64 {
        match k {
            ProposalKind::Add => self.add.timestamp,
            ProposalKind::Delete => self.delete.timestamp,
            ProposalKind::ChangeThreshold => self.change_threshold.timestamp,
            ProposalKind::ChangeTimeLimit => self.change_time_limit.timestamp,
            ProposalKind::TransferAmount => self.transfer_amount.timestamp,
        }
    }

    /// The votes a proposal of kind `k` needs: the approval floor for a
    /// change of threshold, the threshold for every other kind.
    pub open spec fn quorum(self, k: ProposalKind) -> u32 {
        if k == ProposalKind::ChangeThreshold {
            self.approval
        } else {
            self.threshold
        }
    }

    /// The state's invariant.
    pub open spec fn wf(self) -> bool {
        &&& 1 <= self.threshold <= self.signatories.len() <= u32::MAX
        &&& 1 <= self.approval
        &&& self.percent_transfer <= 100
        &&& unique_keys(self.signatories)
        &&& self.change_threshold.status ==> self.change_threshold.new_threshold >= 1
        &&& forall|k: ProposalKind| #[trigger] self.votes(k) == count_voted(self.signatories, k)
        &&& forall|k: ProposalKind, i: int|
            0 <= i < self.signatories.len() && !self.active(k)
                ==> !#[trigger] self.signatories[i].voted(k)
    }

    /// The vote of member `i` on kind `k` recorded.
    pub open spec fn record_vote(self, i: int, k: ProposalKind) -> GovernanceState {
        let sigs = self.signatories.update(i, self.signatories[i].with_vote(k, true));
        let v = (self.votes(k) + 1) as u32;
        match k {
            ProposalKind::Add => GovernanceState {
                signatories: sigs,
                add: AddSignatoryView { votes: v, ..self.add },
                ..self
            },
            ProposalKind::Delete => GovernanceState {
                signatories: sigs,
                delete: DeleteSignatory { votes: v, ..self.delete },
                ..self
            },
            ProposalKind::ChangeThreshold => GovernanceState {
                signatories: sigs,
                change_threshold: ChangeThreshold { votes: v, ..self.change_threshold },
                ..self
            },
            ProposalKind::ChangeTimeLimit => GovernanceState {
                signatories: sigs,
                change_time_limit: ChangeTimeLimit { votes: v, ..self.change_time_limit },
                ..self
            },
            ProposalKind::TransferAmount => GovernanceState {
                signatories: sigs,
                transfer_amount: TransferAmount { votes: v, ..self.transfer_amount },
                ..self
            },
        }
    }

    /// The slot of kind `k` back to idle, and everyone's flag for it cleared.
    /// Closing a change of threshold also ends dormancy and its reductions.
    pub open spec fn reset(self, k: ProposalKind) -> GovernanceState {
        let sigs = clear_votes(self.signatories, k);
        match k {
            ProposalKind::Add => GovernanceState {
                signatories: sigs,
                add: AddSignatoryView {
                    status: false,
                    new_signatory: seq![],
                    timestamp: 0,
                    votes: 0,
                },
                ..self
            },
            ProposalKind::Delete => GovernanceState {
                signatories: sigs,
                delete: DeleteSignatory { status: false, timestamp: 0, votes: 0, ..self.delete },
                ..self
            },
            ProposalKind::ChangeThreshold => GovernanceState {
                signatories: sigs,
                change_threshold: ChangeThreshold {
                    status: false,
                    new_threshold: 0,
                    timestamp: 0,
                    votes: 0,
                },
                last_reduced_threshold: 0,
                shutdown: false,
                ..self
            },
            ProposalKind::ChangeTimeLimit => GovernanceState {
                signatories: sigs,
                change_time_limit: ChangeTimeLimit {
                    status: false,
                    new_time_limit: 0,
                    timestamp: 0,
                    votes: 0,
                },
                ..self
            },
            ProposalKind::TransferAmount => GovernanceState {
                signatories: sigs,
                transfer_amount: TransferAmount {
                    status: false,
                    amount: 0,
                    timestamp: 0,
                    votes: 0,
                    ..self.transfer_amount
                },
                ..self
            },
        }
    }

    /// A fresh proposal to add `ids`, created at `now`.
    pub open spec fn with_add_proposal(self, ids: Seq<Identity>, now: i64) -> GovernanceState {
        GovernanceState {
            signatories: clear_votes(self.signatories, ProposalKind::Add),
            add: AddSignatoryView { status: true, new_signatory: ids, timestamp: now, votes: 0 },
            ..self
        }
    }

    /// A fresh proposal to remove `id`, created at `now`.
    pub open spec fn with_delete_proposal(self, id: Identity, now: i64) -> GovernanceState {
        GovernanceState {
            signatories: clear_votes(self.signatories, ProposalKind::Delete),
            delete: DeleteSignatory { status: true, old_signatory: id, timestamp: now, votes: 0 },
            ..self
        }
    }

    /// A fresh proposal to set the threshold to `value`, created at `now`.
    /// The approval floor is left as it is.
    pub open spec fn with_threshold_proposal(self, value: u32, now: i64) -> GovernanceState {
        GovernanceState {
            signatories: clear_votes(self.signatories, ProposalKind::ChangeThreshold),
            change_threshold: ChangeThreshold {
                status: true,
                new_threshold: value,
                timestamp: now,
                votes: 0,
            },
            ..self
        }
    }

    /// A fresh proposal to set the time limit to `value`, created at `now`.
    pub open spec fn with_time_limit_proposal(self, value: u32, now: i64) -> GovernanceState {
        GovernanceState {
            signatories: clear_votes(self.signatories, ProposalKind::ChangeTimeLimit),
            change_time_limit: ChangeTimeLimit {
                status: true,
                new_time_limit: value,
                timestamp: now,
                votes: 0,
            },
            ..self
        }
    }

    /// A fresh proposal to pay `amount` to `receiver`, created at `now`.
    pub open spec fn with_transfer_proposal(
        self,
        amount: u32,
        receiver: Identity,
        now: i64,
    ) -> GovernanceState {
        GovernanceState {
            signatories: clear_votes(self.signatories, ProposalKind::TransferAmount),
            transfer_amount: TransferAmount {
                status: true,
                amount,
                reciever: receiver,
                timestamp: now,
                votes: 0,
            },
            ..self
        }
    }

    /// Member `j` taken out of the registry. The votes it had cast leave the
    /// counts, and the threshold shrinks to fit.
    pub open spec fn without_member(self, j: int) -> GovernanceState {
        let m = self.signatories[j];
        let rest = self.signatories.remove(j);
        let th: u32 = if self.threshold > rest.len() {
            rest.len() as u32
        } else {
            self.threshold
        };
        GovernanceState {
            signatories: rest,
            add: AddSignatoryView { votes: drop_vote(self.add.votes, m.add), ..self.add },
            delete: DeleteSignatory { votes: drop_vote(self.delete.votes, m.delete), ..self.delete },
            change_threshold: ChangeThreshold {
                votes: drop_vote(self.change_threshold.votes, m.change_threshold),
                ..self.change_threshold
            },
            change_time_limit: ChangeTimeLimit {
                votes: drop_vote(self.change_time_limit.votes, m.change_time_limit),
                ..self.change_time_limit
            },
            transfer_amount: TransferAmount {
                votes: drop_vote(self.transfer_amount.votes, m.transfer_amount),
                ..self.transfer_amount
            },
            threshold: th,
            ..self
        }
    }

    /// The threshold lowered by one, and the reduction stamped with `now`.
    pub open spec fn lowered(self, now: i64) -> GovernanceState {
        GovernanceState {
            threshold: (self.threshold - 1) as u32,
            last_reduced_threshold: now,
            ..self
        }
    }
}

/// Whether `value` can be a threshold for the members `s`.
pub open spec fn valid_threshold(s: Seq<Signature>, value: u32) -> bool {
    1 <= value <= s.len()
}

/// Configuring the first members: `ids` join, in order, and the threshold,
/// approval floor and time limit are set. Only the first signatory may do
/// it, and none of `ids` may be a member already or be listed twice.
pub open spec fn add_initial_step(
    s: GovernanceState,
    caller: Identity,
    ids: Seq<Identity>,
    threshold: u32,
    time_limit: u32,
    now: i64,
) -> Result<GovernanceState, ErrorCode> {
    if s.signatories[0].key != caller {
        Err(ErrorCode::InvalidSigner)
    } else if s.signatories.len() + ids.len() > u32::MAX {
        Err(ErrorCode::TooManySignatories)
    } else if !fresh_ids(s.signatories, ids) {
        Err(ErrorCode::DuplicateSignatory)
    } else if !valid_threshold(append_members(s.signatories, ids), threshold) {
        Err(ErrorCode::InvalidThreshold)
    } else {
        Ok(
            GovernanceState {
                signatories: append_members(s.signatories, ids),
                threshold,
                approval: threshold,
                time_limit,
                last_tx: now,
                ..s
            },
        )
    }
}

/// Proposing to add `ids` at `now`; none of them may be a member already or
/// be listed twice.
pub open spec fn propose_add_step(s: GovernanceState, ids: Seq<Identity>, now: i64) -> Result<
    GovernanceState,
    ErrorCode,
> {
    if !can_create(s.add.status, s.add.timestamp, now, s.time_limit) {
        Err(ErrorCode::ProposalInProgress)
    } else if !fresh_ids(s.signatories, ids) {
        Err(ErrorCode::DuplicateSignatory)
    } else {
        Ok(s.with_add_proposal(ids, now))
    }
}

/// Proposing to remove `id` at `now`; `id` must be a member.
pub open spec fn propose_remove_step(s: GovernanceState, id: Identity, now: i64) -> Result<
    GovernanceState,
    ErrorCode,
> {
    if !can_create(s.delete.status, s.delete.timestamp, now, s.time_limit) {
        Err(ErrorCode::ProposalInProgress)
    } else if !keys(s.signatories).contains(id) {
        Err(ErrorCode::SignatoryNotFound)
    } else {
        Ok(s.with_delete_proposal(id, now))
    }
}

/// Proposing at `now` to set the threshold to `value`.
///
/// Within 90 days of the last activity this is an ordinary proposal, which
/// also brings the approval floor back up to the threshold. After that the
/// quorum decays instead:
/// - with no reduction under way (floor equal to the threshold) the
///   threshold drops at once by one, plus one per 30 days beyond the 90, but
///   not below 1; no proposal is made;
/// - with a reduction under way (floor and threshold apart, as an earlier
///   reduction of either leaves them) the floor drops by
///   one per 30 days since the last reduction, but not below 1, and a
///   proposal for `value` is put up for that floor to decide; at least one
///   such 30-day period must have passed.
pub open spec fn propose_threshold_step(s: GovernanceState, value: u32, now: i64) -> Result<
    GovernanceState,
    ErrorCode,
> {
    if elapsed_days(now, s.last_tx) >= DORMANCY_DAYS {
        if s.approval != s.threshold {
            let months = elapsed_days(now, s.last_reduced_threshold) / (MONTH_DAYS as int);
            if months < 1 {
                Err(ErrorCode::MinimumTimeNotPassed)
            } else if !valid_threshold(s.signatories, value) {
                Err(ErrorCode::InvalidThreshold)
            } else {
                let floor: u32 = if s.approval - months > 1 {
                    (s.approval - months) as u32
                } else {
                    1
                };
                Ok(
                    GovernanceState {
                        approval: floor,
                        last_reduced_threshold: now,
                        ..s.with_threshold_proposal(value, now)
                    },
                )
            }
        } else {
            let months = (elapsed_days(now, s.last_tx) - DORMANCY_DAYS) / (MONTH_DAYS as int) + 1;
            let th: u32 = if s.threshold - months > 1 {
                (s.threshold - months) as u32
            } else {
                1
            };
            Ok(GovernanceState { threshold: th, last_reduced_threshold: now, ..s })
        }
    } else if !can_create(
        s.change_threshold.status,
        s.change_threshold.timestamp,
        now,
        s.time_limit,
    ) {
        Err(ErrorCode::ProposalInProgress)
    } else if !valid_threshold(s.signatories, value) {
        Err(ErrorCode::InvalidThreshold)
    } else {
        Ok(GovernanceState { approval: s.threshold, ..s.with_threshold_proposal(value, now) })
    }
}

/// Proposing at `now` to set the time limit to `value`.
pub open spec fn propose_time_limit_step(s: GovernanceState, value: u32, now: i64) -> Result<
    GovernanceState,
    ErrorCode,
> {
    if !can_create(s.change_time_limit.status, s.change_time_limit.timestamp, now, s.time_limit) {
        Err(ErrorCode::ProposalInProgress)
    } else {
        Ok(s.with_time_limit_proposal(value, now))
    }
}

/// Proposing at `now` to pay `amount` to `receiver`.
pub open spec fn propose_transfer_step(
    s: GovernanceState,
    amount: u32,
    receiver: Identity,
    now: i64,
) -> Result<GovernanceState, ErrorCode> {
    if !can_create(s.transfer_amount.status, s.transfer_amount.timestamp, now, s.time_limit) {
        Err(ErrorCode::ProposalInProgress)
    } else {
        Ok(s.with_transfer_proposal(amount, receiver, now))
    }
}

/// Carrying out the proposal of kind `k` (not a transfer) at `now`, once
/// the vote that reached quorum is recorded in `t`.
pub open spec fn execute_step(t: GovernanceState, k: ProposalKind, now: i64) -> Result<
    GovernanceState,
    ErrorCode,
> {
    match k {
        ProposalKind::Add => {
            if t.signatories.len() + t.add.new_signatory.len() > u32::MAX {
                Err(ErrorCode::TooManySignatories)
            } else if !fresh_ids(t.signatories, t.add.new_signatory) {
                Err(ErrorCode::DuplicateSignatory)
            } else {
                let r = t.reset(ProposalKind::Add);
                Ok(
                    GovernanceState {
                        signatories: append_members(r.signatories, t.add.new_signatory),
                        last_tx: now,
                        ..r
                    },
                )
            }
        },
        ProposalKind::Delete => {
            let j = find_index(t.signatories, t.delete.old_signatory);
            if j < 0 {
                Err(ErrorCode::SignatoryNotFound)
            } else if t.signatories.len() == 1 {
                Err(ErrorCode::MinimumThresholdReached)
            } else {
                Ok(
                    GovernanceState {
                        last_tx: now,
                        ..t.without_member(j).reset(ProposalKind::Delete)
                    },
                )
            }
        },
        ProposalKind::ChangeThreshold => {
            let n = t.change_threshold.new_threshold;
            let th: u32 = if n > t.signatories.len() {
                t.signatories.len() as u32
            } else {
                n
            };
            Ok(
                GovernanceState {
                    threshold: th,
                    approval: th,
                    last_tx: now,
                    ..t.reset(ProposalKind::ChangeThreshold)
                },
            )
        },
        ProposalKind::ChangeTimeLimit => Ok(
            GovernanceState {
                time_limit: t.change_time_limit.new_time_limit,
                last_tx: now,
                ..t.reset(ProposalKind::ChangeTimeLimit)
            },
        ),
        ProposalKind::TransferAmount => Ok(t),
    }
}

/// `signer` votes at `now` on the proposal of kind `k` (not a transfer).
/// The vote that brings the count to the quorum carries the proposal out.
pub open spec fn sign_step(s: GovernanceState, signer: Identity, k: ProposalKind, now: i64) -> Result<
    GovernanceState,
    ErrorCode,
> {
    let i = find_index(s.signatories, signer);
    if i < 0 {
        Err(ErrorCode::InvalidSigner)
    } else if !s.active(k) {
        Err(ErrorCode::NoProposalCreated)
    } else if s.signatories[i].voted(k) {
        Err(ErrorCode::RepeatedSignature)
    } else if s.votes(k) + 1 < s.quorum(k) {
        Ok(s.record_vote(i, k))
    } else {
        execute_step(s.record_vote(i, k), k, now)
    }
}

/// `signer` votes on the transfer, naming `wallet` as the withdrawal
/// wallet. The vote that reaches the threshold releases the transfer, if
/// `wallet` is the proposal's receiver and the pool is dormant or needs more
/// than one vote.
pub open spec fn sign_transfer_step(s: GovernanceState, signer: Identity, wallet: Identity) -> Result<
    (GovernanceState, Option<PoolTransfer>),
    ErrorCode,
> {
    let k = ProposalKind::TransferAmount;
    let i = find_index(s.signatories, signer);
    if i < 0 {
        Err(ErrorCode::InvalidSigner)
    } else if !s.active(k) {
        Err(ErrorCode::NoProposalCreated)
    } else if s.signatories[i].voted(k) {
        Err(ErrorCode::RepeatedSignature)
    } else if s.votes(k) + 1 < s.threshold {
        Ok((s.record_vote(i, k), None))
    } else if s.transfer_amount.reciever != wallet {
        Err(ErrorCode::InvalidReciever)
    } else if !s.shutdown && s.threshold == 1 {
        Err(ErrorCode::CannotTransferDueToLowThreshold)
    } else {
        Ok(
            (
                s.record_vote(i, k).reset(k),
                Some(PoolTransfer { amount: s.transfer_amount.amount, receiver: wallet }),
            ),
        )
    }
}

/// A deposit of `amount` of the asset `mint` into a pool whose asset is
/// `pool_mint`: the pool's share is staked and the split returned.
pub open spec fn deposit_step(
    s: GovernanceState,
    pool_mint: Identity,
    mint: Identity,
    amount: u32,
) -> Result<(GovernanceState, DepositSplit), ErrorCode> {
    if pool_mint != mint {
        Err(ErrorCode::MintMismatch)
    } else if s.staked_amount + split_of(amount, s.percent_transfer).pool_share > u32::MAX {
        Err(ErrorCode::StakeOverflow)
    } else {
        let d = split_of(amount, s.percent_transfer);
        Ok(
            (
                GovernanceState {
                    staked_amount: (s.staked_amount + d.pool_share) as u32,
                    ..s
                },
                d,
            ),
        )
    }
}

/// The fallback for an abandoned pool, at `now`. After 90 idle days it marks
/// the pool dormant and lowers the threshold by one; once dormant, it lowers
/// it by one more every 30 days. The threshold never goes below 1, and
/// nothing but the dormancy mark, the threshold and the time of the last
/// reduction changes.
pub open spec fn fall_back_step(s: GovernanceState, now: i64) -> Result<GovernanceState, ErrorCode> {
    if !s.shutdown {
        if elapsed_days(now, s.last_tx) < DORMANCY_DAYS {
            Err(ErrorCode::ShutDownCannotBeActivated)
        } else if s.threshold <= 1 {
            Err(ErrorCode::MinimumThresholdReached)
        } else {
            Ok(GovernanceState { shutdown: true, ..s.lowered(now) })
        }
    } else if elapsed_days(now, s.last_reduced_threshold) < MONTH_DAYS {
        Err(ErrorCode::MinimumTimeNotPassed)
    } else if s.threshold <= 1 {
        Err(ErrorCode::MinimumThresholdReached)
    } else {
        Ok(s.lowered(now))
    }
}

/// `after` is what `step` gives from `before`: the new state when the step
/// succeeds, or the same state and the step's error when it fails.
pub open spec fn applied(
    step: Result<GovernanceState, ErrorCode>,
    r: Result<(), ErrorCode>,
    before: GovernanceState,
    after: GovernanceState,
) -> bool {
    match step {
        Ok(t) => r == Ok::<(), ErrorCode>(()) && after == t,
        Err(e) => r == Err::<(), ErrorCode>(e) && after == before,
    }
}

} // verus!
