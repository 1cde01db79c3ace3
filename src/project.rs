//! The calls a pool answers: set-up, proposals, votes, deposits, transfers
//! and the dormancy fallback.
//!
//! Each call takes the time `now` from its caller, applies one step of
//! [`crate::model`] to the record, and leaves the record untouched when it
//! fails.
use vstd::prelude::*;

use crate::error::ErrorCode;
use crate::general::GeneralParameter;
use crate::identity::Identity;
use crate::model::{
    add_initial_step,
    applied,
    deposit_step,
    fall_back_step,
    initial_state,
    propose_add_step,
    propose_remove_step,
    propose_threshold_step,
    propose_time_limit_step,
    propose_transfer_step,
    sign_step,
    sign_transfer_step,
    DORMANCY_DAYS,
    MONTH_DAYS,
};
use crate::preservation::{
    lemma_add_initial_wf,
    lemma_count_votes_for_removal,
    lemma_find_index_same_keys,
    lemma_record_vote_wf,
    lemma_remove_after_vote,
    lemma_reset_after_vote,
    lemma_sign_transfer_wf,
    lemma_sign_wf,
    lemma_deposit_fall_back_wf,
    lemma_find_index,
    lemma_initial_wf,
    lemma_propose_wf,
};
use crate::proposal::{
    AddSignatory,
    ChangeThreshold,
    ChangeTimeLimit,
    DeleteSignatory,
    TransferAmount,
};
use crate::signatory::{keys, ProposalKind, Signature};
use crate::state::{
    clear_votes_in,
    days_between,
    ids_are_fresh,
    may_create,
    merged_members,
    position_of,
    ProjectParameter,
};
use crate::treasury::{split_deposit, DepositSplit, PoolTransfer};

verus! {

/// A new pool, administered by `admin`, with `creator` as its one signatory
/// and a deposit fee of `percent_transfer` percent, created at `now`.
pub fn initialize(admin: Identity, creator: Identity, percent_transfer: u8, now: i64) -> (r:
    ProjectParameter)
    requires
        percent_transfer <= 100,
    ensures
        r@ == initial_state(admin, creator, percent_transfer, now),
        r@.wf(),
{
    proof {
        lemma_initial_wf(admin, creator, percent_transfer, now);
    }
    let mut signatories: Vec<Signature> = Vec::new();
    signatories.push(Signature::new(creator));
    let r = ProjectParameter {
        authority: admin,
        signatories,
        add: AddSignatory::idle(),
        delete: DeleteSignatory::idle(),
        change_threshold: ChangeThreshold::idle(),
        change_time_limit: ChangeTimeLimit::idle(),
        transfer_amount: TransferAmount::idle(),
        threshold: 1,
        time_limit: 0,
        last_tx: now,
        staked_amount: 0,
        percent_transfer,
        shutdown: false,
        last_reduced_threshold: 0,
        approval: 1,
    };
    assert(r@.signatories =~= initial_state(admin, creator, percent_transfer, now).signatories);
    r
}

/// The first signatory adds `signatures` as members, in order, and sets the
/// threshold, the approval floor and the time limit. An identity that is
/// already a member, or is listed twice, is refused.
pub fn add_initial_signatories(
    parameters: &mut ProjectParameter,
    caller: Identity,
    signatures: Vec<Identity>,
    threshold: u32,
    time_limit: u32,
    now: i64,
) -> (r: Result<(), ErrorCode>)
    requires
        old(parameters)@.wf(),
    ensures
        applied(
            add_initial_step(old(parameters)@, caller, signatures@, threshold, time_limit, now),
            r,
            old(parameters)@,
            final(parameters)@,
        ),
        final(parameters)@.wf(),
{
    proof {
        lemma_add_initial_wf(parameters@, caller, signatures@, threshold, time_limit, now);
    }
    if !(parameters.signatories[0].key == caller) {
        return Err(ErrorCode::InvalidSigner);
    }
    if signatures.len() > (u32::MAX as usize) - parameters.signatories.len() {
        return Err(ErrorCode::TooManySignatories);
    }
    if !ids_are_fresh(&parameters.signatories, &signatures) {
        return Err(ErrorCode::DuplicateSignatory);
    }
    let merged = merged_members(&parameters.signatories, &signatures);
    if threshold < 1 || threshold as usize > merged.len() {
        return Err(ErrorCode::InvalidThreshold);
    }
    parameters.signatories = merged;
    parameters.threshold = threshold;
    parameters.approval = threshold;
    parameters.time_limit = time_limit;
    parameters.last_tx = now;
    Ok(())
}

/// Proposes, at `now`, to add `signatory` to the members; an identity that
/// is already a member, or is listed twice, is refused.
pub fn add_new_signatory_proposal(
    parameters: &mut ProjectParameter,
    signatory: Vec<Identity>,
    now: i64,
) -> (r: Result<(), ErrorCode>)
    requires
        old(parameters)@.wf(),
    ensures
        applied(
            propose_add_step(old(parameters)@, signatory@, now),
            r,
            old(parameters)@,
            final(parameters)@,
        ),
        final(parameters)@.wf(),
{
    proof {
        lemma_propose_wf(parameters@, signatory@, Identity::spec_zero(), 0, 0, now);
    }
    if !may_create(parameters.add.status, parameters.add.timestamp, now, parameters.time_limit) {
        return Err(ErrorCode::ProposalInProgress);
    }
    if !ids_are_fresh(&parameters.signatories, &signatory) {
        return Err(ErrorCode::DuplicateSignatory);
    }
    parameters.create_add(signatory, now);
    Ok(())
}

/// Proposes, at `now`, to remove the member `signatory`.
pub fn remove_signatory_proposal(parameters: &mut ProjectParameter, signatory: Identity, now: i64) -> (r:
    Result<(), ErrorCode>)
    requires
        old(parameters)@.wf(),
    ensures
        applied(
            propose_remove_step(old(parameters)@, signatory, now),
            r,
            old(parameters)@,
            final(parameters)@,
        ),
        final(parameters)@.wf(),
{
    proof {
        lemma_propose_wf(parameters@, seq![], signatory, 0, 0, now);
    }
    if !may_create(
        parameters.delete.status,
        parameters.delete.timestamp,
        now,
        parameters.time_limit,
    ) {
        return Err(ErrorCode::ProposalInProgress);
    }
    let index = parameters.get_index(signatory);
    if index == usize::MAX {
        return Err(ErrorCode::SignatoryNotFound);
    }
    parameters.create_delete(signatory, now);
    Ok(())
}

/// Proposes, at `now`, to set the threshold to `threshold`; after 90 idle
/// days this lowers the quorum instead, as [`propose_threshold_step`] says.
pub fn change_threshold_proposal(parameters: &mut ProjectParameter, threshold: u32, now: i64) -> (r:
    Result<(), ErrorCode>)
    requires
        old(parameters)@.wf(),
    ensures
        applied(
            propose_threshold_step(old(parameters)@, threshold, now),
            r,
            old(parameters)@,
            final(parameters)@,
        ),
        final(parameters)@.wf(),
{
    proof {
        lemma_propose_wf(parameters@, seq![], Identity::spec_zero(), threshold, 0, now);
    }
    let days = days_between(now, parameters.last_tx);
    let valid = 1 <= threshold && threshold as usize <= parameters.signatories.len();
    if days >= DORMANCY_DAYS {
        if parameters.approval != parameters.threshold {
            let months = days_between(now, parameters.last_reduced_threshold) / MONTH_DAYS;
            if months < 1 {
                return Err(ErrorCode::MinimumTimeNotPassed);
            }
            if !valid {
                return Err(ErrorCode::InvalidThreshold);
            }
            let floor: u32 = if (parameters.approval as u64) > months && (parameters.approval as u64)
                - months > 1 {
                parameters.approval - (months as u32)
            } else {
                1
            };
            parameters.reduce_approval(threshold, now);
            parameters.approval = floor;
            parameters.last_reduced_threshold = now;
        } else {
            let months = (days - DORMANCY_DAYS) / MONTH_DAYS + 1;
            let lowered: u32 = if (parameters.threshold as u64) > months && (
            parameters.threshold as u64) - months > 1 {
                parameters.threshold - (months as u32)
            } else {
                1
            };
            parameters.threshold = lowered;
            parameters.last_reduced_threshold = now;
        }
    } else {
        if !may_create(
            parameters.change_threshold.status,
            parameters.change_threshold.timestamp,
            now,
            parameters.time_limit,
        ) {
            return Err(ErrorCode::ProposalInProgress);
        }
        if !valid {
            return Err(ErrorCode::InvalidThreshold);
        }
        parameters.create_change(threshold, now);
    }
    Ok(())
}

/// Proposes, at `now`, to set the time limit to `time_limit` seconds.
pub fn change_time_limit_proposal(parameters: &mut ProjectParameter, time_limit: u32, now: i64) -> (r:
    Result<(), ErrorCode>)
    requires
        old(parameters)@.wf(),
    ensures
        applied(
            propose_time_limit_step(old(parameters)@, time_limit, now),
            r,
            old(parameters)@,
            final(parameters)@,
        ),
        final(parameters)@.wf(),
{
    proof {
        lemma_propose_wf(parameters@, seq![], Identity::spec_zero(), time_limit, 0, now);
    }
    if !may_create(
        parameters.change_time_limit.status,
        parameters.change_time_limit.timestamp,
        now,
        parameters.time_limit,
    ) {
        return Err(ErrorCode::ProposalInProgress);
    }
    parameters.create_time_limit(time_limit, now);
    Ok(())
}

/// Proposes, at `now`, to pay `amount` out of the pool to `reciever`.
pub fn transfer_amount_proposal(
    parameters: &mut ProjectParameter,
    amount: u32,
    reciever: Identity,
    now: i64,
) -> (r: Result<(), ErrorCode>)
    requires
        old(parameters)@.wf(),
    ensures
        applied(
            propose_transfer_step(old(parameters)@, amount, reciever, now),
            r,
            old(parameters)@,
            final(parameters)@,
        ),
        final(parameters)@.wf(),
{
    proof {
        lemma_propose_wf(parameters@, seq![], reciever, 0, amount, now);
    }
    if !may_create(
        parameters.transfer_amount.status,
        parameters.transfer_amount.timestamp,
        now,
        parameters.time_limit,
    ) {
        return Err(ErrorCode::ProposalInProgress);
    }
    parameters.create_transfer_amount(amount, reciever, now);
    Ok(())
}

/// `signer` votes, at `now`, on the proposal of kind `kind`. The vote that
/// brings the count to the quorum carries the proposal out: new members
/// join, the member to remove leaves, or the threshold or time limit
/// changes. Transfers are voted on with [`sign_transfer`].
pub fn sign_proposal(
    parameters: &mut ProjectParameter,
    signer: Identity,
    kind: ProposalKind,
    now: i64,
) -> (r: Result<(), ErrorCode>)
    requires
        old(parameters)@.wf(),
        kind != ProposalKind::TransferAmount,
    ensures
        applied(
            sign_step(old(parameters)@, signer, kind, now),
            r,
            old(parameters)@,
            final(parameters)@,
        ),
        final(parameters)@.wf(),
{
    proof {
        lemma_sign_wf(parameters@, signer, kind, now);
        lemma_find_index(parameters@.signatories, signer);
    }
    let final_index = parameters.get_index(signer);
    if final_index == usize::MAX {
        return Err(ErrorCode::InvalidSigner);
    }
    if !parameters.is_active(kind) {
        return Err(ErrorCode::NoProposalCreated);
    }
    if parameters.signatories[final_index].has_voted(kind) {
        return Err(ErrorCode::RepeatedSignature);
    }
    let ghost s = parameters@;
    proof {
        lemma_record_vote_wf(s, final_index as int, kind);
        lemma_reset_after_vote(s, final_index as int, kind);
        assert(keys(s.record_vote(final_index as int, kind).signatories) =~= keys(s.signatories));
    }
    let votes = parameters.votes_of(kind) + 1;
    if votes < parameters.quorum_of(kind) {
        parameters.record_vote(final_index, kind);
        return Ok(());
    }
    match kind {
        ProposalKind::Add => {
            if parameters.add.new_signatory.len() > (u32::MAX as usize)
                - parameters.signatories.len() {
                return Err(ErrorCode::TooManySignatories);
            }
            if !ids_are_fresh(&parameters.signatories, &parameters.add.new_signatory) {
                return Err(ErrorCode::DuplicateSignatory);
            }
            clear_votes_in(&mut parameters.signatories, ProposalKind::Add);
            let merged = merged_members(&parameters.signatories, &parameters.add.new_signatory);
            parameters.signatories = merged;
            parameters.add.votes = 0;
            parameters.add.status = false;
            parameters.add.timestamp = 0;
            parameters.add.new_signatory = Vec::new();
            parameters.last_tx = now;
        },
        ProposalKind::Delete => {
            let index = position_of(&parameters.signatories, parameters.delete.old_signatory);
            proof {
                lemma_find_index_same_keys(
                    s.record_vote(final_index as int, kind).signatories,
                    s.signatories,
                    s.delete.old_signatory,
                );
                lemma_find_index(s.signatories, s.delete.old_signatory);
            }
            if index == usize::MAX {
                return Err(ErrorCode::SignatoryNotFound);
            }
            if parameters.signatories.len() == 1 {
                return Err(ErrorCode::MinimumThresholdReached);
            }
            proof {
                lemma_count_votes_for_removal(s, index as int);
                lemma_remove_after_vote(s, final_index as int, index as int);
                assert(s.votes(ProposalKind::Add) == s.add.votes);
                assert(s.votes(ProposalKind::ChangeThreshold) == s.change_threshold.votes);
                assert(s.votes(ProposalKind::ChangeTimeLimit) == s.change_time_limit.votes);
                assert(s.votes(ProposalKind::TransferAmount) == s.transfer_amount.votes);
            }
            let removed = parameters.signatories.remove(index);
            if removed.add {
                parameters.add.votes = parameters.add.votes - 1;
            }
            if removed.change_threshold {
                parameters.change_threshold.votes = parameters.change_threshold.votes - 1;
            }
            if removed.change_time_limit {
                parameters.change_time_limit.votes = parameters.change_time_limit.votes - 1;
            }
            if removed.transfer_amount {
                parameters.transfer_amount.votes = parameters.transfer_amount.votes - 1;
            }
            let members = parameters.signatories.len() as u32;
            if parameters.threshold > members {
                parameters.threshold = members;
            }
            parameters.reset_delete();
            parameters.last_tx = now;
        },
        ProposalKind::ChangeThreshold => {
            let proposed = parameters.change_threshold.new_threshold;
            let members = parameters.signatories.len();
            let threshold: u32 = if proposed as usize > members {
                members as u32
            } else {
                proposed
            };
            parameters.reset_change();
            parameters.threshold = threshold;
            parameters.approval = threshold;
            parameters.last_tx = now;
        },
        ProposalKind::ChangeTimeLimit => {
            let time_limit = parameters.change_time_limit.new_time_limit;
            parameters.reset_time_limit();
            parameters.time_limit = time_limit;
            parameters.last_tx = now;
        },
        ProposalKind::TransferAmount => {},
    }
    Ok(())
}

/// `signer` votes on the transfer proposal, naming `wallet_to_withdraw_from`
/// as the wallet to pay. The vote that reaches the threshold releases the
/// transfer, which the caller then makes from the pool; it is refused when
/// the wallet is not the proposal's receiver, or when the threshold is 1 and
/// the pool is not dormant.
pub fn sign_transfer(
    parameters: &mut ProjectParameter,
    signer: Identity,
    wallet_to_withdraw_from: Identity,
) -> (r: Result<Option<PoolTransfer>, ErrorCode>)
    requires
        old(parameters)@.wf(),
    ensures
        match sign_transfer_step(old(parameters)@, signer, wallet_to_withdraw_from) {
            Ok((t, x)) => r == Ok::<Option<PoolTransfer>, ErrorCode>(x) && final(parameters)@ == t,
            Err(e) => r == Err::<Option<PoolTransfer>, ErrorCode>(e) && final(parameters)@ == old(
                parameters,
            )@,
        },
        final(parameters)@.wf(),
{
    let kind = ProposalKind::TransferAmount;
    proof {
        lemma_sign_transfer_wf(parameters@, signer, wallet_to_withdraw_from);
        lemma_find_index(parameters@.signatories, signer);
    }
    let final_index = parameters.get_index(signer);
    if final_index == usize::MAX {
        return Err(ErrorCode::InvalidSigner);
    }
    if !parameters.transfer_amount.status {
        return Err(ErrorCode::NoProposalCreated);
    }
    if parameters.signatories[final_index].transfer_amount {
        return Err(ErrorCode::RepeatedSignature);
    }
    let ghost s = parameters@;
    proof {
        lemma_record_vote_wf(s, final_index as int, kind);
        lemma_reset_after_vote(s, final_index as int, kind);
    }
    if parameters.transfer_amount.votes + 1 < parameters.threshold {
        parameters.record_vote(final_index, kind);
        return Ok(None);
    }
    if !(parameters.transfer_amount.reciever == wallet_to_withdraw_from) {
        return Err(ErrorCode::InvalidReciever);
    }
    if !parameters.shutdown && parameters.threshold == 1 {
        return Err(ErrorCode::CannotTransferDueToLowThreshold);
    }
    let amount = parameters.transfer_amount.amount;
    parameters.reset_transfer_amount();
    Ok(Some(PoolTransfer { amount, receiver: wallet_to_withdraw_from }))
}

/// A deposit of `amount` tokens of the asset `token_mint`. The pool's share
/// is added to the staked amount, and the split is returned for the caller
/// to move: the pool's share into the pool, then the fee to the
/// administrative wallet.
pub fn deposit_funds(
    parameters: &mut ProjectParameter,
    general_parameters: &GeneralParameter,
    token_mint: Identity,
    amount: u32,
) -> (r: Result<DepositSplit, ErrorCode>)
    requires
        old(parameters)@.wf(),
    ensures
        match deposit_step(old(parameters)@, general_parameters.token_mint, token_mint, amount) {
            Ok((t, d)) => r == Ok::<DepositSplit, ErrorCode>(d) && final(parameters)@ == t,
            Err(e) => r == Err::<DepositSplit, ErrorCode>(e) && final(parameters)@ == old(
                parameters,
            )@,
        },
        final(parameters)@.wf(),
{
    proof {
        lemma_deposit_fall_back_wf(parameters@, general_parameters.token_mint, token_mint, amount, 0);
    }
    if !(general_parameters.token_mint == token_mint) {
        return Err(ErrorCode::MintMismatch);
    }
    let split = split_deposit(amount, parameters.percent_transfer);
    if split.pool_share > u32::MAX - parameters.staked_amount {
        return Err(ErrorCode::StakeOverflow);
    }
    parameters.staked_amount = parameters.staked_amount + split.pool_share;
    Ok(split)
}

/// The fallback for an abandoned pool, at `now`: after 90 days without
/// activity the pool becomes dormant and its threshold drops by one, and
/// while dormant it drops by one more every 30 days, never below 1.
pub fn fall_back(parameters: &mut ProjectParameter, now: i64) -> (r: Result<(), ErrorCode>)
    requires
        old(parameters)@.wf(),
    ensures
        applied(fall_back_step(old(parameters)@, now), r, old(parameters)@, final(parameters)@),
        final(parameters)@.wf(),
{
    proof {
        lemma_deposit_fall_back_wf(
            parameters@,
            Identity::spec_zero(),
            Identity::spec_zero(),
            0,
            now,
        );
    }
    if !parameters.shutdown {
        if days_between(now, parameters.last_tx) < DORMANCY_DAYS {
            return Err(ErrorCode::ShutDownCannotBeActivated);
        }
        if parameters.threshold <= 1 {
            return Err(ErrorCode::MinimumThresholdReached);
        }
        parameters.shutdown = true;
    } else {
        if days_between(now, parameters.last_reduced_threshold) < MONTH_DAYS {
            return Err(ErrorCode::MinimumTimeNotPassed);
        }
        if parameters.threshold <= 1 {
            return Err(ErrorCode::MinimumThresholdReached);
        }
    }
    parameters.threshold = parameters.threshold - 1;
    parameters.last_reduced_threshold = now;
    Ok(())
}

} // verus!
