//! What holds of the governance engine across calls.
use vstd::prelude::*;

use crate::error::ErrorCode;
use crate::identity::Identity;
use crate::model::{
    add_initial_step,
    deposit_step,
    fall_back_step,
    elapsed_days,
    find_index,
    propose_add_step,
    propose_remove_step,
    propose_threshold_step,
    propose_time_limit_step,
    propose_transfer_step,
    sign_step,
    sign_transfer_step,
    GovernanceState,
    DORMANCY_DAYS,
};
use crate::preservation::{
    keeps_wf,
    lemma_add_initial_wf,
    lemma_clear_votes,
    lemma_deposit_fall_back_wf,
    lemma_propose_wf,
    lemma_sign_transfer_wf,
    lemma_sign_wf,
    lemma_find_index,
    lemma_find_index_same_keys,
    lemma_record_vote_wf,
    lemma_reset_after_vote,
    split_kind,
};
use crate::signatory::{
    count_voted,
    fresh_ids,
    keys,
    lemma_count_voted_bound,
    lemma_voters_count,
    unique_keys,
    voters,
    ProposalKind,
};
use crate::treasury::{lemma_pool_share_bound, split_of};

verus! {

/// Whether `signer` may cast a vote on the proposal of kind `k` now: it is
/// a member, the proposal is in flight, and it has not voted on it yet.
pub open spec fn fresh_vote(s: GovernanceState, signer: Identity, k: ProposalKind) -> bool {
    &&& keys(s.signatories).contains(signer)
    &&& s.active(k)
    &&& !s.signatories[find_index(s.signatories, signer)].voted(k)
}

/// Recording a fresh vote adds the voter to the set of distinct voters.
pub proof fn lemma_vote_adds_voter(s: GovernanceState, signer: Identity, k: ProposalKind)
    requires
        s.wf(),
        fresh_vote(s, signer, k),
    ensures
        s.record_vote(find_index(s.signatories, signer), k).wf(),
        voters(s.record_vote(find_index(s.signatories, signer), k).signatories, k) == voters(
            s.signatories,
            k,
        ).insert(signer),
        voters(s.signatories, k).len() == s.votes(k),
        !voters(s.signatories, k).contains(signer),
{
    let i = find_index(s.signatories, signer);
    lemma_find_index(s.signatories, signer);
    lemma_record_vote_wf(s, i, k);
    lemma_reset_after_vote(s, i, k);
    lemma_voters_count(s.signatories, k);
    let t = s.record_vote(i, k);
    assert(t.signatories == s.signatories.update(i, s.signatories[i].with_vote(k, true))) by {
        split_kind(k);
    }
    assert(t.signatories[i].voted(k)) by {
        split_kind(k);
    }
    assert forall|id: Identity|
        voters(t.signatories, k).contains(id) == voters(s.signatories, k).insert(signer).contains(
            id,
        ) by {
        if voters(t.signatories, k).contains(id) && id != signer {
            let m = choose|m: int|
                0 <= m < t.signatories.len() && t.signatories[m].key == id
                    && t.signatories[m].voted(k);
            assert(m != i);
            assert(t.signatories[m] == s.signatories[m]);
        }
        if voters(s.signatories, k).contains(id) {
            let m = choose|m: int|
                0 <= m < s.signatories.len() && s.signatories[m].key == id
                    && s.signatories[m].voted(k);
            assert(m != i);
            assert(t.signatories[m] == s.signatories[m]);
        }
    }
    assert(voters(t.signatories, k) =~= voters(s.signatories, k).insert(signer));
    assert(s.votes(k) == count_voted(s.signatories, k));
    assert(!voters(s.signatories, k).contains(signer)) by {
        if voters(s.signatories, k).contains(signer) {
            let m = choose|m: int|
                0 <= m < s.signatories.len() && s.signatories[m].key == signer
                    && s.signatories[m].voted(k);
            assert(m >= i);
            assert(unique_keys(s.signatories));
        }
    }
}

/// Quorum safety. A fresh vote on a proposal that is not a transfer adds
/// its voter to the distinct identities that voted. While that number stays
/// below the quorum the vote is only recorded; once it reaches the quorum
/// the vote carries the proposal out, closing its slot, unless the proposal
/// cannot be carried out at all (the registry would overflow, an identity to
/// add has become a member meanwhile, or the member to remove is gone or the
/// last).
pub proof fn lemma_quorum_safety(s: GovernanceState, signer: Identity, k: ProposalKind, now: i64)
    requires
        s.wf(),
        k != ProposalKind::TransferAmount,
        fresh_vote(s, signer, k),
    ensures
        voters(s.signatories, k).insert(signer).len() < s.quorum(k) ==> (sign_step(
            s,
            signer,
            k,
            now,
        ) matches Ok(t) && t.active(k) && voters(t.signatories, k) == voters(
            s.signatories,
            k,
        ).insert(signer)),
        voters(s.signatories, k).insert(signer).len() >= s.quorum(k) ==> match sign_step(
            s,
            signer,
            k,
            now,
        ) {
            Ok(t) => !t.active(k),
            Err(e) => e == ErrorCode::TooManySignatories || e == ErrorCode::DuplicateSignatory || e
                == ErrorCode::SignatoryNotFound || e == ErrorCode::MinimumThresholdReached,
        },
{
    let i = find_index(s.signatories, signer);
    lemma_find_index(s.signatories, signer);
    lemma_vote_adds_voter(s, signer, k);
    lemma_voters_count(s.signatories, k);
    lemma_record_vote_wf(s, i, k);
    lemma_reset_after_vote(s, i, k);
    let t = s.record_vote(i, k);
    assert(t.active(k)) by {
        split_kind(k);
    }
    lemma_clear_votes(s.signatories, k);
    split_kind(k);
}

/// Quorum safety for transfers. A fresh vote adds its voter to the distinct
/// identities that voted. While that number stays below the threshold the
/// vote is only recorded; once it reaches the threshold the vote either
/// releases the transfer and closes the slot, or is refused because the
/// wallet is wrong or a threshold of 1 is not backed by dormancy.
pub proof fn lemma_transfer_quorum_safety(s: GovernanceState, signer: Identity, wallet: Identity)
    requires
        s.wf(),
        fresh_vote(s, signer, ProposalKind::TransferAmount),
    ensures
        voters(s.signatories, ProposalKind::TransferAmount).insert(signer).len() < s.threshold
            ==> (sign_transfer_step(s, signer, wallet) matches Ok((t, None)) && t.active(
            ProposalKind::TransferAmount,
        ) && voters(t.signatories, ProposalKind::TransferAmount) == voters(
            s.signatories,
            ProposalKind::TransferAmount,
        ).insert(signer)),
        voters(s.signatories, ProposalKind::TransferAmount).insert(signer).len() >= s.threshold
            ==> match sign_transfer_step(s, signer, wallet) {
            Ok((t, x)) => x == Some(
                crate::treasury::PoolTransfer { amount: s.transfer_amount.amount, receiver: wallet },
            ) && !t.active(ProposalKind::TransferAmount),
            Err(e) => e == ErrorCode::InvalidReciever || e
                == ErrorCode::CannotTransferDueToLowThreshold,
        },
{
    let k = ProposalKind::TransferAmount;
    lemma_find_index(s.signatories, signer);
    lemma_vote_adds_voter(s, signer, k);
    lemma_voters_count(s.signatories, k);
}

/// No double vote. After a vote on a proposal that is not a transfer, while
/// that same proposal is still in flight, a second vote by the same identity
/// is refused as repeated.
pub proof fn lemma_no_double_vote(
    s: GovernanceState,
    signer: Identity,
    k: ProposalKind,
    now: i64,
    later: i64,
)
    requires
        s.wf(),
        k != ProposalKind::TransferAmount,
        sign_step(s, signer, k, now) matches Ok(t) && t.active(k),
    ensures
        sign_step(sign_step(s, signer, k, now)->Ok_0, signer, k, later) == Err::<
            GovernanceState,
            ErrorCode,
        >(ErrorCode::RepeatedSignature),
{
    let i = find_index(s.signatories, signer);
    lemma_find_index(s.signatories, signer);
    lemma_reset_after_vote(s, i, k);
    let t = s.record_vote(i, k);
    lemma_find_index_same_keys(t.signatories, s.signatories, signer);
    split_kind(k);
    lemma_clear_votes(s.signatories, k);
    assert(t.signatories == s.signatories.update(i, s.signatories[i].with_vote(k, true)));
    assert(t.signatories[i].voted(k));
}

/// No double vote on transfers. After a vote on the transfer, while the same
/// transfer is still in flight, a second vote by the same identity is
/// refused as repeated, whatever wallet it names.
pub proof fn lemma_no_double_transfer_vote(
    s: GovernanceState,
    signer: Identity,
    wallet: Identity,
    other_wallet: Identity,
)
    requires
        s.wf(),
        sign_transfer_step(s, signer, wallet) matches Ok((t, _)) && t.active(
            ProposalKind::TransferAmount,
        ),
    ensures
        sign_transfer_step(sign_transfer_step(s, signer, wallet)->Ok_0.0, signer, other_wallet)
            == Err::<(GovernanceState, Option<crate::treasury::PoolTransfer>), ErrorCode>(
            ErrorCode::RepeatedSignature,
        ),
{
    let k = ProposalKind::TransferAmount;
    let i = find_index(s.signatories, signer);
    lemma_find_index(s.signatories, signer);
    lemma_reset_after_vote(s, i, k);
    let t = s.record_vote(i, k);
    lemma_find_index_same_keys(t.signatories, s.signatories, signer);
    assert(t.signatories[i].voted(k));
}

/// Stale supersession. A proposal in flight for longer than the time limit
/// is replaced by a new one, which starts with no votes and every flag of
/// its kind cleared; one that is younger makes a new proposal of its kind
/// fail as in progress. For a change of threshold this is while the pool has
/// been active within 90 days, and for every replacement the new payload
/// must be admissible.
pub proof fn lemma_stale_supersession(
    s: GovernanceState,
    ids: Seq<Identity>,
    id: Identity,
    value: u32,
    amount: u32,
    now: i64,
)
    requires
        s.wf(),
    ensures
        s.add.status && now - s.add.timestamp > s.time_limit && fresh_ids(s.signatories, ids)
            ==> propose_add_step(s, ids, now) is Ok,
        s.add.status && now - s.add.timestamp <= s.time_limit ==> propose_add_step(s, ids, now)
            == Err::<GovernanceState, ErrorCode>(ErrorCode::ProposalInProgress),
        propose_add_step(s, ids, now) matches Ok(t) ==> fresh_start(t, ProposalKind::Add, now),
        s.delete.status && now - s.delete.timestamp > s.time_limit && keys(s.signatories).contains(
            id,
        ) ==> propose_remove_step(s, id, now) is Ok,
        s.delete.status && now - s.delete.timestamp <= s.time_limit ==> propose_remove_step(
            s,
            id,
            now,
        ) == Err::<GovernanceState, ErrorCode>(ErrorCode::ProposalInProgress),
        propose_remove_step(s, id, now) matches Ok(t) ==> fresh_start(
            t,
            ProposalKind::Delete,
            now,
        ),
        elapsed_days(now, s.last_tx) < DORMANCY_DAYS && s.change_threshold.status && now
            - s.change_threshold.timestamp > s.time_limit && 1 <= value <= s.signatories.len()
            ==> (propose_threshold_step(s, value, now) matches Ok(t) && fresh_start(
            t,
            ProposalKind::ChangeThreshold,
            now,
        )),
        elapsed_days(now, s.last_tx) < DORMANCY_DAYS && s.change_threshold.status && now
            - s.change_threshold.timestamp <= s.time_limit ==> propose_threshold_step(s, value, now)
            == Err::<GovernanceState, ErrorCode>(ErrorCode::ProposalInProgress),
        s.change_time_limit.status ==> (now - s.change_time_limit.timestamp > s.time_limit
            <==> propose_time_limit_step(s, value, now) is Ok),
        s.change_time_limit.status && now - s.change_time_limit.timestamp <= s.time_limit
            ==> propose_time_limit_step(s, value, now) == Err::<GovernanceState, ErrorCode>(
            ErrorCode::ProposalInProgress,
        ),
        propose_time_limit_step(s, value, now) matches Ok(t) ==> fresh_start(
            t,
            ProposalKind::ChangeTimeLimit,
            now,
        ),
        s.transfer_amount.status ==> (now - s.transfer_amount.timestamp > s.time_limit
            <==> propose_transfer_step(s, amount, id, now) is Ok),
        s.transfer_amount.status && now - s.transfer_amount.timestamp <= s.time_limit
            ==> propose_transfer_step(s, amount, id, now) == Err::<GovernanceState, ErrorCode>(
            ErrorCode::ProposalInProgress,
        ),
        propose_transfer_step(s, amount, id, now) matches Ok(t) ==> fresh_start(
            t,
            ProposalKind::TransferAmount,
            now,
        ),
{
    lemma_clear_votes(s.signatories, ProposalKind::Add);
    lemma_clear_votes(s.signatories, ProposalKind::Delete);
    lemma_clear_votes(s.signatories, ProposalKind::ChangeThreshold);
    lemma_clear_votes(s.signatories, ProposalKind::ChangeTimeLimit);
    lemma_clear_votes(s.signatories, ProposalKind::TransferAmount);
}

/// A proposal of kind `k` that has just started at `now`: in flight, created
/// at `now`, with no votes and no member flagged as having voted on it.
pub open spec fn fresh_start(t: GovernanceState, k: ProposalKind, now: i64) -> bool {
    &&& t.active(k)
    &&& t.created_at(k) == now
    &&& t.votes(k) == 0
    &&& forall|i: int| 0 <= i < t.signatories.len() ==> !#[trigger] t.signatories[i].voted(k)
}

/// Deposit split exactness. A deposit of `amount` with a fee of
/// `fee_percent` percent gives the pool `amount * (100 - fee_percent) / 100`,
/// rounded down, and the administrative wallet the rest; the two add up to
/// the deposit, and the pool's part is what is staked.
pub proof fn lemma_deposit_split(
    s: GovernanceState,
    pool_mint: Identity,
    amount: u32,
)
    requires
        s.wf(),
    ensures
        split_of(amount, s.percent_transfer).pool_share == amount * (100 - s.percent_transfer)
            / 100,
        split_of(amount, s.percent_transfer).pool_share + split_of(
            amount,
            s.percent_transfer,
        ).fee_share == amount,
        deposit_step(s, pool_mint, pool_mint, amount) matches Ok((t, d)) ==> d == split_of(
            amount,
            s.percent_transfer,
        ) && t.staked_amount == s.staked_amount + d.pool_share,
{
    lemma_pool_share_bound(amount, s.percent_transfer);
}

/// Threshold bound. In a well-formed state the threshold is at least 1 and
/// at most the number of signatories, the approval floor is at least 1, and
/// no proposal has more votes than there are signatories;
/// and every call that succeeds leads to a well-formed state again.
pub proof fn lemma_threshold_bound(
    s: GovernanceState,
    caller: Identity,
    ids: Seq<Identity>,
    id: Identity,
    value: u32,
    amount: u32,
    k: ProposalKind,
    now: i64,
)
    requires
        s.wf(),
    ensures
        1 <= s.threshold <= s.signatories.len(),
        1 <= s.approval,
        forall|j: ProposalKind| #[trigger] s.votes(j) <= s.signatories.len(),
        keeps_wf(add_initial_step(s, caller, ids, value, amount, now)),
        keeps_wf(propose_add_step(s, ids, now)),
        keeps_wf(propose_remove_step(s, id, now)),
        keeps_wf(propose_threshold_step(s, value, now)),
        keeps_wf(propose_time_limit_step(s, value, now)),
        keeps_wf(propose_transfer_step(s, amount, id, now)),
        keeps_wf(sign_step(s, caller, k, now)),
        sign_transfer_step(s, caller, id) matches Ok((t, _)) ==> t.wf(),
        deposit_step(s, caller, id, amount) matches Ok((t, _)) ==> t.wf(),
        keeps_wf(fall_back_step(s, now)),
{
    assert forall|j: ProposalKind| #[trigger] s.votes(j) <= s.signatories.len() by {
        lemma_count_voted_bound(s.signatories, j);
    }
    lemma_add_initial_wf(s, caller, ids, value, amount, now);
    lemma_propose_wf(s, ids, id, value, amount, now);
    lemma_sign_wf(s, caller, k, now);
    lemma_sign_transfer_wf(s, caller, id);
    lemma_deposit_fall_back_wf(s, caller, id, amount, now);
}

} // verus!
