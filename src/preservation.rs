//! Every step keeps the state's invariant.
use vstd::prelude::*;

use crate::error::ErrorCode;
use crate::identity::Identity;
use crate::model::{
    add_initial_step,
    deposit_step,
    elapsed_days,
    execute_step,
    fall_back_step,
    find_index,
    initial_state,
    propose_add_step,
    propose_remove_step,
    propose_threshold_step,
    propose_time_limit_step,
    propose_transfer_step,
    sign_step,
    sign_transfer_step,
    GovernanceState,
    DORMANCY_DAYS,
};
use crate::signatory::{
    append_members,
    clear_votes,
    fresh_ids,
    lemma_append_members,
    lemma_count_voted_remove,
    count_voted,
    keys,
    lemma_count_voted_below,
    lemma_count_voted_clear,
    lemma_count_voted_set,
    unique_keys,
    ProposalKind,
    Signature,
};

verus! {

/// Case analysis on the kind of a proposal.
pub proof fn split_kind(k: ProposalKind)
    ensures
        k == ProposalKind::Add || k == ProposalKind::Delete || k == ProposalKind::ChangeThreshold
            || k == ProposalKind::ChangeTimeLimit || k == ProposalKind::TransferAmount,
{
}

/// What clearing the flags of kind `k` does to a registry.
pub proof fn lemma_clear_votes(s: Seq<Signature>, k: ProposalKind)
    ensures
        clear_votes(s, k).len() == s.len(),
        keys(clear_votes(s, k)) == keys(s),
        unique_keys(s) ==> unique_keys(clear_votes(s, k)),
        forall|i: int| 0 <= i < s.len() ==> (#[trigger] clear_votes(s, k)[i]).key == s[i].key,
        forall|i: int, j: ProposalKind|
            0 <= i < s.len() ==> #[trigger] clear_votes(s, k)[i].voted(j) == (j != k
                && s[i].voted(j)),
        forall|j: ProposalKind|
            #[trigger] count_voted(clear_votes(s, k), j) == if j == k {
                0
            } else {
                count_voted(s, j)
            },
{
    assert forall|j: ProposalKind|
        #[trigger] count_voted(clear_votes(s, k), j) == if j == k {
            0
        } else {
            count_voted(s, j)
        } by {
        lemma_count_voted_clear(s, k, j);
    }
    assert(keys(clear_votes(s, k)) =~= keys(s));
}

/// `find_index` gives the first position of a member's key, or -1 for a
/// key that is not a member.
pub proof fn lemma_find_index(s: Seq<Signature>, id: Identity)
    ensures
        -1 <= find_index(s, id) < s.len(),
        find_index(s, id) < 0 <==> !keys(s).contains(id),
        find_index(s, id) >= 0 ==> s[find_index(s, id)].key == id,
        forall|i: int| 0 <= i < find_index(s, id) ==> s[i].key != id,
        find_index(s, id) < 0 ==> forall|i: int| 0 <= i < s.len() ==> s[i].key != id,
    decreases s.len(),
{
    if s.len() > 0 {
        lemma_find_index(s.drop_last(), id);
        if find_index(s, id) >= 0 {
            assert(keys(s)[find_index(s, id)] == id);
            assert forall|i: int| 0 <= i < find_index(s, id) implies s[i].key != id by {
                assert(s[i] == s.drop_last()[i]);
            }
        } else {
            assert forall|i: int| 0 <= i < s.len() implies s[i].key != id by {
                if i < s.len() - 1 {
                    assert(s[i] == s.drop_last()[i]);
                }
            }
            if keys(s).contains(id) {
                let w = choose|w: int| 0 <= w < keys(s).len() && keys(s)[w] == id;
                assert(s[w].key == id);
            }
        }
    }
}

/// A new pool is well formed.
pub proof fn lemma_initial_wf(admin: Identity, creator: Identity, percent_transfer: u8, now: i64)
    requires
        percent_transfer <= 100,
    ensures
        initial_state(admin, creator, percent_transfer, now).wf(),
{
    let s = initial_state(admin, creator, percent_transfer, now);
    assert forall|k: ProposalKind| #[trigger] s.votes(k) == count_voted(s.signatories, k) by {
        assert(s.signatories.drop_last() =~= Seq::<Signature>::empty());
        assert(count_voted(Seq::<Signature>::empty(), k) == 0);
        assert(!s.signatories.last().voted(k)) by {
            split_kind(k);
        }
    }
}

/// Resetting a slot keeps the invariant.
pub proof fn lemma_reset_wf(s: GovernanceState, k: ProposalKind)
    requires
        s.wf(),
    ensures
        s.reset(k).wf(),
        s.reset(k).signatories == clear_votes(s.signatories, k),
{
    lemma_clear_votes(s.signatories, k);
    let t = s.reset(k);
    assert(t.signatories == clear_votes(s.signatories, k)) by {
        split_kind(k);
    }
    assert forall|j: ProposalKind| #[trigger] t.votes(j) == count_voted(t.signatories, j) by {
        assert(s.votes(j) == count_voted(s.signatories, j));
        assert(count_voted(clear_votes(s.signatories, k), j) == if j == k {
            0
        } else {
            count_voted(s.signatories, j)
        });
        split_kind(j);
        split_kind(k);
    }
    assert forall|j: ProposalKind, i: int|
        0 <= i < t.signatories.len() && !t.active(j) implies !#[trigger] t.signatories[i].voted(
        j,
    ) by {
        assert(s.signatories[i].voted(j) ==> s.active(j));
        split_kind(j);
        split_kind(k);
    }
}

/// Recording a first vote of member `i` on the active kind `k` keeps the
/// invariant and adds one vote.
pub proof fn lemma_record_vote_wf(s: GovernanceState, i: int, k: ProposalKind)
    requires
        s.wf(),
        0 <= i < s.signatories.len(),
        s.active(k),
        !s.signatories[i].voted(k),
    ensures
        s.votes(k) + 1 <= u32::MAX,
        s.record_vote(i, k).wf(),
        s.record_vote(i, k).votes(k) == s.votes(k) + 1,
{
    lemma_count_voted_below(s.signatories, k, i);
    let t = s.record_vote(i, k);
    assert(t.signatories == s.signatories.update(i, s.signatories[i].with_vote(k, true))) by {
        split_kind(k);
    }
    assert forall|j: ProposalKind| #[trigger] t.votes(j) == count_voted(t.signatories, j) by {
        lemma_count_voted_set(s.signatories, k, i, j);
        assert(s.votes(j) == count_voted(s.signatories, j));
        split_kind(j);
        split_kind(k);
    }
    assert forall|j: ProposalKind, m: int|
        0 <= m < t.signatories.len() && !t.active(j) implies !#[trigger] t.signatories[m].voted(
        j,
    ) by {
        assert(s.signatories[m].voted(j) ==> s.active(j));
        split_kind(j);
        split_kind(k);
    }
}

/// A fresh proposal of kind `k` keeps the invariant.
pub proof fn lemma_fresh_proposal_wf(s: GovernanceState, t: GovernanceState, k: ProposalKind)
    requires
        s.wf(),
        t.signatories == clear_votes(s.signatories, k),
        t.votes(k) == 0,
        forall|j: ProposalKind| j != k ==> #[trigger] t.votes(j) == s.votes(j) && t.active(j) == s.active(j),
        t.threshold == s.threshold,
        1 <= t.approval,
        t.percent_transfer == s.percent_transfer,
        t.change_threshold.status ==> t.change_threshold.new_threshold >= 1,
    ensures
        t.wf(),
{
    lemma_clear_votes(s.signatories, k);
    assert forall|j: ProposalKind| #[trigger] t.votes(j) == count_voted(t.signatories, j) by {
        if j != k {
            assert(t.votes(j) == s.votes(j));
        }
    }
    assert forall|j: ProposalKind, i: int|
        0 <= i < t.signatories.len() && !t.active(j) implies !#[trigger] t.signatories[i].voted(
        j,
    ) by {
        assert(s.signatories[i].voted(j) ==> s.active(j));
        if j != k {
            assert(t.votes(j) == s.votes(j));
        }
    }
}

/// The state a step leads to, if it succeeds, is well formed.
pub open spec fn keeps_wf(r: Result<GovernanceState, ErrorCode>) -> bool {
    match r {
        Ok(t) => t.wf(),
        Err(_) => true,
    }
}

/// Appending members to a well-formed state keeps it well formed, as long
/// as their number still fits in a `u32`.
pub proof fn lemma_append_wf(s: GovernanceState, ids: Seq<Identity>)
    requires
        s.wf(),
        s.signatories.len() + ids.len() <= u32::MAX,
        fresh_ids(s.signatories, ids),
    ensures
        (GovernanceState { signatories: append_members(s.signatories, ids), ..s }).wf(),
{
    lemma_append_members(s.signatories, ids);
    let m = append_members(s.signatories, ids);
    let t = GovernanceState { signatories: m, ..s };
    assert forall|j: ProposalKind| #[trigger] t.votes(j) == count_voted(t.signatories, j) by {
        assert(s.votes(j) == count_voted(s.signatories, j));
    }
    assert forall|j: ProposalKind, i: int|
        0 <= i < t.signatories.len() && !t.active(j) implies !#[trigger] t.signatories[i].voted(
        j,
    ) by {
        if i < s.signatories.len() {
            assert(m[i] == m.subrange(0, s.signatories.len() as int)[i]);
            assert(s.signatories[i].voted(j) ==> s.active(j));
        } else {
            assert(!m[i].voted(ProposalKind::Add));
            assert(!m[i].voted(ProposalKind::Delete));
            assert(!m[i].voted(ProposalKind::ChangeThreshold));
            assert(!m[i].voted(ProposalKind::ChangeTimeLimit));
            assert(!m[i].voted(ProposalKind::TransferAmount));
            split_kind(j);
        }
    }
}

/// A state that differs from a well-formed one only in its threshold,
/// approval floor, time limit and bookkeeping of time and stake is well
/// formed as long as the threshold stays in range and the floor is at
/// least 1.
pub proof fn lemma_same_votes_wf(s: GovernanceState, t: GovernanceState)
    requires
        s.wf(),
        t.signatories == s.signatories,
        t.add.status == s.add.status,
        t.add.votes == s.add.votes,
        t.delete == s.delete,
        t.change_threshold == s.change_threshold,
        t.change_time_limit == s.change_time_limit,
        t.transfer_amount == s.transfer_amount,
        t.percent_transfer == s.percent_transfer,
        1 <= t.threshold <= t.signatories.len(),
        1 <= t.approval,
    ensures
        t.wf(),
{
    assert forall|j: ProposalKind| #[trigger] t.votes(j) == count_voted(t.signatories, j) by {
        assert(s.votes(j) == count_voted(s.signatories, j));
        split_kind(j);
    }
    assert forall|j: ProposalKind, i: int|
        0 <= i < t.signatories.len() && !t.active(j) implies !#[trigger] t.signatories[i].voted(
        j,
    ) by {
        assert(s.signatories[i].voted(j) ==> s.active(j));
        split_kind(j);
    }
}

/// Taking out one of two or more members keeps the state well formed.
pub proof fn lemma_without_member_wf(s: GovernanceState, j: int)
    requires
        s.wf(),
        0 <= j < s.signatories.len(),
        s.signatories.len() >= 2,
    ensures
        s.without_member(j).wf(),
{
    let t = s.without_member(j);
    let rest = s.signatories.remove(j);
    assert forall|a: int, b: int| 0 <= a < b < rest.len() implies rest[a].key != rest[b].key by {
        let a0 = if a < j {
            a
        } else {
            a + 1
        };
        let b0 = if b < j {
            b
        } else {
            b + 1
        };
        assert(rest[a] == s.signatories[a0]);
        assert(rest[b] == s.signatories[b0]);
    }
    assert forall|k: ProposalKind| #[trigger] t.votes(k) == count_voted(t.signatories, k) by {
        lemma_count_voted_remove(s.signatories, k, j);
        assert(s.votes(k) == count_voted(s.signatories, k));
        split_kind(k);
    }
    assert forall|k: ProposalKind, i: int|
        0 <= i < t.signatories.len() && !t.active(k) implies !#[trigger] t.signatories[i].voted(
        k,
    ) by {
        let i0 = if i < j {
            i
        } else {
            i + 1
        };
        assert(rest[i] == s.signatories[i0]);
        assert(s.signatories[i0].voted(k) ==> s.active(k));
        split_kind(k);
    }
}

/// Configuring the first members keeps the invariant.
pub proof fn lemma_add_initial_wf(
    s: GovernanceState,
    caller: Identity,
    ids: Seq<Identity>,
    threshold: u32,
    time_limit: u32,
    now: i64,
)
    requires
        s.wf(),
    ensures
        keeps_wf(add_initial_step(s, caller, ids, threshold, time_limit, now)),
{
    if s.signatories.len() + ids.len() <= u32::MAX && fresh_ids(s.signatories, ids) {
        lemma_append_wf(s, ids);
        lemma_append_members(s.signatories, ids);
        let u = GovernanceState { signatories: append_members(s.signatories, ids), ..s };
        if 1 <= threshold <= u.signatories.len() {
            lemma_same_votes_wf(
                u,
                GovernanceState { threshold, approval: threshold, time_limit, last_tx: now, ..u },
            );
        }
    }
}

/// Each way of proposing keeps the invariant.
pub proof fn lemma_propose_wf(
    s: GovernanceState,
    ids: Seq<Identity>,
    id: Identity,
    value: u32,
    amount: u32,
    now: i64,
)
    requires
        s.wf(),
    ensures
        keeps_wf(propose_add_step(s, ids, now)),
        keeps_wf(propose_remove_step(s, id, now)),
        keeps_wf(propose_threshold_step(s, value, now)),
        keeps_wf(propose_time_limit_step(s, value, now)),
        keeps_wf(propose_transfer_step(s, amount, id, now)),
{
    lemma_fresh_proposal_wf(s, s.with_add_proposal(ids, now), ProposalKind::Add);
    lemma_fresh_proposal_wf(s, s.with_delete_proposal(id, now), ProposalKind::Delete);
    lemma_fresh_proposal_wf(s, s.with_time_limit_proposal(value, now), ProposalKind::ChangeTimeLimit);
    lemma_fresh_proposal_wf(
        s,
        s.with_transfer_proposal(amount, id, now),
        ProposalKind::TransferAmount,
    );
    if 1 <= value {
        let t = s.with_threshold_proposal(value, now);
        lemma_fresh_proposal_wf(
            s,
            GovernanceState { approval: s.threshold, ..t },
            ProposalKind::ChangeThreshold,
        );
    }
    match propose_threshold_step(s, value, now) {
        Ok(u) => {
            if elapsed_days(now, s.last_tx) >= DORMANCY_DAYS && s.approval == s.threshold {
                lemma_same_votes_wf(s, u);
            } else {
                lemma_fresh_proposal_wf(s, u, ProposalKind::ChangeThreshold);
            }
        },
        Err(_) => {},
    }
}

/// Carrying out a proposal that has reached quorum keeps the invariant.
pub proof fn lemma_execute_wf(t: GovernanceState, k: ProposalKind, now: i64)
    requires
        t.wf(),
        t.active(k),
    ensures
        keeps_wf(execute_step(t, k, now)),
{
    match k {
        ProposalKind::Add => {
            if t.signatories.len() + t.add.new_signatory.len() <= u32::MAX && fresh_ids(
                t.signatories,
                t.add.new_signatory,
            ) {
                lemma_reset_wf(t, k);
                lemma_clear_votes(t.signatories, k);
                let r = t.reset(k);
                lemma_append_wf(r, t.add.new_signatory);
                let v = GovernanceState {
                    signatories: append_members(r.signatories, t.add.new_signatory),
                    ..r
                };
                lemma_same_votes_wf(v, GovernanceState { last_tx: now, ..v });

            }
        },
        ProposalKind::Delete => {
            let j = find_index(t.signatories, t.delete.old_signatory);
            lemma_find_index(t.signatories, t.delete.old_signatory);
            if j >= 0 && t.signatories.len() != 1 {
                lemma_without_member_wf(t, j);
                let w = t.without_member(j).reset(k);
                lemma_reset_wf(t.without_member(j), k);
                lemma_same_votes_wf(w, GovernanceState { last_tx: now, ..w });
            }
        },
        ProposalKind::ChangeThreshold => {
            lemma_reset_wf(t, k);
            lemma_clear_votes(t.signatories, k);
            if let Ok(u) = execute_step(t, k, now) {
                lemma_same_votes_wf(t.reset(k), u);
            }
        },
        ProposalKind::ChangeTimeLimit => {
            lemma_reset_wf(t, k);
            if let Ok(u) = execute_step(t, k, now) {
                lemma_same_votes_wf(t.reset(k), u);
            }
        },
        ProposalKind::TransferAmount => {},
    }
}

/// A vote keeps the invariant, whether or not it carries the proposal out.
pub proof fn lemma_sign_wf(s: GovernanceState, signer: Identity, k: ProposalKind, now: i64)
    requires
        s.wf(),
    ensures
        keeps_wf(sign_step(s, signer, k, now)),
{
    let i = find_index(s.signatories, signer);
    lemma_find_index(s.signatories, signer);
    if i >= 0 && s.active(k) && !s.signatories[i].voted(k) {
        lemma_record_vote_wf(s, i, k);
        assert(s.record_vote(i, k).active(k)) by {
            split_kind(k);
        }
        lemma_execute_wf(s.record_vote(i, k), k, now);
    }
}

/// A vote on a transfer keeps the invariant.
pub proof fn lemma_sign_transfer_wf(s: GovernanceState, signer: Identity, wallet: Identity)
    requires
        s.wf(),
    ensures
        sign_transfer_step(s, signer, wallet) matches Ok((t, _)) ==> t.wf(),
{
    let k = ProposalKind::TransferAmount;
    let i = find_index(s.signatories, signer);
    lemma_find_index(s.signatories, signer);
    if i >= 0 && s.active(k) && !s.signatories[i].voted(k) {
        lemma_record_vote_wf(s, i, k);
        lemma_reset_wf(s.record_vote(i, k), k);
    }
}

/// Deposits and the fallback keep the invariant.
pub proof fn lemma_deposit_fall_back_wf(
    s: GovernanceState,
    pool_mint: Identity,
    mint: Identity,
    amount: u32,
    now: i64,
)
    requires
        s.wf(),
    ensures
        deposit_step(s, pool_mint, mint, amount) matches Ok((t, _)) ==> t.wf(),
        keeps_wf(fall_back_step(s, now)),
{
    if let Ok((t, _)) = deposit_step(s, pool_mint, mint, amount) {
        lemma_same_votes_wf(s, t);
    }
    if let Ok(t) = fall_back_step(s, now) {
        lemma_same_votes_wf(s, t);
    }
}

/// A vote that is followed by the reset of its slot leaves no trace.
pub proof fn lemma_reset_after_vote(s: GovernanceState, i: int, k: ProposalKind)
    requires
        0 <= i < s.signatories.len(),
    ensures
        s.record_vote(i, k).reset(k) == s.reset(k),
        s.record_vote(i, k).signatories.len() == s.signatories.len(),
        forall|m: int|
            0 <= m < s.signatories.len() ==> (#[trigger] s.record_vote(i, k).signatories[m]).key
                == s.signatories[m].key,
        forall|m: int, j: ProposalKind|
            0 <= m < s.signatories.len() && j != k ==> #[trigger] s.record_vote(
                i,
                k,
            ).signatories[m].voted(j) == s.signatories[m].voted(j),
        forall|j: ProposalKind| j != k ==> #[trigger] s.record_vote(i, k).votes(j) == s.votes(j),
        s.record_vote(i, k).add.new_signatory == s.add.new_signatory,
        s.record_vote(i, k).delete.old_signatory == s.delete.old_signatory,
        s.record_vote(i, k).change_threshold.new_threshold == s.change_threshold.new_threshold,
        s.record_vote(i, k).change_time_limit.new_time_limit == s.change_time_limit.new_time_limit,
        s.record_vote(i, k).transfer_amount.amount == s.transfer_amount.amount,
        s.record_vote(i, k).transfer_amount.reciever == s.transfer_amount.reciever,
{
    let t = s.record_vote(i, k);
    assert(t.signatories == s.signatories.update(i, s.signatories[i].with_vote(k, true))) by {
        split_kind(k);
    }
    assert(clear_votes(t.signatories, k) =~= clear_votes(s.signatories, k)) by {
        assert forall|m: int| 0 <= m < s.signatories.len() implies clear_votes(t.signatories, k)[m]
            == clear_votes(s.signatories, k)[m] by {
            split_kind(k);
        }
    }
    assert forall|m: int, j: ProposalKind|
        0 <= m < s.signatories.len() && j != k implies #[trigger] t.signatories[m].voted(j)
        == s.signatories[m].voted(j) by {
        split_kind(k);
        split_kind(j);
    }
    assert forall|j: ProposalKind| j != k implies #[trigger] t.votes(j) == s.votes(j) by {
        split_kind(k);
        split_kind(j);
    }
    split_kind(k);
}

/// The position of a key depends on the keys alone.
pub proof fn lemma_find_index_same_keys(a: Seq<Signature>, b: Seq<Signature>, id: Identity)
    requires
        a.len() == b.len(),
        forall|m: int| 0 <= m < a.len() ==> #[trigger] a[m].key == b[m].key,
    ensures
        find_index(a, id) == find_index(b, id),
    decreases a.len(),
{
    if a.len() > 0 {
        lemma_find_index_same_keys(a.drop_last(), b.drop_last(), id);
    }
}

/// Removing member `j` after a vote on the removal, and then closing the
/// removal, is the same as doing so without the vote.
pub proof fn lemma_remove_after_vote(s: GovernanceState, i: int, j: int)
    requires
        0 <= i < s.signatories.len(),
        0 <= j < s.signatories.len(),
    ensures
        s.record_vote(i, ProposalKind::Delete).without_member(j).reset(ProposalKind::Delete)
            == s.without_member(j).reset(ProposalKind::Delete),
{
    let k = ProposalKind::Delete;
    let t = s.record_vote(i, k);
    lemma_reset_after_vote(s, i, k);
    let a = t.without_member(j);
    let b = s.without_member(j);
    assert(t.signatories[j].voted(ProposalKind::Add) == s.signatories[j].voted(ProposalKind::Add));
    assert(t.signatories[j].voted(ProposalKind::ChangeThreshold) == s.signatories[j].voted(
        ProposalKind::ChangeThreshold,
    ));
    assert(t.signatories[j].voted(ProposalKind::ChangeTimeLimit) == s.signatories[j].voted(
        ProposalKind::ChangeTimeLimit,
    ));
    assert(t.signatories[j].voted(ProposalKind::TransferAmount) == s.signatories[j].voted(
        ProposalKind::TransferAmount,
    ));
    assert(clear_votes(a.signatories, k) =~= clear_votes(b.signatories, k)) by {
        assert forall|m: int| 0 <= m < b.signatories.len() implies clear_votes(a.signatories, k)[m]
            == clear_votes(b.signatories, k)[m] by {
            let m0 = if m < j {
                m
            } else {
                m + 1
            };
            assert(a.signatories[m] == t.signatories[m0]);
            assert(b.signatories[m] == s.signatories[m0]);
            assert(t.signatories == s.signatories.update(i, s.signatories[i].with_vote(k, true)));
        }
    }
}

/// A member who had voted on a kind accounts for at least one of its votes.
pub proof fn lemma_count_votes_for_removal(s: GovernanceState, j: int)
    requires
        s.wf(),
        0 <= j < s.signatories.len(),
    ensures
        forall|k: ProposalKind| s.signatories[j].voted(k) ==> #[trigger] s.votes(k) >= 1,
{
    assert forall|k: ProposalKind| s.signatories[j].voted(k) implies #[trigger] s.votes(k) >= 1 by {
        lemma_count_voted_remove(s.signatories, k, j);
    }
}

} // verus!
