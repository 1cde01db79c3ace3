//! The governance record as it is stored, and its bookkeeping methods.
use vstd::prelude::*;

use crate::identity::Identity;
use crate::model::{elapsed_days, find_index, GovernanceState, DAY};
use crate::preservation::{lemma_find_index, split_kind};
use crate::proposal::{
    AddSignatory,
    ChangeThreshold,
    ChangeTimeLimit,
    DeleteSignatory,
    TransferAmount,
};
use crate::signatory::{
    append_members,
    clear_votes,
    count_voted,
    fresh_ids,
    unique_keys,
    keys,
    ProposalKind,
    Signature,
};

verus! {

/// The governance record of one pool. Its meaning is its view, a
/// [`GovernanceState`].
#[derive(Debug)]
pub struct ProjectParameter {
    pub authority: Identity,
    pub signatories: Vec<Signature>,
    pub add: AddSignatory,
    pub delete: DeleteSignatory,
    pub change_threshold: ChangeThreshold,
    pub change_time_limit: ChangeTimeLimit,
    pub transfer_amount: TransferAmount,
    pub threshold: u32,
    pub time_limit: u32,
    pub last_tx: i64,
    pub staked_amount: u32,
    pub percent_transfer: u8,
    pub shutdown: bool,
    pub last_reduced_threshold: i64,
    pub approval: u32,
}

impl View for ProjectParameter {
    type V = GovernanceState;

    open spec fn view(&self) -> GovernanceState {
        GovernanceState {
            authority: self.authority,
            signatories: self.signatories@,
            add: self.add@,
            delete: self.delete,
            change_threshold: self.change_threshold,
            change_time_limit: self.change_time_limit,
            transfer_amount: self.transfer_amount,
            threshold: self.threshold,
            time_limit: self.time_limit,
            last_tx: self.last_tx,
            staked_amount: self.staked_amount,
            percent_transfer: self.percent_transfer,
            shutdown: self.shutdown,
            last_reduced_threshold: self.last_reduced_threshold,
            approval: self.approval,
        }
    }
}

/// Whole days from `since` to `now`, none if `now` is not later.
pub fn days_between(now: i64, since: i64) -> (r: u64)
    ensures
        r == elapsed_days(now, since),
{
    if now <= since {
        0
    } else {
        let d: u128 = ((now as i128) - (since as i128)) as u128;
        (d / (DAY as u128)) as u64
    }
}

/// Whether a proposal in a slot with the given status and creation time may
/// be replaced at `now`.
pub fn may_create(active: bool, created_at: i64, now: i64, time_limit: u32) -> (r: bool)
    ensures
        r == crate::model::can_create(active, created_at, now, time_limit),
{
    !active || (now as i128) - (created_at as i128) > (time_limit as i128)
}

/// The first position of `key` among the members, or `usize::MAX`.
pub fn position_of(sigs: &Vec<Signature>, key: Identity) -> (r: usize)
    ensures
        find_index(sigs@, key) < 0 ==> r == usize::MAX,
        find_index(sigs@, key) >= 0 ==> r == find_index(sigs@, key),
        r == usize::MAX <==> find_index(sigs@, key) < 0,
{
    proof {
        lemma_find_index(sigs@, key);
    }
    let mut i: usize = 0;
    while i < sigs.len()
        invariant
            i <= sigs@.len(),
            forall|j: int| 0 <= j < i ==> sigs@[j].key != key,
        decreases sigs.len() - i,
    {
        if sigs[i].key == key {
            proof {
                lemma_find_index(sigs@, key);
            }
            return i;
        }
        i = i + 1;
    }
    proof {
        lemma_find_index(sigs@, key);
    }
    usize::MAX
}

/// Clears everyone's flag of kind `k`.
pub fn clear_votes_in(sigs: &mut Vec<Signature>, k: ProposalKind)
    ensures
        final(sigs)@ == clear_votes(old(sigs)@, k),
{
    let n = sigs.len();
    let mut i: usize = 0;
    while i < n
        invariant
            n == old(sigs)@.len(),
            sigs@.len() == n,
            i <= n,
            forall|j: int| 0 <= j < i ==> sigs@[j] == old(sigs)@[j].with_vote(k, false),
            forall|j: int| i <= j < n ==> sigs@[j] == old(sigs)@[j],
        decreases n - i,
    {
        let mut m = sigs[i];
        m.set_vote(k, false);
        sigs.set(i, m);
        i = i + 1;
    }
    assert(sigs@ =~= clear_votes(old(sigs)@, k));
}

/// The members `sigs` followed by each of `ids` as a fresh member.
pub fn merged_members(sigs: &Vec<Signature>, ids: &Vec<Identity>) -> (r: Vec<Signature>)
    ensures
        r@ == append_members(sigs@, ids@),
{
    let mut r: Vec<Signature> = Vec::new();
    let mut i: usize = 0;
    while i < sigs.len()
        invariant
            i <= sigs@.len(),
            r@ == sigs@.subrange(0, i as int),
        decreases sigs.len() - i,
    {
        r.push(sigs[i]);
        i = i + 1;
        assert(r@ =~= sigs@.subrange(0, i as int));
    }
    let mut j: usize = 0;
    while j < ids.len()
        invariant
            j <= ids@.len(),
            r@ == append_members(sigs@, ids@.subrange(0, j as int)),
        decreases ids.len() - j,
    {
        r.push(Signature::new(ids[j]));
        j = j + 1;
        assert(r@ =~= append_members(sigs@, ids@.subrange(0, j as int)));
    }
    assert(ids@.subrange(0, ids@.len() as int) =~= ids@);
    r
}

/// Whether none of `ids` is among the members `sigs`, and none is listed
/// twice.
pub fn ids_are_fresh(sigs: &Vec<Signature>, ids: &Vec<Identity>) -> (r: bool)
    ensures
        r == fresh_ids(sigs@, ids@),
{
    let mut j: usize = 0;
    while j < ids.len()
        invariant
            j <= ids@.len(),
            forall|x: int| 0 <= x < j ==> !#[trigger] keys(sigs@).contains(ids@[x]),
            forall|a: int, b: int| 0 <= a < b < j ==> ids@[a] != ids@[b],
        decreases ids.len() - j,
    {
        let id = ids[j];
        let p = position_of(sigs, id);
        proof {
            lemma_find_index(sigs@, id);
        }
        if p != usize::MAX {
            return false;
        }
        let mut a: usize = 0;
        while a < j
            invariant
                j < ids@.len(),
                a <= j,
                id == ids@[j as int],
                forall|x: int| 0 <= x < a ==> ids@[x] != id,
            decreases j - a,
        {
            if ids[a] == id {
                return false;
            }
            a = a + 1;
        }
        j = j + 1;
    }
    true
}

impl ProjectParameter {
    /// Whether a proposal of kind `k` is in flight.
    pub fn is_active(&self, k: ProposalKind) -> (r: bool)
        ensures
            r == self@.active(k),
    {
        match k {
            ProposalKind::Add => self.add.status,
            ProposalKind::Delete => self.delete.status,
            ProposalKind::ChangeThreshold => self.change_threshold.status,
            ProposalKind::ChangeTimeLimit => self.change_time_limit.status,
            ProposalKind::TransferAmount => self.transfer_amount.status,
        }
    }

    /// The votes cast on the proposal of kind `k`.
    pub fn votes_of(&self, k: ProposalKind) -> (r: u32)
        ensures
            r == self@.votes(k),
    {
        match k {
            ProposalKind::Add => self.add.votes,
            ProposalKind::Delete => self.delete.votes,
            ProposalKind::ChangeThreshold => self.change_threshold.votes,
            ProposalKind::ChangeTimeLimit => self.change_time_limit.votes,
            ProposalKind::TransferAmount => self.transfer_amount.votes,
        }
    }

    /// The votes a proposal of kind `k` needs.
    pub fn quorum_of(&self, k: ProposalKind) -> (r: u32)
        ensures
            r == self@.quorum(k),
    {
        match k {
            ProposalKind::ChangeThreshold => self.approval,
            _ => self.threshold,
        }
    }

    /// The position of the member with key `key`, or `usize::MAX` if there
    /// is none.
    pub fn get_index(&self, key: Identity) -> (r: usize)
        ensures
            find_index(self@.signatories, key) < 0 ==> r == usize::MAX,
            find_index(self@.signatories, key) >= 0 ==> r == find_index(self@.signatories, key),
            r == usize::MAX <==> !keys(self@.signatories).contains(key),
    {
        proof {
            lemma_find_index(self@.signatories, key);
        }
        position_of(&self.signatories, key)
    }

    /// Records the first vote of member `i` on the proposal of kind `k`.
    pub fn record_vote(&mut self, i: usize, k: ProposalKind)
        requires
            i < old(self).signatories.len(),
            old(self)@.votes(k) < u32::MAX,
        ensures
            final(self)@ == old(self)@.record_vote(i as int, k),
    {
        let mut m = self.signatories[i];
        m.set_vote(k, true);
        self.signatories.set(i, m);
        match k {
            ProposalKind::Add => self.add.votes = self.add.votes + 1,
            ProposalKind::Delete => self.delete.votes = self.delete.votes + 1,
            ProposalKind::ChangeThreshold => self.change_threshold.votes =
            self.change_threshold.votes + 1,
            ProposalKind::ChangeTimeLimit => self.change_time_limit.votes =
            self.change_time_limit.votes + 1,
            ProposalKind::TransferAmount => self.transfer_amount.votes =
            self.transfer_amount.votes + 1,
        }
        assert(self@.signatories =~= old(self)@.record_vote(i as int, k).signatories);
    }

    /// Ends the proposal to add signatories.
    pub fn reset_add(&mut self)
        ensures
            final(self)@ == old(self)@.reset(ProposalKind::Add),
    {
        self.add.votes = 0;
        self.add.status = false;
        self.add.timestamp = 0;
        self.add.new_signatory = Vec::new();
        clear_votes_in(&mut self.signatories, ProposalKind::Add);
        assert(self@.add == old(self)@.reset(ProposalKind::Add).add);
    }

    /// Opens a proposal, at `now`, to add `signatories`.
    pub fn create_add(&mut self, signatories: Vec<Identity>, now: i64)
        ensures
            final(self)@ == old(self)@.with_add_proposal(signatories@, now),
    {
        self.add.status = true;
        self.add.timestamp = now;
        self.add.votes = 0;
        self.add.new_signatory = signatories;
        clear_votes_in(&mut self.signatories, ProposalKind::Add);
    }

    /// Opens a proposal, at `now`, to remove `signatory`.
    pub fn create_delete(&mut self, signatory: Identity, now: i64)
        ensures
            final(self)@ == old(self)@.with_delete_proposal(signatory, now),
    {
        self.delete.status = true;
        self.delete.old_signatory = signatory;
        self.delete.timestamp = now;
        self.delete.votes = 0;
        clear_votes_in(&mut self.signatories, ProposalKind::Delete);
    }

    /// Ends the proposal to remove a signatory.
    pub fn reset_delete(&mut self)
        ensures
            final(self)@ == old(self)@.reset(ProposalKind::Delete),
    {
        self.delete.votes = 0;
        self.delete.status = false;
        self.delete.timestamp = 0;
        clear_votes_in(&mut self.signatories, ProposalKind::Delete);
    }

    /// Opens an ordinary proposal, at `now`, to set the threshold to
    /// `threshold`; the approval floor comes back up to the threshold.
    pub fn create_change(&mut self, threshold: u32, now: i64)
        ensures
            final(self)@ == (GovernanceState {
                approval: old(self).threshold,
                ..old(self)@.with_threshold_proposal(threshold, now)
            }),
    {
        self.reduce_approval(threshold, now);
        self.approval = self.threshold;
    }

    /// Ends the proposal to change the threshold, and with it dormancy and
    /// the record of the last reduction.
    pub fn reset_change(&mut self)
        ensures
            final(self)@ == old(self)@.reset(ProposalKind::ChangeThreshold),
    {
        self.change_threshold.status = false;
        self.change_threshold.new_threshold = 0;
        self.change_threshold.timestamp = 0;
        self.change_threshold.votes = 0;
        self.last_reduced_threshold = 0;
        self.shutdown = false;
        clear_votes_in(&mut self.signatories, ProposalKind::ChangeThreshold);
    }

    /// Opens a proposal, at `now`, to set the threshold to `threshold`,
    /// leaving the approval floor as it is.
    pub fn reduce_approval(&mut self, threshold: u32, now: i64)
        ensures
            final(self)@ == old(self)@.with_threshold_proposal(threshold, now),
    {
        self.change_threshold.status = true;
        self.change_threshold.new_threshold = threshold;
        self.change_threshold.timestamp = now;
        self.change_threshold.votes = 0;
        clear_votes_in(&mut self.signatories, ProposalKind::ChangeThreshold);
    }

    /// Opens a proposal, at `now`, to set the time limit to `time_limit`.
    pub fn create_time_limit(&mut self, time_limit: u32, now: i64)
        ensures
            final(self)@ == old(self)@.with_time_limit_proposal(time_limit, now),
    {
        self.change_time_limit.status = true;
        self.change_time_limit.new_time_limit = time_limit;
        self.change_time_limit.timestamp = now;
        self.change_time_limit.votes = 0;
        clear_votes_in(&mut self.signatories, ProposalKind::ChangeTimeLimit);
    }

    /// Ends the proposal to change the time limit.
    pub fn reset_time_limit(&mut self)
        ensures
            final(self)@ == old(self)@.reset(ProposalKind::ChangeTimeLimit),
    {
        self.change_time_limit.status = false;
        self.change_time_limit.new_time_limit = 0;
        self.change_time_limit.timestamp = 0;
        self.change_time_limit.votes = 0;
        clear_votes_in(&mut self.signatories, ProposalKind::ChangeTimeLimit);
    }

    /// Opens a proposal, at `now`, to pay `amount` to `reciever`.
    pub fn create_transfer_amount(&mut self, amount: u32, reciever: Identity, now: i64)
        ensures
            final(self)@ == old(self)@.with_transfer_proposal(amount, reciever, now),
    {
        self.transfer_amount.status = true;
        self.transfer_amount.amount = amount;
        self.transfer_amount.reciever = reciever;
        self.transfer_amount.timestamp = now;
        self.transfer_amount.votes = 0;
        clear_votes_in(&mut self.signatories, ProposalKind::TransferAmount);
    }

    /// Ends the transfer proposal; the receiver stays on record.
    pub fn reset_transfer_amount(&mut self)
        ensures
            final(self)@ == old(self)@.reset(ProposalKind::TransferAmount),
    {
        self.transfer_amount.status = false;
        self.transfer_amount.amount = 0;
        self.transfer_amount.timestamp = 0;
        self.transfer_amount.votes = 0;
        clear_votes_in(&mut self.signatories, ProposalKind::TransferAmount);
    }
}

/// How many members have voted on the current proposal of kind `k`.
pub fn count_votes(sigs: &Vec<Signature>, k: ProposalKind) -> (r: u64)
    requires
        sigs@.len() <= u32::MAX,
    ensures
        r == count_voted(sigs@, k),
{
    let mut c: u64 = 0;
    let mut i: usize = 0;
    assert(sigs@.subrange(0, 0) =~= Seq::<Signature>::empty());
    while i < sigs.len()
        invariant
            i <= sigs@.len() <= u32::MAX,
            c == count_voted(sigs@.subrange(0, i as int), k),
            c <= i,
        decreases sigs.len() - i,
    {
        assert(sigs@.subrange(0, i + 1).drop_last() =~= sigs@.subrange(0, i as int));
        if sigs[i].has_voted(k) {
            c = c + 1;
        }
        i = i + 1;
    }
    assert(sigs@.subrange(0, sigs@.len() as int) =~= sigs@);
    c
}

/// Whether no key occurs twice among the members.
pub fn keys_are_unique(sigs: &Vec<Signature>) -> (r: bool)
    ensures
        r == unique_keys(sigs@),
{
    let mut b: usize = 1;
    while b < sigs.len()
        invariant
            forall|x: int, y: int| 0 <= x < y < b && y < sigs@.len() ==> sigs@[x].key != sigs@[y].key,
        decreases sigs.len() - b,
    {
        let mut a: usize = 0;
        while a < b
            invariant
                b < sigs@.len(),
                a <= b,
                forall|x: int, y: int| 0 <= x < y < b ==> sigs@[x].key != sigs@[y].key,
                forall|x: int| 0 <= x < a ==> sigs@[x].key != sigs@[b as int].key,
            decreases b - a,
        {
            if sigs[a].key == sigs[b].key {
                return false;
            }
            a = a + 1;
        }
        b = b + 1;
    }
    true
}

/// Whether nobody is flagged as having voted on kind `k`.
pub fn nobody_voted(sigs: &Vec<Signature>, k: ProposalKind) -> (r: bool)
    ensures
        r == forall|i: int| 0 <= i < sigs@.len() ==> !#[trigger] sigs@[i].voted(k),
{
    let mut i: usize = 0;
    while i < sigs.len()
        invariant
            i <= sigs@.len(),
            forall|j: int| 0 <= j < i ==> !#[trigger] sigs@[j].voted(k),
        decreases sigs.len() - i,
    {
        if sigs[i].has_voted(k) {
            return false;
        }
        i = i + 1;
    }
    true
}

impl ProjectParameter {
    /// Whether the votes and flags of kind `k` agree with each other and
    /// with the slot's status.
    fn slot_consistent(&self, k: ProposalKind) -> (r: bool)
        requires
            self@.signatories.len() <= u32::MAX,
        ensures
            r == (self@.votes(k) == count_voted(self@.signatories, k) && (!self@.active(k)
                ==> forall|i: int|
                0 <= i < self@.signatories.len() ==> !#[trigger] self@.signatories[i].voted(k))),
    {
        let c = count_votes(&self.signatories, k);
        if c != self.votes_of(k) as u64 {
            return false;
        }
        self.is_active(k) || nobody_voted(&self.signatories, k)
    }

    /// Whether the record satisfies the state's invariant; a record read
    /// back from storage is checked with this before any call.
    pub fn is_well_formed(&self) -> (r: bool)
        ensures
            r == self@.wf(),
    {
        let n = self.signatories.len();
        if n > u32::MAX as usize || self.threshold < 1 || self.threshold as usize > n {
            return false;
        }
        if self.approval < 1 || self.percent_transfer > 100 {
            return false;
        }
        if self.change_threshold.status && self.change_threshold.new_threshold < 1 {
            return false;
        }
        if !keys_are_unique(&self.signatories) {
            return false;
        }
        let add = self.slot_consistent(ProposalKind::Add);
        let delete = self.slot_consistent(ProposalKind::Delete);
        let change = self.slot_consistent(ProposalKind::ChangeThreshold);
        let time_limit = self.slot_consistent(ProposalKind::ChangeTimeLimit);
        let transfer = self.slot_consistent(ProposalKind::TransferAmount);
        proof {
            if add && delete && change && time_limit && transfer {
                assert forall|k: ProposalKind| #[trigger]
                    self@.votes(k) == count_voted(self@.signatories, k) by {
                    split_kind(k);
                }
                assert forall|k: ProposalKind, i: int|
                    0 <= i < self@.signatories.len() && !self@.active(k) implies !#[trigger] self@.signatories[i].voted(
                    k,
                ) by {
                    split_kind(k);
                }
            }
        }
        add && delete && change && time_limit && transfer
    }
}

} // verus!
