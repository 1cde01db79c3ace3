//! The signatory registry: who may vote, and who has voted on which proposal.
use vstd::prelude::*;

use crate::identity::Identity;

verus! {

/// The five kinds of proposal. At most one proposal of each kind is in
/// flight at any time.
#[derive(Clone, Copy, Debug, PartialEq, Eq, Structural)]
pub enum ProposalKind {
    Add,
    Delete,
    ChangeThreshold,
    ChangeTimeLimit,
    TransferAmount,
}

/// One member of the registry, with a "has voted" flag for the current
/// proposal of each kind.
#[derive(Clone, Copy, Debug, PartialEq, Eq, Structural)]
pub struct Signature {
    pub key: Identity,
    pub add: bool,
    pub delete: bool,
    pub change_threshold: bool,
    pub change_time_limit: bool,
    pub transfer_amount: bool,
}

impl Signature {
    /// A member who has voted on nothing.
    pub open spec fn fresh(key: Identity) -> Signature {
        Signature {
            key,
            add: false,
            delete: false,
            change_threshold: false,
            change_time_limit: false,
            transfer_amount: false,
        }
    }

    /// Whether this member has voted on the current proposal of kind `k`.
    pub open spec fn voted(self, k: ProposalKind) -> bool {
        match k {
            ProposalKind::Add => self.add,
            ProposalKind::Delete => self.delete,
            ProposalKind::ChangeThreshold => self.change_threshold,
            ProposalKind::ChangeTimeLimit => self.change_time_limit,
            ProposalKind::TransferAmount => self.transfer_amount,
        }
    }

    /// This member with the flag of kind `k` set to `v`.
    pub open spec fn with_vote(self, k: ProposalKind, v: bool) -> Signature {
        match k {
            ProposalKind::Add => Signature { add: v, ..self },
            ProposalKind::Delete => Signature { delete: v, ..self },
            ProposalKind::ChangeThreshold => Signature { change_threshold: v, ..self },
            ProposalKind::ChangeTimeLimit => Signature { change_time_limit: v, ..self },
            ProposalKind::TransferAmount => Signature { transfer_amount: v, ..self },
        }
    }

    /// A member with the given key who has voted on nothing.
    pub fn new(key: Identity) -> (r: Signature)
        ensures
            r == Signature::fresh(key),
    {
        Signature {
            key,
            add: false,
            delete: false,
            change_threshold: false,
            change_time_limit: false,
            transfer_amount: false,
        }
    }

    /// Whether this member has voted on the current proposal of kind `k`.
    pub fn has_voted(&self, k: ProposalKind) -> (r: bool)
        ensures
            r == self.voted(k),
    {
        match k {
            ProposalKind::Add => self.add,
            ProposalKind::Delete => self.delete,
            ProposalKind::ChangeThreshold => self.change_threshold,
            ProposalKind::ChangeTimeLimit => self.change_time_limit,
            ProposalKind::TransferAmount => self.transfer_amount,
        }
    }

    /// Sets the flag of kind `k` to `v`, leaving the others alone.
    pub fn set_vote(&mut self, k: ProposalKind, v: bool)
        ensures
            *final(self) == old(self).with_vote(k, v),
    {
        match k {
            ProposalKind::Add => self.add = v,
            ProposalKind::Delete => self.delete = v,
            ProposalKind::ChangeThreshold => self.change_threshold = v,
            ProposalKind::ChangeTimeLimit => self.change_time_limit = v,
            ProposalKind::TransferAmount => self.transfer_amount = v,
        }
    }
}

/// The keys of the members, in order.
pub open spec fn keys(s: Seq<Signature>) -> Seq<Identity> {
    s.map_values(|m: Signature| m.key)
}

/// No key occurs twice.
pub open spec fn unique_keys(s: Seq<Signature>) -> bool {
    forall|i: int, j: int| 0 <= i < j < s.len() ==> s[i].key != s[j].key
}

/// The number of members who have voted on the current proposal of kind `k`.
/// With unique keys this is the number of distinct identities that voted.
pub open spec fn count_voted(s: Seq<Signature>, k: ProposalKind) -> nat
    decreases s.len(),
{
    if s.len() == 0 {
        0
    } else {
        count_voted(s.drop_last(), k) + if s.last().voted(k) {
            1nat
        } else {
            0nat
        }
    }
}

/// The members with the flag of kind `k` cleared, as when a proposal of that
/// kind starts afresh or is done.
pub open spec fn clear_votes(s: Seq<Signature>, k: ProposalKind) -> Seq<Signature> {
    s.map_values(|m: Signature| m.with_vote(k, false))
}

/// `s` followed by each of `ids` as a fresh member, in order.
pub open spec fn append_members(s: Seq<Signature>, ids: Seq<Identity>) -> Seq<Signature> {
    s + ids.map_values(|id: Identity| Signature::fresh(id))
}

/// None of `ids` is a member of `s`, and none is listed twice.
pub open spec fn fresh_ids(s: Seq<Signature>, ids: Seq<Identity>) -> bool {
    &&& forall|j: int| 0 <= j < ids.len() ==> !#[trigger] keys(s).contains(ids[j])
    &&& forall|a: int, b: int| 0 <= a < b < ids.len() ==> ids[a] != ids[b]
}

/// The count is at most the number of members.
pub proof fn lemma_count_voted_bound(s: Seq<Signature>, k: ProposalKind)
    ensures
        count_voted(s, k) <= s.len(),
    decreases s.len(),
{
    if s.len() > 0 {
        lemma_count_voted_bound(s.drop_last(), k);
    }
}

/// A member that has not voted leaves room below the number of members.
pub proof fn lemma_count_voted_below(s: Seq<Signature>, k: ProposalKind, i: int)
    requires
        0 <= i < s.len(),
        !s[i].voted(k),
    ensures
        count_voted(s, k) < s.len(),
    decreases s.len(),
{
    if i < s.len() - 1 {
        lemma_count_voted_below(s.drop_last(), k, i);
    } else {
        lemma_count_voted_bound(s.drop_last(), k);
    }
}

/// Setting one flag of kind `k` that was clear adds one to the count; the
/// counts of the other kinds do not move.
pub proof fn lemma_count_voted_set(s: Seq<Signature>, k: ProposalKind, i: int, j: ProposalKind)
    requires
        0 <= i < s.len(),
        !s[i].voted(k),
    ensures
        count_voted(s.update(i, s[i].with_vote(k, true)), j) == if j == k {
            count_voted(s, j) + 1
        } else {
            count_voted(s, j)
        },
    decreases s.len(),
{
    let t = s.update(i, s[i].with_vote(k, true));
    if i < s.len() - 1 {
        assert(t.drop_last() == s.drop_last().update(i, s[i].with_vote(k, true)));
        lemma_count_voted_set(s.drop_last(), k, i, j);
    } else {
        assert(t.drop_last() == s.drop_last());
    }
}

/// Removing a member takes its own vote out of the count.
pub proof fn lemma_count_voted_remove(s: Seq<Signature>, k: ProposalKind, i: int)
    requires
        0 <= i < s.len(),
    ensures
        count_voted(s.remove(i), k) + (if s[i].voted(k) {
            1nat
        } else {
            0nat
        }) == count_voted(s, k),
    decreases s.len(),
{
    if i < s.len() - 1 {
        assert(s.remove(i).drop_last() == s.drop_last().remove(i));
        lemma_count_voted_remove(s.drop_last(), k, i);
    } else {
        assert(s.remove(i) == s.drop_last());
    }
}

/// With the flags of kind `k` cleared nobody has voted on kind `k`, and the
/// other kinds keep their counts.
pub proof fn lemma_count_voted_clear(s: Seq<Signature>, k: ProposalKind, j: ProposalKind)
    ensures
        count_voted(clear_votes(s, k), j) == if j == k {
            0
        } else {
            count_voted(s, j)
        },
    decreases s.len(),
{
    if s.len() > 0 {
        assert(clear_votes(s, k).drop_last() == clear_votes(s.drop_last(), k));
        lemma_count_voted_clear(s.drop_last(), k, j);
    }
}

/// Appending fresh members who have voted on nothing keeps the counts and
/// the old members in front, and, when none of them is a member already or
/// listed twice, keeps keys unique.
pub proof fn lemma_append_members(s: Seq<Signature>, ids: Seq<Identity>)
    ensures
        append_members(s, ids).len() == s.len() + ids.len(),
        append_members(s, ids).subrange(0, s.len() as int) == s,
        forall|i: int| 0 <= i < s.len() ==> #[trigger] append_members(s, ids)[i] == s[i],
        forall|i: int|
            s.len() <= i < append_members(s, ids).len() ==> #[trigger] append_members(s, ids)[i]
                == Signature::fresh(ids[i - s.len()]),
        forall|k: ProposalKind| count_voted(#[trigger] append_members(s, ids), k) == count_voted(s, k),
        unique_keys(s) && fresh_ids(s, ids) ==> unique_keys(append_members(s, ids)),
    decreases ids.len(),
{
    let m = append_members(s, ids);
    assert(m.subrange(0, s.len() as int) =~= s);
    if ids.len() == 0 {
        assert(m =~= s);
    } else {
        lemma_append_members(s, ids.drop_last());
        assert(m.drop_last() =~= append_members(s, ids.drop_last()));
        assert forall|k: ProposalKind| count_voted(#[trigger] append_members(s, ids), k) == count_voted(s, k) by {
            assert(m.drop_last() =~= append_members(s, ids.drop_last()));
            assert(!m.last().voted(k)) by {
                match k {
                    ProposalKind::Add => {},
                    ProposalKind::Delete => {},
                    ProposalKind::ChangeThreshold => {},
                    ProposalKind::ChangeTimeLimit => {},
                    ProposalKind::TransferAmount => {},
                }
            }
        }
    }
    if unique_keys(s) && fresh_ids(s, ids) {
        assert forall|a: int, b: int| 0 <= a < b < m.len() implies m[a].key != m[b].key by {
            if b >= s.len() {
                if a < s.len() {
                    assert(keys(s)[a] == s[a].key);
                    assert(!keys(s).contains(ids[b - s.len()]));
                }
            }
        }
    }
}

/// The identities that have voted on the current proposal of kind `k`.
pub open spec fn voters(s: Seq<Signature>, k: ProposalKind) -> Set<Identity> {
    Set::new(|id: Identity| exists|i: int| 0 <= i < s.len() && s[i].key == id && s[i].voted(k))
}

/// With unique keys, the count of votes is the number of distinct voters.
pub proof fn lemma_voters_count(s: Seq<Signature>, k: ProposalKind)
    requires
        unique_keys(s),
    ensures
        voters(s, k).finite(),
        voters(s, k).len() == count_voted(s, k),
    decreases s.len(),
{
    if s.len() == 0 {
        assert(voters(s, k) =~= Set::<Identity>::empty());
    } else {
        let p = s.drop_last();
        let m = s.last();
        lemma_voters_count(p, k);
        let expected = if m.voted(k) {
            voters(p, k).insert(m.key)
        } else {
            voters(p, k)
        };
        assert forall|id: Identity| voters(s, k).contains(id) == expected.contains(id) by {
            if voters(s, k).contains(id) {
                let i = choose|i: int| 0 <= i < s.len() && s[i].key == id && s[i].voted(k);
                if i < s.len() - 1 {
                    assert(p[i] == s[i]);
                }
            }
            if voters(p, k).contains(id) {
                let i = choose|i: int| 0 <= i < p.len() && p[i].key == id && p[i].voted(k);
                assert(s[i] == p[i]);
            }
        }
        assert(voters(s, k) =~= expected);
        if m.voted(k) {
            assert(!voters(p, k).contains(m.key)) by {
                if voters(p, k).contains(m.key) {
                    let i = choose|i: int| 0 <= i < p.len() && p[i].key == m.key && p[i].voted(k);
                    assert(s[i] == p[i]);
                }
            }
        }
    }
}

} // verus!
