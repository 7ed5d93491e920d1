//! The vote ledger: for each voter, the candidate they currently back.

use std::collections::HashMap;
use vstd::prelude::*;
use vstd::std_specs::iter::IteratorSpec;

verus! {

broadcast use vstd::std_specs::hash::group_hash_axioms;

/// The voters who back `candidate`.
pub open spec fn voters_for(votes: Map<u64, usize>, candidate: usize) -> Set<u64> {
    Set::new(|voter: u64| votes.contains_key(voter) && votes[voter] == candidate)
}

/// How many voters back `candidate`.
pub open spec fn votes_for(votes: Map<u64, usize>, candidate: usize) -> nat {
    voters_for(votes, candidate).len()
}

/// How many voters have a vote on record.
pub open spec fn total_votes(votes: Map<u64, usize>) -> nat {
    votes.dom().len()
}

/// The vote that `voter` has on record, if any.
pub open spec fn choice_in(votes: Map<u64, usize>, voter: u64) -> Option<usize> {
    if votes.contains_key(voter) {
        Some(votes[voter])
    } else {
        None
    }
}

/// A vote of `voter` for `candidate` adds them to that candidate's voters and
/// takes them from every other candidate's.
pub proof fn lemma_vote_moves_voter(votes: Map<u64, usize>, voter: u64, candidate: usize)
    ensures
        voters_for(votes.insert(voter, candidate), candidate) == voters_for(
            votes.remove(voter),
            candidate,
        ).insert(voter),
        forall|other: usize|
            other != candidate ==> #[trigger] voters_for(votes.insert(voter, candidate), other)
                == voters_for(votes.remove(voter), other),
        !voters_for(votes.remove(voter), candidate).contains(voter),
        votes.insert(voter, candidate).dom() == votes.remove(voter).dom().insert(voter),
        !votes.remove(voter).dom().contains(voter),
{
    let after = votes.insert(voter, candidate);
    let others = votes.remove(voter);
    assert(voters_for(after, candidate) =~= voters_for(others, candidate).insert(voter));
    assert forall|other: usize| other != candidate implies #[trigger] voters_for(after, other)
        == voters_for(others, other) by {
        assert(voters_for(after, other) =~= voters_for(others, other));
    }
    assert(after.dom() =~= others.dom().insert(voter));
}

/// Each voter counts once: after a vote of `voter` for `candidate`, that
/// candidate has one vote more than the other voters gave it, every other
/// candidate has exactly what the other voters gave it, and the total is the
/// number of other voters plus one.
pub proof fn lemma_vote_counts_once(votes: Map<u64, usize>, voter: u64, candidate: usize)
    requires
        votes.dom().finite(),
    ensures
        votes_for(votes.insert(voter, candidate), candidate) == votes_for(
            votes.remove(voter),
            candidate,
        ) + 1,
        forall|other: usize|
            other != candidate ==> #[trigger] votes_for(votes.insert(voter, candidate), other)
                == votes_for(votes.remove(voter), other),
        total_votes(votes.insert(voter, candidate)) == total_votes(votes.remove(voter)) + 1,
{
    lemma_vote_moves_voter(votes, voter, candidate);
    let others = votes.remove(voter);
    lemma_voters_finite(others, candidate);
    assert forall|other: usize| other != candidate implies #[trigger] votes_for(
        votes.insert(voter, candidate),
        other,
    ) == votes_for(others, other) by {
        assert(voters_for(votes.insert(voter, candidate), other) == voters_for(others, other));
    }
}

/// The voters of a candidate are among all voters, so there are finitely
/// many of them, and no more than there are voters.
pub proof fn lemma_voters_finite(votes: Map<u64, usize>, candidate: usize)
    requires
        votes.dom().finite(),
    ensures
        voters_for(votes, candidate).finite(),
        votes_for(votes, candidate) <= total_votes(votes),
{
    assert(voters_for(votes, candidate).subset_of(votes.dom()));
    vstd::set_lib::lemma_len_subset(voters_for(votes, candidate), votes.dom());
}

/// A voter who votes twice counts once, for the second choice: the ledger is
/// as if only the second vote had been cast, the first choice has no vote
/// from them, and the second has exactly one.
pub proof fn lemma_revote_counts_last(votes: Map<u64, usize>, voter: u64, first: usize, second: usize)
    requires
        votes.dom().finite(),
        first != second,
    ensures
        votes.insert(voter, first).insert(voter, second) == votes.insert(voter, second),
        choice_in(votes.insert(voter, first).insert(voter, second), voter) == Some(second),
        votes_for(votes.insert(voter, first).insert(voter, second), second) == votes_for(
            votes.remove(voter),
            second,
        ) + 1,
        votes_for(votes.insert(voter, first).insert(voter, second), first) == votes_for(
            votes.remove(voter),
            first,
        ),
        total_votes(votes.insert(voter, first).insert(voter, second)) == total_votes(
            votes.remove(voter),
        ) + 1,
{
    assert(votes.insert(voter, first).insert(voter, second) =~= votes.insert(voter, second));
    lemma_vote_counts_once(votes, voter, second);
}

/// Maps each voter to the index of the candidate they chose. A voter has at
/// most one entry; a new vote replaces the old one, and nothing is ever
/// removed.
pub struct VoteLedger {
    votes: HashMap<u64, usize>,
}

impl View for VoteLedger {
    type V = Map<u64, usize>;

    closed spec fn view(&self) -> Map<u64, usize> {
        self.votes@
    }
}

impl VoteLedger {
    /// An empty ledger.
    pub fn new() -> (ledger: Self)
        ensures
            ledger@ == Map::<u64, usize>::empty(),
    {
        VoteLedger { votes: HashMap::new() }
    }

    /// A ledger always holds finitely many votes.
    pub proof fn lemma_finite(&self)
        ensures
            self@.dom().finite(),
    {
    }

    /// Records that `voter` backs `candidate`, replacing any earlier vote of
    /// theirs, and returns the candidate they backed before.
    pub fn cast(&mut self, voter: u64, candidate: usize) -> (previous: Option<usize>)
        ensures
            final(self)@ == old(self)@.insert(voter, candidate),
            previous == choice_in(old(self)@, voter),
    {
        self.votes.insert(voter, candidate)
    }

    /// The candidate that `voter` currently backs.
    pub fn choice_of(&self, voter: u64) -> (choice: Option<usize>)
        ensures
            choice == choice_in(self@, voter),
    {
        match self.votes.get(&voter) {
            Some(c) => Some(*c),
            None => None,
        }
    }

    /// The number of voters with a vote on record.
    pub fn len(&self) -> (n: usize)
        ensures
            n == total_votes(self@),
    {
        self.votes.len()
    }

    /// Whether nobody has voted.
    pub fn is_empty(&self) -> (empty: bool)
        ensures
            empty == (total_votes(self@) == 0),
            empty == (self@ == Map::<u64, usize>::empty()),
    {
        let n: usize = self.votes.len();
        proof {
            if n == 0 {
                assert(self@.dom() =~= Set::<u64>::empty());
                assert(self@ =~= Map::<u64, usize>::empty());
            }
        }
        n == 0
    }

    /// The number of voters who back `candidate`.
    pub fn count_for(&self, candidate: usize) -> (n: usize)
        ensures
            n == votes_for(self@, candidate),
            n <= total_votes(self@),
    {
        let ghost m = self.votes@;
        let total: usize = self.votes.len();
        let mut n: usize = 0;
        let ghost mut seen: Set<u64> = Set::empty();
        let ghost entries = self.votes.iter().remaining();
        for entry in it: self.votes.iter()
            invariant
                m == self.votes@,
                it.seq() == entries,
                total == m.dom().len(),
                n <= it.index(),
                it.seq().len() == total,
                it.seq().no_duplicates(),
                forall|i: int|
                    0 <= i < it.seq().len() ==> m.contains_key(*(#[trigger] it.seq()[i]).0)
                        && m[*it.seq()[i].0] == *it.seq()[i].1,
                forall|k: u64| #[trigger]
                    m.contains_key(k) ==> it.seq().contains((&k, &m[k])),
                seen.finite(),
                seen.len() == n,
                forall|i: int|
                    0 <= i < it.index() && *(#[trigger] it.seq()[i]).1 == candidate
                        ==> seen.contains(*it.seq()[i].0),
                forall|k: u64| #[trigger]
                    seen.contains(k) ==> m.contains_key(k) && m[k] == candidate,
                forall|i: int|
                    it.index() <= i < it.seq().len() ==> !seen.contains(
                        *(#[trigger] it.seq()[i]).0,
                    ),
        {
            let ghost idx = it.index();
            let ghost s = it.seq();
            assert(entry == s[idx]);
            if *entry.1 == candidate {
                proof {
                    assert(!seen.contains(*s[idx].0));
                    assert forall|i: int| idx + 1 <= i < s.len() implies *(#[trigger] s[i]).0
                        != *s[idx].0 by {
                        if *s[i].0 == *s[idx].0 {
                            assert(m[*s[i].0] == *s[i].1);
                            assert(m[*s[idx].0] == *s[idx].1);
                            assert(s[i] == s[idx]);
                        }
                    }
                    seen = seen.insert(*entry.0);
                }
                n += 1;
            }
        }
        proof {
            assert(seen =~= voters_for(m, candidate)) by {
                assert forall|k: u64| voters_for(m, candidate).contains(k) implies seen.contains(
                    k,
                ) by {
                    let s = entries;
                    assert(s.contains((&k, &m[k])));
                    let i = choose|i: int| 0 <= i < s.len() && s[i] == (&k, &m[k]);
                    assert(*s[i].1 == candidate);
                }
            }
        }
        n
    }
}

} // verus!
