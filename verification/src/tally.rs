//! The result of a poll: votes per candidate, shares of the total, and the
//! ranking.

use vstd::prelude::*;
use crate::ledger::{total_votes, voters_for, votes_for, VoteLedger};
use crate::text::texts_of;

verus! {

/// The share of `count` in `total` as a whole percentage, rounded down. With
/// no votes at all every share is zero.
pub open spec fn percent_of(count: nat, total: nat) -> nat {
    if total == 0 {
        0
    } else {
        count * 100 / total
    }
}

/// The votes of each of the first `n` candidates, by candidate index.
pub open spec fn vote_counts(votes: Map<u64, usize>, n: nat) -> Seq<nat> {
    Seq::new(n, |c: int| votes_for(votes, c as usize))
}

/// Candidate `a` is placed before candidate `b`: it has more votes, or as
/// many and comes first in the candidate list.
pub open spec fn outranks(counts: Seq<nat>, a: int, b: int) -> bool {
    counts[a] > counts[b] || (counts[a] == counts[b] && a < b)
}

/// `order` lists every candidate index once, each before all those it
/// outranks.
pub open spec fn is_ranking(order: Seq<usize>, counts: Seq<nat>) -> bool {
    &&& order.len() == counts.len()
    &&& forall|i: int| 0 <= i < order.len() ==> (#[trigger] order[i]) < counts.len()
    &&& forall|c: int| 0 <= c < counts.len() ==> #[trigger] order.contains(c as usize)
    &&& forall|i: int, j: int|
        0 <= i < j < order.len() ==> outranks(counts, #[trigger] order[i] as int, #[trigger] order[j] as int)
}

/// No two candidates outrank each other, and none outranks itself.
pub proof fn lemma_outranks_one_way(counts: Seq<nat>, a: int, b: int)
    ensures
        !(outranks(counts, a, b) && outranks(counts, b, a)),
        !outranks(counts, a, a),
{
}

/// Two rankings of the same counts agree on their first `k` places.
proof fn lemma_rankings_agree(x: Seq<usize>, y: Seq<usize>, counts: Seq<nat>, k: int)
    requires
        is_ranking(x, counts),
        is_ranking(y, counts),
        0 <= k <= counts.len(),
    ensures
        forall|i: int| 0 <= i < k ==> x[i] == y[i],
    decreases k,
{
    if k > 0 {
        lemma_rankings_agree(x, y, counts, k - 1);
        let at = k - 1;
        let cx = x[at];
        let cy = y[at];
        // Each ranking holds what the other has in this place, and not
        // before it: there the two agree, and a ranking repeats nothing.
        assert(x.contains((cy as int) as usize));
        let p = choose|p: int| 0 <= p < x.len() && x[p] == cy;
        if p < at {
            assert(y[p] == cy);
            assert(outranks(counts, y[p] as int, y[at] as int));
        }
        assert(y.contains((cx as int) as usize));
        let q = choose|q: int| 0 <= q < y.len() && y[q] == cx;
        if q < at {
            assert(x[q] == cx);
            assert(outranks(counts, x[q] as int, x[at] as int));
        }
        if p > at && q > at {
            assert(outranks(counts, x[at] as int, x[p] as int));
            assert(outranks(counts, y[at] as int, y[q] as int));
            lemma_outranks_one_way(counts, cx as int, cy as int);
        }
    }
}

/// Counts have one ranking only: two lists that both rank them are equal.
pub proof fn lemma_ranking_unique(x: Seq<usize>, y: Seq<usize>, counts: Seq<nat>)
    requires
        is_ranking(x, counts),
        is_ranking(y, counts),
    ensures
        x == y,
{
    lemma_rankings_agree(x, y, counts, counts.len() as int);
    assert(x =~= y);
}

/// The counts held in a vector, as natural numbers.
pub open spec fn as_counts(v: Seq<usize>) -> Seq<nat> {
    Seq::new(v.len(), |i: int| v[i] as nat)
}

/// One line of the result.
#[derive(Debug)]
pub struct RankedEntry {
    /// Index of the candidate in the candidate list.
    pub candidate: usize,
    /// The candidate's label.
    pub label: String,
    /// Votes for the candidate.
    pub count: usize,
    /// The candidate's share of all votes, in whole percent.
    pub percent: u8,
}

/// The ranked result of a poll.
#[derive(Debug)]
pub struct PollResult {
    /// Number of voters.
    pub total: usize,
    /// One entry per candidate, best first.
    pub ranking: Vec<RankedEntry>,
}

impl PollResult {
    /// The candidate indices in ranked order.
    pub open spec fn order(self) -> Seq<usize> {
        Seq::new(self.ranking@.len(), |i: int| self.ranking@[i].candidate)
    }

    /// Nobody voted: every candidate has zero votes and a zero share, and the
    /// candidates stand in the order of the candidate list.
    pub open spec fn no_votes(self) -> bool {
        &&& self.total == 0
        &&& forall|i: int|
            0 <= i < self.ranking@.len() ==> {
                &&& (#[trigger] self.ranking@[i]).candidate == i
                &&& self.ranking@[i].count == 0
                &&& self.ranking@[i].percent == 0
            }
    }

    /// Whether nobody voted.
    pub fn is_no_votes(&self) -> (b: bool)
        ensures
            b == (self.total == 0),
    {
        self.total == 0
    }
}

/// `result` is the tally of `votes` over the candidates with these labels:
/// the total is the number of voters; the ranking lists every candidate
/// once, more votes first and ties in the order of the candidate list; and
/// each entry carries its candidate's label, votes and share.
pub open spec fn is_tally_of(result: PollResult, votes: Map<u64, usize>, labels: Seq<Seq<char>>) -> bool {
    &&& result.total == total_votes(votes)
    &&& result.ranking@.len() == labels.len()
    &&& is_ranking(result.order(), vote_counts(votes, labels.len()))
    &&& forall|i: int|
        0 <= i < result.ranking@.len() ==> {
            let e = #[trigger] result.ranking@[i];
            &&& e.candidate < labels.len()
            &&& e.label@ == labels[e.candidate as int]
            &&& e.count == votes_for(votes, e.candidate)
            &&& e.percent == percent_of(e.count as nat, result.total as nat)
        }
}

/// The share of `count` in `total` as a whole percentage, rounded down; zero
/// when `total` is zero, in which case nothing is divided.
fn percentage(count: usize, total: usize) -> (p: u8)
    requires
        count <= total,
    ensures
        p == percent_of(count as nat, total as nat),
        p <= 100,
{
    if total == 0 {
        0
    } else {
        let scaled: u128 = (count as u128) * 100;
        let q: u128 = scaled / (total as u128);
        assert(q <= 100) by (nonlinear_arith)
            requires
                q == (count * 100) / (total as int),
                0 <= count <= total,
                total > 0,
        ;
        q as u8
    }
}

/// Orders the candidate indices `0..counts.len()` by descending count; equal
/// counts keep the order of the candidate list.
pub fn rank(counts: &[usize]) -> (order: Vec<usize>)
    ensures
        is_ranking(order@, as_counts(counts@)),
{
    let n: usize = counts.len();
    let ghost cs = as_counts(counts@);
    let mut order: Vec<usize> = Vec::new();
    let mut c: usize = 0;
    while c < n
        invariant
            c <= n,
            n == counts.len(),
            cs == as_counts(counts@),
            order.len() == c,
            forall|i: int| 0 <= i < c ==> (#[trigger] order@[i]) < c,
            forall|d: int| 0 <= d < c ==> #[trigger] order@.contains(d as usize),
            forall|i: int, j: int|
                0 <= i < j < c ==> outranks(cs, #[trigger] order@[i] as int, #[trigger] order@[j] as int),
        decreases n - c,
    {
        let mut p: usize = 0;
        while p < order.len() && counts[order[p]] >= counts[c]
            invariant
                p <= order.len(),
                order.len() == c,
                c < n,
                n == counts.len(),
                forall|i: int| 0 <= i < c ==> (#[trigger] order@[i]) < c,
                forall|i: int| 0 <= i < p ==> counts@[(#[trigger] order@[i]) as int] >= counts@[c as int],
            decreases order.len() - p,
        {
            p += 1;
        }
        let ghost before = order@;
        order.insert(p, c);
        proof {
            let after = order@;
            assert(after == before.insert(p as int, c));
            assert forall|d: int| 0 <= d < c + 1 implies #[trigger] after.contains(d as usize) by {
                if d == c {
                    assert(after[p as int] == c);
                } else {
                    assert(before.contains(d as usize));
                    let i = choose|i: int| 0 <= i < before.len() && before[i] == d as usize;
                    if i < p {
                        assert(after[i] == d as usize);
                    } else {
                        assert(after[i + 1] == d as usize);
                    }
                }
            }
            assert forall|i: int, j: int| 0 <= i < j < c + 1 implies outranks(
                cs,
                #[trigger] after[i] as int,
                #[trigger] after[j] as int,
            ) by {
                if j < p {
                    assert(after[i] == before[i] && after[j] == before[j]);
                } else if j == p {
                    assert(after[i] == before[i]);
                    assert(counts@[before[i] as int] >= counts@[c as int]);
                } else if i < p {
                    assert(after[i] == before[i] && after[j] == before[j - 1]);
                } else if i == p {
                    assert(after[j] == before[j - 1]);
                    assert(counts@[before[p as int] as int] < counts@[c as int]);
                    if j - 1 > p {
                        assert(outranks(cs, before[p as int] as int, before[j - 1] as int));
                    }
                } else {
                    assert(after[i] == before[i - 1] && after[j] == before[j - 1]);
                }
            }
        }
        c += 1;
    }
    order
}

/// Counts the votes of each candidate, works out the shares, and ranks the
/// candidates: more votes first, ties in the order of the candidate list.
pub fn tally(ledger: &VoteLedger, candidates: &[String]) -> (result: PollResult)
    ensures
        is_tally_of(result, ledger@, texts_of(candidates@)),
        total_votes(ledger@) == 0 ==> result.no_votes(),
{
    let n: usize = candidates.len();
    let total: usize = ledger.len();
    let mut counts: Vec<usize> = Vec::new();
    let mut c: usize = 0;
    while c < n
        invariant
            c <= n,
            counts.len() == c,
            total == total_votes(ledger@),
            forall|i: int|
                0 <= i < c ==> (#[trigger] counts@[i]) == votes_for(ledger@, i as usize)
                    && counts@[i] <= total,
        decreases n - c,
    {
        counts.push(ledger.count_for(c));
        c += 1;
    }
    assert(as_counts(counts@) =~= vote_counts(ledger@, n as nat));
    let order: Vec<usize> = rank(counts.as_slice());
    let mut ranking: Vec<RankedEntry> = Vec::new();
    let mut i: usize = 0;
    while i < n
        invariant
            i <= n,
            n == candidates.len(),
            counts.len() == n,
            order.len() == n,
            ranking.len() == i,
            total == total_votes(ledger@),
            forall|k: int| 0 <= k < n ==> (#[trigger] order@[k]) < n,
            forall|k: int|
                0 <= k < n ==> (#[trigger] counts@[k]) == votes_for(ledger@, k as usize)
                    && counts@[k] <= total,
            forall|k: int|
                0 <= k < i ==> {
                    let e = #[trigger] ranking@[k];
                    &&& e.candidate == order@[k]
                    &&& e.label@ == candidates@[e.candidate as int]@
                    &&& e.count == votes_for(ledger@, e.candidate)
                    &&& e.percent == percent_of(e.count as nat, total as nat)
                },
        decreases n - i,
    {
        let candidate: usize = order[i];
        let count: usize = counts[candidate];
        ranking.push(
            RankedEntry {
                candidate,
                label: candidates[candidate].clone(),
                count,
                percent: percentage(count, total),
            },
        );
        i += 1;
    }
    let result = PollResult { total, ranking };
    proof {
        assert(result.order() =~= order@);
        if total == 0 {
            let vc = vote_counts(ledger@, n as nat);
            assert forall|a: int, b: int| 0 <= a < vc.len() && 0 <= b < vc.len() implies vc[a]
                == vc[b] by {
                assert(counts@[a] == 0 && counts@[b] == 0);
            }
            lemma_ranking_of_equal_counts(order@, vc);
            assert forall|k: int| 0 <= k < result.ranking@.len() implies {
                &&& (#[trigger] result.ranking@[k]).candidate == k
                &&& result.ranking@[k].count == 0
                &&& result.ranking@[k].percent == 0
            } by {
                assert(order@[k] == k);
                assert(counts@[k] == 0);
            }
        }
    }
    result
}

/// The tally of an empty ledger is the result with no votes: a total of
/// zero, every count and share zero, the candidates in their own order.
pub proof fn lemma_tally_of_no_votes(result: PollResult, labels: Seq<Seq<char>>)
    requires
        is_tally_of(result, Map::<u64, usize>::empty(), labels),
    ensures
        result.no_votes(),
{
    let votes = Map::<u64, usize>::empty();
    assert(votes.dom() =~= Set::<u64>::empty());
    assert forall|c: usize| votes_for(votes, c) == 0 by {
        assert(voters_for(votes, c) =~= Set::<u64>::empty());
    }
    let counts = vote_counts(votes, labels.len());
    lemma_ranking_of_equal_counts(result.order(), counts);
    assert forall|i: int| 0 <= i < result.ranking@.len() implies {
        &&& (#[trigger] result.ranking@[i]).candidate == i
        &&& result.ranking@[i].count == 0
        &&& result.ranking@[i].percent == 0
    } by {
        assert(result.order()[i] == i);
    }
}

/// When all counts are equal, the only ranking is the candidate list itself.
pub proof fn lemma_ranking_of_equal_counts(order: Seq<usize>, counts: Seq<nat>)
    requires
        is_ranking(order, counts),
        forall|a: int, b: int| 0 <= a < counts.len() && 0 <= b < counts.len() ==> counts[a] == counts[b],
    ensures
        forall|i: int| 0 <= i < order.len() ==> (#[trigger] order[i]) == i,
{
    // A strictly increasing list of n indices below n is 0, 1, .., n-1.
    assert forall|i: int, j: int| 0 <= i < j < order.len() implies (#[trigger] order[i]) < (#[trigger] order[j]) by {
        assert(outranks(counts, order[i] as int, order[j] as int));
    }
    lemma_increasing_is_identity(order);
}

/// In a strictly increasing list, the `i`-th entry is at least `i`.
proof fn lemma_increasing_at_least(order: Seq<usize>, i: int)
    requires
        0 <= i < order.len(),
        forall|a: int, b: int| 0 <= a < b < order.len() ==> (#[trigger] order[a]) < (#[trigger] order[b]),
    ensures
        order[i] >= i,
    decreases i,
{
    if i > 0 {
        lemma_increasing_at_least(order, i - 1);
    }
}

/// In a strictly increasing list of `n` entries below `n`, every entry
/// equals its position.
proof fn lemma_increasing_is_identity(order: Seq<usize>)
    requires
        forall|a: int| 0 <= a < order.len() ==> (#[trigger] order[a]) < order.len(),
        forall|a: int, b: int| 0 <= a < b < order.len() ==> (#[trigger] order[a]) < (#[trigger] order[b]),
    ensures
        forall|k: int| 0 <= k < order.len() ==> (#[trigger] order[k]) == k,
{
    assert forall|k: int| 0 <= k < order.len() implies (#[trigger] order[k]) == k by {
        lemma_increasing_at_least(order, k);
        lemma_increasing_at_most(order, k);
    }
}

/// In a strictly increasing list of `n` entries below `n`, the `i`-th entry
/// is at most `i`.
proof fn lemma_increasing_at_most(order: Seq<usize>, i: int)
    requires
        0 <= i < order.len(),
        forall|a: int| 0 <= a < order.len() ==> (#[trigger] order[a]) < order.len(),
        forall|a: int, b: int| 0 <= a < b < order.len() ==> (#[trigger] order[a]) < (#[trigger] order[b]),
    ensures
        order[i] <= i,
    decreases order.len() - i,
{
    if i + 1 < order.len() {
        lemma_increasing_at_most(order, i + 1);
    }
}

} // verus!
