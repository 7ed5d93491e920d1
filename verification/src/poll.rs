//! What a poll is made of: its candidates, their emojis and the rules that
//! decide what a reaction means.

use vstd::prelude::*;
use crate::text::{chars_of, same_chars};

verus! {

/// A selectable option of a poll, with the emoji that stands for it.
#[derive(Debug)]
pub struct Candidate {
    /// The text shown for the option; may be a mention token.
    pub label: String,
    /// The emoji a voter reacts with to choose the option.
    pub emoji: String,
}

/// Everything that defines one poll.
#[derive(Debug)]
pub struct PollSpec {
    pub title: String,
    pub description: String,
    /// The options in the order they are shown.
    pub candidates: Vec<Candidate>,
    /// The emoji by which the initiator ends the poll early.
    pub cancel_emoji: String,
    /// How long votes are collected, in seconds.
    pub duration_secs: u64,
    /// The moment collection ends, in seconds since the epoch; fixed when the
    /// poll is created.
    pub deadline: u64,
    /// Whether a voter is kept from choosing the option that mentions them.
    pub self_vote_block: bool,
    /// The user who started the poll.
    pub initiator: u64,
    /// The channel the poll is posted in.
    pub target_channel: u64,
    /// The channel in which the initiator is prompted and informed.
    pub prompt_channel: u64,
}

/// The part of a poll's definition that decides what a reaction means.
pub struct PollRules {
    pub labels: Seq<Seq<char>>,
    pub emojis: Seq<Seq<char>>,
    pub cancel_emoji: Seq<char>,
    pub initiator: u64,
    pub self_vote_block: bool,
}

/// What an emoji stands for in a poll.
#[derive(Clone, Copy, Debug, PartialEq, Eq, Structural)]
pub enum Resolution {
    /// The candidate with this index.
    Candidate(usize),
    /// The request to end the poll.
    Cancel,
    /// Nothing.
    Unknown,
}

/// The least number of candidates a poll may have.
pub const MIN_CANDIDATES: usize = 2;

/// The greatest number of candidates a poll may have.
pub const MAX_CANDIDATES: usize = 8;

/// A poll has between two and eight candidates.
pub open spec fn valid_candidate_count(n: nat) -> bool {
    MIN_CANDIDATES <= n <= MAX_CANDIDATES
}

/// The index of the first item equal to `needle`.
pub open spec fn first_match(items: Seq<Seq<char>>, needle: Seq<char>) -> Option<int>
    decreases items.len(),
{
    if items.len() == 0 {
        None
    } else if items[0] == needle {
        Some(0)
    } else {
        match first_match(items.drop_first(), needle) {
            Some(i) => Some(i + 1),
            None => None,
        }
    }
}

/// `first_match` finds an item equal to the needle, the earliest one, and
/// finds nothing only when no item is equal to it.
pub proof fn lemma_first_match(items: Seq<Seq<char>>, needle: Seq<char>)
    ensures
        match first_match(items, needle) {
            Some(i) => {
                &&& 0 <= i < items.len()
                &&& items[i] == needle
                &&& forall|j: int| 0 <= j < i ==> items[j] != needle
            },
            None => forall|j: int| 0 <= j < items.len() ==> items[j] != needle,
        },
    decreases items.len(),
{
    if items.len() > 0 && items[0] != needle {
        let rest = items.drop_first();
        lemma_first_match(rest, needle);
        match first_match(rest, needle) {
            Some(i) => {
                assert forall|j: int| 0 <= j < i + 1 implies items[j] != needle by {
                    if j > 0 {
                        assert(items[j] == rest[j - 1]);
                    }
                }
            },
            None => {
                assert forall|j: int| 0 <= j < items.len() implies items[j] != needle by {
                    if j > 0 {
                        assert(items[j] == rest[j - 1]);
                    }
                }
            },
        }
    }
}

/// What `emoji` stands for: the first candidate it is assigned to, else the
/// request to cancel if it is the cancel emoji, else nothing.
pub open spec fn resolution(rules: PollRules, emoji: Seq<char>) -> Resolution {
    match first_match(rules.emojis, emoji) {
        Some(i) => Resolution::Candidate(i as usize),
        None => if emoji == rules.cancel_emoji {
            Resolution::Cancel
        } else {
            Resolution::Unknown
        },
    }
}

/// When the emojis of a poll differ from each other and from the cancel
/// emoji, the emoji of each candidate stands for that candidate and the
/// cancel emoji for the request to cancel.
pub proof fn lemma_resolution_of_distinct_emojis(rules: PollRules)
    requires
        rules.emojis.len() <= usize::MAX,
        forall|i: int, j: int|
            0 <= i < j < rules.emojis.len() ==> rules.emojis[i] != rules.emojis[j],
        forall|i: int| 0 <= i < rules.emojis.len() ==> rules.emojis[i] != rules.cancel_emoji,
    ensures
        forall|i: int|
            0 <= i < rules.emojis.len() ==> resolution(rules, #[trigger] rules.emojis[i])
                == Resolution::Candidate(i as usize),
        resolution(rules, rules.cancel_emoji) == Resolution::Cancel,
{
    assert forall|i: int| 0 <= i < rules.emojis.len() implies resolution(
        rules,
        #[trigger] rules.emojis[i],
    ) == Resolution::Candidate(i as usize) by {
        lemma_first_match(rules.emojis, rules.emojis[i]);
    }
    lemma_first_match(rules.emojis, rules.cancel_emoji);
}

impl PollSpec {
    /// The labels of the candidates, in order.
    pub open spec fn labels(&self) -> Seq<Seq<char>> {
        Seq::new(self.candidates@.len(), |i: int| self.candidates@[i].label@)
    }

    /// The emojis of the candidates, in order.
    pub open spec fn emojis(&self) -> Seq<Seq<char>> {
        Seq::new(self.candidates@.len(), |i: int| self.candidates@[i].emoji@)
    }

    /// The rules this definition gives.
    pub open spec fn rules(&self) -> PollRules {
        PollRules {
            labels: self.labels(),
            emojis: self.emojis(),
            cancel_emoji: self.cancel_emoji@,
            initiator: self.initiator,
            self_vote_block: self.self_vote_block,
        }
    }

    /// The seconds from `now` to the deadline; zero once the deadline has
    /// come. The deadline itself never moves.
    pub fn time_left(&self, now: u64) -> (secs: u64)
        ensures
            secs == if now >= self.deadline {
                0
            } else {
                self.deadline - now
            },
    {
        if now >= self.deadline {
            0
        } else {
            self.deadline - now
        }
    }

    /// Finds what `emoji` stands for in this poll.
    pub fn resolve(&self, emoji: &str) -> (r: Resolution)
        ensures
            r == resolution(self.rules(), emoji@),
    {
        let needle: Vec<char> = chars_of(emoji);
        let n: usize = self.candidates.len();
        let mut i: usize = 0;
        while i < n
            invariant
                i <= n,
                n == self.candidates@.len(),
                needle@ == emoji@,
                forall|j: int| 0 <= j < i ==> self.emojis()[j] != emoji@,
            decreases n - i,
        {
            let own: Vec<char> = chars_of(self.candidates[i].emoji.as_str());
            if same_chars(own.as_slice(), needle.as_slice()) {
                proof {
                    assert(self.emojis()[i as int] == emoji@);
                    lemma_first_match(self.emojis(), emoji@);
                }
                return Resolution::Candidate(i);
            }
            assert(self.emojis()[i as int] != emoji@);
            i += 1;
        }
        proof {
            lemma_first_match(self.emojis(), emoji@);
        }
        let cancel: Vec<char> = chars_of(self.cancel_emoji.as_str());
        if same_chars(cancel.as_slice(), needle.as_slice()) {
            Resolution::Cancel
        } else {
            Resolution::Unknown
        }
    }

    /// The labels of the candidates, in order.
    pub fn label_list(&self) -> (list: Vec<String>)
        ensures
            list@.len() == self.candidates@.len(),
            forall|i: int| 0 <= i < list@.len() ==> (#[trigger] list@[i])@ == self.labels()[i],
    {
        let n: usize = self.candidates.len();
        let mut list: Vec<String> = Vec::new();
        let mut i: usize = 0;
        while i < n
            invariant
                i <= n,
                n == self.candidates@.len(),
                list@.len() == i,
                forall|j: int|
                    0 <= j < i ==> (#[trigger] list@[j])@ == self.candidates@[j].label@,
            decreases n - i,
        {
            list.push(self.candidates[i].label.clone());
            i += 1;
        }
        list
    }

    /// The emojis to put under the poll message: one per candidate, in
    /// order, then the cancel emoji.
    pub fn seed_reactions(&self) -> (seeds: Vec<String>)
        ensures
            seeds@.len() == self.candidates@.len() + 1,
            forall|i: int|
                0 <= i < self.candidates@.len() ==> (#[trigger] seeds@[i])@
                    == self.candidates@[i].emoji@,
            seeds@[self.candidates@.len() as int]@ == self.cancel_emoji@,
    {
        let n: usize = self.candidates.len();
        let mut seeds: Vec<String> = Vec::new();
        let mut i: usize = 0;
        while i < n
            invariant
                i <= n,
                n == self.candidates@.len(),
                seeds@.len() == i,
                forall|j: int|
                    0 <= j < i ==> (#[trigger] seeds@[j])@ == self.candidates@[j].emoji@,
            decreases n - i,
        {
            seeds.push(self.candidates[i].emoji.clone());
            i += 1;
        }
        seeds.push(self.cancel_emoji.clone());
        seeds
    }
}

} // verus!
