//! The emojis that polls are run with.

use vstd::prelude::*;
use crate::poll::Candidate;

verus! {

/// The emoji by which the initiator ends a poll early: a cross mark.
pub const CANCEL_EMOJI: &'static str = "\u{274c}";

/// A fixed list of emojis from which candidates get theirs.
#[derive(Clone, Copy, Debug, PartialEq, Eq, Structural)]
pub enum EmojiSet {
    /// Eight coloured circles.
    Circles,
    /// One emoji for yes, one for no.
    YesNo,
}

/// The eight coloured circles: blue, yellow, green, red, white, orange,
/// brown, purple.
pub open spec fn circle_emojis() -> Seq<Seq<char>> {
    seq![
        "\u{1f535}"@,
        "\u{1f7e1}"@,
        "\u{1f7e2}"@,
        "\u{1f534}"@,
        "\u{26aa}"@,
        "\u{1f7e0}"@,
        "\u{1f7e4}"@,
        "\u{1f7e3}"@,
    ]
}

/// The emojis for yes and for no: a hot face and a cold face.
pub open spec fn yes_no_emojis() -> Seq<Seq<char>> {
    seq!["\u{1f975}"@, "\u{1f976}"@]
}

/// The emojis of a set differ from each other and from the cancel emoji, so
/// that a reaction with one of them stands for one thing only.
pub proof fn lemma_emojis_distinct(set: EmojiSet)
    ensures
        forall|i: int, j: int|
            0 <= i < j < set.emojis().len() ==> set.emojis()[i] != set.emojis()[j],
        forall|i: int| 0 <= i < set.emojis().len() ==> set.emojis()[i] != CANCEL_EMOJI@,
{
    reveal_strlit("\u{274c}");
    reveal_strlit("\u{1f535}");
    reveal_strlit("\u{1f7e1}");
    reveal_strlit("\u{1f7e2}");
    reveal_strlit("\u{1f534}");
    reveal_strlit("\u{26aa}");
    reveal_strlit("\u{1f7e0}");
    reveal_strlit("\u{1f7e4}");
    reveal_strlit("\u{1f7e3}");
    reveal_strlit("\u{1f975}");
    reveal_strlit("\u{1f976}");
    let e = set.emojis();
    assert forall|i: int| 0 <= i < e.len() implies e[i].len() == 1 && e[i] != CANCEL_EMOJI@ by {
        assert(CANCEL_EMOJI@[0] == '\u{274c}');
    }
    assert forall|i: int, j: int| 0 <= i < j < e.len() implies e[i] != e[j] by {
        assert(e[i][0] != e[j][0]);
    }
}

impl EmojiSet {
    /// The emojis of the set, in order.
    pub open spec fn emojis(self) -> Seq<Seq<char>> {
        match self {
            EmojiSet::Circles => circle_emojis(),
            EmojiSet::YesNo => yes_no_emojis(),
        }
    }

    /// How many emojis the set has.
    pub fn size(self) -> (n: usize)
        ensures
            n == self.emojis().len(),
    {
        match self {
            EmojiSet::Circles => 8,
            EmojiSet::YesNo => 2,
        }
    }

    /// The emoji at position `i`, if the set has that many.
    pub fn emoji(self, i: usize) -> (e: Option<&'static str>)
        ensures
            i < self.emojis().len() ==> (e matches Some(text) && text@ == self.emojis()[i as int]),
            i >= self.emojis().len() ==> e is None,
    {
        match self {
            EmojiSet::Circles => {
                if i == 0 {
                    Some("\u{1f535}")
                } else if i == 1 {
                    Some("\u{1f7e1}")
                } else if i == 2 {
                    Some("\u{1f7e2}")
                } else if i == 3 {
                    Some("\u{1f534}")
                } else if i == 4 {
                    Some("\u{26aa}")
                } else if i == 5 {
                    Some("\u{1f7e0}")
                } else if i == 6 {
                    Some("\u{1f7e4}")
                } else if i == 7 {
                    Some("\u{1f7e3}")
                } else {
                    None
                }
            },
            EmojiSet::YesNo => {
                if i == 0 {
                    Some("\u{1f975}")
                } else if i == 1 {
                    Some("\u{1f976}")
                } else {
                    None
                }
            },
        }
    }
}

/// Gives each label the emoji at its position in `set`. There is no
/// assignment when the labels outnumber the emojis.
pub fn assign_emojis(labels: &[String], set: EmojiSet) -> (r: Option<Vec<Candidate>>)
    ensures
        labels@.len() <= set.emojis().len() ==> {
            &&& r matches Some(candidates)
            &&& candidates@.len() == labels@.len()
            &&& forall|i: int|
                0 <= i < labels@.len() ==> (#[trigger] candidates@[i]).label@ == labels@[i]@
                    && candidates@[i].emoji@ == set.emojis()[i]
        },
        labels@.len() > set.emojis().len() ==> r is None,
{
    let n: usize = labels.len();
    if n > set.size() {
        return None;
    }
    let mut candidates: Vec<Candidate> = Vec::new();
    let mut i: usize = 0;
    while i < n
        invariant
            i <= n,
            n == labels@.len(),
            n <= set.emojis().len(),
            candidates@.len() == i,
            forall|j: int|
                0 <= j < i ==> (#[trigger] candidates@[j]).label@ == labels@[j]@
                    && candidates@[j].emoji@ == set.emojis()[j],
        decreases n - i,
    {
        let emoji: &str = match set.emoji(i) {
            Some(text) => text,
            None => {
                return None;
            },
        };
        candidates.push(Candidate { label: labels[i].clone(), emoji: emoji.to_owned() });
        i += 1;
    }
    Some(candidates)
}

} // verus!
