//! Splitting a text into words at white space.

use vstd::prelude::*;
use vstd::string::StrSliceExecFns;
use crate::text::{chars_of, texts_of};

verus! {

/// The characters that Unicode calls white space: tab to carriage return,
/// the space, the next-line control, the no-break space, the Ogham space
/// mark, the spaces from en quad to hair space, the line and paragraph
/// separators, the narrow no-break space, the medium mathematical space and
/// the ideographic space.
pub open spec fn is_white_space(c: char) -> bool {
    ||| '\u{9}' <= c <= '\u{d}'
    ||| c == ' '
    ||| c == '\u{85}'
    ||| c == '\u{a0}'
    ||| c == '\u{1680}'
    ||| '\u{2000}' <= c <= '\u{200a}'
    ||| c == '\u{2028}'
    ||| c == '\u{2029}'
    ||| c == '\u{202f}'
    ||| c == '\u{205f}'
    ||| c == '\u{3000}'
}

/// Whether `c` is white space.
pub fn white_space(c: char) -> (b: bool)
    ensures
        b == is_white_space(c),
{
    ('\u{9}' <= c && c <= '\u{d}') || c == ' ' || c == '\u{85}' || c == '\u{a0}' || c
        == '\u{1680}' || ('\u{2000}' <= c && c <= '\u{200a}') || c == '\u{2028}' || c
        == '\u{2029}' || c == '\u{202f}' || c == '\u{205f}' || c == '\u{3000}'
}

/// The number of characters at the start of `s` before the first white
/// space, or the end.
pub open spec fn word_length(s: Seq<char>) -> nat
    decreases s.len(),
{
    if s.len() == 0 || is_white_space(s[0]) {
        0
    } else {
        1 + word_length(s.drop_first())
    }
}

/// `word_length` stops at the first white space or at the end, and nowhere
/// before.
pub proof fn lemma_word_length(s: Seq<char>)
    ensures
        word_length(s) <= s.len(),
        forall|k: int| 0 <= k < word_length(s) ==> !is_white_space(s[k]),
        word_length(s) < s.len() ==> is_white_space(s[word_length(s) as int]),
        s.len() > 0 && !is_white_space(s[0]) ==> word_length(s) >= 1,
    decreases s.len(),
{
    if s.len() > 0 && !is_white_space(s[0]) {
        let rest = s.drop_first();
        lemma_word_length(rest);
        assert forall|k: int| 0 <= k < word_length(s) implies !is_white_space(s[k]) by {
            if k > 0 {
                assert(s[k] == rest[k - 1]);
            }
        }
        if word_length(s) < s.len() {
            assert(s[word_length(s) as int] == rest[word_length(rest) as int]);
        }
    }
}

/// A run of `m` characters without white space that ends at a white space
/// or at the end of `s` is what `word_length` measures.
pub proof fn lemma_word_length_of_run(s: Seq<char>, m: int)
    requires
        0 <= m <= s.len(),
        forall|k: int| 0 <= k < m ==> !is_white_space(s[k]),
        m == s.len() || is_white_space(s[m]),
    ensures
        word_length(s) == m,
    decreases m,
{
    if m > 0 {
        let rest = s.drop_first();
        assert forall|k: int| 0 <= k < m - 1 implies !is_white_space(rest[k]) by {
            assert(rest[k] == s[k + 1]);
        }
        lemma_word_length_of_run(rest, m - 1);
    }
}

/// The words of a text: its longest runs of characters without white space,
/// in order. White space before a word is skipped; the word goes on to the
/// next white space or to the end; the rest is split in the same way.
pub open spec fn words_of(s: Seq<char>) -> Seq<Seq<char>>
    decreases s.len(),
{
    if s.len() == 0 {
        Seq::<Seq<char>>::empty()
    } else if is_white_space(s[0]) {
        words_of(s.drop_first())
    } else {
        proof {
            lemma_word_length(s);
        }
        seq![s.take(word_length(s) as int)] + words_of(s.skip(word_length(s) as int))
    }
}

/// A word: at least one character, and no white space.
pub open spec fn is_word(w: Seq<char>) -> bool {
    w.len() > 0 && forall|k: int| 0 <= k < w.len() ==> !is_white_space(#[trigger] w[k])
}

/// Every piece that `words_of` gives is a word.
pub proof fn lemma_words_are_words(s: Seq<char>)
    ensures
        forall|i: int| 0 <= i < words_of(s).len() ==> is_word(#[trigger] words_of(s)[i]),
    decreases s.len(),
{
    if s.len() == 0 {
        assert(words_of(s).len() == 0);
    } else if is_white_space(s[0]) {
        lemma_words_are_words(s.drop_first());
        assert(words_of(s) == words_of(s.drop_first()));
    } else {
        lemma_word_length(s);
        let n = word_length(s) as int;
        lemma_words_are_words(s.skip(n));
        let first = s.take(n);
        let rest = words_of(s.skip(n));
        assert(words_of(s) == seq![first] + rest);
        assert(is_word(first));
        assert forall|i: int| 0 <= i < words_of(s).len() implies is_word(
            #[trigger] words_of(s)[i],
        ) by {
            if i == 0 {
                assert(words_of(s)[0] == first);
            } else {
                assert(words_of(s)[i] == rest[i - 1]);
            }
        }
    }
}

/// Splits a text into its words.
pub fn split_words(text: &str) -> (words: Vec<String>)
    ensures
        texts_of(words@) == words_of(text@),
{
    let v: Vec<char> = chars_of(text);
    let n: usize = v.len();
    let ghost s = text@;
    let mut words: Vec<String> = Vec::new();
    let mut i: usize = 0;
    assert(s.skip(0) == s);
    assert(texts_of(words@) + words_of(s.skip(0)) == words_of(s));
    while i < n
        invariant
            i <= n,
            n == s.len(),
            v@ == s,
            s == text@,
            texts_of(words@) + words_of(s.skip(i as int)) == words_of(s),
        decreases n - i,
    {
        let ghost rest = s.skip(i as int);
        assert(rest[0] == s[i as int]);
        if white_space(v[i]) {
            assert(rest.drop_first() == s.skip(i + 1));
            i += 1;
        } else {
            let mut j: usize = i + 1;
            while j < n && !white_space(v[j])
                invariant
                    i < j <= n,
                    n == s.len(),
                    v@ == s,
                    forall|k: int| i <= k < j ==> !is_white_space(s[k]),
                decreases n - j,
            {
                j += 1;
            }
            let word: String = text.substring_char(i, j).to_owned();
            proof {
                let m = j - i;
                assert forall|k: int| 0 <= k < m implies !is_white_space(rest[k]) by {
                    assert(rest[k] == s[i + k]);
                }
                if m < rest.len() {
                    assert(rest[m] == s[j as int]);
                }
                lemma_word_length_of_run(rest, m);
                assert(rest.take(m) == s.subrange(i as int, j as int));
                assert(rest.skip(m) == s.skip(j as int));
                assert(words_of(rest) == seq![word@] + words_of(s.skip(j as int)));
                assert(texts_of(words@.push(word)) == texts_of(words@).push(word@));
                assert(texts_of(words@).push(word@) + words_of(s.skip(j as int)) == texts_of(
                    words@,
                ) + (seq![word@] + words_of(s.skip(j as int))));
            }
            words.push(word);
            i = j;
        }
    }
    assert(s.skip(n as int) == Seq::<char>::empty());
    assert(texts_of(words@) + Seq::<Seq<char>>::empty() == texts_of(words@));
    words
}

} // verus!
