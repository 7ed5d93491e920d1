//! Unsigned decimal numerals: what a run of digits denotes, and how a number
//! is written.

use vstd::prelude::*;

verus! {

/// `c` is one of the ten ASCII digits.
pub open spec fn is_digit(c: char) -> bool {
    '0' <= c && c <= '9'
}

/// The value of the digit `c`.
pub open spec fn digit_value(c: char) -> nat
    recommends
        is_digit(c),
{
    (c as int - '0' as int) as nat
}

/// Every character of `s` is a digit.
pub open spec fn all_digits(s: Seq<char>) -> bool {
    forall|i: int| 0 <= i < s.len() ==> is_digit(#[trigger] s[i])
}

/// The number that the digits `s` denote, most significant digit first.
/// The empty sequence denotes zero.
pub open spec fn digits_value(s: Seq<char>) -> nat
    decreases s.len(),
{
    if s.len() == 0 {
        0
    } else {
        10 * digits_value(s.drop_last()) + digit_value(s.last())
    }
}

/// A prefix of a numeral never denotes more than the whole numeral.
pub proof fn lemma_digits_value_prefix(s: Seq<char>, k: int)
    requires
        0 <= k <= s.len(),
    ensures
        digits_value(s.take(k)) <= digits_value(s),
    decreases s.len() - k,
{
    if k == s.len() {
        assert(s.take(k) == s);
    } else {
        lemma_digits_value_prefix(s, k + 1);
        let t = s.take(k + 1);
        assert(t.drop_last() == s.take(k));
    }
}

/// Reads digits as a number. `None` when a character is no digit or the
/// number does not fit in 64 bits. No digits at all read as zero.
pub fn parse_digits(digits: &[char]) -> (r: Option<u64>)
    ensures
        r matches Some(n) ==> all_digits(digits@) && n == digits_value(digits@),
        r is None ==> !all_digits(digits@) || digits_value(digits@) > u64::MAX,
{
    let ghost s = digits@;
    let end: usize = digits.len();
    let mut acc: u64 = 0;
    let mut i: usize = 0;
    assert(s.take(0) =~= Seq::<char>::empty());
    while i < end
        invariant
            i <= end,
            end == digits@.len(),
            s == digits@,
            all_digits(s.take(i as int)),
            acc == digits_value(s.take(i as int)),
        decreases end - i,
    {
        let c: char = digits[i];
        if !('0' <= c && c <= '9') {
            return None;
        }
        let d: u64 = (c as u64) - ('0' as u64);
        proof {
            let t = s.take(i + 1);
            assert(t.drop_last() == s.take(i as int));
            assert(t.last() == c);
            assert(digits_value(t) == 10 * acc + d);
            lemma_digits_value_prefix(s, i + 1);
        }
        let shifted: u64 = match acc.checked_mul(10) {
            Some(x) => x,
            None => {
                return None;
            },
        };
        acc = match shifted.checked_add(d) {
            Some(x) => x,
            None => {
                return None;
            },
        };
        i += 1;
    }
    assert(s.take(end as int) == s);
    Some(acc)
}

/// The character for a digit value below ten.
pub open spec fn digit_char(d: nat) -> char
    recommends
        d < 10,
{
    (d + '0' as nat) as char
}

/// How a number is written in decimal: no sign, no leading zeros, and `0`
/// for zero.
pub open spec fn decimal_repr(n: nat) -> Seq<char>
    decreases n,
{
    if n < 10 {
        seq![digit_char(n)]
    } else {
        decimal_repr(n / 10).push(digit_char(n % 10))
    }
}

/// Reading back what was written gives the number: the decimal form of `n`
/// consists of digits and denotes `n`.
pub proof fn lemma_decimal_repr_round_trip(n: nat)
    ensures
        decimal_repr(n).len() > 0,
        all_digits(decimal_repr(n)),
        digits_value(decimal_repr(n)) == n,
    decreases n,
{
    if n < 10 {
        let s = decimal_repr(n);
        assert(s.drop_last() =~= Seq::<char>::empty());
        assert(digits_value(s.drop_last()) == 0);
    } else {
        lemma_decimal_repr_round_trip(n / 10);
        let s = decimal_repr(n);
        assert(s.drop_last() =~= decimal_repr(n / 10));
    }
}

/// Appends the decimal form of `n` to `out`.
pub fn push_decimal(out: &mut Vec<char>, n: u64)
    ensures
        final(out)@ == old(out)@ + decimal_repr(n as nat),
    decreases n,
{
    if n >= 10 {
        push_decimal(out, n / 10);
    }
    let d: u8 = (n % 10) as u8;
    let c: char = (d + 48u8) as char;
    assert(c == digit_char((n % 10) as nat));
    out.push(c);
    proof {
        if n >= 10 {
            assert(old(out)@ + decimal_repr(n as nat) =~= (old(out)@ + decimal_repr(
                (n / 10) as nat,
            )).push(c));
        } else {
            assert(old(out)@ + decimal_repr(n as nat) =~= old(out)@.push(c));
        }
    }
}

} // verus!
