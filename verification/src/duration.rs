//! Short duration tokens such as `90s`, `15m`, `2h` or `7d`.

use vstd::prelude::*;
use vstd::slice::slice_subrange;
use crate::decimal::{all_digits, digits_value, parse_digits};
use crate::text::chars_of;

verus! {

/// Seconds in one unit, for the four unit letters; `None` for any other
/// character.
pub open spec fn unit_multiplier(unit: char) -> Option<nat> {
    if unit == 's' {
        Some(1nat)
    } else if unit == 'm' {
        Some(60nat)
    } else if unit == 'h' {
        Some(3600nat)
    } else if unit == 'd' {
        Some(86400nat)
    } else {
        None
    }
}

/// The seconds a token denotes: digits followed by one unit letter, with a
/// product that fits in 64 bits. Everything else denotes nothing.
pub open spec fn duration_seconds(token: Seq<char>) -> Option<nat> {
    if token.len() < 2 {
        None
    } else {
        match unit_multiplier(token.last()) {
            None => None,
            Some(m) => {
                let digits = token.drop_last();
                if all_digits(digits) && digits_value(digits) * m <= u64::MAX {
                    Some(digits_value(digits) * m)
                } else {
                    None
                }
            },
        }
    }
}

/// A number followed by a unit letter denotes that number times the seconds
/// in the unit, as long as the product fits in 64 bits.
pub proof fn lemma_well_formed_token(digits: Seq<char>, unit: char)
    requires
        digits.len() > 0,
        all_digits(digits),
        unit_multiplier(unit) is Some,
        digits_value(digits) * unit_multiplier(unit).unwrap() <= u64::MAX,
    ensures
        duration_seconds(digits.push(unit)) == Some(
            digits_value(digits) * unit_multiplier(unit).unwrap(),
        ),
{
    let token = digits.push(unit);
    assert(token.last() == unit);
    assert(token.drop_last() =~= digits);
}

/// A token that is too short, ends in no unit letter, or has anything but
/// digits before its last character denotes nothing.
pub proof fn lemma_malformed_token(token: Seq<char>)
    requires
        token.len() < 2 || unit_multiplier(token.last()) is None || !all_digits(
            token.drop_last(),
        ),
    ensures
        duration_seconds(token) is None,
{
}

/// Seconds in one unit, for a unit letter.
pub fn multiplier_of(unit: char) -> (r: Option<u64>)
    ensures
        r matches Some(m) ==> unit_multiplier(unit) == Some(m as nat),
        r is None ==> unit_multiplier(unit) is None,
{
    if unit == 's' {
        Some(1)
    } else if unit == 'm' {
        Some(60)
    } else if unit == 'h' {
        Some(3600)
    } else if unit == 'd' {
        Some(86400)
    } else {
        None
    }
}

/// Parses a duration token into seconds.
///
/// A token is at least two characters: decimal digits, then one of `s`, `m`,
/// `h`, `d`. The result is the number times 1, 60, 3600 or 86400. A token of
/// any other shape, or one whose seconds exceed 64 bits, gives `None`.
pub fn duration_from_shortened(shortened: &str) -> (r: Option<u64>)
    ensures
        r matches Some(secs) ==> duration_seconds(shortened@) == Some(secs as nat),
        r is None ==> duration_seconds(shortened@) is None,
{
    let v: Vec<char> = chars_of(shortened);
    let n: usize = v.len();
    if n < 2 {
        return None;
    }
    let unit: char = v[n - 1];
    let digits: &[char] = slice_subrange(v.as_slice(), 0, n - 1);
    assert(digits@ == shortened@.drop_last());
    let m: u64 = match multiplier_of(unit) {
        Some(m) => m,
        None => {
            return None;
        },
    };
    let value: u64 = match parse_digits(digits) {
        Some(x) => x,
        None => {
            proof {
                let digits = shortened@.drop_last();
                if all_digits(digits) {
                    assert(digits_value(digits) * m >= digits_value(digits)) by (nonlinear_arith)
                        requires
                            m >= 1,
                    ;
                }
            }
            return None;
        },
    };
    value.checked_mul(m)
}

} // verus!
