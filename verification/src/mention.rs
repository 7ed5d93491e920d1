//! Mention tokens: labels that stand for a user of the chat platform.

use vstd::prelude::*;
use crate::decimal::{decimal_repr, lemma_decimal_repr_round_trip, push_decimal};
use crate::text::{chars_of, same_chars};

verus! {

/// The token that mentions `user`: `<@!`, the user's number in decimal, `>`.
pub open spec fn mention_token(user: u64) -> Seq<char> {
    seq!['<', '@', '!'] + decimal_repr(user as nat) + seq!['>']
}

/// The label stands for `user`: it is exactly the token that mentions them.
pub open spec fn denotes(label: Seq<char>, user: u64) -> bool {
    label == mention_token(user)
}

/// A label stands for one user at most.
pub proof fn lemma_label_denotes_one_user(label: Seq<char>, a: u64, b: u64)
    requires
        denotes(label, a),
        denotes(label, b),
    ensures
        a == b,
{
    let x = decimal_repr(a as nat);
    let y = decimal_repr(b as nat);
    lemma_decimal_repr_round_trip(a as nat);
    lemma_decimal_repr_round_trip(b as nat);
    assert(label.len() == 3 + x.len() + 1);
    assert(x.len() == y.len());
    assert(x =~= label.subrange(3, 3 + x.len() as int));
    assert(y =~= label.subrange(3, 3 + y.len() as int));
}

/// Writes the token that mentions `user`.
pub fn mention_of(user: u64) -> (token: Vec<char>)
    ensures
        token@ == mention_token(user),
{
    let mut token: Vec<char> = Vec::new();
    token.push('<');
    token.push('@');
    token.push('!');
    assert(token@ =~= seq!['<', '@', '!']);
    push_decimal(&mut token, user);
    token.push('>');
    assert(token@ =~= mention_token(user));
    token
}

/// Whether `label` stands for `user`.
pub fn label_denotes(label: &str, user: u64) -> (r: bool)
    ensures
        r == denotes(label@, user),
{
    let token: Vec<char> = mention_of(user);
    let text: Vec<char> = chars_of(label);
    same_chars(text.as_slice(), token.as_slice())
}

} // verus!
