//! Channel identifiers as they are typed in a command.

use twilight_model::id::ChannelId;
use vstd::prelude::*;
use crate::decimal::{all_digits, digits_value, parse_digits};
use crate::text::chars_of;

verus! {

/// The channel that a token names: decimal digits that denote a number above
/// zero and within 64 bits. Every other token names no channel.
pub open spec fn channel_of(token: Seq<char>) -> Option<u64> {
    if all_digits(token) && 0 < digits_value(token) <= u64::MAX {
        Some(digits_value(token) as u64)
    } else {
        None
    }
}

/// Calls `twilight_model::id::ChannelId::new` and reads the number back
/// with `ChannelId::get`. The contract claims what the crate documents: an
/// identifier exists for every number but zero, and holds that number.
#[verifier::external_body]
fn channel_id(raw: u64) -> (id: Option<u64>)
    ensures
        id == (if raw == 0 {
            None::<u64>
        } else {
            Some(raw)
        }),
{
    ChannelId::new(raw).map(ChannelId::get)
}

/// Reads a channel identifier.
pub fn parse_channel(token: &str) -> (channel: Option<u64>)
    ensures
        channel == channel_of(token@),
{
    let v: Vec<char> = chars_of(token);
    match parse_digits(v.as_slice()) {
        Some(raw) => channel_id(raw),
        None => None,
    }
}

} // verus!
