//! Reaction-driven polls for a chat platform: duration tokens, the vote
//! ledger, the ranked tally and the poll engine that ties them together.
//!
//! The library is verified with Verus. Its one call into another crate, in
//! `channel`, is trusted and says so. The surrounding program performs the
//! network traffic and hands plain values in and out.

pub mod text;
pub mod decimal;
pub mod duration;
pub mod ledger;
pub mod tally;
pub mod mention;
pub mod channel;
pub mod poll;
pub mod engine;
pub mod draft;
pub mod emoji;
pub mod words;
pub mod command;
