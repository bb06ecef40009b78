//! The messages about songs the audio service started playing.
use vstd::prelude::*;
use crate::commands::choose_command::now_playing_text;
use crate::error::Error;
use crate::text::{owned, parse_unsigned};
use crate::utils::track_length_readable;

verus! {

/// Parses a decimal `u64` with `str::parse`; an error is given as its
/// `Display` text. Trusted: as std documents, it succeeds exactly for an
/// optional '+' followed by digits whose value fits, and gives that value;
/// nothing is stated of the error's text.
#[verifier::external_body]
fn parse_u64(s: &str) -> (r: core::result::Result<u64, String>)
    ensures
        r is Ok <==> parse_unsigned(s@, u64::MAX as nat) is Some,
        r matches Ok(n) ==> parse_unsigned(s@, u64::MAX as nat) == Some(n as nat),
{
    match s.parse::<u64>() {
        Ok(n) => Ok(n),
        Err(e) => Err(e.to_string()),
    }
}

/// The text channel stored for a guild's player.
pub fn channel_id(stored: &str) -> (r: core::result::Result<u64, Error>)
    ensures
        r is Ok <==> parse_unsigned(stored@, u64::MAX as nat) is Some,
        r matches Ok(n) ==> parse_unsigned(stored@, u64::MAX as nat) == Some(n as nat),
        r matches Err(e) ==> e is ParseInt,
{
    match parse_u64(stored) {
        Ok(n) => Ok(n),
        Err(e) => Err(Error::ParseInt(e)),
    }
}

/// The message announcing a song that started playing.
pub fn now_playing_message(title: &str, author: &str, length_ms: u64) -> (r: String)
    ensures
        r@ == now_playing_text(title@, author@, length_ms),
{
    let mut s = owned("Now playing **");
    s.append(title);
    s.append("** by **");
    s.append(author);
    s.append("** `[");
    let len = track_length_readable(length_ms);
    s.append(len.as_str());
    s.append("]`");
    s
}

} // verus!
