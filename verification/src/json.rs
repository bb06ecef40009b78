//! The JSON documents the bot reads and writes through `serde_json`: queue
//! dumps, which are lists of track blobs.
use vstd::prelude::*;
use crate::error;
use crate::text::views;

verus! {

/// The bytes `serde_json::to_vec_pretty` writes for a list of strings.
pub uninterp spec fn pretty_json_strings(items: Seq<Seq<char>>) -> Seq<u8>;

/// The list of strings that `serde_json::from_slice::<Vec<String>>` reads
/// from `bytes`, or `None` where it fails.
pub uninterp spec fn json_string_list(bytes: Seq<u8>) -> Option<Seq<Seq<char>>>;

/// Calls `serde_json::to_vec_pretty` on a list of strings; an error is given
/// as its `Display` text. Trusted: it succeeds (serde_json fails only for a
/// `Serialize` impl that fails or a map with non-string keys), writes
/// `pretty_json_strings` of the strings, and what it writes reads back with
/// `serde_json::from_slice` as the same strings (each string is written as a
/// JSON string literal with its quotes, backslashes and control characters
/// escaped, which the reader unescapes).
#[verifier::external_body]
fn to_vec_pretty_strings(items: &Vec<String>) -> (r: core::result::Result<Vec<u8>, String>)
    ensures
        r is Ok,
        r matches Ok(b) ==> b@ == pretty_json_strings(views(items@)),
        r matches Ok(b) ==> json_string_list(b@) == Some(views(items@)),
{
    match serde_json::to_vec_pretty(items) {
        Ok(b) => Ok(b),
        Err(e) => Err(e.to_string()),
    }
}

/// Calls `serde_json::from_slice::<Vec<String>>`; an error is given as its
/// `Display` text. Trusted: it succeeds exactly where `json_string_list` is
/// some list, and reads that list; nothing is stated of the error's text.
#[verifier::external_body]
fn from_slice_strings(bytes: &[u8]) -> (r: core::result::Result<Vec<String>, String>)
    ensures
        r is Ok <==> json_string_list(bytes@) is Some,
        r matches Ok(v) ==> views(v@) == json_string_list(bytes@)->0,
{
    match serde_json::from_slice::<Vec<String>>(bytes) {
        Ok(v) => Ok(v),
        Err(e) => Err(e.to_string()),
    }
}

/// The pretty-printed JSON list of the given track blobs, which reads back
/// as the same blobs.
pub fn tracks_to_json(tracks: &Vec<String>) -> (r: core::result::Result<Vec<u8>, error::Error>)
    ensures
        r matches Ok(b) && b@ == pretty_json_strings(views(tracks@)),
        r matches Ok(b) && json_string_list(b@) == Some(views(tracks@)),
{
    match to_vec_pretty_strings(tracks) {
        Ok(b) => Ok(b),
        Err(e) => Err(error::Error::SerdeJson(e)),
    }
}

/// Reads a JSON list of track blobs.
pub fn tracks_from_json(bytes: &[u8]) -> (r: core::result::Result<Vec<String>, error::Error>)
    ensures
        r is Ok <==> json_string_list(bytes@) is Some,
        r matches Ok(v) ==> views(v@) == json_string_list(bytes@)->0,
        r matches Err(e) ==> e is SerdeJson,
{
    match from_slice_strings(bytes) {
        Ok(v) => Ok(v),
        Err(e) => Err(error::Error::SerdeJson(e)),
    }
}

} // verus!
