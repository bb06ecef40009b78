//! Human-readable durations, as the `humantime` crate writes them.
use vstd::prelude::*;

verus! {

/// The text that `humantime::format_duration` gives for a duration of `secs`
/// seconds and `nanos` nanoseconds, e.g. "1h 1m 14s".
pub uninterp spec fn humantime_text(secs: u64, nanos: u32) -> Seq<char>;

/// Formats a duration with `humantime::format_duration` (its `Display`).
/// Trusted: the text is taken to be `humantime_text` of the same seconds and
/// nanoseconds; nothing more is stated of it.
#[verifier::external_body]
fn format_duration(secs: u64, nanos: u32) -> (r: String)
    requires
        nanos < 1_000_000_000,
    ensures
        r@ == humantime_text(secs, nanos),
{
    humantime::format_duration(std::time::Duration::new(secs, nanos)).to_string()
}

/// Converts track time (in milliseconds) to a human-readable time, whole seconds only.
pub fn track_length_readable(ms: u64) -> (r: String)
    ensures
        r@ == humantime_text(ms / 1000, 0),
{
    format_duration(ms / 1000, 0)
}

/// The human-readable form of a duration given in milliseconds, as
/// `Duration::from_millis` holds it.
pub fn millis_readable(ms: u64) -> (r: String)
    ensures
        r@ == humantime_text(ms / 1000, ((ms % 1000) * 1_000_000) as u32),
{
    format_duration(ms / 1000, ((ms % 1000) * 1_000_000) as u32)
}

} // verus!
