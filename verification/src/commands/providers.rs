//! `providers`: lists the audio providers.
use vstd::prelude::*;
use super::{CommandResult, Response, is_reply, strs};

verus! {

pub fn run() -> (r: CommandResult)
    ensures
        is_reply(r, "Available music providers: youtube, soundcloud, bandcamp, vimeo, twitch, beam.pro, http"@),
{
    Response::text("Available music providers: youtube, soundcloud, bandcamp, vimeo, twitch, beam.pro, http")
}

pub fn description() -> (r: &'static str)
    ensures
        r@ == "Shows information about audio providers."@,
{
    "Shows information about audio providers."
}

pub fn names() -> (r: &'static [&'static str])
    ensures
        strs(r@) == seq!["providers"@],
{
    let r: &'static [&'static str] = &["providers"];
    assert(r@ =~= seq!["providers"]);
    r
}

} // verus!
