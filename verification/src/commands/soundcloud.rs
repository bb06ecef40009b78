//! `soundcloud`: searches SoundCloud for a song.
use vstd::prelude::*;
use super::play::{PlayPlan, Provider, base, play_plan};
use super::{Command, Context, strs};

verus! {

pub struct SoundCloudCommand;

impl SoundCloudCommand {
    /// The search to run: the query on SoundCloud, unless it is a link.
    pub fn plan(ctx: &Context) -> (r: PlayPlan)
        ensures
            play_plan(*ctx, Provider::SoundCloud, r),
    {
        base(ctx, Provider::SoundCloud)
    }
}

impl Command for SoundCloudCommand {
    fn names(&self) -> (r: &'static [&'static str])
        ensures
            strs(r@) == seq!["soundcloud"@, "sc"@],
    {
        let r: &'static [&'static str] = &["soundcloud", "sc"];
        assert(r@ =~= seq!["soundcloud", "sc"]);
        r
    }

    fn description(&self) -> (r: &'static str)
        ensures
            r@ == "Searches SoundCloud for a song."@,
    {
        "Searches SoundCloud for a song."
    }
}

} // verus!
