//! `youtube`: searches YouTube for a song.
use vstd::prelude::*;
use super::play::{PlayPlan, Provider, base, play_plan};
use super::{Command, Context, strs};

verus! {

pub struct YouTubeCommand;

impl YouTubeCommand {
    /// The search to run: the query on YouTube, unless it is a link.
    pub fn plan(ctx: &Context) -> (r: PlayPlan)
        ensures
            play_plan(*ctx, Provider::YouTube, r),
    {
        base(ctx, Provider::YouTube)
    }
}

impl Command for YouTubeCommand {
    fn names(&self) -> (r: &'static [&'static str])
        ensures
            strs(r@) == seq!["youtube"@, "yt"@],
    {
        let r: &'static [&'static str] = &["youtube", "yt"];
        assert(r@ =~= seq!["youtube", "yt"]);
        r
    }

    fn description(&self) -> (r: &'static str)
        ensures
            r@ == "Searches YouTube for a song."@,
    {
        "Searches YouTube for a song."
    }
}

} // verus!
