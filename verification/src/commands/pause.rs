//! `pause`: pauses the current song.
use vstd::prelude::*;
use crate::error::Error;
use super::{Command, CommandResult, Response, is_reply, strs, warning};

verus! {

pub struct PauseCommand;

impl PauseCommand {
    /// The reply once the player was asked to pause.
    pub fn finish(outcome: core::result::Result<(), Error>) -> (r: CommandResult)
        ensures
            outcome is Ok ==> is_reply(r, "The music was paused. Use the `resume` command to play the music again."@),
            outcome is Err ==> is_reply(r, warning("There was an error pausing the music."@)),
    {
        match outcome {
            Ok(_) => Response::text("The music was paused. Use the `resume` command to play the music again."),
            Err(_) => Response::err("There was an error pausing the music."),
        }
    }
}

impl Command for PauseCommand {
    fn names(&self) -> (r: &'static [&'static str])
        ensures
            strs(r@) == seq!["hold"@, "pause"@],
    {
        let r: &'static [&'static str] = &["hold", "pause"];
        assert(r@ =~= seq!["hold", "pause"]);
        r
    }

    fn description(&self) -> (r: &'static str)
        ensures
            r@ == "Pauses the current song."@,
    {
        "Pauses the current song."
    }
}

} // verus!
