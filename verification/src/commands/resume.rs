//! `resume`: resumes the current song.
use vstd::prelude::*;
use crate::error::Error;
use super::{Command, CommandResult, Response, is_reply, strs, warning};

verus! {

pub struct ResumeCommand;

impl ResumeCommand {
    /// The reply once the player was asked to resume.
    pub fn finish(outcome: core::result::Result<(), Error>) -> (r: CommandResult)
        ensures
            outcome is Ok ==> is_reply(r, "Resumed music playback!"@),
            outcome is Err ==> is_reply(r, warning("There was an error resuming the music."@)),
    {
        match outcome {
            Ok(_) => Response::text("Resumed music playback!"),
            Err(_) => Response::err("There was an error resuming the music."),
        }
    }
}

impl Command for ResumeCommand {
    fn names(&self) -> (r: &'static [&'static str])
        ensures
            strs(r@) == seq!["unpause"@, "resume"@],
    {
        let r: &'static [&'static str] = &["unpause", "resume"];
        assert(r@ =~= seq!["unpause", "resume"]);
        r
    }

    fn description(&self) -> (r: &'static str)
        ensures
            r@ == "Resumes the current song."@,
    {
        "Resumes the current song."
    }
}

} // verus!
