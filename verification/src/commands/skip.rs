//! `skip`: skips the current song.
use vstd::prelude::*;
use crate::error::Error;
use super::{Command, CommandResult, Response, is_reply, strs, warning};

verus! {

pub struct SkipCommand;

impl SkipCommand {
    /// The reply once the player was asked to skip.
    pub fn finish(outcome: core::result::Result<(), Error>) -> (r: CommandResult)
        ensures
            outcome is Ok ==> is_reply(r, "Skipped"@),
            outcome is Err ==> is_reply(r, warning("There was an error skipping the song."@)),
    {
        match outcome {
            Ok(_) => Response::text("Skipped"),
            Err(_) => Response::err("There was an error skipping the song."),
        }
    }
}

impl Command for SkipCommand {
    fn names(&self) -> (r: &'static [&'static str])
        ensures
            strs(r@) == seq!["skip"@, "s"@, "next"@],
    {
        let r: &'static [&'static str] = &["skip", "s", "next"];
        assert(r@ =~= seq!["skip", "s", "next"]);
        r
    }

    fn description(&self) -> (r: &'static str)
        ensures
            r@ == "Skips the current song."@,
    {
        "Skips the current song."
    }
}

} // verus!
