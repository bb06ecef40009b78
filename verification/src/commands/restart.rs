//! `restart`: seeks the current song back to its start.
use vstd::prelude::*;
use crate::error::Error;
use super::{Command, CommandResult, Response, is_reply, strs, warning};

verus! {

pub struct RestartCommand;

impl RestartCommand {
    /// The reply once the player was asked to seek to position 0.
    pub fn finish(outcome: core::result::Result<(), Error>) -> (r: CommandResult)
        ensures
            outcome is Ok ==> is_reply(r, "Restarted the song!"@),
            outcome is Err ==> is_reply(r, warning("There was an error restarting the song."@)),
    {
        match outcome {
            Ok(_) => Response::text("Restarted the song!"),
            Err(_) => Response::err("There was an error restarting the song."),
        }
    }
}

impl Command for RestartCommand {
    fn names(&self) -> (r: &'static [&'static str])
        ensures
            strs(r@) == seq!["restart"@, "rs"@],
    {
        let r: &'static [&'static str] = &["restart", "rs"];
        assert(r@ =~= seq!["restart", "rs"]);
        r
    }

    fn description(&self) -> (r: &'static str)
        ensures
            r@ == "Restarts the current song."@,
    {
        "Restarts the current song."
    }
}

} // verus!
