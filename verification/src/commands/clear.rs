//! `clear`: clears the guild's song queue.
use vstd::prelude::*;
use crate::error::Error;
use super::{Command, CommandResult, Response, is_reply, strs, warning};

verus! {

pub struct ClearCommand;

impl ClearCommand {
    /// The reply once the queue service was asked to delete the queue: a
    /// queue that was not found counts as cleared.
    pub fn finish(outcome: core::result::Result<(), Error>) -> (r: CommandResult)
        ensures
            (outcome is Ok || outcome matches Err(Error::LavalinkQueueRequester(crate::error::QueueError::NotFound(_))))
                ==> is_reply(r, "Cleared the song queue!"@),
            !(outcome is Ok || outcome matches Err(Error::LavalinkQueueRequester(crate::error::QueueError::NotFound(_))))
                ==> is_reply(r, warning("There was an error clearing the queue."@)),
    {
        match outcome {
            Ok(()) => Response::text("Cleared the song queue!"),
            Err(why) => {
                if why.is_queue_not_found() {
                    Response::text("Cleared the song queue!")
                } else {
                    Response::err("There was an error clearing the queue.")
                }
            },
        }
    }
}

impl Command for ClearCommand {
    fn names(&self) -> (r: &'static [&'static str])
        ensures
            strs(r@) == seq!["clear"@],
    {
        let r: &'static [&'static str] = &["clear"];
        assert(r@ =~= seq!["clear"]);
        r
    }

    fn description(&self) -> (r: &'static str)
        ensures
            r@ == "Clears the song queue."@,
    {
        "Clears the song queue."
    }
}

} // verus!
