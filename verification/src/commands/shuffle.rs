//! `shuffle`: shuffles the guild's song queue when it holds two songs or more.
use vstd::prelude::*;
use crate::error::Error;
use super::{Command, CommandResult, Response, is_reply, strs, warning};

verus! {

pub struct ShuffleCommand;

impl ShuffleCommand {
    /// Whether to shuffle, once the first two songs of the queue were fetched:
    /// `None` to go on, or the reply to give instead.
    pub fn check(queue_len: core::result::Result<usize, Error>) -> (r: Option<CommandResult>)
        ensures
            match queue_len {
                Err(_) => r matches Some(res) && is_reply(res, warning("There was an error getting your queue."@)),
                Ok(n) => if n < 2 {
                    r matches Some(res) && is_reply(res, warning("To shuffle, you need at least 2 songs in the queue!"@))
                } else {
                    r is None
                },
            },
    {
        match queue_len {
            Ok(n) => {
                if n < 2 {
                    Some(Response::err("To shuffle, you need at least 2 songs in the queue!"))
                } else {
                    None
                }
            },
            Err(_) => Some(Response::err("There was an error getting your queue.")),
        }
    }

    /// The reply once the queue service was asked to shuffle.
    pub fn finish(outcome: core::result::Result<(), Error>) -> (r: CommandResult)
        ensures
            outcome is Ok ==> is_reply(r, "Shuffled the song queue."@),
            outcome is Err ==> is_reply(r, warning("There was an error shuffling the song."@)),
    {
        match outcome {
            Ok(()) => Response::text("Shuffled the song queue."),
            Err(_) => Response::err("There was an error shuffling the song."),
        }
    }
}

impl Command for ShuffleCommand {
    fn names(&self) -> (r: &'static [&'static str])
        ensures
            strs(r@) == seq!["shuffle"@, "shufle"@],
    {
        let r: &'static [&'static str] = &["shuffle", "shufle"];
        assert(r@ =~= seq!["shuffle", "shufle"]);
        r
    }

    fn description(&self) -> (r: &'static str)
        ensures
            r@ == "Shuffles the current song queue."@,
    {
        "Shuffles the current song queue."
    }
}

} // verus!
