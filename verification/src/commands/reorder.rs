//! `reorder`: not implemented yet.
use vstd::prelude::*;
use super::{Command, CommandResult, Response, is_reply, strs, warning};

verus! {

pub struct RepeatCommand;

impl RepeatCommand {
    /// The reply.
    pub fn run() -> (r: CommandResult)
        ensures
            is_reply(r, warning("This command has not been implemented yet and is being worked on!"@)),
    {
        Response::err("This command has not been implemented yet and is being worked on!")
    }
}

impl Command for RepeatCommand {
    fn names(&self) -> (r: &'static [&'static str])
        ensures
            strs(r@) == seq!["reorder"@],
    {
        let r: &'static [&'static str] = &["reorder"];
        assert(r@ =~= seq!["reorder"]);
        r
    }

    fn description(&self) -> (r: &'static str)
        ensures
            r@ == "Reorders the position of a song in the queue."@,
    {
        "Reorders the position of a song in the queue."
    }
}

} // verus!
