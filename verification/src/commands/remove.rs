//! `remove`: not implemented yet.
use vstd::prelude::*;
use super::{Command, CommandResult, Response, is_reply, strs, warning};

verus! {

pub struct RemoveCommand;

impl RemoveCommand {
    /// The reply.
    pub fn run() -> (r: CommandResult)
        ensures
            is_reply(r, warning("This command has not been implemented yet!"@)),
    {
        Response::err("This command has not been implemented yet!")
    }
}

impl Command for RemoveCommand {
    fn names(&self) -> (r: &'static [&'static str])
        ensures
            strs(r@) == seq!["remove"@, "rm"@],
    {
        let r: &'static [&'static str] = &["remove", "rm"];
        assert(r@ =~= seq!["remove", "rm"]);
        r
    }

    fn description(&self) -> (r: &'static str)
        ensures
            r@ == "Removes a song from the queue."@,
    {
        "Removes a song from the queue."
    }
}

} // verus!
