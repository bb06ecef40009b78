//! `loop`: not implemented yet.
use vstd::prelude::*;
use super::{Command, CommandResult, Response, is_reply, strs, warning};

verus! {

pub struct RepeatCommand;

impl RepeatCommand {
    /// The reply.
    pub fn run() -> (r: CommandResult)
        ensures
            is_reply(r, warning("This command has not been implemented yet!"@)),
    {
        Response::err("This command has not been implemented yet!")
    }
}

impl Command for RepeatCommand {
    fn names(&self) -> (r: &'static [&'static str])
        ensures
            strs(r@) == seq!["loop"@, "repeat"@],
    {
        let r: &'static [&'static str] = &["loop", "repeat"];
        assert(r@ =~= seq!["loop", "repeat"]);
        r
    }

    fn description(&self) -> (r: &'static str)
        ensures
            r@ == "Loops a queue or a single song, depending on the setting."@,
    {
        "Loops a queue or a single song, depending on the setting."
    }
}

} // verus!
