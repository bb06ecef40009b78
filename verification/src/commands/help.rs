//! `help`: links to the list of commands.
use vstd::prelude::*;
use super::{Command, CommandResult, Response, is_reply, strs};

verus! {

pub struct HelpCommand;

impl HelpCommand {
    /// The reply.
    pub fn run() -> (r: CommandResult)
        ensures
            is_reply(r, "A list of our commands is available here: <https://dabbot.org/commands>"@),
    {
        Response::text("A list of our commands is available here: <https://dabbot.org/commands>")
    }
}

impl Command for HelpCommand {
    fn names(&self) -> (r: &'static [&'static str])
        ensures
            strs(r@) == seq!["help"@, "h"@],
    {
        let r: &'static [&'static str] = &["help", "h"];
        assert(r@ =~= seq!["help", "h"]);
        r
    }

    fn description(&self) -> (r: &'static str)
        ensures
            r@ == "Links to our list of commands."@,
    {
        "Links to our list of commands."
    }
}

} // verus!
