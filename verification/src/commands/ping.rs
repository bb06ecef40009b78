//! `ping`: answers "Pong!".
use vstd::prelude::*;
use super::{Command, CommandResult, Response, is_reply, strs};

verus! {

pub struct PingCommand;

impl PingCommand {
    /// The reply.
    pub fn run() -> (r: CommandResult)
        ensures
            is_reply(r, "Pong!"@),
    {
        Response::text("Pong!")
    }
}

impl Command for PingCommand {
    fn names(&self) -> (r: &'static [&'static str])
        ensures
            strs(r@) == seq!["ping"@],
    {
        let r: &'static [&'static str] = &["ping"];
        assert(r@ =~= seq!["ping"]);
        r
    }

    fn description(&self) -> (r: &'static str)
        ensures
            r@ == "Ping pong!"@,
    {
        "Ping pong!"
    }
}

} // verus!
