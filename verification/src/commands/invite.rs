//! `invite`: links to the bot's invite page.
use vstd::prelude::*;
use super::{Command, CommandResult, Response, is_reply, strs};

verus! {

pub struct InviteCommand;

impl InviteCommand {
    /// The reply.
    pub fn run() -> (r: CommandResult)
        ensures
            is_reply(r, "Invite dabBot: <https://dabbot.org/invite>"@),
    {
        Response::text("Invite dabBot: <https://dabbot.org/invite>")
    }
}

impl Command for InviteCommand {
    fn names(&self) -> (r: &'static [&'static str])
        ensures
            strs(r@) == seq!["invite"@, "inv"@],
    {
        let r: &'static [&'static str] = &["invite", "inv"];
        assert(r@ =~= seq!["invite", "inv"]);
        r
    }

    fn description(&self) -> (r: &'static str)
        ensures
            r@ == "Displays a link to invite the bot."@,
    {
        "Displays a link to invite the bot."
    }
}

} // verus!
