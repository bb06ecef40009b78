//! `about`: shows the command prefix and the bot's links.
use vstd::prelude::*;
use crate::error::Error;
use crate::text::owned;
use super::{Command, CommandResult, Context, Response, is_reply, strs};

verus! {

pub struct AboutCommand;

pub open spec fn about_text(prefix: Seq<char>) -> Seq<char> {
    "**dabBot**\nCommand prefix: `"@ + prefix
        + "`\nInvite me to your server: <https://dabbot.org/invite>\nSupport server: <https://dabbot.org/support>\nGithub: <https://github.com/dabbotorg>"@
}

impl AboutCommand {
    /// The about text, with the bot's first command prefix.
    pub fn run(ctx: &Context) -> (r: CommandResult)
        ensures
            match ctx.prefix {
                Some(p) => is_reply(r, about_text(p@)),
                None => r == Err::<super::Response, Error>(Error::Missing),
            },
    {
        match ctx.prefix() {
            None => Err(Error::Missing),
            Some(prefix) => {
                let mut s = owned("**dabBot**\nCommand prefix: `");
                s.append(prefix);
                s.append(
                    "`\nInvite me to your server: <https://dabbot.org/invite>\nSupport server: <https://dabbot.org/support>\nGithub: <https://github.com/dabbotorg>",
                );
                Response::_text(s)
            },
        }
    }
}

impl Command for AboutCommand {
    fn names(&self) -> (r: &'static [&'static str])
        ensures
            strs(r@) == seq!["about"@, "info"@],
    {
        let r: &'static [&'static str] = &["about", "info"];
        assert(r@ =~= seq!["about", "info"]);
        r
    }

    fn description(&self) -> (r: &'static str)
        ensures
            r@ == "Displays information about the bot."@,
    {
        "Displays information about the bot."
    }
}

} // verus!
