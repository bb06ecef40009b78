//! `cancel`: cancels the guild's song selection.
use vstd::prelude::*;
use crate::error::Error;
use super::{Command, CommandResult, Context, Response, is_reply, strs};

verus! {

pub struct CancelCommand;

impl CancelCommand {
    /// The guild whose selection is to be deleted.
    pub fn run(ctx: &Context) -> (r: core::result::Result<u64, Error>)
        ensures
            match ctx.guild_id {
                Some(g) => r == Ok::<u64, Error>(g),
                None => r == Err::<u64, Error>(Error::Missing),
            },
    {
        match ctx.guild_id() {
            Some(g) => Ok(g),
            None => Err(Error::Missing),
        }
    }

    /// The reply once the selection deletion was started.
    pub fn cancel() -> (r: CommandResult)
        ensures
            is_reply(r, "Selection cancelled!"@),
    {
        Response::text("Selection cancelled!")
    }
}

impl Command for CancelCommand {
    fn names(&self) -> (r: &'static [&'static str])
        ensures
            strs(r@) == seq!["cancel"@],
    {
        let r: &'static [&'static str] = &["cancel"];
        assert(r@ =~= seq!["cancel"]);
        r
    }

    fn description(&self) -> (r: &'static str)
        ensures
            r@ == "Cancels the current song selection."@,
    {
        "Cancels the current song selection."
    }
}

} // verus!
