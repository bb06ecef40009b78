//! `leave`: stops the music and leaves the voice channel.
use vstd::prelude::*;
use crate::error::Error;
use crate::gateway::{voice_state_payload, voice_state_text};
use crate::text::utf8_bytes;
use super::{Command, CommandResult, Context, Response, is_reply, strs, warning};

verus! {

pub struct LeaveCommand;

impl LeaveCommand {
    /// The shard, the guild, and the voice state update that leaves the
    /// guild's voice channel (channel null).
    pub fn start(ctx: &Context) -> (r: core::result::Result<(u64, u64, Vec<u8>), Error>)
        ensures
            ctx.guild_id is None ==> r == Err::<(u64, u64, Vec<u8>), Error>(Error::Missing),
            ctx.guild_id matches Some(g) ==> (r matches Ok((s, h, p)) && s == ctx.shard_id && h == g
                && p@ == utf8_bytes(voice_state_text(g, None))),
    {
        match ctx.guild_id() {
            Some(g) => Ok((ctx.shard_id, g, voice_state_payload(g, None))),
            None => Err(Error::Missing),
        }
    }

    /// The reply once leaving (sharder message, join and choices deleted,
    /// player stopped) succeeded or failed.
    pub fn finish(outcome: core::result::Result<(), Error>) -> (r: CommandResult)
        ensures
            outcome is Ok ==> is_reply(r, "Stopped playing music & left the voice channel."@),
            outcome is Err ==> is_reply(r, warning("There was an error leaving the voice channel."@)),
    {
        match outcome {
            Ok(()) => Response::text("Stopped playing music & left the voice channel."),
            Err(_) => Response::err("There was an error leaving the voice channel."),
        }
    }
}

impl Command for LeaveCommand {
    fn names(&self) -> (r: &'static [&'static str])
        ensures
            strs(r@) == seq!["disconnect"@, "l"@, "leave"@, "stop"@],
    {
        let r: &'static [&'static str] = &["disconnect", "l", "leave", "stop"];
        assert(r@ =~= seq!["disconnect", "l", "leave", "stop"]);
        r
    }

    fn description(&self) -> (r: &'static str)
        ensures
            r@ == "Leaves the voice channel."@,
    {
        "Leaves the voice channel."
    }
}

} // verus!
