//! `volume`: the premium volume control.
use vstd::prelude::*;
use crate::error::Error;
use crate::lavalink::PlayerState;
use crate::text::{
    chars_of, owned, parse_unsigned, parse_unsigned_chars, push_signed_decimal, signed_decimal,
};
use super::{Command, CommandResult, Context, Response, is_reply, strs, warning};

verus! {

pub struct VolumeCommand;

pub open spec fn premium_text() -> Seq<char> {
    "**The volume command is dabBot premium only!**\n\nDonate for the `Volume Control` tier on Patreon at https://patreon.com/dabbot to gain access."@
}

/// What the premium volume command does next.
pub enum VolumePlan {
    Reply(CommandResult),
    /// Show the volume of this guild's player.
    Show(u64),
    /// Set the volume of this guild's player.
    SetVolume { guild_id: u64, volume: u64 },
}

/// What the premium volume command plans for `ctx`: no argument shows the
/// volume, one sets it (0 to 150), more are refused with `too_many`.
pub open spec fn volume_plan(ctx: Context, too_many: Seq<char>, r: VolumePlan) -> bool {
    if ctx.args.len() == 0 {
        match ctx.guild_id {
            Some(g) => r == VolumePlan::Show(g),
            None => r matches VolumePlan::Reply(Err(Error::Missing)),
        }
    } else if ctx.args.len() == 1 {
        match parse_unsigned(ctx.args[0]@, 18446744073709551615) {
            Some(v) => if v <= 150 {
                match ctx.guild_id {
                    Some(g) => r == VolumePlan::SetVolume { guild_id: g, volume: v as u64 },
                    None => r matches VolumePlan::Reply(Err(Error::Missing)),
                }
            } else {
                r matches VolumePlan::Reply(res) && is_reply(res, "The volume must be between 0 and 150"@)
            },
            None => r matches VolumePlan::Reply(res) && is_reply(res, "The volume must be between 0 and 150"@),
        }
    } else {
        r matches VolumePlan::Reply(res) && is_reply(res, warning(too_many))
    }
}

/// The premium edition's plan, refusing more than one argument with `too_many`.
fn plan_with(ctx: &Context, too_many: &str) -> (r: VolumePlan)
    ensures
        volume_plan(*ctx, too_many@, r),
{
    if ctx.args.len() == 0 {
        match ctx.guild_id() {
            Some(g) => VolumePlan::Show(g),
            None => VolumePlan::Reply(Err(Error::Missing)),
        }
    } else if ctx.args.len() == 1 {
        let chars = chars_of(ctx.args[0].as_str());
        let volume = match parse_unsigned_chars(&chars, 18446744073709551615) {
            Some(v) => if v <= 150 {
                v
            } else {
                return VolumePlan::Reply(Response::text("The volume must be between 0 and 150"));
            },
            None => {
                return VolumePlan::Reply(Response::text("The volume must be between 0 and 150"));
            },
        };
        match ctx.guild_id() {
            Some(g) => VolumePlan::SetVolume { guild_id: g, volume },
            None => VolumePlan::Reply(Err(Error::Missing)),
        }
    } else {
        VolumePlan::Reply(Response::err(too_many))
    }
}

/// The premium edition as the message handler runs it: no argument shows the
/// volume, one sets it (0 to 150), more are refused.
pub fn run(ctx: &Context) -> (r: VolumePlan)
    ensures
        volume_plan(*ctx, "You passed too many arguments!"@, r),
{
    plan_with(ctx, "You passed too many arguments!")
}

impl VolumeCommand {
    /// The reply of the volume command in the standard edition.
    pub fn run() -> (r: CommandResult)
        ensures
            is_reply(r, premium_text()),
    {
        Response::text(
            "**The volume command is dabBot premium only!**\n\nDonate for the `Volume Control` tier on Patreon at https://patreon.com/dabbot to gain access.",
        )
    }

    /// The premium edition of the command's own `run`: no argument shows
    /// the volume, one sets it (0 to 150), more are refused.
    pub fn patron_plan(ctx: &Context) -> (r: VolumePlan)
        ensures
            volume_plan(*ctx, "You supplied too many arguments!"@, r),
    {
        plan_with(ctx, "You supplied too many arguments!")
    }

    /// The reply once the player's state was fetched for showing its volume.
    pub fn show(player: core::result::Result<PlayerState, Error>) -> (r: CommandResult)
        ensures
            player matches Ok(p) ==> is_reply(r, "The volume is currently "@ + signed_decimal(p.volume as int)),
            player is Err ==> is_reply(r, warning("There was an error getting the volume"@)),
    {
        match player {
            Ok(p) => {
                let mut s = owned("The volume is currently ");
                push_signed_decimal(&mut s, p.volume as i64);
                Response::_text(s)
            },
            Err(_) => Response::err("There was an error getting the volume"),
        }
    }

    /// The reply once the player was asked to change its volume.
    pub fn set_finish(outcome: core::result::Result<(), Error>) -> (r: CommandResult)
        ensures
            outcome is Ok ==> is_reply(r, "Updated the volume."@),
            outcome is Err ==> is_reply(r, warning("There was an error updating the volume."@)),
    {
        match outcome {
            Ok(()) => Response::text("Updated the volume."),
            Err(_) => Response::err("There was an error updating the volume."),
        }
    }
}

impl Command for VolumeCommand {
    fn names(&self) -> (r: &'static [&'static str])
        ensures
            strs(r@) == seq!["volume"@, "vol"@, "v"@],
    {
        let r: &'static [&'static str] = &["volume", "vol", "v"];
        assert(r@ =~= seq!["volume", "vol", "v"]);
        r
    }

    fn description(&self) -> (r: &'static str)
        ensures
            r@ == "Changes the track volume."@,
    {
        "Changes the track volume."
    }
}

} // verus!
