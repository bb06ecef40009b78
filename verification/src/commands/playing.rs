//! `playing`: shows the current song.
use crate::lavalink::{PlayerState, player_text};
use vstd::prelude::*;
use crate::error::Error;
use super::{Command, CommandResult, Response, is_reply, strs, warning};

verus! {

pub struct PlayingCommand;

impl PlayingCommand {
    /// The reply once the player's state was fetched.
    pub fn finish(state: core::result::Result<PlayerState, Error>) -> (r: CommandResult)
        ensures
            state matches Ok(st) ==> is_reply(r, player_text(st.paused, st.position, st.track)),
            state is Err ==> is_reply(r, warning("There was an error getting the current song."@)),
    {
        match state {
            Ok(st) => Response::_text(st.to_string()),
            Err(_) => Response::err("There was an error getting the current song."),
        }
    }
}

impl Command for PlayingCommand {
    fn names(&self) -> (r: &'static [&'static str])
        ensures
            strs(r@) == seq!["current"@, "currently"@, "nowplaying"@, "np"@, "playing"@],
    {
        let r: &'static [&'static str] = &["current", "currently", "nowplaying", "np", "playing"];
        assert(r@ =~= seq!["current", "currently", "nowplaying", "np", "playing"]);
        r
    }

    fn description(&self) -> (r: &'static str)
        ensures
            r@ == "Gets the currently playing song."@,
    {
        "Gets the currently playing song."
    }
}

} // verus!
