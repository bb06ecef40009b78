//! The state of a guild's audio player, and how it is shown.
use vstd::prelude::*;
use crate::error::Error;
use crate::model::DecodedTrack;
use crate::text::owned;
use crate::utils::{humantime_text, millis_readable};

verus! {

/// The player state the audio service answers with, before decoding.
pub struct PlayerStateResponse {
    pub track: Option<String>,
    pub paused: bool,
    pub position: i64,
}

/// A guild's audio player, with its current track decoded.
pub struct PlayerState {
    pub guild_id: u64,
    pub paused: bool,
    /// Position in the current track, in milliseconds.
    pub position: i64,
    pub time: i64,
    pub track: Option<DecodedTrack>,
    pub volume: i32,
}

/// The human-readable form of a duration in milliseconds.
pub open spec fn millis_text(ms: u64) -> Seq<char> {
    humantime_text(ms / 1000, ((ms % 1000) * 1_000_000) as u32)
}

/// How a player state is shown: paused marker, title, author, position and
/// length, and the track's URL.
pub open spec fn player_text(paused: bool, position: i64, track: Option<DecodedTrack>) -> Seq<char> {
    match track {
        Some(t) => (if paused { "(paused)"@ } else { ""@ }) + t.title@ + " by "@ + t.author@
            + " (`"@ + millis_text(position as u64) + "/"@ + millis_text(t.length) + "`) "@
            + match t.url {
            Some(u) => u@,
            None => "(no url)"@,
        },
        None => "nothing playing "@,
    }
}

/// Writes a player state as its `Display` does.
pub fn player_to_string(paused: bool, position: i64, track: &Option<DecodedTrack>) -> (r: String)
    ensures
        r@ == player_text(paused, position, *track),
{
    match track {
        Some(t) => {
            let mut s = if paused {
                owned("(paused)")
            } else {
                owned("")
            };
            s.append(t.title.as_str());
            s.append(" by ");
            s.append(t.author.as_str());
            s.append(" (`");
            let pos = millis_readable(position as u64);
            s.append(pos.as_str());
            s.append("/");
            let len = millis_readable(t.length);
            s.append(len.as_str());
            s.append("`) ");
            match &t.url {
                Some(u) => s.append(u.as_str()),
                None => s.append("(no url)"),
            }
            s
        },
        None => owned("nothing playing "),
    }
}

impl PlayerState {
    /// The text of the state, as its `Display` shows it.
    pub fn to_string(&self) -> (r: String)
        ensures
            r@ == player_text(self.paused, self.position, self.track),
    {
        player_to_string(self.paused, self.position, &self.track)
    }

    /// The player state from the audio service's answer, once its track blob
    /// (if any) has gone through the track decoder: a blob that failed to
    /// decode fails the whole conversion with the decoder's error.
    pub fn from_decoded(
        guild_id: u64,
        paused: bool,
        position: i64,
        time: i64,
        track: Option<core::result::Result<DecodedTrack, Error>>,
        volume: i32,
    ) -> (r: core::result::Result<PlayerState, Error>)
        ensures
            match track {
                None => r == Ok::<PlayerState, Error>(
                    (PlayerState { guild_id, paused, position, time, track: None, volume }),
                ),
                Some(Ok(t)) => r == Ok::<PlayerState, Error>(
                    (PlayerState { guild_id, paused, position, time, track: Some(t), volume }),
                ),
                Some(Err(e)) => r == Err::<PlayerState, Error>(e),
            },
    {
        let decoded = match track {
            Some(Ok(t)) => Some(t),
            Some(Err(e)) => {
                return Err(e);
            },
            None => None,
        };
        Ok(PlayerState { track: decoded, guild_id, paused, position, time, volume })
    }

    /// Whether a track is loaded in the player.
    pub fn is_playing(&self) -> (r: bool)
        ensures
            r == self.track is Some,
    {
        self.track.is_some()
    }
}

} // verus!
