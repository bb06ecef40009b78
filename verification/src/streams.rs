//! The reduced player state of the streaming service, and how it is shown.
use vstd::prelude::*;
use crate::lavalink::{player_text, player_to_string};
use crate::model::DecodedTrack;

verus! {

/// The player state the streaming service answers with, before decoding.
pub struct PlayerStateResponse {
    pub track: Option<String>,
    pub paused: bool,
    pub position: i64,
}

/// A player's current track, pause flag and position (milliseconds).
pub struct PlayerState {
    pub track: Option<DecodedTrack>,
    pub paused: bool,
    pub position: i64,
}

impl PlayerState {
    /// The text of the state, as its `Display` shows it.
    pub fn to_string(&self) -> (r: String)
        ensures
            r@ == player_text(self.paused, self.position, self.track),
    {
        player_to_string(self.paused, self.position, &self.track)
    }
}

} // verus!
