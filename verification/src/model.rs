//! Plain-value forms of what the audio and queue services report: decoded
//! tracks, search results and queued songs.
use vstd::prelude::*;

verus! {

/// A track's metadata, decoded from its base64 blob.
#[derive(Clone, Debug, PartialEq, Eq)]
pub struct DecodedTrack {
    pub author: String,
    pub identifier: String,
    /// Length in milliseconds.
    pub length: u64,
    pub source: String,
    pub stream: bool,
    pub title: String,
    pub url: Option<String>,
}

/// A song in a guild's queue, as the queue service lists it.
#[derive(Clone, Debug, PartialEq, Eq)]
pub struct QueuedItem {
    pub song_id: i64,
    pub song_author: String,
    pub song_identifier: String,
    /// Length in milliseconds.
    pub song_length: i64,
    pub song_source: String,
    pub song_stream: bool,
    pub song_title: String,
    pub song_track: String,
    pub song_url: Option<String>,
}

/// A song popped from a guild's queue.
#[derive(Clone, Debug, PartialEq, Eq)]
pub struct Song {
    pub id: i64,
    pub track: String,
}

/// The kind of answer a track search gave.
#[derive(Clone, Copy, Debug, PartialEq, Eq)]
pub enum LoadType {
    LoadFailed,
    NoMatches,
    PlaylistLoaded,
    SearchResult,
    TrackLoaded,
}

/// The metadata of one track of a search result.
#[derive(Clone, Debug, PartialEq, Eq)]
pub struct TrackInfo {
    pub author: String,
    pub identifier: String,
    /// Length in milliseconds.
    pub length: i64,
    pub title: String,
    pub uri: String,
}

/// One track of a search result: its blob and its metadata.
#[derive(Clone, Debug, PartialEq, Eq)]
pub struct Track {
    pub track: String,
    pub info: TrackInfo,
}

#[derive(Clone, Debug, PartialEq, Eq)]
pub struct PlaylistInfo {
    pub name: Option<String>,
}

/// What a track search returned.
#[derive(Clone, Debug, PartialEq, Eq)]
pub struct Load {
    pub load_type: LoadType,
    pub playlist_info: PlaylistInfo,
    pub tracks: Vec<Track>,
}

} // verus!
