//! `dump`: uploads the guild's queue as a JSON list of tracks and links to it.
use vstd::prelude::*;
use crate::error::Error;
use crate::json::{json_string_list, pretty_json_strings, tracks_to_json};
use crate::model::QueuedItem;
use crate::text::{owned, views};
use super::{CommandResult, Context, Response, is_reply, strs, warning};

verus! {

/// The track blobs of a queue, in order.
pub open spec fn queue_tracks(queue: Seq<QueuedItem>) -> Seq<Seq<char>> {
    queue.map_values(|item: QueuedItem| item.song_track@)
}

pub open spec fn dumped_text(addr: Seq<char>, prefix: Seq<char>, uuid: Seq<char>) -> Seq<char> {
    "A dump of your song queue was created! Link: https://"@ + addr + "/"@ + uuid
        + "\n\nLoad this playlist with `"@ + prefix + "load https://"@ + addr + "/"@ + uuid + "`"@
}

/// The guild whose queue is dumped.
pub fn start(ctx: &Context) -> (r: core::result::Result<u64, Error>)
    ensures
        match ctx.guild_id {
            Some(g) => r == Ok::<u64, Error>(g),
            None => r == Err::<u64, Error>(Error::Missing),
        },
{
    match ctx.guild_id() {
        Some(g) => Ok(g),
        None => Err(Error::Missing),
    }
}

/// The reply when the queue could not be fetched.
pub fn queue_failed() -> (r: CommandResult)
    ensures
        is_reply(r, warning("There was an error getting the queue."@)),
{
    Response::err("There was an error getting the queue.")
}

/// The body of the dump: the queue's track blobs as a pretty-printed JSON
/// list. What `load` reads from it is the queue's track blobs, in order.
pub fn body(queue: &Vec<QueuedItem>) -> (r: core::result::Result<Vec<u8>, Error>)
    ensures
        r matches Ok(b) && b@ == pretty_json_strings(queue_tracks(queue@)),
        r matches Ok(b) && json_string_list(b@) == Some(queue_tracks(queue@)),
{
    let mut tracks: Vec<String> = Vec::new();
    let mut i: usize = 0;
    while i < queue.len()
        invariant
            i <= queue@.len(),
            views(tracks@) == queue_tracks(queue@).take(i as int),
        decreases queue.len() - i,
    {
        let t = queue[i].song_track.clone();
        let ghost before = views(tracks@);
        let ghost tv = t@;
        tracks.push(t);
        assert(views(tracks@) =~= before.push(tv));
        assert(queue_tracks(queue@).take(i + 1) =~= queue_tracks(queue@).take(i as int).push(tv));
        i = i + 1;
    }
    assert(queue_tracks(queue@).take(queue@.len() as int) =~= queue_tracks(queue@));
    tracks_to_json(&tracks)
}

/// The reply once the dump was stored under `uuid` at `address`.
pub fn finish(address: &str, prefix: Option<&str>, uuid: &str) -> (r: CommandResult)
    ensures
        match prefix {
            Some(p) => is_reply(r, dumped_text(address@, p@, uuid@)),
            None => r == Err::<super::Response, Error>(Error::Missing),
        },
{
    match prefix {
        None => Err(Error::Missing),
        Some(p) => {
            let mut s = owned("A dump of your song queue was created! Link: https://");
            s.append(address);
            s.append("/");
            s.append(uuid);
            s.append("\n\nLoad this playlist with `");
            s.append(p);
            s.append("load https://");
            s.append(address);
            s.append("/");
            s.append(uuid);
            s.append("`");
            Response::_text(s)
        },
    }
}

pub fn description() -> (r: &'static str)
    ensures
        r@ == "Dumps the current queue to be played with the load command."@,
{
    "Dumps the current queue to be played with the load command."
}

pub fn names() -> (r: &'static [&'static str])
    ensures
        strs(r@) == seq!["dump"@],
{
    let r: &'static [&'static str] = &["dump"];
    assert(r@ =~= seq!["dump"]);
    r
}

} // verus!
