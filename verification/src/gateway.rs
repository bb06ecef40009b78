//! The messages and keys the bot uses with its sharder and its Redis store.
use vstd::prelude::*;
use vstd::string::*;
use crate::text::{decimal, owned, push_decimal};

verus! {

/// The JSON text of a voice state update for the sharder: op 4 with the
/// channel to join (or null to leave), the guild, deafened and not muted.
/// Keys come in sorted order and nothing is spaced, as `serde_json::to_vec`
/// writes a `json!` object.
pub open spec fn voice_state_text(guild_id: u64, channel_id: Option<u64>) -> Seq<char> {
    "{\"d\":{\"channel_id\":"@ + match channel_id {
        Some(c) => decimal(c as nat),
        None => "null"@,
    } + ",\"guild_id\":"@ + decimal(guild_id as nat) + ",\"self_deaf\":true,\"self_mute\":false},\"op\":4}"@
}

/// The UTF-8 bytes of the voice state update.
pub fn voice_state_payload(guild_id: u64, channel_id: Option<u64>) -> (r: Vec<u8>)
    ensures
        r@ == crate::text::utf8_bytes(voice_state_text(guild_id, channel_id)),
{
    let mut s = owned("{\"d\":{\"channel_id\":");
    match channel_id {
        Some(c) => push_decimal(&mut s, c),
        None => s.append("null"),
    }
    s.append(",\"guild_id\":");
    push_decimal(&mut s, guild_id);
    s.append(",\"self_deaf\":true,\"self_mute\":false},\"op\":4}");
    assert(s@ =~= voice_state_text(guild_id, channel_id));
    s.as_str().as_bytes_vec()
}

/// The Redis list the sharder reads a shard's outgoing payloads from.
pub fn sharder_key(shard_id: u64) -> (r: String)
    ensures
        r@ == "sharder:to:"@ + decimal(shard_id as nat),
{
    let mut s = owned("sharder:to:");
    push_decimal(&mut s, shard_id);
    s
}

/// The Redis list holding a guild's pending song choices.
pub fn choices_key(guild_id: u64) -> (r: String)
    ensures
        r@ == "c:"@ + decimal(guild_id as nat),
{
    let mut s = owned("c:");
    push_decimal(&mut s, guild_id);
    s
}

/// The Redis key holding the text channel a guild's player was joined from.
pub fn join_key(guild_id: u64) -> (r: String)
    ensures
        r@ == "j:"@ + decimal(guild_id as nat),
{
    let mut s = owned("j:");
    push_decimal(&mut s, guild_id);
    s
}

} // verus!
