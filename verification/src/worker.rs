//! The frames the worker pops from the sharder's queue: a gateway payload
//! followed by the shard id as two little-endian bytes.
use vstd::prelude::*;
use crate::error::Error;

verus! {

/// Reads a little-endian `u16` from the first two bytes with
/// `byteorder::LittleEndian::read_u16`. Trusted: the value is the first byte
/// plus 256 times the second, as byteorder documents.
#[verifier::external_body]
fn read_u16_le(bytes: &[u8]) -> (r: u16)
    requires
        bytes@.len() >= 2,
    ensures
        r == bytes@[0] + 256 * bytes@[1],
{
    <byteorder::LittleEndian as byteorder::ByteOrder>::read_u16(bytes)
}

/// The payload of a popped frame and the shard it came from: the last two
/// bytes are the shard id, little-endian.
pub fn split_shard_frame(message: Vec<u8>) -> (r: (Vec<u8>, u64))
    requires
        message@.len() >= 2,
    ensures
        r.0@ == message@.take(message@.len() - 2),
        r.1 == message@[message@.len() - 2] + 256 * message@[message@.len() - 1],
{
    let mut message = message;
    let len = message.len();
    let tail: Vec<u8> = vec![message[len - 2], message[len - 1]];
    let shard_id = read_u16_le(tail.as_slice()) as u64;
    message.truncate(len - 2);
    (message, shard_id)
}

/// The value of a `BLPOP` reply: the second of its two parts.
pub fn popped_value<T>(parts: Vec<T>) -> (r: core::result::Result<T, Error>)
    ensures
        parts@.len() == 2 ==> r == Ok::<T, Error>(parts@[1]),
        parts@.len() != 2 ==> r == Err::<T, Error>(Error::Missing),
{
    let mut parts = parts;
    if parts.len() == 2 {
        Ok(parts.remove(1))
    } else {
        Err(Error::Missing)
    }
}

/// The fields of a created message that the handler reads.
pub struct IncomingMessage {
    /// Whether the author is a bot.
    pub is_bot: bool,
    pub guild_id: Option<u64>,
    pub channel_id: u64,
    pub author_id: u64,
    pub content: String,
}

/// The plain values of what a gateway payload carries: a message's fields,
/// or nothing for any other event.
pub open spec fn message_fields(m: Option<IncomingMessage>) -> Option<(bool, Option<u64>, u64, u64, Seq<char>)> {
    match m {
        Some(x) => Some((x.is_bot, x.guild_id, x.channel_id, x.author_id, x.content@)),
        None => None,
    }
}

/// What `serde_json::from_slice::<serenity::model::event::GatewayEvent>`
/// reads from `bytes`, taken to the fields the handler reads: `None` where it
/// fails, `Some(None)` for an event other than a created message, and
/// otherwise the message's bot flag, guild, channel, author and content.
pub uninterp spec fn gateway_message(bytes: Seq<u8>) -> Option<Option<(bool, Option<u64>, u64, u64, Seq<char>)>>;

/// Parses a gateway payload with `serde_json::from_slice` into serenity's
/// `GatewayEvent` and keeps the fields of a created message; an error is
/// given as its `Display` text. Trusted: it succeeds exactly where
/// `gateway_message` is some value, and gives that value's fields; nothing
/// is stated of the error's text.
#[verifier::external_body]
fn parse_gateway_event(bytes: &[u8]) -> (r: core::result::Result<Option<IncomingMessage>, String>)
    ensures
        r is Ok <==> gateway_message(bytes@) is Some,
        r matches Ok(m) ==> gateway_message(bytes@) == Some(message_fields(m)),
{
    match serde_json::from_slice::<serenity::model::event::GatewayEvent>(bytes) {
        Ok(serenity::model::event::GatewayEvent::Dispatch(_, serenity::model::event::Event::MessageCreate(e))) => {
            Ok(Some(IncomingMessage {
                is_bot: e.message.author.bot,
                guild_id: e.message.guild_id.map(serenity::model::id::GuildId::get),
                channel_id: e.message.channel_id.get(),
                author_id: e.message.author.id.get(),
                content: e.message.content,
            }))
        },
        Ok(_) => Ok(None),
        Err(e) => Err(e.to_string()),
    }
}

/// Decodes a popped frame: the gateway payload's message, if it carries
/// one, and the shard the frame came from.
pub fn decode_frame(message: Vec<u8>) -> (r: core::result::Result<(Option<IncomingMessage>, u64), Error>)
    requires
        message@.len() >= 2,
    ensures
        r is Ok <==> gateway_message(message@.take(message@.len() - 2)) is Some,
        r matches Err(e) ==> e is SerdeJson,
        r matches Ok((m, shard)) ==> gateway_message(message@.take(message@.len() - 2)) == Some(message_fields(m))
            && shard == message@[message@.len() - 2] + 256 * message@[message@.len() - 1],
{
    let (payload, shard_id) = split_shard_frame(message);
    match parse_gateway_event(payload.as_slice()) {
        Ok(m) => Ok((m, shard_id)),
        Err(e) => Err(Error::SerdeJson(e)),
    }
}

} // verus!
