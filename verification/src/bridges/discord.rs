//! How gateway events become work: which messages are commands and what they
//! invoke, and when a change of voice state pauses or resumes the player.
use vstd::prelude::*;
use crate::commands::{CommandId, route, route_alias};
use crate::config::Config;
use crate::error::Error;
use crate::text::{
    char_len_utf8, chars_of, chars_start_with, decimal, decimal_string, lowercase, split_words,
    to_lowercase, utf8_len, views, words,
};

verus! {

/// The prefixes commands may start with in a guild: the configured ones, in order.
pub fn get_prefixes(config: &Config, guild_id: u64) -> (r: Vec<String>)
    ensures
        views(r@) == views(config.bot_prefixes@),
{
    let mut prefixes: Vec<String> = Vec::new();
    let mut i: usize = 0;
    while i < config.bot_prefixes.len()
        invariant
            i <= config.bot_prefixes@.len(),
            views(prefixes@) == views(config.bot_prefixes@).take(i as int),
        decreases config.bot_prefixes.len() - i,
    {
        let p = config.bot_prefixes[i].clone();
        let ghost before = views(prefixes@);
        let ghost pv = p@;
        prefixes.push(p);
        assert(views(prefixes@) =~= before.push(pv));
        assert(views(config.bot_prefixes@).take(i + 1) =~= views(config.bot_prefixes@).take(i as int).push(pv));
        i = i + 1;
    }
    assert(views(config.bot_prefixes@).take(i as int) =~= views(config.bot_prefixes@));
    prefixes
}

/// The first of `prefixes` that `content` starts with.
pub open spec fn first_prefix(prefixes: Seq<Seq<char>>, content: Seq<char>) -> Option<Seq<char>>
    decreases prefixes.len(),
{
    if prefixes.len() == 0 {
        None
    } else if prefixes[0].is_prefix_of(content) {
        Some(prefixes[0])
    } else {
        first_prefix(prefixes.drop_first(), content)
    }
}

/// `s` without its first `n` characters (nothing is left when `n` is too large).
pub open spec fn drop_chars(s: Seq<char>, n: nat) -> Seq<char> {
    if n >= s.len() {
        Seq::empty()
    } else {
        s.skip(n as int)
    }
}

/// What a message leads to.
pub enum Invocation {
    /// Nothing: from a bot, without a prefix, or not a known command.
    Ignore,
    /// The message cannot be handled (no guild, or nothing after the prefix).
    Fail(Error),
    /// Run `command`, invoked as `alias`, with `args`.
    Run { command: CommandId, alias: String, args: Vec<String> },
}

/// The words of a message after its prefix. The prefix is dropped by
/// skipping as many characters as it takes bytes.
pub open spec fn command_words(content: Seq<char>, prefix: Seq<char>) -> Seq<Seq<char>> {
    words(drop_chars(content, utf8_len(prefix)))
}

/// What a message leads to, as a spec.
pub open spec fn invocation_spec(
    is_bot: bool,
    guild_id: Option<u64>,
    content: Seq<char>,
    prefixes: Seq<Seq<char>>,
    r: Invocation,
) -> bool {
    if is_bot {
        r is Ignore
    } else if guild_id is None {
        r == Invocation::Fail(Error::Missing)
    } else {
        match first_prefix(prefixes, content) {
            None => r is Ignore,
            Some(p) => {
                let ws = command_words(content, p);
                if ws.len() == 0 {
                    r == Invocation::Fail(Error::Missing)
                } else {
                    let alias = lowercase(ws[0]);
                    match route_alias(alias) {
                        None => r is Ignore,
                        Some(c) => r matches Invocation::Run { command, alias: a, args } && command == c
                            && a@ == alias && views(args@) == ws.skip(1),
                    }
                }
            },
        }
    }
}

/// The position of the first of `prefixes` that `text` starts with.
fn find_prefix(text: &Vec<char>, prefixes: &Vec<String>) -> (r: Option<usize>)
    ensures
        match r {
            Some(i) => i < prefixes@.len() && first_prefix(views(prefixes@), text@) == Some(prefixes@[i as int]@),
            None => first_prefix(views(prefixes@), text@) is None,
        },
{
    let ghost pv = views(prefixes@);
    let mut i: usize = 0;
    assert(pv.skip(0) =~= pv);
    while i < prefixes.len()
        invariant
            i <= prefixes@.len(),
            pv == views(prefixes@),
            first_prefix(pv, text@) == first_prefix(pv.skip(i as int), text@),
        decreases prefixes.len() - i,
    {
        let p = chars_of(prefixes[i].as_str());
        assert(pv.skip(i as int)[0] == p@);
        if chars_start_with(text, &p) {
            return Some(i);
        }
        assert(pv.skip(i as int).drop_first() =~= pv.skip(i + 1));
        i = i + 1;
    }
    assert(pv.skip(i as int) =~= Seq::<Seq<char>>::empty());
    None
}

/// Decides what a message leads to.
pub fn parse_message(is_bot: bool, guild_id: Option<u64>, content: &str, prefixes: &Vec<String>) -> (r: Invocation)
    ensures
        invocation_spec(is_bot, guild_id, content@, views(prefixes@), r),
{
    if is_bot {
        return Invocation::Ignore;
    }
    if guild_id.is_none() {
        return Invocation::Fail(Error::Missing);
    }
    let text = chars_of(content);
    let i = match find_prefix(&text, prefixes) {
        Some(i) => i,
        None => {
            return Invocation::Ignore;
        },
    };
    let prefix = chars_of(prefixes[i].as_str());
    assert(first_prefix(views(prefixes@), content@) == Some(prefix@));
    // Skip as many characters as the prefix takes bytes.
    let mut bytes: u128 = 0;
    let mut k: usize = 0;
    while k < prefix.len() && bytes < text.len() as u128
        invariant
            k <= prefix@.len(),
            bytes == utf8_len(prefix@.take(k as int)),
            bytes <= text@.len() + 4,
        decreases prefix.len() - k,
    {
        proof {
            crate::text::lemma_utf8_len_take_step(prefix@, k as int);
        }
        bytes = bytes + char_len_utf8(prefix[k]) as u128;
        k = k + 1;
    }
    let ghost n = utf8_len(prefix@);
    let skip: usize = if bytes >= text.len() as u128 {
        text.len()
    } else {
        assert(prefix@.take(k as int) =~= prefix@);
        bytes as usize
    };
    proof {
        if bytes >= text.len() as u128 {
            crate::text::lemma_utf8_len_take_grows(prefix@, k as int, prefix@.len() as int);
            assert(prefix@.take(prefix@.len() as int) =~= prefix@);
        }
    }
    let rest = crate::text::string_of_range(&text, skip, text.len());
    let rest_chars = chars_of(rest.as_str());
    assert(rest_chars@ =~= drop_chars(content@, n));
    let mut ws = split_words(&rest_chars);
    if ws.len() == 0 {
        return Invocation::Fail(Error::Missing);
    }
    let name = ws.remove(0);
    let alias = to_lowercase(name.as_str());
    assert(views(ws@) =~= words(rest_chars@).skip(1));
    match route(alias.as_str()) {
        None => Invocation::Ignore,
        Some(command) => Invocation::Run { command, alias, args: ws },
    }
}

/// What a change of a member's voice state leads to, once the member's
/// previous voice channel (if any) is known.
pub enum VoiceCheck {
    /// Only record the new state.
    UpdateOnly,
    /// Record the new state, then look at who is left in `channel_id`, the
    /// channel the member was in: the bot alone there pauses.
    CheckLeft { channel_id: u64 },
    /// Record the new state, then look at who is in `channel_id`, the channel
    /// the member joined: two members there resumes.
    CheckJoined { channel_id: u64 },
}

/// What is done to the guild's player after a voice state change.
#[derive(Clone, Copy, Debug, PartialEq, Eq)]
pub enum PlayerAction {
    Nothing,
    Pause,
    Resume,
}

/// A voice state change of the bot itself is only recorded; for anyone else
/// the previous state is looked up first.
pub fn needs_previous_state(user_id: u64, bot_id: u64) -> (r: bool)
    ensures
        r == (user_id != bot_id),
{
    user_id != bot_id
}

/// Decides the check for a member who is not the bot.
pub fn voice_check(old_channel: Option<u64>, new_channel: Option<u64>) -> (r: VoiceCheck)
    ensures
        match old_channel {
            Some(c) => r == VoiceCheck::CheckLeft { channel_id: c },
            None => match new_channel {
                Some(c) => r == VoiceCheck::CheckJoined { channel_id: c },
                None => r == VoiceCheck::UpdateOnly,
            },
        },
{
    match old_channel {
        Some(c) => VoiceCheck::CheckLeft { channel_id: c },
        None => match new_channel {
            Some(c) => VoiceCheck::CheckJoined { channel_id: c },
            None => VoiceCheck::UpdateOnly,
        },
    }
}

/// After someone left a channel: pause when the bot is the only member left.
pub fn after_leaving(members: &Vec<u64>, bot_id: u64) -> (r: PlayerAction)
    ensures
        r == (if members@.contains(bot_id) && members@.len() == 1 {
            PlayerAction::Pause
        } else {
            PlayerAction::Nothing
        }),
{
    let mut found = false;
    let mut i: usize = 0;
    while i < members.len()
        invariant
            i <= members@.len(),
            found == (exists|j: int| 0 <= j < i && members@[j] == bot_id),
        decreases members.len() - i,
    {
        if members[i] == bot_id {
            found = true;
        }
        i = i + 1;
    }
    if found && members.len() == 1 {
        PlayerAction::Pause
    } else {
        PlayerAction::Nothing
    }
}

/// After someone joined a channel: resume when two members are there.
pub fn after_joining(members: &Vec<u64>) -> (r: PlayerAction)
    ensures
        r == (if members@.len() == 2 {
            PlayerAction::Resume
        } else {
            PlayerAction::Nothing
        }),
{
    if members.len() == 2 {
        PlayerAction::Resume
    } else {
        PlayerAction::Nothing
    }
}

/// What the audio node is sent when Discord names the voice server of a
/// guild: the bot's voice session, the guild in decimal, the token and the
/// server's endpoint.
pub struct VoiceUpdate {
    pub session_id: String,
    pub guild_id: String,
    pub token: String,
    pub endpoint: String,
}

/// The guild a voice server update is for; an update without one is not
/// handled.
pub fn voice_server_guild(guild_id: Option<u64>) -> (r: core::result::Result<u64, Error>)
    ensures
        match guild_id {
            Some(g) => r == Ok::<u64, Error>(g),
            None => r == Err::<u64, Error>(Error::Missing),
        },
{
    match guild_id {
        Some(g) => Ok(g),
        None => Err(Error::Missing),
    }
}

/// The voice update for the audio node, once the bot's session in the guild
/// is known. The update must name its endpoint.
pub fn voice_update(session_id: String, guild_id: u64, token: String, endpoint: Option<String>) -> (r: VoiceUpdate)
    requires
        endpoint is Some,
    ensures
        r.session_id == session_id,
        r.guild_id@ == decimal(guild_id as nat),
        r.token == token,
        r.endpoint == endpoint->0,
{
    let endpoint = match endpoint {
        Some(e) => e,
        None => String::new(),
    };
    VoiceUpdate { session_id, guild_id: decimal_string(guild_id), token, endpoint }
}

/// What the voice-state cache records of a voice server update: the guild
/// and the endpoint, when the update names both.
pub fn voice_server_record(guild_id: Option<u64>, endpoint: Option<String>) -> (r: Option<(u64, String)>)
    ensures
        match (guild_id, endpoint) {
            (Some(g), Some(e)) => r == Some((g, e)),
            _ => r is None,
        },
{
    match (guild_id, endpoint) {
        (Some(g), Some(e)) => Some((g, e)),
        _ => None,
    }
}

} // verus!
