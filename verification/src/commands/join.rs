//! `join`: joins the author's voice channel and, when asked, starts the
//! next song of the queue.
use vstd::prelude::*;
use crate::error::Error;
use crate::gateway::{voice_state_payload, voice_state_text};
use crate::model::Song;
use crate::text::{owned, utf8_bytes};
use super::{Command, CommandResult, Context, Response, is_reply, strs, warning};

verus! {

/// The outcome of joining the author's voice channel.
#[derive(Copy, Clone, Debug, Eq, Hash, PartialEq, PartialOrd, Ord)]
pub enum Join {
    AlreadyInChannel,
    Successful,
    UserNotInChannel,
}

impl Join {
    pub fn into_response(self) -> (r: CommandResult)
        ensures
            self is UserNotInChannel ==> is_reply(r, warning("You aren't in a voice channel."@)),
            !(self is UserNotInChannel) ==> is_reply(r, "Joined the voice channel."@),
    {
        match self {
            Join::AlreadyInChannel | Join::Successful => Response::text("Joined the voice channel."),
            Join::UserNotInChannel => Response::err("You aren't in a voice channel."),
        }
    }
}

pub struct JoinCommand;

/// What happened to the queue after joining.
pub enum PopStatus {
    AlreadyPlaying,
    ErrorPopping(Error),
    ErrorPlaying(Error),
    /// Nothing was taken from the queue.
    NoSong,
    Playing,
    Queued,
}

#[derive(Copy, Clone, Debug, Eq, Hash, PartialEq, PartialOrd, Ord)]
pub enum JoinState {
    AlreadyInChannel,
    Successful,
    UserNotInChannel,
}

impl JoinState {
    pub fn into_response(self) -> (r: CommandResult)
        ensures
            self is UserNotInChannel ==> is_reply(r, warning("You aren't in a voice channel."@)),
            !(self is UserNotInChannel) ==> is_reply(r, "Joined the voice channel."@),
    {
        match self {
            JoinState::AlreadyInChannel | JoinState::Successful => Response::text("Joined the voice channel."),
            JoinState::UserNotInChannel => Response::err("You aren't in a voice channel."),
        }
    }
}

/// A request to join the author's voice channel; with `pop`, the next song
/// of the queue is started when nothing plays.
pub struct JoinRequest<'a> {
    pub ctx: &'a Context,
    pub pop: bool,
}

impl<'a> JoinRequest<'a> {
    pub fn no_pop(ctx: &'a Context) -> (r: Self)
        ensures
            r.ctx == ctx,
            !r.pop,
    {
        Self { pop: false, ctx }
    }

    pub fn pop(ctx: &'a Context) -> (r: Self)
        ensures
            r.ctx == ctx,
            r.pop,
    {
        Self { pop: true, ctx }
    }
}

pub struct JoinResponse<'a> {
    pub pop: PopStatus,
    pub request: JoinRequest<'a>,
    pub state: JoinState,
}

/// The text a join response is shown as.
pub open spec fn join_response_text(state: JoinState, pop: PopStatus) -> Seq<char> {
    match state {
        JoinState::AlreadyInChannel => "Joined the voice channel."@,
        JoinState::UserNotInChannel => "It looks like you aren't in a voice channel."@,
        JoinState::Successful => match pop {
            PopStatus::AlreadyPlaying => "A song is already playing."@,
            PopStatus::ErrorPopping(_) => "There was an error getting the next song in the queue."@,
            PopStatus::ErrorPlaying(_) => "There was an error playing the song."@,
            PopStatus::NoSong => "Didn't retrieve anything from the queue."@,
            PopStatus::Playing => "Joined the voice channel and now playing the next song in the queue!"@,
            PopStatus::Queued => "Added the song to the queue!"@,
        },
    }
}

impl<'a> JoinResponse<'a> {
    pub fn already_in_channel(request: JoinRequest<'a>) -> (r: Self)
        ensures
            r.pop is NoSong && r.state is AlreadyInChannel && r.request == request,
    {
        Self { pop: PopStatus::NoSong, state: JoinState::AlreadyInChannel, request }
    }

    pub fn already_playing(request: JoinRequest<'a>) -> (r: Self)
        ensures
            r.pop is AlreadyPlaying && r.state is Successful && r.request == request,
    {
        Self { pop: PopStatus::AlreadyPlaying, state: JoinState::Successful, request }
    }

    pub fn empty_pop(request: JoinRequest<'a>) -> (r: Self)
        ensures
            r.pop is NoSong && r.state is Successful && r.request == request,
    {
        Self { pop: PopStatus::NoSong, state: JoinState::Successful, request }
    }

    pub fn error_playing(request: JoinRequest<'a>, why: Error) -> (r: Self)
        ensures
            r.pop == PopStatus::ErrorPlaying(why) && r.state is Successful && r.request == request,
    {
        Self { pop: PopStatus::ErrorPlaying(why), state: JoinState::Successful, request }
    }

    pub fn error_popping(request: JoinRequest<'a>, why: Error) -> (r: Self)
        ensures
            r.pop == PopStatus::ErrorPopping(why) && r.state is Successful && r.request == request,
    {
        Self { pop: PopStatus::ErrorPopping(why), state: JoinState::Successful, request }
    }

    pub fn not_in_channel(request: JoinRequest<'a>) -> (r: Self)
        ensures
            r.pop is NoSong && r.state is UserNotInChannel && r.request == request,
    {
        Self { pop: PopStatus::NoSong, state: JoinState::UserNotInChannel, request }
    }

    pub fn playing_next(request: JoinRequest<'a>) -> (r: Self)
        ensures
            r.pop is Playing && r.state is Successful && r.request == request,
    {
        Self { pop: PopStatus::Playing, state: JoinState::Successful, request }
    }

    pub fn queued(request: JoinRequest<'a>) -> (r: Self)
        ensures
            r.pop is Queued && r.state is Successful && r.request == request,
    {
        Self { pop: PopStatus::Queued, state: JoinState::Successful, request }
    }

    pub fn successful_without_pop(request: JoinRequest<'a>) -> (r: Self)
        ensures
            r.pop is NoSong && r.state is Successful && r.request == request,
    {
        Self { pop: PopStatus::NoSong, state: JoinState::Successful, request }
    }

    /// The text of the response, as its `Display` shows it.
    pub fn to_string(&self) -> (r: String)
        ensures
            r@ == join_response_text(self.state, self.pop),
    {
        match self.state {
            JoinState::AlreadyInChannel => {
                return owned("Joined the voice channel.");
            },
            JoinState::UserNotInChannel => {
                return owned("It looks like you aren't in a voice channel.");
            },
            JoinState::Successful => {},
        }
        owned(
            match self.pop {
                PopStatus::AlreadyPlaying => "A song is already playing.",
                PopStatus::ErrorPopping(_) => "There was an error getting the next song in the queue.",
                PopStatus::ErrorPlaying(_) => "There was an error playing the song.",
                PopStatus::NoSong => "Didn't retrieve anything from the queue.",
                PopStatus::Playing => "Joined the voice channel and now playing the next song in the queue!",
                PopStatus::Queued => "Added the song to the queue!",
            },
        )
    }
}

/// The next step of joining.
pub enum JoinStep<'a> {
    /// Joining is over, with this response.
    Done(JoinResponse<'a>),
    /// Send `payload` to the shard, then record `text_channel_id` as the
    /// guild's join channel.
    Connect { guild_id: u64, text_channel_id: u64, payload: Vec<u8> },
    /// Look at the guild's player.
    CheckCurrent,
    /// Pop the next song of the guild's queue.
    Pop,
    /// Play `track` in the guild.
    Play { guild_id: u64, track: String },
}

/// The next step of `join_ctx`, which joins without touching the queue.
pub enum JoinCtxStep {
    Done(Join),
    /// Look up the bot's own voice state, to compare with the author's channel.
    CheckBot { channel_id: u64 },
    /// Send `payload` to the shard and record `text_channel_id`; the result is then `Successful`.
    Connect { guild_id: u64, text_channel_id: u64, payload: Vec<u8> },
}

impl JoinCommand {
    /// The guild and author to look the voice state up for.
    pub fn join_start(req: &JoinRequest) -> (r: core::result::Result<(u64, u64), Error>)
        ensures
            match req.ctx.guild_id {
                Some(g) => r == Ok::<(u64, u64), Error>((g, req.ctx.author_id)),
                None => r == Err::<(u64, u64), Error>(Error::Missing),
            },
    {
        match req.ctx.guild_id() {
            Some(g) => Ok((g, req.ctx.author_id)),
            None => Err(Error::Missing),
        }
    }

    /// Once the author's voice channel in guild `guild_id` is known: not in
    /// one ends the join, otherwise the shard is told to join it.
    pub fn on_voice_state<'a>(req: JoinRequest<'a>, guild_id: u64, user_channel: Option<u64>) -> (r: JoinStep<'a>)
        ensures
            match user_channel {
                None => r matches JoinStep::Done(resp) && resp.state is UserNotInChannel && resp.pop is NoSong,
                Some(c) => r matches JoinStep::Connect { guild_id: g, text_channel_id, payload }
                    && g == guild_id && text_channel_id == req.ctx.channel_id
                    && payload@ == utf8_bytes(voice_state_text(guild_id, Some(c))),
            },
    {
        match user_channel {
            None => JoinStep::Done(JoinResponse::not_in_channel(req)),
            Some(c) => JoinStep::Connect {
                guild_id,
                text_channel_id: req.ctx.channel_id,
                payload: voice_state_payload(guild_id, Some(c)),
            },
        }
    }

    /// Once connected: without `pop` the join is over, otherwise the player is checked.
    pub fn on_connected<'a>(req: JoinRequest<'a>) -> (r: JoinStep<'a>)
        ensures
            !req.pop ==> (r matches JoinStep::Done(resp) && resp.state is Successful && resp.pop is NoSong),
            req.pop ==> r is CheckCurrent,
    {
        if !req.pop {
            JoinStep::Done(JoinResponse::successful_without_pop(req))
        } else {
            JoinStep::CheckCurrent
        }
    }

    /// Once the player was checked: a playing player ends the join, otherwise a song is popped.
    pub fn on_current<'a>(req: JoinRequest<'a>, playing: bool) -> (r: JoinStep<'a>)
        ensures
            playing ==> (r matches JoinStep::Done(resp) && resp.state is Successful && resp.pop is AlreadyPlaying),
            !playing ==> r is Pop,
    {
        if playing {
            JoinStep::Done(JoinResponse::already_playing(req))
        } else {
            JoinStep::Pop
        }
    }

    /// Once a song was popped from the queue of guild `guild_id`: it is
    /// played; an empty queue or an error ends the join.
    pub fn on_pop<'a>(req: JoinRequest<'a>, guild_id: u64, popped: core::result::Result<Option<Song>, Error>) -> (r: JoinStep<'a>)
        ensures
            match popped {
                Ok(Some(song)) => r matches JoinStep::Play { guild_id: g, track } && g == guild_id && track == song.track,
                Ok(None) => r matches JoinStep::Done(resp) && resp.state is Successful && resp.pop is NoSong,
                Err(e) => r matches JoinStep::Done(resp) && resp.state is Successful && resp.pop == PopStatus::ErrorPopping(e),
            },
    {
        match popped {
            Ok(Some(song)) => JoinStep::Play { guild_id, track: song.track },
            Ok(None) => JoinStep::Done(JoinResponse::empty_pop(req)),
            Err(why) => JoinStep::Done(JoinResponse::error_popping(req, why)),
        }
    }

    /// Once the song was handed to the player: started, queued, or failed.
    pub fn on_play<'a>(req: JoinRequest<'a>, outcome: core::result::Result<bool, Error>) -> (r: JoinResponse<'a>)
        ensures
            r.state is Successful,
            match outcome {
                Ok(true) => r.pop is Playing,
                Ok(false) => r.pop is Queued,
                Err(e) => r.pop == PopStatus::ErrorPlaying(e),
            },
    {
        match outcome {
            Ok(true) => JoinResponse::playing_next(req),
            Ok(false) => JoinResponse::queued(req),
            Err(why) => JoinResponse::error_playing(req, why),
        }
    }

    /// The reply of the `join` command once joining ended.
    pub fn reply(result: core::result::Result<JoinResponse, Error>) -> (r: CommandResult)
        ensures
            result matches Ok(resp) ==> is_reply(r, join_response_text(resp.state, resp.pop)),
            result is Err ==> is_reply(r, warning("There was an error joining the channel!"@)),
    {
        match result {
            Ok(resp) => Response::_text(resp.to_string()),
            Err(_) => Response::err("There was an error joining the channel!"),
        }
    }

    /// `join_ctx` once the author's voice channel is known.
    pub fn join_ctx_on_user(user_channel: Option<u64>) -> (r: JoinCtxStep)
        ensures
            match user_channel {
                None => r == JoinCtxStep::Done(Join::UserNotInChannel),
                Some(c) => r == JoinCtxStep::CheckBot { channel_id: c },
            },
    {
        match user_channel {
            None => JoinCtxStep::Done(Join::UserNotInChannel),
            Some(c) => JoinCtxStep::CheckBot { channel_id: c },
        }
    }

    /// `join_ctx` in guild `guild_id` once the bot's own voice channel is
    /// known: the same channel as the author's means it is already there.
    pub fn join_ctx_on_bot(ctx: &Context, guild_id: u64, user_channel: u64, bot_channel: Option<u64>) -> (r: JoinCtxStep)
        ensures
            bot_channel == Some(user_channel) ==> r == JoinCtxStep::Done(Join::AlreadyInChannel),
            bot_channel != Some(user_channel) ==> (r matches JoinCtxStep::Connect { guild_id: g, text_channel_id, payload }
                && g == guild_id && text_channel_id == ctx.channel_id
                && payload@ == utf8_bytes(voice_state_text(guild_id, Some(user_channel)))),
    {
        if let Some(b) = bot_channel {
            if b == user_channel {
                return JoinCtxStep::Done(Join::AlreadyInChannel);
            }
        }
        JoinCtxStep::Connect {
            guild_id,
            text_channel_id: ctx.channel_id,
            payload: voice_state_payload(guild_id, Some(user_channel)),
        }
    }

    /// `join_ctx` once the payload was sent to the shard and the join channel
    /// recorded (`outcome`): a join that connected is `Successful`, and a
    /// failure of either step is the result.
    pub fn join_ctx_connected(outcome: core::result::Result<(), Error>) -> (r: core::result::Result<Join, Error>)
        ensures
            match outcome {
                Ok(()) => r == Ok::<Join, Error>(Join::Successful),
                Err(e) => r == Err::<Join, Error>(e),
            },
    {
        match outcome {
            Ok(()) => Ok(Join::Successful),
            Err(e) => Err(e),
        }
    }
}

impl Command for JoinCommand {
    fn names(&self) -> (r: &'static [&'static str])
        ensures
            strs(r@) == seq!["connect"@, "j"@, "join"@],
    {
        let r: &'static [&'static str] = &["connect", "j", "join"];
        assert(r@ =~= seq!["connect", "j", "join"]);
        r
    }

    fn description(&self) -> (r: &'static str)
        ensures
            r@ == "Joins the voice channel."@,
    {
        "Joins the voice channel."
    }
}

} // verus!
