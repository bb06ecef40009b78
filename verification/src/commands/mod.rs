//! The bot's commands: the reply type, the invocation context, and one module
//! per command holding its names, description and decisions.
use vstd::prelude::*;
use crate::error::Error;
use crate::table::{
    Table, distinct_keys, last_value_for, lemma_table_of_distinct_entries, lemma_table_of_lookup, lookup,
    table_of,
};
use crate::text::{owned, str_eq};

pub mod about;
pub mod cancel;
pub mod choose_command;
pub mod clear;
pub mod discordfm;
pub mod dump;
pub mod help;
pub mod invite;
pub mod join;
pub mod leave;
pub mod load;
pub mod pause;
pub mod ping;
pub mod play;
pub mod playing;
pub mod providers;
pub mod queue;
pub mod radio;
pub mod remove;
pub mod reorder;
pub mod repeat;
pub mod restart;
pub mod resume;
pub mod seek;
pub mod shuffle;
pub mod skip;
pub mod soundcloud;
pub mod volume;
pub mod youtube;

verus! {

/// What a command answers with.
#[derive(Clone, Debug, Eq, PartialEq, PartialOrd, Ord)]
pub enum Response {
    Text(String),
}

pub type CommandResult = core::result::Result<Response, Error>;

/// The text of an error reply: a warning sign, a space, then the content.
pub open spec fn warning(content: Seq<char>) -> Seq<char> {
    "⚠ "@ + content
}

/// `r` is a successful text reply whose text is `t`.
pub open spec fn is_reply(r: CommandResult, t: Seq<char>) -> bool {
    r matches Ok(Response::Text(s)) && s@ == t
}

impl Response {
    /// An error reply: the content behind a warning sign.
    pub fn err(content: &str) -> (r: CommandResult)
        ensures
            is_reply(r, warning(content@)),
    {
        Self::_err(content)
    }

    pub fn _err(content: &str) -> (r: CommandResult)
        ensures
            is_reply(r, warning(content@)),
    {
        let mut s = owned("⚠ ");
        s.append(content);
        Ok(Response::Text(s))
    }

    /// A plain text reply.
    pub fn text(content: &str) -> (r: CommandResult)
        ensures
            is_reply(r, content@),
    {
        Self::_text(owned(content))
    }

    pub fn _text(content: String) -> (r: CommandResult)
        ensures
            is_reply(r, content@),
    {
        Ok(Response::Text(content))
    }
}

/// The reply given when nothing is queued or playing.
pub open spec fn no_song_text() -> Seq<char> {
    "No music is queued or playing on this guild! Add some using `!!!play <song name/link>`"@
}

pub fn no_song() -> (r: CommandResult)
    ensures
        is_reply(r, no_song_text()),
{
    Response::text("No music is queued or playing on this guild! Add some using `!!!play <song name/link>`")
}

/// What a command is invoked with: the alias it was called by, its arguments,
/// and the plain values of the message and configuration that commands read.
pub struct Context {
    pub alias: String,
    pub args: Vec<String>,
    pub shard_id: u64,
    /// The guild the message was sent in, if any.
    pub guild_id: Option<u64>,
    pub channel_id: u64,
    pub author_id: u64,
    /// The bot's first configured command prefix, if any.
    pub prefix: Option<String>,
}

impl Context {
    pub fn guild_id(&self) -> (r: Option<u64>)
        ensures
            r == self.guild_id,
    {
        self.guild_id
    }

    pub fn prefix(&self) -> (r: Option<&str>)
        ensures
            match r {
                Some(p) => self.prefix matches Some(q) && p@ == q@,
                None => self.prefix is None,
            },
    {
        match &self.prefix {
            Some(p) => Some(p.as_str()),
            None => None,
        }
    }
}

/// The guild of the invocation, which most commands need.
pub fn require_guild(ctx: &Context) -> (r: core::result::Result<u64, Error>)
    ensures
        match ctx.guild_id {
            Some(g) => r == Ok::<u64, Error>(g),
            None => r == Err::<u64, Error>(Error::Missing),
        },
{
    match ctx.guild_id() {
        Some(g) => Ok(g),
        None => Err(Error::Missing),
    }
}

/// The views of a list of names.
pub open spec fn strs(s: Seq<&str>) -> Seq<Seq<char>> {
    s.map_values(|x: &str| x@)
}

/// A command's names and description; each command's type states its own.
pub trait Command {
    fn names(&self) -> &'static [&'static str];

    fn description(&self) -> &'static str;
}

/// The commands the bot registers, one variant per command.
#[derive(Clone, Copy, Debug, PartialEq, Eq)]
pub enum CommandId {
    About,
    Cancel,
    Choose,
    Clear,
    Dfm,
    Dump,
    Help,
    Invite,
    Join,
    Leave,
    Load,
    Pause,
    Ping,
    Play,
    Playing,
    Providers,
    Queue,
    Radio,
    Remove,
    Restart,
    Resume,
    Seek,
    Shuffle,
    Skip,
    SoundCloud,
    Volume,
    YouTube,
}

/// The commands in the order they are registered.
pub open spec fn all_commands() -> Seq<CommandId> {
    seq![
        CommandId::About, CommandId::Cancel, CommandId::Choose, CommandId::Clear, CommandId::Dfm,
        CommandId::Dump, CommandId::Help, CommandId::Invite, CommandId::Join, CommandId::Leave,
        CommandId::Load, CommandId::Pause, CommandId::Ping, CommandId::Play, CommandId::Playing,
        CommandId::Providers, CommandId::Queue, CommandId::Radio, CommandId::Remove,
        CommandId::Restart, CommandId::Resume, CommandId::Seek, CommandId::Shuffle,
        CommandId::Skip, CommandId::SoundCloud, CommandId::Volume, CommandId::YouTube,
    ]
}

/// The names a command answers to.
pub open spec fn command_names(c: CommandId) -> Seq<Seq<char>> {
    match c {
        CommandId::About => seq!["about"@, "info"@],
        CommandId::Cancel => seq!["cancel"@],
        CommandId::Choose => seq!["choose"@, "c"@, "chose"@],
        CommandId::Clear => seq!["clear"@],
        CommandId::Dfm => seq!["dfm"@, "discordfm"@, "discord.fm"@, "d.fm"@],
        CommandId::Dump => seq!["dump"@],
        CommandId::Help => seq!["help"@, "h"@],
        CommandId::Invite => seq!["invite"@, "inv"@],
        CommandId::Join => seq!["connect"@, "j"@, "join"@],
        CommandId::Leave => seq!["disconnect"@, "l"@, "leave"@, "stop"@],
        CommandId::Load => seq!["load"@],
        CommandId::Pause => seq!["hold"@, "pause"@],
        CommandId::Ping => seq!["ping"@],
        CommandId::Play => seq!["play"@, "p"@, "search"@],
        CommandId::Playing => seq!["current"@, "currently"@, "nowplaying"@, "np"@, "playing"@],
        CommandId::Providers => seq!["providers"@],
        CommandId::Queue => seq!["queue"@, "q"@, "que"@],
        CommandId::Radio => seq!["radio"@, "radios"@, "r"@],
        CommandId::Remove => seq!["remove"@, "rm"@],
        CommandId::Restart => seq!["restart"@, "rs"@],
        CommandId::Resume => seq!["unpause"@, "resume"@],
        CommandId::Seek => seq!["seek"@, "jump"@],
        CommandId::Shuffle => seq!["shuffle"@, "shufle"@],
        CommandId::Skip => seq!["skip"@, "s"@, "next"@],
        CommandId::SoundCloud => seq!["soundcloud"@, "sc"@],
        CommandId::Volume => seq!["volume"@, "vol"@, "v"@],
        CommandId::YouTube => seq!["youtube"@, "yt"@],
    }
}

/// A command's description.
pub open spec fn command_description(c: CommandId) -> Seq<char> {
    match c {
        CommandId::About => "Displays information about the bot."@,
        CommandId::Cancel => "Cancels the current song selection."@,
        CommandId::Choose => "Chooses a song from a selection screen."@,
        CommandId::Clear => "Clears the song queue."@,
        CommandId::Dfm => "Plays a Discord.FM playlist."@,
        CommandId::Dump => "Dumps the current queue to be played with the load command."@,
        CommandId::Help => "Links to our list of commands."@,
        CommandId::Invite => "Displays a link to invite the bot."@,
        CommandId::Join => "Joins the voice channel."@,
        CommandId::Leave => "Leaves the voice channel."@,
        CommandId::Load => "Loads a queue of songs from the dump command."@,
        CommandId::Pause => "Pauses the current song."@,
        CommandId::Ping => "Ping pong!"@,
        CommandId::Play => "plays a song"@,
        CommandId::Playing => "Gets the currently playing song."@,
        CommandId::Providers => "Shows information about audio providers."@,
        CommandId::Queue => "Shows the song queue."@,
        CommandId::Radio => "Streams a radio or displays a list of them all."@,
        CommandId::Remove => "Removes a song from the queue."@,
        CommandId::Restart => "Restarts the current song."@,
        CommandId::Resume => "Resumes the current song."@,
        CommandId::Seek => "Skips to a certain timestamp in the current song."@,
        CommandId::Shuffle => "Shuffles the current song queue."@,
        CommandId::Skip => "Skips the current song."@,
        CommandId::SoundCloud => "Searches SoundCloud for a song."@,
        CommandId::Volume => "Changes the track volume."@,
        CommandId::YouTube => "Searches YouTube for a song."@,
    }
}

/// The (name, command) pairs of `cs`, command by command, names in order.
pub open spec fn registry_entries(cs: Seq<CommandId>) -> Seq<(Seq<char>, CommandId)>
    decreases cs.len(),
{
    if cs.len() == 0 {
        Seq::empty()
    } else {
        registry_entries(cs.drop_last()) + command_names(cs.last()).map_values(|n: Seq<char>| (n, cs.last()))
    }
}

impl CommandId {
    pub fn names(self) -> (r: &'static [&'static str])
        ensures
            strs(r@) == command_names(self),
    {
        match self {
            CommandId::About => about::AboutCommand.names(),
            CommandId::Cancel => cancel::CancelCommand.names(),
            CommandId::Choose => choose_command::ChooseCommand.names(),
            CommandId::Clear => clear::ClearCommand.names(),
            CommandId::Dfm => discordfm::DfmCommand.names(),
            CommandId::Dump => dump::names(),
            CommandId::Help => help::HelpCommand.names(),
            CommandId::Invite => invite::InviteCommand.names(),
            CommandId::Join => join::JoinCommand.names(),
            CommandId::Leave => leave::LeaveCommand.names(),
            CommandId::Load => load::LoadCommand.names(),
            CommandId::Pause => pause::PauseCommand.names(),
            CommandId::Ping => ping::PingCommand.names(),
            CommandId::Play => play::names(),
            CommandId::Playing => playing::PlayingCommand.names(),
            CommandId::Providers => providers::names(),
            CommandId::Queue => queue::QueueCommand.names(),
            CommandId::Radio => radio::RadioCommand.names(),
            CommandId::Remove => remove::RemoveCommand.names(),
            CommandId::Restart => restart::RestartCommand.names(),
            CommandId::Resume => resume::ResumeCommand.names(),
            CommandId::Seek => seek::SeekCommand.names(),
            CommandId::Shuffle => shuffle::ShuffleCommand.names(),
            CommandId::Skip => skip::SkipCommand.names(),
            CommandId::SoundCloud => soundcloud::SoundCloudCommand.names(),
            CommandId::Volume => volume::VolumeCommand.names(),
            CommandId::YouTube => youtube::YouTubeCommand.names(),
        }
    }

    pub fn description(self) -> (r: &'static str)
        ensures
            r@ == command_description(self),
    {
        match self {
            CommandId::About => about::AboutCommand.description(),
            CommandId::Cancel => cancel::CancelCommand.description(),
            CommandId::Choose => choose_command::ChooseCommand.description(),
            CommandId::Clear => clear::ClearCommand.description(),
            CommandId::Dfm => discordfm::DfmCommand.description(),
            CommandId::Dump => dump::description(),
            CommandId::Help => help::HelpCommand.description(),
            CommandId::Invite => invite::InviteCommand.description(),
            CommandId::Join => join::JoinCommand.description(),
            CommandId::Leave => leave::LeaveCommand.description(),
            CommandId::Load => load::LoadCommand.description(),
            CommandId::Pause => pause::PauseCommand.description(),
            CommandId::Ping => ping::PingCommand.description(),
            CommandId::Play => play::description(),
            CommandId::Playing => playing::PlayingCommand.description(),
            CommandId::Providers => providers::description(),
            CommandId::Queue => queue::QueueCommand.description(),
            CommandId::Radio => radio::RadioCommand.description(),
            CommandId::Remove => remove::RemoveCommand.description(),
            CommandId::Restart => restart::RestartCommand.description(),
            CommandId::Resume => resume::ResumeCommand.description(),
            CommandId::Seek => seek::SeekCommand.description(),
            CommandId::Shuffle => shuffle::ShuffleCommand.description(),
            CommandId::Skip => skip::SkipCommand.description(),
            CommandId::SoundCloud => soundcloud::SoundCloudCommand.description(),
            CommandId::Volume => volume::VolumeCommand.description(),
            CommandId::YouTube => youtube::YouTubeCommand.description(),
        }
    }
}

/// Every command under each of its names; a name given twice keeps the
/// later command.
pub fn map() -> (r: Table<CommandId>)
    ensures
        r.pairs() == table_of(registry_entries(all_commands())),
{
    let commands: Vec<CommandId> = vec![
        CommandId::About, CommandId::Cancel, CommandId::Choose, CommandId::Clear, CommandId::Dfm,
        CommandId::Dump, CommandId::Help, CommandId::Invite, CommandId::Join, CommandId::Leave,
        CommandId::Load, CommandId::Pause, CommandId::Ping, CommandId::Play, CommandId::Playing,
        CommandId::Providers, CommandId::Queue, CommandId::Radio, CommandId::Remove,
        CommandId::Restart, CommandId::Resume, CommandId::Seek, CommandId::Shuffle,
        CommandId::Skip, CommandId::SoundCloud, CommandId::Volume, CommandId::YouTube,
    ];
    assert(commands@ =~= all_commands());
    let mut map: Table<CommandId> = Table::new();
    let ghost mut done: Seq<(Seq<char>, CommandId)> = Seq::empty();
    let mut i: usize = 0;
    while i < commands.len()
        invariant
            i <= commands@.len(),
            commands@ == all_commands(),
            done == registry_entries(commands@.take(i as int)),
            map.pairs() == table_of(done),
        decreases commands.len() - i,
    {
        let c = commands[i];
        let names = c.names();
        let ghost start = done;
        let mut j: usize = 0;
        while j < names.len()
            invariant
                j <= names@.len(),
                strs(names@) == command_names(c),
                done == start + command_names(c).take(j as int).map_values(|n: Seq<char>| (n, c)),
                map.pairs() == table_of(done),
            decreases names.len() - j,
        {
            let name = names[j];
            map.insert(owned(name), c);
            proof {
                let e = (name@, c);
                assert(strs(names@)[j as int] == name@);
                assert((done.push(e)).drop_last() =~= done);
                done = done.push(e);
                assert(command_names(c).take(j + 1).map_values(|n: Seq<char>| (n, c)) =~= command_names(c).take(
                    j as int,
                ).map_values(|n: Seq<char>| (n, c)).push(e));
            }
            j = j + 1;
        }
        proof {
            assert(command_names(c).take(j as int) =~= command_names(c));
            assert(commands@.take(i + 1).drop_last() =~= commands@.take(i as int));
            assert(commands@.take(i + 1).last() == c);
        }
        i = i + 1;
    }
    assert(commands@.take(i as int) =~= commands@);
    map
}

/// The command that the gateway's message handler runs for an alias.
pub open spec fn route_alias(alias: Seq<char>) -> Option<CommandId> {
    if alias == "about"@ {
        Some(CommandId::About)
    } else if alias == "dfm"@ || alias == "discordfm"@ || alias == "discord.fm"@ {
        Some(CommandId::Dfm)
    } else if alias == "dump"@ {
        Some(CommandId::Dump)
    } else if alias == "invite"@ {
        Some(CommandId::Invite)
    } else if alias == "join"@ || alias == "j"@ || alias == "connect"@ {
        Some(CommandId::Join)
    } else if alias == "leave"@ || alias == "l"@ || alias == "disconnect"@ || alias == "stop"@ {
        Some(CommandId::Leave)
    } else if alias == "load"@ {
        Some(CommandId::Load)
    } else if alias == "pause"@ || alias == "hold"@ {
        Some(CommandId::Pause)
    } else if alias == "ping"@ {
        Some(CommandId::Ping)
    } else if alias == "play"@ || alias == "p"@ {
        Some(CommandId::Play)
    } else if alias == "playing"@ || alias == "np"@ || alias == "nowplaying"@ || alias == "current"@ {
        Some(CommandId::Playing)
    } else if alias == "providers"@ {
        Some(CommandId::Providers)
    } else if alias == "queue"@ || alias == "q"@ || alias == "que"@ {
        Some(CommandId::Queue)
    } else if alias == "radio"@ {
        Some(CommandId::Radio)
    } else if alias == "remove"@ {
        Some(CommandId::Remove)
    } else if alias == "restart"@ {
        Some(CommandId::Restart)
    } else if alias == "resume"@ || alias == "unpause"@ {
        Some(CommandId::Resume)
    } else if alias == "seek"@ {
        Some(CommandId::Seek)
    } else if alias == "skip"@ || alias == "s"@ || alias == "next"@ {
        Some(CommandId::Skip)
    } else if alias == "soundcloud"@ || alias == "sc"@ {
        Some(CommandId::SoundCloud)
    } else if alias == "volume"@ || alias == "v"@ {
        Some(CommandId::Volume)
    } else if alias == "youtube"@ || alias == "yt"@ {
        Some(CommandId::YouTube)
    } else {
        None
    }
}

/// The command that the gateway's message handler runs for an alias.
pub fn route(alias: &str) -> (r: Option<CommandId>)
    ensures
        r == route_alias(alias@),
{
    if str_eq(alias, "about") {
        return Some(CommandId::About);
    }
    if str_eq(alias, "dfm") || str_eq(alias, "discordfm") || str_eq(alias, "discord.fm") {
        return Some(CommandId::Dfm);
    }
    if str_eq(alias, "dump") {
        return Some(CommandId::Dump);
    }
    if str_eq(alias, "invite") {
        return Some(CommandId::Invite);
    }
    if str_eq(alias, "join") || str_eq(alias, "j") || str_eq(alias, "connect") {
        return Some(CommandId::Join);
    }
    if str_eq(alias, "leave") || str_eq(alias, "l") || str_eq(alias, "disconnect") || str_eq(alias, "stop") {
        return Some(CommandId::Leave);
    }
    if str_eq(alias, "load") {
        return Some(CommandId::Load);
    }
    if str_eq(alias, "pause") || str_eq(alias, "hold") {
        return Some(CommandId::Pause);
    }
    if str_eq(alias, "ping") {
        return Some(CommandId::Ping);
    }
    if str_eq(alias, "play") || str_eq(alias, "p") {
        return Some(CommandId::Play);
    }
    if str_eq(alias, "playing") || str_eq(alias, "np") || str_eq(alias, "nowplaying") || str_eq(alias, "current") {
        return Some(CommandId::Playing);
    }
    if str_eq(alias, "providers") {
        return Some(CommandId::Providers);
    }
    if str_eq(alias, "queue") || str_eq(alias, "q") || str_eq(alias, "que") {
        return Some(CommandId::Queue);
    }
    if str_eq(alias, "radio") {
        return Some(CommandId::Radio);
    }
    if str_eq(alias, "remove") {
        return Some(CommandId::Remove);
    }
    if str_eq(alias, "restart") {
        return Some(CommandId::Restart);
    }
    if str_eq(alias, "resume") || str_eq(alias, "unpause") {
        return Some(CommandId::Resume);
    }
    if str_eq(alias, "seek") {
        return Some(CommandId::Seek);
    }
    if str_eq(alias, "skip") || str_eq(alias, "s") || str_eq(alias, "next") {
        return Some(CommandId::Skip);
    }
    if str_eq(alias, "soundcloud") || str_eq(alias, "sc") {
        return Some(CommandId::SoundCloud);
    }
    if str_eq(alias, "volume") || str_eq(alias, "v") {
        return Some(CommandId::Volume);
    }
    if str_eq(alias, "youtube") || str_eq(alias, "yt") {
        return Some(CommandId::YouTube);
    }
    None
}

/// Every alias the message handler routes is one of the names its command
/// is registered under.
pub proof fn lemma_route_names(alias: Seq<char>)
    ensures
        route_alias(alias) matches Some(c) ==> command_names(c).contains(alias),
{
    if let Some(c) = route_alias(alias) {
        if alias == "about"@ && c == CommandId::About {
            assert(command_names(c)[0] == alias);
        }
        if alias == "dfm"@ && c == CommandId::Dfm {
            assert(command_names(c)[0] == alias);
        }
        if alias == "discordfm"@ && c == CommandId::Dfm {
            assert(command_names(c)[1] == alias);
        }
        if alias == "discord.fm"@ && c == CommandId::Dfm {
            assert(command_names(c)[2] == alias);
        }
        if alias == "dump"@ && c == CommandId::Dump {
            assert(command_names(c)[0] == alias);
        }
        if alias == "invite"@ && c == CommandId::Invite {
            assert(command_names(c)[0] == alias);
        }
        if alias == "join"@ && c == CommandId::Join {
            assert(command_names(c)[2] == alias);
        }
        if alias == "j"@ && c == CommandId::Join {
            assert(command_names(c)[1] == alias);
        }
        if alias == "connect"@ && c == CommandId::Join {
            assert(command_names(c)[0] == alias);
        }
        if alias == "leave"@ && c == CommandId::Leave {
            assert(command_names(c)[2] == alias);
        }
        if alias == "l"@ && c == CommandId::Leave {
            assert(command_names(c)[1] == alias);
        }
        if alias == "disconnect"@ && c == CommandId::Leave {
            assert(command_names(c)[0] == alias);
        }
        if alias == "stop"@ && c == CommandId::Leave {
            assert(command_names(c)[3] == alias);
        }
        if alias == "load"@ && c == CommandId::Load {
            assert(command_names(c)[0] == alias);
        }
        if alias == "pause"@ && c == CommandId::Pause {
            assert(command_names(c)[1] == alias);
        }
        if alias == "hold"@ && c == CommandId::Pause {
            assert(command_names(c)[0] == alias);
        }
        if alias == "ping"@ && c == CommandId::Ping {
            assert(command_names(c)[0] == alias);
        }
        if alias == "play"@ && c == CommandId::Play {
            assert(command_names(c)[0] == alias);
        }
        if alias == "p"@ && c == CommandId::Play {
            assert(command_names(c)[1] == alias);
        }
        if alias == "playing"@ && c == CommandId::Playing {
            assert(command_names(c)[4] == alias);
        }
        if alias == "np"@ && c == CommandId::Playing {
            assert(command_names(c)[3] == alias);
        }
        if alias == "nowplaying"@ && c == CommandId::Playing {
            assert(command_names(c)[2] == alias);
        }
        if alias == "current"@ && c == CommandId::Playing {
            assert(command_names(c)[0] == alias);
        }
        if alias == "providers"@ && c == CommandId::Providers {
            assert(command_names(c)[0] == alias);
        }
        if alias == "queue"@ && c == CommandId::Queue {
            assert(command_names(c)[0] == alias);
        }
        if alias == "q"@ && c == CommandId::Queue {
            assert(command_names(c)[1] == alias);
        }
        if alias == "que"@ && c == CommandId::Queue {
            assert(command_names(c)[2] == alias);
        }
        if alias == "radio"@ && c == CommandId::Radio {
            assert(command_names(c)[0] == alias);
        }
        if alias == "remove"@ && c == CommandId::Remove {
            assert(command_names(c)[0] == alias);
        }
        if alias == "restart"@ && c == CommandId::Restart {
            assert(command_names(c)[0] == alias);
        }
        if alias == "resume"@ && c == CommandId::Resume {
            assert(command_names(c)[1] == alias);
        }
        if alias == "unpause"@ && c == CommandId::Resume {
            assert(command_names(c)[0] == alias);
        }
        if alias == "seek"@ && c == CommandId::Seek {
            assert(command_names(c)[0] == alias);
        }
        if alias == "skip"@ && c == CommandId::Skip {
            assert(command_names(c)[0] == alias);
        }
        if alias == "s"@ && c == CommandId::Skip {
            assert(command_names(c)[1] == alias);
        }
        if alias == "next"@ && c == CommandId::Skip {
            assert(command_names(c)[2] == alias);
        }
        if alias == "soundcloud"@ && c == CommandId::SoundCloud {
            assert(command_names(c)[0] == alias);
        }
        if alias == "sc"@ && c == CommandId::SoundCloud {
            assert(command_names(c)[1] == alias);
        }
        if alias == "volume"@ && c == CommandId::Volume {
            assert(command_names(c)[0] == alias);
        }
        if alias == "v"@ && c == CommandId::Volume {
            assert(command_names(c)[2] == alias);
        }
        if alias == "youtube"@ && c == CommandId::YouTube {
            assert(command_names(c)[0] == alias);
        }
        if alias == "yt"@ && c == CommandId::YouTube {
            assert(command_names(c)[1] == alias);
        }
    }
}

/// Every name the commands are registered under, in registration order.
pub open spec fn registered_names() -> Seq<Seq<char>> {
    seq![
        "about"@, "info"@, "cancel"@, "choose"@, "c"@, "chose"@, "clear"@, "dfm"@, "discordfm"@,
        "discord.fm"@, "d.fm"@, "dump"@, "help"@, "h"@, "invite"@, "inv"@, "connect"@, "j"@,
        "join"@, "disconnect"@, "l"@, "leave"@, "stop"@, "load"@, "hold"@, "pause"@, "ping"@,
        "play"@, "p"@, "search"@, "current"@, "currently"@, "nowplaying"@, "np"@, "playing"@,
        "providers"@, "queue"@, "q"@, "que"@, "radio"@, "radios"@, "r"@, "remove"@, "rm"@,
        "restart"@, "rs"@, "unpause"@, "resume"@, "seek"@, "jump"@, "shuffle"@, "shufle"@, "skip"@,
        "s"@, "next"@, "soundcloud"@, "sc"@, "volume"@, "vol"@, "v"@, "youtube"@, "yt"@,
    ]
}

/// The characters of each registered name.
proof fn lemma_name_chars()
    ensures
        "about"@.len() == 5 && "about"@[0] == 'a' && "about"@[1] == 'b' && "about"@[2] == 'o'
            && "about"@[3] == 'u' && "about"@[4] == 't',
        "info"@.len() == 4 && "info"@[0] == 'i' && "info"@[1] == 'n' && "info"@[2] == 'f'
            && "info"@[3] == 'o',
        "cancel"@.len() == 6 && "cancel"@[0] == 'c' && "cancel"@[1] == 'a' && "cancel"@[2] == 'n'
            && "cancel"@[3] == 'c' && "cancel"@[4] == 'e' && "cancel"@[5] == 'l',
        "choose"@.len() == 6 && "choose"@[0] == 'c' && "choose"@[1] == 'h' && "choose"@[2] == 'o'
            && "choose"@[3] == 'o' && "choose"@[4] == 's' && "choose"@[5] == 'e',
        "c"@.len() == 1 && "c"@[0] == 'c',
        "chose"@.len() == 5 && "chose"@[0] == 'c' && "chose"@[1] == 'h' && "chose"@[2] == 'o'
            && "chose"@[3] == 's' && "chose"@[4] == 'e',
        "clear"@.len() == 5 && "clear"@[0] == 'c' && "clear"@[1] == 'l' && "clear"@[2] == 'e'
            && "clear"@[3] == 'a' && "clear"@[4] == 'r',
        "dfm"@.len() == 3 && "dfm"@[0] == 'd' && "dfm"@[1] == 'f' && "dfm"@[2] == 'm',
        "discordfm"@.len() == 9 && "discordfm"@[0] == 'd' && "discordfm"@[1] == 'i'
            && "discordfm"@[2] == 's' && "discordfm"@[3] == 'c' && "discordfm"@[4] == 'o'
            && "discordfm"@[5] == 'r' && "discordfm"@[6] == 'd' && "discordfm"@[7] == 'f'
            && "discordfm"@[8] == 'm',
        "discord.fm"@.len() == 10 && "discord.fm"@[0] == 'd' && "discord.fm"@[1] == 'i'
            && "discord.fm"@[2] == 's' && "discord.fm"@[3] == 'c' && "discord.fm"@[4] == 'o'
            && "discord.fm"@[5] == 'r' && "discord.fm"@[6] == 'd' && "discord.fm"@[7] == '.'
            && "discord.fm"@[8] == 'f' && "discord.fm"@[9] == 'm',
        "d.fm"@.len() == 4 && "d.fm"@[0] == 'd' && "d.fm"@[1] == '.' && "d.fm"@[2] == 'f'
            && "d.fm"@[3] == 'm',
        "dump"@.len() == 4 && "dump"@[0] == 'd' && "dump"@[1] == 'u' && "dump"@[2] == 'm'
            && "dump"@[3] == 'p',
        "help"@.len() == 4 && "help"@[0] == 'h' && "help"@[1] == 'e' && "help"@[2] == 'l'
            && "help"@[3] == 'p',
        "h"@.len() == 1 && "h"@[0] == 'h',
        "invite"@.len() == 6 && "invite"@[0] == 'i' && "invite"@[1] == 'n' && "invite"@[2] == 'v'
            && "invite"@[3] == 'i' && "invite"@[4] == 't' && "invite"@[5] == 'e',
        "inv"@.len() == 3 && "inv"@[0] == 'i' && "inv"@[1] == 'n' && "inv"@[2] == 'v',
        "connect"@.len() == 7 && "connect"@[0] == 'c' && "connect"@[1] == 'o'
            && "connect"@[2] == 'n' && "connect"@[3] == 'n' && "connect"@[4] == 'e'
            && "connect"@[5] == 'c' && "connect"@[6] == 't',
        "j"@.len() == 1 && "j"@[0] == 'j',
        "join"@.len() == 4 && "join"@[0] == 'j' && "join"@[1] == 'o' && "join"@[2] == 'i'
            && "join"@[3] == 'n',
        "disconnect"@.len() == 10 && "disconnect"@[0] == 'd' && "disconnect"@[1] == 'i'
            && "disconnect"@[2] == 's' && "disconnect"@[3] == 'c' && "disconnect"@[4] == 'o'
            && "disconnect"@[5] == 'n' && "disconnect"@[6] == 'n' && "disconnect"@[7] == 'e'
            && "disconnect"@[8] == 'c' && "disconnect"@[9] == 't',
        "l"@.len() == 1 && "l"@[0] == 'l',
        "leave"@.len() == 5 && "leave"@[0] == 'l' && "leave"@[1] == 'e' && "leave"@[2] == 'a'
            && "leave"@[3] == 'v' && "leave"@[4] == 'e',
        "stop"@.len() == 4 && "stop"@[0] == 's' && "stop"@[1] == 't' && "stop"@[2] == 'o'
            && "stop"@[3] == 'p',
        "load"@.len() == 4 && "load"@[0] == 'l' && "load"@[1] == 'o' && "load"@[2] == 'a'
            && "load"@[3] == 'd',
        "hold"@.len() == 4 && "hold"@[0] == 'h' && "hold"@[1] == 'o' && "hold"@[2] == 'l'
            && "hold"@[3] == 'd',
        "pause"@.len() == 5 && "pause"@[0] == 'p' && "pause"@[1] == 'a' && "pause"@[2] == 'u'
            && "pause"@[3] == 's' && "pause"@[4] == 'e',
        "ping"@.len() == 4 && "ping"@[0] == 'p' && "ping"@[1] == 'i' && "ping"@[2] == 'n'
            && "ping"@[3] == 'g',
        "play"@.len() == 4 && "play"@[0] == 'p' && "play"@[1] == 'l' && "play"@[2] == 'a'
            && "play"@[3] == 'y',
        "p"@.len() == 1 && "p"@[0] == 'p',
        "search"@.len() == 6 && "search"@[0] == 's' && "search"@[1] == 'e' && "search"@[2] == 'a'
            && "search"@[3] == 'r' && "search"@[4] == 'c' && "search"@[5] == 'h',
        "current"@.len() == 7 && "current"@[0] == 'c' && "current"@[1] == 'u'
            && "current"@[2] == 'r' && "current"@[3] == 'r' && "current"@[4] == 'e'
            && "current"@[5] == 'n' && "current"@[6] == 't',
        "currently"@.len() == 9 && "currently"@[0] == 'c' && "currently"@[1] == 'u'
            && "currently"@[2] == 'r' && "currently"@[3] == 'r' && "currently"@[4] == 'e'
            && "currently"@[5] == 'n' && "currently"@[6] == 't' && "currently"@[7] == 'l'
            && "currently"@[8] == 'y',
        "nowplaying"@.len() == 10 && "nowplaying"@[0] == 'n' && "nowplaying"@[1] == 'o'
            && "nowplaying"@[2] == 'w' && "nowplaying"@[3] == 'p' && "nowplaying"@[4] == 'l'
            && "nowplaying"@[5] == 'a' && "nowplaying"@[6] == 'y' && "nowplaying"@[7] == 'i'
            && "nowplaying"@[8] == 'n' && "nowplaying"@[9] == 'g',
        "np"@.len() == 2 && "np"@[0] == 'n' && "np"@[1] == 'p',
        "playing"@.len() == 7 && "playing"@[0] == 'p' && "playing"@[1] == 'l'
            && "playing"@[2] == 'a' && "playing"@[3] == 'y' && "playing"@[4] == 'i'
            && "playing"@[5] == 'n' && "playing"@[6] == 'g',
        "providers"@.len() == 9 && "providers"@[0] == 'p' && "providers"@[1] == 'r'
            && "providers"@[2] == 'o' && "providers"@[3] == 'v' && "providers"@[4] == 'i'
            && "providers"@[5] == 'd' && "providers"@[6] == 'e' && "providers"@[7] == 'r'
            && "providers"@[8] == 's',
        "queue"@.len() == 5 && "queue"@[0] == 'q' && "queue"@[1] == 'u' && "queue"@[2] == 'e'
            && "queue"@[3] == 'u' && "queue"@[4] == 'e',
        "q"@.len() == 1 && "q"@[0] == 'q',
        "que"@.len() == 3 && "que"@[0] == 'q' && "que"@[1] == 'u' && "que"@[2] == 'e',
        "radio"@.len() == 5 && "radio"@[0] == 'r' && "radio"@[1] == 'a' && "radio"@[2] == 'd'
            && "radio"@[3] == 'i' && "radio"@[4] == 'o',
        "radios"@.len() == 6 && "radios"@[0] == 'r' && "radios"@[1] == 'a' && "radios"@[2] == 'd'
            && "radios"@[3] == 'i' && "radios"@[4] == 'o' && "radios"@[5] == 's',
        "r"@.len() == 1 && "r"@[0] == 'r',
        "remove"@.len() == 6 && "remove"@[0] == 'r' && "remove"@[1] == 'e' && "remove"@[2] == 'm'
            && "remove"@[3] == 'o' && "remove"@[4] == 'v' && "remove"@[5] == 'e',
        "rm"@.len() == 2 && "rm"@[0] == 'r' && "rm"@[1] == 'm',
        "restart"@.len() == 7 && "restart"@[0] == 'r' && "restart"@[1] == 'e'
            && "restart"@[2] == 's' && "restart"@[3] == 't' && "restart"@[4] == 'a'
            && "restart"@[5] == 'r' && "restart"@[6] == 't',
        "rs"@.len() == 2 && "rs"@[0] == 'r' && "rs"@[1] == 's',
        "unpause"@.len() == 7 && "unpause"@[0] == 'u' && "unpause"@[1] == 'n'
            && "unpause"@[2] == 'p' && "unpause"@[3] == 'a' && "unpause"@[4] == 'u'
            && "unpause"@[5] == 's' && "unpause"@[6] == 'e',
        "resume"@.len() == 6 && "resume"@[0] == 'r' && "resume"@[1] == 'e' && "resume"@[2] == 's'
            && "resume"@[3] == 'u' && "resume"@[4] == 'm' && "resume"@[5] == 'e',
        "seek"@.len() == 4 && "seek"@[0] == 's' && "seek"@[1] == 'e' && "seek"@[2] == 'e'
            && "seek"@[3] == 'k',
        "jump"@.len() == 4 && "jump"@[0] == 'j' && "jump"@[1] == 'u' && "jump"@[2] == 'm'
            && "jump"@[3] == 'p',
        "shuffle"@.len() == 7 && "shuffle"@[0] == 's' && "shuffle"@[1] == 'h'
            && "shuffle"@[2] == 'u' && "shuffle"@[3] == 'f' && "shuffle"@[4] == 'f'
            && "shuffle"@[5] == 'l' && "shuffle"@[6] == 'e',
        "shufle"@.len() == 6 && "shufle"@[0] == 's' && "shufle"@[1] == 'h' && "shufle"@[2] == 'u'
            && "shufle"@[3] == 'f' && "shufle"@[4] == 'l' && "shufle"@[5] == 'e',
        "skip"@.len() == 4 && "skip"@[0] == 's' && "skip"@[1] == 'k' && "skip"@[2] == 'i'
            && "skip"@[3] == 'p',
        "s"@.len() == 1 && "s"@[0] == 's',
        "next"@.len() == 4 && "next"@[0] == 'n' && "next"@[1] == 'e' && "next"@[2] == 'x'
            && "next"@[3] == 't',
        "soundcloud"@.len() == 10 && "soundcloud"@[0] == 's' && "soundcloud"@[1] == 'o'
            && "soundcloud"@[2] == 'u' && "soundcloud"@[3] == 'n' && "soundcloud"@[4] == 'd'
            && "soundcloud"@[5] == 'c' && "soundcloud"@[6] == 'l' && "soundcloud"@[7] == 'o'
            && "soundcloud"@[8] == 'u' && "soundcloud"@[9] == 'd',
        "sc"@.len() == 2 && "sc"@[0] == 's' && "sc"@[1] == 'c',
        "volume"@.len() == 6 && "volume"@[0] == 'v' && "volume"@[1] == 'o' && "volume"@[2] == 'l'
            && "volume"@[3] == 'u' && "volume"@[4] == 'm' && "volume"@[5] == 'e',
        "vol"@.len() == 3 && "vol"@[0] == 'v' && "vol"@[1] == 'o' && "vol"@[2] == 'l',
        "v"@.len() == 1 && "v"@[0] == 'v',
        "youtube"@.len() == 7 && "youtube"@[0] == 'y' && "youtube"@[1] == 'o'
            && "youtube"@[2] == 'u' && "youtube"@[3] == 't' && "youtube"@[4] == 'u'
            && "youtube"@[5] == 'b' && "youtube"@[6] == 'e',
        "yt"@.len() == 2 && "yt"@[0] == 'y' && "yt"@[1] == 't',
{
    reveal_strlit("about");
    reveal_strlit("info");
    reveal_strlit("cancel");
    reveal_strlit("choose");
    reveal_strlit("c");
    reveal_strlit("chose");
    reveal_strlit("clear");
    reveal_strlit("dfm");
    reveal_strlit("discordfm");
    reveal_strlit("discord.fm");
    reveal_strlit("d.fm");
    reveal_strlit("dump");
    reveal_strlit("help");
    reveal_strlit("h");
    reveal_strlit("invite");
    reveal_strlit("inv");
    reveal_strlit("connect");
    reveal_strlit("j");
    reveal_strlit("join");
    reveal_strlit("disconnect");
    reveal_strlit("l");
    reveal_strlit("leave");
    reveal_strlit("stop");
    reveal_strlit("load");
    reveal_strlit("hold");
    reveal_strlit("pause");
    reveal_strlit("ping");
    reveal_strlit("play");
    reveal_strlit("p");
    reveal_strlit("search");
    reveal_strlit("current");
    reveal_strlit("currently");
    reveal_strlit("nowplaying");
    reveal_strlit("np");
    reveal_strlit("playing");
    reveal_strlit("providers");
    reveal_strlit("queue");
    reveal_strlit("q");
    reveal_strlit("que");
    reveal_strlit("radio");
    reveal_strlit("radios");
    reveal_strlit("r");
    reveal_strlit("remove");
    reveal_strlit("rm");
    reveal_strlit("restart");
    reveal_strlit("rs");
    reveal_strlit("unpause");
    reveal_strlit("resume");
    reveal_strlit("seek");
    reveal_strlit("jump");
    reveal_strlit("shuffle");
    reveal_strlit("shufle");
    reveal_strlit("skip");
    reveal_strlit("s");
    reveal_strlit("next");
    reveal_strlit("soundcloud");
    reveal_strlit("sc");
    reveal_strlit("volume");
    reveal_strlit("vol");
    reveal_strlit("v");
    reveal_strlit("youtube");
    reveal_strlit("yt");
}

proof fn lemma_registered_names_distinct()
    ensures
        registered_names().no_duplicates(),
{
    lemma_name_chars();
    let s = registered_names();
    assert(s[0] == "about"@);
    assert(s[1] == "info"@);
    assert(s[2] == "cancel"@);
    assert(s[3] == "choose"@);
    assert(s[4] == "c"@);
    assert(s[5] == "chose"@);
    assert(s[6] == "clear"@);
    assert(s[7] == "dfm"@);
    assert(s[8] == "discordfm"@);
    assert(s[9] == "discord.fm"@);
    assert(s[10] == "d.fm"@);
    assert(s[11] == "dump"@);
    assert(s[12] == "help"@);
    assert(s[13] == "h"@);
    assert(s[14] == "invite"@);
    assert(s[15] == "inv"@);
    assert(s[16] == "connect"@);
    assert(s[17] == "j"@);
    assert(s[18] == "join"@);
    assert(s[19] == "disconnect"@);
    assert(s[20] == "l"@);
    assert(s[21] == "leave"@);
    assert(s[22] == "stop"@);
    assert(s[23] == "load"@);
    assert(s[24] == "hold"@);
    assert(s[25] == "pause"@);
    assert(s[26] == "ping"@);
    assert(s[27] == "play"@);
    assert(s[28] == "p"@);
    assert(s[29] == "search"@);
    assert(s[30] == "current"@);
    assert(s[31] == "currently"@);
    assert(s[32] == "nowplaying"@);
    assert(s[33] == "np"@);
    assert(s[34] == "playing"@);
    assert(s[35] == "providers"@);
    assert(s[36] == "queue"@);
    assert(s[37] == "q"@);
    assert(s[38] == "que"@);
    assert(s[39] == "radio"@);
    assert(s[40] == "radios"@);
    assert(s[41] == "r"@);
    assert(s[42] == "remove"@);
    assert(s[43] == "rm"@);
    assert(s[44] == "restart"@);
    assert(s[45] == "rs"@);
    assert(s[46] == "unpause"@);
    assert(s[47] == "resume"@);
    assert(s[48] == "seek"@);
    assert(s[49] == "jump"@);
    assert(s[50] == "shuffle"@);
    assert(s[51] == "shufle"@);
    assert(s[52] == "skip"@);
    assert(s[53] == "s"@);
    assert(s[54] == "next"@);
    assert(s[55] == "soundcloud"@);
    assert(s[56] == "sc"@);
    assert(s[57] == "volume"@);
    assert(s[58] == "vol"@);
    assert(s[59] == "v"@);
    assert(s[60] == "youtube"@);
    assert(s[61] == "yt"@);
}

/// The names of `cs`, command by command, names in order.
pub open spec fn registry_names(cs: Seq<CommandId>) -> Seq<Seq<char>>
    decreases cs.len(),
{
    if cs.len() == 0 {
        Seq::empty()
    } else {
        registry_names(cs.drop_last()) + command_names(cs.last())
    }
}

proof fn lemma_registry_entry_names(cs: Seq<CommandId>)
    ensures
        registry_entries(cs).map_values(|e: (Seq<char>, CommandId)| e.0) == registry_names(cs),
    decreases cs.len(),
{
    if cs.len() > 0 {
        lemma_registry_entry_names(cs.drop_last());
        let c = cs.last();
        assert(command_names(c).map_values(|n: Seq<char>| (n, c)).map_values(|e: (Seq<char>, CommandId)| e.0)
            =~= command_names(c));
        assert(registry_entries(cs).map_values(|e: (Seq<char>, CommandId)| e.0) =~= registry_entries(
            cs.drop_last(),
        ).map_values(|e: (Seq<char>, CommandId)| e.0) + command_names(c).map_values(|n: Seq<char>| (n, c)).map_values(
            |e: (Seq<char>, CommandId)| e.0,
        ));
    } else {
        assert(registry_entries(cs).map_values(|e: (Seq<char>, CommandId)| e.0) =~= registry_names(cs));
    }
}

proof fn lemma_registry_keys()
    ensures
        registry_entries(all_commands()).map_values(|e: (Seq<char>, CommandId)| e.0) == registered_names(),
{
    lemma_registry_entry_names(all_commands());
    reveal_with_fuel(registry_names, 28);
    assert(registry_names(all_commands()) =~= registered_names());
}

proof fn lemma_registry_contains(cs: Seq<CommandId>, p: int, i: int) -> (k: int)
    requires
        0 <= p < cs.len(),
        0 <= i < command_names(cs[p]).len(),
    ensures
        0 <= k < registry_entries(cs).len(),
        registry_entries(cs)[k] == (command_names(cs[p])[i], cs[p]),
    decreases cs.len(),
{
    let rest = registry_entries(cs.drop_last());
    if p == cs.len() - 1 {
        rest.len() + i
    } else {
        lemma_registry_contains(cs.drop_last(), p, i)
    }
}

proof fn lemma_last_value_distinct<V>(entries: Seq<(Seq<char>, V)>, k: int)
    requires
        distinct_keys(entries),
        0 <= k < entries.len(),
    ensures
        last_value_for(entries, entries[k].0) == Some(entries[k].1),
    decreases entries.len(),
{
    if k < entries.len() - 1 {
        assert(entries.last() == entries[entries.len() - 1]);
        lemma_last_value_distinct(entries.drop_last(), k);
    }
}

/// No two entries of the registry share a name.
proof fn lemma_registry_distinct()
    ensures
        distinct_keys(registry_entries(all_commands())),
{
    let e = registry_entries(all_commands());
    lemma_registered_names_distinct();
    lemma_registry_keys();
    assert forall|a: int, b: int| 0 <= a < e.len() && 0 <= b < e.len() && a != b implies e[a].0 != e[b].0 by {
        assert(e.map_values(|x: (Seq<char>, CommandId)| x.0)[a] == e[a].0);
        assert(e.map_values(|x: (Seq<char>, CommandId)| x.0)[b] == e[b].0);
    }
}

/// The command table holds exactly one entry per registered name: its keys
/// are the registered names in registration order, 62 of them, each with its
/// command.
pub proof fn lemma_registry_table()
    ensures
        table_of(registry_entries(all_commands())) == registry_entries(all_commands()),
        registry_entries(all_commands()).map_values(|e: (Seq<char>, CommandId)| e.0) == registered_names(),
        registered_names().len() == 62,
{
    lemma_registry_distinct();
    lemma_table_of_distinct_entries(registry_entries(all_commands()));
    lemma_registry_keys();
}

/// Every name a command is registered under leads back to that command in
/// the command table: no two commands share a name.
pub proof fn lemma_registry_lookup(c: CommandId, i: int)
    requires
        0 <= i < command_names(c).len(),
    ensures
        lookup(table_of(registry_entries(all_commands())), command_names(c)[i]) == Some(c),
{
    let cs = all_commands();
    let p: int = match c {
        CommandId::About => 0,
        CommandId::Cancel => 1,
        CommandId::Choose => 2,
        CommandId::Clear => 3,
        CommandId::Dfm => 4,
        CommandId::Dump => 5,
        CommandId::Help => 6,
        CommandId::Invite => 7,
        CommandId::Join => 8,
        CommandId::Leave => 9,
        CommandId::Load => 10,
        CommandId::Pause => 11,
        CommandId::Ping => 12,
        CommandId::Play => 13,
        CommandId::Playing => 14,
        CommandId::Providers => 15,
        CommandId::Queue => 16,
        CommandId::Radio => 17,
        CommandId::Remove => 18,
        CommandId::Restart => 19,
        CommandId::Resume => 20,
        CommandId::Seek => 21,
        CommandId::Shuffle => 22,
        CommandId::Skip => 23,
        CommandId::SoundCloud => 24,
        CommandId::Volume => 25,
        CommandId::YouTube => 26,
    };
    assert(cs[p] == c);
    let e = registry_entries(cs);
    let k = lemma_registry_contains(cs, p, i);
    lemma_registry_distinct();
    lemma_last_value_distinct(e, k);
    lemma_table_of_lookup(e, command_names(c)[i]);
}

/// The message handler and the command table agree: an alias the handler
/// routes to a command finds that same command in the table.
pub proof fn lemma_route_agrees_with_table(alias: Seq<char>)
    ensures
        route_alias(alias) matches Some(c) ==> lookup(table_of(registry_entries(all_commands())), alias)
            == Some(c),
{
    if let Some(c) = route_alias(alias) {
        lemma_route_names(alias);
        let i = choose|i: int| 0 <= i < command_names(c).len() && command_names(c)[i] == alias;
        lemma_registry_lookup(c, i);
    }
}

/// The registered names that the message handler does not route: the
/// commands cancel, choose, clear, help and shuffle, and some shorter or
/// alternative names of the others.
pub open spec fn unrouted_names() -> Set<Seq<char>> {
    set![
        "info"@, "cancel"@, "choose"@, "c"@, "chose"@, "clear"@, "d.fm"@, "help"@, "h"@, "inv"@,
        "search"@, "currently"@, "radios"@, "r"@, "rm"@, "rs"@, "jump"@, "shuffle"@, "shufle"@,
        "vol"@,
    ]
}

proof fn lemma_route_each()
    ensures
        route_alias("about"@) == Some(CommandId::About),
        route_alias("dfm"@) == Some(CommandId::Dfm),
        route_alias("discordfm"@) == Some(CommandId::Dfm),
        route_alias("discord.fm"@) == Some(CommandId::Dfm),
        route_alias("dump"@) == Some(CommandId::Dump),
        route_alias("invite"@) == Some(CommandId::Invite),
        route_alias("connect"@) == Some(CommandId::Join),
        route_alias("j"@) == Some(CommandId::Join),
        route_alias("join"@) == Some(CommandId::Join),
        route_alias("disconnect"@) == Some(CommandId::Leave),
        route_alias("l"@) == Some(CommandId::Leave),
        route_alias("leave"@) == Some(CommandId::Leave),
        route_alias("stop"@) == Some(CommandId::Leave),
        route_alias("load"@) == Some(CommandId::Load),
        route_alias("hold"@) == Some(CommandId::Pause),
        route_alias("pause"@) == Some(CommandId::Pause),
        route_alias("ping"@) == Some(CommandId::Ping),
        route_alias("play"@) == Some(CommandId::Play),
        route_alias("p"@) == Some(CommandId::Play),
        route_alias("current"@) == Some(CommandId::Playing),
        route_alias("nowplaying"@) == Some(CommandId::Playing),
        route_alias("np"@) == Some(CommandId::Playing),
        route_alias("playing"@) == Some(CommandId::Playing),
        route_alias("providers"@) == Some(CommandId::Providers),
        route_alias("queue"@) == Some(CommandId::Queue),
        route_alias("q"@) == Some(CommandId::Queue),
        route_alias("que"@) == Some(CommandId::Queue),
        route_alias("radio"@) == Some(CommandId::Radio),
        route_alias("remove"@) == Some(CommandId::Remove),
        route_alias("restart"@) == Some(CommandId::Restart),
        route_alias("unpause"@) == Some(CommandId::Resume),
        route_alias("resume"@) == Some(CommandId::Resume),
        route_alias("seek"@) == Some(CommandId::Seek),
        route_alias("skip"@) == Some(CommandId::Skip),
        route_alias("s"@) == Some(CommandId::Skip),
        route_alias("next"@) == Some(CommandId::Skip),
        route_alias("soundcloud"@) == Some(CommandId::SoundCloud),
        route_alias("sc"@) == Some(CommandId::SoundCloud),
        route_alias("volume"@) == Some(CommandId::Volume),
        route_alias("v"@) == Some(CommandId::Volume),
        route_alias("youtube"@) == Some(CommandId::YouTube),
        route_alias("yt"@) == Some(CommandId::YouTube),
{
    lemma_name_chars();
}

/// Every name a command is registered under is routed by the message
/// handler to that command, but for the names it does not take (and
/// `lemma_route_names` gives the converse: a routed alias is one of its
/// command's names).
pub proof fn lemma_route_covers_names(c: CommandId, i: int)
    requires
        0 <= i < command_names(c).len(),
    ensures
        !unrouted_names().contains(command_names(c)[i]) ==> route_alias(command_names(c)[i]) == Some(c),
{
    lemma_route_each();
    lemma_name_chars();
    match c {
        CommandId::About => {
            assert(i == 0 ==> command_names(c)[i] == "about"@);
            assert(i == 1 ==> command_names(c)[i] == "info"@);
            assert(i == 0 || i == 1);
        },
        CommandId::Cancel => {
            assert(i == 0 ==> command_names(c)[i] == "cancel"@);
            assert(i == 0);
        },
        CommandId::Choose => {
            assert(i == 0 ==> command_names(c)[i] == "choose"@);
            assert(i == 1 ==> command_names(c)[i] == "c"@);
            assert(i == 2 ==> command_names(c)[i] == "chose"@);
            assert(i == 0 || i == 1 || i == 2);
        },
        CommandId::Clear => {
            assert(i == 0 ==> command_names(c)[i] == "clear"@);
            assert(i == 0);
        },
        CommandId::Dfm => {
            assert(i == 0 ==> command_names(c)[i] == "dfm"@);
            assert(i == 1 ==> command_names(c)[i] == "discordfm"@);
            assert(i == 2 ==> command_names(c)[i] == "discord.fm"@);
            assert(i == 3 ==> command_names(c)[i] == "d.fm"@);
            assert(i == 0 || i == 1 || i == 2 || i == 3);
        },
        CommandId::Dump => {
            assert(i == 0 ==> command_names(c)[i] == "dump"@);
            assert(i == 0);
        },
        CommandId::Help => {
            assert(i == 0 ==> command_names(c)[i] == "help"@);
            assert(i == 1 ==> command_names(c)[i] == "h"@);
            assert(i == 0 || i == 1);
        },
        CommandId::Invite => {
            assert(i == 0 ==> command_names(c)[i] == "invite"@);
            assert(i == 1 ==> command_names(c)[i] == "inv"@);
            assert(i == 0 || i == 1);
        },
        CommandId::Join => {
            assert(i == 0 ==> command_names(c)[i] == "connect"@);
            assert(i == 1 ==> command_names(c)[i] == "j"@);
            assert(i == 2 ==> command_names(c)[i] == "join"@);
            assert(i == 0 || i == 1 || i == 2);
        },
        CommandId::Leave => {
            assert(i == 0 ==> command_names(c)[i] == "disconnect"@);
            assert(i == 1 ==> command_names(c)[i] == "l"@);
            assert(i == 2 ==> command_names(c)[i] == "leave"@);
            assert(i == 3 ==> command_names(c)[i] == "stop"@);
            assert(i == 0 || i == 1 || i == 2 || i == 3);
        },
        CommandId::Load => {
            assert(i == 0 ==> command_names(c)[i] == "load"@);
            assert(i == 0);
        },
        CommandId::Pause => {
            assert(i == 0 ==> command_names(c)[i] == "hold"@);
            assert(i == 1 ==> command_names(c)[i] == "pause"@);
            assert(i == 0 || i == 1);
        },
        CommandId::Ping => {
            assert(i == 0 ==> command_names(c)[i] == "ping"@);
            assert(i == 0);
        },
        CommandId::Play => {
            assert(i == 0 ==> command_names(c)[i] == "play"@);
            assert(i == 1 ==> command_names(c)[i] == "p"@);
            assert(i == 2 ==> command_names(c)[i] == "search"@);
            assert(i == 0 || i == 1 || i == 2);
        },
        CommandId::Playing => {
            assert(i == 0 ==> command_names(c)[i] == "current"@);
            assert(i == 1 ==> command_names(c)[i] == "currently"@);
            assert(i == 2 ==> command_names(c)[i] == "nowplaying"@);
            assert(i == 3 ==> command_names(c)[i] == "np"@);
            assert(i == 4 ==> command_names(c)[i] == "playing"@);
            assert(i == 0 || i == 1 || i == 2 || i == 3 || i == 4);
        },
        CommandId::Providers => {
            assert(i == 0 ==> command_names(c)[i] == "providers"@);
            assert(i == 0);
        },
        CommandId::Queue => {
            assert(i == 0 ==> command_names(c)[i] == "queue"@);
            assert(i == 1 ==> command_names(c)[i] == "q"@);
            assert(i == 2 ==> command_names(c)[i] == "que"@);
            assert(i == 0 || i == 1 || i == 2);
        },
        CommandId::Radio => {
            assert(i == 0 ==> command_names(c)[i] == "radio"@);
            assert(i == 1 ==> command_names(c)[i] == "radios"@);
            assert(i == 2 ==> command_names(c)[i] == "r"@);
            assert(i == 0 || i == 1 || i == 2);
        },
        CommandId::Remove => {
            assert(i == 0 ==> command_names(c)[i] == "remove"@);
            assert(i == 1 ==> command_names(c)[i] == "rm"@);
            assert(i == 0 || i == 1);
        },
        CommandId::Restart => {
            assert(i == 0 ==> command_names(c)[i] == "restart"@);
            assert(i == 1 ==> command_names(c)[i] == "rs"@);
            assert(i == 0 || i == 1);
        },
        CommandId::Resume => {
            assert(i == 0 ==> command_names(c)[i] == "unpause"@);
            assert(i == 1 ==> command_names(c)[i] == "resume"@);
            assert(i == 0 || i == 1);
        },
        CommandId::Seek => {
            assert(i == 0 ==> command_names(c)[i] == "seek"@);
            assert(i == 1 ==> command_names(c)[i] == "jump"@);
            assert(i == 0 || i == 1);
        },
        CommandId::Shuffle => {
            assert(i == 0 ==> command_names(c)[i] == "shuffle"@);
            assert(i == 1 ==> command_names(c)[i] == "shufle"@);
            assert(i == 0 || i == 1);
        },
        CommandId::Skip => {
            assert(i == 0 ==> command_names(c)[i] == "skip"@);
            assert(i == 1 ==> command_names(c)[i] == "s"@);
            assert(i == 2 ==> command_names(c)[i] == "next"@);
            assert(i == 0 || i == 1 || i == 2);
        },
        CommandId::SoundCloud => {
            assert(i == 0 ==> command_names(c)[i] == "soundcloud"@);
            assert(i == 1 ==> command_names(c)[i] == "sc"@);
            assert(i == 0 || i == 1);
        },
        CommandId::Volume => {
            assert(i == 0 ==> command_names(c)[i] == "volume"@);
            assert(i == 1 ==> command_names(c)[i] == "vol"@);
            assert(i == 2 ==> command_names(c)[i] == "v"@);
            assert(i == 0 || i == 1 || i == 2);
        },
        CommandId::YouTube => {
            assert(i == 0 ==> command_names(c)[i] == "youtube"@);
            assert(i == 1 ==> command_names(c)[i] == "yt"@);
            assert(i == 0 || i == 1);
        },
    }
}

} // verus!
