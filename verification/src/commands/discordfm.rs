//! `dfm`: queues a Discord.FM playlist, or lists the playlists.
use vstd::prelude::*;
use crate::discord_fm::{DiscordFm, PlaylistItem};
use crate::error::Error;
use crate::table::lookup;
use crate::text::{decimal, join, join_strings, lowercase, owned, push_decimal, to_lowercase, views};
use super::{Command, CommandResult, Context, Response, is_reply, strs};

verus! {

pub struct DfmCommand;

pub open spec fn usage_text(prefix: Seq<char>, list: Seq<char>) -> Seq<char> {
    "Uses a song playlist from the now defunct Discord.FM\nUsage: `"@ + prefix
        + "dfm <library>`\n\n**Available libraries:**\n"@ + list
}

pub open spec fn invalid_text(prefix: Seq<char>) -> Seq<char> {
    "Invalid library! Use `"@ + prefix + "dfm` to see usage & libraries."@
}

pub open spec fn added_text(name: Seq<char>, count: nat) -> Seq<char> {
    "Added "@ + name + " ("@ + decimal(count) + " songs) to the song queue."@
}

/// The track blobs of a playlist, in order.
pub open spec fn item_tracks<I>(items: Seq<PlaylistItem<I>>) -> Seq<Seq<char>> {
    items.map_values(|item: PlaylistItem<I>| item.track@)
}

/// What `dfm` does next.
pub enum DfmPlan {
    Reply(CommandResult),
    /// Queue `tracks` in the guild; `name` is the playlist's name.
    Add { guild_id: u64, name: String, tracks: Vec<String> },
}

impl DfmCommand {
    pub fn plan<I>(ctx: &Context, fm: &DiscordFm<I>) -> (r: DfmPlan)
        ensures
            ctx.args.len() == 0 ==> match ctx.prefix {
                Some(p) => r matches DfmPlan::Reply(res) && is_reply(res, usage_text(p@, fm.list@)),
                None => r matches DfmPlan::Reply(Err(Error::Missing)),
            },
            ctx.args.len() > 0 && ctx.guild_id is None ==> r matches DfmPlan::Reply(Err(Error::Missing)),
            ctx.args.len() > 0 && ctx.guild_id is Some ==> {
                let key = lowercase(join(views(ctx.args@), " "@));
                match lookup(fm.libraries.pairs(), key) {
                    Some(lib) => r matches DfmPlan::Add { guild_id, name, tracks } && guild_id == ctx.guild_id->0
                        && name@ == lib.name@ && views(tracks@) == item_tracks(lib.items@),
                    None => match ctx.prefix {
                        Some(p) => r matches DfmPlan::Reply(res) && is_reply(res, invalid_text(p@)),
                        None => r matches DfmPlan::Reply(Err(Error::Missing)),
                    },
                }
            },
    {
        if ctx.args.len() == 0 {
            return match ctx.prefix() {
                None => DfmPlan::Reply(Err(Error::Missing)),
                Some(p) => {
                    let mut s = owned("Uses a song playlist from the now defunct Discord.FM\nUsage: `");
                    s.append(p);
                    s.append("dfm <library>`\n\n**Available libraries:**\n");
                    s.append(fm.list.as_str());
                    DfmPlan::Reply(Response::_text(s))
                },
            };
        }
        let guild_id = match ctx.guild_id() {
            Some(g) => g,
            None => {
                return DfmPlan::Reply(Err(Error::Missing));
            },
        };
        let joined = join_strings(&ctx.args, " ");
        let query = to_lowercase(joined.as_str());
        match fm.get(query.as_str()) {
            None => match ctx.prefix() {
                None => DfmPlan::Reply(Err(Error::Missing)),
                Some(p) => {
                    let mut s = owned("Invalid library! Use `");
                    s.append(p);
                    s.append("dfm` to see usage & libraries.");
                    DfmPlan::Reply(Response::_text(s))
                },
            },
            Some(library) => {
                let mut tracks: Vec<String> = Vec::new();
                let mut i: usize = 0;
                while i < library.items.len()
                    invariant
                        i <= library.items@.len(),
                        views(tracks@) == item_tracks(library.items@).take(i as int),
                    decreases library.items.len() - i,
                {
                    let t = library.items[i].track.clone();
                    let ghost before = views(tracks@);
                    let ghost tv = t@;
                    tracks.push(t);
                    assert(views(tracks@) =~= before.push(tv));
                    assert(item_tracks(library.items@).take(i + 1) =~= item_tracks(library.items@).take(
                        i as int,
                    ).push(tv));
                    i = i + 1;
                }
                assert(item_tracks(library.items@).take(library.items@.len() as int) =~= item_tracks(
                    library.items@,
                ));
                DfmPlan::Add { guild_id, name: library.name.clone(), tracks }
            },
        }
    }

    /// The reply once the playlist's songs were queued.
    pub fn finish(name: &str, song_count: usize) -> (r: CommandResult)
        ensures
            is_reply(r, added_text(name@, song_count as nat)),
    {
        let mut s = owned("Added ");
        s.append(name);
        s.append(" (");
        push_decimal(&mut s, song_count as u64);
        s.append(" songs) to the song queue.");
        Response::_text(s)
    }
}

impl Command for DfmCommand {
    fn names(&self) -> (r: &'static [&'static str])
        ensures
            strs(r@) == seq!["dfm"@, "discordfm"@, "discord.fm"@, "d.fm"@],
    {
        let r: &'static [&'static str] = &["dfm", "discordfm", "discord.fm", "d.fm"];
        assert(r@ =~= seq!["dfm", "discordfm", "discord.fm", "d.fm"]);
        r
    }

    fn description(&self) -> (r: &'static str)
        ensures
            r@ == "Plays a Discord.FM playlist."@,
    {
        "Plays a Discord.FM playlist."
    }
}

} // verus!
