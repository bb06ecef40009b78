//! `play`: searches a provider for a query, then offers the results, plays
//! the single result, or queues a playlist.
use vstd::prelude::*;
use crate::error::Error;
use crate::message::{push_safe, safe_text};
use crate::model::{Load, LoadType, Track};
use crate::text::{
    chars_of, chars_start_with, decimal, join, join_strings, owned, push_decimal, views,
};
use crate::utils::{humantime_text, track_length_readable};
use super::join::Join;
use super::{CommandResult, Context, Response, is_reply, strs, warning};

verus! {

/// Where a query is searched.
#[derive(Copy, Clone, Debug, Eq, Hash, PartialEq, PartialOrd, Ord)]
pub enum Provider {
    SoundCloud,
    URL,
    YouTube,
}

pub open spec fn provider_prefix(p: Provider) -> Seq<char> {
    match p {
        Provider::SoundCloud => "scsearch"@,
        Provider::URL => ""@,
        Provider::YouTube => "ytsearch"@,
    }
}

/// How a provider is shown before a query: its prefix and ':', nothing for a URL.
pub open spec fn provider_text(p: Provider) -> Seq<char> {
    match p {
        Provider::URL => ""@,
        _ => provider_prefix(p) + ":"@,
    }
}

impl Provider {
    pub fn prefix(self) -> (r: &'static str)
        ensures
            r@ == provider_prefix(self),
    {
        match self {
            Provider::SoundCloud => "scsearch",
            Provider::URL => "",
            Provider::YouTube => "ytsearch",
        }
    }

    /// The provider as its `Display` shows it.
    pub fn to_string(self) -> (r: String)
        ensures
            r@ == provider_text(self),
    {
        if let Provider::URL = self {
            return owned("");
        }
        let mut s = owned(self.prefix());
        s.append(":");
        s
    }
}

/// What `play` does first.
pub enum PlayPlan {
    Reply(CommandResult),
    /// Search `term`, which is the provider's text followed by `query`.
    Search { query: String, provider: Provider, term: String },
}

/// The provider a query is searched with: a link goes to the URL provider.
pub open spec fn effective_provider(query: Seq<char>, provider: Provider) -> Provider {
    if "https://"@.is_prefix_of(query) || "http://"@.is_prefix_of(query) {
        Provider::URL
    } else {
        provider
    }
}

/// What a search's kind of answer leads to.
pub enum LoadPlan {
    Reply(CommandResult),
    HandlePlaylist,
    HandleSearch,
}

/// One line of the search results offered, for the track numbered `n`.
pub open spec fn result_line(n: nat, t: Track) -> Seq<char> {
    "`"@ + decimal(n) + "` "@ + safe_text(t.info.title@) + " by "@ + safe_text(t.info.author@) + " `["@
        + humantime_text((t.info.length as u64) / 1000, 0) + "]`\n"@
}

/// The result lines of `tracks`, numbered from 1.
pub open spec fn result_lines(tracks: Seq<Track>) -> Seq<char>
    decreases tracks.len(),
{
    if tracks.len() == 0 {
        Seq::empty()
    } else {
        result_lines(tracks.drop_last()) + result_line(tracks.len(), tracks.last())
    }
}

/// The text that offers search results for choosing.
pub open spec fn offer_text(tracks: Seq<Track>, prefix: Seq<char>) -> Seq<char> {
    result_lines(tracks) + "\n**To choose**, use `"@ + safe_text(prefix)
        + "choose <number>`\nExample: `"@ + safe_text(prefix)
        + "choose 2` would pick the second option.\n**To cancel**, use `"@ + safe_text(prefix) + "cancel`."@
}

/// The track blobs of `tracks`, in order.
pub open spec fn track_blobs(tracks: Seq<Track>) -> Seq<Seq<char>> {
    tracks.map_values(|t: Track| t.track@)
}

/// What a search result leads to.
pub enum SearchPlan {
    Reply(CommandResult),
    /// Play this single track, as `choose` does.
    Select(String),
    /// Store `blobs` as the guild's choices (replacing earlier ones, each
    /// pushed to the front, so they are listed last first) and reply.
    Offer { guild_id: u64, blobs: Vec<String>, reply: CommandResult },
}

/// What a loaded playlist leads to.
pub enum PlaylistPlan {
    Reply(CommandResult),
    /// Queue `tracks` in the guild, join, then reply starting with `content`.
    Add { guild_id: u64, tracks: Vec<String>, content: String },
}

pub open spec fn playlist_text(count: nat, name: Option<String>) -> Seq<char> {
    let suffix = match name {
        Some(n) => " **"@ + n@ + "**"@,
        None => ""@,
    };
    "Loaded "@ + decimal(count) + " songs from the playlist"@ + suffix + "!"@
}

/// What a play command plans for `ctx` when it searches `provider`: a
/// query is needed; a link is loaded as it is, anything else searched.
pub open spec fn play_plan(ctx: Context, provider: Provider, r: PlayPlan) -> bool {
    if ctx.args.len() < 1 {
        r matches PlayPlan::Reply(res) && is_reply(
            res,
            warning("You need to say the link to the song or the name of what you want to play"@),
        )
    } else {
        let query = join(views(ctx.args@), " "@);
        let p = effective_provider(query, provider);
        r matches PlayPlan::Search { query: q, provider: pr, term } && q@ == query && pr == p
            && term@ == provider_text(p) + query
    }
}

/// A link is loaded as it is: whichever provider a play command searches,
/// a query starting with "https://" or "http://" is taken by the URL
/// provider and the term is the query itself; any other query is searched
/// on the command's provider, behind its search prefix.
pub proof fn lemma_links_load_directly(ctx: Context, provider: Provider, r: PlayPlan)
    requires
        play_plan(ctx, provider, r),
        ctx.args.len() >= 1,
    ensures
        ("https://"@.is_prefix_of(join(views(ctx.args@), " "@)) || "http://"@.is_prefix_of(
            join(views(ctx.args@), " "@),
        )) ==> (r matches PlayPlan::Search { query, provider: pr, term } && pr == Provider::URL
            && term@ == query@ && query@ == join(views(ctx.args@), " "@)),
        !("https://"@.is_prefix_of(join(views(ctx.args@), " "@)) || "http://"@.is_prefix_of(
            join(views(ctx.args@), " "@),
        )) && provider == Provider::YouTube ==> (r matches PlayPlan::Search { provider: pr, term, .. }
            && pr == Provider::YouTube && term@ == "ytsearch:"@ + join(views(ctx.args@), " "@)),
        !("https://"@.is_prefix_of(join(views(ctx.args@), " "@)) || "http://"@.is_prefix_of(
            join(views(ctx.args@), " "@),
        )) && provider == Provider::SoundCloud ==> (r matches PlayPlan::Search { provider: pr, term, .. }
            && pr == Provider::SoundCloud && term@ == "scsearch:"@ + join(views(ctx.args@), " "@)),
{
    let q = join(views(ctx.args@), " "@);
    assert(""@ + q =~= q) by {
        reveal_strlit("");
    }
    reveal_strlit("ytsearch");
    reveal_strlit("scsearch");
    reveal_strlit(":");
    reveal_strlit("ytsearch:");
    reveal_strlit("scsearch:");
    assert("ytsearch"@ + ":"@ =~= "ytsearch:"@);
    assert("scsearch"@ + ":"@ =~= "scsearch:"@);
}

/// Decides the search for a query given to a play command.
pub fn base(ctx: &Context, provider: Provider) -> (r: PlayPlan)
    ensures
        play_plan(*ctx, provider, r),
{
    if ctx.args.len() < 1 {
        return PlayPlan::Reply(
            Response::err("You need to say the link to the song or the name of what you want to play"),
        );
    }
    let query = join_strings(&ctx.args, " ");
    let chars = chars_of(query.as_str());
    let https = chars_of("https://");
    let http = chars_of("http://");
    let mut provider = provider;
    if chars_start_with(&chars, &https) || chars_start_with(&chars, &http) {
        provider = Provider::URL;
    }
    let term = search_term(provider, query.as_str());
    PlayPlan::Search { query, provider, term }
}

/// `play` searches YouTube.
pub fn run(ctx: &Context) -> (r: PlayPlan)
    ensures
        play_plan(*ctx, Provider::YouTube, r),
{
    base(ctx, Provider::YouTube)
}

/// The text searched: the provider's text, then the query.
pub fn search_term(provider: Provider, query: &str) -> (r: String)
    ensures
        r@ == provider_text(provider) + query@,
{
    let mut term = provider.to_string();
    term.append(query);
    term
}

/// The reply when the search failed.
pub fn search_failed() -> (r: CommandResult)
    ensures
        is_reply(r, warning("There was an error searching for that."@)),
{
    Response::err("There was an error searching for that.")
}

/// What a search's kind of answer leads to.
pub fn on_load(load_type: LoadType) -> (r: LoadPlan)
    ensures
        load_type is LoadFailed ==> (r matches LoadPlan::Reply(res) && is_reply(res, warning("There was an error searching for that!"@))),
        load_type is NoMatches ==> (r matches LoadPlan::Reply(res) && is_reply(res, warning("It looks like there aren't any results for that!"@))),
        load_type is PlaylistLoaded ==> r is HandlePlaylist,
        (load_type is SearchResult || load_type is TrackLoaded) ==> r is HandleSearch,
{
    match load_type {
        LoadType::LoadFailed => LoadPlan::Reply(Response::err("There was an error searching for that!")),
        LoadType::NoMatches => LoadPlan::Reply(Response::err("It looks like there aren't any results for that!")),
        LoadType::PlaylistLoaded => LoadPlan::HandlePlaylist,
        LoadType::SearchResult | LoadType::TrackLoaded => LoadPlan::HandleSearch,
    }
}

/// Decides what the results of a search lead to: none, a single track to
/// play, or the first five offered for choosing.
pub fn handle_search(ctx: &Context, load: &Load) -> (r: SearchPlan)
    ensures
        ctx.guild_id is None ==> r matches SearchPlan::Reply(Err(Error::Missing)),
        ctx.guild_id is Some ==> {
            let tracks = load.tracks@;
            if tracks.len() == 0 {
                r matches SearchPlan::Reply(res) && is_reply(res, "It looks like there aren't any results for that!"@)
            } else if tracks.len() == 1 {
                r == SearchPlan::Select(tracks[0].track)
            } else {
                let shown = if tracks.len() > 5 { tracks.take(5) } else { tracks };
                r matches SearchPlan::Offer { guild_id, blobs, reply } && guild_id == ctx.guild_id->0
                    && views(blobs@) == track_blobs(shown).reverse()
                    && match ctx.prefix {
                    Some(p) => is_reply(reply, offer_text(shown, p@)),
                    None => reply == Err::<super::Response, Error>(Error::Missing),
                }
            }
        },
{
    let guild_id = match ctx.guild_id() {
        Some(g) => g,
        None => {
            return SearchPlan::Reply(Err(Error::Missing));
        },
    };
    if load.tracks.len() == 0 {
        return SearchPlan::Reply(Response::text("It looks like there aren't any results for that!"));
    }
    if load.tracks.len() == 1 {
        return SearchPlan::Select(load.tracks[0].track.clone());
    }
    let shown_len: usize = if load.tracks.len() > 5 {
        5
    } else {
        load.tracks.len()
    };
    let ghost shown = load.tracks@.take(shown_len as int);
    assert(shown == if load.tracks@.len() > 5 { load.tracks@.take(5) } else { load.tracks@ }) by {
        if load.tracks@.len() <= 5 {
            assert(load.tracks@.take(shown_len as int) =~= load.tracks@);
        }
    }
    let mut blobs: Vec<String> = Vec::new();
    let mut k: usize = shown_len;
    while k > 0
        invariant
            k <= shown_len <= load.tracks@.len(),
            shown == load.tracks@.take(shown_len as int),
            views(blobs@) == track_blobs(shown).reverse().take((shown_len - k) as int),
        decreases k,
    {
        k = k - 1;
        let t = load.tracks[k].track.clone();
        let ghost before = views(blobs@);
        let ghost tv = t@;
        blobs.push(t);
        assert(views(blobs@) =~= before.push(tv));
        assert(track_blobs(shown).reverse().take((shown_len - k) as int) =~= track_blobs(shown).reverse().take(
            (shown_len - k - 1) as int,
        ).push(tv));
    }
    assert(track_blobs(shown).reverse().take(shown_len as int) =~= track_blobs(shown).reverse());
    let mut msg = String::new();
    let mut idx: usize = 0;
    while idx < shown_len
        invariant
            idx <= shown_len <= load.tracks@.len(),
            shown_len <= 5,
            shown == load.tracks@.take(shown_len as int),
            msg@ == result_lines(shown.take(idx as int)),
        decreases shown_len - idx,
    {
        let track = &load.tracks[idx];
        let ghost before = msg@;
        msg.append("`");
        push_decimal(&mut msg, (idx + 1) as u64);
        msg.append("` ");
        push_safe(&mut msg, track.info.title.as_str());
        msg.append(" by ");
        push_safe(&mut msg, track.info.author.as_str());
        msg.append(" `[");
        let len = track_length_readable(track.info.length as u64);
        msg.append(len.as_str());
        msg.append("]`\n");
        assert(shown.take(idx + 1).drop_last() =~= shown.take(idx as int));
        assert(shown.take(idx + 1).last() == shown[idx as int]);
        assert(msg@ =~= before + result_line((idx + 1) as nat, shown[idx as int]));
        idx = idx + 1;
    }
    assert(shown.take(shown_len as int) =~= shown);
    let reply = match ctx.prefix() {
        None => Err(Error::Missing),
        Some(prefix) => {
            msg.append("\n**To choose**, use `");
            push_safe(&mut msg, prefix);
            msg.append("choose <number>`\nExample: `");
            push_safe(&mut msg, prefix);
            msg.append("choose 2` would pick the second option.\n**To cancel**, use `");
            push_safe(&mut msg, prefix);
            msg.append("cancel`.");
            assert(msg@ =~= offer_text(shown, prefix@));
            Response::_text(msg)
        },
    };
    SearchPlan::Offer { guild_id, blobs, reply }
}

/// Decides what a loaded playlist leads to: an empty one is refused,
/// otherwise all its tracks are queued.
pub fn handle_playlist(ctx: &Context, load: &Load) -> (r: PlaylistPlan)
    ensures
        ctx.guild_id is None ==> r matches PlaylistPlan::Reply(Err(Error::Missing)),
        ctx.guild_id is Some && load.tracks@.len() == 0 ==> (r matches PlaylistPlan::Reply(res)
            && is_reply(res, "It looks like that playlist is empty!"@)),
        ctx.guild_id is Some && load.tracks@.len() > 0 ==> (r matches PlaylistPlan::Add { guild_id, tracks, content }
            && guild_id == ctx.guild_id->0 && views(tracks@) == track_blobs(load.tracks@)
            && content@ == playlist_text(load.tracks@.len(), load.playlist_info.name)),
{
    let guild_id = match ctx.guild_id() {
        Some(g) => g,
        None => {
            return PlaylistPlan::Reply(Err(Error::Missing));
        },
    };
    if load.tracks.len() == 0 {
        return PlaylistPlan::Reply(Response::text("It looks like that playlist is empty!"));
    }
    let mut tracks: Vec<String> = Vec::new();
    let mut i: usize = 0;
    while i < load.tracks.len()
        invariant
            i <= load.tracks@.len(),
            views(tracks@) == track_blobs(load.tracks@).take(i as int),
        decreases load.tracks.len() - i,
    {
        let t = load.tracks[i].track.clone();
        let ghost before = views(tracks@);
        let ghost tv = t@;
        tracks.push(t);
        assert(views(tracks@) =~= before.push(tv));
        assert(track_blobs(load.tracks@).take(i + 1) =~= track_blobs(load.tracks@).take(i as int).push(tv));
        i = i + 1;
    }
    assert(track_blobs(load.tracks@).take(load.tracks@.len() as int) =~= track_blobs(load.tracks@));
    let count = tracks.len();
    assert(count == load.tracks@.len()) by {
        assert(views(tracks@).len() == tracks@.len());
        assert(track_blobs(load.tracks@).len() == load.tracks@.len());
    }
    let mut content = owned("Loaded ");
    push_decimal(&mut content, count as u64);
    content.append(" songs from the playlist");
    let ghost base = content@;
    assert(base == "Loaded "@ + decimal(load.tracks@.len()) + " songs from the playlist"@);
    match &load.playlist_info.name {
        Some(name) => {
            content.append(" **");
            content.append(name.as_str());
            content.append("**");
            assert(content@ =~= base + (" **"@ + name@ + "**"@));
        },
        None => {
            proof {
                reveal_strlit("");
            }
            assert(content@ =~= base + ""@);
        },
    }
    content.append("!");
    assert(content@ =~= playlist_text(load.tracks@.len(), load.playlist_info.name));
    PlaylistPlan::Add { guild_id, tracks, content }
}

/// After joining for a playlist: when the author is in no voice channel the
/// reply is the content alone; otherwise `None`, and the player is checked.
pub fn playlist_after_join(content: String, join: Join) -> (r: Option<CommandResult>)
    ensures
        join is UserNotInChannel ==> (r matches Some(res) && is_reply(res, content@)),
        !(join is UserNotInChannel) ==> r is None,
{
    match join {
        Join::UserNotInChannel => Some(Response::_text(content)),
        Join::AlreadyInChannel | Join::Successful => None,
    }
}

/// The playlist reply once the next song was handed to the player.
pub fn playlist_finish(content: String, outcome: core::result::Result<bool, Error>) -> (r: CommandResult)
    ensures
        outcome == Ok::<bool, Error>(true) ==> is_reply(
            r,
            content@ + "\n\nJoined the voice channel and started playing the next song!"@,
        ),
        outcome == Ok::<bool, Error>(false) ==> is_reply(
            r,
            content@ + "\n\nJoined the voice channel and added the songs to the queue."@,
        ),
        outcome is Err ==> is_reply(r, content@),
{
    let mut content = content;
    match outcome {
        Ok(true) => {
            content.append("\n\nJoined the voice channel and started playing the next song!");
            Response::_text(content)
        },
        Ok(false) => {
            content.append("\n\nJoined the voice channel and added the songs to the queue.");
            Response::_text(content)
        },
        Err(_) => Response::_text(content),
    }
}

pub fn description() -> (r: &'static str)
    ensures
        r@ == "plays a song"@,
{
    "plays a song"
}

pub fn names() -> (r: &'static [&'static str])
    ensures
        strs(r@) == seq!["play"@, "p"@, "search"@],
{
    let r: &'static [&'static str] = &["play", "p", "search"];
    assert(r@ =~= seq!["play", "p", "search"]);
    r
}

} // verus!
