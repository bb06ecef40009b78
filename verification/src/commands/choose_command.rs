//! `choose`: picks one of the song choices a search offered.
use vstd::prelude::*;
use crate::error::Error;
use crate::message::{push_safe, safe_text};
use crate::model::DecodedTrack;
use crate::text::{chars_of, owned, parse_unsigned, parse_unsigned_chars};
use crate::utils::{humantime_text, track_length_readable};
use super::{Command, CommandResult, Context, Response, is_reply, strs, warning};

verus! {

pub struct ChooseCommand;

pub open spec fn no_selection_text(prefix: Seq<char>) -> Seq<char> {
    "There's no selection active in this guild - are you sure you ran `"@ + prefix
        + "play`?\n\nTo play a song...\n* Join a voice channel\n* Use `"@ + prefix
        + "play <song name/link>`\n* Choose one of the song options with `"@ + prefix + "choose <option>`"@
}

/// The zero-based choice an argument names: a number (as `usize` parses)
/// from 1 to 5, minus one.
pub open spec fn choice_index(arg: Seq<char>) -> Option<nat> {
    match parse_unsigned(arg, usize::MAX as nat) {
        Some(n) => if 1 <= n && n <= 5 { Some((n - 1) as nat) } else { None },
        None => None,
    }
}

/// "Now playing" text of a track.
pub open spec fn now_playing_text(title: Seq<char>, author: Seq<char>, length_ms: u64) -> Seq<char> {
    "Now playing **"@ + title + "** by **"@ + author + "** `["@ + humantime_text(length_ms / 1000, 0) + "]`"@
}

/// "Added to the queue" text of a track.
pub open spec fn queued_text(title: Seq<char>, author: Seq<char>, length_ms: u64) -> Seq<char> {
    "Added **"@ + title + "** by **"@ + author + "** `["@ + humantime_text(length_ms / 1000, 0) + "]` to the queue."@
}

/// What `choose` does next.
pub enum ChoosePlan {
    Reply(CommandResult),
    /// Play this track blob.
    Select(String),
    /// Cancel the selection of this guild.
    Cancel(u64),
}

impl ChooseCommand {
    /// Decides once the guild's choices were fetched.
    pub fn plan(ctx: &Context, selection: core::result::Result<Vec<String>, Error>) -> (r: ChoosePlan)
        requires
            ctx.guild_id is Some && ctx.args.len() > 0 ==> (selection matches Ok(sel) ==> (sel.len() > 0 ==> (
                choice_index(ctx.args[0]@) matches Some(i) ==> i < sel.len()))),
        ensures
            ctx.guild_id is None ==> r matches ChoosePlan::Reply(Err(Error::Missing)),
            ctx.guild_id is Some ==> match selection {
                Err(_) => r matches ChoosePlan::Reply(res) && is_reply(res, warning("There was an error getting the choices."@)),
                Ok(sel) => if sel.len() == 0 {
                    match ctx.prefix {
                        Some(p) => r matches ChoosePlan::Reply(res) && is_reply(res, safe_text(no_selection_text(p@))),
                        None => r matches ChoosePlan::Reply(Err(Error::Missing)),
                    }
                } else if ctx.args.len() > 0 {
                    match choice_index(ctx.args[0]@) {
                        Some(i) => r == ChoosePlan::Select(sel@[i as int]),
                        None => r matches ChoosePlan::Reply(res) && is_reply(res, warning("You must provide a number between 1 and 5!"@)),
                    }
                } else {
                    r == ChoosePlan::Cancel(ctx.guild_id->0)
                },
            },
    {
        let guild_id = match ctx.guild_id() {
            Some(g) => g,
            None => {
                return ChoosePlan::Reply(Err(Error::Missing));
            },
        };
        let mut selection = match selection {
            Ok(selection) => selection,
            Err(_) => {
                return ChoosePlan::Reply(Response::err("There was an error getting the choices."));
            },
        };
        if selection.len() == 0 {
            return match ctx.prefix() {
                None => ChoosePlan::Reply(Err(Error::Missing)),
                Some(prefix) => {
                    let mut text = owned("There's no selection active in this guild - are you sure you ran `");
                    text.append(prefix);
                    text.append("play`?\n\nTo play a song...\n* Join a voice channel\n* Use `");
                    text.append(prefix);
                    text.append("play <song name/link>`\n* Choose one of the song options with `");
                    text.append(prefix);
                    text.append("choose <option>`");
                    let mut msg = String::new();
                    push_safe(&mut msg, text.as_str());
                    assert(msg@ =~= safe_text(no_selection_text(prefix@)));
                    ChoosePlan::Reply(Response::_text(msg))
                },
            };
        }
        if ctx.args.len() > 0 {
            let arg = chars_of(ctx.args[0].as_str());
            let num: usize = match parse_unsigned_chars(&arg, usize::MAX as u64) {
                Some(n) => if 1 <= n && n <= 5 {
                    (n - 1) as usize
                } else {
                    return ChoosePlan::Reply(Response::err("You must provide a number between 1 and 5!"));
                },
                None => {
                    return ChoosePlan::Reply(Response::err("You must provide a number between 1 and 5!"));
                },
            };
            ChoosePlan::Select(selection.remove(num))
        } else {
            ChoosePlan::Cancel(guild_id)
        }
    }

    /// The reply once the chosen track was handed to the player: started,
    /// queued, or failed.
    pub fn play_reply(song: &DecodedTrack, outcome: core::result::Result<bool, Error>) -> (r: CommandResult)
        ensures
            outcome == Ok::<bool, Error>(true) ==> is_reply(r, now_playing_text(song.title@, song.author@, song.length)),
            outcome == Ok::<bool, Error>(false) ==> is_reply(r, queued_text(song.title@, song.author@, song.length)),
            outcome is Err ==> is_reply(r, warning("There was an error playing the song."@)),
    {
        match outcome {
            Ok(started) => {
                let mut s = if started {
                    owned("Now playing **")
                } else {
                    owned("Added **")
                };
                s.append(song.title.as_str());
                s.append("** by **");
                s.append(song.author.as_str());
                s.append("** `[");
                let len = track_length_readable(song.length);
                s.append(len.as_str());
                if started {
                    s.append("]`");
                } else {
                    s.append("]` to the queue.");
                }
                Response::_text(s)
            },
            Err(_) => Response::err("There was an error playing the song."),
        }
    }
}

impl Command for ChooseCommand {
    fn names(&self) -> (r: &'static [&'static str])
        ensures
            strs(r@) == seq!["choose"@, "c"@, "chose"@],
    {
        let r: &'static [&'static str] = &["choose", "c", "chose"];
        assert(r@ =~= seq!["choose", "c", "chose"]);
        r
    }

    fn description(&self) -> (r: &'static str)
        ensures
            r@ == "Chooses a song from a selection screen."@,
    {
        "Chooses a song from a selection screen."
    }
}

} // verus!
