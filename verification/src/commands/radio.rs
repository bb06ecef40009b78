//! `radio`: streams a radio station, or explains how to.
use vstd::prelude::*;
use crate::error::Error;
use crate::model::{Load, Track};
use crate::radios::RadioList;
use crate::table::lookup;
use crate::text::{join, join_strings, lowercase, owned, views};
use super::{Command, CommandResult, Context, Response, is_reply, strs, warning};

verus! {

pub struct RadioCommand;

pub open spec fn radio_usage_text(prefix: Seq<char>) -> Seq<char> {
    "View the radios here: <https://dabbot.org/radios>\n\nTo play a radio, use `"@ + prefix
        + "radio <name here>`.\n\nFor example, use `"@ + prefix + "radio Radio Here`"@
}

pub open spec fn invalid_station_text(prefix: Seq<char>) -> Seq<char> {
    "Invalid station! For usage & stations, use `"@ + prefix + "radio`"@
}

/// What `radio` does first.
pub enum RadioPlan {
    Reply(CommandResult),
    /// Search the station's stream URL.
    Search { url: String },
}

impl RadioCommand {
    pub fn plan(ctx: &Context, radios: &RadioList) -> (r: RadioPlan)
        ensures
            ctx.args.len() == 0 ==> match ctx.prefix {
                Some(p) => r matches RadioPlan::Reply(res) && is_reply(res, radio_usage_text(p@)),
                None => r matches RadioPlan::Reply(Err(Error::Missing)),
            },
            ctx.args.len() > 0 ==> match lookup(radios.stations.pairs(), lowercase(join(views(ctx.args@), " "@))) {
                Some(st) => r matches RadioPlan::Search { url } && url@ == st.url@,
                None => match ctx.prefix {
                    Some(p) => r matches RadioPlan::Reply(res) && is_reply(res, invalid_station_text(p@)),
                    None => r matches RadioPlan::Reply(Err(Error::Missing)),
                },
            },
    {
        if ctx.args.len() == 0 {
            return match ctx.prefix() {
                None => RadioPlan::Reply(Err(Error::Missing)),
                Some(prefix) => {
                    let mut s = owned("View the radios here: <https://dabbot.org/radios>\n\nTo play a radio, use `");
                    s.append(prefix);
                    s.append("radio <name here>`.\n\nFor example, use `");
                    s.append(prefix);
                    s.append("radio Radio Here`");
                    RadioPlan::Reply(Response::_text(s))
                },
            };
        }
        let query = join_strings(&ctx.args, " ");
        match radios.get(query.as_str()) {
            Some(station) => RadioPlan::Search { url: station.url.clone() },
            None => match ctx.prefix() {
                None => RadioPlan::Reply(Err(Error::Missing)),
                Some(prefix) => {
                    let mut s = owned("Invalid station! For usage & stations, use `");
                    s.append(prefix);
                    s.append("radio`");
                    RadioPlan::Reply(Response::_text(s))
                },
            },
        }
    }

    /// The reply when the station's stream could not be searched.
    pub fn search_failed() -> (r: CommandResult)
        ensures
            is_reply(r, warning("There was an error searching for that."@)),
    {
        Response::err("There was an error searching for that.")
    }

    /// The stream to play: the first track the search found.
    pub fn first_track(load: &Load) -> (r: core::result::Result<&Track, Error>)
        ensures
            load.tracks@.len() == 0 ==> r == Err::<&Track, Error>(Error::Missing),
            load.tracks@.len() > 0 ==> r == Ok::<&Track, Error>(&load.tracks@[0]),
    {
        if load.tracks.len() == 0 {
            Err(Error::Missing)
        } else {
            Ok(&load.tracks[0])
        }
    }

    /// The reply once the stream was handed to the player.
    pub fn finish(radio: &Track, outcome: core::result::Result<bool, Error>) -> (r: CommandResult)
        ensures
            outcome == Ok::<bool, Error>(true) ==> is_reply(
                r,
                "Now playing **"@ + radio.info.title@ + "** by **"@ + radio.info.author@ + "**."@,
            ),
            outcome == Ok::<bool, Error>(false) ==> is_reply(
                r,
                "Added **"@ + radio.info.title@ + "** by **"@ + radio.info.author@ + "** to the queue."@,
            ),
            outcome is Err ==> is_reply(r, warning("There was an error playing the radio."@)),
    {
        match outcome {
            Ok(started) => {
                let mut s = if started {
                    owned("Now playing **")
                } else {
                    owned("Added **")
                };
                s.append(radio.info.title.as_str());
                s.append("** by **");
                s.append(radio.info.author.as_str());
                if started {
                    s.append("**.");
                } else {
                    s.append("** to the queue.");
                }
                Response::_text(s)
            },
            Err(_) => Response::err("There was an error playing the radio."),
        }
    }
}

impl Command for RadioCommand {
    fn names(&self) -> (r: &'static [&'static str])
        ensures
            strs(r@) == seq!["radio"@, "radios"@, "r"@],
    {
        let r: &'static [&'static str] = &["radio", "radios", "r"];
        assert(r@ =~= seq!["radio", "radios", "r"]);
        r
    }

    fn description(&self) -> (r: &'static str)
        ensures
            r@ == "Streams a radio or displays a list of them all."@,
    {
        "Streams a radio or displays a list of them all."
    }
}

} // verus!
