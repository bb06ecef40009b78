//! `load`: loads a dumped queue back into the guild's queue and joins.
use vstd::prelude::*;
use crate::error::Error;
use crate::json::{json_string_list, tracks_from_json};
use crate::text::{
    chars_of, chars_start_with, decimal, last_index_of, lemma_last_index_of, owned, push_decimal,
    rfind_char, string_of_range, views,
};
use super::join::{JoinResponse, join_response_text};
use super::{Command, CommandResult, Context, Response, is_reply, strs};

verus! {

pub struct LoadCommand;

/// The dump id named by a load argument: the text after the last '/' of a
/// URL (an argument starting with "http"), which must not be empty, or the
/// argument itself.
pub open spec fn dump_uuid(query: Seq<char>) -> Option<Seq<char>> {
    if "http"@.is_prefix_of(query) {
        let slash = last_index_of(query, '/');
        if slash < 0 || slash + 1 == query.len() {
            None
        } else {
            Some(query.skip(slash + 1))
        }
    } else {
        Some(query)
    }
}

/// The dump id taken from a URL is what follows its last '/': it holds no
/// '/', is not empty, and the URL is some text ending in '/' followed by it.
/// Any other argument is the id itself.
pub proof fn lemma_dump_uuid_after_last_slash(q: Seq<char>)
    ensures
        "http"@.is_prefix_of(q) && dump_uuid(q) is Some ==> {
            let u = dump_uuid(q)->0;
            &&& !u.contains('/')
            &&& 0 < u.len() < q.len()
            &&& q[q.len() - u.len() - 1] == '/'
            &&& q == q.take(q.len() - u.len()) + u
        },
        !"http"@.is_prefix_of(q) ==> dump_uuid(q) == Some(q),
{
    lemma_last_index_of(q, '/');
    if let Some(u) = dump_uuid(q) {
        if "http"@.is_prefix_of(q) {
            let slash = last_index_of(q, '/');
            assert(u =~= q.skip(slash + 1));
            assert forall|j: int| 0 <= j < u.len() implies u[j] != '/' by {
                assert(u[j] == q[slash + 1 + j]);
            }
            assert(q =~= q.take(q.len() - u.len()) + u);
        }
    }
}

/// The link that `dump`'s reply gives loads back as the dump's id: for an
/// id that is not empty and holds no '/', "https://" + address + "/" + id
/// names that id.
pub proof fn lemma_dump_link_loads_back(address: Seq<char>, uuid: Seq<char>)
    requires
        uuid.len() > 0,
        !uuid.contains('/'),
    ensures
        dump_uuid("https://"@ + address + "/"@ + uuid) == Some(uuid),
{
    reveal_strlit("https://");
    reveal_strlit("http");
    reveal_strlit("/");
    let q = "https://"@ + address + "/"@ + uuid;
    let pos = q.len() - uuid.len() - 1;
    assert("http"@.is_prefix_of(q)) by {
        assert(q.take(4) =~= "http"@);
    }
    assert(q[pos] == '/');
    lemma_last_index_of(q, '/');
    let slash = last_index_of(q, '/');
    assert forall|j: int| pos < j < q.len() implies q[j] != '/' by {
        assert(q[j] == uuid[j - pos - 1]);
    }
    assert(slash == pos);
    assert(q.skip(slash + 1) =~= uuid);
}

/// What `load` does next.
pub enum LoadPlan {
    Reply(CommandResult),
    /// Retrieve the dump with this id for the guild.
    Retrieve { guild_id: u64, uuid: String },
}

pub open spec fn loaded_text(count: nat) -> Seq<char> {
    "Loaded "@ + decimal(count) + " songs from the playlist!"@
}

impl LoadCommand {
    pub fn plan(ctx: &Context) -> (r: LoadPlan)
        ensures
            ctx.guild_id is None ==> r matches LoadPlan::Reply(Err(Error::Missing)),
            ctx.guild_id is Some && ctx.args.len() == 0 ==> (r matches LoadPlan::Reply(res)
                && is_reply(res, "You need to say the URL to the queue dump!"@)),
            ctx.guild_id is Some && ctx.args.len() > 0 ==> match dump_uuid(ctx.args[0]@) {
                Some(u) => r matches LoadPlan::Retrieve { guild_id, uuid } && guild_id == ctx.guild_id->0 && uuid@ == u,
                None => r matches LoadPlan::Reply(res) && is_reply(res, "That doesn't look like a valid load URL."@),
            },
    {
        let guild_id = match ctx.guild_id() {
            Some(g) => g,
            None => {
                return LoadPlan::Reply(Err(Error::Missing));
            },
        };
        if ctx.args.len() == 0 {
            return LoadPlan::Reply(Response::text("You need to say the URL to the queue dump!"));
        }
        let query = chars_of(ctx.args[0].as_str());
        let http = chars_of("http");
        if chars_start_with(&query, &http) {
            let slash = match rfind_char(&query, '/') {
                Some(slash) => slash,
                None => {
                    return LoadPlan::Reply(Response::text("That doesn't look like a valid load URL."));
                },
            };
            proof {
                lemma_last_index_of(query@, '/');
            }
            let n = query.len();
            assert(slash < n);
            if slash + 1 == n {
                return LoadPlan::Reply(Response::text("That doesn't look like a valid load URL."));
            }
            let uuid = string_of_range(&query, slash + 1, query.len());
            assert(query@.subrange(slash + 1, query@.len() as int) =~= query@.skip(slash + 1));
            LoadPlan::Retrieve { guild_id, uuid }
        } else {
            let uuid = string_of_range(&query, 0, query.len());
            assert(query@.subrange(0, query@.len() as int) =~= query@);
            LoadPlan::Retrieve { guild_id, uuid }
        }
    }

    /// The reply when the dump could not be retrieved.
    pub fn retrieve_failed() -> (r: CommandResult)
        ensures
            is_reply(r, "There was an error getting the playlist."@),
    {
        Response::text("There was an error getting the playlist.")
    }

    /// The track blobs of a retrieved dump.
    pub fn tracks(body: &[u8]) -> (r: core::result::Result<Vec<String>, Error>)
        ensures
            r is Ok <==> json_string_list(body@) is Some,
            r matches Ok(v) ==> views(v@) == json_string_list(body@)->0,
            r matches Err(e) ==> e is SerdeJson,
    {
        tracks_from_json(body)
    }

    /// The reply once the tracks were queued and joining was tried: the
    /// count, then the join response when joining succeeded.
    pub fn finish(track_count: usize, joined: core::result::Result<JoinResponse, Error>) -> (r: CommandResult)
        ensures
            joined matches Ok(resp) ==> is_reply(
                r,
                loaded_text(track_count as nat) + "\n\n"@ + join_response_text(resp.state, resp.pop),
            ),
            joined is Err ==> is_reply(r, loaded_text(track_count as nat)),
    {
        let mut content = owned("Loaded ");
        push_decimal(&mut content, track_count as u64);
        content.append(" songs from the playlist!");
        match joined {
            Ok(resp) => {
                content.append("\n\n");
                let text = resp.to_string();
                content.append(text.as_str());
                Response::_text(content)
            },
            Err(_) => Response::_text(content),
        }
    }
}

impl Command for LoadCommand {
    fn names(&self) -> (r: &'static [&'static str])
        ensures
            strs(r@) == seq!["load"@],
    {
        let r: &'static [&'static str] = &["load"];
        assert(r@ =~= seq!["load"]);
        r
    }

    fn description(&self) -> (r: &'static str)
        ensures
            r@ == "Loads a queue of songs from the dump command."@,
    {
        "Loads a queue of songs from the dump command."
    }
}

} // verus!
