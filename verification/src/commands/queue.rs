//! `queue`: shows a page of the guild's song queue.
use vstd::prelude::*;
use crate::error::Error;
use crate::lavalink::{PlayerState, player_text};
use crate::model::QueuedItem;
use crate::text::{
    chars_of, char_len_utf8, decimal_pad2, lemma_utf8_len_concat, lemma_utf8_len_take_grows,
    lemma_utf8_len_take_step, owned, parse_unsigned, parse_unsigned_chars, push_chars,
    push_decimal_pad2, utf8_len,
};
use crate::utils::{humantime_text, track_length_readable};
use super::{Command, CommandResult, Context, Response, is_reply, strs, warning};

verus! {

pub struct QueueCommand;

/// The zero-based page asked for: the argument parsed as a `u32` (0 when it
/// is absent or does not parse), minus one when it is above 0.
pub open spec fn requested_page(arg: Option<Seq<char>>) -> nat {
    let requested = match arg {
        Some(a) => match parse_unsigned(a, 4294967295) {
            Some(n) => n,
            None => 0,
        },
        None => 0,
    };
    if requested > 0 {
        (requested - 1) as nat
    } else {
        0
    }
}

/// One line of the queue listing, for the song numbered `n`.
pub open spec fn queue_line(n: nat, item: QueuedItem) -> Seq<char> {
    "`"@ + decimal_pad2(n) + "` **"@ + item.song_title@ + "** by **"@ + item.song_author@
        + "** `["@ + humantime_text((item.song_length as u64) / 1000, 0) + "]`\n"@
}

/// The listing of `items`, numbered from `start + 1`.
pub open spec fn queue_lines(items: Seq<QueuedItem>, start: nat) -> Seq<char>
    decreases items.len(),
{
    if items.len() == 0 {
        Seq::empty()
    } else {
        queue_lines(items.drop_last(), start) + queue_line(start + items.len(), items.last())
    }
}

/// A page's listing lists its songs in queue order: the listing of `a + b`
/// is the listing of `a`, then that of `b` numbered on from where `a` ended.
pub proof fn lemma_queue_lines_in_order(a: Seq<QueuedItem>, b: Seq<QueuedItem>, start: nat)
    ensures
        queue_lines(a + b, start) == queue_lines(a, start) + queue_lines(b, start + a.len()),
    decreases b.len(),
{
    if b.len() == 0 {
        assert(a + b =~= a);
        assert(queue_lines(a, start) + queue_lines(b, start + a.len()) =~= queue_lines(a, start));
    } else {
        lemma_queue_lines_in_order(a, b.drop_last(), start);
        assert((a + b).drop_last() =~= a + b.drop_last());
        assert((a + b).last() == b.last());
        assert(queue_lines(a + b, start) =~= queue_lines(a, start) + queue_lines(b.drop_last(), start + a.len())
            + queue_line(start + a.len() + b.len(), b.last()));
    }
}

/// The listing of one song is its own line, numbered one past `start`.
pub proof fn lemma_queue_lines_single(item: QueuedItem, start: nat)
    ensures
        queue_lines(seq![item], start) == queue_line(start + 1, item),
{
    let one = seq![item];
    assert(one.drop_last() =~= Seq::<QueuedItem>::empty());
    assert(queue_lines(one.drop_last(), start) == Seq::<char>::empty());
    assert(one.last() == item && one.len() == 1);
    assert(Seq::<char>::empty() + queue_line(start + 1, item) =~= queue_line(start + 1, item));
}

/// The text of a queue page before it is capped: the current song, the
/// heading, and the listing or a note that there is nothing to list.
pub open spec fn queue_page_text(
    page: nat,
    start: nat,
    queue: Seq<QueuedItem>,
    current: core::result::Result<PlayerState, Error>,
) -> Seq<char> {
    (match current {
        Ok(st) => player_text(st.paused, st.position, st.track),
        Err(_) => "There was an error getting the current song."@,
    }) + "\n\n__Queue__:\n"@ + (if page == 0 && queue.len() == 0 {
        "There are no songs in the queue."@
    } else if queue.len() == 0 {
        "There are no songs on this page of the queue."@
    } else {
        queue_lines(queue, start)
    })
}

/// The number of characters of the prefix of `s` that takes exactly 1997 bytes.
pub open spec fn cut_point(s: Seq<char>) -> int {
    choose|k: int| 0 <= k <= s.len() && utf8_len(s.take(k)) == 1997
}

/// Whether `s`, when longer than 2000 bytes, has a character boundary at byte
/// 1997, where a message that long is cut.
pub open spec fn can_cap(s: Seq<char>) -> bool {
    utf8_len(s) > 2000 ==> exists|k: int| 0 <= k <= s.len() && utf8_len(s.take(k)) == 1997
}

/// A message of more than 2000 bytes cut to its first 1997 bytes followed by "...".
pub open spec fn capped(s: Seq<char>) -> Seq<char> {
    if utf8_len(s) > 2000 {
        s.take(cut_point(s)) + "..."@
    } else {
        s
    }
}

/// A capped reply fits in a Discord message: at most 2000 bytes.
pub proof fn lemma_capped_fits(s: Seq<char>)
    requires
        can_cap(s),
    ensures
        utf8_len(capped(s)) <= 2000,
{
    if utf8_len(s) > 2000 {
        let k = cut_point(s);
        lemma_utf8_len_concat(s.take(k), "..."@);
        reveal_strlit("...");
        assert(utf8_len("..."@) == 3) by {
            reveal_with_fuel(utf8_len, 4);
            assert("..."@.drop_last().drop_last().drop_last() =~= Seq::<char>::empty());
        }
    }
}

/// What `queue` does: reply at once, or fetch `limit` songs of the queue
/// from offset `start` (page `page`) from the queue service.
pub enum QueuePlan {
    Reply(CommandResult),
    Fetch { page: u32, start: u32, limit: u32 },
}

impl QueueCommand {
    /// The zero-based page asked for.
    pub fn calculate_page(arg: Option<&str>) -> (r: u32)
        ensures
            r == requested_page(
                match arg {
                    Some(a) => Some(a@),
                    None => None,
                },
            ),
    {
        let requested: u32 = match arg {
            Some(a) => {
                let chars = chars_of(a);
                match parse_unsigned_chars(&chars, 4294967295) {
                    Some(n) => n as u32,
                    None => 0,
                }
            },
            None => 0,
        };
        if requested > 0 {
            requested - 1
        } else {
            requested
        }
    }

    /// Decides which page to fetch (ten songs per page).
    pub fn plan(ctx: &Context) -> (r: QueuePlan)
        requires
            ctx.guild_id is Some ==> requested_page(
                if ctx.args.len() > 0 {
                    Some(ctx.args[0]@)
                } else {
                    None
                },
            ) * 10 <= u32::MAX,
        ensures
            ctx.guild_id is None ==> r matches QueuePlan::Reply(Err(Error::Missing)),
            ctx.guild_id is Some ==> {
                let page = requested_page(
                    if ctx.args.len() > 0 {
                        Some(ctx.args[0]@)
                    } else {
                        None
                    },
                );
                r == QueuePlan::Fetch { page: page as u32, start: (page * 10) as u32, limit: 10 }
            },
    {
        if ctx.guild_id().is_none() {
            return QueuePlan::Reply(Err(Error::Missing));
        }
        let page = if ctx.args.len() > 0 {
            Self::calculate_page(Some(ctx.args[0].as_str()))
        } else {
            Self::calculate_page(None)
        };
        QueuePlan::Fetch { page, start: page * 10, limit: 10 }
    }

    /// The reply when the queue could not be fetched.
    pub fn fetch_failed() -> (r: CommandResult)
        ensures
            is_reply(r, warning("There was an error getting the queue."@)),
    {
        Response::err("There was an error getting the queue.")
    }

    /// Appends the listing of `queue`, numbered from `start + 1`.
    pub fn format_queue(queue: Vec<QueuedItem>, buf: &mut String, start: usize)
        requires
            start + queue@.len() < usize::MAX,
        ensures
            final(buf)@ == old(buf)@ + queue_lines(queue@, start as nat),
    {
        let mut idx: usize = 0;
        while idx < queue.len()
            invariant
                idx <= queue@.len(),
                start + queue@.len() < usize::MAX,
                buf@ == old(buf)@ + queue_lines(queue@.take(idx as int), start as nat),
            decreases queue.len() - idx,
        {
            let item = &queue[idx];
            let ghost before = buf@;
            buf.append("`");
            push_decimal_pad2(buf, (start + idx + 1) as u64);
            buf.append("` **");
            buf.append(item.song_title.as_str());
            buf.append("** by **");
            buf.append(item.song_author.as_str());
            buf.append("** `[");
            let len = track_length_readable(item.song_length as u64);
            buf.append(len.as_str());
            buf.append("]`\n");
            assert(queue@.take(idx + 1).drop_last() =~= queue@.take(idx as int));
            assert(buf@ =~= before + queue_line((start + idx + 1) as nat, queue@[idx as int]));
            idx = idx + 1;
        }
        assert(queue@.take(queue@.len() as int) =~= queue@);
    }

    /// Cuts a message longer than 2000 bytes to 1997 bytes and "...".
    pub fn cap_message(s: String) -> (r: String)
        requires
            can_cap(s@),
        ensures
            r@ == capped(s@),
    {
        let v = chars_of(s.as_str());
        let mut total: u64 = 0;
        let mut i: usize = 0;
        let mut found = false;
        let mut cut: usize = 0;
        while i < v.len() && total <= 2000
            invariant
                i <= v@.len(),
                v@ == s@,
                total == utf8_len(v@.take(i as int)),
                found ==> cut <= i && utf8_len(v@.take(cut as int)) == 1997,
                !found ==> forall|k: int| 0 <= k < i ==> utf8_len(#[trigger] v@.take(k)) != 1997,
            decreases v.len() - i,
        {
            if total == 1997 && !found {
                found = true;
                cut = i;
            }
            proof {
                lemma_utf8_len_take_step(v@, i as int);
            }
            total = total + char_len_utf8(v[i]);
            i = i + 1;
        }
        if total <= 2000 {
            assert(v@.take(i as int) =~= v@);
            return s;
        }
        proof {
            lemma_utf8_len_take_grows(v@, i as int, v@.len() as int);
            assert(v@.take(v@.len() as int) =~= v@);
            assert(utf8_len(v@) > 2000);
            let k = choose|k: int| 0 <= k <= v@.len() && utf8_len(v@.take(k)) == 1997;
            if !found {
                if k < i {
                    assert(utf8_len(v@.take(k)) != 1997);
                } else {
                    lemma_utf8_len_take_grows(v@, i as int, k);
                }
            }
            let c = cut_point(v@);
            if c < cut {
                lemma_utf8_len_take_grows(v@, c, cut as int);
            } else if c > cut {
                lemma_utf8_len_take_grows(v@, cut as int, c);
            }
        }
        let mut r = String::new();
        push_chars(&mut r, &v, 0, cut);
        r.append("...");
        assert(v@.subrange(0, cut as int) =~= v@.take(cut as int));
        r
    }

    /// Whether `s` can be capped: it takes at most 2000 bytes, or one of its
    /// characters ends exactly at byte 1997.
    pub fn can_cap_message(s: &str) -> (r: bool)
        ensures
            r == can_cap(s@),
    {
        let v = chars_of(s);
        let mut total: u64 = 0;
        let mut i: usize = 0;
        let mut found = false;
        while i < v.len() && total <= 2000
            invariant
                i <= v@.len(),
                v@ == s@,
                total == utf8_len(v@.take(i as int)),
                found == (exists|k: int| 0 <= k < i && #[trigger] utf8_len(v@.take(k)) == 1997),
            decreases v.len() - i,
        {
            if total == 1997 {
                found = true;
            }
            proof {
                lemma_utf8_len_take_step(v@, i as int);
            }
            total = total + char_len_utf8(v[i]);
            i = i + 1;
        }
        if total <= 2000 {
            assert(v@.take(i as int) =~= v@);
            return true;
        }
        proof {
            lemma_utf8_len_take_grows(v@, i as int, v@.len() as int);
            assert(v@.take(v@.len() as int) =~= v@);
            if !found {
                assert forall|k: int| 0 <= k <= v@.len() implies #[trigger] utf8_len(v@.take(k)) != 1997 by {
                    if k >= i {
                        lemma_utf8_len_take_grows(v@, i as int, k);
                    }
                }
            }
        }
        found
    }

    /// The text of a fetched page before it is capped: the current song, the
    /// heading, and the listing or a note that there is nothing to list.
    pub fn page_text(
        page: u32,
        start: u32,
        queue: Vec<QueuedItem>,
        current: core::result::Result<PlayerState, Error>,
    ) -> (r: String)
        requires
            start + queue@.len() < usize::MAX,
        ensures
            r@ == queue_page_text(page as nat, start as nat, queue@, current),
    {
        let ghost items = queue@;
        let mut s = match &current {
            Ok(st) => st.to_string(),
            Err(_) => owned("There was an error getting the current song."),
        };
        s.append("\n\n__Queue__:\n");
        if page == 0 && queue.len() == 0 {
            s.append("There are no songs in the queue.");
        } else if queue.len() == 0 {
            s.append("There are no songs on this page of the queue.");
        } else {
            Self::format_queue(queue, &mut s, start as usize);
        }
        assert(s@ =~= queue_page_text(page as nat, start as nat, items, current));
        s
    }

    /// The reply for a fetched page, given the player's current state.
    pub fn compose(
        page: u32,
        start: u32,
        queue: Vec<QueuedItem>,
        current: core::result::Result<PlayerState, Error>,
    ) -> (r: CommandResult)
        requires
            start + queue@.len() < usize::MAX,
            can_cap(queue_page_text(page as nat, start as nat, queue@, current)),
        ensures
            is_reply(r, capped(queue_page_text(page as nat, start as nat, queue@, current))),
    {
        Response::_text(Self::cap_message(Self::page_text(page, start, queue, current)))
    }

    /// The reply for a fetched page, or `None` where the page's text is over
    /// 2000 bytes and no character ends at byte 1997, so that it cannot be
    /// cut there.
    pub fn try_compose(
        page: u32,
        start: u32,
        queue: Vec<QueuedItem>,
        current: core::result::Result<PlayerState, Error>,
    ) -> (r: Option<CommandResult>)
        requires
            start + queue@.len() < usize::MAX,
        ensures
            r is Some <==> can_cap(queue_page_text(page as nat, start as nat, queue@, current)),
            r matches Some(res) ==> is_reply(res, capped(queue_page_text(page as nat, start as nat, queue@, current))),
    {
        let s = Self::page_text(page, start, queue, current);
        if Self::can_cap_message(s.as_str()) {
            Some(Response::_text(Self::cap_message(s)))
        } else {
            None
        }
    }
}

impl Command for QueueCommand {
    fn names(&self) -> (r: &'static [&'static str])
        ensures
            strs(r@) == seq!["queue"@, "q"@, "que"@],
    {
        let r: &'static [&'static str] = &["queue", "q", "que"];
        assert(r@ =~= seq!["queue", "q", "que"]);
        r
    }

    fn description(&self) -> (r: &'static str)
        ensures
            r@ == "Shows the song queue."@,
    {
        "Shows the song queue."
    }
}

} // verus!
