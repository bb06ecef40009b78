//! `seek`: jumps to a timestamp in the current song.
use vstd::prelude::*;
use crate::text::{
    chars_of, decimal, lemma_decimal_digits, lemma_parse_decimal, lemma_split_on_concat,
    lemma_split_on_no_sep, lemma_split_on_nonempty, owned, parse_unsigned, parse_unsigned_chars,
    split_chars, split_on,
};
use super::{
    Command, CommandResult, Context, Response, is_reply, warning, no_song, no_song_text, strs,
};
use crate::error::Error;

verus! {

pub struct SeekCommand;

/// One field of a timestamp: what `str::parse::<u8>` accepts, at most 59.
pub open spec fn clock_field(p: Seq<char>) -> Option<nat> {
    match parse_unsigned(p, 255) {
        Some(n) => if n <= 59 { Some(n) } else { None },
        None => None,
    }
}

/// The milliseconds that a timestamp `s`, `h:m:s`, `m:s` or `s`, stands for:
/// at most three fields separated by ':', each a number from 0 to 59.
pub open spec fn argument_time_ms(input: Seq<char>) -> Option<nat> {
    let parts = split_on(input, ':');
    if parts.len() > 3 {
        None
    } else if exists|i: int| 0 <= i < parts.len() && #[trigger] clock_field(parts[i]) is None {
        None
    } else if parts.len() == 1 {
        Some(clock_field(parts[0])->0 * 1000)
    } else if parts.len() == 2 {
        Some((clock_field(parts[0])->0 * 60 + clock_field(parts[1])->0) * 1000)
    } else {
        Some((clock_field(parts[0])->0 * 3600 + clock_field(parts[1])->0 * 60
            + clock_field(parts[2])->0) * 1000)
    }
}

proof fn lemma_clock_field_decimal(n: nat)
    requires
        n <= 59,
    ensures
        clock_field(decimal(n)) == Some(n),
        !decimal(n).contains(':'),
{
    lemma_parse_decimal(n, 255);
    lemma_decimal_digits(n);
}

/// A timestamp's fields count hours, minutes and seconds, whatever their
/// values: for fields up to 59 written in decimal, "h:m:s" is
/// (h·3600 + m·60 + s)·1000 milliseconds, "m:s" is (m·60 + s)·1000 and "s"
/// is s·1000.
pub proof fn lemma_argument_time_fields(h: nat, m: nat, s: nat)
    requires
        h <= 59,
        m <= 59,
        s <= 59,
    ensures
        argument_time_ms(decimal(h) + ":"@ + decimal(m) + ":"@ + decimal(s)) == Some(
            (h * 3600 + m * 60 + s) * 1000,
        ),
        argument_time_ms(decimal(m) + ":"@ + decimal(s)) == Some((m * 60 + s) * 1000),
        argument_time_ms(decimal(s)) == Some(s * 1000),
{
    reveal_strlit(":");
    assert(":"@ =~= seq![':']);
    let (x, y, z) = (decimal(h), decimal(m), decimal(s));
    lemma_clock_field_decimal(h);
    lemma_clock_field_decimal(m);
    lemma_clock_field_decimal(s);
    lemma_split_on_no_sep(x, ':');
    lemma_split_on_no_sep(y, ':');
    lemma_split_on_no_sep(z, ':');
    lemma_split_on_concat(x, y, ':');
    lemma_split_on_concat(x + seq![':'] + y, z, ':');
    lemma_split_on_concat(y, z, ':');
    let three = split_on(x + ":"@ + y + ":"@ + z, ':');
    assert(three =~= seq![x, y, z]);
    assert(three[0] == x && three[1] == y && three[2] == z);
    let two = split_on(y + ":"@ + z, ':');
    assert(two =~= seq![y, z]);
    assert(two[0] == y && two[1] == z);
    let one = split_on(z, ':');
    assert(one[0] == z);
}

pub const ERROR_SEEKING: &'static str = "There was an error seeking the song.";

pub open spec fn usage_text(prefix: Seq<char>) -> Seq<char> {
    "You need to say where you want to seek to!\n\nExample: `"@ + prefix
        + "seek 3:40` to seek to 3 minutes and 40 seconds"@
}

pub open spec fn bad_format_text(prefix: Seq<char>) -> Seq<char> {
    "That doesn't look like a valid time format.\n\nExample: `"@ + prefix
        + "seek 3:40` to seek to 3 minutes and 40 seconds"@
}

pub open spec fn seeked_text() -> Seq<char> {
    "Jumped to the specified position. Use `!!!playing` to see the current song & position."@
}

/// What `seek` does next.
pub enum SeekPlan {
    /// Answer without seeking.
    Reply(CommandResult),
    /// Seek the guild's player to this position, in milliseconds.
    Seek(i64),
}

/// The plan that `seek` follows for a context, as a spec.
pub open spec fn seek_plan_spec(ctx: Context, playing: core::result::Result<bool, Error>, r: SeekPlan) -> bool {
    if ctx.guild_id is None {
        r matches SeekPlan::Reply(Err(Error::Missing))
    } else {
        match playing {
            Err(_) => r matches SeekPlan::Reply(res) && is_reply(res, warning(ERROR_SEEKING@)),
            Ok(false) => r matches SeekPlan::Reply(res) && is_reply(res, no_song_text()),
            Ok(true) => if ctx.args.len() == 0 {
                match ctx.prefix {
                    None => r matches SeekPlan::Reply(Err(Error::Missing)),
                    Some(p) => r matches SeekPlan::Reply(res) && is_reply(res, usage_text(p@)),
                }
            } else {
                match argument_time_ms(ctx.args[0]@) {
                    Some(t) => r == SeekPlan::Seek(t as i64),
                    None => match ctx.prefix {
                        None => r matches SeekPlan::Reply(Err(Error::Missing)),
                        Some(p) => r matches SeekPlan::Reply(res) && is_reply(res, bad_format_text(p@)),
                    },
                }
            },
        }
    }
}

impl SeekCommand {
    /// Parses a timestamp into milliseconds.
    pub fn argument_time(input: &str) -> (r: Option<i64>)
        ensures
            match argument_time_ms(input@) {
                Some(t) => r == Some(t as i64) && 0 <= t <= 215_999_000,
                None => r is None,
            },
    {
        let chars = chars_of(input);
        let parts = split_chars(&chars, ':');
        let ghost pv = parts@.map_values(|p: Vec<char>| p@);
        assert(pv == split_on(input@, ':'));
        if parts.len() > 3 {
            return None;
        }
        let mut numbers: Vec<u64> = Vec::new();
        let mut i: usize = 0;
        while i < parts.len()
            invariant
                i <= parts@.len() <= 3,
                pv == parts@.map_values(|p: Vec<char>| p@),
                pv == split_on(input@, ':'),
                numbers@.len() == i,
                forall|j: int| 0 <= j < i ==> clock_field(#[trigger] pv[j]) == Some(numbers@[j] as nat),
                forall|j: int| 0 <= j < i ==> numbers@[j] <= 59,
            decreases parts.len() - i,
        {
            assert(pv[i as int] == parts@[i as int]@);
            let num = match parse_unsigned_chars(&parts[i], 255) {
                Some(n) => n,
                None => {
                    assert(clock_field(pv[i as int]) is None);
                    return None;
                },
            };
            if num > 59 {
                assert(clock_field(pv[i as int]) is None);
                return None;
            }
            numbers.push(num);
            i = i + 1;
        }
        proof {
            lemma_split_on_nonempty(input@, ':');
            assert(forall|j: int| 0 <= j < pv.len() ==> #[trigger] clock_field(pv[j]) is Some);
        }
        let mut hours: u64 = 0;
        let mut minutes: u64 = 0;
        let seconds: u64;
        if parts.len() == 1 {
            seconds = numbers[0];
        } else if parts.len() == 2 {
            minutes = numbers[0];
            seconds = numbers[1];
        } else {
            hours = numbers[0];
            minutes = numbers[1];
            seconds = numbers[2];
        }
        let mut time: i64 = seconds as i64;
        if minutes > 0 {
            time = time + (minutes as i64) * 60;
        }
        if hours > 0 {
            time = time + (hours as i64) * 60 * 60;
        }
        Some(time * 1000)
    }

    /// Decides what `seek` does once it knows whether something is playing.
    pub fn plan(ctx: &Context, playing: core::result::Result<bool, Error>) -> (r: SeekPlan)
        ensures
            seek_plan_spec(*ctx, playing, r),
    {
        if ctx.guild_id().is_none() {
            return SeekPlan::Reply(Err(Error::Missing));
        }
        match playing {
            Ok(true) => {},
            Ok(false) => {
                return SeekPlan::Reply(no_song());
            },
            Err(_) => {
                return SeekPlan::Reply(Response::err(ERROR_SEEKING));
            },
        }
        if ctx.args.len() == 0 {
            return match ctx.prefix() {
                None => SeekPlan::Reply(Err(Error::Missing)),
                Some(p) => {
                    let mut s = owned("You need to say where you want to seek to!\n\nExample: `");
                    s.append(p);
                    s.append("seek 3:40` to seek to 3 minutes and 40 seconds");
                    SeekPlan::Reply(Response::_text(s))
                },
            };
        }
        match Self::argument_time(ctx.args[0].as_str()) {
            Some(position) => SeekPlan::Seek(position),
            None => match ctx.prefix() {
                None => SeekPlan::Reply(Err(Error::Missing)),
                Some(p) => {
                    let mut s = owned("That doesn't look like a valid time format.\n\nExample: `");
                    s.append(p);
                    s.append("seek 3:40` to seek to 3 minutes and 40 seconds");
                    SeekPlan::Reply(Response::_text(s))
                },
            },
        }
    }

    /// The reply once the player was asked to seek.
    pub fn finish(outcome: core::result::Result<(), Error>) -> (r: CommandResult)
        ensures
            outcome is Ok ==> is_reply(r, seeked_text()),
            outcome is Err ==> is_reply(r, warning(ERROR_SEEKING@)),
    {
        match outcome {
            Ok(()) => Response::text(
                "Jumped to the specified position. Use `!!!playing` to see the current song & position.",
            ),
            Err(_) => Response::err(ERROR_SEEKING),
        }
    }
}

impl Command for SeekCommand {
    fn names(&self) -> (r: &'static [&'static str])
        ensures
            strs(r@) == seq!["seek"@, "jump"@],
    {
        let r: &'static [&'static str] = &["seek", "jump"];
        assert(r@ =~= seq!["seek", "jump"]);
        r
    }

    fn description(&self) -> (r: &'static str)
        ensures
            r@ == "Skips to a certain timestamp in the current song."@,
    {
        "Skips to a certain timestamp in the current song."
    }
}

} // verus!
