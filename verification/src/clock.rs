//! The current moment, and dates written as phrases ("last friday",
//! "2026-08-28") read relative to it.

use vstd::prelude::*;

use crate::date::Date;
use crate::editor::{is_space, is_space_char};
use crate::text::push_char;

verus! {

/// Largest UTC offset `time::UtcOffset` holds, in seconds (25:59:59).
pub const MAX_OFFSET_SECONDS: i32 = 93599;

/// An instant as a clock on the wall shows it: the local date, the time of
/// day and the offset from UTC that was in force.
#[derive(Clone, Copy, Debug, PartialEq, Eq, Structural)]
pub struct Moment {
    /// The local date.
    pub date: Date,
    /// The hour of the day, `0..24`.
    pub hour: u8,
    /// The minute of the hour.
    pub minute: u8,
    /// The second of the minute.
    pub second: u8,
    /// Nanoseconds into the second.
    pub nanosecond: u32,
    /// Offset of local time from UTC, in seconds.
    pub offset_seconds: i32,
}

impl Moment {
    /// The fields hold values `time::OffsetDateTime` can represent.
    pub open spec fn wf(self) -> bool {
        &&& self.hour < 24
        &&& self.minute < 60
        &&& self.second < 60
        &&& self.nanosecond < 1_000_000_000
        &&& -MAX_OFFSET_SECONDS <= self.offset_seconds <= MAX_OFFSET_SECONDS
    }
}

/// The date `interim::parse_date_string` reads from `text` (in its US
/// dialect) relative to the moment given by the other arguments, as a
/// Julian day, or `None` where it reads no date.
pub uninterp spec fn interim_date(
    text: Seq<char>,
    now_day: int,
    now_hour: int,
    now_minute: int,
    now_second: int,
    now_nanosecond: int,
    offset_seconds: int,
) -> Option<int>;

/// The date `interim` reads from `text` relative to `now`.
pub open spec fn phrase_date(text: Seq<char>, now: Moment) -> Option<int> {
    interim_date(
        text,
        now.date.julian_day_spec(),
        now.hour as int,
        now.minute as int,
        now.second as int,
        now.nanosecond as int,
        now.offset_seconds as int,
    )
}

/// The current moment in the local time zone, or in UTC where the local
/// offset cannot be determined, as its Julian day, hour, minute, second,
/// nanosecond and offset from UTC in seconds.
///
/// Trusted: `time::OffsetDateTime::now_local`, falling back to
/// `time::OffsetDateTime::now_utc`. It reads the system clock and time
/// zone, so only the ranges `time` keeps its fields in are stated.
#[verifier::external_body]
fn clock_reading() -> (r: (i32, u8, u8, u8, u32, i32))
    ensures
        crate::date::MIN_JULIAN_DAY <= r.0 <= crate::date::MAX_JULIAN_DAY,
        r.1 < 24,
        r.2 < 60,
        r.3 < 60,
        r.4 < 1_000_000_000,
        -MAX_OFFSET_SECONDS <= r.5 <= MAX_OFFSET_SECONDS,
{
    let t = time::OffsetDateTime::now_local().unwrap_or_else(|_| time::OffsetDateTime::now_utc());
    let (hour, minute, second) = t.time().as_hms();
    (t.date().to_julian_day(), hour, minute, second, t.nanosecond(), t.offset().whole_seconds())
}

/// The current moment in the local time zone, or in UTC where the local
/// offset cannot be determined.
pub(crate) fn now() -> (m: Moment)
    ensures
        m.wf(),
{
    let (julian, hour, minute, second, nanosecond, offset_seconds) = clock_reading();
    let date = Date::from_julian_day(julian).unwrap();
    Moment { date, hour, minute, second, nanosecond, offset_seconds }
}

/// Today's local date.
pub fn today() -> (d: Date) {
    now().date
}

/// The Julian day of the date `text` names relative to the moment given by
/// the other arguments.
///
/// Trusted: `interim::parse_date_string` with `interim::Dialect::Us`, given
/// that moment built as a `time::OffsetDateTime`, keeping the date of the
/// result as its Julian day. The contract names that result, and says a
/// date outside `time`'s range never comes back.
#[verifier::external_body]
fn interim_parse(text: &str, julian: i32, hour: u8, minute: u8, second: u8, nanosecond: u32, offset_seconds: i32) -> (r: Option<i32>)
    requires
        crate::date::MIN_JULIAN_DAY <= julian <= crate::date::MAX_JULIAN_DAY,
        hour < 24,
        minute < 60,
        second < 60,
        nanosecond < 1_000_000_000,
        -MAX_OFFSET_SECONDS <= offset_seconds <= MAX_OFFSET_SECONDS,
    ensures
        match r {
            Some(j) => interim_date(text@, julian as int, hour as int, minute as int, second as int,
                nanosecond as int, offset_seconds as int) == Some(j as int)
                && crate::date::MIN_JULIAN_DAY <= j <= crate::date::MAX_JULIAN_DAY,
            None => interim_date(text@, julian as int, hour as int, minute as int, second as int,
                nanosecond as int, offset_seconds as int) is None,
        },
{
    let date = time::Date::from_julian_day(julian).unwrap();
    let clock = time::Time::from_hms_nano(hour, minute, second, nanosecond).unwrap();
    let offset = time::UtcOffset::from_whole_seconds(offset_seconds).unwrap();
    let now_dt = time::PrimitiveDateTime::new(date, clock).assume_offset(offset);
    match interim::parse_date_string(text, now_dt, interim::Dialect::Us) {
        Ok(dt) => Some(dt.date().to_julian_day()),
        Err(_) => None,
    }
}

/// The date `text` names relative to `now`, read as the command line's
/// `--date` and the terminal UI's date prompt read it.
pub fn parse_date_phrase(text: &str, now: &Moment) -> (r: Option<Date>)
    requires
        now.wf(),
    ensures
        match r {
            Some(d) => phrase_date(text@, *now) == Some(d.julian_day_spec()),
            None => phrase_date(text@, *now) is None,
        },
{
    let day = now.date.julian_day();
    match interim_parse(text, day, now.hour, now.minute, now.second, now.nanosecond, now.offset_seconds) {
        Some(j) => Date::from_julian_day(j),
        None => None,
    }
}

/// `s` without its leading and trailing white space, as `str::trim` cuts it.
pub open spec fn trimmed(s: Seq<char>) -> Seq<char>
    decreases s.len(),
{
    if s.len() == 0 {
        s
    } else if is_space(s[0]) {
        trimmed(s.drop_first())
    } else if is_space(s.last()) {
        trimmed(s.drop_last())
    } else {
        s
    }
}

/// The first index in `s` at or after `i` that is not white space, or
/// `s.len()`.
proof fn lemma_trimmed_range(s: Seq<char>, a: int, b: int)
    requires
        0 <= a <= b <= s.len(),
        forall|k: int| 0 <= k < a ==> is_space(#[trigger] s[k]),
        forall|k: int| b <= k < s.len() ==> is_space(#[trigger] s[k]),
        a < b ==> !is_space(s[a]) && !is_space(s[b - 1]),
        a == b ==> forall|k: int| 0 <= k < s.len() ==> is_space(#[trigger] s[k]),
    ensures
        trimmed(s) == s.subrange(a, b),
    decreases s.len(),
{
    if s.len() == 0 {
        assert(s.subrange(a, b) =~= s);
    } else if is_space(s[0]) {
        let t = s.drop_first();
        if a == b {
            assert forall|k: int| 0 <= k < t.len() implies is_space(#[trigger] t[k]) by {
                assert(t[k] == s[k + 1]);
            }
            lemma_trimmed_range(t, 0, 0);
            assert(s.subrange(a, b) =~= t.subrange(0, 0));
        } else {
            assert(a > 0);
            assert forall|k: int| 0 <= k < a - 1 implies is_space(#[trigger] t[k]) by {
                assert(t[k] == s[k + 1]);
            }
            assert forall|k: int| b - 1 <= k < t.len() implies is_space(#[trigger] t[k]) by {
                assert(t[k] == s[k + 1]);
            }
            lemma_trimmed_range(t, a - 1, b - 1);
            assert(s.subrange(a, b) =~= t.subrange(a - 1, b - 1));
        }
    } else if is_space(s.last()) {
        let t = s.drop_last();
        assert(a == 0 && a < b);
        assert(b < s.len());
        assert forall|k: int| b <= k < t.len() implies is_space(#[trigger] t[k]) by {
            assert(t[k] == s[k]);
        }
        lemma_trimmed_range(t, a, b);
        assert(s.subrange(a, b) =~= t.subrange(a, b));
    } else {
        assert(a == 0);
        assert(b == s.len());
        assert(s.subrange(a, b) =~= s);
    }
}

/// `s` without its leading and trailing white space.
pub fn trim(s: &str) -> (r: String)
    ensures
        r@ == trimmed(s@),
{
    let n = s.unicode_len();
    let mut a: usize = 0;
    while a < n && is_space_char(s.get_char(a))
        invariant
            n == s@.len(),
            a <= n,
            forall|k: int| 0 <= k < a ==> is_space(#[trigger] s@[k]),
        decreases n - a,
    {
        a = a + 1;
    }
    let mut b: usize = n;
    while b > a && is_space_char(s.get_char(b - 1))
        invariant
            n == s@.len(),
            a <= b <= n,
            forall|k: int| b <= k < n ==> is_space(#[trigger] s@[k]),
        decreases b,
    {
        b = b - 1;
    }
    proof {
        if a == b {
            assert forall|k: int| 0 <= k < s@.len() implies is_space(#[trigger] s@[k]) by {
                if k >= a {
                    assert(k >= b);
                }
            }
        }
        lemma_trimmed_range(s@, a as int, b as int);
    }
    let mut out = String::new();
    let mut i = a;
    while i < b
        invariant
            n == s@.len(),
            a <= i <= b <= n,
            out@ == s@.subrange(a as int, i as int),
        decreases b - i,
    {
        let c = s.get_char(i);
        push_char(&mut out, c);
        assert(out@ =~= s@.subrange(a as int, i + 1));
        i = i + 1;
    }
    out
}

/// What the date prompt says when it was left blank.
pub open spec fn blank_prompt_message() -> Seq<char> {
    "Enter a date"@
}

/// What the date prompt says of `text` when no date can be read from it.
pub open spec fn unparsed_prompt_message(text: Seq<char>) -> Seq<char> {
    "Could not parse date: "@ + text
}

/// The date prompt's answer for the trimmed input `text`, given the date
/// `interim` read from it (`parsed`).
pub fn prompt_answer(text: &str, parsed: Option<Date>) -> (r: Result<Date, String>)
    ensures
        text@.len() == 0 ==> (r matches Err(m) && m@ == blank_prompt_message()),
        text@.len() > 0 ==> match parsed {
            Some(d) => r == Ok::<Date, String>(d),
            None => r matches Err(m) && m@ == unparsed_prompt_message(text@),
        },
{
    if text.unicode_len() == 0 {
        let m = String::from_str("Enter a date");
        proof {
            reveal_strlit("Enter a date");
        }
        return Err(m);
    }
    match parsed {
        Some(d) => Ok(d),
        None => {
            let mut m = String::from_str("Could not parse date: ");
            proof {
                reveal_strlit("Could not parse date: ");
            }
            m.append(text);
            Err(m)
        },
    }
}

/// Read the date prompt's `input` as a date relative to `now`, exactly the
/// way the command line's `--date` reads it, once the input is trimmed: a
/// blank input is refused before it reaches the parser.
pub fn parse_prompt(input: &str, now: &Moment) -> (r: Result<Date, String>)
    requires
        now.wf(),
    ensures
        trimmed(input@).len() == 0 ==> (r matches Err(m) && m@ == blank_prompt_message()),
        trimmed(input@).len() > 0 ==> match phrase_date(trimmed(input@), *now) {
            Some(j) => r matches Ok(d) && d.julian_day_spec() == j,
            None => r matches Err(m) && m@ == unparsed_prompt_message(trimmed(input@)),
        },
{
    let t = trim(input);
    if t.unicode_len() == 0 {
        return prompt_answer(t.as_str(), None);
    }
    let parsed = parse_date_phrase(t.as_str(), now);
    prompt_answer(t.as_str(), parsed)
}

/// The date a run reports on: the requested phrase read relative to
/// `now`, else today. Where a phrase was given and no date could be read
/// from it, the phrase comes back too, so that the caller can say so.
pub fn resolve_requested_date(date_str: Option<String>, now: &Moment) -> (r: (Date, Option<String>))
    requires
        now.wf(),
    ensures
        match date_str {
            None => r.0 == now.date && r.1 is None,
            Some(s) => match phrase_date(s@, *now) {
                Some(j) => r.0.julian_day_spec() == j && r.1 is None,
                None => r.0 == now.date && (r.1 matches Some(u) && u@ == s@),
            },
        },
{
    match date_str {
        None => (now.date, None),
        Some(s) => match parse_date_phrase(s.as_str(), now) {
            Some(d) => (d, None),
            None => (now.date, Some(s)),
        },
    }
}

} // verus!
