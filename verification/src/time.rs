//! Board times: parsing the feed's RFC 3339 timestamps (through `chrono`),
//! delays in whole minutes, and `HH:MM` clock text.

use vstd::prelude::*;
use chrono::Timelike;
use crate::model::TrainItem;
use crate::text::{push_two_digits, two_digits_seq};

verus! {

broadcast use vstd::string::group_string_axioms;

/// What `DateTime::parse_from_rfc3339` makes of a text: the instant as UNIX
/// seconds and sub-second nanoseconds, or `None` when the text is not RFC 3339.
pub uninterp spec fn rfc3339_instant(s: Seq<char>) -> Option<(i64, u32)>;

/// The whole seconds of the span from `earlier` to `later`, two instants
/// given as UNIX seconds and nanoseconds, as chrono's subtraction counts them
/// (with the nanoseconds carried into the seconds, rounded down). Nanoseconds of
/// a second or more mark a leap second; when the two instants lie on different
/// seconds of their days, a leap second at the earlier time of day counts as one
/// more second.
pub open spec fn span_seconds(later: (i64, u32), earlier: (i64, u32)) -> int {
    let day_later = later.0 as int % 86400;
    let day_earlier = earlier.0 as int % 86400;
    let leap = if day_later > day_earlier && earlier.1 >= 1_000_000_000 {
        1int
    } else if day_later < day_earlier && later.1 >= 1_000_000_000 {
        -1int
    } else {
        0int
    };
    later.0 - earlier.0 + leap + (later.1 - earlier.1) / 1_000_000_000
}

/// The nanoseconds left over beyond `span_seconds`, in `0..1_000_000_000`.
pub open spec fn span_nanos(later: (i64, u32), earlier: (i64, u32)) -> int {
    (later.1 - earlier.1) % 1_000_000_000
}

/// Integer division rounded toward zero.
pub open spec fn div_toward_zero(a: int, b: int) -> int {
    if a >= 0 {
        a / b
    } else {
        -((-a) / b)
    }
}

/// The whole minutes from `earlier` to `later`, rounded toward zero, as
/// chrono's `TimeDelta::num_minutes` gives them for the span.
pub open spec fn minutes_apart(later: (i64, u32), earlier: (i64, u32)) -> int {
    let secs = span_seconds(later, earlier);
    let whole = if secs < 0 && span_nanos(later, earlier) > 0 {
        secs + 1
    } else {
        secs
    };
    div_toward_zero(whole, 60)
}

/// Calls `chrono::DateTime::parse_from_rfc3339` and reads the instant with
/// `timestamp` and `timestamp_subsec_nanos`. The contract names the result.
#[verifier::external_body]
fn parse_rfc3339(s: &str) -> (r: Option<(i64, u32)>)
    ensures
        r == rfc3339_instant(s@),
{
    match chrono::DateTime::parse_from_rfc3339(s) {
        Ok(d) => Some((d.timestamp(), d.timestamp_subsec_nanos())),
        Err(_) => None,
    }
}

/// Rebuilds the two parsed instants with `DateTime::from_timestamp` (which
/// succeeds on every parsed instant) and calls chrono's subtraction and
/// `TimeDelta::num_minutes`. The contract states the result: the span's whole
/// minutes, rounded toward zero, with chrono's counting of leap seconds.
#[verifier::external_body]
fn chrono_minutes_between(later: (i64, u32), earlier: (i64, u32)) -> (r: i64)
    requires
        exists|a: Seq<char>| #[trigger] rfc3339_instant(a) == Some(later),
        exists|b: Seq<char>| #[trigger] rfc3339_instant(b) == Some(earlier),
    ensures
        r as int == minutes_apart(later, earlier),
{
    let a = chrono::DateTime::from_timestamp(later.0, later.1).unwrap();
    let b = chrono::DateTime::from_timestamp(earlier.0, earlier.1).unwrap();
    (a - b).num_minutes()
}

/// A UTC offset chrono can hold: less than a day either way, in seconds.
pub open spec fn offset_ok(offset: int) -> bool {
    -86400 < offset < 86400
}

/// The hour and minute that the instant `t` (UNIX seconds and nanoseconds)
/// reads on a clock `offset` seconds ahead of UTC.
pub open spec fn clock_at(t: (i64, u32), offset: int) -> (nat, nat) {
    let s = (t.0 + offset) % 86400;
    ((s / 3600) as nat, ((s / 60) % 60) as nat)
}

/// Rebuilds a parsed instant with `DateTime::from_timestamp`, converts it to
/// the machine's local time zone with `with_timezone(&Local)` and reads
/// `hour`, `minute` and the UTC offset chrono used (`offset().local_minus_utc()`).
/// Which offset that is depends on the machine's time zone and is left open;
/// the contract states what chrono's source gives for every outcome: the offset
/// is one `FixedOffset` can hold, and hour and minute are those of the instant
/// on a clock that far ahead of UTC. chrono's zone lookup fails only for
/// instants outside the years its rules can place, which a parsed RFC 3339
/// instant (years 0000 to 9999) never is, or for zone data with an offset of a
/// day or more, which chrono's zone reader accepts but cannot use; the latter
/// depends on the machine, not on the argument.
#[verifier::external_body]
fn local_hour_minute(t: (i64, u32)) -> (r: (u32, u32, i32))
    requires
        exists|a: Seq<char>| #[trigger] rfc3339_instant(a) == Some(t),
    ensures
        r.0 < 24,
        r.1 < 60,
        offset_ok(r.2 as int),
        (r.0 as nat, r.1 as nat) == clock_at(t, r.2 as int),
{
    let d = chrono::DateTime::from_timestamp(t.0, t.1).unwrap().with_timezone(&chrono::Local);
    (d.hour(), d.minute(), d.offset().local_minus_utc())
}

/// A local wall-clock time.
#[derive(Clone, Copy, PartialEq, Eq, Structural, Debug)]
pub struct ClockTime {
    pub hour: u32,
    pub minute: u32,
    pub second: u32,
}

impl ClockTime {
    /// A valid time of day.
    pub open spec fn wf(self) -> bool {
        self.hour < 24 && self.minute < 60 && self.second < 60
    }
}

/// `HH:MM`.
pub open spec fn hh_mm_seq(h: nat, m: nat) -> Seq<char> {
    two_digits_seq(h) + seq![':'] + two_digits_seq(m)
}

/// `HH:MM:SS`.
pub open spec fn hh_mm_ss_seq(t: ClockTime) -> Seq<char> {
    hh_mm_seq(t.hour as nat, t.minute as nat) + seq![':'] + two_digits_seq(t.second as nat)
}

/// The delay the board shows for a train, from its timestamps: `None` without
/// an expected time, when a timestamp does not parse, or when it is on time.
pub open spec fn delay_seq(scheduled: Seq<char>, expected: Option<Seq<char>>) -> Option<i64> {
    match expected {
        None => None,
        Some(e) => match (rfc3339_instant(scheduled), rfc3339_instant(e)) {
            (Some(s), Some(x)) => nonzero_seq(minutes_apart(x, s) as i64),
            _ => None,
        },
    }
}

/// A delay of zero minutes is no delay.
pub open spec fn nonzero_seq(minutes: i64) -> Option<i64> {
    if minutes != 0 {
        Some(minutes)
    } else {
        None
    }
}

/// Format hour and minute as `HH:MM`.
pub fn clock_hh_mm(h: u32, m: u32) -> (r: String)
    requires
        h < 100,
        m < 100,
    ensures
        r@ == hh_mm_seq(h as nat, m as nat),
{
    let mut r = String::new();
    push_two_digits(&mut r, h);
    r.push(':');
    push_two_digits(&mut r, m);
    r
}

/// Format a clock time as `HH:MM:SS`.
pub fn clock_hh_mm_ss(t: ClockTime) -> (r: String)
    requires
        t.wf(),
    ensures
        r@ == hh_mm_ss_seq(t),
{
    let mut r = clock_hh_mm(t.hour, t.minute);
    r.push(':');
    push_two_digits(&mut r, t.second);
    r
}

/// `out` is what the board shows for the timestamp `iso`: `-` when it does not
/// parse, otherwise its local time as `HH:MM` (the time zone is the machine's).
pub open spec fn shows_time(iso: Seq<char>, out: Seq<char>) -> bool {
    match rfc3339_instant(iso) {
        None => out == "-"@,
        Some(_) => exists|h: nat, m: nat| h < 24 && m < 60 && out == #[trigger] hh_mm_seq(h, m),
    }
}

/// `out` shows the timestamp `iso` on a clock `offset` seconds ahead of UTC:
/// `-` (and no offset) when it does not parse, otherwise the instant's `HH:MM`
/// on that clock.
pub open spec fn shows_time_at(iso: Seq<char>, out: Seq<char>, offset: Option<i32>) -> bool {
    match rfc3339_instant(iso) {
        None => out == "-"@ && offset is None,
        Some(t) => offset matches Some(o) && offset_ok(o as int) && out == hh_mm_seq(clock_at(t, o as int).0, clock_at(t, o as int).1),
    }
}

/// Format an RFC 3339 timestamp as local `HH:MM`, or `"-"` if unparseable,
/// together with the UTC offset of the local clock it was read on.
pub fn format_time_at(iso_time: &str) -> (r: (String, Option<i32>))
    ensures
        shows_time_at(iso_time@, r.0@, r.1),
        shows_time(iso_time@, r.0@),
{
    match parse_rfc3339(iso_time) {
        Some(t) => {
            let (h, m, offset) = local_hour_minute(t);
            let r = clock_hh_mm(h, m);
            assert(r@ == hh_mm_seq(h as nat, m as nat));
            (r, Some(offset))
        },
        None => {
            let mut r = String::new();
            r.push('-');
            proof {
                reveal_strlit("-");
            }
            assert(r@ =~= "-"@);
            (r, None)
        },
    }
}

/// Format an RFC 3339 timestamp as local `HH:MM`, or `"-"` if unparseable.
pub fn format_time(iso_time: &str) -> (r: String)
    ensures
        shows_time(iso_time@, r@),
        exists|offset: Option<i32>| shows_time_at(iso_time@, r@, offset),
{
    let (r, offset) = format_time_at(iso_time);
    r
}

/// A delay in minutes as the board reports it: `None` when it is zero.
pub fn nonzero_delay(minutes: i64) -> (r: Option<i64>)
    ensures
        r == nonzero_seq(minutes),
{
    if minutes != 0 {
        Some(minutes)
    } else {
        None
    }
}

/// Compute a train's delay in whole minutes (negative if early), returning
/// `None` when there is no expected time, the timestamps don't parse, or the
/// train is exactly on time.
pub fn calculate_delay(item: &TrainItem) -> (r: Option<i64>)
    ensures
        r == delay_seq(item.scheduled@, item.expected.deep_view()),
{
    let expected = match &item.expected {
        Some(e) => e,
        None => return None,
    };
    let scheduled = match parse_rfc3339(item.scheduled.as_str()) {
        Some(t) => t,
        None => return None,
    };
    let exp = match parse_rfc3339(expected.as_str()) {
        Some(t) => t,
        None => return None,
    };
    let minutes = chrono_minutes_between(exp, scheduled);
    nonzero_delay(minutes)
}

} // verus!
