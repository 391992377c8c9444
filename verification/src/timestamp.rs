//! Points in time, and how much time lies between them.

use vstd::prelude::*;

verus! {

/// The first second that a timestamp can hold (January 1 of the year -262143).
pub const EARLIEST_SECS: i64 = -8_334_601_228_800;

/// The last second that a timestamp can hold (December 31 of the year 262142).
pub const LATEST_SECS: i64 = 8_210_266_876_799;

pub const NANOS_PER_SEC: u32 = 1_000_000_000;

pub const SECS_PER_DAY: i64 = 86_400;

/// A point in UTC time: whole seconds since 1970-01-01T00:00:00Z and the
/// nanoseconds since then. The nanoseconds of a leap second run on from
/// `NANOS_PER_SEC`, in the last second of a minute.
#[derive(Clone, Copy, Debug, PartialEq, Eq, Structural)]
pub struct Timestamp {
    secs: i64,
    nanos: u32,
}

/// What a timestamp holds, as numbers.
pub struct TimestampView {
    pub secs: int,
    pub nanos: int,
}

impl View for Timestamp {
    type V = TimestampView;

    closed spec fn view(&self) -> TimestampView {
        TimestampView { secs: self.secs as int, nanos: self.nanos as int }
    }
}

/// Whether a point in time lies in the range of the calendar, with nanoseconds
/// that fit its second.
pub open spec fn representable(t: TimestampView) -> bool {
    &&& EARLIEST_SECS <= t.secs <= LATEST_SECS
    &&& 0 <= t.nanos < 2 * NANOS_PER_SEC
    &&& is_leap(t) ==> t.secs % 60 == 59
}

/// Whether a point in time lies in a leap second.
pub open spec fn is_leap(t: TimestampView) -> bool {
    t.nanos >= NANOS_PER_SEC
}

/// The second of the day.
pub open spec fn second_of_day(t: TimestampView) -> int {
    t.secs % (SECS_PER_DAY as int)
}

/// The leap second that `later.secs - earlier.secs` leaves out: the one that
/// `earlier` lies in, if `later` is further on in the day, or the one that
/// `later` lies in, if it is not as far on.
pub open spec fn uncounted_leap_seconds(later: TimestampView, earlier: TimestampView) -> int {
    if second_of_day(later) > second_of_day(earlier) && is_leap(earlier) {
        1
    } else if second_of_day(later) < second_of_day(earlier) && is_leap(later) {
        -1
    } else {
        0
    }
}

/// Nanoseconds from `earlier` to `later`; negative if `later` comes first.
pub open spec fn nanos_between(later: TimestampView, earlier: TimestampView) -> int {
    (later.secs - earlier.secs + uncounted_leap_seconds(later, earlier)) * NANOS_PER_SEC
        + later.nanos - earlier.nanos
}

/// Whole seconds from `earlier` to `later`, rounded toward zero.
pub open spec fn whole_seconds_between(later: TimestampView, earlier: TimestampView) -> int {
    let nanos = nanos_between(later, earlier);
    if nanos >= 0 {
        nanos / (NANOS_PER_SEC as int)
    } else {
        -((-nanos) / (NANOS_PER_SEC as int))
    }
}

/// The RFC 3339 text of the point in UTC time that lies `secs` seconds and
/// `nanos` nanoseconds after 1970-01-01T00:00:00Z, as `chrono` writes it.
pub uninterp spec fn rfc3339_text(secs: int, nanos: int) -> Seq<char>;

/// Trusted: `chrono::Utc::now`, read out with `DateTime::timestamp` and
/// `DateTime::timestamp_subsec_nanos`. Nothing is said of which time it is, only
/// that it is one that a `DateTime` can hold, not before 1970 and never inside
/// a leap second. The outside call panics on a machine whose clock is set before
/// 1970 or past the end of the calendar; no clause can speak of the clock.
#[verifier::external_body]
pub(crate) fn utc_now() -> (now: Timestamp)
    ensures
        representable(now@),
        now@.secs >= 0,
        !is_leap(now@),
{
    let now = chrono::Utc::now();
    Timestamp { secs: now.timestamp(), nanos: now.timestamp_subsec_nanos() }
}

/// Trusted: `chrono::DateTime::signed_duration_since`, in the whole seconds
/// that `TimeDelta::num_seconds` counts. Both points are handed over through
/// `DateTime::from_timestamp`, which takes every representable one. Claimed of
/// the result: the difference of the two points, a leap second counted where
/// one of them lies in it, rounded toward zero.
#[verifier::external_body]
fn seconds_between(later: Timestamp, earlier: Timestamp) -> (secs: i64)
    requires
        representable(later@),
        representable(earlier@),
    ensures
        secs == whole_seconds_between(later@, earlier@),
{
    let later = chrono::DateTime::from_timestamp(later.secs, later.nanos).unwrap();
    let earlier = chrono::DateTime::from_timestamp(earlier.secs, earlier.nanos).unwrap();
    later.signed_duration_since(earlier).num_seconds()
}

/// Trusted: `chrono::DateTime::to_rfc3339` on a time in UTC, which is handed
/// over through `DateTime::from_timestamp`. The text has a name,
/// `rfc3339_text`; all that is claimed is that it depends on the point in time
/// alone.
#[verifier::external_body]
fn to_rfc3339(at: Timestamp) -> (text: String)
    requires
        representable(at@),
    ensures
        text@ == rfc3339_text(at@.secs, at@.nanos),
{
    chrono::DateTime::from_timestamp(at.secs, at.nanos).unwrap().to_rfc3339()
}

impl Timestamp {
    #[verifier::type_invariant]
    spec fn in_range(self) -> bool {
        representable(self@)
    }

    /// The point in time `secs` seconds and `nanos` nanoseconds after
    /// 1970-01-01T00:00:00Z, if the calendar has it.
    pub fn new(secs: i64, nanos: u32) -> (at: Option<Timestamp>)
        ensures
            at is Some <==> representable(
                (TimestampView { secs: secs as int, nanos: nanos as int }),
            ),
            at matches Some(t) ==> t@ == (TimestampView { secs: secs as int, nanos: nanos as int }),
    {
        if secs < EARLIEST_SECS || secs > LATEST_SECS || nanos >= 2 * NANOS_PER_SEC {
            return None;
        }
        if nanos >= NANOS_PER_SEC {
            // A minute starts at EARLIEST_SECS.
            let shifted: u64 = (secs - EARLIEST_SECS) as u64;
            if shifted % 60 != 59 {
                return None;
            }
        }
        Some(Timestamp { secs, nanos })
    }

    pub fn secs(&self) -> (secs: i64)
        ensures
            secs == self@.secs,
    {
        self.secs
    }

    pub fn nanos(&self) -> (nanos: u32)
        ensures
            nanos == self@.nanos,
    {
        self.nanos
    }

    /// How many whole seconds ago `earlier` was, seen from here; zero if it
    /// still lies ahead.
    pub fn seconds_since(&self, earlier: &Timestamp) -> (secs: i64)
        ensures
            secs == elapsed_seconds(self@, earlier@),
            secs >= 0,
    {
        proof {
            use_type_invariant(self);
            use_type_invariant(earlier);
        }
        let secs: i64 = seconds_between(*self, *earlier);
        if secs > 0 {
            secs
        } else {
            0
        }
    }

    /// This point in time in RFC 3339 form.
    pub fn rfc3339(&self) -> (text: String)
        ensures
            text@ == rfc3339_text(self@.secs, self@.nanos),
    {
        proof {
            use_type_invariant(self);
        }
        to_rfc3339(*self)
    }
}

/// Whole seconds from `earlier` to `now`, not below zero.
pub open spec fn elapsed_seconds(now: TimestampView, earlier: TimestampView) -> int {
    let secs = whole_seconds_between(now, earlier);
    if secs > 0 {
        secs
    } else {
        0
    }
}

/// Time only adds up: as the clock moves on, the seconds since a fixed point do
/// not become fewer. This is stated for points outside leap seconds.
pub proof fn elapsed_seconds_never_shrink(
    now: TimestampView,
    later: TimestampView,
    earlier: TimestampView,
)
    requires
        representable(now),
        representable(later),
        representable(earlier),
        !is_leap(now),
        !is_leap(later),
        !is_leap(earlier),
        nanos_between(later, now) >= 0,
    ensures
        elapsed_seconds(later, earlier) >= elapsed_seconds(now, earlier),
{
    assert(nanos_between(later, earlier) == nanos_between(later, now) + nanos_between(
        now,
        earlier,
    ));
}

/// Which points in time the calendar has: those from its first to its last second,
/// and leap seconds only at the end of a minute.
pub proof fn calendar_range(t: TimestampView)
    ensures
        representable(t) <==> {
            &&& -8_334_601_228_800 <= t.secs <= 8_210_266_876_799
            &&& 0 <= t.nanos < 1_000_000_000 || (1_000_000_000 <= t.nanos < 2_000_000_000
                && t.secs % 60 == 59)
        },
{
}

/// Outside leap seconds, a number of whole seconds has passed exactly when at least
/// that many times a thousand million nanoseconds lie between the two points.
pub proof fn whole_seconds_have_passed(now: TimestampView, earlier: TimestampView, secs: int)
    requires
        0 <= now.nanos < 1_000_000_000,
        0 <= earlier.nanos < 1_000_000_000,
        secs > 0,
    ensures
        whole_seconds_between(now, earlier) >= secs <==> (now.secs - earlier.secs)
            * 1_000_000_000 + now.nanos - earlier.nanos >= secs * 1_000_000_000,
        elapsed_seconds(now, earlier) >= secs <==> (now.secs - earlier.secs) * 1_000_000_000
            + now.nanos - earlier.nanos >= secs * 1_000_000_000,
        elapsed_seconds(now, earlier) >= 0,
{
}

/// A point inside a leap second: the second that it lies in counts once more where the
/// other point is further on in its day.
pub proof fn leap_second_counts_once(now: TimestampView, earlier: TimestampView, secs: int)
    requires
        representable(now),
        representable(earlier),
        secs > 0,
    ensures
        ({
            let extra: int = if earlier.nanos >= 1_000_000_000 && now.secs % 86_400 > earlier.secs
                % 86_400 {
                1
            } else if now.nanos >= 1_000_000_000 && now.secs % 86_400 < earlier.secs % 86_400 {
                -1
            } else {
                0
            };
            elapsed_seconds(now, earlier) >= secs <==> (now.secs - earlier.secs + extra)
                * 1_000_000_000 + now.nanos - earlier.nanos >= secs * 1_000_000_000
        }),
{
}

} // verus!
