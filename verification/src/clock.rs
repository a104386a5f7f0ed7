//! Points in time as the settings store them, and the calendar arithmetic
//! that the update cooldown needs, done by chrono.

use vstd::prelude::*;

verus! {

/// A point in time: whole seconds since 1970-01-01 00:00:00 and the
/// nanoseconds within that second (from one billion up during a leap
/// second), as chrono's `NaiveDateTime` holds it.
#[derive(Clone, Copy, Debug, PartialEq, Eq, Structural)]
pub struct Timestamp {
    pub secs: i64,
    pub nanos: u32,
}

/// The earliest second that chrono can represent (year -262143, January 1).
pub open spec fn min_secs() -> int {
    -8_334_601_228_800
}

/// The latest second that chrono can represent (year 262142, December 31).
pub open spec fn max_secs() -> int {
    8_210_266_876_799
}

impl Timestamp {
    /// A time that is not inside a leap second and that chrono can hold.
    pub open spec fn is_regular(self) -> bool {
        &&& self.nanos < 1_000_000_000
        &&& min_secs() <= self.secs <= max_secs()
    }

    /// A time that chrono can hold: within its range, with the part of the
    /// second below one billion nanoseconds, or below two billion in the
    /// last second of a minute (a leap second).
    pub open spec fn is_valid(self) -> bool {
        &&& min_secs() <= self.secs <= max_secs()
        &&& (self.nanos < 1_000_000_000 || (self.nanos < 2_000_000_000 && self.secs % 60 == 59))
    }

    /// Nanoseconds since the epoch; for regular times this orders them.
    pub open spec fn total_nanos(self) -> int {
        self.secs * 1_000_000_000 + self.nanos
    }

    /// The order of chrono's date-times: by second, then by the part of
    /// the second.
    pub open spec fn at_or_after(self, other: Timestamp) -> bool {
        self.secs > other.secs || (self.secs == other.secs && self.nanos >= other.nanos)
    }

    /// 1970-01-01 00:00:00, the time that stands in for one never recorded.
    pub open spec fn epoch_spec() -> Timestamp {
        Timestamp { secs: 0, nanos: 0 }
    }

    /// 1970-01-01 00:00:00.
    pub fn epoch() -> (t: Timestamp)
        ensures
            t == Self::epoch_spec(),
    {
        Timestamp { secs: 0, nanos: 0 }
    }

    /// Whether this time is the same as or later than `other`.
    pub fn is_at_or_after(&self, other: &Timestamp) -> (r: bool)
        ensures
            r == self.at_or_after(*other),
    {
        self.secs > other.secs || (self.secs == other.secs && self.nanos >= other.nanos)
    }
}

/// For regular times, the order of chrono's date-times is the order of
/// the instants.
pub proof fn lemma_order_is_instant_order(a: Timestamp, b: Timestamp)
    requires
        a.is_regular(),
        b.is_regular(),
    ensures
        a.at_or_after(b) <==> a.total_nanos() >= b.total_nanos(),
{
    assert(a.at_or_after(b) <==> a.total_nanos() >= b.total_nanos()) by (nonlinear_arith)
        requires
            a.nanos < 1_000_000_000,
            b.nanos < 1_000_000_000,
    ;
}

/// What chrono's `Display` writes for a time.
pub uninterp spec fn datetime_text(t: Timestamp) -> Seq<char>;

/// How a time is shown: as chrono displays it, or empty for a time that
/// chrono cannot hold.
pub open spec fn shown_time(t: Timestamp) -> Seq<char> {
    if t.is_valid() {
        datetime_text(t)
    } else {
        Seq::empty()
    }
}

/// Division that rounds toward zero, as Rust's integer division does.
pub open spec fn div_toward_zero(a: int, b: int) -> int {
    if a >= 0 {
        a / b
    } else {
        -((-a) / b)
    }
}

/// The seconds and nanoseconds of `t` moved `minutes` back, as chrono
/// does it: sixty seconds per minute; a time inside a leap second that
/// moves at all first leaves it, for the start of the next second.
pub open spec fn moved_back(t: Timestamp, minutes: int) -> (int, int) {
    if t.nanos >= 1_000_000_000 && minutes > 0 {
        (t.secs + 1 - 60 * minutes, t.nanos - 1_000_000_000)
    } else {
        (t.secs - 60 * minutes, t.nanos as int)
    }
}

/// The seconds and nanoseconds of `t` moved `minutes` forward, as chrono
/// does it: sixty seconds per minute; a time inside a leap second that
/// moves at all first leaves it, for the same second.
pub open spec fn moved_forward(t: Timestamp, minutes: int) -> (int, int) {
    if t.nanos >= 1_000_000_000 && minutes > 0 {
        (t.secs + 60 * minutes, t.nanos - 1_000_000_000)
    } else {
        (t.secs + 60 * minutes, t.nanos as int)
    }
}

/// The time with the given seconds and nanoseconds.
pub open spec fn stamp(p: (int, int)) -> Timestamp {
    Timestamp { secs: p.0 as i64, nanos: p.1 as u32 }
}

/// What chrono's `NaiveDateTime::checked_sub_signed` gives for a time and
/// a number of whole minutes: the time moved back as `moved_back` says, or
/// nothing when that is earlier than chrono's range or when chrono cannot
/// hold the time itself.
pub open spec fn minus_minutes(t: Timestamp, minutes: u16) -> Option<Timestamp> {
    if t.is_valid() && moved_back(t, minutes as int).0 >= min_secs() {
        Some(stamp(moved_back(t, minutes as int)))
    } else {
        None
    }
}

/// What chrono's `NaiveDateTime::checked_add_signed` gives for a time and
/// a number of whole minutes: the time moved forward as `moved_forward`
/// says, or nothing when that is later than chrono's range or when chrono
/// cannot hold the time itself.
pub open spec fn plus_minutes(t: Timestamp, minutes: u16) -> Option<Timestamp> {
    if t.is_valid() && moved_forward(t, minutes as int).0 <= max_secs() {
        Some(stamp(moved_forward(t, minutes as int)))
    } else {
        None
    }
}

/// `t` moved `minutes` back.
///
/// Trusted: converts to a chrono `NaiveDateTime` (`DateTime::from_timestamp`,
/// which refuses a time chrono cannot hold) and calls
/// `NaiveDateTime::checked_sub_signed` with `TimeDelta::minutes`. The
/// contract states the result of chrono's code
/// (`NaiveTime::overflowing_add_signed` and the date's range check) as
/// `minus_minutes`.
#[verifier::external_body]
pub(crate) fn sub_minutes(t: Timestamp, minutes: u16) -> (r: Option<Timestamp>)
    ensures
        r == minus_minutes(t, minutes),
{
    let d = chrono::DateTime::from_timestamp(t.secs, t.nanos)?.naive_utc();
    let s = d.checked_sub_signed(chrono::TimeDelta::minutes(minutes as i64))?.and_utc();
    Some(Timestamp { secs: s.timestamp(), nanos: s.timestamp_subsec_nanos() })
}

/// `t` moved `minutes` forward.
///
/// Trusted: converts to a chrono `NaiveDateTime` (`DateTime::from_timestamp`,
/// which refuses a time chrono cannot hold) and calls
/// `NaiveDateTime::checked_add_signed` with `TimeDelta::minutes`. The
/// contract states the result of chrono's code as `plus_minutes`.
#[verifier::external_body]
pub(crate) fn add_minutes(t: Timestamp, minutes: u16) -> (r: Option<Timestamp>)
    ensures
        r == plus_minutes(t, minutes),
{
    let d = chrono::DateTime::from_timestamp(t.secs, t.nanos)?.naive_utc();
    let s = d.checked_add_signed(chrono::TimeDelta::minutes(minutes as i64))?.and_utc();
    Some(Timestamp { secs: s.timestamp(), nanos: s.timestamp_subsec_nanos() })
}

/// The nanoseconds from `earlier` to `later` as chrono's
/// `signed_duration_since` counts them: the whole days between the dates,
/// plus the difference of the times of day, where a leap second passed
/// between the two times of day counts as a second of its own.
pub open spec fn elapsed_nanos(later: Timestamp, earlier: Timestamp) -> int {
    let day_a = later.secs / 86400;
    let day_b = earlier.secs / 86400;
    let tod_a = later.secs % 86400;
    let tod_b = earlier.secs % 86400;
    let leap = if tod_a > tod_b && earlier.nanos >= 1_000_000_000 {
        1int
    } else if tod_a < tod_b && later.nanos >= 1_000_000_000 {
        -1int
    } else {
        0int
    };
    (86400 * (day_a - day_b) + (tod_a - tod_b) + leap) * 1_000_000_000 + later.nanos - earlier.nanos
}

/// Outside leap seconds, chrono's count of the time between two times is
/// the difference of the instants.
pub proof fn lemma_elapsed_is_instant_gap(later: Timestamp, earlier: Timestamp)
    requires
        later.is_regular(),
        earlier.is_regular(),
    ensures
        elapsed_nanos(later, earlier) == later.total_nanos() - earlier.total_nanos(),
{
    assert(later.secs == 86400 * (later.secs / 86400) + later.secs % 86400);
    assert(earlier.secs == 86400 * (earlier.secs / 86400) + earlier.secs % 86400);
}

/// What chrono's `signed_duration_since` followed by `num_minutes` gives
/// for two times: the time between them counted as `elapsed_nanos` says,
/// in whole seconds rounded toward zero, then in whole minutes rounded
/// toward zero; nothing when chrono cannot hold one of them.
pub open spec fn minutes_between(later: Timestamp, earlier: Timestamp) -> Option<i64> {
    if later.is_valid() && earlier.is_valid() {
        Some(div_toward_zero(div_toward_zero(elapsed_nanos(later, earlier), 1_000_000_000), 60) as i64)
    } else {
        None
    }
}

/// The whole minutes from `earlier` to `later`, rounded toward zero.
///
/// Trusted: converts both to chrono `NaiveDateTime`s
/// (`DateTime::from_timestamp`) and calls
/// `NaiveDateTime::signed_duration_since`, then `TimeDelta::num_minutes`.
/// The contract states the result of chrono's code as `minutes_between`.
#[verifier::external_body]
pub(crate) fn whole_minutes_between(later: Timestamp, earlier: Timestamp) -> (r: Option<i64>)
    ensures
        r == minutes_between(later, earlier),
{
    let a = chrono::DateTime::from_timestamp(later.secs, later.nanos)?.naive_utc();
    let b = chrono::DateTime::from_timestamp(earlier.secs, earlier.nanos)?.naive_utc();
    Some(a.signed_duration_since(b).num_minutes())
}

/// The time as chrono displays it, such as `2015-06-30 23:59:60.500`.
///
/// Trusted: converts to a chrono `NaiveDateTime` and formats it with its
/// `Display`. For a time chrono can hold the result is named
/// `datetime_text`; its format is not stated. A time that chrono cannot
/// hold (`DateTime::from_timestamp` refuses it) gives the empty string.
#[verifier::external_body]
pub(crate) fn display_datetime(t: Timestamp) -> (r: String)
    ensures
        t.is_valid() ==> r@ == datetime_text(t),
        !t.is_valid() ==> r@ == Seq::<char>::empty(),
{
    match chrono::DateTime::from_timestamp(t.secs, t.nanos) {
        Some(d) => d.naive_utc().to_string(),
        None => String::new(),
    }
}

/// Moving a time by whole minutes keeps the part of the second and moves
/// the instant by sixty seconds per minute.
pub proof fn lemma_shift_is_instant_shift(moved: Timestamp, t: Timestamp, minutes: int)
    requires
        moved.secs == t.secs + 60 * minutes,
        moved.nanos == t.nanos,
    ensures
        moved.total_nanos() == t.total_nanos() + minutes * 60_000_000_000,
{
    assert(moved.total_nanos() == t.total_nanos() + minutes * 60_000_000_000) by (nonlinear_arith)
        requires
            moved.secs == t.secs + 60 * minutes,
            moved.nanos == t.nanos,
    ;
}

} // verus!
