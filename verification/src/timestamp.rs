//! Instants on the UTC time line.
//!
//! A log line carries its time as text with a UTC offset. The library keeps
//! the instant as two integers, which order events; the calendar is chrono's.

use std::fmt::Write;
use vstd::prelude::*;
use vstd::string::*;

verus! {

/// An instant: whole seconds since 1970-01-01T00:00:00Z, not counting leap
/// seconds, and the nanoseconds past that second. Within a leap second the
/// nanoseconds go on from 1,000,000,000. Instants are ordered by the seconds
/// and then by the nanoseconds.
#[derive(Clone, Copy, Debug, PartialEq, Eq, Structural)]
pub struct Timestamp {
    pub secs: i64,
    pub nanos: u32,
}

/// The instant that a text in the RFC 3339 date-time format denotes, as
/// `chrono::DateTime::parse_from_rfc3339` reads it: seconds since the epoch
/// and nanoseconds of the second. `None` where chrono rejects the text.
pub uninterp spec fn rfc3339_instant(raw: Seq<char>) -> Option<(i64, u32)>;

/// What `chrono::DateTime::format` writes under a `strftime` pattern for
/// the UTC instant of the given seconds and nanoseconds, which is handed to
/// it as `chrono::DateTime::from_timestamp` makes it. `None` where
/// `from_timestamp` has no such instant or the pattern cannot be written.
pub uninterp spec fn instant_text(secs: i64, nanos: u32, pattern: Seq<char>) -> Option<Seq<char>>;

/// `chrono::DateTime::parse_from_rfc3339`, read off with `timestamp` and
/// `timestamp_subsec_nanos`. The contract only names the result.
#[verifier::external_body]
fn read_rfc3339(raw: &str) -> (r: Option<(i64, u32)>)
    ensures
        r == rfc3339_instant(raw@),
{
    match chrono::DateTime::parse_from_rfc3339(raw) {
        Ok(dt) => Some((dt.timestamp(), dt.timestamp_subsec_nanos())),
        Err(_) => None,
    }
}

/// `chrono::DateTime::format`, from plain values to a string: the instant
/// is handed to it as `chrono::DateTime::from_timestamp` makes it of the two
/// integers. The contract only names the result.
#[verifier::external_body]
fn write_instant(secs: i64, nanos: u32, pattern: &str) -> (r: Option<String>)
    ensures
        match r {
            Some(text) => instant_text(secs, nanos, pattern@) == Some(text@),
            None => instant_text(secs, nanos, pattern@) is None,
        },
{
    let dt = chrono::DateTime::from_timestamp(secs, nanos)?;
    let mut out = String::new();
    match write!(out, "{}", dt.format(pattern)) {
        Ok(()) => Some(out),
        Err(_) => None,
    }
}

/// The pattern of the clock text at the head of every summary: date and
/// time of day, to the second.
pub const CLOCK_PATTERN: &'static str = "%Y-%m-%d %H:%M:%S";

/// The timestamp that a token denotes, given what the calendar made of it.
pub open spec fn timestamp_of(instant: Option<(i64, u32)>) -> Option<Timestamp> {
    match instant {
        Some(p) => Some(Timestamp { secs: p.0, nanos: p.1 }),
        None => None,
    }
}

/// The clock text of a summary, given what the calendar wrote: its text, or
/// nothing where it has none.
pub open spec fn clock_or_empty(written: Option<Seq<char>>) -> Seq<char> {
    match written {
        Some(text) => text,
        None => Seq::empty(),
    }
}

/// The nanoseconds in a second.
pub const NANOS_PER_SEC: u32 = 1_000_000_000;

/// How far an instant lies from the epoch, in nanoseconds: the seconds and
/// nanoseconds given, counted back from the epoch where `before` says so.
pub open spec fn offset_nanos(before: bool, secs: u64, nanos: u32) -> int {
    if before {
        -(secs * 1_000_000_000 + nanos)
    } else {
        secs * 1_000_000_000 + nanos
    }
}

/// The instant that lies the given seconds and nanoseconds after the epoch,
/// or before it: its seconds are the whole seconds up to the instant, its
/// nanoseconds what is left. An instant whose seconds no `i64` holds is
/// taken for the last, or the first, that one holds.
pub open spec fn instant_at(before: bool, secs: u64, nanos: u32) -> Timestamp {
    let t = offset_nanos(before, secs, nanos);
    let whole = t / 1_000_000_000;
    if whole > i64::MAX {
        Timestamp { secs: i64::MAX, nanos: 999_999_999 }
    } else if whole < i64::MIN {
        Timestamp { secs: i64::MIN, nanos: 0 }
    } else {
        Timestamp { secs: whole as i64, nanos: (t % 1_000_000_000) as u32 }
    }
}

impl Timestamp {
    /// The nanoseconds from the epoch to this instant.
    pub open spec fn epoch_nanos(self) -> int {
        self.secs * 1_000_000_000 + self.nanos
    }

    /// The instant that lies the given seconds and nanoseconds after the
    /// epoch, or before it where `before_epoch` says so. Where an `i64`
    /// holds its seconds, it lies exactly that far from the epoch and its
    /// nanoseconds are less than a second.
    pub fn from_epoch_offset(before_epoch: bool, secs: u64, nanos: u32) -> (r: Timestamp)
        ensures
            r == instant_at(before_epoch, secs, nanos),
            i64::MIN <= offset_nanos(before_epoch, secs, nanos) / 1_000_000_000 <= i64::MAX ==> {
                &&& r.epoch_nanos() == offset_nanos(before_epoch, secs, nanos)
                &&& r.nanos < NANOS_PER_SEC
            },
    {
        let total: u128 = secs as u128 * 1_000_000_000 + nanos as u128;
        let whole: u128 = total / 1_000_000_000;
        let frac: u128 = total % 1_000_000_000;
        let limit: u128 = 0x8000_0000_0000_0000;
        if !before_epoch {
            if whole >= limit {
                Timestamp { secs: i64::MAX, nanos: 999_999_999 }
            } else {
                Timestamp { secs: whole as i64, nanos: frac as u32 }
            }
        } else if frac == 0 {
            if whole >= limit {
                Timestamp { secs: i64::MIN, nanos: 0 }
            } else {
                Timestamp { secs: -(whole as i64), nanos: 0 }
            }
        } else {
            if whole >= limit {
                Timestamp { secs: i64::MIN, nanos: 0 }
            } else {
                Timestamp { secs: -(whole as i64) - 1, nanos: (1_000_000_000 - frac) as u32 }
            }
        }
    }

    /// Whether `self` is strictly earlier than `other`.
    pub open spec fn before(self, other: Timestamp) -> bool {
        self.secs < other.secs || (self.secs == other.secs && self.nanos < other.nanos)
    }

    /// Whether `self` is no later than `other`.
    pub open spec fn not_after(self, other: Timestamp) -> bool {
        !other.before(self)
    }

    /// The clock text of this instant: date and time of day in UTC.
    pub open spec fn clock(self) -> Seq<char> {
        clock_or_empty(instant_text(self.secs, self.nanos, CLOCK_PATTERN@))
    }

    /// Whether `self` is strictly earlier than `other`.
    pub fn is_before(&self, other: &Timestamp) -> (r: bool)
        ensures
            r == self.before(*other),
    {
        self.secs < other.secs || (self.secs == other.secs && self.nanos < other.nanos)
    }

    /// The instant of the given seconds and nanoseconds.
    pub fn new(secs: i64, nanos: u32) -> (r: Timestamp)
        ensures
            r == (Timestamp { secs, nanos }),
    {
        Timestamp { secs, nanos }
    }

    /// Writes the date and time of day in UTC, `YYYY-MM-DD hh:mm:ss`.
    pub fn clock_text(&self) -> (r: String)
        ensures
            r@ == self.clock(),
    {
        clock_text_from(write_instant(self.secs, self.nanos, CLOCK_PATTERN))
    }
}

/// Of two instants whose nanoseconds are less than a second, the one that
/// is before the other lies fewer nanoseconds from the epoch.
pub proof fn lemma_before_is_earlier(a: Timestamp, b: Timestamp)
    requires
        a.nanos < NANOS_PER_SEC,
        b.nanos < NANOS_PER_SEC,
    ensures
        a.before(b) <==> a.epoch_nanos() < b.epoch_nanos(),
{
}

/// The clock text for what the calendar wrote.
pub fn clock_text_from(written: Option<String>) -> (r: String)
    ensures
        r@ == clock_or_empty(
            match written {
                Some(t) => Some(t@),
                None => None,
            },
        ),
{
    match written {
        Some(text) => text,
        None => String::new(),
    }
}

/// The timestamp for what the calendar read.
pub fn timestamp_from(instant: Option<(i64, u32)>) -> (r: Option<Timestamp>)
    ensures
        r == timestamp_of(instant),
{
    match instant {
        Some(p) => Some(Timestamp { secs: p.0, nanos: p.1 }),
        None => None,
    }
}

/// Reads the timestamp token of a log line.
pub fn parse_timestamp(raw: &str) -> (r: Option<Timestamp>)
    ensures
        r == timestamp_of(rfc3339_instant(raw@)),
{
    timestamp_from(read_rfc3339(raw))
}

} // verus!
