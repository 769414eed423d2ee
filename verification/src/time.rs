//! Instants on the UTC time line, held as plain integers.

use vstd::prelude::*;

verus! {

/// An instant: whole seconds since 1970-01-01T00:00:00Z and the nanoseconds
/// past that second. During a leap second `nanos` runs up to 1_999_999_999.
#[derive(Clone, Copy, Debug, PartialEq, Eq, Structural)]
pub struct Timestamp {
    pub seconds: i64,
    pub nanos: u32,
}

impl Timestamp {
    /// `self` lies strictly later on the time line than `other`.
    pub open spec fn later_than(self, other: Timestamp) -> bool {
        self.seconds > other.seconds || (self.seconds == other.seconds && self.nanos
            > other.nanos)
    }

    /// The instant `seconds` whole seconds after the epoch.
    pub fn from_seconds(seconds: i64) -> (t: Timestamp)
        ensures
            t == (Timestamp { seconds, nanos: 0 }),
    {
        Timestamp { seconds, nanos: 0 }
    }

    /// Whether `self` is strictly later than `other`.
    pub fn is_after(&self, other: &Timestamp) -> (later: bool)
        ensures
            later == self.later_than(*other),
    {
        self.seconds > other.seconds || (self.seconds == other.seconds && self.nanos > other.nanos)
    }
}

/// Two instants are never each later than the other, and of two different
/// instants one is later.
pub proof fn lemma_later_than_total(a: Timestamp, b: Timestamp)
    ensures
        !(a.later_than(b) && b.later_than(a)),
        a != b ==> a.later_than(b) || b.later_than(a),
        !a.later_than(a),
{
}

/// The instant that chrono reads out of `text` as a date and time with an
/// offset, in the relaxed RFC 3339 form that it accepts for UTC instants:
/// the seconds and nanoseconds of the instant, or `None` where it rejects
/// the text.
pub uninterp spec fn parsed_instant(text: Seq<char>) -> Option<(i64, u32)>;

/// The RFC 3339 text that chrono writes for the instant with these seconds
/// and nanoseconds, or `None` where chrono has no date for them.
pub uninterp spec fn rfc3339_text(seconds: i64, nanos: u32) -> Option<Seq<char>>;

/// The instant that chrono reaches by adding `by` seconds to the instant
/// with these seconds and nanoseconds, or `None` where it has no date for
/// either instant or no duration of `by` seconds.
pub uninterp spec fn shifted_instant(seconds: i64, nanos: u32, by: i64) -> Option<(i64, u32)>;

/// The whole seconds that chrono counts from the second instant to the
/// first, rounded towards zero, or `None` where it has no date for one of
/// them.
pub uninterp spec fn seconds_from(
    seconds: i64,
    nanos: u32,
    since_seconds: i64,
    since_nanos: u32,
) -> Option<i64>;

/// The instant made of the two numbers.
pub open spec fn instant_of(parts: Option<(i64, u32)>) -> Option<Timestamp> {
    match parts {
        Some((seconds, nanos)) => Some(Timestamp { seconds, nanos }),
        None => None,
    }
}

/// Calls chrono's parser for `DateTime<Utc>` (`str::parse`, that is its
/// `FromStr`), and takes the result apart with `timestamp` and
/// `timestamp_subsec_nanos`. Trusted: the result is what the parser reads
/// out of `text`.
#[verifier::external_body]
pub(crate) fn parse_instant(text: &str) -> (instant: Option<Timestamp>)
    ensures
        instant == instant_of(parsed_instant(text@)),
{
    match text.parse::<chrono::DateTime<chrono::Utc>>() {
        Ok(at) => Some(Timestamp { seconds: at.timestamp(), nanos: at.timestamp_subsec_nanos() }),
        Err(_) => None,
    }
}

/// Calls chrono's `DateTime::to_rfc3339` on the instant that
/// `DateTime::from_timestamp` makes of the two numbers. Trusted: the result
/// is the text that chrono writes, and `None` where `from_timestamp` has no
/// date for the numbers.
#[verifier::external_body]
pub(crate) fn format_instant(at: Timestamp) -> (text: Option<String>)
    ensures
        text.deep_view() == rfc3339_text(at.seconds, at.nanos),
{
    match chrono::DateTime::from_timestamp(at.seconds, at.nanos) {
        Some(at) => Some(at.to_rfc3339()),
        None => None,
    }
}

/// Calls chrono's `DateTime::checked_add_signed` with the `TimeDelta` that
/// `TimeDelta::try_seconds` makes of `by`. Trusted: the result is the
/// instant that chrono computes, and `None` where it has no date for the
/// instant given or the one computed, or no duration of `by` seconds.
#[verifier::external_body]
pub(crate) fn shift_instant(at: Timestamp, by: i64) -> (moved: Option<Timestamp>)
    ensures
        moved == instant_of(shifted_instant(at.seconds, at.nanos, by)),
{
    let start = chrono::DateTime::from_timestamp(at.seconds, at.nanos)?;
    let moved = start.checked_add_signed(chrono::TimeDelta::try_seconds(by)?)?;
    Some(Timestamp { seconds: moved.timestamp(), nanos: moved.timestamp_subsec_nanos() })
}

/// Calls chrono's `DateTime::signed_duration_since` and reads the result
/// with `TimeDelta::num_seconds`. Trusted: the result is the number that
/// chrono computes, and `None` where it has no date for one of the instants.
#[verifier::external_body]
pub(crate) fn seconds_between(at: Timestamp, since: Timestamp) -> (elapsed: Option<i64>)
    ensures
        elapsed == seconds_from(at.seconds, at.nanos, since.seconds, since.nanos),
{
    let end = chrono::DateTime::from_timestamp(at.seconds, at.nanos)?;
    let start = chrono::DateTime::from_timestamp(since.seconds, since.nanos)?;
    Some(end.signed_duration_since(start).num_seconds())
}

/// Reads the clock with chrono's `Utc::now`. Nothing is known of the
/// result. chrono gives up where the clock stands before 1970.
#[verifier::external_body]
pub(crate) fn current_instant() -> Timestamp {
    let now = chrono::Utc::now();
    Timestamp { seconds: now.timestamp(), nanos: now.timestamp_subsec_nanos() }
}

/// The seconds of eight in the evening, UTC, of the day that holds the
/// second `seconds`.
pub open spec fn evening_seconds(seconds: int) -> int {
    (seconds / 86_400) * 86_400 + 72_000
}

impl Timestamp {
    /// Eight in the evening, UTC, of the day of `self`; `None` for an
    /// instant within a day of either end of what the seconds can count.
    pub fn evening(&self) -> (evening: Option<Timestamp>)
        ensures
            evening == if i64::MIN + 86_400 <= self.seconds <= i64::MAX - 72_000 {
                Some(Timestamp { seconds: evening_seconds(self.seconds as int) as i64, nanos: 0 })
            } else {
                None
            },
    {
        if self.seconds < i64::MIN + 86_400 || self.seconds > i64::MAX - 72_000 {
            return None;
        }
        let rest = self.seconds % 86_400;
        let midnight = if rest < 0 {
            self.seconds - rest - 86_400
        } else {
            self.seconds - rest
        };
        Some(Timestamp { seconds: midnight + 72_000, nanos: 0 })
    }
}

} // verus!
