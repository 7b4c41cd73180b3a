//! How long ago something happened.

use vstd::prelude::*;
use chrono::{DateTime, Days, Utc};

use crate::objects::Timestamp;

verus! {

/// The length of a day in seconds.
pub const SECONDS_PER_DAY: i64 = 86_400;

/// The first second that `chrono` can represent.
pub const FIRST_SECOND: i64 = -8_334_601_228_800;

/// The last second that `chrono` can represent.
pub const LAST_SECOND: i64 = 8_210_266_876_799;

impl Timestamp {
    /// The time is one that `chrono::DateTime<Utc>` can hold. More than a billion nanoseconds
    /// stand for a leap second, which only the last second of a minute can be.
    pub open spec fn is_valid(self) -> bool {
        &&& FIRST_SECOND <= self.secs <= LAST_SECOND
        &&& self.nanos < 2_000_000_000
        &&& self.nanos >= 1_000_000_000 ==> self.secs % 60 == 59
    }

    /// `self` is after `other`.
    pub open spec fn is_after(self, other: Timestamp) -> bool {
        self.secs > other.secs || (self.secs == other.secs && self.nanos > other.nanos)
    }

    /// Whether the time is one that `chrono::DateTime<Utc>` can hold.
    pub fn valid(self) -> (res: bool)
        ensures
            res == self.is_valid(),
    {
        FIRST_SECOND <= self.secs && self.secs <= LAST_SECOND && self.nanos < 2_000_000_000 && (
        self.nanos < 1_000_000_000 || is_last_of_minute(self.secs))
    }

    /// Whether `self` is after `other`.
    pub fn after(self, other: Timestamp) -> (res: bool)
        ensures
            res == self.is_after(other),
    {
        self.secs > other.secs || (self.secs == other.secs && self.nanos > other.nanos)
    }
}

/// Whether a second is the last one of its minute.
fn is_last_of_minute(secs: i64) -> (res: bool)
    requires
        FIRST_SECOND <= secs <= LAST_SECOND,
    ensures
        res == (secs % 60 == 59),
{
    // Counted from the first second, which begins a minute, no operand is negative.
    (secs - FIRST_SECOND) % 60 == 59
}

/// Going back from `now` by this number of days stays within what can be represented.
pub open spec fn days_before_is_representable(now: Timestamp, days: u64) -> bool {
    now.is_valid() && now.secs - days * SECONDS_PER_DAY >= FIRST_SECOND
}

/// Whether going back from `now` by this number of days stays within what can be represented.
pub fn can_go_back(now: Timestamp, days: u64) -> (res: bool)
    ensures
        res == days_before_is_representable(now, days),
{
    now.valid() && days <= 200_000_000 && now.secs - (days as i64) * SECONDS_PER_DAY
        >= FIRST_SECOND
}

/// `chrono`'s `DateTime<Utc> - Days`: the time of day stays, and the date goes back by the number
/// of days, each of which is 86 400 seconds long in UTC. The operator panics where the result
/// lies before the first second that it can represent; those arguments are left out, and so are
/// values that no `DateTime<Utc>` has.
#[verifier::external_body]
fn days_before(now: Timestamp, days: u64) -> (res: Timestamp)
    requires
        days_before_is_representable(now, days),
    ensures
        res.secs == now.secs - days * SECONDS_PER_DAY,
        res.nanos == now.nanos,
{
    let now: DateTime<Utc> = DateTime::from_timestamp(now.secs, now.nanos).unwrap();
    let earlier: DateTime<Utc> = now - Days::new(days);
    Timestamp { secs: earlier.timestamp(), nanos: earlier.timestamp_subsec_nanos() }
}

/// Something that happened at `published` is, at the time `now`, less than this number of days
/// ago.
pub open spec fn happened_within(published: Timestamp, now: Timestamp, days: u64) -> bool {
    let cutoff = now.secs - days * SECONDS_PER_DAY;
    published.secs > cutoff || (published.secs == cutoff && published.nanos > now.nanos)
}

/// Whether something that happened at `published` is, at the time `now`, less than this number
/// of days ago.
pub fn is_within(published: Timestamp, now: Timestamp, days: u64) -> (res: bool)
    requires
        days_before_is_representable(now, days),
    ensures
        res == happened_within(published, now, days),
{
    published.after(days_before(now, days))
}

/// What happened less than some number of days ago happened less than any greater number of days
/// ago.
pub proof fn more_days_reach_further(published: Timestamp, now: Timestamp, days: u64, more: u64)
    requires
        happened_within(published, now, days),
        days <= more,
    ensures
        happened_within(published, now, more),
{
}

/// What happened exactly a number of days ago did not happen less than that number of days ago;
/// what happened at any time after that did.
pub proof fn the_exact_age_is_out(published: Timestamp, now: Timestamp, days: u64, later: Timestamp)
    requires
        published.secs == now.secs - days * SECONDS_PER_DAY,
        published.nanos == now.nanos,
    ensures
        !happened_within(published, now, days),
        happened_within(later, now, days) == later.is_after(published),
{
}

/// As time goes by, what happened less than a number of days ago can stop to be so, and nothing
/// begins to be.
pub proof fn time_only_leaves_things_behind(
    published: Timestamp,
    earlier: Timestamp,
    now: Timestamp,
    days: u64,
)
    requires
        happened_within(published, now, days),
        !earlier.is_after(now),
    ensures
        happened_within(published, earlier, days),
{
}

} // verus!
