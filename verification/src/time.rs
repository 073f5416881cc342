//! Points in time and calendar dates as plain integers.

use vstd::prelude::*;
use crate::outside::current_time;

verus! {

/// Seconds in the thirty day window within which a submission number must be unique.
pub const UNIQUENESS_WINDOW_SECONDS: i64 = 2592000;

/// Seconds from the Unix epoch to midnight on 1 January of year 1, which the gateway
/// uses to say "no time given".
pub const UNSET_TIMESTAMP_SECONDS: i64 = -62135596800;

/// Day number, counted from 1 January of year 1 as day 1, which the gateway uses
/// to say "no date given".
pub const UNSET_DATE_DAYS: i32 = 1;

/// An instant in UTC: whole seconds since the Unix epoch and the nanoseconds within the second.
#[derive(Clone, Copy, Debug, PartialEq, Eq, Structural)]
pub struct Timestamp {
    pub seconds: i64,
    pub nanos: u32,
}

/// A calendar date in the proleptic Gregorian calendar, counted in days with
/// 1 January of year 1 as day 1.
#[derive(Clone, Copy, Debug, PartialEq, Eq, Structural)]
pub struct Date {
    pub days_from_ce: i32,
}

impl Timestamp {
    /// Whether `self` is no earlier than `other`, comparing seconds first and
    /// nanoseconds second.
    pub open spec fn spec_at_or_after(self, other: Timestamp) -> bool {
        self.seconds > other.seconds || (self.seconds == other.seconds && self.nanos >= other.nanos)
    }

    /// Where the uniqueness window that ends at `self` starts: thirty days
    /// earlier, or at the earliest time there is where that is out of range.
    pub open spec fn spec_window_start(self) -> Timestamp {
        if self.seconds - UNIQUENESS_WINDOW_SECONDS >= i64::MIN {
            Timestamp { seconds: (self.seconds - UNIQUENESS_WINDOW_SECONDS) as i64, nanos: self.nanos }
        } else {
            Timestamp { seconds: i64::MIN, nanos: 0 }
        }
    }

    #[verifier::when_used_as_spec(spec_at_or_after)]
    pub fn at_or_after(self, other: Timestamp) -> (r: bool)
        ensures
            r == self.spec_at_or_after(other),
    {
        self.seconds > other.seconds || (self.seconds == other.seconds && self.nanos >= other.nanos)
    }

    #[verifier::when_used_as_spec(spec_window_start)]
    pub fn window_start(self) -> (r: Timestamp)
        ensures
            r == self.spec_window_start(),
    {
        match self.seconds.checked_sub(UNIQUENESS_WINDOW_SECONDS) {
            Some(seconds) => Timestamp { seconds, nanos: self.nanos },
            None => Timestamp { seconds: i64::MIN, nanos: 0 },
        }
    }
}

/// Seconds in a day.
pub const SECONDS_PER_DAY: i64 = 86400;

/// The day number of 1 January 1970.
pub const UNIX_EPOCH_DAY: i32 = 719163;

impl Timestamp {
    /// The UTC date that the instant falls on; nothing where its day number does not fit 32 bits.
    pub open spec fn spec_date(self) -> Option<Date> {
        let day = self.seconds as int / (SECONDS_PER_DAY as int) + UNIX_EPOCH_DAY;
        if i32::MIN <= day <= i32::MAX {
            Some(Date { days_from_ce: day as i32 })
        } else {
            None
        }
    }

    /// The UTC date that the instant falls on.
    #[verifier::when_used_as_spec(spec_date)]
    pub fn date(self) -> (r: Option<Date>)
        ensures
            r == self.spec_date(),
    {
        let whole: i64 = if self.seconds >= 0 {
            self.seconds / SECONDS_PER_DAY
        } else {
            -((-(self.seconds + 1)) / SECONDS_PER_DAY) - 1
        };
        assert(whole == self.seconds as int / (SECONDS_PER_DAY as int)) by (nonlinear_arith)
            requires
                SECONDS_PER_DAY == 86400,
                whole == (if self.seconds >= 0 {
                    self.seconds as int / 86400
                } else {
                    -((-(self.seconds as int + 1)) / 86400) - 1
                }),
        ;
        let day: i64 = whole + 719163;
        if day < -2147483648 || day > 2147483647 {
            None
        } else {
            Some(Date { days_from_ce: day as i32 })
        }
    }

    /// Whether the instant is the one that the gateway uses to say "no time given".
    pub open spec fn spec_is_unset(self) -> bool {
        self.seconds == UNSET_TIMESTAMP_SECONDS && self.nanos == 0
    }

    /// Whether the instant is the one that the gateway uses to say "no time given".
    #[verifier::when_used_as_spec(spec_is_unset)]
    pub fn is_unset(self) -> (r: bool)
        ensures
            r == self.spec_is_unset(),
    {
        self.seconds == UNSET_TIMESTAMP_SECONDS && self.nanos == 0
    }
}

/// Today's date in UTC, as the clock has it.
pub(crate) fn today() -> Date {
    let now = current_time();
    now.date().unwrap()
}

impl Date {
    /// The instant at which the date begins in UTC.
    pub open spec fn spec_midnight(self) -> Timestamp {
        Timestamp { seconds: ((self.days_from_ce - UNIX_EPOCH_DAY) * SECONDS_PER_DAY) as i64, nanos: 0 }
    }

    /// The instant at which the date begins in UTC.
    #[verifier::when_used_as_spec(spec_midnight)]
    pub fn midnight(self) -> (r: Timestamp)
        ensures
            r == self.spec_midnight(),
    {
        let days: i64 = self.days_from_ce as i64 - 719163;
        Timestamp { seconds: days * 86400, nanos: 0 }
    }

    /// Whether the date is the one that the gateway uses to say "no date given".
    pub open spec fn spec_is_unset(self) -> bool {
        self.days_from_ce == UNSET_DATE_DAYS
    }

    /// Whether the date is the one that the gateway uses to say "no date given".
    #[verifier::when_used_as_spec(spec_is_unset)]
    pub fn is_unset(self) -> (r: bool)
        ensures
            r == self.spec_is_unset(),
    {
        self.days_from_ce == UNSET_DATE_DAYS
    }
}

} // verus!
