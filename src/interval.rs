//! Windows of time for the statistics.

use vstd::prelude::*;

use crate::clock::{now_timestamp, EARLIEST_TIMESTAMP};

verus! {

pub const DAY_SECONDS: i64 = 24 * 60 * 60;

pub const WEEK_SECONDS: i64 = 7 * DAY_SECONDS;

pub const MONTH_SECONDS: i64 = 30 * DAY_SECONDS;

pub const YEAR_SECONDS: i64 = 365 * DAY_SECONDS;

/// The window of time over which statistics are gathered, ending now.
#[derive(Debug, Clone, Copy, PartialEq, Eq, Structural)]
pub enum TimeInterval {
    Week,
    Month,
    Year,
    AllTime,
}

/// The length of the window in seconds; the whole history has none.
pub open spec fn seconds_of(interval: TimeInterval) -> Option<i64> {
    match interval {
        TimeInterval::Week => Some(WEEK_SECONDS),
        TimeInterval::Month => Some(MONTH_SECONDS),
        TimeInterval::Year => Some(YEAR_SECONDS),
        TimeInterval::AllTime => None,
    }
}

/// The earliest timestamp inside the window that ends at `now`; none for the whole history.
pub open spec fn cutoff_of(interval: TimeInterval, now: i64) -> Option<i64> {
    match seconds_of(interval) {
        Some(s) => Some((now - s) as i64),
        None => None,
    }
}

pub open spec fn label_of(interval: TimeInterval) -> Seq<char> {
    match interval {
        TimeInterval::Week => "Week"@,
        TimeInterval::Month => "Month"@,
        TimeInterval::Year => "Year"@,
        TimeInterval::AllTime => "All Time"@,
    }
}

impl TimeInterval {
    pub fn to_seconds(&self) -> (r: Option<i64>)
        ensures
            r == seconds_of(*self),
    {
        match self {
            TimeInterval::Week => Some(WEEK_SECONDS),
            TimeInterval::Month => Some(MONTH_SECONDS),
            TimeInterval::Year => Some(YEAR_SECONDS),
            TimeInterval::AllTime => None,
        }
    }

    /// The earliest timestamp inside the window that ends at `now`.
    pub fn cutoff_at(&self, now: i64) -> (r: Option<i64>)
        requires
            seconds_of(*self) matches Some(s) ==> now - s >= i64::MIN,
        ensures
            r == cutoff_of(*self, now),
    {
        match self.to_seconds() {
            Some(seconds) => Some(now - seconds),
            None => None,
        }
    }

    /// The earliest timestamp inside the window that ends at the present moment.
    pub fn cutoff(&self) -> (r: Option<i64>)
        ensures
            exists|now: i64| now >= EARLIEST_TIMESTAMP && r == #[trigger] cutoff_of(*self, now),
    {
        let now = now_timestamp();
        self.cutoff_at(now)
    }

    /// The window's name, as shown above its statistics.
    pub fn label(&self) -> (r: &'static str)
        ensures
            r@ == label_of(*self),
    {
        match self {
            TimeInterval::Week => "Week",
            TimeInterval::Month => "Month",
            TimeInterval::Year => "Year",
            TimeInterval::AllTime => "All Time",
        }
    }

    /// The window that the command-line flags ask for: the first of week, month and year that
    /// is set, and the whole history otherwise.
    pub fn from_flags(week: bool, month: bool, year: bool) -> (r: TimeInterval)
        ensures
            r == if week {
                TimeInterval::Week
            } else if month {
                TimeInterval::Month
            } else if year {
                TimeInterval::Year
            } else {
                TimeInterval::AllTime
            },
    {
        if week {
            TimeInterval::Week
        } else if month {
            TimeInterval::Month
        } else if year {
            TimeInterval::Year
        } else {
            TimeInterval::AllTime
        }
    }
}

} // verus!
