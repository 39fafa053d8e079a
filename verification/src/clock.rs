//! Calendar days and instants as plain values, and the one place where the
//! system clock is read.

use chrono::Datelike;
use vstd::prelude::*;

verus! {

/// A calendar day in the proleptic Gregorian calendar.
#[derive(Clone, Copy, Debug, PartialEq, Eq, Structural)]
pub struct Date {
    pub year: i32,
    pub month: u32,
    pub day: u32,
}

impl Date {
    /// Calendar order: by year, then month, then day.
    pub open spec fn before(self, other: Date) -> bool {
        self.year < other.year || (self.year == other.year && (self.month < other.month || (
        self.month == other.month && self.day < other.day)))
    }

    pub fn new(year: i32, month: u32, day: u32) -> (date: Date)
        ensures
            date == (Date { year, month, day }),
    {
        Date { year, month, day }
    }

    /// Whether this day comes strictly before `other`.
    pub fn is_before(&self, other: &Date) -> (earlier: bool)
        ensures
            earlier == self.before(*other),
    {
        if self.year != other.year {
            self.year < other.year
        } else if self.month != other.month {
            self.month < other.month
        } else {
            self.day < other.day
        }
    }
}

/// An instant on the UTC time line: whole seconds since the Unix epoch and the
/// nanoseconds past that second.
#[derive(Clone, Copy, Debug, PartialEq, Eq, Structural)]
pub struct Timestamp {
    pub secs: i64,
    pub nanos: u32,
}

impl Timestamp {
    /// Time order: `self` is not earlier than `other`.
    pub open spec fn at_or_after(self, other: Timestamp) -> bool {
        self.secs > other.secs || (self.secs == other.secs && self.nanos >= other.nanos)
    }

    pub fn new(secs: i64, nanos: u32) -> (stamp: Timestamp)
        ensures
            stamp == (Timestamp { secs, nanos }),
    {
        Timestamp { secs, nanos }
    }

    /// Whether this instant is `other` or later.
    pub fn is_at_or_after(&self, other: &Timestamp) -> (later: bool)
        ensures
            later == self.at_or_after(*other),
    {
        if self.secs != other.secs {
            self.secs > other.secs
        } else {
            self.nanos >= other.nanos
        }
    }
}

/// One reading of the clock: the instant and the UTC calendar day it falls on.
#[derive(Clone, Copy, Debug, PartialEq, Eq, Structural)]
pub struct Reading {
    pub date: Date,
    pub stamp: Timestamp,
}

/// Reads the system clock through `chrono::Utc::now` and takes the reading
/// apart into plain numbers: the day by `date_naive` and `Datelike`'s `year`,
/// `month` and `day`, the instant by `timestamp` and `timestamp_subsec_nanos`.
/// Nothing is claimed of the values: they are whatever the clock says.
#[verifier::external_body]
pub(crate) fn now() -> (reading: Reading) {
    let t = chrono::Utc::now();
    let d = t.date_naive();
    Reading {
        date: Date { year: d.year(), month: d.month(), day: d.day() },
        stamp: Timestamp { secs: t.timestamp(), nanos: t.timestamp_subsec_nanos() },
    }
}

} // verus!
