//! Civil dates and local wall-clock instants of the run.
use vstd::prelude::*;
use crate::text::{padded_spec, push_padded, push_separator};

verus! {

/// Leap years of the proleptic Gregorian calendar.
pub open spec fn is_leap_year(year: nat) -> bool {
    (year % 4 == 0 && year % 100 != 0) || year % 400 == 0
}

/// Number of days in `month` (1 to 12) of `year`.
pub open spec fn days_in_month(year: nat, month: nat) -> nat {
    if month == 2 {
        if is_leap_year(year) {
            29
        } else {
            28
        }
    } else if month == 4 || month == 6 || month == 9 || month == 11 {
        30
    } else {
        31
    }
}

/// A calendar day with a four-digit year.
#[derive(Clone, Copy, Debug, PartialEq, Eq, Structural)]
pub struct CalendarDate {
    pub year: u16,
    pub month: u8,
    pub day: u8,
}

/// A local wall-clock instant, to the second.
#[derive(Clone, Copy, Debug, PartialEq, Eq, Structural)]
pub struct LocalDateTime {
    pub date: CalendarDate,
    pub hour: u8,
    pub minute: u8,
    pub second: u8,
}

impl CalendarDate {
    /// The fields name a real day of a year from 0 to 9999.
    pub open spec fn wf(&self) -> bool {
        &&& self.year <= 9999
        &&& 1 <= self.month <= 12
        &&& 1 <= self.day <= days_in_month(self.year as nat, self.month as nat)
    }

    /// The date `year-month-day`, or `None` when no such day exists or the
    /// year has more than four digits.
    pub fn new(year: u16, month: u8, day: u8) -> (r: Option<CalendarDate>)
        ensures
            r matches Some(d) ==> d.wf() && d.year == year && d.month == month && d.day == day,
            r is None <==> !(CalendarDate { year, month, day }).wf(),
    {
        if year > 9999 || month < 1 || month > 12 || day < 1 {
            return None;
        }
        let leap = (year % 4 == 0 && year % 100 != 0) || year % 400 == 0;
        let last: u8 = if month == 2 {
            if leap {
                29
            } else {
                28
            }
        } else if month == 4 || month == 6 || month == 9 || month == 11 {
            30
        } else {
            31
        };
        if day > last {
            None
        } else {
            Some(CalendarDate { year, month, day })
        }
    }

    /// `YYYY-MM-DD`.
    pub open spec fn text_spec(&self) -> Seq<char> {
        padded_spec(self.year as nat, 4) + seq!['-'] + padded_spec(self.month as nat, 2) + seq!['-']
            + padded_spec(self.day as nat, 2)
    }

    /// Appends `YYYY-MM-DD` to `out`.
    pub fn push_text(&self, out: &mut String)
        ensures
            final(out)@ == old(out)@ + self.text_spec(),
    {
        proof {
            reveal_strlit("-");
        }
        push_padded(out, self.year as u64, 4);
        push_separator(out, "-");
        push_padded(out, self.month as u64, 2);
        push_separator(out, "-");
        push_padded(out, self.day as u64, 2);
        assert(final(out)@ =~= old(out)@ + self.text_spec());
    }
}

impl LocalDateTime {
    /// A valid date and a time of day from 00:00:00 to 23:59:59.
    pub open spec fn wf(&self) -> bool {
        &&& self.date.wf()
        &&& self.hour < 24
        &&& self.minute < 60
        &&& self.second < 60
    }

    /// The instant at the given date and time of day, or `None` when the
    /// date is invalid or the time of day is out of range.
    pub fn new(date: CalendarDate, hour: u8, minute: u8, second: u8) -> (r: Option<LocalDateTime>)
        requires
            date.wf(),
        ensures
            r matches Some(t) ==> t.wf() && t == (LocalDateTime { date, hour, minute, second }),
            r is None <==> !(hour < 24 && minute < 60 && second < 60),
    {
        if hour < 24 && minute < 60 && second < 60 {
            Some(LocalDateTime { date, hour, minute, second })
        } else {
            None
        }
    }

    /// `DD-MM-YYYY_HH-MM-SS`, the form used in export file names.
    pub open spec fn stamp_spec(&self) -> Seq<char> {
        padded_spec(self.date.day as nat, 2) + seq!['-'] + padded_spec(self.date.month as nat, 2)
            + seq!['-'] + padded_spec(self.date.year as nat, 4) + seq!['_'] + padded_spec(
            self.hour as nat,
            2,
        ) + seq!['-'] + padded_spec(self.minute as nat, 2) + seq!['-'] + padded_spec(
            self.second as nat,
            2,
        )
    }

    /// Appends `DD-MM-YYYY_HH-MM-SS` to `out`.
    pub fn push_stamp(&self, out: &mut String)
        ensures
            final(out)@ == old(out)@ + self.stamp_spec(),
    {
        proof {
            reveal_strlit("-");
            reveal_strlit("_");
        }
        push_padded(out, self.date.day as u64, 2);
        push_separator(out, "-");
        push_padded(out, self.date.month as u64, 2);
        push_separator(out, "-");
        push_padded(out, self.date.year as u64, 4);
        push_separator(out, "_");
        push_padded(out, self.hour as u64, 2);
        push_separator(out, "-");
        push_padded(out, self.minute as u64, 2);
        push_separator(out, "-");
        push_padded(out, self.second as u64, 2);
        assert(final(out)@ =~= old(out)@ + self.stamp_spec());
    }
}

} // verus!
