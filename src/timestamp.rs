//! Local wall-clock time as plain values, and its textual forms.
use vstd::prelude::*;
use crate::text::{push_zero_padded, zero_padded};

verus! {

/// A calendar date.
#[derive(Clone, Copy, Debug, PartialEq, Eq, Structural)]
pub struct CalendarDate {
    pub year: i32,
    pub month: u8,
    pub day: u8,
}

/// A local date and time, together with the instant it denotes.
#[derive(Clone, Copy, Debug, PartialEq, Eq, Structural)]
pub struct Timestamp {
    pub year: i32,
    pub month: u8,
    pub day: u8,
    pub hour: u8,
    pub minute: u8,
    pub second: u8,
    pub nanosecond: u32,
    /// Nanoseconds since the Unix epoch of the same instant.
    pub unix_nanos: i128,
}

impl CalendarDate {
    /// Years with four digits, months and days in their ranges.
    pub open spec fn wf(&self) -> bool {
        0 <= self.year <= 9999 && 1 <= self.month <= 12 && 1 <= self.day <= 31
    }

    /// Whether the date is in range.
    pub fn is_valid(&self) -> (r: bool)
        ensures
            r == self.wf(),
    {
        0 <= self.year && self.year <= 9999 && 1 <= self.month && self.month <= 12 && 1 <= self.day
            && self.day <= 31
    }

    /// `YYYY-MM-DD`, the form used in log file names.
    pub open spec fn text(&self) -> Seq<char> {
        zero_padded(self.year as nat, 4) + seq!['-'] + zero_padded(self.month as nat, 2) + seq!['-']
            + zero_padded(self.day as nat, 2)
    }

    /// Renders the date as `YYYY-MM-DD`.
    pub fn to_text(&self) -> (r: String)
        requires
            self.wf(),
        ensures
            r@ == self.text(),
    {
        let mut s = String::new();
        push_zero_padded(&mut s, self.year as u64, 4);
        s.append("-");
        push_zero_padded(&mut s, self.month as u64, 2);
        s.append("-");
        push_zero_padded(&mut s, self.day as u64, 2);
        proof {
            reveal_strlit("-");
        }
        assert(s@ =~= self.text());
        s
    }
}

impl Timestamp {
    /// Every field in its range.
    pub open spec fn wf(&self) -> bool {
        0 <= self.year <= 9999 && 1 <= self.month <= 12 && 1 <= self.day <= 31 && self.hour < 24
            && self.minute < 60 && self.second < 60 && self.nanosecond < 1_000_000_000
    }

    /// Whether every field is in range.
    pub fn is_valid(&self) -> (r: bool)
        ensures
            r == self.wf(),
    {
        0 <= self.year && self.year <= 9999 && 1 <= self.month && self.month <= 12 && 1 <= self.day
            && self.day <= 31 && self.hour < 24 && self.minute < 60 && self.second < 60
            && self.nanosecond < 1_000_000_000
    }

    pub open spec fn date_spec(&self) -> CalendarDate {
        CalendarDate { year: self.year, month: self.month, day: self.day }
    }

    /// The calendar date of the timestamp.
    pub fn date(&self) -> (r: CalendarDate)
        ensures
            r == self.date_spec(),
    {
        CalendarDate { year: self.year, month: self.month, day: self.day }
    }

    /// `YY-MM-DD hh:mm:ss.ffff`: the last two digits of the year and the
    /// first four digits of the fraction of a second.
    pub open spec fn text(&self) -> Seq<char> {
        zero_padded((self.year % 100) as nat, 2) + seq!['-'] + zero_padded(self.month as nat, 2)
            + seq!['-'] + zero_padded(self.day as nat, 2) + seq![' '] + zero_padded(
            self.hour as nat,
            2,
        ) + seq![':'] + zero_padded(self.minute as nat, 2) + seq![':'] + zero_padded(
            self.second as nat,
            2,
        ) + seq!['.'] + zero_padded((self.nanosecond / 100_000) as nat, 4)
    }

    /// Renders the timestamp as `YY-MM-DD hh:mm:ss.ffff`.
    pub fn to_text(&self) -> (r: String)
        requires
            self.wf(),
        ensures
            r@ == self.text(),
    {
        proof {
            reveal_strlit("-");
            reveal_strlit(" ");
            reveal_strlit(":");
            reveal_strlit(".");
        }
        let mut s = String::new();
        push_zero_padded(&mut s, (self.year % 100) as u64, 2);
        s.append("-");
        push_zero_padded(&mut s, self.month as u64, 2);
        s.append("-");
        push_zero_padded(&mut s, self.day as u64, 2);
        s.append(" ");
        push_zero_padded(&mut s, self.hour as u64, 2);
        s.append(":");
        push_zero_padded(&mut s, self.minute as u64, 2);
        s.append(":");
        push_zero_padded(&mut s, self.second as u64, 2);
        s.append(".");
        push_zero_padded(&mut s, (self.nanosecond / 100_000) as u64, 4);
        assert(s@ =~= self.text());
        s
    }
}

} // verus!
