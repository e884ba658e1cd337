//! Post timestamps: a calendar date and a time of day, without a time zone.

use std::fmt::Write;

use chrono::{Datelike, Timelike};
use vstd::prelude::*;


verus! {

/// The date format used in the posts' front matter, such as `3:00pm 06/15/18`.
pub const ON_DISK_FORMAT: &'static str = "%l:%M%P %m/%d/%y";

/// A post's timestamp, to the minute.
#[derive(Debug, Clone, Copy, PartialEq, Eq, Structural)]
pub struct PostDate {
    pub year: i32,
    pub month: u32,
    pub day: u32,
    pub hour: u32,
    pub minute: u32,
}

/// A calendar day.
#[derive(Debug, Clone, Copy, PartialEq, Eq, Structural)]
pub struct Day {
    pub year: i32,
    pub month: u32,
    pub day: u32,
}

/// Fields in the ranges of a calendar and a 24-hour clock.
pub open spec fn fields_in_range(t: (i32, u32, u32, u32, u32)) -> bool {
    &&& 1 <= t.1 <= 12
    &&& 1 <= t.2 <= 31
    &&& t.3 < 24
    &&& t.4 < 60
}

impl PostDate {
    pub open spec fn wf(&self) -> bool {
        fields_in_range((self.year, self.month, self.day, self.hour, self.minute))
    }

    /// Minutes since a fixed origin, with every month counted as 32 days and every year as 13
    /// months: for well-formed timestamps this orders them chronologically.
    pub open spec fn minutes(&self) -> int {
        self.year as int * 599040 + self.month as int * 46080 + self.day as int * 1440
            + self.hour as int * 60 + self.minute as int
    }

    /// The calendar day of the timestamp.
    pub open spec fn spec_day(&self) -> Day {
        Day { year: self.year, month: self.month, day: self.day }
    }

    /// The calendar day of the timestamp.
    pub fn day(&self) -> (r: Day)
        ensures
            r == self.spec_day(),
    {
        Day { year: self.year, month: self.month, day: self.day }
    }

    /// The position of the timestamp on the time line, as `minutes` gives it.
    pub fn minutes_exec(&self) -> (r: i64)
        ensures
            r as int == self.minutes(),
    {
        self.year as i64 * 599040 + self.month as i64 * 46080 + self.day as i64 * 1440
            + self.hour as i64 * 60 + self.minute as i64
    }

    /// Whether `self` comes strictly before `other`.
    pub fn is_before(&self, other: &PostDate) -> (r: bool)
        ensures
            r == (self.minutes() < other.minutes()),
    {
        self.minutes_exec() < other.minutes_exec()
    }

    /// Parses a timestamp written in the on-disk format, `%l:%M%P %m/%d/%y`.
    pub fn parse_on_disk(s: &str) -> (r: Option<PostDate>)
        ensures
            r == on_disk_date(s@),
            r matches Some(d) ==> d.wf(),
    {
        match parse_date_time(s, ON_DISK_FORMAT) {
            Some(t) => Some(PostDate { year: t.0, month: t.1, day: t.2, hour: t.3, minute: t.4 }),
            None => None,
        }
    }
}

/// What the on-disk format gives for a string: the timestamp, or nothing where it does not
/// match.
pub open spec fn on_disk_date(s: Seq<char>) -> Option<PostDate> {
    match date_time_of(s, ON_DISK_FORMAT@) {
        Some(t) => Some(PostDate { year: t.0, month: t.1, day: t.2, hour: t.3, minute: t.4 }),
        None => None,
    }
}

/// The year, month, day, hour and minute that chrono reads from a string in a given format.
pub uninterp spec fn date_time_of(s: Seq<char>, format: Seq<char>) -> Option<(i32, u32, u32, u32, u32)>;

/// Relies on chrono's `NaiveDateTime::parse_from_str`, and on its `Datelike` and `Timelike`
/// accessors, whose documented ranges are months 1 to 12, days 1 to 31, hours 0 to 23 and
/// minutes 0 to 59.
#[verifier::external_body]
fn parse_date_time(s: &str, format: &str) -> (r: Option<(i32, u32, u32, u32, u32)>)
    ensures
        r == date_time_of(s@, format@),
        r matches Some(t) ==> fields_in_range(t),
{
    match chrono::NaiveDateTime::parse_from_str(s, format) {
        Ok(t) => Some((t.year(), t.month(), t.day(), t.hour(), t.minute())),
        Err(_) => None,
    }
}

/// The format in which dates are shown to readers, such as `June 15, 2018`.
pub const HUMAN_READABLE_FORMAT: &'static str = "%B %e, %Y";

/// The text that chrono writes for a date and time in a given format, or nothing where the
/// fields name no real date and time or the format cannot be written.
pub uninterp spec fn formatted_of(
    t: (i32, u32, u32, u32, u32),
    format: Seq<char>,
) -> Option<Seq<char>>;

/// Relies on chrono's `NaiveDate::from_ymd_opt`, `NaiveDate::and_hms_opt` and
/// `NaiveDateTime::format`: the text depends on the fields and the format alone.
#[verifier::external_body]
fn format_date_time(t: (i32, u32, u32, u32, u32), format: &str) -> (r: Option<String>)
    ensures
        r matches Some(s) ==> formatted_of(t, format@) == Some(s@),
        r is None ==> formatted_of(t, format@) is None,
{
    let moment = chrono::NaiveDate::from_ymd_opt(t.0, t.1, t.2)?.and_hms_opt(t.3, t.4, 0)?;
    let mut out = String::new();
    write!(out, "{}", moment.format(format)).ok()?;
    Some(out)
}

/// The date as it is shown to readers, or nothing where it is no real calendar date.
pub open spec fn human_readable_of(d: PostDate) -> Option<Seq<char>> {
    formatted_of((d.year, d.month, d.day, d.hour, d.minute), HUMAN_READABLE_FORMAT@)
}

impl PostDate {
    /// The date as it is shown to readers (`%B %e, %Y`, such as `June 15, 2018`); `None` where
    /// the fields name no real calendar date and time.
    pub fn human_readable(&self) -> (r: Option<String>)
        ensures
            r matches Some(s) ==> human_readable_of(*self) == Some(s@),
            r is None ==> human_readable_of(*self) is None,
    {
        format_date_time(
            (self.year, self.month, self.day, self.hour, self.minute),
            HUMAN_READABLE_FORMAT,
        )
    }
}

} // verus!
