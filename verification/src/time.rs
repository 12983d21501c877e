use crate::number::padded_digits;
use chrono::Datelike;
use vstd::prelude::*;

verus! {

/// The first year of the calendar that dates are taken from.
pub const MIN_YEAR: i32 = -262143;

/// The last year of the calendar that dates are taken from.
pub const MAX_YEAR: i32 = 262142;

/// Whether a year of the proleptic Gregorian calendar has a 29th of February.
pub open spec fn is_leap_year(year: int) -> bool {
    year % 4 == 0 && (year % 100 != 0 || year % 400 == 0)
}

/// The number of days of a month.
pub open spec fn days_in_month(year: int, month: int) -> int {
    if month == 2 {
        if is_leap_year(year) {
            29
        } else {
            28
        }
    } else if month == 4 || month == 6 || month == 9 || month == 11 {
        30
    } else {
        31
    }
}

/// Whether the calendar has the given day: a day of the proleptic Gregorian
/// calendar in a year from `MIN_YEAR` to `MAX_YEAR`.
pub open spec fn is_calendar_date(year: int, month: int, day: int) -> bool {
    &&& MIN_YEAR <= year <= MAX_YEAR
    &&& 1 <= month <= 12
    &&& 1 <= day <= days_in_month(year, month)
}

/// A day of the calendar as plain numbers.
pub struct DateView {
    pub year: int,
    pub month: int,
    pub day: int,
}

/// A day of the calendar. A due date is such a day: it has no time of day.
#[derive(Clone, Copy, Debug, PartialEq, Eq, Structural)]
pub struct Date {
    year: i32,
    month: u32,
    day: u32,
}

impl View for Date {
    type V = DateView;

    closed spec fn view(&self) -> DateView {
        DateView { year: self.year as int, month: self.month as int, day: self.day as int }
    }
}

/// Whether the day `a` is the day `b` or an earlier one.
pub open spec fn not_after(a: DateView, b: DateView) -> bool {
    a.year < b.year || (a.year == b.year && (a.month < b.month || (a.month == b.month && a.day
        <= b.day)))
}

/// Whether chrono can hold the moment that lies `secs` seconds and `nanos`
/// nanoseconds after the Unix epoch.
pub uninterp spec fn instant_exists(secs: int, nanos: int) -> bool;

/// A year as text: four digits for the years from 0 to 9999, and a sign
/// before at least four digits for every other year.
pub open spec fn year_text(year: int) -> Seq<char> {
    if 0 <= year <= 9999 {
        padded_digits(year as nat, 4)
    } else if year < 0 {
        seq!['-'] + padded_digits((-year) as nat, 4)
    } else {
        seq!['+'] + padded_digits(year as nat, 4)
    }
}

/// A day as text, year first, month and day of two digits each:
/// `2024-05-01`.
pub open spec fn date_text_of(year: int, month: int, day: int) -> Seq<char> {
    year_text(year) + seq!['-'] + padded_digits(month as nat, 2) + seq!['-'] + padded_digits(
        day as nat,
        2,
    )
}

/// The day that chrono reads from a text under the format `%Y-%m-%d`, if it
/// reads one.
pub uninterp spec fn iso_date_of(text: Seq<char>) -> Option<(int, int, int)>;

/// The whole days from a moment to the start, in UTC, of a day: the number
/// that chrono's `num_days` gives for the difference of the two.
pub uninterp spec fn whole_days_until(year: int, month: int, day: int, secs: int, nanos: int) -> int;

/// The day that chrono's `checked_add_days` reaches from a day after the
/// given number of days, if it reaches one.
pub uninterp spec fn day_after_of(year: int, month: int, day: int, days: int) -> Option<
    (int, int, int),
>;

/// `NaiveDate::checked_add_days` of chrono: the day that lies the given
/// number of days after a day, or `None` where that is past the last day of
/// the calendar. The answer depends on the four numbers alone, and a day
/// that it gives is a day of the calendar.
#[verifier::external_body]
fn add_days(year: i32, month: u32, day: u32, days: u64) -> (r: Option<(i32, u32, u32)>)
    requires
        is_calendar_date(year as int, month as int, day as int),
    ensures
        match r {
            Some(d) => day_after_of(year as int, month as int, day as int, days as int) == Some(
                (d.0 as int, d.1 as int, d.2 as int),
            ) && is_calendar_date(d.0 as int, d.1 as int, d.2 as int),
            None => day_after_of(year as int, month as int, day as int, days as int) is None,
        },
{
    let start = chrono::NaiveDate::from_ymd_opt(year, month, day).unwrap();
    match start.checked_add_days(chrono::Days::new(days)) {
        Some(d) => Some((d.year(), d.month(), d.day())),
        None => None,
    }
}

/// `NaiveDate::from_ymd_opt` of chrono gives a date for exactly the days
/// that the proleptic Gregorian calendar has in the years that chrono
/// supports, and `None` for every other triple.
#[verifier::external_body]
fn date_exists(year: i32, month: u32, day: u32) -> (r: bool)
    ensures
        r == is_calendar_date(year as int, month as int, day as int),
{
    chrono::NaiveDate::from_ymd_opt(year, month, day).is_some()
}

/// `DateTime::from_timestamp` of chrono gives a moment or `None`, depending
/// on the two numbers alone.
#[verifier::external_body]
fn timestamp_exists(secs: i64, nanos: u32) -> (r: bool)
    ensures
        r == instant_exists(secs as int, nanos as int),
{
    chrono::DateTime::from_timestamp(secs, nanos).is_some()
}

/// `NaiveDate::parse_from_str` of chrono with the format `%Y-%m-%d`: what it
/// reads depends on the text alone, and a date that it gives is a day of the
/// calendar.
#[verifier::external_body]
pub(crate) fn parse_iso_date(text: &str) -> (r: Option<(i32, u32, u32)>)
    ensures
        match r {
            Some(d) => iso_date_of(text@) == Some((d.0 as int, d.1 as int, d.2 as int))
                && is_calendar_date(d.0 as int, d.1 as int, d.2 as int),
            None => iso_date_of(text@) is None,
        },
{
    match chrono::NaiveDate::parse_from_str(text, "%Y-%m-%d") {
        Ok(d) => Some((d.year(), d.month(), d.day())),
        Err(_) => None,
    }
}

/// `NaiveDate::format` of chrono with the format `%Y-%m-%d` writes the year
/// with four digits, or with a sign and at least four digits where it is
/// not from 0 to 9999, then the month and the day with two digits each,
/// with hyphens between the three.
#[verifier::external_body]
fn format_date(year: i32, month: u32, day: u32) -> (r: String)
    requires
        is_calendar_date(year as int, month as int, day as int),
    ensures
        r@ == date_text_of(year as int, month as int, day as int),
{
    chrono::NaiveDate::from_ymd_opt(year, month, day).unwrap().format("%Y-%m-%d").to_string()
}

/// `TimeDelta::num_days` of chrono on the difference of two of its moments
/// (`DateTime - DateTime`): the whole days from the moment `secs`, `nanos`
/// to the start of the given day in UTC. The number depends on the five
/// numbers alone.
#[verifier::external_body]
fn days_between(year: i32, month: u32, day: u32, secs: i64, nanos: u32) -> (r: i64)
    requires
        is_calendar_date(year as int, month as int, day as int),
        instant_exists(secs as int, nanos as int),
    ensures
        r == whole_days_until(year as int, month as int, day as int, secs as int, nanos as int),
{
    let due = chrono::NaiveDate::from_ymd_opt(year, month, day).unwrap();
    let now = chrono::DateTime::from_timestamp(secs, nanos).unwrap();
    (due.and_time(chrono::NaiveTime::MIN).and_utc() - now).num_days()
}

impl Date {
    #[verifier::type_invariant]
    spec fn is_valid(self) -> bool {
        is_calendar_date(self.year as int, self.month as int, self.day as int)
    }

    /// The day with the given year, month and day of the month, if the
    /// calendar has it.
    pub fn new(year: i32, month: u32, day: u32) -> (r: Option<Date>)
        ensures
            r is Some <==> is_calendar_date(year as int, month as int, day as int),
            r matches Some(d) ==> d@ == (DateView {
                year: year as int,
                month: month as int,
                day: day as int,
            }),
    {
        if date_exists(year, month, day) {
            Some(Date { year, month, day })
        } else {
            None
        }
    }

    /// The day of the calendar with the given numbers.
    pub(crate) fn of_calendar(year: i32, month: u32, day: u32) -> (r: Date)
        requires
            is_calendar_date(year as int, month as int, day as int),
        ensures
            r@ == (DateView { year: year as int, month: month as int, day: day as int }),
    {
        Date { year, month, day }
    }

    /// The year; every date is a day of the calendar.
    pub fn year(&self) -> (r: i32)
        ensures
            r == self@.year,
            is_calendar_date(self@.year, self@.month, self@.day),
    {
        proof {
            use_type_invariant(self);
        }
        self.year
    }

    /// The month, from 1 to 12.
    pub fn month(&self) -> (r: u32)
        ensures
            r == self@.month,
            is_calendar_date(self@.year, self@.month, self@.day),
    {
        proof {
            use_type_invariant(self);
        }
        self.month
    }

    /// The day of the month, from 1.
    pub fn day(&self) -> (r: u32)
        ensures
            r == self@.day,
            is_calendar_date(self@.year, self@.month, self@.day),
    {
        proof {
            use_type_invariant(self);
        }
        self.day
    }

    /// Whether this day is `other` or an earlier one.
    pub fn not_after(&self, other: &Date) -> (r: bool)
        ensures
            r == not_after(self@, other@),
    {
        self.year < other.year || (self.year == other.year && (self.month < other.month || (
        self.month == other.month && self.day <= other.day)))
    }

    /// The day that lies `days` days after this one, if the calendar has
    /// it.
    pub fn plus_days(&self, days: u64) -> (r: Option<Date>)
        ensures
            match r {
                Some(d) => day_after_of(self@.year, self@.month, self@.day, days as int) == Some(
                    (d@.year, d@.month, d@.day),
                ),
                None => day_after_of(self@.year, self@.month, self@.day, days as int) is None,
            },
    {
        proof {
            use_type_invariant(self);
        }
        match add_days(self.year, self.month, self.day, days) {
            Some(d) => Some(Date { year: d.0, month: d.1, day: d.2 }),
            None => None,
        }
    }

    /// The day as text, year first: `2024-05-01`.
    pub fn text(&self) -> (r: String)
        ensures
            r@ == date_text_of(self@.year, self@.month, self@.day),
    {
        proof {
            use_type_invariant(self);
        }
        format_date(self.year, self.month, self.day)
    }
}

/// A moment in time as plain numbers.
pub struct TimestampView {
    pub secs: int,
    pub nanos: int,
}

/// A moment in time: whole seconds since the Unix epoch in UTC, and the
/// nanoseconds past that second.
#[derive(Clone, Copy, Debug, PartialEq, Eq, Structural)]
pub struct Timestamp {
    secs: i64,
    nanos: u32,
}

impl View for Timestamp {
    type V = TimestampView;

    closed spec fn view(&self) -> TimestampView {
        TimestampView { secs: self.secs as int, nanos: self.nanos as int }
    }
}

impl Timestamp {
    #[verifier::type_invariant]
    spec fn is_valid(self) -> bool {
        instant_exists(self.secs as int, self.nanos as int)
    }

    /// The moment `secs` seconds and `nanos` nanoseconds after the Unix
    /// epoch, if chrono can hold it.
    pub fn new(secs: i64, nanos: u32) -> (r: Option<Timestamp>)
        ensures
            r is Some <==> instant_exists(secs as int, nanos as int),
            r matches Some(t) ==> t@ == (TimestampView { secs: secs as int, nanos: nanos as int }),
    {
        if timestamp_exists(secs, nanos) {
            Some(Timestamp { secs, nanos })
        } else {
            None
        }
    }

    /// The whole seconds since the Unix epoch.
    pub fn secs(&self) -> (r: i64)
        ensures
            r == self@.secs,
            instant_exists(self@.secs, self@.nanos),
    {
        proof {
            use_type_invariant(self);
        }
        self.secs
    }

    /// The nanoseconds past the whole second.
    pub fn nanos(&self) -> (r: u32)
        ensures
            r == self@.nanos,
            instant_exists(self@.secs, self@.nanos),
    {
        proof {
            use_type_invariant(self);
        }
        self.nanos
    }
}

/// How near a due date is.
#[derive(Clone, Copy, Debug, PartialEq, Eq, Structural)]
pub enum DueStatus {
    /// The due date lies a whole day or more in the past.
    Overdue,
    /// The due date is less than a day away.
    Urgent,
    /// The due date is one to three whole days away.
    Soon,
    /// The due date is four whole days away or more.
    Normal,
    /// There is no due date.
    NoDue,
}

/// The status of a due date that is `days` whole days away.
pub open spec fn status_of_days(days: int) -> DueStatus {
    if days < 0 {
        DueStatus::Overdue
    } else if days == 0 {
        DueStatus::Urgent
    } else if days <= 3 {
        DueStatus::Soon
    } else {
        DueStatus::Normal
    }
}

/// The status of a due date that is `days` whole days away.
pub fn status_for_days(days: i64) -> (r: DueStatus)
    ensures
        r == status_of_days(days as int),
{
    if days < 0 {
        DueStatus::Overdue
    } else if days == 0 {
        DueStatus::Urgent
    } else if days <= 3 {
        DueStatus::Soon
    } else {
        DueStatus::Normal
    }
}

/// How near a due date is at the moment `now`.
pub fn get_due_status(due_date: Option<&Date>, now: &Timestamp) -> (r: DueStatus)
    ensures
        r == match due_date {
            Some(d) => status_of_days(
                whole_days_until(d@.year, d@.month, d@.day, now@.secs, now@.nanos),
            ),
            None => DueStatus::NoDue,
        },
{
    match due_date {
        Some(d) => {
            proof {
                use_type_invariant(d);
                use_type_invariant(now);
            }
            status_for_days(days_between(d.year, d.month, d.day, now.secs, now.nanos))
        },
        None => DueStatus::NoDue,
    }
}

} // verus!
