use crate::number::{parse_digits, parse_number};
use crate::task::TaskError;
use crate::text::{
    chars_of, find_char, find_pair, first_index_of, first_pair_of, lowercase, str_eq, string_of,
    to_lowercase, trim_bounds, trimmed,
};
use crate::time::{
    day_after_of, is_calendar_date, iso_date_of, not_after, parse_iso_date, Date, DateView,
};
use vstd::prelude::*;

verus! {

/// Whether a lowercase text asks for today: the empty text, `today` or `td`.
pub open spec fn is_today_word(lower: Seq<char>) -> bool {
    lower == ""@ || lower == "today"@ || lower == "td"@
}

/// Whether a lowercase text asks for tomorrow: `tomorrow` or `tm`.
pub open spec fn is_tomorrow_word(lower: Seq<char>) -> bool {
    lower == "tomorrow"@ || lower == "tm"@
}

/// The day of the month that a text of digits alone names, if it names one
/// from 1 to 31.
pub open spec fn day_number_of(text: Seq<char>) -> Option<int> {
    match parse_number(text, u32::MAX as nat) {
        Some(day) => if 1 <= day <= 31 {
            Some(day as int)
        } else {
            None
        },
        None => None,
    }
}

/// The month and the day that a text of the form `MM-DD` names: the numbers
/// before and after its first hyphen, if both are numbers, the month from 1
/// to 12 and the day from 1 to 31.
pub open spec fn month_day_of(text: Seq<char>) -> Option<(int, int)> {
    let at = first_index_of(text, '-');
    if at < text.len() {
        match (
            parse_number(text.take(at), u32::MAX as nat),
            parse_number(text.skip(at + 1), u32::MAX as nat),
        ) {
            (Some(month), Some(day)) => if 1 <= month <= 12 && 1 <= day <= 31 {
                Some((month as int, day as int))
            } else {
                None
            },
            _ => None,
        }
    } else {
        None
    }
}

/// The day of the given year that a text of the form `MM-DD` names, if the
/// year has it.
pub open spec fn month_day_in_year(text: Seq<char>, year: int) -> Option<DateView> {
    match month_day_of(text) {
        Some((month, day)) => if is_calendar_date(year, month, day) {
            Some(DateView { year, month, day })
        } else {
            None
        },
        None => None,
    }
}

/// The day that a date text names, given the text in lower case, what the
/// format `%Y-%m-%d` reads from it, and the days that are today and
/// tomorrow.
///
/// The forms are tried in this order: a word for today or tomorrow; a day of
/// the current month; a month and a day of the current year; a full date. A
/// day number that the current month lacks is an error; a month and day that
/// the current year lacks is left to the last form.
pub open spec fn date_of(
    text: Seq<char>,
    lower: Seq<char>,
    iso: Option<DateView>,
    today: DateView,
    tomorrow: DateView,
) -> Result<DateView, TaskError> {
    if is_today_word(lower) {
        Ok(today)
    } else if is_tomorrow_word(lower) {
        Ok(tomorrow)
    } else if day_number_of(text) is Some {
        let day = day_number_of(text)->0;
        if is_calendar_date(today.year, today.month, day) {
            Ok(DateView { year: today.year, month: today.month, day })
        } else {
            Err(TaskError::Format)
        }
    } else {
        match month_day_in_year(text, today.year) {
            Some(date) => Ok(date),
            None => match iso {
                Some(date) => Ok(date),
                None => Err(TaskError::Format),
            },
        }
    }
}

/// What the format `%Y-%m-%d` reads from a text, as a day.
pub open spec fn iso_view_of(text: Seq<char>) -> Option<DateView> {
    match iso_date_of(text) {
        Some(d) => Some(DateView { year: d.0, month: d.1, day: d.2 }),
        None => None,
    }
}

/// The day that a date text names on a given day.
pub open spec fn parsed_date(text: Seq<char>, today: DateView, tomorrow: DateView) -> Result<
    DateView,
    TaskError,
> {
    date_of(text, lowercase(text), iso_view_of(text), today, tomorrow)
}

/// Whether a result of reading a date is the given result over plain
/// numbers.
pub open spec fn date_result_is(r: Result<Date, TaskError>, v: Result<DateView, TaskError>) -> bool {
    match r {
        Ok(d) => v == Ok::<DateView, TaskError>(d@),
        Err(e) => v == Err::<DateView, TaskError>(e),
    }
}

/// Picks the day that a date text names, from the text, its lowercase form
/// and the date that the format `%Y-%m-%d` read from it.
pub fn choose_date(
    date_str: &str,
    lower: &str,
    iso: Option<Date>,
    today: Date,
    tomorrow: Date,
) -> (r: Result<Date, TaskError>)
    ensures
        date_result_is(
            r,
            date_of(
                date_str@,
                lower@,
                match iso {
                    Some(d) => Some(d@),
                    None => None,
                },
                today@,
                tomorrow@,
            ),
        ),
{
    if str_eq(lower, "") || str_eq(lower, "today") || str_eq(lower, "td") {
        return Ok(today);
    }
    if str_eq(lower, "tomorrow") || str_eq(lower, "tm") {
        return Ok(tomorrow);
    }
    let chars = chars_of(date_str);
    let n = chars.len();
    assert(chars@.subrange(0, n as int) == date_str@);
    if let Some(day) = parse_digits(&chars, 0, n, u32::MAX as u64) {
        if day >= 1 && day <= 31 {
            return match Date::new(today.year(), today.month(), day as u32) {
                Some(date) => Ok(date),
                None => Err(TaskError::Format),
            };
        }
    }
    let at = find_char(&chars, 0, n, '-');
    if at < n {
        assert(chars@.subrange(0, at as int) == date_str@.take(at as int));
        assert(chars@.subrange(at + 1, n as int) == date_str@.skip(at + 1));
        let month = parse_digits(&chars, 0, at, u32::MAX as u64);
        let day = parse_digits(&chars, at + 1, n, u32::MAX as u64);
        if let (Some(month), Some(day)) = (month, day) {
            if month >= 1 && month <= 12 && day >= 1 && day <= 31 {
                if let Some(date) = Date::new(today.year(), month as u32, day as u32) {
                    return Ok(date);
                }
            }
        }
    }
    match iso {
        Some(date) => Ok(date),
        None => Err(TaskError::Format),
    }
}

/// Reads a date as the user writes it, on the day `today` whose next day is
/// `tomorrow`.
///
/// Fails with `Format` where the text is none of the forms that `date_of`
/// lists.
pub fn parse_date(date_str: &str, today: Date, tomorrow: Date) -> (r: Result<Date, TaskError>)
    ensures
        date_result_is(r, parsed_date(date_str@, today@, tomorrow@)),
{
    let lower = to_lowercase(date_str);
    let iso = match parse_iso_date(date_str) {
        Some(d) => Some(Date::of_calendar(d.0, d.1, d.2)),
        None => None,
    };
    choose_date(date_str, lower.as_str(), iso, today, tomorrow)
}

/// The days that a span from `start` to `end` stands for.
///
/// Where the month of `end` is before the month of `start` the span is taken
/// to run into the next year, whatever year `end` names: it ends on the day
/// of `end` in the year after `start`, or on the 28th of that month where
/// the year lacks the day. Otherwise it runs from `start` to `end`, which
/// must not be the earlier; a span of one day is that day alone.
pub open spec fn span_of(start: DateView, end: DateView) -> Option<Seq<DateView>> {
    if end.month < start.month {
        let year = start.year + 1;
        if is_calendar_date(year, end.month, end.day) {
            Some(seq![start, DateView { year, month: end.month, day: end.day }])
        } else if is_calendar_date(year, end.month, 28) {
            Some(seq![start, DateView { year, month: end.month, day: 28 }])
        } else {
            None
        }
    } else if not_after(start, end) {
        if start != end {
            Some(seq![start, end])
        } else {
            Some(seq![start])
        }
    } else {
        None
    }
}

/// The two ends of a span text: what stands before and after its `to`, if
/// the text holds `to` exactly once, each without the white space around
/// it.
pub open spec fn span_ends_of(text: Seq<char>) -> Option<(Seq<char>, Seq<char>)> {
    let at = first_pair_of(text, 't', 'o');
    if at < text.len() && first_pair_of(text.skip(at + 2), 't', 'o') >= text.skip(at + 2).len() {
        Some((trimmed(text.take(at)), trimmed(text.skip(at + 2))))
    } else {
        None
    }
}

/// The days that a span text stands for on a given day, if it is a span of
/// two date texts.
pub open spec fn date_range_of(text: Seq<char>, today: DateView, tomorrow: DateView) -> Option<
    Seq<DateView>,
> {
    match span_ends_of(text) {
        Some((first, second)) => match (
            parsed_date(first, today, tomorrow),
            parsed_date(second, today, tomorrow),
        ) {
            (Ok(start), Ok(end)) => span_of(start, end),
            _ => None,
        },
        None => None,
    }
}

/// The views of a list of dates.
pub open spec fn date_views(dates: Seq<Date>) -> Seq<DateView> {
    dates.map_values(|d: Date| d@)
}

/// The days that a span from `start` to `end` stands for: its first and its
/// last day, or its one day.
pub fn date_span(start: Date, end: Date) -> (r: Option<Vec<Date>>)
    ensures
        match r {
            Some(dates) => span_of(start@, end@) == Some(date_views(dates@)),
            None => span_of(start@, end@) is None,
        },
{
    let mut dates: Vec<Date> = Vec::new();
    if end.month() < start.month() {
        let year = start.year() + 1;
        let last = match Date::new(year, end.month(), end.day()) {
            Some(date) => date,
            None => match Date::new(year, end.month(), 28) {
                Some(date) => date,
                None => {
                    return None;
                },
            },
        };
        dates.push(start);
        dates.push(last);
        assert(date_views(dates@) =~= seq![start@, last@]);
        return Some(dates);
    }
    if start.not_after(&end) {
        dates.push(start);
        if !end.not_after(&start) {
            dates.push(end);
            assert(date_views(dates@) =~= seq![start@, end@]);
        } else {
            assert(start@ == end@);
            assert(date_views(dates@) =~= seq![start@]);
        }
        return Some(dates);
    }
    None
}

/// Reads a span of dates, `<date> to <date>`, on the day `today` whose next
/// day is `tomorrow`. Gives the first and the last day of the span, or the
/// one day of a span that starts and ends on the same day.
pub fn parse_date_range(range_str: &str, today: Date, tomorrow: Date) -> (r: Option<Vec<Date>>)
    ensures
        match r {
            Some(dates) => date_range_of(range_str@, today@, tomorrow@) == Some(
                date_views(dates@),
            ),
            None => date_range_of(range_str@, today@, tomorrow@) is None,
        },
{
    let chars = chars_of(range_str);
    let n = chars.len();
    assert(chars@.subrange(0, n as int) == range_str@);
    let at = find_pair(&chars, 0, n, 't', 'o');
    if at >= n {
        return None;
    }
    assert(chars@.subrange(at + 2, n as int) == range_str@.skip(at + 2));
    if find_pair(&chars, at + 2, n, 't', 'o') < n - (at + 2) {
        return None;
    }
    assert(chars@.subrange(0, at as int) == range_str@.take(at as int));
    let (a, b) = trim_bounds(&chars, 0, at);
    let (c, d) = trim_bounds(&chars, at + 2, n);
    let first = string_of(&chars, a, b);
    let second = string_of(&chars, c, d);
    let start = match parse_date(first.as_str(), today, tomorrow) {
        Ok(date) => date,
        Err(_) => {
            return None;
        },
    };
    let end = match parse_date(second.as_str(), today, tomorrow) {
        Ok(date) => date,
        Err(_) => {
            return None;
        },
    };
    date_span(start, end)
}

/// What batch entry does next.
#[derive(Clone, Copy, Debug, PartialEq, Eq, Structural)]
pub enum BatchStep {
    /// Every day of the span has its task: batch entry ends.
    Finished,
    /// The next task gets this due date, or none.
    Due(Option<Date>),
}

/// The mathematical value of a [`BatchStep`].
pub enum BatchStepView {
    Finished,
    Due(Option<DateView>),
}

impl View for BatchStep {
    type V = BatchStepView;

    open spec fn view(&self) -> BatchStepView {
        match self {
            BatchStep::Finished => BatchStepView::Finished,
            BatchStep::Due(Some(d)) => BatchStepView::Due(Some(d@)),
            BatchStep::Due(None) => BatchStepView::Due(None),
        }
    }
}

/// What batch entry does for its task number `index`, counted from 0, where
/// `stepped` is the day that lies `index` days after the first day of the
/// span.
///
/// Without dates no task gets a due date; with one date every task gets it.
/// With a span the tasks get its days one after the other, and batch entry
/// ends when the span is used up. A span whose first day is the later one
/// gives its two days and ends.
pub open spec fn batch_step_of(dates: Seq<DateView>, index: nat, stepped: Option<DateView>) -> BatchStepView {
    if dates.len() == 2 {
        if not_after(dates[0], dates[1]) {
            match stepped {
                Some(day) => if index > 0 && !not_after(day, dates[1]) {
                    BatchStepView::Finished
                } else {
                    BatchStepView::Due(Some(day))
                },
                None => BatchStepView::Finished,
            }
        } else if index == 0 {
            BatchStepView::Due(Some(dates[0]))
        } else if index == 1 {
            BatchStepView::Due(Some(dates[1]))
        } else {
            BatchStepView::Finished
        }
    } else if dates.len() > 0 {
        BatchStepView::Due(Some(dates[0]))
    } else {
        BatchStepView::Due(None)
    }
}

/// The day that lies `index` days after the first of the dates, if there is
/// a first date and the calendar has that day.
pub open spec fn stepped_of(dates: Seq<DateView>, index: nat) -> Option<DateView> {
    if dates.len() > 0 {
        match day_after_of(dates[0].year, dates[0].month, dates[0].day, index as int) {
            Some(d) => Some(DateView { year: d.0, month: d.1, day: d.2 }),
            None => None,
        }
    } else {
        None
    }
}

/// What batch entry does for its task number `index`, given the day that
/// lies `index` days after the first day of the span.
pub fn batch_step(dates: &Vec<Date>, index: usize, stepped: Option<Date>) -> (r: BatchStep)
    ensures
        r@ == batch_step_of(
            date_views(dates@),
            index as nat,
            match stepped {
                Some(d) => Some(d@),
                None => None,
            },
        ),
{
    if dates.len() == 2 {
        assert(date_views(dates@)[0] == dates[0]@);
        assert(date_views(dates@)[1] == dates[1]@);
        if dates[0].not_after(&dates[1]) {
            match stepped {
                Some(day) => if index > 0 && !day.not_after(&dates[1]) {
                    BatchStep::Finished
                } else {
                    BatchStep::Due(Some(day))
                },
                None => BatchStep::Finished,
            }
        } else if index == 0 {
            BatchStep::Due(Some(dates[0]))
        } else if index == 1 {
            BatchStep::Due(Some(dates[1]))
        } else {
            BatchStep::Finished
        }
    } else if dates.len() > 0 {
        assert(date_views(dates@)[0] == dates[0]@);
        BatchStep::Due(Some(dates[0]))
    } else {
        BatchStep::Due(None)
    }
}

/// What batch entry does for its task number `index`, counted from 0.
pub fn batch_due_date(dates: &Vec<Date>, index: usize) -> (r: BatchStep)
    ensures
        r@ == batch_step_of(
            date_views(dates@),
            index as nat,
            stepped_of(date_views(dates@), index as nat),
        ),
{
    let stepped = if dates.len() > 0 {
        assert(date_views(dates@)[0] == dates[0]@);
        dates[0].plus_days(index as u64)
    } else {
        None
    };
    batch_step(dates, index, stepped)
}

} // verus!
