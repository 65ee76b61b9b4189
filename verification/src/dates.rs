//! Splitting a period into the days that are queried one by one.

use vstd::prelude::*;
use chrono::{Datelike, NaiveDate};

verus! {

/// A day of the calendar by its year, its month and its day of the month.
/// Not every value is a date: there is no thirtieth of February.
#[derive(Clone, Copy, Debug, PartialEq, Eq, Structural)]
pub struct Date {
    pub year: i32,
    pub month: u32,
    pub day: u32,
}

impl Date {
    /// The date as three numbers: year, month, day.
    pub open spec fn numbers(self) -> (int, int, int) {
        (self.year as int, self.month as int, self.day as int)
    }
}

/// The number of days from the first date to the second, each given as
/// year, month and day; below zero where the second is the earlier one.
/// `None` where one of the two is no date of the calendar.
pub uninterp spec fn days_between(
    from_year: int,
    from_month: int,
    from_day: int,
    to_year: int,
    to_month: int,
    to_day: int,
) -> Option<int>;

/// The date that follows the given one. `None` where the given one is no
/// date of the calendar or the last that the calendar can hold.
pub uninterp spec fn day_after(year: int, month: int, day: int) -> Option<(int, int, int)>;

/// `chrono::NaiveDate::signed_duration_since`, read in whole days with
/// `chrono::TimeDelta::num_days`, on the two dates that
/// `chrono::NaiveDate::from_ymd_opt` makes of `from` and `to`. Nothing is
/// claimed of the number but that it depends on the two dates alone.
#[verifier::external_body]
fn days_from_to(from: &Date, to: &Date) -> (out: Option<i64>)
    ensures
        match out {
            Some(n) => days_between(
                from.year as int,
                from.month as int,
                from.day as int,
                to.year as int,
                to.month as int,
                to.day as int,
            ) == Some(n as int),
            None => days_between(
                from.year as int,
                from.month as int,
                from.day as int,
                to.year as int,
                to.month as int,
                to.day as int,
            ) is None,
        },
{
    let start = NaiveDate::from_ymd_opt(from.year, from.month, from.day)?;
    let end = NaiveDate::from_ymd_opt(to.year, to.month, to.day)?;
    Some(end.signed_duration_since(start).num_days())
}

/// `chrono::NaiveDate::succ_opt` on the date that
/// `chrono::NaiveDate::from_ymd_opt` makes of `date`, taken apart again
/// into year, month and day. Nothing is claimed of the result but that it
/// depends on `date` alone.
#[verifier::external_body]
fn next_day(date: &Date) -> (out: Option<Date>)
    ensures
        match out {
            Some(next) => day_after(date.year as int, date.month as int, date.day as int) == Some(
                next.numbers(),
            ),
            None => day_after(date.year as int, date.month as int, date.day as int) is None,
        },
{
    let next = NaiveDate::from_ymd_opt(date.year, date.month, date.day)?.succ_opt()?;
    Some(Date { year: next.year(), month: next.month(), day: next.day() })
}

/// The first `count` days from `start` on: `start` itself, then each time
/// the day after the one before. `None` where the calendar ends before
/// `count` days are found.
pub open spec fn run_of_days(start: (int, int, int), count: nat) -> Option<Seq<(int, int, int)>>
    decreases count,
{
    if count == 0 {
        Some(Seq::empty())
    } else if count == 1 {
        Some(seq![start])
    } else {
        match run_of_days(start, (count - 1) as nat) {
            Some(before) => match day_after(before.last().0, before.last().1, before.last().2) {
                Some(next) => Some(before.push(next)),
                None => None,
            },
            None => None,
        }
    }
}

/// Whether `ranges` holds, for each day of `days` in turn, the range that
/// starts and ends on that day.
pub open spec fn are_single_days(ranges: Seq<(Date, Date)>, days: Seq<(int, int, int)>) -> bool {
    &&& ranges.len() == days.len()
    &&& forall|i: int|
        0 <= i < ranges.len() ==> (#[trigger] ranges[i]).0.numbers() == days[i] && ranges[i].1
            == ranges[i].0
}

/// What [`get_dates`] gives for a period of `span` days between its first
/// and its last day.
pub open spec fn is_split_of(
    from_date: Date,
    to_date: Date,
    span: int,
    out: Option<Seq<(Date, Date)>>,
) -> bool {
    if span < 0 {
        out matches Some(ranges) && ranges.len() == 0
    } else if span == 0 {
        out matches Some(ranges) && ranges == seq![(from_date, to_date)]
    } else {
        match run_of_days(from_date.numbers(), (span + 1) as nat) {
            Some(days) => out matches Some(ranges) && are_single_days(ranges, days),
            None => out is None,
        }
    }
}

/// A run of days has as many days as were asked for.
pub proof fn run_has_its_length(start: (int, int, int), count: nat)
    ensures
        run_of_days(start, count) matches Some(days) ==> days.len() == count,
    decreases count,
{
    if count > 1 {
        run_has_its_length(start, (count - 1) as nat);
    }
}

/// Splits the period from `from_date` to `to_date`, both included, into
/// its days: one range for each day, which starts and ends on that day. A
/// period of one day is the range from `from_date` to `to_date`; a period
/// that ends before it starts has no days. `None` where one of the two is
/// no date of the calendar, or the calendar ends within the period.
pub fn get_dates(from_date: Date, to_date: Date) -> (out: Option<Vec<(Date, Date)>>)
    ensures
        match days_between(
            from_date.year as int,
            from_date.month as int,
            from_date.day as int,
            to_date.year as int,
            to_date.month as int,
            to_date.day as int,
        ) {
            Some(span) => is_split_of(
                from_date,
                to_date,
                span,
                match out {
                    Some(ranges) => Some(ranges@),
                    None => None,
                },
            ),
            None => out is None,
        },
{
    let span = match days_from_to(&from_date, &to_date) {
        Some(span) => span,
        None => {
            return None;
        },
    };
    let mut dates: Vec<(Date, Date)> = Vec::new();
    if span < 0 {
        return Some(dates);
    }
    if span == 0 {
        dates.push((from_date, to_date));
        return Some(dates);
    }
    let ghost start = from_date.numbers();
    let ghost mut days: Seq<(int, int, int)> = seq![start];
    let mut day = from_date;
    let mut left: i64 = span;
    dates.push((day, day));
    while left > 0
        invariant
            0 <= left <= span,
            start == from_date.numbers(),
            days_between(
                from_date.year as int,
                from_date.month as int,
                from_date.day as int,
                to_date.year as int,
                to_date.month as int,
                to_date.day as int,
            ) == Some(span as int),
            run_of_days(start, (span - left + 1) as nat) == Some(days),
            days.len() == span - left + 1,
            days.last() == day.numbers(),
            are_single_days(dates@, days),
        decreases left,
    {
        let ghost before = dates@;
        match next_day(&day) {
            Some(next) => {
                day = next;
                dates.push((day, day));
                left = left - 1;
                proof {
                    days = days.push(day.numbers());
                    assert forall|i: int| 0 <= i < dates@.len() implies (
                    #[trigger] dates@[i]).0.numbers() == days[i] && dates@[i].1 == dates@[i].0 by {
                        if i < before.len() {
                            assert(dates@[i] == before[i]);
                        }
                    }
                }
            },
            None => {
                proof {
                    assert(run_of_days(start, (span - left + 2) as nat) is None);
                    run_stays_short(start, (span - left + 2) as nat, (span + 1) as nat);
                }
                return None;
            },
        }
    }
    Some(dates)
}

/// Where the calendar ends before `count` days are found, it ends before
/// any larger number of days is found.
pub proof fn run_stays_short(start: (int, int, int), count: nat, more: nat)
    requires
        count <= more,
        run_of_days(start, count) is None,
    ensures
        run_of_days(start, more) is None,
    decreases more,
{
    if count < more {
        run_stays_short(start, count, (more - 1) as nat);
    }
}

} // verus!
