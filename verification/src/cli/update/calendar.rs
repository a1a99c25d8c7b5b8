//! Calendar days.
//!
//! A day is held as its number in the proleptic Gregorian calendar, in
//! which the first of January of the year 1 is day 1. What a date looks
//! like in writing is the calendar library's matter.

use crate::text::opt_view;
use chrono::Datelike;
use std::str::FromStr;
use vstd::prelude::*;

verus! {

/// The day that a written date names, where the text is one.
pub uninterp spec fn written_day(text: Seq<char>) -> Option<i32>;

/// The written form of a day, where the calendar reaches that far.
pub uninterp spec fn day_text(day: i32) -> Option<Seq<char>>;

/// `NaiveDate::from_str` of chrono, followed by `num_days_from_ce`: the
/// number of the day that `text` names, and `None` where chrono does not
/// read `text` as a date.
#[verifier::external_body]
pub(crate) fn parse_day(text: &str) -> (day: Option<i32>)
    ensures
        day == written_day(text@),
{
    match chrono::NaiveDate::from_str(text) {
        Ok(date) => Some(date.num_days_from_ce()),
        Err(_) => None,
    }
}

/// `NaiveDate::from_num_days_from_ce_opt` of chrono, followed by
/// `to_string`: the date with the given number as chrono writes it, and
/// `None` where the number lies outside the years that chrono covers.
#[verifier::external_body]
pub(crate) fn format_day(day: i32) -> (text: Option<String>)
    ensures
        opt_view(text) == day_text(day),
{
    match chrono::NaiveDate::from_num_days_from_ce_opt(day) {
        Some(date) => Some(date.to_string()),
        None => None,
    }
}

/// `Local::now` of chrono, reduced to the number of the day: today's date
/// on this machine, in its time zone. Nothing is known of it beforehand.
#[verifier::external_body]
pub(crate) fn current_day() -> (day: i32) {
    chrono::Local::now().date_naive().num_days_from_ce()
}

/// The whole days from `earlier` to `later`; negative where `later` is the
/// earlier of the two.
pub open spec fn days_between(later: i32, earlier: i32) -> int {
    later - earlier
}

/// Counts the whole days from `earlier` to `later`.
pub fn days_since(later: i32, earlier: i32) -> (days: i64)
    ensures
        days == days_between(later, earlier),
{
    later as i64 - earlier as i64
}

} // verus!
