//! Counting the days to a date.

use crate::error_message::ErrorMessage;
use crate::text::decimal;
use crate::text::decimal_text;
use crate::text::trim;
use crate::text::trimmed;
use chrono::Datelike;
use vstd::prelude::*;
use vstd::string::*;

verus! {

/// `chrono::ParseError`, why a text is no date.
#[verifier::external_type_specification]
#[verifier::external_body]
pub struct ExParseError(chrono::ParseError);

/// The day that `text` stands for when it is read by `format`, where it
/// stands for one: the number of the day in the Gregorian calendar, the
/// first of January of the year 1 being day 1.
pub uninterp spec fn day_written(text: Seq<char>, format: Seq<char>) -> Option<int>;

/// `chrono::NaiveDate::parse_from_str`, with the date handed out as the
/// number of its day (`chrono::Datelike::num_days_from_ce`): the day that the
/// text stands for in the given format, or the error where it stands for
/// none. The same text and format always give the same day.
#[verifier::external_body]
fn parse_day(text: &str, format: &str) -> (r: Result<i32, chrono::ParseError>)
    ensures
        day_written(text@, format@) == match r {
            Ok(day) => Some(day as int),
            Err(_) => None,
        },
{
    Ok(chrono::NaiveDate::parse_from_str(text, format)?.num_days_from_ce())
}

/// The `Debug` rendering of a `chrono::ParseError`.
#[verifier::external_body]
fn parse_error_text(error: &chrono::ParseError) -> (text: String) {
    format!("{:?}", error)
}

/// What is said of a date that is `days` days away.
pub open spec fn countdown_text(days: int) -> Seq<char> {
    if days <= 0 {
        "In my arms! \u{1f970}\u{fe0f}"@
    } else if days == 1 {
        "Tomorrow! \u{2665}\u{fe0f}"@
    } else {
        decimal(days as nat) + " Days \u{2665}\u{fe0f}"@
    }
}

/// Writes what is said of a date that is `days` days away.
pub fn countdown_message(days: i64) -> (message: String)
    ensures
        message@ == countdown_text(days as int),
{
    if days <= 0 {
        "In my arms! \u{1f970}\u{fe0f}".to_owned()
    } else if days == 1 {
        "Tomorrow! \u{2665}\u{fe0f}".to_owned()
    } else {
        let mut message = decimal_text(days as u64);
        message.append(" Days \u{2665}\u{fe0f}");
        message
    }
}

/// The format in which the target date is written: day, month and year with
/// dots between them.
pub open spec fn date_format() -> Seq<char> {
    "%d.%m.%Y"@
}

/// Reads the target date, which may have whitespace around it, and writes
/// what is said of it on the day with the number `today`. A text that is no
/// date is a failure that names the format and holds the parser's error as
/// its cause.
pub fn countdown(target_date: &str, today: i32) -> (r: Result<String, ErrorMessage>)
    ensures
        match day_written(trimmed(target_date@), date_format()) {
            Some(day) => r is Ok && r->Ok_0@ == countdown_text(day - today),
            None => r is Err && r->Err_0@.len() == 2 && r->Err_0@[0]
                == "Unexpected date format. Expected format: DD.MM.YYYY"@
                && r->Err_0.ends_foreign(),
        },
{
    match parse_day(trim(target_date), "%d.%m.%Y") {
        Ok(day) => Ok(countdown_message(day as i64 - today as i64)),
        Err(error) => Err(
            ErrorMessage::with_context(
                "Unexpected date format. Expected format: DD.MM.YYYY".to_owned(),
                ErrorMessage::foreign(parse_error_text(&error)),
            ),
        ),
    }
}

} // verus!
