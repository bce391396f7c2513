//! How a pricing table names a model's knowledge cutoff and context length.
//!
//! A knowledge cutoff is kept as seconds since the Unix epoch, with `0` for a
//! model that is online. Calendar arithmetic is the `chrono` crate's and the
//! grouping of digits the `fancy_regex` crate's; each is reached through one
//! function whose contract is taken on trust.

use std::fmt::Write;
use vstd::prelude::*;
use vstd::string::StringExecFns;
use chrono::{DateTime, NaiveDate};
use fancy_regex::Regex;
use crate::numbers::{
    decimal_text, parse_i32, parse_i64, parse_u32, parsed_i32, parsed_i64, parsed_u32,
    u32_to_text,
};
use crate::text::{fields, lowercase_of, split_fields, to_lowercase};

verus! {

/// The orders in which a pricing table can be listed.
#[derive(Clone, Copy, Debug, PartialEq, Eq, PartialOrd, Ord, Structural)]
pub enum SortMetric {
    CostScoreRatio,
    Price,
    Score,
    ModelName,
    ContextLength,
    KnowledgeCutoff,
}

impl Default for SortMetric {
    /// A table is listed by cost per score unless another order is asked
    /// for.
    fn default() -> (metric: SortMetric)
        ensures
            metric == SortMetric::CostScoreRatio,
    {
        SortMetric::CostScoreRatio
    }
}

impl SortMetric {
    /// Whether the metric lists the greatest first: the best score, the
    /// longest context and the latest cutoff lead their lists, while costs
    /// and names ascend.
    pub open spec fn greatest_first(self) -> bool {
        self is Score || self is ContextLength || self is KnowledgeCutoff
    }

    /// Tells the direction in which the metric lists a table.
    pub fn descending(&self) -> (down: bool)
        ensures
            down == self.greatest_first(),
    {
        match self {
            SortMetric::Score => true,
            SortMetric::ContextLength => true,
            SortMetric::KnowledgeCutoff => true,
            SortMetric::CostScoreRatio => false,
            SortMetric::Price => false,
            SortMetric::ModelName => false,
        }
    }
}

/// Seconds from the Unix epoch to the time `hour`:`minute`:`second`, UTC,
/// of the calendar day `day` of month `month` of year `year`; `None` where
/// the calendar has no such day, the day has no such time, or the year lies
/// outside what `chrono` holds.
pub uninterp spec fn moment_of(
    year: i32,
    month: u32,
    day: u32,
    hour: u32,
    minute: u32,
    second: u32,
) -> Option<i64>;

/// The text that `chrono` writes for the moment `seconds` and `nanos`
/// nanoseconds after the Unix epoch, UTC, under the `strftime` pattern
/// `pattern`; `None` where `chrono` cannot hold the moment or the pattern is
/// invalid.
pub uninterp spec fn timestamp_text(seconds: i64, nanos: u32, pattern: Seq<char>) -> Option<
    Seq<char>,
>;

/// The text in which every match of the regular expression `pattern` in
/// `text`, from left to right and none overlapping, is replaced by
/// `replacement`; `None` where the pattern does not compile or the search
/// is given up.
pub uninterp spec fn regex_replaced(
    pattern: Seq<char>,
    text: Seq<char>,
    replacement: Seq<char>,
) -> Option<Seq<char>>;

/// `chrono::NaiveDate::from_ymd_opt`, `NaiveDate::and_hms_opt`,
/// `NaiveDateTime::and_utc` and `DateTime::timestamp`: the Unix time of a
/// time of a calendar day. It depends on the six numbers alone and is known
/// to the contracts as [`moment_of`]. The calendar has a first of January
/// 2000, and that day a time 0:00:00.
#[verifier::external_body]
fn moment_timestamp(year: i32, month: u32, day: u32, hour: u32, minute: u32, second: u32) -> (seconds:
    Option<i64>)
    ensures
        seconds == moment_of(year, month, day, hour, minute, second),
        year == 2000 && month == 1 && day == 1 && hour == 0 && minute == 0 && second == 0
            ==> seconds is Some,
{
    let date = NaiveDate::from_ymd_opt(year, month, day)?;
    let moment = date.and_hms_opt(hour, minute, second)?;
    Some(moment.and_utc().timestamp())
}

/// `chrono::DateTime::from_timestamp` and `DateTime::format`: a moment
/// written under a pattern. The text depends on the moment and the pattern
/// alone and is known to the contracts as [`timestamp_text`]. Only the
/// pattern of day, month and year is let in.
#[verifier::external_body]
fn format_timestamp(seconds: i64, nanos: u32, pattern: &str) -> (text: Option<String>)
    requires
        pattern@ == "%d/%m/%Y"@,
    ensures
        match text {
            Some(written) => timestamp_text(seconds, nanos, pattern@) == Some(written@),
            None => timestamp_text(seconds, nanos, pattern@) is None,
        },
{
    let moment = DateTime::from_timestamp(seconds, nanos)?;
    let mut written = String::new();
    match write!(written, "{}", moment.format(pattern)) {
        Ok(()) => Some(written),
        Err(_) => None,
    }
}

/// `fancy_regex::Regex::new` and `Regex::try_replacen` without limit: all
/// matches replaced. The result depends on the three texts alone and is
/// known to the contracts as [`regex_replaced`]. Only the pattern that
/// groups digits and the comma that separates the groups are let in.
#[verifier::external_body]
fn replace_all(pattern: &str, text: &str, replacement: &str) -> (replaced: Option<String>)
    requires
        pattern@ == thousands_pattern(),
        replacement@ == ","@,
    ensures
        match replaced {
            Some(result) => regex_replaced(pattern@, text@, replacement@) == Some(result@),
            None => regex_replaced(pattern@, text@, replacement@) is None,
        },
{
    let regex = match Regex::new(pattern) {
        Ok(compiled) => compiled,
        Err(_) => return None,
    };
    match regex.try_replacen(text, 0, replacement) {
        Ok(result) => Some(result.into_owned()),
        Err(_) => None,
    }
}

/// The part of a date that was read, or `default` where it is no number.
pub open spec fn part_or(parsed: Option<int>, default: int) -> int {
    match parsed {
        Some(value) => value,
        None => default,
    }
}

/// The start of a calendar day: its midnight, UTC, in seconds from the Unix
/// epoch.
pub open spec fn midnight_of(year: i32, month: u32, day: u32) -> Option<i64> {
    moment_of(year, month, day, 0, 0, 0)
}

/// The cutoff that a date of three fields names: the start of that day, and
/// the start of the year 2000 where the fields name no day. A field that is
/// no number counts as 1 for day and month and as 2000 for the year.
pub open spec fn cutoff_of_date(day: Seq<char>, month: Seq<char>, year: Seq<char>) -> Option<i64> {
    match midnight_of(
        part_or(parsed_i32(year), 2000) as i32,
        part_or(parsed_u32(month), 1) as u32,
        part_or(parsed_u32(day), 1) as u32,
    ) {
        Some(seconds) => Some(seconds),
        None => midnight_of(2000, 1, 1),
    }
}

/// Whether a text names a cutoff: it is "online" in any case, a number of
/// seconds, or three fields set apart by `/`.
pub open spec fn names_cutoff(date: Seq<char>) -> bool {
    lowercase_of(date) == "online"@ || parsed_i64(date) is Some || fields(date, '/').len() == 3
}

/// The cutoff that a text names: `0` for "online" in any case, the number
/// itself for a text that is a number, the start of the day for a date
/// written day/month/year, and nothing for any other text.
pub open spec fn knowledge_cutoff(date: Seq<char>) -> Option<i64> {
    if lowercase_of(date) == "online"@ {
        Some(0)
    } else if parsed_i64(date) is Some {
        Some(parsed_i64(date)->0 as i64)
    } else if fields(date, '/').len() == 3 {
        cutoff_of_date(fields(date, '/')[0], fields(date, '/')[1], fields(date, '/')[2])
    } else {
        None
    }
}

/// The Unix time of the start of a calendar day, where the calendar has
/// the day.
fn midnight_timestamp(year: i32, month: u32, day: u32) -> (seconds: Option<i64>)
    ensures
        seconds == midnight_of(year, month, day),
        year == 2000 && month == 1 && day == 1 ==> seconds is Some,
{
    moment_timestamp(year, month, day, 0, 0, 0)
}

/// Reads the cutoff off the three fields of a date. Every three fields
/// name a cutoff.
pub fn date_cutoff(day: &str, month: &str, year: &str) -> (epoch: Option<i64>)
    ensures
        epoch == cutoff_of_date(day@, month@, year@),
        epoch is Some,
{
    let day = match parse_u32(day) {
        Some(value) => value,
        None => 1,
    };
    let month = match parse_u32(month) {
        Some(value) => value,
        None => 1,
    };
    let year = match parse_i32(year) {
        Some(value) => value,
        None => 2000,
    };
    match midnight_timestamp(year, month, day) {
        Some(seconds) => Some(seconds),
        None => midnight_timestamp(2000, 1, 1),
    }
}

/// Reads a knowledge cutoff as a user writes it: "Online", seconds since
/// the Unix epoch, or a date as day/month/year.
pub fn parse_knowledge_cutoff(date_str: Option<String>) -> (epoch: Option<i64>)
    ensures
        epoch == match date_str {
            Some(date) => knowledge_cutoff(date@),
            None => None,
        },
        epoch is Some <==> (date_str matches Some(date) && names_cutoff(date@)),
{
    match date_str {
        Some(date) => {
            if to_lowercase(date.as_str()) == String::from_str("online") {
                return Some(0);
            }
            match parse_i64(date.as_str()) {
                Some(seconds) => Some(seconds),
                None => {
                    let parts = split_fields(date.as_str(), '/');
                    if parts.len() == 3 {
                        date_cutoff(parts[0].as_str(), parts[1].as_str(), parts[2].as_str())
                    } else {
                        None
                    }
                },
            }
        },
        None => None,
    }
}

/// How a cutoff is shown: "Online" for `0`, else its day as day/month/year;
/// nothing for a moment that the calendar cannot hold.
pub open spec fn knowledge_cutoff_text(epoch: i64) -> Option<Seq<char>> {
    if epoch == 0 {
        Some("Online"@)
    } else {
        timestamp_text(epoch, 0, "%d/%m/%Y"@)
    }
}

/// Writes a knowledge cutoff for display.
pub fn format_knowledge_cutoff(epoch: i64) -> (text: Option<String>)
    ensures
        match text {
            Some(shown) => knowledge_cutoff_text(epoch) == Some(shown@),
            None => knowledge_cutoff_text(epoch) is None,
        },
{
    if epoch == 0 {
        Some(String::from_str("Online"))
    } else {
        format_timestamp(epoch, 0, "%d/%m/%Y")
    }
}

/// The pattern that matches between two digits wherever the digits that
/// follow, up to the end, come in groups of three.
pub open spec fn thousands_pattern() -> Seq<char> {
    "(?<=\\d)(?=(\\d{3})+$)"@
}

/// The digits of a number in groups of three, where grouping came to a
/// result, and as they are where it did not.
pub open spec fn grouped(grouping: Option<Seq<char>>, digits: Seq<char>) -> Seq<char> {
    match grouping {
        Some(text) => text,
        None => digits,
    }
}

/// How a context length is shown: `-` where there is none, else its decimal
/// digits with a comma before each group of three.
pub open spec fn context_length_text(context_length: Option<u32>) -> Seq<char> {
    match context_length {
        Some(length) => grouped(
            regex_replaced(thousands_pattern(), decimal_text(length as nat), ","@),
            decimal_text(length as nat),
        ),
        None => "-"@,
    }
}

/// Chooses between the grouped digits and the digits as they are.
pub fn grouped_or_plain(grouping: Option<String>, digits: String) -> (text: String)
    ensures
        text@ == grouped(
            match grouping {
                Some(result) => Some(result@),
                None => None,
            },
            digits@,
        ),
{
    match grouping {
        Some(result) => result,
        None => digits,
    }
}

/// Writes a context length for display.
pub fn format_context_length(context_length: Option<u32>) -> (text: String)
    ensures
        text@ == context_length_text(context_length),
{
    match context_length {
        Some(length) => {
            let digits = u32_to_text(length);
            let grouping = replace_all("(?<=\\d)(?=(\\d{3})+$)", digits.as_str(), ",");
            grouped_or_plain(grouping, digits)
        },
        None => String::from_str("-"),
    }
}

} // verus!
