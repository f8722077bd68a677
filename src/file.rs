//! The per-file decision: from a file's name, today's date and its stored
//! timestamp, what (if anything) to write.
use vstd::prelude::*;
use crate::calendar::Date;
use crate::date::{
    date_token, is_future_date, parse_date_spec, parse_normalized_date, second_segment,
};
use crate::file_metadata::{
    chrono_midnight_utc, chrono_utc_date, utc_date_of_timestamp, utc_midnight_timestamp,
};
use crate::normalization::{
    is_date_pattern_name, is_normalized_date_pattern_match, normalize_file_name, normalized,
};

verus! {

/// What a file's name says about it.
#[derive(Clone, Copy, Debug, PartialEq, Eq, Structural)]
pub enum NamePlan {
    /// The name does not have the shape of a dated media file: nothing to do.
    Unmatched,
    /// The name has the shape, but its date token is not a calendar date.
    NoValidDate,
    /// The name carries a date after today: the file is left alone.
    FutureDate { date: Date },
    /// The name carries this date, today or earlier: compare it with the
    /// stored date.
    CheckStored { date: Date },
}

/// What to do once the stored timestamp has been read (or not).
#[derive(Clone, Copy, Debug, PartialEq, Eq, Structural)]
pub enum Decision {
    /// No stored timestamp could be read or turned into a date.
    MetadataUnavailable,
    /// The stored date is not later than the name's date: no write.
    UpToDate { stored: Date },
    /// The stored date is later than the name's date: write `new_timestamp`,
    /// midnight UTC of the name's date.
    Update { stored: Date, new_timestamp: i64 },
}

/// The plan for a file, given the date that its name carries.
pub open spec fn dated_plan(date: Date, today: Date) -> NamePlan {
    if today.precedes(date) {
        NamePlan::FutureDate { date }
    } else {
        NamePlan::CheckStored { date }
    }
}

/// The plan for a normalized name that matched the pattern.
pub open spec fn matched_plan(normalized_name: Seq<char>, today: Date) -> NamePlan {
    match second_segment(normalized_name) {
        None => NamePlan::NoValidDate,
        Some(token) => match parse_date_spec(token) {
            Err(_) => NamePlan::NoValidDate,
            Ok(date) => dated_plan(date, today),
        },
    }
}

/// The plan for a file name: normalize, match the pattern, read the date,
/// and hold it against today.
pub open spec fn name_plan(file_name: Seq<char>, today: Date) -> NamePlan {
    let n = normalized(file_name);
    if !is_date_pattern_name(n) {
        NamePlan::Unmatched
    } else {
        matched_plan(n, today)
    }
}

/// Whether a stored date must be rewritten to the name's date: only when it
/// is strictly later.
pub open spec fn needs_update(name_date: Date, stored: Date) -> bool {
    name_date.precedes(stored)
}

/// The date that reconciliation writes for a file, if any, when its stored
/// date is `stored` (`None`: it cannot be read).
pub open spec fn planned_write(file_name: Seq<char>, today: Date, stored: Option<Date>) -> Option<
    Date,
> {
    match name_plan(file_name, today) {
        NamePlan::CheckStored { date } => match stored {
            Some(s) => if needs_update(date, s) {
                Some(date)
            } else {
                None
            },
            None => None,
        },
        _ => None,
    }
}

/// The decision for a name's date and a stored date.
pub open spec fn date_decision(name_date: Date, stored: Date) -> Decision {
    if needs_update(name_date, stored) {
        Decision::Update {
            stored,
            new_timestamp: utc_midnight_timestamp(
                name_date.year as int,
                name_date.month as int,
                name_date.day as int,
            ) as i64,
        }
    } else {
        Decision::UpToDate { stored }
    }
}

/// The date that a stored timestamp reads as.
pub open spec fn stored_of(ymd: (int, int, int)) -> Date {
    Date { year: ymd.0 as i32, month: ymd.1 as u32, day: ymd.2 as u32 }
}

/// The decision for a name's date and a stored timestamp, if one was read.
pub open spec fn timestamp_decision(name_date: Date, stored_timestamp: Option<i64>) -> Decision {
    match stored_timestamp {
        None => Decision::MetadataUnavailable,
        Some(secs) => match utc_date_of_timestamp(secs as int) {
            None => Decision::MetadataUnavailable,
            Some(ymd) => date_decision(name_date, stored_of(ymd)),
        },
    }
}

/// Decides what to do with a file whose name carries `parsed_date`: future
/// dates are left alone, the others are compared with the stored date.
fn handle_valid_parsed_date(parsed_date: Date, today: Date) -> (r: NamePlan)
    ensures
        r == dated_plan(parsed_date, today),
{
    if is_future_date(parsed_date, today) {
        NamePlan::FutureDate { date: parsed_date }
    } else {
        NamePlan::CheckStored { date: parsed_date }
    }
}

/// Reads the date of a normalized name that matched the pattern.
fn process_matched_pattern_file(normalized_file_name: &str, today: Date) -> (r: NamePlan)
    ensures
        r == matched_plan(normalized_file_name@, today),
{
    match date_token(normalized_file_name) {
        None => NamePlan::NoValidDate,
        Some(token) => match parse_normalized_date(token) {
            Ok(parsed_date) => handle_valid_parsed_date(parsed_date, today),
            Err(_) => NamePlan::NoValidDate,
        },
    }
}

/// The plan for a file named `file_name`, on the day `today`.
pub fn process_file(file_name: &str, today: Date) -> (r: NamePlan)
    ensures
        r == name_plan(file_name@, today),
        r matches NamePlan::FutureDate { date } ==> date.wf(),
        r matches NamePlan::CheckStored { date } ==> date.wf(),
{
    let normalized_file_name = normalize_file_name(file_name);
    if is_normalized_date_pattern_match(normalized_file_name.as_str()) {
        process_matched_pattern_file(normalized_file_name.as_str(), today)
    } else {
        NamePlan::Unmatched
    }
}

/// Compares the date that a name carries with the stored timestamp, read as
/// a UTC date, and decides whether to rewrite it.
pub fn process_file_dates(parsed_date: Date, stored_timestamp: Option<i64>) -> (r: Decision)
    requires
        parsed_date.wf(),
    ensures
        r == timestamp_decision(parsed_date, stored_timestamp),
{
    let secs = match stored_timestamp {
        Some(secs) => secs,
        None => return Decision::MetadataUnavailable,
    };
    let stored = match chrono_utc_date(secs) {
        Some(d) => d,
        None => return Decision::MetadataUnavailable,
    };
    if stored.is_after(&parsed_date) {
        Decision::Update { stored, new_timestamp: chrono_midnight_utc(parsed_date) }
    } else {
        Decision::UpToDate { stored }
    }
}

} // verus!
