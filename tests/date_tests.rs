use chrono::{Datelike, Local, NaiveDate};
use file_date_fixer::date::{
    date_token, extract_date_from_normalized_file_name, is_future_date, parse_normalized_date,
    DateParseError,
};
use file_date_fixer::Date;

fn date_of(d: NaiveDate) -> Date {
    Date::from_ymd(d.year(), d.month(), d.day()).unwrap()
}

#[test]
fn test_extract_date_from_normalized_file_name_valid() {
    assert_eq!(
        extract_date_from_normalized_file_name("IMG_20240101_sample.jpg"),
        "20240101"
    );
    assert_eq!(
        extract_date_from_normalized_file_name("PANO_19991231_panorama.png"),
        "19991231"
    );
}

#[test]
fn date_token_needs_an_underscore() {
    assert_eq!(date_token("IMG-20240101.jpg"), None);
    assert_eq!(date_token("VID_20231231.mp4"), Some("20231231.mp4"));
    assert_eq!(date_token("IMG__x"), Some(""));
}

#[test]
fn test_parse_normalized_date_valid() {
    let parsed = parse_normalized_date("20240101").expect("Failed to parse valid date");
    assert_eq!(parsed, Date::from_ymd(2024, 1, 1).unwrap());
}

#[test]
fn test_parse_normalized_date_invalid_format() {
    assert!(parse_normalized_date("20XX0101").is_err()); // Non-numeric characters
    assert!(parse_normalized_date("2024-01-01").is_err()); // Hyphen format
    assert!(parse_normalized_date("20241301").is_err()); // Invalid month (13)
    assert!(parse_normalized_date("20240230").is_err()); // Invalid day (Feb 30)
}

#[test]
fn parse_errors_name_their_reason() {
    assert_eq!(parse_normalized_date("20XX0101"), Err(DateParseError::NotEightDigits));
    assert_eq!(parse_normalized_date("2024-01-01"), Err(DateParseError::NotEightDigits));
    assert_eq!(parse_normalized_date("2024011"), Err(DateParseError::NotEightDigits));
    assert_eq!(parse_normalized_date("202401011"), Err(DateParseError::NotEightDigits));
    assert_eq!(parse_normalized_date(""), Err(DateParseError::NotEightDigits));
    assert_eq!(parse_normalized_date(" 2024010"), Err(DateParseError::NotEightDigits));
    assert_eq!(parse_normalized_date("+2024010"), Err(DateParseError::NotEightDigits));
    assert_eq!(parse_normalized_date("20241301"), Err(DateParseError::NotACalendarDate));
    assert_eq!(parse_normalized_date("20240230"), Err(DateParseError::NotACalendarDate));
    assert_eq!(parse_normalized_date("20230229"), Err(DateParseError::NotACalendarDate));
    assert_eq!(parse_normalized_date("20240000"), Err(DateParseError::NotACalendarDate));
    assert_eq!(parse_normalized_date("20240100"), Err(DateParseError::NotACalendarDate));
}

#[test]
fn parse_reads_year_month_day() {
    assert_eq!(parse_normalized_date("20240229"), Ok(Date { year: 2024, month: 2, day: 29 }));
    assert_eq!(parse_normalized_date("20000229"), Ok(Date { year: 2000, month: 2, day: 29 }));
    assert_eq!(parse_normalized_date("19991231"), Ok(Date { year: 1999, month: 12, day: 31 }));
    assert_eq!(parse_normalized_date("00010101"), Ok(Date { year: 1, month: 1, day: 1 }));
    assert_eq!(parse_normalized_date("59501227"), Ok(Date { year: 5950, month: 12, day: 27 }));
}

#[test]
fn test_is_future_date() {
    let today = date_of(Local::now().date_naive());
    let future_date = date_of(Local::now().date_naive() + chrono::Duration::days(1));
    assert!(is_future_date(future_date, today));

    assert!(!is_future_date(today, today));

    let past_date = Date::from_ymd(2000, 1, 1).unwrap();
    assert!(!is_future_date(past_date, today));
}

#[test]
fn future_is_strictly_later() {
    let today = Date::from_ymd(2024, 6, 15).unwrap();
    assert!(!is_future_date(today, today));
    assert!(is_future_date(Date::from_ymd(2024, 6, 16).unwrap(), today));
    assert!(is_future_date(Date::from_ymd(2024, 7, 1).unwrap(), today));
    assert!(is_future_date(Date::from_ymd(2025, 1, 1).unwrap(), today));
    assert!(!is_future_date(Date::from_ymd(2024, 6, 14).unwrap(), today));
    assert!(!is_future_date(Date::from_ymd(2023, 12, 31).unwrap(), today));
}

#[test]
fn calendar_dates_are_checked() {
    assert!(Date::from_ymd(2024, 2, 29).is_some());
    assert!(Date::from_ymd(1900, 2, 29).is_none());
    assert!(Date::from_ymd(2000, 2, 29).is_some());
    assert!(Date::from_ymd(2024, 4, 31).is_none());
    assert!(Date::from_ymd(2024, 12, 31).is_some());
    assert!(Date::from_ymd(2024, 0, 1).is_none());
    assert!(Date::from_ymd(2024, 13, 1).is_none());
    assert!(Date::from_ymd(2024, 1, 0).is_none());
}
