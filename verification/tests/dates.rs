//! The date codec: the all-zero read sentinel, the separator-less write
//! form, calendar validation, and strict field widths.

use mal::date::Date;
use mal::util::{date_to_str, parse_str_date};

#[test]
fn sentinel_decodes_to_none() {
    assert_eq!(parse_str_date("0000-00-00"), None);
}

#[test]
fn missing_date_encodes_as_all_zeros() {
    assert_eq!(date_to_str(None), "00000000");
}

#[test]
fn write_form_is_month_day_year_without_separators() {
    let d = Date { year: 2017, month: 1, day: 2 };
    assert_eq!(date_to_str(Some(d)), "01022017");
    let late = Date { year: 999, month: 12, day: 31 };
    assert_eq!(date_to_str(Some(late)), "12310999");
}

#[test]
fn read_form_decodes() {
    assert_eq!(
        parse_str_date("2017-01-02"),
        Some(Date { year: 2017, month: 1, day: 2 })
    );
    assert_eq!(
        parse_str_date("1999-12-31"),
        Some(Date { year: 1999, month: 12, day: 31 })
    );
}

#[test]
fn calendar_is_validated() {
    assert_eq!(parse_str_date("2017-02-29"), None);
    assert_eq!(
        parse_str_date("2016-02-29"),
        Some(Date { year: 2016, month: 2, day: 29 })
    );
    assert_eq!(parse_str_date("1900-02-29"), None);
    assert_eq!(
        parse_str_date("2000-02-29"),
        Some(Date { year: 2000, month: 2, day: 29 })
    );
    assert_eq!(parse_str_date("2017-13-01"), None);
    assert_eq!(parse_str_date("2017-04-31"), None);
    assert_eq!(parse_str_date("2017-00-10"), None);
    assert_eq!(parse_str_date("2017-01-00"), None);
}

#[test]
fn malformed_dates_decode_to_none() {
    assert_eq!(parse_str_date(""), None);
    assert_eq!(parse_str_date("2017-1-2"), None);
    assert_eq!(parse_str_date("2017/01/02"), None);
    assert_eq!(parse_str_date("20170102"), None);
    assert_eq!(parse_str_date("yyyy-mm-dd"), None);
}

#[test]
fn valid_date_round_trips_through_both_forms() {
    let d = parse_str_date("2016-02-29").unwrap();
    assert_eq!(date_to_str(Some(d)), "02292016");
}
