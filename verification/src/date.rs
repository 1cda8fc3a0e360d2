//! A calendar date held as plain year, month and day values, with the two
//! wire renderings the service uses: `YYYY-MM-DD` on reads (where the
//! all-zero string stands for "no date") and `MMDDYYYY` on writes.

use vstd::prelude::*;
use crate::text::{
    all_digits, dec2_str, dec4_str, digits_value, parse_digits_u64, u32_to_padded4_string,
    u8_to_padded2_string,
};

verus! {

/// A calendar date. Valid dates (see [`Date::is_valid`]) have a four-digit
/// year and a day that exists in the given month.
#[derive(Clone, Copy, Debug, PartialEq, Eq, Structural)]
pub struct Date {
    pub year: u32,
    pub month: u8,
    pub day: u8,
}

/// Whether a year is a leap year in the proleptic Gregorian calendar.
pub open spec fn is_leap_year(y: int) -> bool {
    (y % 4 == 0 && y % 100 != 0) || y % 400 == 0
}

/// The number of days of a month.
pub open spec fn spec_days_in_month(y: int, m: int) -> int
    recommends
        1 <= m <= 12,
{
    if m == 2 {
        if is_leap_year(y) {
            29
        } else {
            28
        }
    } else if m == 4 || m == 6 || m == 9 || m == 11 {
        30
    } else {
        31
    }
}

/// Whether year, month and day form a real date with a four-digit year.
pub open spec fn valid_ymd(y: int, m: int, d: int) -> bool {
    0 <= y <= 9999 && 1 <= m <= 12 && 1 <= d <= spec_days_in_month(y, m)
}

impl Date {
    /// Whether the date exists in the calendar.
    pub open spec fn is_valid(self) -> bool {
        valid_ymd(self.year as int, self.month as int, self.day as int)
    }
}

/// The number of days of a month.
pub fn days_in_month(year: u32, month: u8) -> (r: u8)
    ensures
        r == spec_days_in_month(year as int, month as int),
{
    if month == 2 {
        let leap = (year % 4 == 0 && year % 100 != 0) || year % 400 == 0;
        if leap {
            29
        } else {
            28
        }
    } else if month == 4 || month == 6 || month == 9 || month == 11 {
        30
    } else {
        31
    }
}

/// Builds a date after checking that it exists in the calendar.
pub fn date_from_ymd(year: u32, month: u8, day: u8) -> (r: Option<Date>)
    ensures
        match r {
            Some(d) => valid_ymd(year as int, month as int, day as int) && d == (Date {
                year,
                month,
                day,
            }),
            None => !valid_ymd(year as int, month as int, day as int),
        },
{
    if year <= 9999 && 1 <= month && month <= 12 && 1 <= day && day <= days_in_month(
        year,
        month,
    ) {
        Some(Date { year, month, day })
    } else {
        None
    }
}

/// Ten to the given power.
pub open spec fn pow10(n: nat) -> nat
    decreases n,
{
    if n == 0 {
        1
    } else {
        10 * pow10((n - 1) as nat)
    }
}

/// A digit string's value is below ten to its length.
pub proof fn lemma_digits_value_bound(s: Seq<char>)
    requires
        all_digits(s),
    ensures
        digits_value(s) < pow10(s.len()),
    decreases s.len(),
{
    if s.len() > 0 {
        assert forall|i: int| 0 <= i < s.drop_last().len() implies crate::text::is_digit(
            #[trigger] s.drop_last()[i],
        ) by {
            assert(s.drop_last()[i] == s[i]);
        }
        lemma_digits_value_bound(s.drop_last());
        assert(crate::text::is_digit(s[s.len() - 1]));
        assert(crate::text::digit_val(s.last()) <= 9);
    }
}

/// Whether a string has the read-side wire shape of a date: four digits,
/// a dash, two digits, a dash, two digits.
pub open spec fn is_date_text(s: Seq<char>) -> bool {
    &&& s.len() == 10
    &&& all_digits(s.subrange(0, 4))
    &&& s[4] == '-'
    &&& all_digits(s.subrange(5, 7))
    &&& s[7] == '-'
    &&& all_digits(s.subrange(8, 10))
}

/// The year denoted by a read-side date string.
pub open spec fn date_text_year(s: Seq<char>) -> nat {
    digits_value(s.subrange(0, 4))
}

/// The month denoted by a read-side date string.
pub open spec fn date_text_month(s: Seq<char>) -> nat {
    digits_value(s.subrange(5, 7))
}

/// The day denoted by a read-side date string.
pub open spec fn date_text_day(s: Seq<char>) -> nat {
    digits_value(s.subrange(8, 10))
}

/// The write-side wire rendering of a date: `MMDDYYYY`, zero-padded, no
/// separators.
pub open spec fn date_write_text(d: Date) -> Seq<char> {
    dec2_str(d.month as nat) + dec2_str(d.day as nat) + dec4_str(d.year as nat)
}

/// The write-side rendering of an optional date: `MMDDYYYY`, or the fixed
/// all-zero string for a missing date.
pub open spec fn spec_date_wire(date: Option<Date>) -> Seq<char> {
    match date {
        Some(d) => date_write_text(d),
        None => "00000000"@,
    }
}

/// The write-side rendering of a valid date is exactly eight characters,
/// all of them digits: two for the month, two for the day, four for the
/// year, with no separators. The rendering of a missing date, the fixed
/// all-zero string, has the same shape.
pub proof fn lemma_date_wire_shape(d: Date)
    requires
        d.is_valid(),
    ensures
        date_write_text(d).len() == 8,
        all_digits(date_write_text(d)),
{
    crate::text::lemma_dec2_str_shape(d.month as nat);
    crate::text::lemma_dec2_str_shape(d.day as nat);
    crate::text::lemma_dec4_str_shape(d.year as nat);
    crate::text::lemma_all_digits_concat(dec2_str(d.month as nat), dec2_str(d.day as nat));
    crate::text::lemma_all_digits_concat(
        dec2_str(d.month as nat) + dec2_str(d.day as nat),
        dec4_str(d.year as nat),
    );
}

/// Decodes a read-side date string. Returns the date only when the string
/// has the `YYYY-MM-DD` shape and names a real calendar date; the service's
/// all-zero placeholder (month zero) therefore comes back as `None`.
pub fn parse_date_text(s: &str) -> (r: Option<Date>)
    ensures
        match r {
            Some(d) => {
                &&& is_date_text(s@)
                &&& valid_ymd(
                    date_text_year(s@) as int,
                    date_text_month(s@) as int,
                    date_text_day(s@) as int,
                )
                &&& d.year == date_text_year(s@)
                &&& d.month == date_text_month(s@)
                &&& d.day == date_text_day(s@)
                &&& d.is_valid()
            },
            None => !(is_date_text(s@) && valid_ymd(
                date_text_year(s@) as int,
                date_text_month(s@) as int,
                date_text_day(s@) as int,
            )),
        },
{
    let n = s.unicode_len();
    if n != 10 {
        return None;
    }
    if s.get_char(4) != '-' || s.get_char(7) != '-' {
        return None;
    }
    let ys = s.substring_char(0, 4);
    let ms = s.substring_char(5, 7);
    let ds = s.substring_char(8, 10);
    proof {
        assert(ys@ == s@.subrange(0, 4));
        assert(ms@ == s@.subrange(5, 7));
        assert(ds@ == s@.subrange(8, 10));
    }
    let y = match parse_digits_u64(ys) {
        Some(v) => v,
        None => {
            proof {
                if all_digits(s@.subrange(0, 4)) {
                    lemma_digits_value_bound(s@.subrange(0, 4));
                }
            }
            return None;
        },
    };
    let m = match parse_digits_u64(ms) {
        Some(v) => v,
        None => {
            proof {
                if all_digits(s@.subrange(5, 7)) {
                    lemma_digits_value_bound(s@.subrange(5, 7));
                }
            }
            return None;
        },
    };
    let d = match parse_digits_u64(ds) {
        Some(v) => v,
        None => {
            proof {
                if all_digits(s@.subrange(8, 10)) {
                    lemma_digits_value_bound(s@.subrange(8, 10));
                }
            }
            return None;
        },
    };
    proof {
        lemma_digits_value_bound(s@.subrange(0, 4));
        lemma_digits_value_bound(s@.subrange(5, 7));
        lemma_digits_value_bound(s@.subrange(8, 10));
        reveal_with_fuel(pow10, 5);
        assert(pow10(4) == 10000);
        assert(pow10(2) == 100);
    }
    date_from_ymd(y as u32, m as u8, d as u8)
}

/// Encodes a date, or its absence, in the write-side wire form. A missing
/// date becomes the fixed all-zero eight-character string.
pub fn format_date_value(date: Option<Date>) -> (r: String)
    ensures
        match date {
            Some(d) => r@ == date_write_text(d),
            None => r@ == "00000000"@,
        },
{
    match date {
        Some(d) => {
            let mut out = u8_to_padded2_string(d.month);
            let day = u8_to_padded2_string(d.day);
            let year = u32_to_padded4_string(d.year);
            out.append(day.as_str());
            out.append(year.as_str());
            out
        },
        None => String::from_str("00000000"),
    }
}

} // verus!
