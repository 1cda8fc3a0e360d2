//! Generic list machinery: the user's watch/read status enum with its two
//! wire codecs, the change-tracked field wrapper, the typed extraction of
//! one named child from a flat element, and the result shape of a list read.

use vstd::prelude::*;
use crate::error::ListError;
use crate::date::{Date, date_text_day, date_text_month, date_text_year, is_date_text, valid_ymd};
use crate::text::{
    is_decimal_fraction_text, is_signed_text, is_unsigned_text, signed_text_value,
    unsigned_text_value,
};
use crate::xml::{XmlElement, spec_find_child};

pub mod anime;
pub mod manga;

verus! {

/// The watching / reading status of a series on a user's list.
#[derive(Debug, Copy, Clone, PartialEq, Eq, Structural)]
pub enum Status {
    WatchingOrReading,
    Completed,
    OnHold,
    Dropped,
    PlanToWatchOrRead,
}

/// The wire index of a status; note that the index after `Dropped` is
/// reserved, so `PlanToWatchOrRead` sits at six.
pub open spec fn spec_status_index(s: Status) -> int {
    match s {
        Status::WatchingOrReading => 1,
        Status::Completed => 2,
        Status::OnHold => 3,
        Status::Dropped => 4,
        Status::PlanToWatchOrRead => 6,
    }
}

/// The status a wire index denotes, if any.
pub open spec fn spec_status_from_index(value: int) -> Option<Status> {
    if value == 1 {
        Some(Status::WatchingOrReading)
    } else if value == 2 {
        Some(Status::Completed)
    } else if value == 3 {
        Some(Status::OnHold)
    } else if value == 4 {
        Some(Status::Dropped)
    } else if value == 6 {
        Some(Status::PlanToWatchOrRead)
    } else {
        None
    }
}

impl Status {
    /// Decodes the wire index of a status, as list snapshots carry it.
    pub fn from_i32(value: i32) -> (r: Option<Status>)
        ensures
            r == spec_status_from_index(value as int),
    {
        match value {
            1 => Some(Status::WatchingOrReading),
            2 => Some(Status::Completed),
            3 => Some(Status::OnHold),
            4 => Some(Status::Dropped),
            6 => Some(Status::PlanToWatchOrRead),
            _ => None,
        }
    }

    /// Encodes a status as its wire index, as write bodies carry it.
    pub fn to_index(&self) -> (r: i32)
        ensures
            r == spec_status_index(*self),
    {
        match *self {
            Status::WatchingOrReading => 1,
            Status::Completed => 2,
            Status::OnHold => 3,
            Status::Dropped => 4,
            Status::PlanToWatchOrRead => 6,
        }
    }

    /// A human-readable name for the status.
    pub fn describe(&self) -> (r: String)
        ensures
            r@ == (match *self {
                Status::WatchingOrReading => "watching / reading"@,
                Status::Completed => "completed"@,
                Status::OnHold => "on hold"@,
                Status::Dropped => "dropped"@,
                Status::PlanToWatchOrRead => "plan to watch / read"@,
            }),
    {
        match *self {
            Status::WatchingOrReading => String::from_str("watching / reading"),
            Status::Completed => String::from_str("completed"),
            Status::OnHold => String::from_str("on hold"),
            Status::Dropped => String::from_str("dropped"),
            Status::PlanToWatchOrRead => String::from_str("plan to watch / read"),
        }
    }
}

/// Decoding a status's own wire index yields the status back, for every
/// status.
pub proof fn lemma_status_index_round_trip(s: Status)
    ensures
        spec_status_from_index(spec_status_index(s)) == Some(s),
{
}

impl Default for Status {
    /// The status of a never-synced entry: planning, not the lowest index.
    fn default() -> (r: Status)
        ensures
            r == Status::PlanToWatchOrRead,
    {
        Status::PlanToWatchOrRead
    }
}

/// A value together with a flag recording whether it has been set since
/// construction or the last reset.
#[derive(Debug)]
pub struct ChangeTracker<T> {
    pub value: T,
    pub changed: bool,
}

impl<T> ChangeTracker<T> {
    /// Wraps a value; the field starts out unmodified.
    pub fn new(value: T) -> (r: ChangeTracker<T>)
        ensures
            r.value == value,
            !r.changed,
    {
        ChangeTracker { value, changed: false }
    }

    /// Reads the value; no side effect.
    pub fn get(&self) -> (r: &T)
        ensures
            r == self.value,
    {
        &self.value
    }

    /// Whether the value has been set since construction or the last reset.
    pub fn dirty(&self) -> (r: bool)
        ensures
            r == self.changed,
    {
        self.changed
    }

    /// Overwrites the value and marks the field modified, even when the new
    /// value equals the old one: setting signals intent, not change.
    pub fn set(&mut self, value: T)
        ensures
            final(self).value == value,
            final(self).changed,
    {
        self.value = value;
        self.changed = true;
    }

    /// Hands out mutable access to the value; the field is marked modified
    /// at acquisition, whether or not anything is written through it.
    pub fn get_mut(&mut self) -> (r: &mut T)
        ensures
            *r == old(self).value,
            final(self).value == *final(r),
            final(self).changed,
    {
        self.changed = true;
        &mut self.value
    }

    /// Clears the modified flag, keeping the value; for the orchestrator,
    /// after a confirmed successful write.
    pub fn reset(&mut self)
        ensures
            final(self).value == old(self).value,
            !final(self).changed,
    {
        self.changed = false;
    }
}

/// The result of reading a user's whole list: the leading statistics
/// element, then one entry per remaining element.
#[derive(Debug)]
pub struct ListEntries<U, E> {
    /// General list statistics and info about the user.
    pub user_info: U,
    /// The list's entries.
    pub entries: Vec<E>,
}

/// Whether a child with the given name exists.
pub open spec fn spec_child_present(elem: Seq<(Seq<char>, Seq<char>)>, name: Seq<char>) -> bool {
    spec_find_child(elem, name) is Some
}

/// The text of the named child.
pub open spec fn spec_child_text(elem: Seq<(Seq<char>, Seq<char>)>, name: Seq<char>) -> Seq<char> {
    spec_find_child(elem, name)->Some_0
}

/// Whether the named child exists and holds an unsigned numeral no larger
/// than the given bound.
pub open spec fn spec_child_unsigned_ok(
    elem: Seq<(Seq<char>, Seq<char>)>,
    name: Seq<char>,
    bound: nat,
) -> bool {
    &&& spec_child_present(elem, name)
    &&& is_unsigned_text(spec_child_text(elem, name))
    &&& unsigned_text_value(spec_child_text(elem, name)) <= bound
}

/// The value of the named child's unsigned numeral.
pub open spec fn spec_child_unsigned_val(
    elem: Seq<(Seq<char>, Seq<char>)>,
    name: Seq<char>,
) -> nat {
    unsigned_text_value(spec_child_text(elem, name))
}

/// Extracts the named child's text, cloned out of the element.
pub fn child_string(elem: &XmlElement, name: &str) -> (r: Result<String, ListError>)
    ensures
        match r {
            Ok(t) => spec_child_present(elem@, name@) && t@ == spec_child_text(elem@, name@),
            Err(e) => !spec_child_present(elem@, name@) && (e matches ListError::MissingXMLNode(n)
                && n@ == name@),
        },
{
    match crate::xml::find_child_text(elem, name) {
        Some(text) => Ok(text.clone()),
        None => Err(ListError::MissingXMLNode(name.to_owned())),
    }
}

/// Extracts the named child's text as a `u32`.
pub fn child_u32(elem: &XmlElement, name: &str) -> (r: Result<u32, ListError>)
    ensures
        match r {
            Ok(v) => spec_child_unsigned_ok(elem@, name@, u32::MAX as nat) && v
                == spec_child_unsigned_val(elem@, name@),
            Err(e) => match e {
                ListError::MissingXMLNode(n) => !spec_child_present(elem@, name@) && n@ == name@,
                ListError::XMLConversionFailed(n) => spec_child_present(elem@, name@)
                    && !spec_child_unsigned_ok(elem@, name@, u32::MAX as nat) && n@ == name@,
                _ => false,
            },
        },
{
    match crate::xml::find_child_text(elem, name) {
        Some(text) => match crate::text::parse_u32_text(text.as_str()) {
            Some(v) => Ok(v),
            None => Err(ListError::XMLConversionFailed(name.to_owned())),
        },
        None => Err(ListError::MissingXMLNode(name.to_owned())),
    }
}

/// Extracts the named child's text as a `u8`.
pub fn child_u8(elem: &XmlElement, name: &str) -> (r: Result<u8, ListError>)
    ensures
        match r {
            Ok(v) => spec_child_unsigned_ok(elem@, name@, u8::MAX as nat) && v
                == spec_child_unsigned_val(elem@, name@),
            Err(e) => match e {
                ListError::MissingXMLNode(n) => !spec_child_present(elem@, name@) && n@ == name@,
                ListError::XMLConversionFailed(n) => spec_child_present(elem@, name@)
                    && !spec_child_unsigned_ok(elem@, name@, u8::MAX as nat) && n@ == name@,
                _ => false,
            },
        },
{
    match crate::xml::find_child_text(elem, name) {
        Some(text) => match crate::text::parse_u8_text(text.as_str()) {
            Some(v) => Ok(v),
            None => Err(ListError::XMLConversionFailed(name.to_owned())),
        },
        None => Err(ListError::MissingXMLNode(name.to_owned())),
    }
}

/// Whether the named child exists and holds a signed numeral that fits an
/// `i64`.
pub open spec fn spec_child_i64_ok(elem: Seq<(Seq<char>, Seq<char>)>, name: Seq<char>) -> bool {
    &&& spec_child_present(elem, name)
    &&& is_signed_text(spec_child_text(elem, name))
    &&& i64::MIN <= signed_text_value(spec_child_text(elem, name)) <= i64::MAX
}

/// Extracts the named child's text as an `i64`.
pub fn child_i64(elem: &XmlElement, name: &str) -> (r: Result<i64, ListError>)
    ensures
        match r {
            Ok(v) => spec_child_i64_ok(elem@, name@) && v == signed_text_value(
                spec_child_text(elem@, name@),
            ),
            Err(e) => match e {
                ListError::MissingXMLNode(n) => !spec_child_present(elem@, name@) && n@ == name@,
                ListError::XMLConversionFailed(n) => spec_child_present(elem@, name@)
                    && !spec_child_i64_ok(elem@, name@) && n@ == name@,
                _ => false,
            },
        },
{
    match crate::xml::find_child_text(elem, name) {
        Some(text) => match crate::text::parse_i64_text(text.as_str()) {
            Some(v) => Ok(v),
            None => Err(ListError::XMLConversionFailed(name.to_owned())),
        },
        None => Err(ListError::MissingXMLNode(name.to_owned())),
    }
}

/// Whether the named child exists and holds a signed numeral that fits an
/// `i32`.
pub open spec fn spec_child_i32_ok(elem: Seq<(Seq<char>, Seq<char>)>, name: Seq<char>) -> bool {
    &&& spec_child_present(elem, name)
    &&& is_signed_text(spec_child_text(elem, name))
    &&& i32::MIN <= signed_text_value(spec_child_text(elem, name)) <= i32::MAX
}

/// The value of the named child's signed numeral.
pub open spec fn spec_child_i32_val(elem: Seq<(Seq<char>, Seq<char>)>, name: Seq<char>) -> int {
    signed_text_value(spec_child_text(elem, name))
}

/// Extracts the named child's text as an `i32`.
pub fn child_i32(elem: &XmlElement, name: &str) -> (r: Result<i32, ListError>)
    ensures
        match r {
            Ok(v) => spec_child_i32_ok(elem@, name@) && v == spec_child_i32_val(elem@, name@),
            Err(e) => match e {
                ListError::MissingXMLNode(n) => !spec_child_present(elem@, name@) && n@ == name@,
                ListError::XMLConversionFailed(n) => spec_child_present(elem@, name@)
                    && !spec_child_i32_ok(elem@, name@) && n@ == name@,
                _ => false,
            },
        },
{
    match crate::xml::find_child_text(elem, name) {
        Some(text) => match crate::text::parse_i64_text(text.as_str()) {
            Some(v) => if i32::MIN as i64 <= v && v <= i32::MAX as i64 {
                Ok(v as i32)
            } else {
                Err(ListError::XMLConversionFailed(name.to_owned()))
            },
            None => Err(ListError::XMLConversionFailed(name.to_owned())),
        },
        None => Err(ListError::MissingXMLNode(name.to_owned())),
    }
}

/// Whether the named child exists and its text has the shape of a decimal
/// number with an optional fractional part.
pub open spec fn spec_child_decimal_ok(elem: Seq<(Seq<char>, Seq<char>)>, name: Seq<char>) -> bool {
    &&& spec_child_present(elem, name)
    &&& is_decimal_fraction_text(spec_child_text(elem, name))
}

/// Extracts the named child's text after checking that it has the shape of
/// a decimal number with an optional fractional part; the text itself is
/// handed out unconverted.
pub fn child_decimal_text(elem: &XmlElement, name: &str) -> (r: Result<String, ListError>)
    ensures
        match r {
            Ok(t) => spec_child_decimal_ok(elem@, name@) && t@ == spec_child_text(elem@, name@),
            Err(e) => match e {
                ListError::MissingXMLNode(n) => !spec_child_present(elem@, name@) && n@ == name@,
                ListError::XMLConversionFailed(n) => spec_child_present(elem@, name@)
                    && !is_decimal_fraction_text(spec_child_text(elem@, name@)) && n@ == name@,
                _ => false,
            },
        },
{
    match crate::xml::find_child_text(elem, name) {
        Some(text) => if crate::text::is_decimal_fraction(text.as_str()) {
            Ok(text.clone())
        } else {
            Err(ListError::XMLConversionFailed(name.to_owned()))
        },
        None => Err(ListError::MissingXMLNode(name.to_owned())),
    }
}

/// The date an arbitrary text denotes: a real `YYYY-MM-DD` date, or nothing
/// (the all-zero placeholder included).
pub open spec fn spec_date_of_text(t: Seq<char>) -> Option<Date> {
    if is_date_text(t) && valid_ymd(
        date_text_year(t) as int,
        date_text_month(t) as int,
        date_text_day(t) as int,
    ) {
        Some(
            Date {
                year: date_text_year(t) as u32,
                month: date_text_month(t) as u8,
                day: date_text_day(t) as u8,
            },
        )
    } else {
        None
    }
}

/// Extracts the named child's text as an optional date: a missing child is
/// an error, but text that is no real date (the placeholder included)
/// decodes to `None`.
pub fn child_date(elem: &XmlElement, name: &str) -> (r: Result<Option<Date>, ListError>)
    ensures
        match r {
            Ok(d) => spec_child_present(elem@, name@) && d == spec_date_of_text(
                spec_child_text(elem@, name@),
            ),
            Err(e) => !spec_child_present(elem@, name@) && (e matches ListError::MissingXMLNode(n)
                && n@ == name@),
        },
{
    match crate::xml::find_child_text(elem, name) {
        Some(text) => Ok(crate::date::parse_date_text(text.as_str())),
        None => Err(ListError::MissingXMLNode(name.to_owned())),
    }
}

/// Whether the named child denotes the flag value one. This is the lenient
/// decoder for the re-watching / re-reading flag, which the service
/// sometimes sends blank: every failure, a missing child included, counts
/// as `false` rather than an error — for exactly this flag, not in general.
pub open spec fn spec_child_flag(elem: Seq<(Seq<char>, Seq<char>)>, name: Seq<char>) -> bool {
    &&& spec_child_present(elem, name)
    &&& is_unsigned_text(spec_child_text(elem, name))
    &&& unsigned_text_value(spec_child_text(elem, name)) == 1
}

/// Decodes the re-watching / re-reading flag leniently: `true` exactly when
/// the named child holds the numeral one.
pub fn child_flag_lenient(elem: &XmlElement, name: &str) -> (r: bool)
    ensures
        r == spec_child_flag(elem@, name@),
{
    match crate::xml::find_child_text(elem, name) {
        Some(text) => match crate::text::parse_u8_text(text.as_str()) {
            Some(v) => v == 1,
            None => false,
        },
        None => false,
    }
}

/// Extracts the named child's text as a status index and decodes it; an
/// index that maps to no status is reported with the offending text.
pub fn child_status(elem: &XmlElement, name: &str) -> (r: Result<Status, ListError>)
    ensures
        match r {
            Ok(s) => {
                &&& spec_child_i32_ok(elem@, name@)
                &&& spec_status_from_index(spec_child_i32_val(elem@, name@)) == Some(s)
            },
            Err(e) => match e {
                ListError::MissingXMLNode(n) => !spec_child_present(elem@, name@) && n@ == name@,
                ListError::XMLConversionFailed(n) => spec_child_present(elem@, name@)
                    && !spec_child_i32_ok(elem@, name@) && n@ == name@,
                ListError::UnknownStatus(t) => spec_child_i32_ok(elem@, name@)
                    && spec_status_from_index(spec_child_i32_val(elem@, name@)) is None && t@
                    == spec_child_text(elem@, name@),
                _ => false,
            },
        },
{
    match crate::xml::find_child_text(elem, name) {
        Some(text) => match crate::text::parse_i64_text(text.as_str()) {
            Some(v) => if i32::MIN as i64 <= v && v <= i32::MAX as i64 {
                match Status::from_i32(v as i32) {
                    Some(s) => Ok(s),
                    None => Err(ListError::UnknownStatus(text.clone())),
                }
            } else {
                Err(ListError::XMLConversionFailed(name.to_owned()))
            },
            None => Err(ListError::XMLConversionFailed(name.to_owned())),
        },
        None => Err(ListError::MissingXMLNode(name.to_owned())),
    }
}

/// The time now as a Unix timestamp.
///
/// Relies on chrono's `Utc::now`; the result depends on the clock, so
/// nothing is promised of it. Beware that `Utc::now` itself panics on a
/// machine whose clock is set before the Unix epoch: the sync-time stamps
/// assume a clock no earlier than that.
#[verifier::external_body]
pub(crate) fn current_unix_time() -> i64 {
    chrono::Utc::now().timestamp()
}

} // verus!
