//! The scalar codec utilities: extraction of a named child's text from a
//! flat element, the date codec with its all-zero sentinel, and the
//! delimiter-based list codec used for synonyms and tags.

use vstd::prelude::*;
use crate::date::{
    Date, date_text_day, date_text_month, date_text_year, date_write_text, format_date_value,
    is_date_text, parse_date_text, valid_ymd,
};
use crate::text::{concat_delim, seq_views, split_all, split_seq, trim_empty_edges,
    trim_empty_strings};
use crate::xml::{XmlElement, spec_find_child};

verus! {

/// A failure while extracting one named child of a flat element.
#[derive(Debug)]
pub enum ParseXMLError {
    /// No child of the element has the required name; carries that name.
    MissingXMLNode(String),
    /// The child's text could not be converted to the required type;
    /// carries the child's name.
    ConversionFailed(String),
}

/// Extracts the text content of the first child element with the given name.
/// Absent or blank text is the empty string; only a missing child is an
/// error.
pub fn parse_xml_child(elem: &XmlElement, name: &str) -> (r: Result<String, ParseXMLError>)
    ensures
        match r {
            Ok(text) => spec_find_child(elem@, name@) == Some(text@),
            Err(e) => spec_find_child(elem@, name@) is None && (e matches
                ParseXMLError::MissingXMLNode(n) && n@ == name@),
        },
{
    match crate::xml::find_child_text(elem, name) {
        Some(text) => Ok(text.clone()),
        None => Err(ParseXMLError::MissingXMLNode(name.to_owned())),
    }
}

/// Decodes a read-side date string: the date it names, or `None` for the
/// all-zero placeholder and for anything that is not a real `YYYY-MM-DD`
/// date.
pub fn parse_str_date(date: &str) -> (r: Option<Date>)
    ensures
        match r {
            Some(d) => {
                &&& is_date_text(date@)
                &&& valid_ymd(
                    date_text_year(date@) as int,
                    date_text_month(date@) as int,
                    date_text_day(date@) as int,
                )
                &&& d.year == date_text_year(date@)
                &&& d.month == date_text_month(date@)
                &&& d.day == date_text_day(date@)
                &&& d.is_valid()
            },
            None => !(is_date_text(date@) && valid_ymd(
                date_text_year(date@) as int,
                date_text_month(date@) as int,
                date_text_day(date@) as int,
            )),
        },
{
    parse_date_text(date)
}

/// Encodes a date, or its absence, in the write-side `MMDDYYYY` form; a
/// missing date becomes the fixed all-zero string.
pub fn date_to_str(date: Option<Date>) -> (r: String)
    ensures
        match date {
            Some(d) => r@ == date_write_text(d),
            None => r@ == "00000000"@,
        },
{
    format_date_value(date)
}

/// Splits a string at every occurrence of the delimiter, dropping empty
/// pieces at the front and at the back; interior empty pieces are kept.
pub fn split_into_vec(string: &str, delim: &str) -> (r: Vec<String>)
    requires
        delim@.len() >= 1,
    ensures
        seq_views(r@) == trim_empty_edges(split_seq(string@, delim@)),
{
    let mut pieces = split_all(string, delim);
    trim_empty_strings(&mut pieces);
    pieces
}

/// Joins the strings, writing the delimiter after every piece.
pub fn concat_by_delimeter(tags: &[String], delim: char) -> (r: String)
    ensures
        r@ == concat_delim(seq_views(tags@), delim),
{
    crate::text::join_with_delim(tags, delim)
}

} // verus!
