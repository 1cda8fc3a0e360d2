//! The error taxonomy: decode failures, transport failures with the status
//! code preserved, and the protocol-level failures of list reads.

use vstd::prelude::*;

verus! {

/// Any failure of a library operation.
#[derive(Debug)]
pub enum MALError {
    /// The response document could not be parsed as XML.
    Minidom(minidom::Error),
    /// The transport reported a failure.
    Request(RequestError),
    /// The response document could not be decoded into list data.
    List(ListError),
}

/// A failure reported by the transport collaborator.
#[derive(Debug)]
pub enum RequestError {
    /// The request could not be sent; carries the transport's description.
    HttpError(String),
    /// The response body could not be read; carries the transport's
    /// description.
    ReadResponse(String),
    /// The service answered with a non-success HTTP status code.
    BadResponseCode(u16),
}

/// A failure while decoding a response document into list data.
#[derive(Debug)]
pub enum ListError {
    /// The write body could not be serialized as XML.
    Minidom(minidom::Error),
    /// The serialized write body was not valid UTF-8.
    Utf8(String),
    /// A list document had no leading user-statistics element.
    NoUserInfoFound,
    /// A status value that maps to no known status; carries the offending
    /// text.
    UnknownStatus(String),
    /// A series-type value that maps to no known type; carries the offending
    /// text.
    UnknownSeriesType(String),
    /// An element had no child with the required name; carries that name.
    MissingXMLNode(String),
    /// A child's text could not be converted to the required type; carries
    /// the child's name.
    XMLConversionFailed(String),
}

} // verus!
