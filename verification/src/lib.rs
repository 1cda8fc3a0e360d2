//! Client-side model for a remote list-tracking service: change-tracked
//! fields, enum and XML scalar codecs, request construction, and the
//! decision logic of the list operations, stated and verified over
//! mathematical models. The transport that carries the requests is not part
//! of this library; every operation's decisions are functions from the
//! transport's outcome to the next state and result.

pub mod date;
pub mod error;
pub mod list;
pub mod request;
pub mod text;
pub mod util;
pub mod xml;

use vstd::prelude::*;
use crate::error::{MALError, RequestError};

verus! {

/// Interprets the transport's answer to a credential check: any success
/// means the credentials are correct; the unauthorized status means they
/// are wrong, which is an answer, not a failure; everything else is passed
/// through as the transport failure it is.
pub fn interpret_verify_response(outcome: Result<String, RequestError>) -> (r: Result<
    bool,
    MALError,
>)
    ensures
        match outcome {
            Ok(_) => r matches Ok(b) && b,
            Err(e) => if e matches RequestError::BadResponseCode(c) && c == 401 {
                r matches Ok(b) && !b
            } else {
                r matches Err(MALError::Request(e2)) && e2 == e
            },
        },
{
    match outcome {
        Ok(_) => Ok(true),
        Err(e) => {
            let unauthorized = match &e {
                RequestError::BadResponseCode(c) => *c == 401,
                _ => false,
            };
            if unauthorized {
                Ok(false)
            } else {
                Err(MALError::Request(e))
            }
        },
    }
}

} // verus!
