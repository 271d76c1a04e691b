//! The failure taxonomy of the data-access layer. Guard-level
//! failures never surface here: the guard resolves them to a
//! navigation instead.

use vstd::prelude::*;

use crate::text::{spec_decimal, u64_to_string};

verus! {

/// Why a data-service call produced no entities.
#[derive(Debug, PartialEq, Eq)]
pub enum DataError {
    /// A get-by-slug query matched zero rows.
    NotFound,
    /// The request itself failed before the service answered; the
    /// payload is the transport's message.
    NetworkError(String),
    /// The service answered with the given non-success status.
    RemoteServiceError(u16),
    /// The response did not have the expected shape.
    ParseError,
}

impl DataError {
    /// The text a view's dismissable banner shows for this failure.
    pub fn message(&self) -> (m: String)
        ensures
            self is NotFound ==> m@ == "not found"@,
            self matches DataError::NetworkError(t) ==> m@ == "request failed: "@ + t@,
            self matches DataError::RemoteServiceError(status) ==> m@
                == "service responded with status "@ + spec_decimal(status as nat),
            self is ParseError ==> m@ == "malformed response"@,
    {
        match self {
            DataError::NotFound => String::from_str("not found"),
            DataError::NetworkError(t) => {
                let mut m = String::from_str("request failed: ");
                m.append(t.as_str());
                m
            },
            DataError::RemoteServiceError(status) => {
                let mut m = String::from_str("service responded with status ");
                let rendered = u64_to_string(*status as u64);
                m.append(rendered.as_str());
                m
            },
            DataError::ParseError => String::from_str("malformed response"),
        }
    }
}

/// What a data view renders from a fetch result: the rows on
/// success; on failure an empty list together with the error for
/// the banner, the view staying interactive — failed rows are never
/// replaced with fabricated ones.
pub fn view_fallback<T>(r: Result<Vec<T>, DataError>) -> (state: (Vec<T>, Option<DataError>))
    ensures
        r matches Ok(rows) ==> state.0 == rows && state.1 is None,
        r matches Err(e) ==> state.0@.len() == 0 && state.1 == Some(e),
{
    match r {
        Ok(rows) => (rows, None),
        Err(e) => (Vec::new(), Some(e)),
    }
}

/// The status range the service uses for success.
pub open spec fn spec_is_success(status: u16) -> bool {
    200 <= status < 300
}

/// Whether a response status reports success.
pub fn is_success(status: u16) -> (r: bool)
    ensures
        r == spec_is_success(status),
{
    200 <= status && status < 300
}

} // verus!
