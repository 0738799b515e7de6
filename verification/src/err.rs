//! Error taxonomy for the token and directory pipelines.

use vstd::prelude::*;

verus! {

/// The exact reason a member's attribute data was rejected.
///
/// Every variant names the offending username, and, where one is involved,
/// the attribute, so a caller can report precisely what was wrong.
#[derive(Debug)]
pub enum DataDetail {
    /// The named attribute is absent from the member's attribute map.
    MissingAttribute { attr: String, username: String },
    /// The named attribute is present but its value list is empty.
    EmptyAttribute { attr: String, username: String },
    /// The named attribute has more than one value.
    MultipleValues { attr: String, username: String },
    /// The single `uid` value does not parse as a signed 16-bit integer.
    InvalidUid { value: String, username: String },
}

/// A failure of one core operation.
#[derive(Debug)]
pub enum KeycloakError {
    /// Transport or HTTP-level failure contacting the identity provider,
    /// rendered as text by the caller that performed the request.
    RequestError(String),
    /// The response body is not valid JSON of the expected shape; carries
    /// the raw body for diagnosis, then a description of the mismatch.
    JSONParseError(String, String),
    /// A member's attribute data is missing, empty, duplicated, or fails
    /// conversion.
    DataError(DataDetail),
}

} // verus!
