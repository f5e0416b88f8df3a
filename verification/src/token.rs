//! Reading the authentication response.
//!
//! The authenticator exchanges credentials for a token over the wire; the
//! surrounding program decodes the JSON answer and hands the one attribute
//! the logic reads — present or not, a string or not — to the verified
//! extraction below.

use vstd::prelude::*;

verus! {

/// One attribute of a decoded response object, as the token logic reads
/// it: absent, present but not a string, or a string value.
pub enum JsonField {
    Absent,
    NonString,
    Text(String),
}

/// Why a required attribute could not be taken from an API response.
#[derive(Clone, Copy, PartialEq, Eq, Structural, Debug)]
pub enum ParamError {
    /// The expected attribute is not in the response at all.
    MissingAttribute,
    /// The attribute is there, but its value is not a string.
    NotAString,
}

/// Extracts a required string attribute from an API response object, or
/// says exactly why it cannot be had.
pub fn get_param(field: JsonField) -> (r: Result<String, ParamError>)
    ensures
        field matches JsonField::Text(s) ==> r == Ok::<String, ParamError>(s),
        field is Absent ==> r == Err::<String, ParamError>(ParamError::MissingAttribute),
        field is NonString ==> r == Err::<String, ParamError>(ParamError::NotAString),
{
    match field {
        JsonField::Text(s) => Ok(s),
        JsonField::Absent => Err(ParamError::MissingAttribute),
        JsonField::NonString => Err(ParamError::NotAString),
    }
}

} // verus!
