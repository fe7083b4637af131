//! The routes under `/properties`: reading the key of a property out of
//! the path.

use vstd::prelude::*;
use vstd::string::*;
use crate::auth::auth_controller::Failure;
use crate::error::{ErrorBody, ErrorKind};
use crate::nonce::{is_uuid_text, parse_uuid, uuid_parsed};

verus! {

/// The key of the property that a path names, in hyphenated form; a
/// path that spells no UUID is answered `400`.
pub fn property_id(path: &str) -> (id: Result<String, Failure>)
    ensures
        match id {
            Ok(text) => uuid_parsed(path@) == Some(text@) && is_uuid_text(text@),
            Err(f) => uuid_parsed(path@) is None && f.is(
                400,
                "Invalid property ID format"@,
                ErrorKind::Validation,
            ),
        },
{
    match parse_uuid(path) {
        Some(text) => Ok(text),
        None => Err(
            Failure {
                status: 400,
                body: ErrorBody {
                    error: String::from_str("Invalid property ID format"),
                    error_type: String::from_str("validation_error"),
                },
            },
        ),
    }
}

} // verus!
