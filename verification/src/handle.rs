//! The `handle` parameter that two endpoints require.

use vstd::prelude::*;
use vstd::string::*;
use crate::reply::{fails_with, ErrorReply, Status};

verus! {

/// The handle of a request, or the validation failure for a request without
/// one.
pub fn required(handle: Option<String>) -> (checked: Result<String, ErrorReply>)
    ensures
        match handle {
            Some(given) => checked == Ok::<String, ErrorReply>(given),
            None => fails_with(checked, Status::BadRequest, "Handle is required"@),
        },
{
    match handle {
        Some(given) => Ok(given),
        None => Err(ErrorReply::bad_request(String::from_str("Handle is required"))),
    }
}

} // verus!
