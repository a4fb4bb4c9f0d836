//! The check of the caller's secret, which every handler makes first.

use vstd::prelude::*;
use crate::config::Config;
use crate::reply::{ErrorReply, Status};
use crate::text::same_text;

verus! {

/// Whether a caller-supplied secret opens the gateway: it must be present and
/// equal, character for character, to the configured one.
pub open spec fn authorized(supplied: Option<Seq<char>>, configured: Seq<char>) -> bool {
    supplied == Some(configured)
}

/// The characters of an optional string slice.
pub open spec fn supplied_chars(supplied: Option<&str>) -> Option<Seq<char>> {
    match supplied {
        Some(s) => Some(s@),
        None => None,
    }
}

/// Admits the caller whose secret matches the configured one exactly, and
/// turns every other caller away with the fixed unauthorized reply.
pub fn check_api_key(config: &Config, supplied: Option<&str>) -> (checked: Result<(), ErrorReply>)
    ensures
        checked.is_ok() <==> authorized(supplied_chars(supplied), config.api_key@),
        checked matches Err(reply) ==> reply.says(Status::Unauthorized, "Unauthorized"@),
{
    match supplied {
        Some(secret) => {
            if same_text(secret, config.api_key.as_str()) {
                Ok(())
            } else {
                Err(ErrorReply::unauthorized())
            }
        },
        None => Err(ErrorReply::unauthorized()),
    }
}

} // verus!
