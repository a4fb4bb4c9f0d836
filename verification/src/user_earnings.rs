//! The user earnings endpoint: a user's earnings today, this week and over
//! their lifetime.
//!
//! A window's statistics are of a type `S` that the caller chooses; the
//! gateway picks them and passes them on as they are.

use vstd::prelude::*;
use vstd::string::*;
use crate::auth::{authorized, check_api_key, supplied_chars};
use crate::config::Config;
use crate::reply::{fails_with, ErrorReply, Status};
use crate::text::{decimal_u64, parse_u64};

verus! {

/// The upstream's answer to the earnings query: the result list of each
/// time window.
#[derive(Clone, Debug, PartialEq)]
pub struct MoxieEarningsWindows<S> {
    pub today: Vec<S>,
    pub weekly: Vec<S>,
    pub lifetime: Vec<S>,
}

/// What the endpoint reports: the statistics of each window that has any.
#[derive(Clone, Debug, PartialEq)]
pub struct UserEarnings<S> {
    pub today: Option<S>,
    pub weekly: Option<S>,
    pub lifetime: Option<S>,
}

/// The statistics of a window: the first entry of its result list, or
/// nothing for an empty list.
pub open spec fn window_stat<S>(window: Vec<S>) -> Option<S> {
    if window@.len() > 0 {
        Some(window@[0])
    } else {
        None
    }
}

/// What the endpoint reports for an upstream answer: nothing where it has no
/// data, else each window by itself.
pub open spec fn user_earnings_reported<S>(data: Option<MoxieEarningsWindows<S>>) -> Option<
    UserEarnings<S>,
> {
    match data {
        Some(windows) => Some(
            UserEarnings {
                today: window_stat(windows.today),
                weekly: window_stat(windows.weekly),
                lifetime: window_stat(windows.lifetime),
            },
        ),
        None => None,
    }
}

/// The message for a path parameter that is no user id.
pub open spec fn invalid_fid_message(fid: Seq<char>) -> Seq<char> {
    "Invalid user identifier: "@ + fid
}

/// The user id for a parsed path parameter, or the validation failure that
/// names the parameter.
pub fn checked_fid(fid: &str, parsed: Result<u64, core::num::ParseIntError>) -> (checked: Result<
    u64,
    ErrorReply,
>)
    ensures
        match parsed {
            Ok(number) => checked == Ok::<u64, ErrorReply>(number),
            Err(_) => fails_with(checked, Status::BadRequest, invalid_fid_message(fid@)),
        },
{
    match parsed {
        Ok(number) => Ok(number),
        Err(_) => Err(
            ErrorReply::bad_request(String::from_str("Invalid user identifier: ").concat(fid)),
        ),
    }
}

/// Begins a request to the endpoint: the user id to query the upstream with.
/// A caller without the right secret is turned away first, then a path
/// parameter that is not a user id.
pub fn get_user_earnings(config: &Config, api_key: Option<&str>, fid: &str) -> (begun: Result<
    u64,
    ErrorReply,
>)
    ensures
        !authorized(supplied_chars(api_key), config.api_key@) ==> fails_with(
            begun,
            Status::Unauthorized,
            "Unauthorized"@,
        ),
        authorized(supplied_chars(api_key), config.api_key@) ==> match decimal_u64(fid@) {
            Some(number) => begun == Ok::<u64, ErrorReply>(number),
            None => fails_with(begun, Status::BadRequest, invalid_fid_message(fid@)),
        },
{
    match check_api_key(config, api_key) {
        Ok(()) => checked_fid(fid, parse_u64(fid)),
        Err(reply) => Err(reply),
    }
}

/// The statistics of a window, taken out of its result list.
pub fn first_stat<S>(window: Vec<S>) -> (stat: Option<S>)
    ensures
        stat == window_stat(window),
{
    let mut window = window;
    if window.len() > 0 {
        Some(window.swap_remove(0))
    } else {
        None
    }
}

/// The earnings reported for an upstream answer.
pub fn fetch_earnings<S>(data: Option<MoxieEarningsWindows<S>>) -> (earnings: Option<
    UserEarnings<S>,
>)
    ensures
        earnings == user_earnings_reported(data),
{
    match data {
        Some(windows) => Some(
            UserEarnings {
                today: first_stat(windows.today),
                weekly: first_stat(windows.weekly),
                lifetime: first_stat(windows.lifetime),
            },
        ),
        None => None,
    }
}

/// Ends a request to the endpoint with the outcome of the upstream query:
/// what is reported for its answer, or an internal error where the query
/// failed.
pub fn user_earnings_response<S>(
    outcome: Result<Option<MoxieEarningsWindows<S>>, String>,
) -> (response: Result<Option<UserEarnings<S>>, ErrorReply>)
    ensures
        match outcome {
            Ok(data) => response == Ok::<Option<UserEarnings<S>>, ErrorReply>(
                user_earnings_reported(data),
            ),
            Err(_) => fails_with(response, Status::InternalServerError, "Internal server error"@),
        },
{
    match outcome {
        Ok(data) => Ok(fetch_earnings(data)),
        Err(_) => Err(ErrorReply::internal(String::from_str("Internal server error"))),
    }
}

} // verus!
