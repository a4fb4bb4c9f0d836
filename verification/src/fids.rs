//! The handle-to-id endpoint: the numeric id of the user with a handle.

use vstd::prelude::*;
use vstd::string::*;
use crate::auth::{authorized, check_api_key, supplied_chars};
use crate::config::Config;
use crate::handle::required;
use crate::json::{as_unsigned, json_u64_at, member};
use crate::reply::{fails_with, ErrorReply, Status};

verus! {

/// The query parameters of the endpoint.
#[derive(Clone, Debug, PartialEq, Eq)]
pub struct FidRequestQuery {
    pub handle: Option<String>,
}

/// What the endpoint reports: the numeric id.
#[derive(Clone, Debug, PartialEq, Eq)]
pub struct FidResponse {
    pub fid: u64,
}

/// The address at which the upstream looks a handle up.
pub open spec fn fid_lookup_url_of(username: Seq<char>) -> Seq<char> {
    "https://api.warpcast.com/v2/user-by-username?username="@ + username
}

/// The address at which the upstream looks a handle up.
pub fn fid_lookup_url(username: &str) -> (url: String)
    ensures
        url@ == fid_lookup_url_of(username@),
{
    String::from_str("https://api.warpcast.com/v2/user-by-username?username=").concat(username)
}

/// Begins a request to the endpoint: the address to ask for the handle. A
/// caller without the right secret is turned away first, then a request
/// without a handle.
pub fn get_fid(config: &Config, api_key: Option<&str>, params: FidRequestQuery) -> (begun: Result<
    String,
    ErrorReply,
>)
    ensures
        !authorized(supplied_chars(api_key), config.api_key@) ==> fails_with(
            begun,
            Status::Unauthorized,
            "Unauthorized"@,
        ),
        authorized(supplied_chars(api_key), config.api_key@) ==> match params.handle {
            Some(handle) => begun matches Ok(url) && url@ == fid_lookup_url_of(handle@),
            None => fails_with(begun, Status::BadRequest, "Handle is required"@),
        },
{
    match check_api_key(config, api_key) {
        Ok(()) => match required(params.handle) {
            Ok(handle) => Ok(fid_lookup_url(handle.as_str())),
            Err(reply) => Err(reply),
        },
        Err(reply) => Err(reply),
    }
}

/// The id that the upstream's answer names at `result.user.fid`, if it names
/// one: a missing member or one of another kind means there is no such user.
pub fn fid_of(result: &serde_json::Value) -> (fid: Option<u64>)
    ensures
        fid == json_u64_at(*result, seq!["result"@, "user"@, "fid"@]),
{
    let ghost here = Seq::<Seq<char>>::empty();
    let ghost fid_path = seq!["fid"@];
    let ghost user_path = seq!["user"@, "fid"@];
    proof {
        assert(seq!["fid"@] + here =~= fid_path);
        assert(seq!["user"@] + fid_path =~= user_path);
        assert(seq!["result"@] + user_path =~= seq!["result"@, "user"@, "fid"@]);
    }
    match member(result, "result") {
        None => {
            assert(json_u64_at(*result, seq!["result"@] + user_path).is_none());
            None
        },
        Some(answer) => {
            assert(json_u64_at(*answer, user_path) == json_u64_at(
                *result,
                seq!["result"@] + user_path,
            ));
            match member(answer, "user") {
                None => {
                    assert(json_u64_at(*answer, seq!["user"@] + fid_path).is_none());
                    None
                },
                Some(user) => {
                    assert(json_u64_at(*user, fid_path) == json_u64_at(
                        *answer,
                        seq!["user"@] + fid_path,
                    ));
                    match member(user, "fid") {
                        None => {
                            assert(json_u64_at(*user, seq!["fid"@] + here).is_none());
                            None
                        },
                        Some(number) => {
                            assert(json_u64_at(*number, here) == json_u64_at(
                                *user,
                                seq!["fid"@] + here,
                            ));
                            as_unsigned(number)
                        },
                    }
                },
            }
        },
    }
}

/// Ends a request to the endpoint with the outcome of the upstream lookup:
/// the id that the answer names, the not-found reply where it names none, or
/// an internal error where the lookup failed.
pub fn fid_response(outcome: Result<serde_json::Value, String>) -> (response: Result<
    FidResponse,
    ErrorReply,
>)
    ensures
        match outcome {
            Ok(result) => match json_u64_at(result, seq!["result"@, "user"@, "fid"@]) {
                Some(fid) => response matches Ok(found) && found.fid == fid,
                None => fails_with(response, Status::NotFound, "User not found"@),
            },
            Err(_) => fails_with(response, Status::InternalServerError, "Internal server error"@),
        },
{
    match outcome {
        Ok(result) => match fid_of(&result) {
            Some(fid) => Ok(FidResponse { fid }),
            None => Err(ErrorReply::not_found(String::from_str("User not found"))),
        },
        Err(_) => Err(ErrorReply::internal(String::from_str("Internal server error"))),
    }
}

} // verus!
