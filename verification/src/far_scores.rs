//! The social score endpoint: the score and rank of the user with a handle.
//!
//! Scores are of a type `S` that the caller chooses; the gateway passes them
//! on as they are.

use vstd::prelude::*;
use vstd::string::*;
use crate::auth::{authorized, check_api_key, supplied_chars};
use crate::config::Config;
use crate::handle::required;
use crate::reply::{fails_with, ErrorReply, Status};

verus! {

/// The query parameters of the endpoint.
#[derive(Clone, Debug, PartialEq, Eq)]
pub struct FarScoreQuery {
    pub handle: Option<String>,
}

/// A social record of the upstream, as far as this endpoint reads it.
#[derive(Clone, Debug, PartialEq)]
pub struct SocialCapital<S> {
    pub social_capital_score: S,
    pub social_capital_rank: i64,
}

/// What the endpoint reports for a user.
#[derive(Clone, Debug, PartialEq)]
pub struct FarStatsResponse<S> {
    pub far_score: S,
    pub far_rank: i64,
}

/// What the endpoint reports for an upstream answer: the score and rank of
/// its first social record, or nothing where it has no data or no record.
pub open spec fn far_stats_reported<S>(data: Option<Vec<SocialCapital<S>>>) -> Option<
    FarStatsResponse<S>,
> {
    match data {
        Some(socials) => if socials@.len() > 0 {
            Some(
                FarStatsResponse {
                    far_score: socials@[0].social_capital_score,
                    far_rank: socials@[0].social_capital_rank,
                },
            )
        } else {
            None
        },
        None => None,
    }
}

/// Begins a request to the endpoint: the handle to query the upstream with.
/// A caller without the right secret is turned away first, then a request
/// without a handle.
pub fn get_far_scores(
    config: &Config,
    api_key: Option<&str>,
    params: FarScoreQuery,
) -> (begun: Result<String, ErrorReply>)
    ensures
        !authorized(supplied_chars(api_key), config.api_key@) ==> fails_with(
            begun,
            Status::Unauthorized,
            "Unauthorized"@,
        ),
        authorized(supplied_chars(api_key), config.api_key@) ==> match params.handle {
            Some(handle) => begun == Ok::<String, ErrorReply>(handle),
            None => fails_with(begun, Status::BadRequest, "Handle is required"@),
        },
{
    match check_api_key(config, api_key) {
        Ok(()) => required(params.handle),
        Err(reply) => Err(reply),
    }
}

/// The score and rank of the first social record of an upstream answer.
pub fn fetch_far_scores<S>(data: Option<Vec<SocialCapital<S>>>) -> (stats: Option<
    FarStatsResponse<S>,
>)
    ensures
        stats == far_stats_reported(data),
{
    match data {
        Some(mut socials) => {
            if socials.len() > 0 {
                let first = socials.swap_remove(0);
                Some(
                    FarStatsResponse {
                        far_score: first.social_capital_score,
                        far_rank: first.social_capital_rank,
                    },
                )
            } else {
                None
            }
        },
        None => None,
    }
}

/// Ends a request to the endpoint with the outcome of the upstream query:
/// what is reported for its answer, or an internal error where the query
/// failed.
pub fn far_scores_response<S>(
    outcome: Result<Option<Vec<SocialCapital<S>>>, String>,
) -> (response: Result<Option<FarStatsResponse<S>>, ErrorReply>)
    ensures
        match outcome {
            Ok(data) => response == Ok::<Option<FarStatsResponse<S>>, ErrorReply>(
                far_stats_reported(data),
            ),
            Err(_) => fails_with(response, Status::InternalServerError, "Internal server error"@),
        },
{
    match outcome {
        Ok(data) => Ok(fetch_far_scores(data)),
        Err(_) => Err(ErrorReply::internal(String::from_str("Internal server error"))),
    }
}

} // verus!
