//! The cast earnings endpoint: the earnings of a cast or reply by earner
//! category, with its creator and channel.

use vstd::prelude::*;
use crate::auth::{authorized, check_api_key, supplied_chars};
use crate::cast_request::{plan, CastEmbedsRequestQuery, CastStep, CastStepView};
use crate::config::Config;
use crate::earnings::{accumulate, AirstackFarcasterCastMoxieEarningsSplit, Earnings};
use crate::reply::{fails_with, ErrorReply, Status};
use crate::text::{decimal_i64, parse_i64};

verus! {

/// The upstream's answer to an earnings query.
#[derive(Clone, Debug, PartialEq)]
pub struct AirstackFarcasterCastEarningsDataResponse<A> {
    pub farcaster_casts: Option<AirstackFarcasterCastEarningsPayload<A>>,
    pub farcaster_replies: Option<AirstackFarcasterCastEarningsPayload<A>>,
}

/// The records under one of the two upstream fields.
#[derive(Clone, Debug, PartialEq)]
pub struct AirstackFarcasterCastEarningsPayload<A> {
    pub cast: Option<Vec<AirstackFarcasterCastEarnings<A>>>,
    pub reply: Option<Vec<AirstackFarcasterCastEarnings<A>>>,
}

/// A cast or reply record of the upstream, as far as this endpoint reads it.
#[derive(Clone, Debug, PartialEq)]
pub struct AirstackFarcasterCastEarnings<A> {
    pub casted_by: AirstackFarcasterCastCastedBy,
    pub channel: Option<AirstackFarcasterCastChannel>,
    pub moxie_earnings_split: Vec<AirstackFarcasterCastMoxieEarningsSplit<A>>,
}

/// The author of a record as the upstream names them.
#[derive(Clone, Debug, PartialEq)]
pub struct AirstackFarcasterCastCastedBy {
    pub user_id: String,
    pub profile_image: Option<String>,
    pub fnames: Vec<String>,
}

/// The channel of a record as the upstream names it.
#[derive(Clone, Debug, PartialEq)]
pub struct AirstackFarcasterCastChannel {
    pub name: String,
    pub image_url: Option<String>,
}

/// What the endpoint reports for a cast or reply.
#[derive(Clone, Debug, PartialEq)]
pub struct CastEarningsResponse<A> {
    pub earnings: Earnings<A>,
    pub creator: CreatorInfo,
    pub channel: Option<ChannelInfo>,
}

/// The creator of a cast: the numeric id, the first handle and the avatar.
#[derive(Clone, Debug, PartialEq, Eq)]
pub struct CreatorInfo {
    pub fid: i64,
    pub username: Option<String>,
    pub profile_image: Option<String>,
}

/// The channel of a cast.
#[derive(Clone, Debug, PartialEq, Eq)]
pub struct ChannelInfo {
    pub name: String,
    pub image_url: Option<String>,
}

/// The first item of an optional list.
pub open spec fn first_in<R>(items: Option<Vec<R>>) -> Option<R> {
    match items {
        Some(list) => if list@.len() > 0 {
            Some(list@[0])
        } else {
            None
        },
        None => None,
    }
}

/// The record an answer stands for: the first cast record, or without one
/// the first reply record.
pub open spec fn chosen_record<A>(
    data: AirstackFarcasterCastEarningsDataResponse<A>,
) -> Option<AirstackFarcasterCastEarnings<A>> {
    let cast = match data.farcaster_casts {
        Some(payload) => first_in(payload.cast),
        None => None,
    };
    match cast {
        Some(record) => Some(record),
        None => match data.farcaster_replies {
            Some(payload) => first_in(payload.reply),
            None => None,
        },
    }
}

/// The numeric id that an upstream user identifier stands for: its value as a
/// decimal number, and 0 where it is none.
pub open spec fn fid_of_user_id(user_id: Seq<char>) -> i64 {
    match decimal_i64(user_id) {
        Some(fid) => fid,
        None => 0,
    }
}

/// The channel reported for an upstream channel.
pub open spec fn channel_reported(
    channel: Option<AirstackFarcasterCastChannel>,
    reported: Option<ChannelInfo>,
) -> bool {
    match channel {
        Some(named) => reported matches Some(info) && info.name == named.name && info.image_url
            == named.image_url,
        None => reported.is_none(),
    }
}

impl<A> CastEarningsResponse<A> {
    /// This response reports the given record: the earnings that its splits
    /// add up to, its creator with the id that the user identifier stands
    /// for, the first handle and the avatar, and its channel if it has one.
    pub open spec fn reports<F: Fn(A, A) -> A>(
        self,
        record: AirstackFarcasterCastEarnings<A>,
        zero: A,
        plus: F,
    ) -> bool {
        &&& self.earnings.accumulates(plus, zero, record.moxie_earnings_split@)
        &&& record.moxie_earnings_split@.len() == 0 ==> self.earnings.all_at(zero)
        &&& self.creator.fid == fid_of_user_id(record.casted_by.user_id@)
        &&& self.creator.username == first_in(Some(record.casted_by.fnames))
        &&& self.creator.profile_image == record.casted_by.profile_image
        &&& channel_reported(record.channel, self.channel)
    }
}

/// What the endpoint answers for an upstream answer: nothing where the answer
/// has no data or no record, else a report of the record.
pub open spec fn earnings_reported<A, F: Fn(A, A) -> A>(
    data: Option<AirstackFarcasterCastEarningsDataResponse<A>>,
    zero: A,
    plus: F,
    response: Option<CastEarningsResponse<A>>,
) -> bool {
    let record = match data {
        Some(data) => chosen_record(data),
        None => None,
    };
    match record {
        Some(record) => response matches Some(report) && report.reports(record, zero, plus),
        None => response.is_none(),
    }
}

/// The first item of an optional list, taken out of it.
fn take_first<R>(items: Option<Vec<R>>) -> (first: Option<R>)
    ensures
        first == first_in(items),
{
    match items {
        Some(mut list) => {
            if list.len() > 0 {
                Some(list.swap_remove(0))
            } else {
                None
            }
        },
        None => None,
    }
}

/// The numeric id for a parsed user identifier: the number, or 0 where the
/// identifier did not parse.
pub fn fid_or_default(parsed: Result<i64, core::num::ParseIntError>) -> (fid: i64)
    ensures
        fid == match parsed {
            Ok(number) => number,
            Err(_) => 0,
        },
{
    match parsed {
        Ok(number) => number,
        Err(_) => 0,
    }
}

/// The numeric id that an upstream user identifier stands for.
pub fn creator_fid(user_id: &str) -> (fid: i64)
    ensures
        fid == fid_of_user_id(user_id@),
{
    fid_or_default(parse_i64(user_id))
}

/// Begins a request to the earnings endpoint. A caller without the right
/// secret is turned away before anything else is looked at; otherwise the
/// identifying parameters select the first step.
pub fn get_cast_earnings(
    config: &Config,
    api_key: Option<&str>,
    params: &CastEmbedsRequestQuery,
) -> (step: CastStep)
    ensures
        step@ == if authorized(supplied_chars(api_key), config.api_key@) {
            params.planned()
        } else {
            CastStepView::Reject { status: Status::Unauthorized, error: "Unauthorized"@ }
        },
{
    match check_api_key(config, api_key) {
        Ok(()) => plan(params),
        Err(reply) => CastStep::Reject(reply),
    }
}

/// The report of the record that an upstream answer stands for, with amounts
/// added from `zero` by `plus`.
pub fn extract_cast_earnings_response<A: Copy, F: Fn(A, A) -> A>(
    data: AirstackFarcasterCastEarningsDataResponse<A>,
    zero: A,
    plus: &F,
) -> (response: Option<CastEarningsResponse<A>>)
    requires
        forall|a: A, b: A| call_requires(*plus, (a, b)),
    ensures
        earnings_reported(Some(data), zero, *plus, response),
{
    let cast = match data.farcaster_casts {
        Some(payload) => take_first(payload.cast),
        None => None,
    };
    let chosen = match cast {
        Some(record) => Some(record),
        None => match data.farcaster_replies {
            Some(payload) => take_first(payload.reply),
            None => None,
        },
    };
    match chosen {
        Some(record) => {
            let earnings = accumulate(&record.moxie_earnings_split, zero, plus);
            let fid = creator_fid(record.casted_by.user_id.as_str());
            let creator = CreatorInfo {
                fid,
                username: take_first(Some(record.casted_by.fnames)),
                profile_image: record.casted_by.profile_image,
            };
            let channel = match record.channel {
                Some(named) => Some(ChannelInfo { name: named.name, image_url: named.image_url }),
                None => None,
            };
            Some(CastEarningsResponse { earnings, creator, channel })
        },
        None => None,
    }
}

/// Ends a request to the earnings endpoint with the outcome of the upstream
/// query: the report for its answer, or an internal error that carries the
/// upstream's message.
pub fn earnings_response<A: Copy, F: Fn(A, A) -> A>(
    outcome: Result<Option<AirstackFarcasterCastEarningsDataResponse<A>>, String>,
    zero: A,
    plus: &F,
) -> (response: Result<Option<CastEarningsResponse<A>>, ErrorReply>)
    requires
        forall|a: A, b: A| call_requires(*plus, (a, b)),
    ensures
        match outcome {
            Ok(data) => response matches Ok(report) && earnings_reported(
                data,
                zero,
                *plus,
                report,
            ),
            Err(message) => fails_with(response, Status::InternalServerError, message@),
        },
{
    match outcome {
        Ok(Some(data)) => Ok(extract_cast_earnings_response(data, zero, plus)),
        Ok(None) => Ok(None),
        Err(message) => Err(ErrorReply::internal(message)),
    }
}

} // verus!
