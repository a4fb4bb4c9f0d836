//! The cast embeds endpoint: the embed URLs of a cast or reply.

use vstd::prelude::*;
use vstd::string::*;
use crate::auth::{authorized, check_api_key, supplied_chars};
use crate::cast_request::{plan, CastEmbedsRequestQuery, CastStep, CastStepView};
use crate::config::Config;
use crate::json::{json_string_at, string_member};
use crate::reply::{fails_with, ErrorReply, Status};
use crate::text::chars_of;

verus! {

/// One embed of a cast as the gateway reports it: its URL, if it has one.
#[derive(Clone, Debug, PartialEq, Eq)]
pub struct Embed {
    pub url: Option<String>,
}

/// A cast or reply record of the upstream, as far as this endpoint reads it:
/// its embed objects.
#[derive(Debug, PartialEq)]
pub struct CastEmbeds {
    pub embeds: Vec<serde_json::Value>,
}

/// The upstream's answer to an embeds query: the cast records and the reply
/// records it returned. A query that does not ask for one of the two kinds
/// leaves that list empty.
#[derive(Debug, PartialEq)]
pub struct EmbedsData {
    pub casts: Vec<CastEmbeds>,
    pub replies: Vec<CastEmbeds>,
}

/// The record an answer stands for: the first cast record, or without one
/// the first reply record.
pub open spec fn first_record<R>(casts: Seq<R>, replies: Seq<R>) -> Option<R> {
    if casts.len() > 0 {
        Some(casts[0])
    } else if replies.len() > 0 {
        Some(replies[0])
    } else {
        None
    }
}

/// The URL of each embed object in turn: the string under `url`, or nothing
/// for an object without one.
pub open spec fn urls_in(objects: Seq<serde_json::Value>) -> Seq<Option<Seq<char>>> {
    objects.map_values(|object: serde_json::Value| json_string_at(object, seq!["url"@]))
}

/// The URLs that a list of embeds reports.
pub open spec fn urls_of(embeds: Seq<Embed>) -> Seq<Option<Seq<char>>> {
    embeds.map_values(|embed: Embed| chars_of(embed.url))
}

/// The URLs that an optional list of embeds reports.
pub open spec fn urls_reported(embeds: Option<Vec<Embed>>) -> Option<Seq<Option<Seq<char>>>> {
    match embeds {
        Some(list) => Some(urls_of(list@)),
        None => None,
    }
}

/// What the endpoint reports for an upstream answer: nothing where the answer
/// has no data or no record, else one embed per embed object of the record.
pub open spec fn embeds_reported(data: Option<EmbedsData>) -> Option<Seq<Option<Seq<char>>>> {
    match data {
        Some(data) => match first_record(data.casts@, data.replies@) {
            Some(record) => Some(urls_in(record.embeds@)),
            None => None,
        },
        None => None,
    }
}

/// Begins a request to the embeds endpoint. A caller without the right
/// secret is turned away before anything else is looked at; otherwise the
/// identifying parameters select the first step.
pub fn get_cast_embeds(
    config: &Config,
    api_key: Option<&str>,
    params: &CastEmbedsRequestQuery,
) -> (step: CastStep)
    ensures
        step@ == if authorized(supplied_chars(api_key), config.api_key@) {
            params.planned()
        } else {
            CastStepView::Reject { status: Status::Unauthorized, error: "Unauthorized"@ }
        },
{
    match check_api_key(config, api_key) {
        Ok(()) => plan(params),
        Err(reply) => CastStep::Reject(reply),
    }
}

/// The embed that an upstream embed object stands for. An object without a
/// string under `url` is kept, as an embed without a URL.
pub fn embed_of(object: &serde_json::Value) -> (embed: Embed)
    ensures
        chars_of(embed.url) == json_string_at(*object, seq!["url"@]),
{
    Embed { url: string_member(object, "url") }
}

/// The embeds of the record that an upstream answer stands for.
pub fn extract_embeds(data: &EmbedsData) -> (embeds: Option<Vec<Embed>>)
    ensures
        urls_reported(embeds) == embeds_reported(Some(*data)),
{
    let record = if data.casts.len() > 0 {
        &data.casts[0]
    } else if data.replies.len() > 0 {
        &data.replies[0]
    } else {
        return None;
    };
    let mut list: Vec<Embed> = Vec::new();
    let mut at: usize = 0;
    while at < record.embeds.len()
        invariant
            at <= record.embeds.len(),
            urls_of(list@) == urls_in(record.embeds@.take(at as int)),
        decreases record.embeds.len() - at,
    {
        let embed = embed_of(&record.embeds[at]);
        proof {
            assert(record.embeds@.take(at + 1) =~= record.embeds@.take(at as int).push(
                record.embeds@[at as int],
            ));
            assert(urls_of(list@.push(embed)) =~= urls_of(list@).push(chars_of(embed.url)));
            assert(urls_in(record.embeds@.take(at + 1)) =~= urls_in(
                record.embeds@.take(at as int),
            ).push(json_string_at(record.embeds@[at as int], seq!["url"@])));
        }
        list.push(embed);
        at = at + 1;
    }
    proof {
        assert(record.embeds@.take(at as int) =~= record.embeds@);
    }
    Some(list)
}

/// Ends a request to the embeds endpoint with the outcome of the upstream
/// query: the embeds reported for its answer, or an internal error that does
/// not repeat the upstream's message.
pub fn embeds_response(outcome: Result<Option<EmbedsData>, String>) -> (response: Result<
    Option<Vec<Embed>>,
    ErrorReply,
>)
    ensures
        match outcome {
            Ok(data) => response matches Ok(embeds) && urls_reported(embeds) == embeds_reported(
                data,
            ),
            Err(_) => fails_with(response, Status::InternalServerError, "Internal server error"@),
        },
{
    match outcome {
        Ok(Some(data)) => Ok(extract_embeds(&data)),
        Ok(None) => Ok(None),
        Err(_) => Err(ErrorReply::internal(String::from_str("Internal server error"))),
    }
}

} // verus!
