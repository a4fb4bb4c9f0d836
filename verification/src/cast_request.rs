//! The identifying parameters of a cast-oriented request, and the choice of
//! the upstream query that they select.

use vstd::prelude::*;
use vstd::string::*;
use crate::reply::{ErrorReply, Status};
use crate::resolver::{outcome_view, NeynarCast};
use crate::text::chars_of;

verus! {

/// The `type` parameter of a cast-oriented request.
#[derive(Clone, Copy, Debug, PartialEq, Eq, Structural)]
pub enum CastType {
    Cast,
    Reply,
}

/// The query parameters of the cast embeds and cast earnings endpoints.
#[derive(Clone, Debug, PartialEq, Eq)]
pub struct CastEmbedsRequestQuery {
    pub cast_hash: Option<String>,
    pub cast_url: Option<String>,
    pub cast_type: Option<CastType>,
}

/// The upstream query documents a cast-oriented endpoint chooses among.
#[derive(Clone, Copy, Debug, PartialEq, Eq, Structural)]
pub enum QueryVariant {
    /// By hash, among casts only.
    CastByHash,
    /// By hash, among replies only.
    ReplyByHash,
    /// By hash, among casts and replies in one query.
    CastOrReplyByHash,
    /// By URL, among casts only.
    CastByUrl,
}

/// A chosen upstream query: the document, and the hash or URL it is run with.
#[derive(Clone, Debug, PartialEq, Eq)]
pub struct UpstreamQuery {
    pub variant: QueryVariant,
    pub key: String,
}

/// What a handler of a cast-oriented endpoint does next.
#[derive(Clone, Debug, PartialEq, Eq)]
pub enum CastStep {
    /// Resolve this cast URL, then come back through [`after_resolution`].
    Resolve { url: String },
    /// Run this query against the analytics upstream.
    Fetch(UpstreamQuery),
    /// Answer with this failure.
    Reject(ErrorReply),
}

/// A step as a plain value.
pub enum CastStepView {
    Resolve { url: Seq<char> },
    Fetch { variant: QueryVariant, key: Seq<char> },
    Reject { status: Status, error: Seq<char> },
}

impl View for CastStep {
    type V = CastStepView;

    open spec fn view(&self) -> CastStepView {
        match *self {
            CastStep::Resolve { url } => CastStepView::Resolve { url: url@ },
            CastStep::Fetch(query) => CastStepView::Fetch {
                variant: query.variant,
                key: query.key@,
            },
            CastStep::Reject(reply) => CastStepView::Reject {
                status: reply.status,
                error: reply.error@,
            },
        }
    }
}

/// What the identifying parameters call for, whatever the hash and URL are.
#[derive(Clone, Copy, Debug, PartialEq, Eq, Structural)]
pub enum Selection {
    /// The URL must first be resolved to a hash.
    Resolve,
    /// The query to run.
    Query(QueryVariant),
    /// No identifying parameter that can be used.
    Invalid,
}

/// The choice made from the requested type and from which of hash and URL
/// were supplied. A URL without a hash is resolved first unless the type is
/// exactly `cast`, for which the upstream takes the URL as it is; any hash is
/// looked up by the requested type; with neither, the request is invalid.
pub open spec fn select(cast_type: Option<CastType>, has_hash: bool, has_url: bool) -> Selection {
    match (cast_type, has_hash, has_url) {
        (Some(CastType::Reply), false, true) | (None, false, true) => Selection::Resolve,
        (Some(CastType::Cast), true, _) => Selection::Query(QueryVariant::CastByHash),
        (Some(CastType::Reply), true, _) => Selection::Query(QueryVariant::ReplyByHash),
        (None, true, _) => Selection::Query(QueryVariant::CastOrReplyByHash),
        (Some(CastType::Cast), false, true) => Selection::Query(QueryVariant::CastByUrl),
        _ => Selection::Invalid,
    }
}

/// The step that the identifying parameters call for: the resolution of the
/// URL, the selected query with the hash or URL it is run with, or the
/// failure for parameters that identify nothing.
pub open spec fn planned(
    cast_type: Option<CastType>,
    hash: Option<Seq<char>>,
    url: Option<Seq<char>>,
) -> CastStepView {
    match (cast_type, hash, url) {
        (Some(CastType::Reply), None, Some(url)) => CastStepView::Resolve { url },
        (None, None, Some(url)) => CastStepView::Resolve { url },
        (Some(CastType::Cast), Some(hash), _) => CastStepView::Fetch {
            variant: QueryVariant::CastByHash,
            key: hash,
        },
        (Some(CastType::Reply), Some(hash), _) => CastStepView::Fetch {
            variant: QueryVariant::ReplyByHash,
            key: hash,
        },
        (None, Some(hash), _) => CastStepView::Fetch {
            variant: QueryVariant::CastOrReplyByHash,
            key: hash,
        },
        (Some(CastType::Cast), None, Some(url)) => CastStepView::Fetch {
            variant: QueryVariant::CastByUrl,
            key: url,
        },
        _ => CastStepView::Reject { status: Status::BadRequest, error: "Invalid parameters"@ },
    }
}

/// The step that follows the resolution of a request's URL. A resolved cast
/// is looked up by its hash as if the request had named that hash; a cast
/// that the resolver does not know gives the not-found failure; a failure of
/// the resolver gives an internal error with the resolver's message.
pub open spec fn planned_after_resolution(
    cast_type: Option<CastType>,
    url: Option<Seq<char>>,
    resolution: Result<Option<Seq<char>>, Seq<char>>,
) -> CastStepView {
    match resolution {
        Ok(Some(hash)) => planned(cast_type, Some(hash), url),
        Ok(None) => CastStepView::Reject { status: Status::NotFound, error: "Cast not found"@ },
        Err(message) => CastStepView::Reject {
            status: Status::InternalServerError,
            error: message,
        },
    }
}

/// What a step does, whatever its hash, URL or message is.
pub open spec fn selection_of(step: CastStepView) -> Selection {
    match step {
        CastStepView::Resolve { .. } => Selection::Resolve,
        CastStepView::Fetch { variant, .. } => Selection::Query(variant),
        CastStepView::Reject { .. } => Selection::Invalid,
    }
}

impl CastEmbedsRequestQuery {
    /// The step that these parameters call for.
    pub open spec fn planned(self) -> CastStepView {
        planned(self.cast_type, chars_of(self.cast_hash), chars_of(self.cast_url))
    }
}

impl QueryVariant {
    /// The name of the variable that the query takes its key in.
    pub open spec fn variable_of(self) -> Seq<char> {
        match self {
            QueryVariant::CastByUrl => "url"@,
            _ => "hash"@,
        }
    }

    /// The name of the embeds query of this variant.
    pub open spec fn embeds_operation_of(self) -> Seq<char> {
        match self {
            QueryVariant::CastByHash => "CastEmbedsByHashQuery"@,
            QueryVariant::ReplyByHash => "ReplyEmbedsByHashQuery"@,
            QueryVariant::CastOrReplyByHash => "CastAndReplyEmbedsByHashQuery"@,
            QueryVariant::CastByUrl => "CastEmbedsByUrlQuery"@,
        }
    }

    /// The name of the earnings query of this variant.
    pub open spec fn earnings_operation_of(self) -> Seq<char> {
        match self {
            QueryVariant::CastByHash => "CastEarningsByHashQuery"@,
            QueryVariant::ReplyByHash => "ReplyEarningsByHashQuery"@,
            QueryVariant::CastOrReplyByHash => "CastAndReplyEarningsByHashQuery"@,
            QueryVariant::CastByUrl => "CastEarningsByUrlQuery"@,
        }
    }

    /// The name of the variable that the query takes its key in: `url` for
    /// the query by URL, `hash` for the others.
    pub fn variable(self) -> (name: &'static str)
        ensures
            name@ == self.variable_of(),
    {
        match self {
            QueryVariant::CastByUrl => "url",
            _ => "hash",
        }
    }

    /// The name under which the upstream knows the embeds query of this
    /// variant.
    pub fn embeds_operation(self) -> (name: &'static str)
        ensures
            name@ == self.embeds_operation_of(),
    {
        match self {
            QueryVariant::CastByHash => "CastEmbedsByHashQuery",
            QueryVariant::ReplyByHash => "ReplyEmbedsByHashQuery",
            QueryVariant::CastOrReplyByHash => "CastAndReplyEmbedsByHashQuery",
            QueryVariant::CastByUrl => "CastEmbedsByUrlQuery",
        }
    }

    /// The name under which the upstream knows the earnings query of this
    /// variant.
    pub fn earnings_operation(self) -> (name: &'static str)
        ensures
            name@ == self.earnings_operation_of(),
    {
        match self {
            QueryVariant::CastByHash => "CastEarningsByHashQuery",
            QueryVariant::ReplyByHash => "ReplyEarningsByHashQuery",
            QueryVariant::CastOrReplyByHash => "CastAndReplyEarningsByHashQuery",
            QueryVariant::CastByUrl => "CastEarningsByUrlQuery",
        }
    }
}

/// The query for a known hash, by the requested type.
pub fn query_by_hash(cast_type: Option<CastType>, hash: String) -> (query: UpstreamQuery)
    ensures
        CastStep::Fetch(query)@ == planned(cast_type, Some(hash@), None),
        query.key == hash,
{
    let variant = match cast_type {
        Some(CastType::Cast) => QueryVariant::CastByHash,
        Some(CastType::Reply) => QueryVariant::ReplyByHash,
        None => QueryVariant::CastOrReplyByHash,
    };
    UpstreamQuery { variant, key: hash }
}

/// The first step for a request: what its identifying parameters call for.
pub fn plan(params: &CastEmbedsRequestQuery) -> (step: CastStep)
    ensures
        step@ == params.planned(),
{
    match &params.cast_hash {
        Some(hash) => CastStep::Fetch(query_by_hash(params.cast_type, hash.clone())),
        None => match &params.cast_url {
            Some(url) => match params.cast_type {
                Some(CastType::Cast) => CastStep::Fetch(
                    UpstreamQuery { variant: QueryVariant::CastByUrl, key: url.clone() },
                ),
                _ => CastStep::Resolve { url: url.clone() },
            },
            None => CastStep::Reject(
                ErrorReply::bad_request(String::from_str("Invalid parameters")),
            ),
        },
    }
}

/// The step that follows a resolution of the request's URL. A resolved cast
/// is looked up by its hash and the requested type; a cast the resolver does
/// not know gives the not-found reply; a resolver failure gives an internal
/// error that carries the resolver's message.
pub fn after_resolution(
    params: &CastEmbedsRequestQuery,
    resolution: Result<Option<NeynarCast>, String>,
) -> (step: CastStep)
    ensures
        step@ == planned_after_resolution(
            params.cast_type,
            chars_of(params.cast_url),
            outcome_view(resolution),
        ),
{
    match resolution {
        Ok(Some(cast)) => CastStep::Fetch(query_by_hash(params.cast_type, cast.hash)),
        Ok(None) => CastStep::Reject(ErrorReply::not_found(String::from_str("Cast not found"))),
        Err(message) => CastStep::Reject(ErrorReply::internal(message)),
    }
}

/// Which step is taken depends on nothing but the requested type and on
/// which of hash and URL are present: it is the step that [`select`] names
/// for them, whatever the hash and the URL are.
pub proof fn lemma_selection_by_presence(
    cast_type: Option<CastType>,
    hash: Option<Seq<char>>,
    url: Option<Seq<char>>,
)
    ensures
        selection_of(planned(cast_type, hash, url)) == select(
            cast_type,
            hash.is_some(),
            url.is_some(),
        ),
{
}

/// Two requests that agree in the requested type and in which of hash and
/// URL they carry take the same kind of step, with the same query if they
/// take one.
pub proof fn lemma_same_presence_same_selection(
    a: CastEmbedsRequestQuery,
    b: CastEmbedsRequestQuery,
)
    requires
        a.cast_type == b.cast_type,
        a.cast_hash.is_some() == b.cast_hash.is_some(),
        a.cast_url.is_some() == b.cast_url.is_some(),
    ensures
        selection_of(a.planned()) == selection_of(b.planned()),
{
    lemma_selection_by_presence(a.cast_type, chars_of(a.cast_hash), chars_of(a.cast_url));
    lemma_selection_by_presence(b.cast_type, chars_of(b.cast_hash), chars_of(b.cast_url));
}

/// A selected query is run with the hash wherever there is one, and with the
/// URL only by the query that takes a URL; a resolution is asked for the
/// request's URL.
pub proof fn lemma_planned_key(
    cast_type: Option<CastType>,
    hash: Option<Seq<char>>,
    url: Option<Seq<char>>,
)
    ensures
        match planned(cast_type, hash, url) {
            CastStepView::Resolve { url: asked } => hash.is_none() && url == Some(asked),
            CastStepView::Fetch { variant, key } => if variant == QueryVariant::CastByUrl {
                hash.is_none() && url == Some(key)
            } else {
                hash == Some(key)
            },
            CastStepView::Reject { .. } => hash.is_none() && url.is_none(),
        },
{
}

/// After a resolution that found a cast, the cast is looked up by its hash,
/// in the query that the requested type names; the URL is not resolved
/// again.
pub proof fn lemma_resolved_is_fetched(
    cast_type: Option<CastType>,
    url: Option<Seq<char>>,
    hash: Seq<char>,
)
    ensures
        planned_after_resolution(cast_type, url, Ok(Some(hash))) matches CastStepView::Fetch {
            variant,
            key,
        } && key == hash && variant != QueryVariant::CastByUrl,
{
}

} // verus!
