//! Resolving a cast URL to the cast's identifier, through the cache.
//!
//! The resolver itself neither reads the cache nor calls the upstream: it
//! says, step by step, what is to be done and what follows from each
//! outcome. [`resolve`] is the whole run over a model of the cache, and the
//! laws at the end of this file are stated of it.

use vstd::prelude::*;
use vstd::string::*;
use crate::json::{json_string_at, member, string_member};

verus! {

/// A cast as the resolver knows it: its canonical hash.
#[derive(Clone, Debug, PartialEq, Eq)]
pub struct NeynarCast {
    pub hash: String,
}

/// A cached value with the time, in seconds since the epoch, at which it was
/// stored. Nothing reads the time: a record never expires.
#[derive(Clone, Debug, PartialEq, Eq)]
pub struct CachedData<T> {
    pub data: T,
    pub timestamp: u64,
}

/// What the upstream resolver answered to one request.
#[derive(Debug, PartialEq)]
pub enum UpstreamAnswer {
    /// The request failed in transport, or the body was not a JSON document;
    /// the message says why.
    Failed(String),
    /// The upstream answered with a status that is not a success.
    Refused,
    /// The upstream answered with this JSON document.
    Body(serde_json::Value),
}

/// What the resolver asks for next, or what it has found.
#[derive(Debug, PartialEq, Eq)]
pub enum ResolverStep {
    /// Read the cache at `key`; go on with [`after_lookup`]. A read that
    /// fails counts as a miss.
    Lookup { key: String },
    /// Send a GET request to `url`; go on with [`after_upstream`].
    Ask { url: String },
    /// Write `record` under `key`, whether or not the write succeeds, and
    /// return `resolved`.
    Store { key: String, record: CachedData<NeynarCast>, resolved: NeynarCast },
    /// The resolution is over: the cast, no such cast, or a failure message.
    Done(Result<Option<NeynarCast>, String>),
}

/// A cached record as a plain value.
pub struct CachedView {
    pub hash: Seq<char>,
    pub timestamp: u64,
}

/// A resolver step as a plain value.
pub enum StepView {
    Lookup { key: Seq<char> },
    Ask { url: Seq<char> },
    Store { key: Seq<char>, record: CachedView, resolved: Seq<char> },
    Done(Result<Option<Seq<char>>, Seq<char>>),
}

impl View for CachedData<NeynarCast> {
    type V = CachedView;

    open spec fn view(&self) -> CachedView {
        CachedView { hash: self.data.hash@, timestamp: self.timestamp }
    }
}

/// The outcome of a resolution as a plain value.
pub open spec fn outcome_view(outcome: Result<Option<NeynarCast>, String>) -> Result<
    Option<Seq<char>>,
    Seq<char>,
> {
    match outcome {
        Ok(Some(cast)) => Ok(Some(cast.hash@)),
        Ok(None) => Ok(None),
        Err(message) => Err(message@),
    }
}

impl View for ResolverStep {
    type V = StepView;

    open spec fn view(&self) -> StepView {
        match *self {
            ResolverStep::Lookup { key } => StepView::Lookup { key: key@ },
            ResolverStep::Ask { url } => StepView::Ask { url: url@ },
            ResolverStep::Store { key, record, resolved } => StepView::Store {
                key: key@,
                record: record@,
                resolved: resolved.hash@,
            },
            ResolverStep::Done(outcome) => StepView::Done(outcome_view(outcome)),
        }
    }
}

/// The cache key of a cast URL: a fixed prefix, then the URL as it is.
pub open spec fn cache_key_of(cast_url: Seq<char>) -> Seq<char> {
    "neynarCast/url/"@ + cast_url
}

/// The address at which the upstream resolves a cast URL.
pub open spec fn lookup_url_of(cast_url: Seq<char>) -> Seq<char> {
    "https://api.neynar.com/v2/farcaster/cast?identifier="@ + cast_url + "&type=url"@
}

/// What an upstream answer means: a failure with its message, no such cast
/// (a refusal, or a document without a string at `cast.hash`), or the hash.
pub open spec fn answer_outcome(answer: UpstreamAnswer) -> Result<Option<Seq<char>>, Seq<char>> {
    match answer {
        UpstreamAnswer::Failed(message) => Err(message@),
        UpstreamAnswer::Refused => Ok(None),
        UpstreamAnswer::Body(doc) => Ok(json_string_at(doc, seq!["cast"@, "hash"@])),
    }
}

/// The step after a cache lookup: a hit ends the resolution with the cached
/// cast, a miss asks the upstream.
pub open spec fn step_after_lookup(cast_url: Seq<char>, cached: Option<CachedView>) -> StepView {
    match cached {
        Some(record) => StepView::Done(Ok(Some(record.hash))),
        None => StepView::Ask { url: lookup_url_of(cast_url) },
    }
}

/// The step after the upstream's answer: a hash is stored under the URL's
/// key with the current time and returned, anything else ends the resolution
/// as it is.
pub open spec fn step_after_upstream(
    cast_url: Seq<char>,
    answer: UpstreamAnswer,
    now: u64,
) -> StepView {
    match answer_outcome(answer) {
        Ok(Some(hash)) => StepView::Store {
            key: cache_key_of(cast_url),
            record: CachedView { hash, timestamp: now },
            resolved: hash,
        },
        other => StepView::Done(other),
    }
}

/// The cache key of a cast URL.
pub fn cache_key(cast_url: &str) -> (key: String)
    ensures
        key@ == cache_key_of(cast_url@),
{
    String::from_str("neynarCast/url/").concat(cast_url)
}

/// The address at which the upstream resolves a cast URL.
pub fn lookup_url(cast_url: &str) -> (url: String)
    ensures
        url@ == lookup_url_of(cast_url@),
{
    String::from_str("https://api.neynar.com/v2/farcaster/cast?identifier=").concat(
        cast_url,
    ).concat("&type=url")
}

/// The hash that an upstream document names at `cast.hash`, if it names one.
pub fn cast_of(doc: &serde_json::Value) -> (cast: Option<NeynarCast>)
    ensures
        outcome_view(Ok(cast)) == Ok::<Option<Seq<char>>, Seq<char>>(
            json_string_at(*doc, seq!["cast"@, "hash"@]),
        ),
{
    let ghost hash_path = seq!["hash"@];
    proof {
        assert(seq!["cast"@] + hash_path =~= seq!["cast"@, "hash"@]);
    }
    match member(doc, "cast") {
        Some(inner) => {
            assert(json_string_at(*inner, hash_path) == json_string_at(
                *doc,
                seq!["cast"@] + hash_path,
            ));
            match string_member(inner, "hash") {
                Some(hash) => Some(NeynarCast { hash }),
                None => None,
            }
        },
        None => {
            assert(json_string_at(*doc, seq!["cast"@] + hash_path).is_none());
            None
        },
    }
}

/// Begins the resolution of a cast URL: the cache is consulted first, under
/// the URL's key.
pub fn fetch_cast_from_neynar(cast_url: &str) -> (step: ResolverStep)
    ensures
        step@ == (StepView::Lookup { key: cache_key_of(cast_url@) }),
{
    ResolverStep::Lookup { key: cache_key(cast_url) }
}

/// Goes on after the cache lookup. A cached record is returned at once,
/// however old it is; without one the upstream is asked.
pub fn after_lookup(cast_url: &str, cached: Option<CachedData<NeynarCast>>) -> (step: ResolverStep)
    ensures
        step@ == step_after_lookup(
            cast_url@,
            match cached {
                Some(record) => Some(record@),
                None => None,
            },
        ),
{
    match cached {
        Some(record) => ResolverStep::Done(Ok(Some(record.data))),
        None => ResolverStep::Ask { url: lookup_url(cast_url) },
    }
}

/// Goes on after the upstream's answer, at the time `now` in seconds since
/// the epoch. A resolved cast is to be stored and returned; a refusal or a
/// document that names no cast means there is none; a failure is passed on
/// with its message.
pub fn after_upstream(cast_url: &str, answer: UpstreamAnswer, now: u64) -> (step: ResolverStep)
    ensures
        step@ == step_after_upstream(cast_url@, answer, now),
{
    match answer {
        UpstreamAnswer::Failed(message) => ResolverStep::Done(Err(message)),
        UpstreamAnswer::Refused => ResolverStep::Done(Ok(None)),
        UpstreamAnswer::Body(doc) => match cast_of(&doc) {
            Some(cast) => {
                let record = CachedData {
                    data: NeynarCast { hash: cast.hash.clone() },
                    timestamp: now,
                };
                ResolverStep::Store { key: cache_key(cast_url), record, resolved: cast }
            },
            None => ResolverStep::Done(Ok(None)),
        },
    }
}

/// The cache as the resolver sees it: records by key.
pub type CacheModel = Map<Seq<char>, CachedView>;

/// A read of the cache: the record under the key, if the read works and
/// there is one.
pub open spec fn cache_get(cache: CacheModel, reads: bool, key: Seq<char>) -> Option<CachedView> {
    if reads && cache.dom().contains(key) {
        Some(cache[key])
    } else {
        None
    }
}

/// A write to the cache: the record is under the key afterwards if the write
/// works, and nothing changes if it does not.
pub open spec fn cache_set(
    cache: CacheModel,
    writes: bool,
    key: Seq<char>,
    record: CachedView,
) -> CacheModel {
    if writes {
        cache.insert(key, record)
    } else {
        cache
    }
}

/// One whole resolution: how it ended, the cache it left, and whether the
/// upstream was asked.
pub struct Resolution {
    pub outcome: Result<Option<Seq<char>>, Seq<char>>,
    pub cache: CacheModel,
    pub asked: bool,
}

/// How a resolution ends with a step that asks for nothing more: a store
/// writes its record and returns the resolved cast, and a finished step
/// returns its outcome. (The two steps that ask for a lookup or a request do
/// not end a resolution; of them this says that nothing was found.)
pub open spec fn conclude(
    step: StepView,
    cache: CacheModel,
    writes: bool,
    asked: bool,
) -> Resolution {
    match step {
        StepView::Store { key, record, resolved } => Resolution {
            outcome: Ok(Some(resolved)),
            cache: cache_set(cache, writes, key, record),
            asked,
        },
        StepView::Done(outcome) => Resolution { outcome, cache, asked },
        _ => Resolution { outcome: Ok(None), cache, asked },
    }
}

/// The run of the resolver for one cast URL: the lookup under the URL's key,
/// then the steps that [`step_after_lookup`] and [`step_after_upstream`]
/// give. `reads` and `writes` say whether the cache can be read and written
/// during this run, `answer` what the upstream answers if it is asked, and
/// `now` the time of the run.
pub open spec fn resolve(
    cache: CacheModel,
    reads: bool,
    writes: bool,
    cast_url: Seq<char>,
    answer: UpstreamAnswer,
    now: u64,
) -> Resolution {
    let first = step_after_lookup(cast_url, cache_get(cache, reads, cache_key_of(cast_url)));
    if first is Ask {
        conclude(step_after_upstream(cast_url, answer, now), cache, writes, true)
    } else {
        conclude(first, cache, writes, false)
    }
}

/// Different cast URLs have different cache keys.
pub proof fn lemma_cache_key_injective(one: Seq<char>, other: Seq<char>)
    requires
        cache_key_of(one) == cache_key_of(other),
    ensures
        one == other,
{
    let prefix = "neynarCast/url/"@;
    assert(one.len() == other.len()) by {
        assert(cache_key_of(one).len() == prefix.len() + one.len());
        assert(cache_key_of(other).len() == prefix.len() + other.len());
    }
    assert forall|i: int| 0 <= i < one.len() implies one[i] == other[i] by {
        assert(cache_key_of(one)[prefix.len() + i] == one[i]);
        assert(cache_key_of(other)[prefix.len() + i] == other[i]);
    }
    assert(one =~= other);
}

/// A resolution writes to the cache only when the upstream has resolved the
/// URL, and then it writes the resolved identifier with the time of the run
/// under the URL's key; in every other case it leaves the cache as it was.
pub proof fn lemma_cache_filled_on_success_only(
    cache: CacheModel,
    reads: bool,
    writes: bool,
    cast_url: Seq<char>,
    answer: UpstreamAnswer,
    now: u64,
)
    ensures
        ({
            let run = resolve(cache, reads, writes, cast_url, answer, now);
            match answer_outcome(answer) {
                Ok(Some(hash)) if run.asked && writes => run.outcome == answer_outcome(answer)
                    && run.cache == cache.insert(
                    cache_key_of(cast_url),
                    CachedView { hash, timestamp: now },
                ),
                _ => run.cache == cache,
            }
        }),
{
}

/// A record written to a working cache is the record read back under the
/// same key.
pub proof fn lemma_set_then_get(cache: CacheModel, key: Seq<char>, record: CachedView)
    ensures
        cache_get(cache_set(cache, true, key, record), true, key) == Some(record),
{
}

/// Resolving a URL a second time, with the cache of the first resolution
/// readable and holding its record, gives the identifier of the first and
/// does not ask the upstream, whatever the upstream would answer by then.
pub proof fn lemma_resolve_again(
    cache: CacheModel,
    reads: bool,
    cast_url: Seq<char>,
    first: UpstreamAnswer,
    then: u64,
    second: UpstreamAnswer,
    now: u64,
    writes: bool,
)
    requires
        resolve(cache, reads, true, cast_url, first, then).outcome matches Ok(Some(_)),
    ensures
        ({
            let before = resolve(cache, reads, true, cast_url, first, then);
            let after = resolve(before.cache, true, writes, cast_url, second, now);
            &&& after.outcome == before.outcome
            &&& !after.asked
            &&& after.cache == before.cache
        }),
{
}

/// Without a usable cache the resolver asks the upstream, answers what the
/// upstream's answer means, and leaves the cache as it was.
pub proof fn lemma_resolve_without_cache(
    cache: CacheModel,
    cast_url: Seq<char>,
    answer: UpstreamAnswer,
    now: u64,
)
    ensures
        ({
            let run = resolve(cache, false, false, cast_url, answer, now);
            &&& run.outcome == answer_outcome(answer)
            &&& run.asked
            &&& run.cache == cache
        }),
{
}

/// A failed write changes nothing in what a resolution returns.
pub proof fn lemma_write_failure_is_silent(
    cache: CacheModel,
    reads: bool,
    cast_url: Seq<char>,
    answer: UpstreamAnswer,
    now: u64,
)
    ensures
        resolve(cache, reads, false, cast_url, answer, now).outcome == resolve(
            cache,
            reads,
            true,
            cast_url,
            answer,
            now,
        ).outcome,
{
}

} // verus!
