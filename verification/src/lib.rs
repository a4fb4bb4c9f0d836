//! The decision core of an authenticated HTTP gateway over Farcaster data:
//! which upstream query a request selects, how a cast URL is resolved through
//! the cache, and how upstream payloads are reshaped into the public contract.
//!
//! The library does no input or output. A handler is a few functions: one
//! that begins the request and says what to ask of the outside, and one that
//! ends it with what came back. Transport, storage and serialisation belong
//! to the program around it.
//!
//! - [`auth`], [`config`], [`reply`], [`handle`]: what every handler shares.
//! - [`cast_request`]: the identifying parameters of a cast and the upstream
//!   query they select.
//! - [`resolver`]: the resolution of a cast URL through the cache.
//! - [`embeds`], [`cast_earnings`], [`earnings`]: the two cast endpoints.
//! - [`user_earnings`], [`far_scores`], [`fids`]: the three user endpoints.
//! - [`routes`]: the route table and the pre-flight answer.
//! - [`json`], [`text`]: what is taken on trust from `serde_json` and from
//!   the standard library.

pub mod auth;
pub mod cast_earnings;
pub mod cast_request;
pub mod config;
pub mod earnings;
pub mod embeds;
pub mod far_scores;
pub mod fids;
pub mod handle;
pub mod json;
pub mod reply;
pub mod resolver;
pub mod routes;
pub mod text;
pub mod user_earnings;
