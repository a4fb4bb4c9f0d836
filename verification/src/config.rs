//! The configuration that every handler is handed.

use vstd::prelude::*;

verus! {

/// Secrets fixed at start-up: the one callers must present, and the bearer
/// token for the analytics upstream.
#[derive(Clone, Debug)]
pub struct Config {
    pub api_key: String,
    pub airstack_api_key: String,
}

} // verus!
