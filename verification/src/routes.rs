//! The table of routes, and the answer to a cross-origin pre-flight request.

use vstd::prelude::*;
use vstd::string::*;
use crate::reply::Status;

verus! {

/// The handlers of the gateway.
#[derive(Clone, Copy, Debug, PartialEq, Eq, Structural)]
pub enum Endpoint {
    UserEarnings,
    Fids,
    FarScores,
    CastEmbeds,
    CastEarnings,
}

/// A path, below the common prefix, and the handler that GET requests to it
/// go to. A path segment that begins with a colon stands for a parameter.
#[derive(Clone, Debug, PartialEq, Eq)]
pub struct Route {
    pub path: String,
    pub endpoint: Endpoint,
}

/// A response header.
#[derive(Clone, Debug, PartialEq, Eq)]
pub struct Header {
    pub name: String,
    pub value: String,
}

/// The answer to a pre-flight request: an empty body under this status and
/// these headers.
#[derive(Clone, Debug, PartialEq, Eq)]
pub struct Preflight {
    pub status: Status,
    pub headers: Vec<Header>,
}

impl View for Route {
    type V = (Seq<char>, Endpoint);

    open spec fn view(&self) -> (Seq<char>, Endpoint) {
        (self.path@, self.endpoint)
    }
}

impl View for Header {
    type V = (Seq<char>, Seq<char>);

    open spec fn view(&self) -> (Seq<char>, Seq<char>) {
        (self.name@, self.value@)
    }
}

/// A list of routes as plain values.
pub open spec fn table_of(routes: Seq<Route>) -> Seq<(Seq<char>, Endpoint)> {
    routes.map_values(|route: Route| route@)
}

/// A list of headers as plain values.
pub open spec fn pairs_of(headers: Seq<Header>) -> Seq<(Seq<char>, Seq<char>)> {
    headers.map_values(|header: Header| header@)
}

/// The routes of the gateway. Cast earnings are served under two paths, the
/// second being the older one.
pub open spec fn route_table() -> Seq<(Seq<char>, Endpoint)> {
    seq![
        ("/users/:fid/earnings"@, Endpoint::UserEarnings),
        ("/fids"@, Endpoint::Fids),
        ("/far-scores"@, Endpoint::FarScores),
        ("/casts/embeds"@, Endpoint::CastEmbeds),
        ("/casts/earnings"@, Endpoint::CastEarnings),
        ("/earnings"@, Endpoint::CastEarnings),
    ]
}

/// The headers that answer a pre-flight request: any origin, the three
/// methods, and the request headers that callers send, the one with the
/// caller's secret among them.
pub open spec fn preflight_headers() -> Seq<(Seq<char>, Seq<char>)> {
    seq![
        ("Access-Control-Allow-Origin"@, "*"@),
        ("Access-Control-Allow-Methods"@, "GET, POST, OPTIONS"@),
        (
            "Access-Control-Allow-Headers"@,
            "Authorization, Content-Type, X-Requested-With, x-me-api-key"@,
        ),
        ("Access-Control-Max-Age"@, "1728000"@),
    ]
}

fn route(path: &str, endpoint: Endpoint) -> (route: Route)
    ensures
        route@ == (path@, endpoint),
{
    Route { path: String::from_str(path), endpoint }
}

fn header(name: &str, value: &str) -> (header: Header)
    ensures
        header@ == (name@, value@),
{
    Header { name: String::from_str(name), value: String::from_str(value) }
}

/// The routes of the gateway, in the order in which they are registered.
pub fn api_routes() -> (routes: Vec<Route>)
    ensures
        table_of(routes@) == route_table(),
{
    let mut routes: Vec<Route> = Vec::new();
    routes.push(route("/users/:fid/earnings", Endpoint::UserEarnings));
    routes.push(route("/fids", Endpoint::Fids));
    routes.push(route("/far-scores", Endpoint::FarScores));
    routes.push(route("/casts/embeds", Endpoint::CastEmbeds));
    routes.push(route("/casts/earnings", Endpoint::CastEarnings));
    routes.push(route("/earnings", Endpoint::CastEarnings));
    assert(table_of(routes@) =~= route_table());
    routes
}

/// The answer to a pre-flight request on any route: no content, and the
/// permissive cross-origin headers.
pub fn options_handler() -> (answer: Preflight)
    ensures
        answer.status == Status::NoContent,
        pairs_of(answer.headers@) == preflight_headers(),
{
    let mut headers: Vec<Header> = Vec::new();
    headers.push(header("Access-Control-Allow-Origin", "*"));
    headers.push(header("Access-Control-Allow-Methods", "GET, POST, OPTIONS"));
    headers.push(
        header(
            "Access-Control-Allow-Headers",
            "Authorization, Content-Type, X-Requested-With, x-me-api-key",
        ),
    );
    headers.push(header("Access-Control-Max-Age", "1728000"));
    assert(pairs_of(headers@) =~= preflight_headers());
    Preflight { status: Status::NoContent, headers }
}

} // verus!
