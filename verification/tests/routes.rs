use farcaster_gateway::reply::Status;
use farcaster_gateway::routes::{api_routes, options_handler, Endpoint};

#[test]
fn every_endpoint_has_its_route() {
    let routes: Vec<(String, Endpoint)> =
        api_routes().into_iter().map(|route| (route.path, route.endpoint)).collect();
    assert_eq!(
        routes,
        vec![
            ("/users/:fid/earnings".to_string(), Endpoint::UserEarnings),
            ("/fids".to_string(), Endpoint::Fids),
            ("/far-scores".to_string(), Endpoint::FarScores),
            ("/casts/embeds".to_string(), Endpoint::CastEmbeds),
            ("/casts/earnings".to_string(), Endpoint::CastEarnings),
            ("/earnings".to_string(), Endpoint::CastEarnings),
        ]
    );
}

#[test]
fn route_paths_are_distinct() {
    let routes = api_routes();
    for (i, one) in routes.iter().enumerate() {
        for other in routes.iter().skip(i + 1) {
            assert_ne!(one.path, other.path);
        }
    }
}

#[test]
fn preflight_is_answered_without_content() {
    let answer = options_handler();
    assert_eq!(answer.status, Status::NoContent);
    assert_eq!(answer.status.code(), 204);
}

#[test]
fn preflight_headers_are_permissive() {
    let headers: Vec<(String, String)> =
        options_handler().headers.into_iter().map(|header| (header.name, header.value)).collect();
    assert_eq!(
        headers,
        vec![
            ("Access-Control-Allow-Origin".to_string(), "*".to_string()),
            ("Access-Control-Allow-Methods".to_string(), "GET, POST, OPTIONS".to_string()),
            (
                "Access-Control-Allow-Headers".to_string(),
                "Authorization, Content-Type, X-Requested-With, x-me-api-key".to_string()
            ),
            ("Access-Control-Max-Age".to_string(), "1728000".to_string()),
        ]
    );
}
