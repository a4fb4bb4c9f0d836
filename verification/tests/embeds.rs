use farcaster_gateway::cast_request::{
    after_resolution, CastEmbedsRequestQuery, CastStep, CastType, QueryVariant, UpstreamQuery,
};
use farcaster_gateway::config::Config;
use farcaster_gateway::embeds::{
    embed_of, embeds_response, extract_embeds, get_cast_embeds, CastEmbeds, Embed, EmbedsData,
};
use farcaster_gateway::reply::{ErrorReply, Status};

fn config() -> Config {
    Config { api_key: "s3cret".to_string(), airstack_api_key: "upstream-token".to_string() }
}

fn object(text: &str) -> serde_json::Value {
    serde_json::from_str(text).unwrap()
}

fn record(objects: &[&str]) -> CastEmbeds {
    CastEmbeds { embeds: objects.iter().map(|text| object(text)).collect() }
}

fn with_url(url: &str) -> Embed {
    Embed { url: Some(url.to_string()) }
}

#[test]
fn cast_embeds_by_url_with_cast_type() {
    let params = CastEmbedsRequestQuery {
        cast_hash: None,
        cast_url: Some("https://warpcast.com/x/y".to_string()),
        cast_type: Some(CastType::Cast),
    };
    let step = get_cast_embeds(&config(), Some("s3cret"), &params);
    assert_eq!(
        step,
        CastStep::Fetch(UpstreamQuery {
            variant: QueryVariant::CastByUrl,
            key: "https://warpcast.com/x/y".to_string(),
        })
    );
    let answer =
        EmbedsData { casts: vec![record(&[r#"{"url": "https://img"}"#])], replies: vec![] };
    assert_eq!(embeds_response(Ok(Some(answer))), Ok(Some(vec![with_url("https://img")])));
}

#[test]
fn cast_embeds_of_unresolved_url_is_not_found() {
    let params = CastEmbedsRequestQuery {
        cast_hash: None,
        cast_url: Some("https://warpcast.com/x/y".to_string()),
        cast_type: None,
    };
    let step = get_cast_embeds(&config(), Some("s3cret"), &params);
    assert_eq!(step, CastStep::Resolve { url: "https://warpcast.com/x/y".to_string() });
    let step = after_resolution(&params, Ok(None));
    let reply = ErrorReply { status: Status::NotFound, error: "Cast not found".to_string() };
    assert_eq!(reply.status.code(), 404);
    assert_eq!(step, CastStep::Reject(reply));
}

#[test]
fn cast_embeds_without_identifier_is_invalid() {
    let params = CastEmbedsRequestQuery { cast_hash: None, cast_url: None, cast_type: None };
    let step = get_cast_embeds(&config(), Some("s3cret"), &params);
    let reply = ErrorReply { status: Status::BadRequest, error: "Invalid parameters".to_string() };
    assert_eq!(step, CastStep::Reject(reply));
}

#[test]
fn embed_with_url() {
    assert_eq!(embed_of(&object(r#"{"url": "https://img", "kind": "image"}"#)), with_url("https://img"));
}

#[test]
fn embed_without_url_is_kept_without_one() {
    for text in [
        r#"{}"#,
        r#"{"castId": {"fid": 1, "hash": "0x01"}}"#,
        r#"{"url": null}"#,
        r#"{"url": 7}"#,
        r#"{"url": ["https://img"]}"#,
        r#"{"URL": "https://img"}"#,
        r#"null"#,
        r#""https://img""#,
        r#"["url"]"#,
    ] {
        assert_eq!(embed_of(&object(text)), Embed { url: None }, "for {}", text);
    }
}

#[test]
fn embeds_keep_their_order_and_number() {
    let answer = EmbedsData {
        casts: vec![record(&[
            r#"{"url": "https://one"}"#,
            r#"{"castId": {"fid": 1}}"#,
            r#"{"url": "https://three"}"#,
            r#"{"url": "https://one"}"#,
        ])],
        replies: vec![],
    };
    assert_eq!(
        extract_embeds(&answer),
        Some(vec![
            with_url("https://one"),
            Embed { url: None },
            with_url("https://three"),
            with_url("https://one"),
        ])
    );
}

#[test]
fn only_the_first_record_counts() {
    let answer = EmbedsData {
        casts: vec![record(&[r#"{"url": "https://first"}"#]), record(&[r#"{"url": "https://second"}"#])],
        replies: vec![],
    };
    assert_eq!(extract_embeds(&answer), Some(vec![with_url("https://first")]));
}

#[test]
fn cast_is_preferred_over_reply() {
    let answer = EmbedsData {
        casts: vec![record(&[r#"{"url": "https://cast"}"#])],
        replies: vec![record(&[r#"{"url": "https://reply"}"#])],
    };
    assert_eq!(extract_embeds(&answer), Some(vec![with_url("https://cast")]));
}

#[test]
fn reply_is_taken_without_a_cast() {
    let answer =
        EmbedsData { casts: vec![], replies: vec![record(&[r#"{"url": "https://reply"}"#])] };
    assert_eq!(extract_embeds(&answer), Some(vec![with_url("https://reply")]));
}

#[test]
fn record_without_embeds_gives_an_empty_list() {
    let answer = EmbedsData { casts: vec![record(&[])], replies: vec![] };
    assert_eq!(extract_embeds(&answer), Some(vec![]));
}

#[test]
fn answer_without_records_gives_nothing() {
    let answer = EmbedsData { casts: vec![], replies: vec![] };
    assert_eq!(extract_embeds(&answer), None);
    let answer = EmbedsData { casts: vec![], replies: vec![] };
    assert_eq!(embeds_response(Ok(Some(answer))), Ok(None));
}

#[test]
fn answer_without_data_gives_nothing() {
    assert_eq!(embeds_response(Ok(None)), Ok(None));
}

#[test]
fn failed_embeds_query_is_an_internal_error_without_detail() {
    let reply =
        ErrorReply { status: Status::InternalServerError, error: "Internal server error".to_string() };
    assert_eq!(reply.status.code(), 500);
    assert_eq!(embeds_response(Err("tls handshake: secret".to_string())), Err(reply));
}
