use farcaster_gateway::resolver::{
    after_lookup, after_upstream, cache_key, cast_of, fetch_cast_from_neynar, lookup_url,
    CachedData, NeynarCast, ResolverStep, UpstreamAnswer,
};
use std::collections::HashMap;

const URL: &str = "https://warpcast.com/x/y";

fn document(text: &str) -> serde_json::Value {
    serde_json::from_str(text).unwrap()
}

fn cast(hash: &str) -> NeynarCast {
    NeynarCast { hash: hash.to_string() }
}

/// A cache in memory that can be switched off, and an upstream that counts
/// how often it is asked.
struct World {
    cache: HashMap<String, CachedData<NeynarCast>>,
    cache_works: bool,
    answer: fn() -> UpstreamAnswer,
    asked: usize,
}

fn resolve(world: &mut World, url: &str, now: u64) -> Result<Option<NeynarCast>, String> {
    let mut step = fetch_cast_from_neynar(url);
    loop {
        step = match step {
            ResolverStep::Lookup { key } => {
                let cached = if world.cache_works { world.cache.get(&key).cloned() } else { None };
                after_lookup(url, cached)
            }
            ResolverStep::Ask { url: address } => {
                assert_eq!(address, lookup_url(url));
                world.asked += 1;
                after_upstream(url, (world.answer)(), now)
            }
            ResolverStep::Store { key, record, resolved } => {
                if world.cache_works {
                    world.cache.insert(key, record);
                }
                return Ok(Some(resolved));
            }
            ResolverStep::Done(outcome) => return outcome,
        }
    }
}

fn found() -> UpstreamAnswer {
    UpstreamAnswer::Body(document(r#"{"cast": {"hash": "0xfeed", "text": "gm"}}"#))
}

fn found_other() -> UpstreamAnswer {
    UpstreamAnswer::Body(document(r#"{"cast": {"hash": "0xother"}}"#))
}

fn unreachable_upstream() -> UpstreamAnswer {
    UpstreamAnswer::Failed("connection refused".to_string())
}

#[test]
fn cache_key_is_the_prefix_and_the_url() {
    assert_eq!(cache_key(URL), "neynarCast/url/https://warpcast.com/x/y");
    assert_eq!(cache_key(""), "neynarCast/url/");
}

#[test]
fn cache_keys_of_different_urls_differ() {
    assert_ne!(cache_key("https://warpcast.com/a"), cache_key("https://warpcast.com/b"));
}

#[test]
fn lookup_url_carries_the_cast_url_as_it_is() {
    assert_eq!(
        lookup_url(URL),
        "https://api.neynar.com/v2/farcaster/cast?identifier=https://warpcast.com/x/y&type=url"
    );
}

#[test]
fn resolution_begins_with_the_cache() {
    assert_eq!(
        fetch_cast_from_neynar(URL),
        ResolverStep::Lookup { key: "neynarCast/url/https://warpcast.com/x/y".to_string() }
    );
}

#[test]
fn cache_hit_ends_the_resolution() {
    let cached = CachedData { data: cast("0xfeed"), timestamp: 1_700_000_000 };
    assert_eq!(after_lookup(URL, Some(cached)), ResolverStep::Done(Ok(Some(cast("0xfeed")))));
}

#[test]
fn cached_record_never_expires() {
    let ancient = CachedData { data: cast("0xfeed"), timestamp: 0 };
    assert_eq!(after_lookup(URL, Some(ancient)), ResolverStep::Done(Ok(Some(cast("0xfeed")))));
}

#[test]
fn cache_miss_asks_the_upstream() {
    assert_eq!(after_lookup(URL, None), ResolverStep::Ask { url: lookup_url(URL) });
}

#[test]
fn resolved_cast_is_stored_with_the_time() {
    let step = after_upstream(URL, found(), 1_720_000_123);
    assert_eq!(
        step,
        ResolverStep::Store {
            key: cache_key(URL),
            record: CachedData { data: cast("0xfeed"), timestamp: 1_720_000_123 },
            resolved: cast("0xfeed"),
        }
    );
}

#[test]
fn refusal_means_no_such_cast() {
    assert_eq!(after_upstream(URL, UpstreamAnswer::Refused, 5), ResolverStep::Done(Ok(None)));
}

#[test]
fn transport_failure_is_passed_on() {
    assert_eq!(
        after_upstream(URL, unreachable_upstream(), 5),
        ResolverStep::Done(Err("connection refused".to_string()))
    );
}

#[test]
fn document_without_cast_means_no_such_cast() {
    for text in [
        r#"{}"#,
        r#"{"cast": null}"#,
        r#"{"cast": {}}"#,
        r#"{"cast": {"hash": null}}"#,
        r#"{"cast": {"hash": 17}}"#,
        r#"{"cast": "0xfeed"}"#,
        r#"{"hash": "0xfeed"}"#,
        r#"["cast"]"#,
        r#""cast""#,
    ] {
        let step = after_upstream(URL, UpstreamAnswer::Body(document(text)), 5);
        assert_eq!(step, ResolverStep::Done(Ok(None)), "for {}", text);
    }
}

#[test]
fn cast_of_reads_the_hash() {
    assert_eq!(cast_of(&document(r#"{"cast": {"hash": "0xfeed"}}"#)), Some(cast("0xfeed")));
    assert_eq!(cast_of(&document(r#"{"cast": {"hash": ""}}"#)), Some(cast("")));
    assert_eq!(cast_of(&document(r#"{"cast": {"Hash": "0xfeed"}}"#)), None);
}

#[test]
fn second_resolution_comes_from_the_cache() {
    let mut world = World { cache: HashMap::new(), cache_works: true, answer: found, asked: 0 };
    let first = resolve(&mut world, URL, 100);
    assert_eq!(first, Ok(Some(cast("0xfeed"))));
    assert_eq!(world.asked, 1);
    world.answer = found_other;
    let second = resolve(&mut world, URL, 200);
    assert_eq!(second, first);
    assert_eq!(world.asked, 1);
}

#[test]
fn stored_record_is_read_back_unchanged() {
    let mut world = World { cache: HashMap::new(), cache_works: true, answer: found, asked: 0 };
    resolve(&mut world, URL, 1_720_000_123).unwrap();
    assert_eq!(
        world.cache.get(&cache_key(URL)),
        Some(&CachedData { data: cast("0xfeed"), timestamp: 1_720_000_123 })
    );
    assert_eq!(world.cache.len(), 1);
}

#[test]
fn other_url_is_not_served_from_the_cache() {
    let mut world = World { cache: HashMap::new(), cache_works: true, answer: found, asked: 0 };
    resolve(&mut world, URL, 100).unwrap();
    world.answer = found_other;
    let other = resolve(&mut world, "https://warpcast.com/x/z", 200);
    assert_eq!(other, Ok(Some(cast("0xother"))));
    assert_eq!(world.asked, 2);
}

#[test]
fn resolution_works_without_a_cache() {
    let mut world = World { cache: HashMap::new(), cache_works: false, answer: found, asked: 0 };
    assert_eq!(resolve(&mut world, URL, 100), Ok(Some(cast("0xfeed"))));
    assert_eq!(resolve(&mut world, URL, 200), Ok(Some(cast("0xfeed"))));
    assert_eq!(world.asked, 2);
    assert!(world.cache.is_empty());
}

#[test]
fn nothing_is_stored_when_nothing_is_resolved() {
    let mut world =
        World { cache: HashMap::new(), cache_works: true, answer: unreachable_upstream, asked: 0 };
    assert_eq!(resolve(&mut world, URL, 100), Err("connection refused".to_string()));
    assert!(world.cache.is_empty());
    world.answer = || UpstreamAnswer::Refused;
    assert_eq!(resolve(&mut world, URL, 100), Ok(None));
    assert!(world.cache.is_empty());
    assert_eq!(world.asked, 2);
}
