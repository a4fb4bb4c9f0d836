use farcaster_gateway::cast_request::{CastEmbedsRequestQuery, CastStep, CastType};
use farcaster_gateway::config::Config;
use farcaster_gateway::cast_earnings::{
    creator_fid, earnings_response, extract_cast_earnings_response, fid_or_default,
    get_cast_earnings, AirstackFarcasterCastCastedBy, AirstackFarcasterCastChannel,
    AirstackFarcasterCastEarnings, AirstackFarcasterCastEarningsDataResponse,
    AirstackFarcasterCastEarningsPayload, CastEarningsResponse, ChannelInfo, CreatorInfo,
};
use farcaster_gateway::earnings::{
    accumulate, classify, AirstackFarcasterCastMoxieEarningsSplit, EarnerType, Earnings,
};
use farcaster_gateway::reply::{ErrorReply, Status};

fn config() -> Config {
    Config { api_key: "s3cret".to_string(), airstack_api_key: "upstream-token".to_string() }
}

fn plus(a: f64, b: f64) -> f64 {
    a + b
}

fn split<A>(amount: A, label: &str) -> AirstackFarcasterCastMoxieEarningsSplit<A> {
    AirstackFarcasterCastMoxieEarningsSplit { earnings_amount: amount, earner_type: label.to_string() }
}

fn record(
    user_id: &str,
    fnames: &[&str],
    splits: Vec<AirstackFarcasterCastMoxieEarningsSplit<f64>>,
) -> AirstackFarcasterCastEarnings<f64> {
    AirstackFarcasterCastEarnings {
        casted_by: AirstackFarcasterCastCastedBy {
            user_id: user_id.to_string(),
            profile_image: Some("https://avatar".to_string()),
            fnames: fnames.iter().map(|name| name.to_string()).collect(),
        },
        channel: None,
        moxie_earnings_split: splits,
    }
}

fn casts(
    records: Vec<AirstackFarcasterCastEarnings<f64>>,
) -> Option<AirstackFarcasterCastEarningsPayload<f64>> {
    Some(AirstackFarcasterCastEarningsPayload { cast: Some(records), reply: None })
}

fn replies(
    records: Vec<AirstackFarcasterCastEarnings<f64>>,
) -> Option<AirstackFarcasterCastEarningsPayload<f64>> {
    Some(AirstackFarcasterCastEarningsPayload { cast: None, reply: Some(records) })
}

#[test]
fn cast_earnings_without_identifier_is_invalid() {
    let params =
        CastEmbedsRequestQuery { cast_hash: None, cast_url: None, cast_type: Some(CastType::Cast) };
    let step = get_cast_earnings(&config(), Some("s3cret"), &params);
    let reply = ErrorReply { status: Status::BadRequest, error: "Invalid parameters".to_string() };
    assert_eq!(reply.status.code(), 400);
    assert_eq!(step, CastStep::Reject(reply));
}

#[test]
fn labels_name_their_categories() {
    assert_eq!(classify("CHANNEL_FANS"), Some(EarnerType::ChannelFans));
    assert_eq!(classify("CREATOR"), Some(EarnerType::Creator));
    assert_eq!(classify("NETWORK"), Some(EarnerType::Network));
    assert_eq!(classify("CREATOR_FANS"), Some(EarnerType::CreatorFans));
}

#[test]
fn other_labels_name_no_category() {
    for label in ["", "creator", "CREATOR ", "CREATORS", "CHANNEL", "FANS", "UNKNOWN"] {
        assert_eq!(classify(label), None, "for {:?}", label);
    }
}

#[test]
fn earnings_start_at_zero() {
    let earnings = Earnings::new(0.0);
    assert_eq!(
        earnings,
        Earnings { channel_fans: 0.0, creator: 0.0, network: 0.0, creator_fans: 0.0, total: 0.0 }
    );
}

#[test]
fn add_puts_the_amount_in_its_bucket_and_in_the_total() {
    let mut earnings = Earnings::new(0.0);
    earnings.add(&split(1.5, "NETWORK"), &plus);
    assert_eq!(
        earnings,
        Earnings { channel_fans: 0.0, creator: 0.0, network: 1.5, creator_fans: 0.0, total: 1.5 }
    );
    earnings.add(&split(2.25, "CHANNEL_FANS"), &plus);
    earnings.add(&split(0.25, "NETWORK"), &plus);
    assert_eq!(
        earnings,
        Earnings { channel_fans: 2.25, creator: 0.0, network: 1.75, creator_fans: 0.0, total: 4.0 }
    );
}

#[test]
fn add_counts_an_unknown_label_in_the_total_only() {
    let mut earnings = Earnings::new(0.0);
    earnings.add(&split(3.0, "SOMETHING_NEW"), &plus);
    assert_eq!(
        earnings,
        Earnings { channel_fans: 0.0, creator: 0.0, network: 0.0, creator_fans: 0.0, total: 3.0 }
    );
}

#[test]
fn total_is_the_sum_of_all_splits() {
    let splits = vec![
        split(1.0, "CREATOR"),
        split(2.0, "CHANNEL_FANS"),
        split(4.0, "NOBODY"),
        split(8.0, "NETWORK"),
        split(16.0, "CREATOR_FANS"),
        split(32.0, "CREATOR"),
        split(64.0, ""),
    ];
    let earnings = accumulate(&splits, 0.0, &plus);
    assert_eq!(earnings.total, 127.0);
    assert_eq!(earnings.creator, 33.0);
    assert_eq!(earnings.channel_fans, 2.0);
    assert_eq!(earnings.network, 8.0);
    assert_eq!(earnings.creator_fans, 16.0);
}

#[test]
fn total_is_summed_in_the_order_of_the_splits() {
    let splits = vec![split(1e16, "CREATOR"), split(1.0, "NETWORK"), split(-1e16, "CREATOR")];
    let earnings = accumulate(&splits, 0.0, &plus);
    assert_eq!(earnings.total, ((0.0 + 1e16) + 1.0) + -1e16);
    assert_eq!(earnings.creator, (0.0 + 1e16) + -1e16);
    assert_eq!(earnings.network, 1.0);
}

#[test]
fn total_of_whole_amounts_is_exact() {
    let add = |a: u64, b: u64| a + b;
    let splits = vec![split(5u64, "CREATOR"), split(7, "WHOEVER"), split(11, "CREATOR_FANS")];
    let earnings = accumulate(&splits, 0, &add);
    assert_eq!(
        earnings,
        Earnings { channel_fans: 0, creator: 5, network: 0, creator_fans: 11, total: 23 }
    );
}

#[test]
fn no_splits_leave_every_bucket_at_zero() {
    let splits: Vec<AirstackFarcasterCastMoxieEarningsSplit<f64>> = Vec::new();
    assert_eq!(accumulate(&splits, 0.0, &plus), Earnings::new(0.0));
}

#[test]
fn user_id_is_read_as_a_number() {
    assert_eq!(creator_fid("602"), 602);
    assert_eq!(creator_fid("-3"), -3);
    assert_eq!(creator_fid("+8"), 8);
    assert_eq!(creator_fid("9223372036854775807"), i64::MAX);
}

#[test]
fn unreadable_user_id_counts_as_zero() {
    for user_id in ["", "abc", "12a", " 12", "1.5", "0x10", "9223372036854775808"] {
        assert_eq!(creator_fid(user_id), 0, "for {:?}", user_id);
    }
}

#[test]
fn parsed_user_id_or_zero() {
    assert_eq!(fid_or_default("41".parse::<i64>()), 41);
    assert_eq!(fid_or_default("forty-one".parse::<i64>()), 0);
}

#[test]
fn report_of_a_cast() {
    let mut cast = record(
        "602",
        &["alice", "alice.eth"],
        vec![split(10.0, "CREATOR"), split(2.5, "CHANNEL_FANS"), split(1.0, "MYSTERY")],
    );
    cast.channel = Some(AirstackFarcasterCastChannel {
        name: "memes".to_string(),
        image_url: Some("https://channel".to_string()),
    });
    let data = AirstackFarcasterCastEarningsDataResponse {
        farcaster_casts: casts(vec![cast]),
        farcaster_replies: None,
    };
    assert_eq!(
        extract_cast_earnings_response(data, 0.0, &plus),
        Some(CastEarningsResponse {
            earnings: Earnings {
                channel_fans: 2.5,
                creator: 10.0,
                network: 0.0,
                creator_fans: 0.0,
                total: 13.5,
            },
            creator: CreatorInfo {
                fid: 602,
                username: Some("alice".to_string()),
                profile_image: Some("https://avatar".to_string()),
            },
            channel: Some(ChannelInfo {
                name: "memes".to_string(),
                image_url: Some("https://channel".to_string()),
            }),
        })
    );
}

#[test]
fn report_without_handles_image_channel_or_splits() {
    let mut cast = record("not-a-number", &[], vec![]);
    cast.casted_by.profile_image = None;
    let data = AirstackFarcasterCastEarningsDataResponse {
        farcaster_casts: casts(vec![cast]),
        farcaster_replies: None,
    };
    assert_eq!(
        extract_cast_earnings_response(data, 0.0, &plus),
        Some(CastEarningsResponse {
            earnings: Earnings::new(0.0),
            creator: CreatorInfo { fid: 0, username: None, profile_image: None },
            channel: None,
        })
    );
}

#[test]
fn channel_without_image() {
    let mut cast = record("1", &["bob"], vec![]);
    cast.channel =
        Some(AirstackFarcasterCastChannel { name: "dev".to_string(), image_url: None });
    let data = AirstackFarcasterCastEarningsDataResponse {
        farcaster_casts: casts(vec![cast]),
        farcaster_replies: None,
    };
    let report = extract_cast_earnings_response(data, 0.0, &plus).unwrap();
    assert_eq!(report.channel, Some(ChannelInfo { name: "dev".to_string(), image_url: None }));
}

#[test]
fn cast_record_is_preferred_over_reply_record() {
    let data = AirstackFarcasterCastEarningsDataResponse {
        farcaster_casts: casts(vec![record("1", &["cast"], vec![]), record("3", &["later"], vec![])]),
        farcaster_replies: replies(vec![record("2", &["reply"], vec![])]),
    };
    let report = extract_cast_earnings_response(data, 0.0, &plus).unwrap();
    assert_eq!(report.creator.fid, 1);
    assert_eq!(report.creator.username, Some("cast".to_string()));
}

#[test]
fn reply_record_is_taken_without_a_cast_record() {
    for farcaster_casts in [
        None,
        Some(AirstackFarcasterCastEarningsPayload { cast: None, reply: None }),
        casts(vec![]),
    ] {
        let data = AirstackFarcasterCastEarningsDataResponse {
            farcaster_casts,
            farcaster_replies: replies(vec![record("2", &["reply"], vec![split(4.0, "CREATOR")])]),
        };
        let report = extract_cast_earnings_response(data, 0.0, &plus).unwrap();
        assert_eq!(report.creator.fid, 2);
        assert_eq!(report.earnings.total, 4.0);
    }
}

#[test]
fn records_under_the_wrong_field_do_not_count() {
    let data = AirstackFarcasterCastEarningsDataResponse {
        farcaster_casts: replies(vec![record("1", &["a"], vec![])]),
        farcaster_replies: casts(vec![record("2", &["b"], vec![])]),
    };
    assert_eq!(extract_cast_earnings_response(data, 0.0, &plus), None);
}

#[test]
fn answer_without_records_reports_nothing() {
    let data = AirstackFarcasterCastEarningsDataResponse {
        farcaster_casts: casts(vec![]),
        farcaster_replies: replies(vec![]),
    };
    assert_eq!(extract_cast_earnings_response(data, 0.0, &plus), None);
    let data: AirstackFarcasterCastEarningsDataResponse<f64> =
        AirstackFarcasterCastEarningsDataResponse { farcaster_casts: None, farcaster_replies: None };
    assert_eq!(earnings_response(Ok(Some(data)), 0.0, &plus), Ok(None));
}

#[test]
fn earnings_answer_without_data_reports_nothing() {
    let outcome: Result<Option<AirstackFarcasterCastEarningsDataResponse<f64>>, String> = Ok(None);
    assert_eq!(earnings_response(outcome, 0.0, &plus), Ok(None));
}

#[test]
fn earnings_answer_with_data_is_reported() {
    let data = AirstackFarcasterCastEarningsDataResponse {
        farcaster_casts: casts(vec![record("7", &["carol"], vec![split(0.5, "NETWORK")])]),
        farcaster_replies: None,
    };
    let report = earnings_response(Ok(Some(data)), 0.0, &plus).unwrap().unwrap();
    assert_eq!(report.creator.fid, 7);
    assert_eq!(report.earnings.network, 0.5);
    assert_eq!(report.earnings.total, 0.5);
}

#[test]
fn failed_earnings_query_is_an_internal_error_with_its_cause() {
    let outcome: Result<Option<AirstackFarcasterCastEarningsDataResponse<f64>>, String> =
        Err("error decoding response body".to_string());
    assert_eq!(
        earnings_response(outcome, 0.0, &plus),
        Err(ErrorReply {
            status: Status::InternalServerError,
            error: "error decoding response body".to_string(),
        })
    );
}
