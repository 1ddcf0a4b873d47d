use altpay::payments::{
    failure_notice, sent_id, FailureNotice, FailureVerdict, Payment, PlugState, RetryDecision,
};
use altpay::route::RouteHop;

fn json(text: &str) -> serde_json::Value {
    serde_json::from_str(text).unwrap()
}

fn path(scids: &[u64]) -> Vec<RouteHop> {
    scids
        .iter()
        .map(|scid| RouteHop {
            pubkey: vec![2; 33],
            node_features: vec![],
            short_channel_id: *scid,
            channel_features: vec![],
            fee_msat: 1,
            cltv_expiry_delta: 1,
        })
        .collect()
}

fn scids(path: &[RouteHop]) -> Vec<u64> {
    path.iter().map(|h| h.short_channel_id).collect()
}

const PROBE: &str = "0a0a0a0a0a0a0a0a0a0a0a0a0a0a0a0a0a0a0a0a0a0a0a0a0a0a0a0a0a0a0a0a";

fn failure(id: &str, hash: &str, channel: &str, bolt11: &str) -> serde_json::Value {
    json(&format!(
        "{{\"sendpay_failure\":{{\"code\":204,\"data\":{{\"id\":{},\"payment_hash\":\"{}\",\
         \"erring_channel\":\"{}\",\"bolt11\":\"{}\"}}}}}}",
        id, hash, channel, bolt11
    ))
}

#[test]
fn notices_are_read_without_quotes() {
    let n = failure_notice(&failure("17", "00ff", "1x2x3", "lnbc1"));
    assert_eq!(n.id, "17");
    assert_eq!(n.payment_hash, "00ff");
    assert_eq!(n.erring_channel, "1x2x3");
    assert_eq!(n.bolt11, "lnbc1");
}

#[test]
fn what_is_missing_reads_as_null() {
    for text in ["{}", "null", "[]", "3", "{\"sendpay_failure\":{}}", "{\"sendpay_failure\":{\"data\":7}}"] {
        let n = failure_notice(&json(text));
        assert_eq!(n.id, "null");
        assert_eq!(n.bolt11, "null");
        assert_eq!(sent_id(&json(text)), "null");
    }
    assert_eq!(sent_id(&json("{\"result\":{\"id\":null}}")), "null");
}

#[test]
fn members_of_every_kind_have_a_text() {
    let id = |text: &str| sent_id(&json(&format!("{{\"result\":{{\"id\":{}}}}}", text)));
    assert_eq!(id("5"), "5");
    assert_eq!(id("18446744073709551615"), "18446744073709551615");
    assert_eq!(id("-5"), "-5");
    assert_eq!(id("5.0"), "5.0");
    assert_eq!(id("true"), "true");
    assert_eq!(id("\"abc\""), "abc");
    assert_eq!(id("\"a\\\"b\""), "a\\b");
    assert_eq!(id("\"a\\nb\""), "a\\nb");
    assert_eq!(id("\"\\u0001\""), "\\u0001");
    assert_eq!(id("[1, \"x\"]"), "[1,x]");
    assert_eq!(id("{\"k\": \"v\"}"), "{k:v}");
}

#[test]
fn a_part_that_was_sent_is_found_again() {
    let mut s = PlugState::new();
    assert!(s.sent_path("1").is_none());
    s.record_answer(&json("{\"method\":\"sendpay\",\"result\":{\"id\":1}}"), &path(&[10, 11]), 500);
    s.record_sent(String::from("2"), &path(&[20]), 500);
    assert_eq!(scids(&s.sent_path("1").unwrap()), vec![10, 11]);
    assert_eq!(scids(&s.sent_path("2").unwrap()), vec![20]);
    assert!(s.sent_path("3").is_none());
    s.record_sent(String::from("2"), &path(&[21]), 500);
    assert_eq!(scids(&s.sent_path("2").unwrap()), vec![21]);
    assert_eq!(scids(&s.sent_path("1").unwrap()), vec![10, 11]);
}

#[test]
fn an_arrival_credits_its_path() {
    let mut s = PlugState::new();
    s.record_answer(&json("{\"result\":{\"id\":1}}"), &path(&[10]), 500);
    let got = s.success(&json("{\"sendpay_success\":{\"id\":1}}")).unwrap();
    assert_eq!(scids(&got), vec![10]);
    assert!(s.success(&json("{\"sendpay_success\":{\"id\":2}}")).is_none());
    assert!(s.success(&json("{}")).is_none());
}

#[test]
fn a_foreign_failure_is_ignored() {
    let s = PlugState::new();
    let v = failure("1", "00", "1x2x3", "lnbc1");
    assert!(matches!(s.retry(&v, &vec![10; 32]), FailureVerdict::NotOurs));
    let probe = failure("1", PROBE, "1x2x3", "lnbc1");
    assert!(matches!(s.retry(&probe, &vec![10; 32]), FailureVerdict::NotOurs));
}

#[test]
fn a_failed_probe_is_recognised_by_its_hash() {
    let mut s = PlugState::new();
    s.record_sent(String::from("1"), &path(&[10, 11, 12]), 500);
    let v = failure("1", PROBE, "1x2x3", "Probe");
    match s.retry(&v, &vec![10; 32]) {
        FailureVerdict::Probe { route_len, sent_at } => {
            assert_eq!(route_len, 3);
            assert_eq!(sent_at, 500);
        }
        other => panic!("{:?}", other),
    }
    s.record_sent(String::from("1"), &path(&[10]), 777);
    match s.retry(&v, &vec![10; 32]) {
        FailureVerdict::Probe { route_len, sent_at } => {
            assert_eq!(route_len, 1);
            assert_eq!(sent_at, 777);
        }
        other => panic!("{:?}", other),
    }
    assert!(matches!(s.retry(&v, &vec![11; 32]), FailureVerdict::Failed { .. }));
}

#[test]
fn a_failed_payment_names_its_path_and_channel() {
    let mut s = PlugState::new();
    s.record_sent(String::from("1"), &path(&[10, 11]), 500);
    match s.retry(&failure("1", "00", "1x2x3", "lnbc1"), &vec![10; 32]) {
        FailureVerdict::Failed { bolt11, path, channel } => {
            assert_eq!(bolt11, "lnbc1");
            assert_eq!(scids(&path), vec![10, 11]);
            assert_eq!(channel, Some((1u64 << 40) | (2 << 16) | 3));
        }
        other => panic!("{:?}", other),
    }
    let odd = FailureNotice {
        id: String::from("1"),
        payment_hash: String::from("00"),
        erring_channel: String::from("null"),
        bolt11: String::from("lnbc1"),
    };
    match s.classify_failure(&odd, &String::from(PROBE)) {
        FailureVerdict::Failed { channel, .. } => assert_eq!(channel, None),
        other => panic!("{:?}", other),
    }
}

#[test]
fn a_payment_is_tried_again_eight_times() {
    let mut s = PlugState::new();
    s.record_payment("lnbc1", 1000, 123, 77, &vec![5; 32]);
    s.record_payment("lnbc2", 2000, 124, 78, &vec![6; 32]);
    assert_eq!(s.retry_count("lnbc1"), Some(0));
    assert_eq!(s.retry_count("lnbc3"), None);
    for k in 1..=8u8 {
        match s.record_failure("lnbc1", 100 + k as u64) {
            RetryDecision::Retry { payment } => {
                let Payment {
                    bolt11,
                    total_amount,
                    failed_channels,
                    created_at,
                    retry_count,
                    groupid,
                    payment_secret,
                } = payment;
                assert_eq!(bolt11, "lnbc1");
                assert_eq!(total_amount, 1000);
                assert_eq!(failed_channels, (101..=100 + k as u64).collect::<Vec<u64>>());
                assert_eq!(created_at, 123);
                assert_eq!(retry_count, k);
                assert_eq!(groupid, 77);
                assert_eq!(payment_secret, vec![5; 32]);
            }
            other => panic!("{:?}", other),
        }
    }
    match s.record_failure("lnbc1", 109) {
        RetryDecision::GiveUp { retries } => assert_eq!(retries, 9),
        other => panic!("{:?}", other),
    }
    match s.record_failure("lnbc1", 110) {
        RetryDecision::GiveUp { retries } => assert_eq!(retries, 10),
        other => panic!("{:?}", other),
    }
    assert_eq!(s.retry_count("lnbc1"), Some(10));
    assert_eq!(s.retry_count("lnbc2"), Some(0));
}

#[test]
fn a_payment_that_is_made_again_starts_afresh() {
    let mut s = PlugState::new();
    s.record_payment("lnbc1", 1000, 123, 77, &vec![5; 32]);
    s.record_failure("lnbc1", 1);
    s.record_payment("lnbc1", 1000, 200, 80, &vec![5; 32]);
    assert_eq!(s.retry_count("lnbc1"), Some(0));
    assert!(s.failed_channels().is_empty());
}

#[test]
fn a_payment_lists_a_channel_for_each_failure() {
    let mut s = PlugState::new();
    s.record_payment("lnbc1", 1000, 123, 77, &vec![5; 32]);
    s.record_failure("lnbc1", 7);
    s.record_sent(String::from("1"), &path(&[10]), 500);
    s.record_payment("lnbc2", 1000, 124, 78, &vec![5; 32]);
    s.record_failure("lnbc2", 8);
    match s.record_failure("lnbc1", 9) {
        RetryDecision::Retry { payment } => {
            assert_eq!(payment.bolt11, "lnbc1");
            assert_eq!(payment.failed_channels, vec![7, 9]);
            assert_eq!(payment.failed_channels.len(), payment.retry_count as usize);
        }
        other => panic!("{:?}", other),
    }
}
