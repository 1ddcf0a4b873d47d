use altpay::invoice::{InvoiceData, InvoiceFault};
use altpay::payments::{Payment, PlugState, RetryDecision};
use altpay::route::{get_total_amount, RouteHop};
use altpay::send::{
    begin_payment, get_and_send_route, probe_requests, retry_params, retry_pay, sendpay_request,
    SendpayRequest,
};

fn hop(node: u8, scid: u64, fee_msat: u64, cltv_expiry_delta: u32) -> RouteHop {
    RouteHop {
        pubkey: vec![node; 33],
        node_features: vec![],
        short_channel_id: scid,
        channel_features: vec![],
        fee_msat,
        cltv_expiry_delta,
    }
}

fn two_paths() -> Vec<Vec<RouteHop>> {
    vec![
        vec![hop(1, 1, 5, 40), hop(3, 2, 600, 18)],
        vec![hop(2, 3, 7, 30), hop(4, 4, 2, 20), hop(3, 5, 400, 18)],
    ]
}

fn invoice() -> InvoiceData {
    InvoiceData {
        payee: None,
        signer: vec![3; 33],
        features: None,
        route_hints: vec![],
        expiry_secs: 1,
        timestamp_secs: 2,
        amount_msat: Some(1000),
        payment_hash: vec![6; 32],
        payment_secret: vec![7; 32],
    }
}

fn check(requests: &[SendpayRequest], hash: u8, secret: u8, bolt11: &str, total: u64) -> u64 {
    assert_eq!(requests.len(), 2);
    let group = requests[0].groupid.unwrap();
    for r in requests {
        assert_eq!(r.payment_hash, vec![hash; 32]);
        assert_eq!(r.payment_secret, Some(vec![secret; 32]));
        assert_eq!(r.bolt11, Some(String::from(bolt11)));
        assert_eq!(r.amount_msat, Some(total));
        assert_eq!(r.label, None);
        assert_eq!(r.localinvreqid, None);
        assert_eq!(r.groupid, Some(group));
        assert!(r.partid.is_some());
    }
    assert_eq!(requests[0].route[0].amount_msat, 605);
    assert_eq!(requests[0].route[0].delay, 58);
    assert_eq!(requests[1].route.len(), 3);
    assert_eq!(requests[1].route[0].amount_msat, 409);
    assert_eq!(requests[1].route[2].amount_msat, 400);
    group
}

#[test]
fn one_request_for_each_path() {
    let r = get_and_send_route(&two_paths(), &vec![6; 32], &vec![7; 32], "lnbc1", 99, 1000);
    assert_eq!(check(&r, 6, 7, "lnbc1", 1000), 99);
    assert!(get_and_send_route(&vec![], &vec![], &vec![], "x", 1, 1).is_empty());
}

#[test]
fn a_single_request() {
    let r = sendpay_request(&two_paths()[0], &vec![6; 32], &vec![7; 32], "lnbc1", 99, 1000, 12);
    assert_eq!(r.partid, Some(12));
    assert_eq!(r.route[1].channel, "0x0x2");
    assert_eq!(r.route[1].id, vec![3; 33]);
}

#[test]
fn the_parts_add_up_to_the_payment() {
    let paths = two_paths();
    let total = get_total_amount(&paths).unwrap();
    let r = get_and_send_route(&paths, &vec![6; 32], &vec![7; 32], "lnbc1", 99, total);
    let arrives: u64 = r.iter().map(|q| q.route.last().unwrap().amount_msat).sum();
    assert_eq!(arrives, total);
    assert_eq!(total, 1000);
}

#[test]
fn numbers_of_parts_are_drawn_by_chance() {
    let paths: Vec<Vec<RouteHop>> = (0..64).map(|_| vec![hop(1, 1, 5, 4)]).collect();
    let r = get_and_send_route(&paths, &vec![6; 32], &vec![7; 32], "lnbc1", 99, 5);
    assert!(r.iter().any(|q| q.partid != r[0].partid));
}

#[test]
fn a_payment_and_its_second_try() {
    let mut state = PlugState::new();
    let r = begin_payment(&mut state, "lnbc1", &invoice(), &two_paths(), 1234);
    let group = check(&r, 6, 7, "lnbc1", 1000);
    assert_eq!(state.retry_count("lnbc1"), Some(0));
    let payment = match state.record_failure("lnbc1", 55) {
        RetryDecision::Retry { payment } => payment,
        other => panic!("{:?}", other),
    };
    assert_eq!(payment.groupid, group);
    assert_eq!(payment.total_amount, 1000);
    assert_eq!(payment.created_at, 1234);
    assert_eq!(payment.payment_secret, vec![7; 32]);
    assert_eq!(payment.failed_channels, vec![55]);
    let again = retry_pay(&payment, &invoice(), &two_paths());
    assert_eq!(check(&again, 6, 7, "lnbc1", 1000), group);
}

#[test]
fn groups_are_drawn_by_chance() {
    let mut state = PlugState::new();
    let a = begin_payment(&mut state, "a", &invoice(), &two_paths(), 1);
    let b = begin_payment(&mut state, "b", &invoice(), &two_paths(), 1);
    assert_ne!(a[0].groupid, b[0].groupid);
}

#[test]
fn a_probe_carries_its_own_hash_and_secret() {
    let r = probe_requests(&two_paths(), &vec![1; 32], 1000);
    check(&r, 1, 42, "Probe", 1000);
}

#[test]
fn a_payment_whose_invoice_is_none_cannot_be_tried_again() {
    let payment = Payment {
        bolt11: String::from("Probe"),
        total_amount: 1,
        failed_channels: vec![],
        created_at: 0,
        retry_count: 1,
        groupid: 1,
        payment_secret: vec![],
    };
    assert_eq!(retry_params(&payment, 2).unwrap_err(), InvoiceFault::Unparsable);
}
