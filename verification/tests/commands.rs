use altpay::commands::{
    altpay_method, pay_order, penalty_order, probe, probe_order, set_penalty, PayOrder, Penalty,
    PenaltyFault, ProbeOrder,
};
use altpay::invoice::{InvoiceData, InvoiceFault};
use altpay::params::{probe_parameters, RouteParameters};

fn json(text: &str) -> serde_json::Value {
    serde_json::from_str(text).unwrap()
}

const KEY: &str = "031b84c5567b126440995d3ed5aaba0565d71e1834604819ff9c17f5e9d5dd078f";

fn key_bytes() -> Vec<u8> {
    (0..33).map(|i| u8::from_str_radix(&KEY[2 * i..2 * i + 2], 16).unwrap()).collect()
}

fn go(order: ProbeOrder) -> RouteParameters {
    match order {
        ProbeOrder::Go { params } => params,
        other => panic!("{:?}", other),
    }
}

fn refusal(order: ProbeOrder) -> String {
    match order {
        ProbeOrder::Refused { reply } => reply,
        other => panic!("{:?}", other),
    }
}

#[test]
fn a_probe_of_a_node() {
    let p = go(probe(&json(&format!("[\"{}\"]", KEY)), 4000, 2, &vec![1, 2]));
    assert_eq!(p.payment_params.payee_pubkey, key_bytes());
    assert_eq!(p.payment_params.features, Some(vec![0, 3, 2, 130, 0]));
    assert!(p.payment_params.route_hints.is_empty());
    assert_eq!(p.payment_params.expiry_time, None);
    assert_eq!(p.payment_params.max_total_cltv_expiry_delta, 1008);
    assert_eq!(p.payment_params.max_path_count, 10);
    assert_eq!(p.payment_params.max_channel_saturation_power_of_half, 2);
    assert_eq!(p.payment_params.previously_failed_channels, vec![1, 2]);
    assert_eq!(p.final_value_msat, 4000);
    assert_eq!(p.final_cltv_expiry_delta, 18);
}

#[test]
fn the_amount_of_a_probe() {
    let with = |amount: &str| {
        go(probe(&json(&format!("[\"{}\",{}]", KEY, amount)), 4000, 2, &vec![])).final_value_msat
    };
    assert_eq!(with("17"), 17);
    assert_eq!(with("0"), 0);
    assert_eq!(with("18446744073709551615"), u64::MAX);
    assert_eq!(with("\"17\""), 4000);
    assert_eq!(with("-17"), 4000);
    assert_eq!(with("17.0"), 4000);
    assert_eq!(with("null"), 4000);
}

#[test]
fn refused_probes() {
    for text in ["[]", "null", "{}", "[5]", "[null]", "{\"0\":\"x\"}", "\"x\""] {
        assert_eq!(
            refusal(probe(&json(text), 1, 2, &vec![])),
            "no pub key given as first argument"
        );
    }
    for text in ["[\"\"]", "[\"02\"]", "[\"nonsense\", 5]"] {
        assert_eq!(refusal(probe(&json(text), 1, 2, &vec![])), "malformed public key");
    }
}

#[test]
fn probe_orders_from_values() {
    assert_eq!(
        refusal(probe_order(None, Some(5), 1, 2, &vec![])),
        "no pub key given as first argument"
    );
    assert_eq!(
        refusal(probe_order(Some(Err(String::from("bad"))), Some(5), 1, 2, &vec![])),
        "bad"
    );
    let p = go(probe_order(Some(Ok(vec![2; 33])), None, 1, 2, &vec![9]));
    assert_eq!((p.final_value_msat, p.payment_params.payee_pubkey), (1, vec![2; 33]));
}

#[test]
fn probe_features_match_the_router() {
    let p = probe_parameters(&vec![2; 33], 5, 1, &vec![]);
    let bytes = p.payment_params.features.unwrap();
    let read = <lightning::ln::features::InvoiceFeatures as lightning::util::ser::Readable>::read(
        &mut &bytes[..],
    )
    .unwrap();
    assert!(read == lightning::ln::features::InvoiceFeatures::from_le_bytes(vec![0, 130, 2]));
}

#[test]
fn a_penalty_is_read() {
    let p = set_penalty(&json(&format!("[\"{}\", 500]", KEY))).unwrap();
    assert_eq!(p.node, key_bytes());
    assert_eq!(p.amount, 500);
    let p = set_penalty(&json(&format!("[\"\\\"{}\\\"\", 0]", KEY))).unwrap();
    assert_eq!((p.node, p.amount), (key_bytes(), 0));
}

#[test]
fn faults_of_a_penalty() {
    assert!(matches!(set_penalty(&json("[]")), Err(PenaltyFault::NoKey)));
    assert!(matches!(set_penalty(&json("[3, 4]")), Err(PenaltyFault::NoKey)));
    match set_penalty(&json("[\"02\"]")) {
        Err(PenaltyFault::BadKey { error }) => assert_eq!(error, "malformed public key"),
        other => panic!("{:?}", other),
    }
    for amount in ["", ",-1", ",1.5", ",\"1\"", ",null"] {
        let args = json(&format!("[\"{}\"{}]", KEY, amount));
        assert!(matches!(set_penalty(&args), Err(PenaltyFault::NoAmount)));
    }
}

#[test]
fn penalties_from_values() {
    assert!(matches!(penalty_order(None, None), Err(PenaltyFault::NoKey)));
    assert!(matches!(
        penalty_order(Some(Err(String::from("x"))), None),
        Err(PenaltyFault::BadKey { .. })
    ));
    assert!(matches!(penalty_order(Some(Ok(vec![1])), None), Err(PenaltyFault::NoAmount)));
    let Penalty { node, amount } = penalty_order(Some(Ok(vec![1])), Some(2)).unwrap();
    assert_eq!((node, amount), (vec![1], 2));
}

fn pay_refusal(order: PayOrder) -> String {
    match order {
        PayOrder::Refused { reply } => reply,
        other => panic!("{:?}", other),
    }
}

#[test]
fn refused_payments() {
    for text in ["[]", "null", "{}", "\"lnbc1\""] {
        assert_eq!(pay_refusal(altpay_method(&json(text), 2)), "no invoice provided");
    }
    for text in ["[5]", "[null]", "[[\"x\"]]"] {
        assert!(matches!(altpay_method(&json(text), 2), PayOrder::NotText));
    }
    assert_eq!(pay_refusal(altpay_method(&json("[\"lnbc1\"]"), 2)), "error parsing invoice");
}

fn invoice() -> InvoiceData {
    InvoiceData {
        payee: None,
        signer: vec![9; 33],
        features: None,
        route_hints: vec![],
        expiry_secs: 1,
        timestamp_secs: 2,
        amount_msat: Some(3),
        payment_hash: vec![3; 32],
        payment_secret: vec![4; 32],
    }
}

#[test]
fn pay_orders_from_values() {
    let order = |i, p| pay_order(String::from("ln"), i, p);
    let params = || probe_parameters(&vec![2; 33], 5, 1, &vec![]);
    assert_eq!(
        pay_refusal(order(Err(InvoiceFault::Unparsable), Ok(params()))),
        "error parsing invoice"
    );
    assert_eq!(
        pay_refusal(order(Ok(invoice()), Err(InvoiceFault::Expired))),
        "invoice is expired"
    );
    for fault in [InvoiceFault::AmountOverflow, InvoiceFault::Invalid] {
        match order(Err(fault), Err(fault)) {
            PayOrder::Unusable { fault: f } => assert_eq!(f, fault),
            other => panic!("{:?}", other),
        }
    }
    for fault in [InvoiceFault::ExpiryOverflow, InvoiceFault::NoAmount] {
        match order(Ok(invoice()), Err(fault)) {
            PayOrder::Unusable { fault: f } => assert_eq!(f, fault),
            other => panic!("{:?}", other),
        }
    }
    match order(Ok(invoice()), Ok(params())) {
        PayOrder::Go { bolt11, invoice, params } => {
            assert_eq!(bolt11, "ln");
            assert_eq!(invoice.payment_hash, vec![3; 32]);
            assert_eq!(params.final_value_msat, 5);
        }
        other => panic!("{:?}", other),
    }
}
