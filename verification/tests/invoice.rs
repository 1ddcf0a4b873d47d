use altpay::invoice::{
    open_invoice, params_given, route_params_from_invoice, route_params_now, unpayable, InvoiceData,
    InvoiceFault,
};
use altpay::payments::Payment;
use altpay::send::retry_params;
use bitcoin::secp256k1::{PublicKey, Secp256k1, SecretKey};
use bitcoin_hashes::sha256;
use lightning::ln::PaymentSecret;
use lightning_invoice::{Currency, InvoiceBuilder, SignedRawInvoice};
use std::time::{Duration, SystemTime, UNIX_EPOCH};

const OLD: &str = "lnbc100p1psj9jhxdqud3jxktt5w46x7unfv9kz6mn0v3jsnp4q0d3p2sfluzdx45tqcs\
h2pu5qc7lgq0xs578ngs6s0s68ua4h7cvspp5q6rmq35js88zp5dvwrv9m459tnk2zunwj5jalqtyxqulh0l\
5gflssp5nf55ny5gcrfl30xuhzj3nphgj27rstekmr9fw3ny5989s300gyus9qyysgqcqpcrzjqw2sxwe993\
h5pcm4dxzpvttgza8zhkqxpgffcrf5v25nwpr3cmfg7z54kuqq8rgqqqqqqqq2qqqqq9qq9qrzjqd0ylaqcl\
j9424x9m8h2vcukcgnm6s56xfgu3j78zyqzhgs4hlpzvznlugqq9vsqqqqqqqlgqqqqqeqq9qrzjqwldmj9d\
ha74df76zhx6l9we0vjdquygcdt3kssupehe64g6yyp5yz5rhuqqwccqqyqqqqlgqqqqjcqq9qrzjqf9e58a\
guqr0rcun0ajlvmzq3ek63cw2w282gv3z5uupmuwvgjtq2z55qsqqg6qqqyqqqrtnqqqzq3cqygrzjqvphms\
ywntrrhqjcraumvc4y6r8v4z5v593trte429v4hredj7ms5z52usqq9ngqqqqqqqlgqqqqqqgq9qrzjq2v0v\
p62g49p7569ev48cmulecsxe59lvaw3wlxm7r982zxa9zzj7z5l0cqqxusqqyqqqqlgqqqqqzsqygarl9fh3\
8s0gyuxjjgux34w75dnc6xp2l35j7es3jd4ugt3lu0xzre26yg5m7ke54n2d5sym4xcmxtl8238xxvw5h5h5\
j5r6drg6k6zcqj0fcwg";

fn secret_key() -> SecretKey {
    SecretKey::from_slice(&[7; 32]).unwrap()
}

fn signer() -> Vec<u8> {
    PublicKey::from_secret_key(&Secp256k1::new(), &secret_key()).serialize().to_vec()
}

fn now_secs() -> u64 {
    SystemTime::now().duration_since(UNIX_EPOCH).unwrap().as_secs()
}

fn invoice_text(amount_msat: Option<u64>, made: u64, expiry: u64, payee: bool) -> String {
    let mut builder = InvoiceBuilder::new(Currency::Bitcoin)
        .description(String::from("coffee"))
        .payment_hash(<sha256::Hash as bitcoin_hashes::Hash>::from_slice(&[3; 32]).unwrap())
        .payment_secret(PaymentSecret([4; 32]))
        .duration_since_epoch(Duration::from_secs(made))
        .min_final_cltv_expiry(144)
        .expiry_time(Duration::from_secs(expiry));
    if let Some(amount) = amount_msat {
        builder = builder.amount_milli_satoshis(amount);
    }
    if payee {
        builder = builder.payee_pub_key(PublicKey::from_slice(&signer()).unwrap());
    }
    builder
        .build_signed(|hash| Secp256k1::new().sign_ecdsa_recoverable(hash, &secret_key()))
        .unwrap()
        .to_string()
}

fn data() -> InvoiceData {
    InvoiceData {
        payee: None,
        signer: vec![9; 33],
        features: Some(vec![0, 1, 8]),
        route_hints: vec![vec![1], vec![2, 3]],
        expiry_secs: 3600,
        timestamp_secs: 1000,
        amount_msat: Some(77),
        payment_hash: vec![3; 32],
        payment_secret: vec![4; 32],
    }
}

#[test]
fn an_invoice_is_read() {
    let made = now_secs();
    let text = invoice_text(Some(25_000), made, 600, false);
    let invoice = open_invoice(&text).unwrap();
    assert_eq!(invoice.payee, None);
    assert_eq!(invoice.signer, signer());
    assert_eq!(invoice.amount_msat, Some(25_000));
    assert_eq!(invoice.expiry_secs, 600);
    assert_eq!(invoice.timestamp_secs, made);
    assert_eq!(invoice.payment_hash, vec![3; 32]);
    assert_eq!(invoice.payment_secret, vec![4; 32]);
    assert_eq!(invoice.route_hints.len(), 0);
    assert_eq!(invoice.features, Some(vec![0, 2, 65, 0]));
}

#[test]
fn an_old_invoice_with_hints() {
    let invoice = open_invoice(OLD).unwrap();
    assert_eq!(invoice.amount_msat, Some(10));
    assert_eq!(invoice.route_hints.len(), 6);
    assert_eq!(invoice.payee.as_ref().unwrap().len(), 33);
    assert_eq!(invoice.payee, Some(invoice.signer.clone()));
    assert_eq!(
        route_params_now(OLD, 2, &vec![]).unwrap_err(),
        InvoiceFault::Expired
    );
}

#[test]
fn the_router_is_asked_for_the_invoice() {
    let made = now_secs();
    let text = invoice_text(Some(25_000), made, 600, true);
    let p = route_params_now(&text, 3, &vec![11, 12]).unwrap();
    assert_eq!(p.final_value_msat, 25_000);
    assert_eq!(p.final_cltv_expiry_delta, 18);
    assert_eq!(p.payment_params.payee_pubkey, signer());
    assert_eq!(p.payment_params.features, Some(vec![0, 2, 65, 0]));
    assert_eq!(p.payment_params.route_hints.len(), 0);
    assert_eq!(p.payment_params.expiry_time, Some(made + 600));
    assert_eq!(p.payment_params.max_total_cltv_expiry_delta, 1008);
    assert_eq!(p.payment_params.max_path_count, 10);
    assert_eq!(p.payment_params.max_channel_saturation_power_of_half, 3);
    assert_eq!(p.payment_params.previously_failed_channels, vec![11, 12]);
}

#[test]
fn what_is_no_invoice() {
    for text in ["", "lnbc", "Probe", &OLD[..100], &OLD.replace("cwg", "cwq")] {
        assert_eq!(open_invoice(text).unwrap_err(), InvoiceFault::Unparsable);
        assert_eq!(
            route_params_now(text, 2, &vec![]).unwrap_err(),
            InvoiceFault::Unparsable
        );
    }
}

#[test]
fn an_invoice_without_amount() {
    let text = invoice_text(None, now_secs(), 600, false);
    assert_eq!(open_invoice(&text).unwrap().amount_msat, None);
    assert_eq!(
        route_params_now(&text, 2, &vec![]).unwrap_err(),
        InvoiceFault::NoAmount
    );
}

#[test]
fn an_expired_invoice() {
    let text = invoice_text(Some(1000), now_secs() - 1000, 600, false);
    assert_eq!(
        route_params_now(&text, 2, &vec![]).unwrap_err(),
        InvoiceFault::Expired
    );
}

#[test]
fn an_expiry_beyond_time() {
    let text = invoice_text(Some(1000), now_secs(), u64::MAX, false);
    assert_eq!(
        route_params_now(&text, 2, &vec![]).unwrap_err(),
        InvoiceFault::ExpiryOverflow
    );
}

#[test]
fn the_signer_is_paid_where_no_payee_is_named() {
    let p = route_params_from_invoice(&data(), false, 2, &vec![5]).unwrap();
    assert_eq!(p.payment_params.payee_pubkey, vec![9; 33]);
    assert_eq!(p.payment_params.features, Some(vec![0, 1, 8]));
    assert_eq!(p.payment_params.route_hints, vec![vec![1], vec![2, 3]]);
    assert_eq!(p.payment_params.expiry_time, Some(4600));
    assert_eq!(p.payment_params.previously_failed_channels, vec![5]);
    assert_eq!(p.final_value_msat, 77);
    let mut named = data();
    named.payee = Some(vec![8; 33]);
    let p = route_params_from_invoice(&named, false, 2, &vec![]).unwrap();
    assert_eq!(p.payment_params.payee_pubkey, vec![8; 33]);
}

#[test]
fn faults_come_in_order() {
    let mut d = data();
    assert_eq!(params_given(&d, false, 2, &vec![]).unwrap().final_value_msat, 77);
    assert_eq!(params_given(&d, true, 2, &vec![]).unwrap_err(), InvoiceFault::Expired);
    d.amount_msat = None;
    assert_eq!(params_given(&d, false, 2, &vec![]).unwrap_err(), InvoiceFault::NoAmount);
    assert_eq!(params_given(&d, true, 2, &vec![]).unwrap_err(), InvoiceFault::Expired);
    d.expiry_secs = u64::MAX;
    assert_eq!(params_given(&d, false, 2, &vec![]).unwrap_err(), InvoiceFault::ExpiryOverflow);
    assert_eq!(params_given(&d, true, 2, &vec![]).unwrap_err(), InvoiceFault::Expired);
}

#[test]
fn what_makes_an_invoice_unpayable() {
    let mut d = data();
    assert_eq!(unpayable(&d), None);
    d.amount_msat = None;
    assert_eq!(unpayable(&d), Some(InvoiceFault::NoAmount));
    d.expiry_secs = u64::MAX;
    assert_eq!(unpayable(&d), Some(InvoiceFault::ExpiryOverflow));
    d.amount_msat = Some(1);
    assert_eq!(unpayable(&d), Some(InvoiceFault::ExpiryOverflow));
    d.timestamp_secs = 0;
    assert_eq!(unpayable(&d), None);
}

#[test]
fn an_expired_invoice_is_refused_whatever_it_says() {
    let mut d = data();
    let refused = |d: &InvoiceData| {
        route_params_from_invoice(d, true, 2, &vec![]).unwrap_err() == InvoiceFault::Expired
    };
    assert!(refused(&d));
    d.amount_msat = None;
    assert!(refused(&d));
    d.expiry_secs = u64::MAX;
    assert!(refused(&d));
    let text = invoice_text(None, now_secs() - 1000, 600, false);
    assert_eq!(route_params_now(&text, 2, &vec![]).unwrap_err(), InvoiceFault::Expired);
}

#[test]
fn an_invoice_that_breaks_the_rules() {
    let text = "lnbc1pvjluezpp5qqqsyqcyq5rqwzqfqqqsyqcyq5rqwzqfqqqsyqcyq5rqwzqfqypqdpl2pkx2ctnv5sx\
xmmwwd5kgetjypeh2ursdae8g6twvus8g6rfwvs8qun0dfjkxaq8rkx3yf5tcsyz3d73gafnh3cax9rn449d9p5uxz9ezhhypd0\
elx87sjle52x86fux2ypatgddc6k63n7erqz25le42c4u4ecky03ylcqca784w";
    assert_eq!(open_invoice(text).unwrap_err(), InvoiceFault::Invalid);
    assert_eq!(
        route_params_now(text, 2, &vec![]).unwrap_err(),
        InvoiceFault::Invalid
    );
}

fn whole_coins(amount: u64) -> String {
    let text = invoice_text(None, now_secs(), 600, false);
    let mut raw = text.parse::<SignedRawInvoice>().unwrap().into_parts().0;
    raw.hrp.raw_amount = Some(amount);
    raw.hrp.si_prefix = None;
    let signed: Result<SignedRawInvoice, ()> =
        raw.sign(|hash| Ok(Secp256k1::new().sign_ecdsa_recoverable(hash, &secret_key())));
    signed.unwrap().to_string()
}

#[test]
fn amounts_in_whole_coins() {
    let most = whole_coins(18446744);
    assert_eq!(open_invoice(&most).unwrap().amount_msat, Some(1844674400000000000));
    let more = whole_coins(18446745);
    assert_eq!(open_invoice(&more).unwrap_err(), InvoiceFault::AmountOverflow);
    assert_eq!(
        route_params_now(&more, 2, &vec![]).unwrap_err(),
        InvoiceFault::AmountOverflow
    );
}

#[test]
fn a_payment_is_tried_again_for_its_own_invoice() {
    let mut payment = Payment {
        bolt11: invoice_text(Some(25_000), now_secs(), 600, false),
        total_amount: 25_000,
        failed_channels: vec![11, 12],
        created_at: 0,
        retry_count: 2,
        groupid: 1,
        payment_secret: vec![4; 32],
    };
    let (invoice, params) = retry_params(&payment, 3).unwrap();
    assert_eq!(invoice.payment_hash, vec![3; 32]);
    assert_eq!(invoice.payment_secret, vec![4; 32]);
    assert_eq!(invoice.signer, signer());
    assert_eq!(params.final_value_msat, 25_000);
    assert_eq!(params.payment_params.previously_failed_channels, vec![11, 12]);
    assert_eq!(params.payment_params.max_channel_saturation_power_of_half, 3);
    payment.bolt11 = invoice_text(Some(25_000), now_secs() - 1000, 600, false);
    assert_eq!(retry_params(&payment, 3).unwrap_err(), InvoiceFault::Expired);
    payment.bolt11 = invoice_text(None, now_secs(), 600, false);
    assert_eq!(retry_params(&payment, 3).unwrap_err(), InvoiceFault::NoAmount);
}
