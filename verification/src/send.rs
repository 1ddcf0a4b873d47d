//! The requests that send a payment to the node, part by part.

use crate::invoice::{
    clock_says, invoice_in, invoice_params, open_invoice, route_params_now, InvoiceData, InvoiceFault,
    InvoiceView,
};
use crate::params::{bytes_view, ParamsView, RouteParameters};
use crate::payments::{
    after_failures, fresh_payment, law_failures_add_up, with_payment, Payment, PaymentView,
    PlugState,
};
use crate::route::{
    copy_bytes, delivered, get_total_amount, law_hops_name_their_own_node_and_channel,
    law_last_hop_receives_the_payment, path_ok, path_view, paths_view, route_ok, sendpay_of,
    sendpay_route, sendpay_view, HopView, RouteHop, SendpayRoute, SendpayView,
};
use rand::Rng;
use vstd::prelude::*;
use vstd::string::*;

verus! {

/// A request to the node to send one part of a payment.
#[derive(Debug)]
pub struct SendpayRequest {
    /// The hops of the part.
    pub route: Vec<SendpayRoute>,
    /// The hash of the payment.
    pub payment_hash: Vec<u8>,
    /// A label; none is given.
    pub label: Option<String>,
    /// What all parts together are to deliver.
    pub amount_msat: Option<u64>,
    /// The invoice.
    pub bolt11: Option<String>,
    /// The secret that the payee asks for.
    pub payment_secret: Option<Vec<u8>>,
    /// The number of the part.
    pub partid: Option<u16>,
    /// The id of a local invoice request; none is given.
    pub localinvreqid: Option<String>,
    /// The group that joins all parts and tries of the payment.
    pub groupid: Option<u64>,
}

/// What a `SendpayRequest` holds.
#[verifier::ext_equal]
pub struct RequestView {
    pub route: Seq<SendpayView>,
    pub payment_hash: Seq<u8>,
    pub label: Option<Seq<char>>,
    pub amount_msat: Option<u64>,
    pub bolt11: Option<Seq<char>>,
    pub payment_secret: Option<Seq<u8>>,
    pub partid: Option<u16>,
    pub localinvreqid: Option<Seq<char>>,
    pub groupid: Option<u64>,
}

/// What a text holds that may be missing.
pub open spec fn optional_text(s: Option<String>) -> Option<Seq<char>> {
    match s {
        Some(t) => Some(t@),
        None => None,
    }
}

impl View for SendpayRequest {
    type V = RequestView;

    open spec fn view(&self) -> RequestView {
        RequestView {
            route: sendpay_view(self.route@),
            payment_hash: self.payment_hash@,
            label: optional_text(self.label),
            amount_msat: self.amount_msat,
            bolt11: optional_text(self.bolt11),
            payment_secret: bytes_view(self.payment_secret),
            partid: self.partid,
            localinvreqid: optional_text(self.localinvreqid),
            groupid: self.groupid,
        }
    }
}

/// What a list of requests holds.
pub open spec fn requests_view(requests: Seq<SendpayRequest>) -> Seq<RequestView> {
    requests.map_values(|r: SendpayRequest| r@)
}

/// What all parts of a payment have in common.
#[verifier::ext_equal]
pub struct Terms {
    pub payment_hash: Seq<u8>,
    pub payment_secret: Seq<u8>,
    pub bolt11: Seq<char>,
    pub groupid: u64,
    pub total_amount: u64,
}

/// The request for one part.
pub open spec fn request_of(path: Seq<HopView>, terms: Terms, partid: u16) -> RequestView {
    RequestView {
        route: sendpay_of(path),
        payment_hash: terms.payment_hash,
        label: None,
        amount_msat: Some(terms.total_amount),
        bolt11: Some(terms.bolt11),
        payment_secret: Some(terms.payment_secret),
        partid: Some(partid),
        localinvreqid: None,
        groupid: Some(terms.groupid),
    }
}

/// The requests for all parts, one for each path, in order.
pub open spec fn requests_of(paths: Seq<Seq<HopView>>, terms: Terms, partids: Seq<u16>) -> Seq<
    RequestView,
> {
    Seq::new(paths.len(), |i: int| request_of(paths[i], terms, partids[i]))
}

/// Whether a number of a part is one that can be drawn: it came from `generate_partid`.
pub closed spec fn drawn_partid(partid: u16) -> bool {
    call_ensures(generate_partid, (), partid)
}

/// Whether a number of a group is one that can be drawn: it came from `generate_groupid`.
pub closed spec fn drawn_groupid(groupid: u64) -> bool {
    call_ensures(generate_groupid, (), groupid)
}

/// Numbers that have been drawn came from the generators of such numbers.
proof fn law_numbers_come_from_the_generators(partid: u16, groupid: u64)
    ensures
        drawn_partid(partid) ==> call_ensures(generate_partid, (), partid),
        drawn_groupid(groupid) ==> call_ensures(generate_groupid, (), groupid),
{
}

/// Whether the first `n` numbers of parts have been drawn.
pub open spec fn all_drawn(partids: Seq<u16>, n: int) -> bool {
    forall|i: int| 0 <= i < n ==> drawn_partid(#[trigger] partids[i])
}

/// Whether requests are those for all parts, with the parts numbered by chance.
pub open spec fn parts_of(
    requests: Seq<RequestView>,
    paths: Seq<Seq<HopView>>,
    terms: Terms,
) -> bool {
    exists|partids: Seq<u16>|
        requests == #[trigger] requests_of(paths, terms, partids) && all_drawn(
            partids,
            paths.len() as int,
        )
}

/// What the last hops of the first `n` requests receive, all together.
pub open spec fn received(requests: Seq<RequestView>, n: int) -> int
    decreases n,
{
    if n <= 0 {
        0
    } else {
        received(requests, n - 1) + requests[n - 1].route.last().amount_msat
    }
}

/// The parts of a payment together bring to the payee exactly what the route delivers.
pub proof fn law_parts_add_up(paths: Seq<Seq<HopView>>, terms: Terms, partids: Seq<u16>, n: int)
    requires
        route_ok(paths),
        0 <= n <= paths.len(),
    ensures
        received(requests_of(paths, terms, partids), n) == delivered(paths, n),
    decreases n,
{
    if n > 0 {
        law_parts_add_up(paths, terms, partids, n - 1);
        assert(path_ok(paths[n - 1]));
        law_last_hop_receives_the_payment(paths[n - 1]);
    }
}

/// There is one request for each path, in order. Each carries the hops of its own path, the hash, the
/// secret, the invoice, the group and the whole amount of the payment, and a number of its own.
pub proof fn law_parts_carry_the_terms(
    requests: Seq<RequestView>,
    paths: Seq<Seq<HopView>>,
    terms: Terms,
    i: int,
)
    requires
        parts_of(requests, paths, terms),
        0 <= i < paths.len(),
    ensures
        requests.len() == paths.len(),
        requests[i].route == sendpay_of(paths[i]),
        requests[i].payment_hash == terms.payment_hash,
        requests[i].payment_secret == Some(terms.payment_secret),
        requests[i].bolt11 == Some(terms.bolt11),
        requests[i].groupid == Some(terms.groupid),
        requests[i].amount_msat == Some(terms.total_amount),
        requests[i].partid is Some,
        drawn_partid(requests[i].partid->0),
        requests[i].label is None,
        requests[i].localinvreqid is None,
{
}

/// What is held of a request is each of its fields, as they are.
pub proof fn law_views_show_requests_as_they_are(r: SendpayRequest, v: Vec<SendpayRequest>, i: int)
    ensures
        r@.route == sendpay_view(r.route@),
        r@.payment_hash == r.payment_hash@,
        r@.amount_msat == r.amount_msat && r@.partid == r.partid && r@.groupid == r.groupid,
        r.bolt11 is Some ==> r@.bolt11 == Some(r.bolt11->0@),
        r.bolt11 is None ==> r@.bolt11 is None,
        r.payment_secret is Some ==> r@.payment_secret == Some(r.payment_secret->0@),
        r.payment_secret is None ==> r@.payment_secret is None,
        r@.label is None <==> r.label is None,
        r@.localinvreqid is None <==> r.localinvreqid is None,
        requests_view(v@).len() == v@.len(),
        0 <= i < v@.len() ==> requests_view(v@)[i] == v@[i]@,
{
}

/// A request is for the path, the terms and the number that it is made of.
pub proof fn law_request_is_for_its_path(path: Seq<HopView>, terms: Terms, partid: u16)
    ensures
        request_of(path, terms, partid).route.len() == path.len(),
        forall|j: int|
            0 <= j < path.len() ==> (#[trigger] request_of(path, terms, partid).route[j]).id
                == path[j].pubkey,
        request_of(path, terms, partid).partid == Some(partid),
        request_of(path, terms, partid).payment_hash == terms.payment_hash,
        request_of(path, terms, partid).payment_secret == Some(terms.payment_secret),
        request_of(path, terms, partid).bolt11 == Some(terms.bolt11),
        request_of(path, terms, partid).groupid == Some(terms.groupid),
        request_of(path, terms, partid).amount_msat == Some(terms.total_amount),
        request_of(path, terms, partid).label is None,
        request_of(path, terms, partid).localinvreqid is None,
{
    assert forall|j: int| 0 <= j < path.len() implies (
    #[trigger] request_of(path, terms, partid).route[j]).id == path[j].pubkey by {
        law_hops_name_their_own_node_and_channel(path, j);
    }
}

/// The first try of a payment goes under the hash and the secret of the invoice, for what the paths
/// deliver together.
pub proof fn law_first_try_is_for_the_invoice(
    paths: Seq<Seq<HopView>>,
    bolt11: Seq<char>,
    invoice: InvoiceView,
    groupid: u64,
)
    requires
        0 <= delivered(paths, paths.len() as int) <= u64::MAX,
    ensures
        first_terms(paths, bolt11, invoice, groupid).payment_hash == invoice.payment_hash,
        first_terms(paths, bolt11, invoice, groupid).payment_secret == invoice.payment_secret,
        first_terms(paths, bolt11, invoice, groupid).bolt11 == bolt11,
        first_terms(paths, bolt11, invoice, groupid).groupid == groupid,
        first_terms(paths, bolt11, invoice, groupid).total_amount == delivered(
            paths,
            paths.len() as int,
        ),
{
}

/// A probe goes under the hash that is given and a secret of 32 bytes, each 42, for the amount that
/// is given, and stands for no invoice.
pub proof fn law_probe_stands_for_no_invoice(hash: Seq<u8>, groupid: u64, value_msat: u64)
    ensures
        probe_terms(hash, groupid, value_msat).payment_hash == hash,
        probe_terms(hash, groupid, value_msat).payment_secret.len() == 32,
        forall|i: int|
            0 <= i < 32 ==> #[trigger] probe_terms(hash, groupid, value_msat).payment_secret[i]
                == 42,
        probe_terms(hash, groupid, value_msat).bolt11 == "Probe"@,
        probe_terms(hash, groupid, value_msat).groupid == groupid,
        probe_terms(hash, groupid, value_msat).total_amount == value_msat,
{
}

/// `rand::thread_rng` and `gen::<u64>`: any number, so nothing is said of it.
#[verifier::external_body]
fn generate_groupid() -> (r: u64) {
    rand::thread_rng().gen::<u64>()
}

/// `rand::thread_rng` and `gen::<u16>`: any number, so nothing is said of it.
#[verifier::external_body]
fn generate_partid() -> (r: u16) {
    rand::thread_rng().gen::<u16>()
}

/// Draws the number of a group.
fn draw_groupid() -> (r: u64)
    ensures
        drawn_groupid(r),
{
    let draw = generate_groupid;
    draw()
}

/// Draws the number of a part.
fn draw_partid() -> (r: u16)
    ensures
        drawn_partid(r),
{
    let draw = generate_partid;
    draw()
}

/// Makes the request for one part.
pub fn sendpay_request(
    path: &Vec<RouteHop>,
    payment_hash: &Vec<u8>,
    payment_secret: &Vec<u8>,
    bolt11: &str,
    groupid: u64,
    total_amount: u64,
    partid: u16,
) -> (r: SendpayRequest)
    requires
        path_ok(path_view(path@)),
    ensures
        r@ == request_of(
            path_view(path@),
            Terms {
                payment_hash: payment_hash@,
                payment_secret: payment_secret@,
                bolt11: bolt11@,
                groupid,
                total_amount,
            },
            partid,
        ),
        r.partid == Some(partid),
        r.groupid == Some(groupid),
        r.amount_msat == Some(total_amount),
        r.payment_hash@ == payment_hash@,
{
    SendpayRequest {
        route: sendpay_route(path),
        payment_hash: copy_bytes(payment_hash),
        label: None,
        amount_msat: Some(total_amount),
        bolt11: Some(bolt11.to_owned()),
        payment_secret: Some(copy_bytes(payment_secret)),
        partid: Some(partid),
        localinvreqid: None,
        groupid: Some(groupid),
    }
}

/// Makes the requests that send a payment along a route, one for each path. Each part gets a
/// number of its own by chance.
pub fn get_and_send_route(
    paths: &Vec<Vec<RouteHop>>,
    payment_hash: &Vec<u8>,
    payment_secret: &Vec<u8>,
    bolt11: &str,
    groupid: u64,
    total_amount: u64,
) -> (r: Vec<SendpayRequest>)
    requires
        route_ok(paths_view(paths@)),
    ensures
        parts_of(
            requests_view(r@),
            paths_view(paths@),
            Terms {
                payment_hash: payment_hash@,
                payment_secret: payment_secret@,
                bolt11: bolt11@,
                groupid,
                total_amount,
            },
        ),
{
    let ghost terms = Terms {
        payment_hash: payment_hash@,
        payment_secret: payment_secret@,
        bolt11: bolt11@,
        groupid,
        total_amount,
    };
    let ghost mut partids: Seq<u16> = Seq::empty();
    let mut requests: Vec<SendpayRequest> = Vec::new();
    for i in 0..paths.len()
        invariant
            route_ok(paths_view(paths@)),
            terms == (Terms {
                payment_hash: payment_hash@,
                payment_secret: payment_secret@,
                bolt11: bolt11@,
                groupid,
                total_amount,
            }),
            requests.len() == i,
            partids.len() == i,
            all_drawn(partids, i as int),
            forall|k: int|
                0 <= k < i ==> (#[trigger] requests@[k])@ == request_of(
                    paths_view(paths@)[k],
                    terms,
                    partids[k],
                ),
    {
        assert(paths_view(paths@)[i as int] == path_view(paths@[i as int]@));
        let partid: u16 = draw_partid();
        requests.push(
            sendpay_request(
                &paths[i],
                payment_hash,
                payment_secret,
                bolt11,
                groupid,
                total_amount,
                partid,
            ),
        );
        proof {
            partids = partids.push(partid);
        }
    }
    assert(requests_view(requests@) =~= requests_of(paths_view(paths@), terms, partids));
    requests
}

/// Makes the requests for the first try of a payment, and files the payment so that it can be
/// tried again. The group is drawn by chance; the payment is filed under the group in which its
/// parts are sent, and asks for what the route delivers.
pub fn begin_payment(
    state: &mut PlugState,
    bolt11: &str,
    invoice: &InvoiceData,
    paths: &Vec<Vec<RouteHop>>,
    created_at: u128,
) -> (r: Vec<SendpayRequest>)
    requires
        route_ok(paths_view(paths@)),
        delivered(paths_view(paths@), paths.len() as int) <= u64::MAX,
    ensures
        exists|groupid: u64|
            {
                let terms = #[trigger] first_terms(
                    paths_view(paths@),
                    bolt11@,
                    invoice@,
                    groupid,
                );
                &&& drawn_groupid(groupid)
                &&& parts_of(requests_view(r@), paths_view(paths@), terms)
                &&& final(state)@ == with_payment(
                    old(state)@,
                    fresh_payment(
                        bolt11@,
                        terms.total_amount,
                        created_at,
                        groupid,
                        invoice@.payment_secret,
                    ),
                )
            },
{
    let total_amount: u64 = get_total_amount(paths).unwrap();
    let groupid: u64 = draw_groupid();
    state.record_payment(bolt11, total_amount, created_at, groupid, &invoice.payment_secret);
    let requests = get_and_send_route(
        paths,
        &invoice.payment_hash,
        &invoice.payment_secret,
        bolt11,
        groupid,
        total_amount,
    );
    assert(first_terms(paths_view(paths@), bolt11@, invoice@, groupid) =~= Terms {
        payment_hash: invoice.payment_hash@,
        payment_secret: invoice.payment_secret@,
        bolt11: bolt11@,
        groupid,
        total_amount,
    });
    requests
}

/// What all parts of the first try of a payment have in common.
pub open spec fn first_terms(
    paths: Seq<Seq<HopView>>,
    bolt11: Seq<char>,
    invoice: InvoiceView,
    groupid: u64,
) -> Terms {
    Terms {
        payment_hash: invoice.payment_hash,
        payment_secret: invoice.payment_secret,
        bolt11,
        groupid,
        total_amount: delivered(paths, paths.len() as int) as u64,
    }
}

/// Opens the invoice of a payment that is tried again, and works out what to ask of the router: a
/// route that avoids the channels over which the payment has failed. Whether the invoice has
/// expired is for the clock to say.
pub fn retry_params(payment: &Payment, mpp_pref: u8) -> (r: Result<
    (InvoiceData, RouteParameters),
    InvoiceFault,
>)
    ensures
        match r {
            Ok((invoice, params)) => {
                &&& invoice_in(payment@.bolt11) == Ok::<InvoiceView, InvoiceFault>(invoice@)
                &&& clock_says(payment@.bolt11, false)
                &&& invoice_params(invoice@, mpp_pref, payment@.failed_channels) == Ok::<
                    ParamsView,
                    InvoiceFault,
                >(params@)
            },
            Err(fault) => match invoice_in(payment@.bolt11) {
                Err(e) => fault == e,
                Ok(invoice) => {
                    ||| clock_says(payment@.bolt11, true) && fault == InvoiceFault::Expired
                    ||| clock_says(payment@.bolt11, false) && invoice_params(
                        invoice,
                        mpp_pref,
                        payment@.failed_channels,
                    ) == Err::<ParamsView, InvoiceFault>(fault)
                },
            },
        },
{
    match open_invoice(payment.bolt11.as_str()) {
        Err(fault) => Err(fault),
        Ok(invoice) => match route_params_now(
            payment.bolt11.as_str(),
            mpp_pref,
            &payment.failed_channels,
        ) {
            Err(fault) => Err(fault),
            Ok(params) => Ok((invoice, params)),
        },
    }
}

/// Makes the requests that try a payment again, in the group and for the amount of the first try.
pub fn retry_pay(payment: &Payment, invoice: &InvoiceData, paths: &Vec<Vec<RouteHop>>) -> (r: Vec<
    SendpayRequest,
>)
    requires
        route_ok(paths_view(paths@)),
    ensures
        parts_of(
            requests_view(r@),
            paths_view(paths@),
            Terms {
                payment_hash: invoice@.payment_hash,
                payment_secret: invoice@.payment_secret,
                bolt11: payment@.bolt11,
                groupid: payment@.groupid,
                total_amount: payment@.total_amount,
            },
        ),
{
    get_and_send_route(
        paths,
        &invoice.payment_hash,
        &invoice.payment_secret,
        payment.bolt11.as_str(),
        payment.groupid,
        payment.total_amount,
    )
}

/// However often a payment has failed, it is tried again in the group and for the amount of its
/// first try, and the router is told of every channel over which it failed.
pub proof fn law_retry_keeps_terms_and_avoids_failures(
    payment: PaymentView,
    invoice: InvoiceView,
    mpp_pref: u8,
    channels: Seq<u64>,
)
    requires
        payment.failed_channels.len() == 0,
        payment.retry_count + channels.len() <= u8::MAX,
    ensures
        after_failures(payment, channels).groupid == payment.groupid,
        after_failures(payment, channels).total_amount == payment.total_amount,
        after_failures(payment, channels).bolt11 == payment.bolt11,
        invoice_params(
            invoice,
            mpp_pref,
            after_failures(payment, channels).failed_channels,
        ) matches Ok(p) ==> p.previously_failed_channels == channels,
{
    law_failures_add_up(payment, channels);
    assert(payment.failed_channels + channels =~= channels);
}

/// The secret that probes carry.
pub open spec fn probe_secret() -> Seq<u8> {
    Seq::new(32, |i: int| 42u8)
}

/// Makes the requests that send a probe. A probe carries a hash that nobody knows the preimage
/// of, so it fails at the destination; it stands for no invoice.
pub fn probe_requests(paths: &Vec<Vec<RouteHop>>, random_pay_hash: &Vec<u8>, value_msat: u64) -> (r:
    Vec<SendpayRequest>)
    requires
        route_ok(paths_view(paths@)),
    ensures
        exists|groupid: u64|
            drawn_groupid(groupid) && parts_of(
                requests_view(r@),
                paths_view(paths@),
                #[trigger] probe_terms(random_pay_hash@, groupid, value_msat),
            ),
{
    let groupid: u64 = draw_groupid();
    let secret: Vec<u8> = vec![42u8; 32];
    assert(secret@ =~= probe_secret());
    assert(probe_terms(random_pay_hash@, groupid, value_msat) =~= Terms {
        payment_hash: random_pay_hash@,
        payment_secret: secret@,
        bolt11: "Probe"@,
        groupid,
        total_amount: value_msat,
    });
    get_and_send_route(paths, random_pay_hash, &secret, "Probe", groupid, value_msat)
}

/// What all parts of a probe have in common.
pub open spec fn probe_terms(hash: Seq<u8>, groupid: u64, value_msat: u64) -> Terms {
    Terms {
        payment_hash: hash,
        payment_secret: probe_secret(),
        bolt11: "Probe"@,
        groupid,
        total_amount: value_msat,
    }
}

} // verus!
