//! The commands of the plugin: what their arguments ask for.

use crate::invoice::{InvoiceData, InvoiceFault};
use crate::invoice::{
    clock_says, invoice_in, law_only_the_clock_refuses_a_payable_invoice, law_what_a_text_says,
    open_invoice, params_outcome, params_result_view, raw_amount, route_params_now, InvoiceView,
};
use crate::json::{element, get_element, get_string, get_u64, json_text, string_in, u64_in};
use crate::keys::{parse_public_key, public_key_in};
use crate::params::{
    law_probe_features, params, probe_features, probe_parameters, ParamsView, RouteParameters,
};
use crate::text::{law_without_keeps_the_rest, law_without_leaves_none, remove_char, without};
use vstd::prelude::*;
use vstd::string::*;

verus! {

/// What the arguments of a probe ask for.
#[derive(Debug)]
pub enum ProbeOrder {
    /// The probe is refused with an answer.
    Refused { reply: String },
    /// A route is wanted.
    Go { params: RouteParameters },
}

/// What a `ProbeOrder` says.
#[verifier::ext_equal]
pub enum ProbeOrderView {
    Refused { reply: Seq<char> },
    Go { params: ParamsView },
}

impl View for ProbeOrder {
    type V = ProbeOrderView;

    open spec fn view(&self) -> ProbeOrderView {
        match self {
            ProbeOrder::Refused { reply } => ProbeOrderView::Refused { reply: reply@ },
            ProbeOrder::Go { params } => ProbeOrderView::Go { params: params@ },
        }
    }
}

/// What a probe asks for, given the key that its first argument denotes, if that is a text at all,
/// and the number that its second argument is, if it is one.
pub open spec fn probe_order_of(
    key: Option<Result<Seq<u8>, Seq<char>>>,
    amount: Option<u64>,
    probe_amount: u64,
    mpp_pref: u8,
    failed_channels: Seq<u64>,
) -> ProbeOrderView {
    match key {
        None => ProbeOrderView::Refused { reply: "no pub key given as first argument"@ },
        Some(Err(error)) => ProbeOrderView::Refused { reply: error },
        Some(Ok(payee)) => ProbeOrderView::Go {
            params: params(
                payee,
                Some(probe_features()),
                Seq::empty(),
                None,
                mpp_pref,
                failed_channels,
                match amount {
                    Some(n) => n,
                    None => probe_amount,
                },
            ),
        },
    }
}

/// The key that a text denotes, or the text of the error.
pub open spec fn key_result(text: Seq<char>) -> Result<Seq<u8>, Seq<char>> {
    match public_key_in(text) {
        Some(key) => Ok(key),
        None => Err("malformed public key"@),
    }
}

/// The key that an argument denotes, nothing where the argument is no text.
pub open spec fn key_argument(text: Option<Seq<char>>) -> Option<Result<Seq<u8>, Seq<char>>> {
    match text {
        Some(s) => Some(key_result(s)),
        None => None,
    }
}

/// What a key or an error text holds.
pub open spec fn key_view(key: Option<Result<Vec<u8>, String>>) -> Option<
    Result<Seq<u8>, Seq<char>>,
> {
    match key {
        Some(Ok(k)) => Some(Ok(k@)),
        Some(Err(e)) => Some(Err(e@)),
        None => None,
    }
}

/// What a probe asks for. The amount is the one that the configuration gives unless there is
/// another.
pub fn probe_order(
    key: Option<Result<Vec<u8>, String>>,
    amount: Option<u64>,
    probe_amount: u64,
    mpp_pref: u8,
    failed_channels: &Vec<u64>,
) -> (r: ProbeOrder)
    ensures
        r@ == probe_order_of(key_view(key), amount, probe_amount, mpp_pref, failed_channels@),
{
    let value_msat: u64 = match amount {
        Some(n) => n,
        None => probe_amount,
    };
    match key {
        None => ProbeOrder::Refused { reply: "no pub key given as first argument".to_owned() },
        Some(Err(error)) => ProbeOrder::Refused { reply: error },
        Some(Ok(payee)) => ProbeOrder::Go {
            params: probe_parameters(&payee, value_msat, mpp_pref, failed_channels),
        },
    }
}

/// Reads the arguments of a probe: the key of a node and, if wanted, an amount.
pub fn probe(
    args: &serde_json::Value,
    probe_amount: u64,
    mpp_pref: u8,
    failed_channels: &Vec<u64>,
) -> (r: ProbeOrder)
    ensures
        r@ == probe_order_of(
            key_argument(string_in(element(json_text(*args), 0))),
            u64_in(element(json_text(*args), 1)),
            probe_amount,
            mpp_pref,
            failed_channels@,
        ),
{
    let key = match get_string(get_element(args, 0)) {
        Some(text) => Some(parse_public_key(text)),
        None => None,
    };
    let amount = get_u64(get_element(args, 1));
    probe_order(key, amount, probe_amount, mpp_pref, failed_channels)
}

/// A penalty that the router is to charge for going through a node.
#[derive(Debug)]
pub struct Penalty {
    /// The node, as a compressed key.
    pub node: Vec<u8>,
    /// The penalty, in millisatoshi.
    pub amount: u64,
}

/// Why a penalty cannot be set.
#[derive(Debug)]
pub enum PenaltyFault {
    /// The first argument is no text.
    NoKey,
    /// The first argument is no key.
    BadKey { error: String },
    /// The second argument is no unsigned integer.
    NoAmount,
}

/// What a result of reading a penalty holds.
#[verifier::ext_equal]
pub enum PenaltyView {
    Penalty { node: Seq<u8>, amount: u64 },
    NoKey,
    BadKey { error: Seq<char> },
    NoAmount,
}

/// What a result of reading a penalty holds.
pub open spec fn penalty_view(r: Result<Penalty, PenaltyFault>) -> PenaltyView {
    match r {
        Ok(p) => PenaltyView::Penalty { node: p.node@, amount: p.amount },
        Err(PenaltyFault::NoKey) => PenaltyView::NoKey,
        Err(PenaltyFault::BadKey { error }) => PenaltyView::BadKey { error: error@ },
        Err(PenaltyFault::NoAmount) => PenaltyView::NoAmount,
    }
}

/// The penalty that a key and an amount stand for. A fault of the key comes first.
pub open spec fn penalty_of(
    key: Option<Result<Seq<u8>, Seq<char>>>,
    amount: Option<u64>,
) -> PenaltyView {
    match key {
        None => PenaltyView::NoKey,
        Some(Err(error)) => PenaltyView::BadKey { error },
        Some(Ok(node)) => match amount {
            Some(amount) => PenaltyView::Penalty { node, amount },
            None => PenaltyView::NoAmount,
        },
    }
}

/// The penalty that a key and an amount stand for.
pub fn penalty_order(key: Option<Result<Vec<u8>, String>>, amount: Option<u64>) -> (r: Result<
    Penalty,
    PenaltyFault,
>)
    ensures
        penalty_view(r) == penalty_of(key_view(key), amount),
{
    match key {
        None => Err(PenaltyFault::NoKey),
        Some(Err(error)) => Err(PenaltyFault::BadKey { error }),
        Some(Ok(node)) => match amount {
            Some(amount) => Ok(Penalty { node, amount }),
            None => Err(PenaltyFault::NoAmount),
        },
    }
}

/// Reads the arguments that set a penalty: the key of a node, in which quotes do not matter, and
/// an amount.
pub fn set_penalty(args: &serde_json::Value) -> (r: Result<Penalty, PenaltyFault>)
    ensures
        penalty_view(r) == penalty_of(
            key_argument(
                match string_in(element(json_text(*args), 0)) {
                    Some(s) => Some(without(s, '"')),
                    None => None,
                },
            ),
            u64_in(element(json_text(*args), 1)),
        ),
{
    let key = match get_string(get_element(args, 0)) {
        Some(text) => {
            let bare = remove_char(text, '"');
            Some(parse_public_key(bare.as_str()))
        },
        None => None,
    };
    let amount = get_u64(get_element(args, 1));
    penalty_order(key, amount)
}

/// What the arguments of a payment ask for.
#[derive(Debug)]
pub enum PayOrder {
    /// The payment is refused with an answer.
    Refused { reply: String },
    /// The first argument is no text.
    NotText,
    /// The invoice is of the right form but cannot be used.
    Unusable { fault: InvoiceFault },
    /// A route is wanted for an invoice.
    Go { bolt11: String, invoice: InvoiceData, params: RouteParameters },
}

/// What a `PayOrder` says.
#[verifier::ext_equal]
pub enum PayOrderView {
    Refused { reply: Seq<char> },
    NotText,
    Unusable { fault: InvoiceFault },
    Go { bolt11: Seq<char>, invoice: InvoiceView, params: ParamsView },
}

impl View for PayOrder {
    type V = PayOrderView;

    open spec fn view(&self) -> PayOrderView {
        match self {
            PayOrder::Refused { reply } => PayOrderView::Refused { reply: reply@ },
            PayOrder::NotText => PayOrderView::NotText,
            PayOrder::Unusable { fault } => PayOrderView::Unusable { fault: *fault },
            PayOrder::Go { bolt11, invoice, params } => PayOrderView::Go {
                bolt11: bolt11@,
                invoice: invoice@,
                params: params@,
            },
        }
    }
}

/// What a payment asks for, given what its invoice says and what that asks of the router.
pub open spec fn pay_order_of(
    bolt11: Seq<char>,
    invoice: Result<InvoiceView, InvoiceFault>,
    params: Result<ParamsView, InvoiceFault>,
) -> PayOrderView {
    match invoice {
        Err(InvoiceFault::Unparsable) => PayOrderView::Refused { reply: "error parsing invoice"@ },
        Err(fault) => PayOrderView::Unusable { fault },
        Ok(invoice) => match params {
            Err(InvoiceFault::Expired) => PayOrderView::Refused { reply: "invoice is expired"@ },
            Err(fault) => PayOrderView::Unusable { fault },
            Ok(params) => PayOrderView::Go { bolt11, invoice, params },
        },
    }
}

/// What a result of reading an invoice holds.
pub open spec fn invoice_result_view(r: Result<InvoiceData, InvoiceFault>) -> Result<
    InvoiceView,
    InvoiceFault,
> {
    match r {
        Ok(invoice) => Ok(invoice@),
        Err(e) => Err(e),
    }
}

/// What a payment asks for, given what its invoice says and what that asks of the router.
pub fn pay_order(
    bolt11: String,
    invoice: Result<InvoiceData, InvoiceFault>,
    params: Result<RouteParameters, InvoiceFault>,
) -> (r: PayOrder)
    ensures
        r@ == pay_order_of(bolt11@, invoice_result_view(invoice), params_result_view(params)),
{
    match invoice {
        Err(InvoiceFault::Unparsable) => PayOrder::Refused {
            reply: "error parsing invoice".to_owned(),
        },
        Err(fault) => PayOrder::Unusable { fault },
        Ok(invoice) => match params {
            Err(InvoiceFault::Expired) => PayOrder::Refused {
                reply: "invoice is expired".to_owned(),
            },
            Err(fault) => PayOrder::Unusable { fault },
            Ok(params) => PayOrder::Go { bolt11, invoice, params },
        },
    }
}

/// The invoice that an argument is: its text without backslashes.
pub open spec fn invoice_argument(text: Seq<char>) -> Seq<char> {
    without(text, '\\')
}

/// What can come of the wish to pay an invoice, by its text.
pub open spec fn pay_outcome(bolt11: Seq<char>, mpp_pref: u8, r: PayOrderView) -> bool {
    exists|p: Result<ParamsView, InvoiceFault>|
        #[trigger] params_outcome(bolt11, mpp_pref, Seq::empty(), p) && r == pay_order_of(
            bolt11,
            invoice_in(bolt11),
            p,
        )
}

/// A payment is refused as expired only where the invoice can be read and the clock says that it has
/// expired. Where the clock cannot say so and the invoice is payable, a route is looked for: for that
/// invoice, for its amount, to its payee, with no channel to avoid.
pub proof fn law_unexpired_invoice_is_paid(bolt11: Seq<char>, mpp_pref: u8, r: PayOrderView)
    requires
        pay_outcome(bolt11, mpp_pref, r),
    ensures
        r == (PayOrderView::Refused { reply: "invoice is expired"@ }) ==> invoice_in(bolt11) is Ok
            && clock_says(bolt11, true),
        r matches PayOrderView::Refused { reply } ==> reply == "invoice is expired"@ || (reply
            == "error parsing invoice"@ && raw_amount(bolt11) is None),
        raw_amount(bolt11) is None ==> r == (PayOrderView::Refused {
            reply: "error parsing invoice"@,
        }),
        invoice_in(bolt11) is Ok && !clock_says(bolt11, false) ==> r == (PayOrderView::Refused {
            reply: "invoice is expired"@,
        }),
        r is Go ==> invoice_in(bolt11) is Ok && clock_says(bolt11, false),
        r !is NotText,
        invoice_in(bolt11) matches Ok(i) ==> (!clock_says(bolt11, true) && i.amount_msat is Some
            && i.timestamp_secs + i.expiry_secs <= 0xffff_ffff_ffff_ffff ==> {
            &&& r matches PayOrderView::Go { bolt11: b, invoice, params }
            &&& b == bolt11
            &&& invoice == i
            &&& params.final_value_msat == i.amount_msat->0
            &&& params.expiry_time == Some((i.timestamp_secs + i.expiry_secs) as u64)
            &&& i.payee is Some ==> params.payee_pubkey == i.payee->0
            &&& i.payee is None ==> params.payee_pubkey == i.signer
            &&& params.features == i.features
            &&& params.route_hints == i.route_hints
            &&& params.previously_failed_channels.len() == 0
            &&& params.max_channel_saturation_power_of_half == mpp_pref
        }),
{
    reveal_strlit("invoice is expired");
    reveal_strlit("error parsing invoice");
    assert("invoice is expired"@.len() != "error parsing invoice"@.len());
    let p = choose|p: Result<ParamsView, InvoiceFault>|
        #[trigger] params_outcome(bolt11, mpp_pref, Seq::empty(), p) && r == pay_order_of(
            bolt11,
            invoice_in(bolt11),
            p,
        );
    law_what_a_text_says(bolt11);
    if invoice_in(bolt11) is Ok {
        law_only_the_clock_refuses_a_payable_invoice(bolt11, mpp_pref, Seq::empty(), p);
    }
}

/// A payment goes ahead exactly where both the invoice and the parameters are there, and then with
/// just these; an unusable one names the fault that it came with.
pub proof fn law_pay_order_keeps_what_it_is_given(
    bolt11: Seq<char>,
    invoice: Result<InvoiceView, InvoiceFault>,
    params: Result<ParamsView, InvoiceFault>,
)
    ensures
        pay_order_of(bolt11, invoice, params) is Go <==> invoice is Ok && params is Ok,
        pay_order_of(bolt11, invoice, params) matches PayOrderView::Go {
            bolt11: b,
            invoice: i,
            params: p,
        } ==> b == bolt11 && invoice == Ok::<InvoiceView, InvoiceFault>(i) && params == Ok::<
            ParamsView,
            InvoiceFault,
        >(p),
        pay_order_of(bolt11, invoice, params) matches PayOrderView::Unusable { fault } ==> (
        invoice is Err && invoice->Err_0 == fault && fault != InvoiceFault::Unparsable) || (
        invoice is Ok && params is Err && params->Err_0 == fault && fault
            != InvoiceFault::Expired),
        pay_order_of(bolt11, invoice, params) !is NotText,
{
}

/// An argument stands for the invoice as it is, but for its backslashes, which do not matter wherever
/// they stand.
pub proof fn law_backslashes_do_not_matter(text: Seq<char>, c: char)
    ensures
        !text.contains('\\') ==> invoice_argument(text) == text,
        invoice_argument(text.push('\\')) == invoice_argument(text),
        c != '\\' ==> invoice_argument(text.push(c)) == invoice_argument(text).push(c),
{
    law_without_leaves_none(text, '\\');
    law_without_keeps_the_rest(text, c, '\\');
}

/// A probe of a node that is named by its key goes ahead, to that node, for the amount that is named
/// or else for the amount of the configuration; it avoids the channels that are given, has no hints
/// and does not expire.
pub proof fn law_probe_goes_to_the_node_named(
    key: Seq<u8>,
    error: Seq<char>,
    amount: Option<u64>,
    probe_amount: u64,
    mpp_pref: u8,
    failed: Seq<u64>,
)
    ensures
        probe_order_of(Some(Ok(key)), amount, probe_amount, mpp_pref, failed) matches
            ProbeOrderView::Go { params } && {
            &&& params.payee_pubkey == key
            &&& amount is Some ==> params.final_value_msat == amount->0
            &&& amount is None ==> params.final_value_msat == probe_amount
            &&& params.max_channel_saturation_power_of_half == mpp_pref
            &&& params.previously_failed_channels == failed
            &&& params.route_hints.len() == 0
            &&& params.expiry_time is None
            &&& params.features == Some(seq![0u8, 3u8, 2u8, 130u8, 0u8])
            &&& params.max_total_cltv_expiry_delta == 1008
            &&& params.max_path_count == 10
            &&& params.final_cltv_expiry_delta == 18
        },
        probe_order_of(Some(Err(error)), amount, probe_amount, mpp_pref, failed)
            == (ProbeOrderView::Refused { reply: error }),
        probe_order_of(None, amount, probe_amount, mpp_pref, failed) == (ProbeOrderView::Refused {
            reply: "no pub key given as first argument"@,
        }),
{
    law_probe_features();
}

/// An argument that is a text names the key that the text denotes, and an error where it denotes
/// none; an argument that is no text names nothing.
pub proof fn law_key_argument(text: Seq<char>)
    ensures
        public_key_in(text) is Some ==> key_argument(Some(text)) == Some(
            Ok::<Seq<u8>, Seq<char>>(public_key_in(text)->0),
        ),
        public_key_in(text) is None ==> key_argument(Some(text)) == Some(
            Err::<Seq<u8>, Seq<char>>("malformed public key"@),
        ),
        key_argument(None) is None,
{
}

/// A penalty is set exactly where there are a key and an amount, on that node and of that amount; a
/// fault of the key comes before one of the amount.
pub proof fn law_penalty_is_for_the_node_named(
    key: Seq<u8>,
    error: Seq<char>,
    n: u64,
    amount: Option<u64>,
)
    ensures
        penalty_of(Some(Ok(key)), Some(n)) == (PenaltyView::Penalty { node: key, amount: n }),
        penalty_of(Some(Ok(key)), None) == PenaltyView::NoAmount,
        penalty_of(Some(Err(error)), amount) == (PenaltyView::BadKey { error }),
        penalty_of(None, amount) == PenaltyView::NoKey,
{
}

/// What orders, keys and results hold is what they are made of.
pub proof fn law_views_show_orders_as_they_are(
    key: Vec<u8>,
    text: String,
    params: RouteParameters,
    invoice: InvoiceData,
    fault: InvoiceFault,
    penalty: Penalty,
)
    ensures
        key_view(Some(Ok(key))) == Some(Ok::<Seq<u8>, Seq<char>>(key@)),
        key_view(Some(Err(text))) == Some(Err::<Seq<u8>, Seq<char>>(text@)),
        key_view(None) is None,
        (ProbeOrder::Refused { reply: text })@ == (ProbeOrderView::Refused { reply: text@ }),
        (ProbeOrder::Go { params })@ == (ProbeOrderView::Go { params: params@ }),
        penalty_view(Ok(penalty)) == (PenaltyView::Penalty {
            node: penalty.node@,
            amount: penalty.amount,
        }),
        penalty_view(Err(PenaltyFault::NoKey)) == PenaltyView::NoKey,
        penalty_view(Err(PenaltyFault::BadKey { error: text })) == (PenaltyView::BadKey {
            error: text@,
        }),
        penalty_view(Err(PenaltyFault::NoAmount)) == PenaltyView::NoAmount,
        (PayOrder::Refused { reply: text })@ == (PayOrderView::Refused { reply: text@ }),
        PayOrder::NotText@ == PayOrderView::NotText,
        (PayOrder::Unusable { fault })@ == (PayOrderView::Unusable { fault }),
        (PayOrder::Go { bolt11: text, invoice, params })@ == (PayOrderView::Go {
            bolt11: text@,
            invoice: invoice@,
            params: params@,
        }),
        invoice_result_view(Ok(invoice)) == Ok::<InvoiceView, InvoiceFault>(invoice@),
        invoice_result_view(Err(fault)) == Err::<InvoiceView, InvoiceFault>(fault),
{
}

/// Reads the argument of a payment, an invoice, and works out what to ask of the router. Whether
/// the invoice has expired is for the clock to say.
pub fn altpay_method(args: &serde_json::Value, mpp_pref: u8) -> (r: PayOrder)
    ensures
        match element(json_text(*args), 0) {
            None => r@ == (PayOrderView::Refused { reply: "no invoice provided"@ }),
            Some(first) => match string_in(Some(first)) {
                None => r@ == PayOrderView::NotText,
                Some(text) => {
                    pay_outcome(invoice_argument(text), mpp_pref, r@)
                },
            },
        },
{
    let first = match get_element(args, 0) {
        Some(first) => first,
        None => {
            return PayOrder::Refused { reply: "no invoice provided".to_owned() };
        },
    };
    let text = match get_string(Some(first)) {
        Some(text) => text,
        None => {
            return PayOrder::NotText;
        },
    };
    let bolt11 = remove_char(text, '\\');
    let none: Vec<u64> = Vec::new();
    assert(none@ =~= Seq::<u64>::empty());
    let invoice = open_invoice(bolt11.as_str());
    let params = route_params_now(bolt11.as_str(), mpp_pref, &none);
    pay_order(bolt11, invoice, params)
}

} // verus!
