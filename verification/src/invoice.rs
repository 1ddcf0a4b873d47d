//! Invoices, and the routes that pay them.

use crate::params::{
    byte_strings_view, bytes_view, params, route_parameters, ParamsView, RouteParameters,
};
use crate::route::copy_bytes;
use lightning::util::ser::Writeable;
use vstd::prelude::*;
use vstd::string::*;

verus! {

/// The largest amount in whole coins that can be counted in the smallest unit of an invoice, the
/// trillionth part of a coin, in 64 bits.
pub const MAX_WHOLE_COINS: u64 = 18446744;

/// What an invoice says. Keys, features and hints are held in serialized form.
#[derive(Debug)]
pub struct InvoiceData {
    /// The payee, where the invoice names it.
    pub payee: Option<Vec<u8>>,
    /// The key that signed the invoice.
    pub signer: Vec<u8>,
    /// The features of the payee.
    pub features: Option<Vec<u8>>,
    /// The private channels that lead to the payee.
    pub route_hints: Vec<Vec<u8>>,
    /// How long the invoice is valid, in seconds.
    pub expiry_secs: u64,
    /// When the invoice was made, in seconds since the epoch.
    pub timestamp_secs: u64,
    /// The amount, in millisatoshi.
    pub amount_msat: Option<u64>,
    /// The hash of the payment.
    pub payment_hash: Vec<u8>,
    /// The secret that the payee asks for.
    pub payment_secret: Vec<u8>,
}

/// What an `InvoiceData` holds.
#[verifier::ext_equal]
pub struct InvoiceView {
    pub payee: Option<Seq<u8>>,
    pub signer: Seq<u8>,
    pub features: Option<Seq<u8>>,
    pub route_hints: Seq<Seq<u8>>,
    pub expiry_secs: u64,
    pub timestamp_secs: u64,
    pub amount_msat: Option<u64>,
    pub payment_hash: Seq<u8>,
    pub payment_secret: Seq<u8>,
}

impl View for InvoiceData {
    type V = InvoiceView;

    open spec fn view(&self) -> InvoiceView {
        InvoiceView {
            payee: bytes_view(self.payee),
            signer: self.signer@,
            features: bytes_view(self.features),
            route_hints: byte_strings_view(self.route_hints@),
            expiry_secs: self.expiry_secs,
            timestamp_secs: self.timestamp_secs,
            amount_msat: self.amount_msat,
            payment_hash: self.payment_hash@,
            payment_secret: self.payment_secret@,
        }
    }
}

/// Why an invoice cannot be paid, or why no route can be asked for to pay it.
#[derive(Debug, PartialEq, Eq, Structural, Clone, Copy)]
pub enum InvoiceFault {
    /// The text is no invoice.
    Unparsable,
    /// The amount cannot be counted in 64 bits.
    AmountOverflow,
    /// The invoice breaks a rule that every invoice keeps, or its signature is wrong.
    Invalid,
    /// The invoice has expired.
    Expired,
    /// The time at which the invoice expires does not fit in 64 bits.
    ExpiryOverflow,
    /// The invoice names no amount.
    NoAmount,
}

/// The amount as it stands at the head of an invoice, and whether it is followed by a multiplier;
/// nothing for a text that is no invoice.
pub uninterp spec fn raw_amount(text: Seq<char>) -> Option<(Option<u64>, bool)>;

/// What a signed and valid invoice says; nothing where the text breaks a rule for invoices.
pub uninterp spec fn invoice_fields(text: Seq<char>) -> Option<InvoiceView>;

/// Whether an amount at the head of an invoice can be counted in trillionths of a coin.
pub open spec fn amount_countable(raw: (Option<u64>, bool)) -> bool {
    raw.1 || raw.0 is None || raw.0->0 <= MAX_WHOLE_COINS
}

/// `SignedRawInvoice::from_str`, which checks the form of an invoice only: the amount and the
/// multiplier as they were read. Which texts have that form is left to the library.
#[verifier::external_body]
fn read_raw_amount(text: &str) -> (r: Option<(Option<u64>, bool)>)
    ensures
        r == raw_amount(text@),
{
    text.parse::<lightning_invoice::SignedRawInvoice>()
        .ok()
        .map(|signed| (signed.hrp.raw_amount, signed.hrp.si_prefix.is_some()))
}

/// `Invoice::from_str`, which is `SignedRawInvoice::from_str` and `Invoice::from_signed`, and the
/// accessors of the invoice. The conversion of an amount without multiplier is not checked for
/// overflow there, so such amounts are left out. A valid invoice has a recoverable signer, one
/// payment hash and one payment secret. What a given text says is left to the library.
#[verifier::external_body]
fn read_invoice(text: &str) -> (r: Option<InvoiceData>)
    requires
        raw_amount(text@) is Some,
        amount_countable(raw_amount(text@)->0),
    ensures
        match r {
            Some(data) => {
                &&& invoice_fields(text@) == Some(data@)
                &&& data.signer@.len() == 33
                &&& data.payee is Some ==> data.payee->0@.len() == 33
                &&& data.payment_hash@.len() == 32
                &&& data.payment_secret@.len() == 32
            },
            None => invoice_fields(text@) is None,
        },
{
    let invoice = text.parse::<lightning_invoice::Invoice>().ok()?;
    Some(InvoiceData {
        payee: invoice.payee_pub_key().map(|key| key.serialize().to_vec()),
        signer: invoice.recover_payee_pub_key().serialize().to_vec(),
        features: invoice.features().map(|features| features.encode()),
        route_hints: invoice.route_hints().iter().map(|hint| hint.encode()).collect(),
        expiry_secs: invoice.expiry_time().as_secs(),
        timestamp_secs: invoice.duration_since_epoch().as_secs(),
        amount_msat: invoice.amount_milli_satoshis(),
        payment_hash: invoice.payment_hash()[..].to_vec(),
        payment_secret: invoice.payment_secret().0.to_vec(),
    })
}

/// `Invoice::is_expired` of the invoice that a text is. It reads the clock, so nothing is said of
/// the answer.
#[verifier::external_body]
fn is_expired_now(text: &str) -> (r: bool)
    requires
        raw_amount(text@) is Some,
        amount_countable(raw_amount(text@)->0),
        invoice_fields(text@) is Some,
{
    text.parse::<lightning_invoice::Invoice>().unwrap().is_expired()
}

/// Whether the clock can give this answer on whether the invoice that a text is has expired: the
/// answer is one that `Invoice::is_expired` gave.
pub closed spec fn clock_says(text: Seq<char>, expired: bool) -> bool {
    exists|t: &str| t@ == text && #[trigger] call_ensures(is_expired_now, (t,), expired)
}

/// An answer of the clock is one that came from a call that asked for this very invoice.
proof fn law_clock_is_asked_for_this_invoice(text: Seq<char>, expired: bool)
    requires
        clock_says(text, expired),
    ensures
        exists|t: &str| t@ == text && #[trigger] call_ensures(is_expired_now, (t,), expired),
{
}

/// Asks the clock whether the invoice that a text is has expired.
fn ask_clock(text: &str) -> (r: bool)
    requires
        raw_amount(text@) is Some,
        amount_countable(raw_amount(text@)->0),
        invoice_fields(text@) is Some,
    ensures
        clock_says(text@, r),
{
    let ask = is_expired_now;
    ask(text)
}

/// The node to be paid: the one that the invoice names, else the one that signed it.
pub open spec fn payee_of(invoice: InvoiceView) -> Seq<u8> {
    match invoice.payee {
        Some(key) => key,
        None => invoice.signer,
    }
}

/// Whether a route can be asked for to pay an invoice that has not expired: the time at which it
/// expires fits in 64 bits, and it names an amount.
pub open spec fn payable(invoice: InvoiceView) -> bool {
    invoice.expiry_secs + invoice.timestamp_secs <= u64::MAX && invoice.amount_msat is Some
}

/// What a payable invoice that has not expired asks of the router.
pub open spec fn asked_of_router(
    invoice: InvoiceView,
    mpp_pref: u8,
    failed_channels: Seq<u64>,
) -> ParamsView {
    params(
        payee_of(invoice),
        invoice.features,
        invoice.route_hints,
        Some((invoice.expiry_secs + invoice.timestamp_secs) as u64),
        mpp_pref,
        failed_channels,
        invoice.amount_msat->0,
    )
}

/// Why an invoice is not payable.
pub open spec fn unpayable_fault(invoice: InvoiceView) -> Option<InvoiceFault> {
    if invoice.expiry_secs + invoice.timestamp_secs > u64::MAX {
        Some(InvoiceFault::ExpiryOverflow)
    } else if invoice.amount_msat is None {
        Some(InvoiceFault::NoAmount)
    } else {
        None
    }
}

/// What an invoice that has not expired asks of the router, or why it is not payable.
pub open spec fn invoice_params(
    invoice: InvoiceView,
    mpp_pref: u8,
    failed_channels: Seq<u64>,
) -> Result<ParamsView, InvoiceFault> {
    match unpayable_fault(invoice) {
        Some(fault) => Err(fault),
        None => Ok(asked_of_router(invoice, mpp_pref, failed_channels)),
    }
}

/// What the text of an invoice says, or why it says nothing.
pub open spec fn invoice_in(text: Seq<char>) -> Result<InvoiceView, InvoiceFault> {
    match raw_amount(text) {
        None => Err(InvoiceFault::Unparsable),
        Some(raw) => if !amount_countable(raw) {
            Err(InvoiceFault::AmountOverflow)
        } else {
            match invoice_fields(text) {
                None => Err(InvoiceFault::Invalid),
                Some(invoice) => Ok(invoice),
            }
        },
    }
}

/// What can come of asking for a route to pay an invoice, by its text: a text that is no usable
/// invoice gives its fault; else the clock says whether the invoice has expired, and one that it
/// says has not expired gives what the invoice asks of the router.
pub open spec fn params_outcome(
    text: Seq<char>,
    mpp_pref: u8,
    failed_channels: Seq<u64>,
    r: Result<ParamsView, InvoiceFault>,
) -> bool {
    match invoice_in(text) {
        Err(fault) => r == Err::<ParamsView, InvoiceFault>(fault),
        Ok(invoice) => {
            ||| clock_says(text, true) && r == Err::<ParamsView, InvoiceFault>(
                InvoiceFault::Expired,
            )
            ||| clock_says(text, false) && r == invoice_params(invoice, mpp_pref, failed_channels)
        },
    }
}

/// An invoice is refused as expired only where the clock says so, and then whatever else it says.
/// Where the clock cannot say so and the invoice is payable, the router is asked for the amount of
/// the invoice, to the node that it names or else that signed it, until it expires.
pub proof fn law_only_the_clock_refuses_a_payable_invoice(
    text: Seq<char>,
    mpp_pref: u8,
    failed_channels: Seq<u64>,
    r: Result<ParamsView, InvoiceFault>,
)
    requires
        params_outcome(text, mpp_pref, failed_channels, r),
        invoice_in(text) is Ok,
    ensures
        r == Err::<ParamsView, InvoiceFault>(InvoiceFault::Expired) ==> clock_says(text, true),
        !clock_says(text, false) ==> r == Err::<ParamsView, InvoiceFault>(InvoiceFault::Expired),
        ({
            let i = invoice_in(text)->Ok_0;
            !clock_says(text, true) && i.amount_msat is Some && i.timestamp_secs + i.expiry_secs
                <= 0xffff_ffff_ffff_ffff ==> {
                &&& r matches Ok(p)
                &&& p.final_value_msat == i.amount_msat->0
                &&& p.expiry_time == Some((i.timestamp_secs + i.expiry_secs) as u64)
                &&& i.payee is Some ==> p.payee_pubkey == i.payee->0
                &&& i.payee is None ==> p.payee_pubkey == i.signer
                &&& p.features == i.features
                &&& p.route_hints == i.route_hints
                &&& p.previously_failed_channels == failed_channels
                &&& p.max_channel_saturation_power_of_half == mpp_pref
            }
        }),
{
}

/// The router is asked for what the invoice says, to the node that it names or else that signed it.
pub proof fn law_router_is_asked_for_what_the_invoice_says(
    i: InvoiceView,
    mpp_pref: u8,
    failed_channels: Seq<u64>,
)
    requires
        i.amount_msat is Some,
        i.timestamp_secs + i.expiry_secs <= 0xffff_ffff_ffff_ffff,
    ensures
        ({
            let p = asked_of_router(i, mpp_pref, failed_channels);
            &&& p.final_value_msat == i.amount_msat->0
            &&& p.expiry_time == Some((i.timestamp_secs + i.expiry_secs) as u64)
            &&& i.payee is Some ==> p.payee_pubkey == i.payee->0
            &&& i.payee is None ==> p.payee_pubkey == i.signer
            &&& p.features == i.features
            &&& p.route_hints == i.route_hints
            &&& p.previously_failed_channels == failed_channels
            &&& p.max_channel_saturation_power_of_half == mpp_pref
            &&& p.max_total_cltv_expiry_delta == 1008 && p.max_path_count == 10
            &&& p.final_cltv_expiry_delta == 18
            &&& invoice_params(i, mpp_pref, failed_channels) == Ok::<ParamsView, InvoiceFault>(p)
        }),
{
}

/// What is held of an invoice is each of its fields, as they are, and of a result what it holds.
pub proof fn law_views_show_invoices_as_they_are(
    d: InvoiceData,
    p: RouteParameters,
    fault: InvoiceFault,
)
    ensures
        d.payee is Some ==> d@.payee == Some(d.payee->0@),
        d.payee is None ==> d@.payee is None,
        d@.signer == d.signer@,
        d.features is Some ==> d@.features == Some(d.features->0@),
        d.features is None ==> d@.features is None,
        d@.route_hints == byte_strings_view(d.route_hints@),
        d@.expiry_secs == d.expiry_secs,
        d@.timestamp_secs == d.timestamp_secs,
        d@.amount_msat == d.amount_msat,
        d@.payment_hash == d.payment_hash@,
        d@.payment_secret == d.payment_secret@,
        params_result_view(Ok(p)) == Ok::<ParamsView, InvoiceFault>(p@),
        params_result_view(Err(fault)) == Err::<ParamsView, InvoiceFault>(fault),
{
}

/// An invoice that has not expired is refused exactly where it names no amount or expires beyond
/// what 64 bits can count; what the features, the hints or the keys are does not matter.
pub proof fn law_what_is_payable(invoice: InvoiceView, mpp_pref: u8, failed_channels: Seq<u64>)
    ensures
        payable(invoice) <==> invoice.amount_msat is Some && invoice.timestamp_secs
            + invoice.expiry_secs <= 0xffff_ffff_ffff_ffff,
        invoice_params(invoice, mpp_pref, failed_channels) is Ok <==> payable(invoice),
        unpayable_fault(invoice) == Some(InvoiceFault::NoAmount) <==> invoice.amount_msat is None
            && invoice.timestamp_secs + invoice.expiry_secs <= 0xffff_ffff_ffff_ffff,
        unpayable_fault(invoice) == Some(InvoiceFault::ExpiryOverflow) <==> invoice.timestamp_secs
            + invoice.expiry_secs > 0xffff_ffff_ffff_ffff,
        unpayable_fault(invoice) is None <==> payable(invoice),
{
}

/// An amount in whole coins can be counted exactly where its trillionths fit in 64 bits; one with a
/// multiplier always can.
pub proof fn law_what_can_be_counted(amount: u64, raw: Option<u64>)
    ensures
        amount_countable((Some(amount), false)) <==> amount * 1_000_000_000_000
            <= 0xffff_ffff_ffff_ffff,
        amount_countable((raw, true)),
        amount_countable((None, false)),
{
}

/// A text says what the invoice that it is says, wherever it has the form of an invoice with an
/// amount that can be counted and keeps the rules; else the first of these that fails is the fault.
pub proof fn law_what_a_text_says(text: Seq<char>)
    ensures
        raw_amount(text) is None <==> invoice_in(text) == Err::<InvoiceView, InvoiceFault>(
            InvoiceFault::Unparsable,
        ),
        raw_amount(text) is Some && !amount_countable(raw_amount(text)->0) <==> invoice_in(text)
            == Err::<InvoiceView, InvoiceFault>(InvoiceFault::AmountOverflow),
        raw_amount(text) is Some && amount_countable(raw_amount(text)->0) && invoice_fields(text) is None
            <==> invoice_in(text) == Err::<InvoiceView, InvoiceFault>(InvoiceFault::Invalid),
        raw_amount(text) is Some && amount_countable(raw_amount(text)->0) && invoice_fields(text) is Some
            <==> invoice_in(text) is Ok,
        invoice_in(text) matches Ok(i) ==> invoice_fields(text) == Some(i),
{
}

/// What a result of route parameters holds.
pub open spec fn params_result_view(r: Result<RouteParameters, InvoiceFault>) -> Result<
    ParamsView,
    InvoiceFault,
> {
    match r {
        Ok(p) => Ok(p@),
        Err(e) => Err(e),
    }
}

/// Reads an invoice.
pub fn open_invoice(text: &str) -> (r: Result<InvoiceData, InvoiceFault>)
    ensures
        match r {
            Ok(data) => {
                &&& invoice_in(text@) == Ok::<InvoiceView, InvoiceFault>(data@)
                &&& data.payment_hash@.len() == 32
                &&& data.payment_secret@.len() == 32
                &&& payee_of(data@).len() == 33
            },
            Err(e) => invoice_in(text@) == Err::<InvoiceView, InvoiceFault>(e),
        },
{
    match read_raw_amount(text) {
        None => Err(InvoiceFault::Unparsable),
        Some(raw) => {
            let countable = match raw.0 {
                None => true,
                Some(amount) => raw.1 || amount <= MAX_WHOLE_COINS,
            };
            if !countable {
                return Err(InvoiceFault::AmountOverflow);
            }
            match read_invoice(text) {
                Some(data) => Ok(data),
                None => Err(InvoiceFault::Invalid),
            }
        },
    }
}

/// Why an invoice is not payable, nothing for one that is.
pub fn unpayable(invoice: &InvoiceData) -> (r: Option<InvoiceFault>)
    ensures
        r == unpayable_fault(invoice@),
        r is None <==> payable(invoice@),
{
    if invoice.expiry_secs > u64::MAX - invoice.timestamp_secs {
        return Some(InvoiceFault::ExpiryOverflow);
    }
    match invoice.amount_msat {
        None => Some(InvoiceFault::NoAmount),
        Some(_) => None,
    }
}

/// What an invoice asks of the router, given whether it has expired: an expired one is refused,
/// whatever else it says. The router wants the time at which the payment expires in seconds since
/// the epoch.
pub fn route_params_from_invoice(
    invoice: &InvoiceData,
    expired: bool,
    mpp_pref: u8,
    failed_channels: &Vec<u64>,
) -> (r: Result<RouteParameters, InvoiceFault>)
    requires
        expired || payable(invoice@),
    ensures
        params_result_view(r) == if expired {
            Err(InvoiceFault::Expired)
        } else {
            Ok(asked_of_router(invoice@, mpp_pref, failed_channels@))
        },
        r is Err <==> expired,
        r matches Ok(p) ==> {
            &&& invoice.amount_msat == Some(p.final_value_msat)
            &&& p.payment_params.expiry_time == Some(
                (invoice.timestamp_secs + invoice.expiry_secs) as u64,
            )
            &&& invoice.payee is Some ==> p.payment_params.payee_pubkey@ == invoice.payee->0@
            &&& invoice.payee is None ==> p.payment_params.payee_pubkey@ == invoice.signer@
            &&& p.payment_params.previously_failed_channels@ == failed_channels@
            &&& p.payment_params.max_channel_saturation_power_of_half == mpp_pref
        },
{
    let payee = match &invoice.payee {
        Some(key) => copy_bytes(key),
        None => copy_bytes(&invoice.signer),
    };
    if expired {
        return Err(InvoiceFault::Expired);
    }
    let expiry: u64 = invoice.expiry_secs + invoice.timestamp_secs;
    Ok(
        route_parameters(
            &payee,
            &invoice.features,
            &invoice.route_hints,
            Some(expiry),
            mpp_pref,
            failed_channels,
            invoice.amount_msat.unwrap(),
        ),
    )
}

/// What an invoice asks of the router, given whether it has expired, for any invoice. That it has
/// expired comes before all else; for one that has not and is not payable the router is asked
/// nothing, and the fault is given instead.
pub fn params_given(
    invoice: &InvoiceData,
    expired: bool,
    mpp_pref: u8,
    failed_channels: &Vec<u64>,
) -> (r: Result<RouteParameters, InvoiceFault>)
    ensures
        params_result_view(r) == if expired {
            Err(InvoiceFault::Expired)
        } else {
            invoice_params(invoice@, mpp_pref, failed_channels@)
        },
{
    if !expired {
        if let Some(fault) = unpayable(invoice) {
            return Err(fault);
        }
    }
    route_params_from_invoice(invoice, expired, mpp_pref, failed_channels)
}

/// What the text of an invoice asks of the router now. Whether the invoice has expired is for the
/// clock to say: apart from that, the text alone decides.
pub fn route_params_now(text: &str, mpp_pref: u8, failed_channels: &Vec<u64>) -> (r: Result<
    RouteParameters,
    InvoiceFault,
>)
    ensures
        params_outcome(text@, mpp_pref, failed_channels@, params_result_view(r)),
{
    match open_invoice(text) {
        Err(e) => Err(e),
        Ok(invoice) => {
            let expired = ask_clock(text);
            params_given(&invoice, expired, mpp_pref, failed_channels)
        },
    }
}

} // verus!
