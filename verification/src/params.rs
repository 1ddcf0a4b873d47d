//! What the router is asked for.

use crate::route::copy_bytes;
use lightning::util::ser::Writeable;
use vstd::prelude::*;

verus! {

/// The longest total timelock that is accepted for a route.
pub const MAX_TOTAL_CLTV_EXPIRY_DELTA: u32 = 1008;

/// The largest number of paths that a payment is split over.
pub const MAX_PATH_COUNT: u8 = 10;

/// The timelock that is kept for the destination.
pub const FINAL_CLTV_EXPIRY_DELTA: u32 = 18;

/// Who is to be paid, and under which conditions.
#[derive(Debug)]
pub struct PaymentParameters {
    /// The node to be paid, as a compressed key.
    pub payee_pubkey: Vec<u8>,
    /// The features of the payee, in serialized form.
    pub features: Option<Vec<u8>>,
    /// The private channels that lead to the payee, each hint in serialized form.
    pub route_hints: Vec<Vec<u8>>,
    /// When the payment expires, in seconds since the epoch.
    pub expiry_time: Option<u64>,
    /// The longest total timelock.
    pub max_total_cltv_expiry_delta: u32,
    /// The largest number of paths.
    pub max_path_count: u8,
    /// The largest share of a channel that is used, as a power of one half.
    pub max_channel_saturation_power_of_half: u8,
    /// The channels over which the payment has failed before.
    pub previously_failed_channels: Vec<u64>,
}

/// What the router is asked for.
#[derive(Debug)]
pub struct RouteParameters {
    pub payment_params: PaymentParameters,
    /// The amount that is to arrive, in millisatoshi.
    pub final_value_msat: u64,
    /// The timelock that is kept for the destination.
    pub final_cltv_expiry_delta: u32,
}

/// What `RouteParameters` hold.
#[verifier::ext_equal]
pub struct ParamsView {
    pub payee_pubkey: Seq<u8>,
    pub features: Option<Seq<u8>>,
    pub route_hints: Seq<Seq<u8>>,
    pub expiry_time: Option<u64>,
    pub max_total_cltv_expiry_delta: u32,
    pub max_path_count: u8,
    pub max_channel_saturation_power_of_half: u8,
    pub previously_failed_channels: Seq<u64>,
    pub final_value_msat: u64,
    pub final_cltv_expiry_delta: u32,
}

/// What a byte string holds that may be missing.
pub open spec fn bytes_view(v: Option<Vec<u8>>) -> Option<Seq<u8>> {
    match v {
        Some(b) => Some(b@),
        None => None,
    }
}

/// What a list of byte strings holds.
pub open spec fn byte_strings_view(v: Seq<Vec<u8>>) -> Seq<Seq<u8>> {
    v.map_values(|b: Vec<u8>| b@)
}

impl View for RouteParameters {
    type V = ParamsView;

    open spec fn view(&self) -> ParamsView {
        ParamsView {
            payee_pubkey: self.payment_params.payee_pubkey@,
            features: bytes_view(self.payment_params.features),
            route_hints: byte_strings_view(self.payment_params.route_hints@),
            expiry_time: self.payment_params.expiry_time,
            max_total_cltv_expiry_delta: self.payment_params.max_total_cltv_expiry_delta,
            max_path_count: self.payment_params.max_path_count,
            max_channel_saturation_power_of_half:
                self.payment_params.max_channel_saturation_power_of_half,
            previously_failed_channels: self.payment_params.previously_failed_channels@,
            final_value_msat: self.final_value_msat,
            final_cltv_expiry_delta: self.final_cltv_expiry_delta,
        }
    }
}

/// What is asked of the router, apart from the limits that are the same for every payment.
pub open spec fn params(
    payee: Seq<u8>,
    features: Option<Seq<u8>>,
    route_hints: Seq<Seq<u8>>,
    expiry_time: Option<u64>,
    mpp_pref: u8,
    failed_channels: Seq<u64>,
    value_msat: u64,
) -> ParamsView {
    ParamsView {
        payee_pubkey: payee,
        features,
        route_hints,
        expiry_time,
        max_total_cltv_expiry_delta: 1008,
        max_path_count: 10,
        max_channel_saturation_power_of_half: mpp_pref,
        previously_failed_channels: failed_channels,
        final_value_msat: value_msat,
        final_cltv_expiry_delta: 18,
    }
}

/// A feature set in serialized form: the number of bytes in two bytes, then the flags, both with
/// the most significant byte first.
pub open spec fn serialized_features(le_flags: Seq<u8>) -> Seq<u8> {
    seq![(le_flags.len() / 256) as u8, (le_flags.len() % 256) as u8] + le_flags.reverse()
}

/// The features that the payee of a probe is taken to have: flags with the least significant byte
/// first.
pub open spec fn probe_features() -> Seq<u8> {
    serialized_features(seq![0u8, 130u8, 2u8])
}

/// The router is asked for exactly the payee, features, hints, expiry, saturation, channels to avoid
/// and amount that are given, under limits that are the same for every payment.
pub proof fn law_router_is_asked_for_what_is_given(
    payee: Seq<u8>,
    features: Option<Seq<u8>>,
    route_hints: Seq<Seq<u8>>,
    expiry_time: Option<u64>,
    mpp_pref: u8,
    failed_channels: Seq<u64>,
    value_msat: u64,
)
    ensures
        ({
            let p = params(
                payee,
                features,
                route_hints,
                expiry_time,
                mpp_pref,
                failed_channels,
                value_msat,
            );
            &&& p.payee_pubkey == payee
            &&& p.features == features
            &&& p.route_hints == route_hints
            &&& p.expiry_time == expiry_time
            &&& p.max_total_cltv_expiry_delta == 1008
            &&& p.max_path_count == 10
            &&& p.max_channel_saturation_power_of_half == mpp_pref
            &&& p.previously_failed_channels == failed_channels
            &&& p.final_value_msat == value_msat
            &&& p.final_cltv_expiry_delta == 18
        }),
{
}

/// What is held of the question to the router is each of its fields, as they are.
pub proof fn law_views_show_the_question_as_it_is(
    r: RouteParameters,
    b: Option<Vec<u8>>,
    v: Vec<Vec<u8>>,
    i: int,
)
    ensures
        r@.payee_pubkey == r.payment_params.payee_pubkey@,
        r@.features == bytes_view(r.payment_params.features),
        r@.route_hints == byte_strings_view(r.payment_params.route_hints@),
        r@.expiry_time == r.payment_params.expiry_time,
        r@.max_total_cltv_expiry_delta == r.payment_params.max_total_cltv_expiry_delta,
        r@.max_path_count == r.payment_params.max_path_count,
        r@.max_channel_saturation_power_of_half
            == r.payment_params.max_channel_saturation_power_of_half,
        r@.previously_failed_channels == r.payment_params.previously_failed_channels@,
        r@.final_value_msat == r.final_value_msat,
        r@.final_cltv_expiry_delta == r.final_cltv_expiry_delta,
        b is Some ==> bytes_view(b) == Some(b->0@),
        b is None ==> bytes_view(b) is None,
        byte_strings_view(v@).len() == v@.len(),
        0 <= i < v@.len() ==> byte_strings_view(v@)[i] == v@[i]@,
{
}

/// A serialized feature set holds the number of its flag bytes and then the flag bytes, from the
/// last to the first.
pub proof fn law_serialized_features_turn_the_flags(le_flags: Seq<u8>, i: int)
    requires
        le_flags.len() <= 65535,
        0 <= i < le_flags.len(),
    ensures
        serialized_features(le_flags).len() == le_flags.len() + 2,
        256 * serialized_features(le_flags)[0] + serialized_features(le_flags)[1] == le_flags.len(),
        serialized_features(le_flags)[2 + i] == le_flags[le_flags.len() - 1 - i],
{
}

/// The payee of a probe is taken to have the three flag bytes 2, 130 and 0, from the most significant
/// one down.
pub proof fn law_probe_features()
    ensures
        probe_features() == seq![0u8, 3u8, 2u8, 130u8, 0u8],
{
    assert(probe_features() =~= seq![0u8, 3u8, 2u8, 130u8, 0u8]);
}

/// `InvoiceFeatures::from_le_bytes` and `encode`: the serialized form of the feature set with the
/// given flags, least significant byte first.
#[verifier::external_body]
fn encode_invoice_features(le_flags: Vec<u8>) -> (r: Vec<u8>)
    requires
        le_flags@.len() <= 65535,
    ensures
        r@ == serialized_features(le_flags@),
{
    lightning::ln::features::InvoiceFeatures::from_le_bytes(le_flags).encode()
}

/// Copies a list of numbers.
pub fn copy_numbers(v: &Vec<u64>) -> (r: Vec<u64>)
    ensures
        r@ == v@,
{
    let r = v.clone();
    assert(r@ =~= v@);
    r
}

/// Copies a list of byte strings.
pub fn copy_byte_strings(v: &Vec<Vec<u8>>) -> (r: Vec<Vec<u8>>)
    ensures
        byte_strings_view(r@) == byte_strings_view(v@),
{
    let mut r: Vec<Vec<u8>> = Vec::new();
    for i in 0..v.len()
        invariant
            r.len() == i,
            forall|k: int| 0 <= k < i ==> (#[trigger] r@[k])@ == v@[k]@,
    {
        r.push(copy_bytes(&v[i]));
    }
    assert(byte_strings_view(r@) =~= byte_strings_view(v@));
    r
}

/// Copies a byte string that may be missing.
pub fn copy_optional_bytes(v: &Option<Vec<u8>>) -> (r: Option<Vec<u8>>)
    ensures
        bytes_view(r) == bytes_view(*v),
{
    match v {
        Some(b) => Some(copy_bytes(b)),
        None => None,
    }
}

/// Asks for a route under the limits that are the same for every payment.
pub fn route_parameters(
    payee: &Vec<u8>,
    features: &Option<Vec<u8>>,
    route_hints: &Vec<Vec<u8>>,
    expiry_time: Option<u64>,
    mpp_pref: u8,
    failed_channels: &Vec<u64>,
    value_msat: u64,
) -> (r: RouteParameters)
    ensures
        r@ == params(
            payee@,
            bytes_view(*features),
            byte_strings_view(route_hints@),
            expiry_time,
            mpp_pref,
            failed_channels@,
            value_msat,
        ),
{
    RouteParameters {
        payment_params: PaymentParameters {
            payee_pubkey: copy_bytes(payee),
            features: copy_optional_bytes(features),
            route_hints: copy_byte_strings(route_hints),
            expiry_time,
            max_total_cltv_expiry_delta: MAX_TOTAL_CLTV_EXPIRY_DELTA,
            max_path_count: MAX_PATH_COUNT,
            max_channel_saturation_power_of_half: mpp_pref,
            previously_failed_channels: copy_numbers(failed_channels),
        },
        final_value_msat: value_msat,
        final_cltv_expiry_delta: FINAL_CLTV_EXPIRY_DELTA,
    }
}

/// Asks for a route for a probe: no hints, no expiry, and features as most payees have them.
pub fn probe_parameters(
    payee: &Vec<u8>,
    value_msat: u64,
    mpp_pref: u8,
    failed_channels: &Vec<u64>,
) -> (r: RouteParameters)
    ensures
        r@ == params(
            payee@,
            Some(probe_features()),
            Seq::empty(),
            None,
            mpp_pref,
            failed_channels@,
            value_msat,
        ),
{
    let flags: Vec<u8> = vec![0u8, 130u8, 2u8];
    assert(flags@ =~= seq![0u8, 130u8, 2u8]);
    let features = Some(encode_invoice_features(flags));
    let hints: Vec<Vec<u8>> = Vec::new();
    assert(byte_strings_view(hints@) =~= Seq::<Seq<u8>>::empty());
    route_parameters(payee, &features, &hints, None, mpp_pref, failed_channels, value_msat)
}

} // verus!
