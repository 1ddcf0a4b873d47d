//! Routes: from the paths that the router finds to the hops that the node is asked to pay along.

use crate::scid::{law_text_round_trip, scid_text, scid_value, sendpay_channel};
use vstd::prelude::*;

verus! {

/// One hop of a path found by the router. Keys and feature sets are held in serialized form.
#[derive(Debug)]
pub struct RouteHop {
    /// The node at this hop.
    pub pubkey: Vec<u8>,
    /// The features that the node announces.
    pub node_features: Vec<u8>,
    /// The channel over which the node is reached.
    pub short_channel_id: u64,
    /// The features of that channel.
    pub channel_features: Vec<u8>,
    /// The fee taken at this hop; at the last hop, the amount that is to arrive.
    pub fee_msat: u64,
    /// The timelock added at this hop; at the last hop, the timelock expected at the destination.
    pub cltv_expiry_delta: u32,
}

/// What a `RouteHop` holds.
#[verifier::ext_equal]
pub struct HopView {
    pub pubkey: Seq<u8>,
    pub node_features: Seq<u8>,
    pub short_channel_id: u64,
    pub channel_features: Seq<u8>,
    pub fee_msat: u64,
    pub cltv_expiry_delta: u32,
}

impl View for RouteHop {
    type V = HopView;

    open spec fn view(&self) -> HopView {
        HopView {
            pubkey: self.pubkey@,
            node_features: self.node_features@,
            short_channel_id: self.short_channel_id,
            channel_features: self.channel_features@,
            fee_msat: self.fee_msat,
            cltv_expiry_delta: self.cltv_expiry_delta,
        }
    }
}

/// One hop of a payment as the node takes it.
#[derive(Debug)]
pub struct SendpayRoute {
    /// The amount that is to arrive at this hop.
    pub amount_msat: u64,
    /// The node at this hop.
    pub id: Vec<u8>,
    /// The timelock of the payment at this hop.
    pub delay: u16,
    /// The channel over which the node is reached.
    pub channel: String,
}

/// What a `SendpayRoute` holds.
#[verifier::ext_equal]
pub struct SendpayView {
    pub amount_msat: u64,
    pub id: Seq<u8>,
    pub delay: u16,
    pub channel: Seq<char>,
}

impl View for SendpayRoute {
    type V = SendpayView;

    open spec fn view(&self) -> SendpayView {
        SendpayView {
            amount_msat: self.amount_msat,
            id: self.id@,
            delay: self.delay,
            channel: self.channel@,
        }
    }
}

/// What the hops of a path hold.
pub open spec fn path_view(path: Seq<RouteHop>) -> Seq<HopView> {
    path.map_values(|h: RouteHop| h@)
}

/// What the paths of a route hold.
pub open spec fn paths_view(paths: Seq<Vec<RouteHop>>) -> Seq<Seq<HopView>> {
    paths.map_values(|p: Vec<RouteHop>| path_view(p@))
}

/// What a list of hops for the node holds.
pub open spec fn sendpay_view(hops: Seq<SendpayRoute>) -> Seq<SendpayView> {
    hops.map_values(|h: SendpayRoute| h@)
}

/// What hop `j` has to receive: its own fee and all that is passed on after it.
pub open spec fn amount_from(path: Seq<HopView>, j: int) -> int
    decreases path.len() - j,
{
    if j >= path.len() {
        0
    } else {
        path[j].fee_msat + amount_from(path, j + 1)
    }
}

/// The timelock at hop `j`: its own delta and those of all hops after it.
pub open spec fn delay_from(path: Seq<HopView>, j: int) -> int
    decreases path.len() - j,
{
    if j >= path.len() {
        0
    } else {
        path[j].cltv_expiry_delta + delay_from(path, j + 1)
    }
}

/// Whether a path has a hop, and its amounts and timelocks fit in what the node takes.
pub open spec fn path_ok(path: Seq<HopView>) -> bool {
    &&& path.len() > 0
    &&& amount_from(path, 0) <= u64::MAX
    &&& delay_from(path, 0) <= u16::MAX
}

/// Whether every path of a route is fit for the node.
pub open spec fn route_ok(paths: Seq<Seq<HopView>>) -> bool {
    forall|i: int| 0 <= i < paths.len() ==> path_ok(#[trigger] paths[i])
}

/// The hops that a path stands for.
pub open spec fn sendpay_of(path: Seq<HopView>) -> Seq<SendpayView> {
    Seq::new(
        path.len(),
        |j: int|
            SendpayView {
                amount_msat: amount_from(path, j) as u64,
                id: path[j].pubkey,
                delay: delay_from(path, j) as u16,
                channel: scid_text(path[j].short_channel_id),
            },
    )
}

/// What arrives at the end of the first `n` paths of a route, all together.
pub open spec fn delivered(paths: Seq<Seq<HopView>>, n: int) -> int
    decreases n,
{
    if n <= 0 {
        0
    } else {
        delivered(paths, n - 1) + (if paths[n - 1].len() == 0 {
            0
        } else {
            paths[n - 1].last().fee_msat as int
        })
    }
}

/// A hop never has to receive more than an earlier one, nor a longer timelock.
pub proof fn law_amounts_and_delays_shrink(path: Seq<HopView>, j: int, k: int)
    requires
        0 <= j <= k <= path.len(),
    ensures
        0 <= amount_from(path, k) <= amount_from(path, j),
        0 <= delay_from(path, k) <= delay_from(path, j),
    decreases path.len() - j,
{
    if j < path.len() {
        if j < k {
            law_amounts_and_delays_shrink(path, j + 1, k);
        } else {
            law_amounts_and_delays_shrink(path, j + 1, path.len() as int);
        }
    }
}

/// Each hop keeps exactly its fee and its timelock delta before it passes the payment on.
pub proof fn law_hop_keeps_its_fee(path: Seq<HopView>, j: int)
    requires
        path_ok(path),
        0 <= j < path.len() - 1,
    ensures
        sendpay_of(path)[j].amount_msat - sendpay_of(path)[j + 1].amount_msat == path[j].fee_msat,
        sendpay_of(path)[j].delay - sendpay_of(path)[j + 1].delay == path[j].cltv_expiry_delta,
{
    law_amounts_and_delays_shrink(path, 0, j);
    law_amounts_and_delays_shrink(path, j, j + 1);
}

/// The last hop receives the amount that the path is to deliver, under the timelock that the
/// destination expects.
pub proof fn law_last_hop_receives_the_payment(path: Seq<HopView>)
    requires
        path_ok(path),
    ensures
        sendpay_of(path).last().amount_msat == path.last().fee_msat,
        sendpay_of(path).last().delay == path.last().cltv_expiry_delta,
{
    let n = path.len() as int;
    law_amounts_and_delays_shrink(path, 0, n - 1);
    assert(amount_from(path, n) == 0);
    assert(delay_from(path, n) == 0);
}

/// Each hop names the node that its own channel leads to: hop by hop, a path and what is handed to
/// the node agree on nodes and channels, and none is added or left out.
pub proof fn law_hops_name_their_own_node_and_channel(path: Seq<HopView>, j: int)
    requires
        0 <= j < path.len(),
    ensures
        sendpay_of(path).len() == path.len(),
        sendpay_of(path)[j].id == path[j].pubkey,
        scid_value(sendpay_of(path)[j].channel) == Some(path[j].short_channel_id),
{
    law_text_round_trip(path[j].short_channel_id);
}

/// A route fits the node exactly where each of its paths does, however many there are.
pub proof fn law_route_fits_where_each_path_does(paths: Seq<Seq<HopView>>, path: Seq<HopView>)
    ensures
        route_ok(Seq::empty()),
        route_ok(paths.push(path)) <==> route_ok(paths) && path_ok(path),
{
    let all = paths.push(path);
    if route_ok(all) {
        assert(path_ok(all[paths.len() as int]));
        assert forall|i: int| 0 <= i < paths.len() implies path_ok(#[trigger] paths[i]) by {
            assert(path_ok(all[i]));
        }
    }
    if route_ok(paths) && path_ok(path) {
        assert forall|i: int| 0 <= i < all.len() implies path_ok(#[trigger] all[i]) by {
            if i < paths.len() {
                assert(path_ok(paths[i]));
            }
        }
    }
}

/// What a hop, a path or a route holds is each of its fields, hops and paths, as they are.
pub proof fn law_views_show_hops_as_they_are(
    path: Vec<RouteHop>,
    paths: Vec<Vec<RouteHop>>,
    hops: Vec<SendpayRoute>,
    i: int,
)
    ensures
        path_view(path@).len() == path@.len(),
        0 <= i < path@.len() ==> {
            &&& path_view(path@)[i].pubkey == path@[i].pubkey@
            &&& path_view(path@)[i].node_features == path@[i].node_features@
            &&& path_view(path@)[i].short_channel_id == path@[i].short_channel_id
            &&& path_view(path@)[i].channel_features == path@[i].channel_features@
            &&& path_view(path@)[i].fee_msat == path@[i].fee_msat
            &&& path_view(path@)[i].cltv_expiry_delta == path@[i].cltv_expiry_delta
        },
        paths_view(paths@).len() == paths@.len(),
        0 <= i < paths@.len() ==> paths_view(paths@)[i] == path_view(paths@[i]@),
        sendpay_view(hops@).len() == hops@.len(),
        0 <= i < hops@.len() ==> {
            &&& sendpay_view(hops@)[i].amount_msat == hops@[i].amount_msat
            &&& sendpay_view(hops@)[i].id == hops@[i].id@
            &&& sendpay_view(hops@)[i].delay == hops@[i].delay
            &&& sendpay_view(hops@)[i].channel == hops@[i].channel@
        },
{
}

/// The timelocks that the first `n` hops of a path add.
pub open spec fn path_deltas(path: Seq<HopView>, n: int) -> int
    decreases n,
{
    if n <= 0 {
        0
    } else {
        path_deltas(path, n - 1) + path[n - 1].cltv_expiry_delta
    }
}

/// A path can be handed to the node exactly where it has a hop, its fees and its payment together
/// fit in 64 bits, and its timelocks together fit in 16 bits; nothing else matters.
pub proof fn law_what_fits_the_node(path: Seq<HopView>)
    ensures
        path_ok(path) <==> path.len() >= 1 && path_fees(path, path.len() as int)
            <= 0xffff_ffff_ffff_ffff && path_deltas(path, path.len() as int) <= 0xffff,
{
    let n = path.len() as int;
    lemma_fees_split(path, n);
    lemma_deltas_split(path, n);
    assert(amount_from(path, n) == 0);
    assert(delay_from(path, n) == 0);
}

proof fn lemma_deltas_split(path: Seq<HopView>, k: int)
    requires
        0 <= k <= path.len(),
    ensures
        delay_from(path, 0) == path_deltas(path, k) + delay_from(path, k),
    decreases k,
{
    if k > 0 {
        lemma_deltas_split(path, k - 1);
    }
}

/// The node receives at the first hop the timelocks of all hops.
pub proof fn law_first_hop_waits_for_all(path: Seq<HopView>)
    requires
        path_ok(path),
    ensures
        sendpay_of(path)[0].delay == path_deltas(path, path.len() as int),
{
    let n = path.len() as int;
    lemma_deltas_split(path, n);
    law_amounts_and_delays_shrink(path, 0, n);
    assert(delay_from(path, n) == 0);
}

/// A further path adds to what a route delivers what the last hop of that path receives, and
/// nothing where it has no hop.
pub proof fn law_each_path_delivers_its_last_amount(paths: Seq<Seq<HopView>>, path: Seq<HopView>)
    ensures
        delivered(Seq::empty(), 0) == 0,
        path.len() == 0 ==> delivered(paths.push(path), paths.len() as int + 1) == delivered(
            paths,
            paths.len() as int,
        ),
        path.len() > 0 ==> delivered(paths.push(path), paths.len() as int + 1) == delivered(
            paths,
            paths.len() as int,
        ) + path[path.len() - 1].fee_msat,
{
    lemma_delivered_prefix(paths, path, paths.len() as int);
}

proof fn lemma_delivered_prefix(paths: Seq<Seq<HopView>>, path: Seq<HopView>, n: int)
    requires
        0 <= n <= paths.len(),
    ensures
        delivered(paths.push(path), n) == delivered(paths, n),
    decreases n,
{
    if n > 0 {
        lemma_delivered_prefix(paths, path, n - 1);
        assert(paths.push(path)[n - 1] == paths[n - 1]);
    }
}

/// The fees of the first `n` hops of a path.
pub open spec fn path_fees(path: Seq<HopView>, n: int) -> int
    decreases n,
{
    if n <= 0 {
        0
    } else {
        path_fees(path, n - 1) + path[n - 1].fee_msat
    }
}

/// The first hop receives what arrives at the end plus the fees of all hops but the last.
pub proof fn law_first_hop_covers_fees(path: Seq<HopView>)
    requires
        path_ok(path),
    ensures
        sendpay_of(path)[0].amount_msat == path.last().fee_msat + path_fees(
            path,
            path.len() - 1,
        ),
{
    let n = path.len() as int;
    lemma_fees_split(path, n - 1);
    assert(amount_from(path, n) == 0);
    law_amounts_and_delays_shrink(path, 0, 0);
}

proof fn lemma_fees_split(path: Seq<HopView>, k: int)
    requires
        0 <= k <= path.len(),
    ensures
        amount_from(path, 0) == path_fees(path, k) + amount_from(path, k),
    decreases k,
{
    if k > 0 {
        lemma_fees_split(path, k - 1);
    }
}

/// Copies a byte string.
pub fn copy_bytes(v: &Vec<u8>) -> (r: Vec<u8>)
    ensures
        r@ == v@,
{
    let r = v.clone();
    assert(r@ =~= v@);
    r
}

/// Copies a path.
pub fn copy_path(path: &Vec<RouteHop>) -> (r: Vec<RouteHop>)
    ensures
        path_view(r@) == path_view(path@),
{
    let mut r: Vec<RouteHop> = Vec::new();
    for i in 0..path.len()
        invariant
            r.len() == i,
            forall|k: int| 0 <= k < i ==> (#[trigger] r@[k])@ == path@[k]@,
    {
        let hop = &path[i];
        r.push(
            RouteHop {
                pubkey: copy_bytes(&hop.pubkey),
                node_features: copy_bytes(&hop.node_features),
                short_channel_id: hop.short_channel_id,
                channel_features: copy_bytes(&hop.channel_features),
                fee_msat: hop.fee_msat,
                cltv_expiry_delta: hop.cltv_expiry_delta,
            },
        );
    }
    assert(path_view(r@) =~= path_view(path@));
    r
}

/// Whether a path can be handed to the node: it has a hop, and its amounts and timelocks fit.
pub fn path_fits(path: &Vec<RouteHop>) -> (r: bool)
    ensures
        r == path_ok(path_view(path@)),
{
    let ghost p = path_view(path@);
    if path.len() == 0 {
        return false;
    }
    let mut amount: u64 = 0;
    let mut delay: u32 = 0;
    let mut j: usize = path.len();
    while j > 0
        invariant
            p == path_view(path@),
            0 <= j <= path.len(),
            path.len() > 0,
            amount == amount_from(p, j as int),
            delay == delay_from(p, j as int),
            delay <= u16::MAX,
        decreases j,
    {
        j = j - 1;
        let hop = &path[j];
        assert(p[j as int] == path@[j as int]@);
        proof {
            law_amounts_and_delays_shrink(p, 0, j as int);
        }
        if hop.fee_msat > u64::MAX - amount {
            return false;
        }
        if hop.cltv_expiry_delta > 65535 - delay {
            return false;
        }
        amount = amount + hop.fee_msat;
        delay = delay + hop.cltv_expiry_delta;
    }
    true
}

/// Whether every path of a route can be handed to the node.
pub fn route_fits(paths: &Vec<Vec<RouteHop>>) -> (r: bool)
    ensures
        r == route_ok(paths_view(paths@)),
{
    for i in 0..paths.len()
        invariant
            forall|k: int| 0 <= k < i ==> path_ok(#[trigger] paths_view(paths@)[k]),
    {
        assert(paths_view(paths@)[i as int] == path_view(paths@[i as int]@));
        if !path_fits(&paths[i]) {
            return false;
        }
    }
    true
}

/// Turns a path found by the router into the hops that the node takes. The router counts at each
/// hop the fee that the hop takes; the node wants at each hop the amount that is to arrive there,
/// which is the payment and all fees still to be paid. The same goes for the timelocks.
pub fn sendpay_route(path: &Vec<RouteHop>) -> (r: Vec<SendpayRoute>)
    requires
        path_ok(path_view(path@)),
    ensures
        sendpay_view(r@) == sendpay_of(path_view(path@)),
        r@.len() == path@.len(),
        forall|j: int|
            0 <= j < r@.len() ==> (#[trigger] r@[j]).id@ == path@[j].pubkey@ && scid_value(
                r@[j].channel@,
            ) == Some(path@[j].short_channel_id),
        forall|j: int|
            0 <= j < r@.len() - 1 ==> (#[trigger] r@[j]).amount_msat - r@[j + 1].amount_msat
                == path@[j].fee_msat && r@[j].delay - r@[j + 1].delay
                == path@[j].cltv_expiry_delta,
        r@[r@.len() - 1].amount_msat == path@[path@.len() - 1].fee_msat,
        r@[r@.len() - 1].delay == path@[path@.len() - 1].cltv_expiry_delta,
{
    let ghost p = path_view(path@);
    let n: usize = path.len();
    let last: usize = n - 1;
    proof {
        lemma_fees_split(p, last as int);
        assert(amount_from(p, n as int) == 0);
        assert(delay_from(p, n as int) == 0);
        assert(p[last as int] == path@[last as int]@);
    }
    // total fees to be paid
    let mut fees: u64 = 0;
    for i in 0..last
        invariant
            n == path.len(),
            last == n - 1,
            p == path_view(path@),
            path_ok(p),
            fees == amount_from(p, 0) - amount_from(p, i as int),
    {
        assert(p[i as int] == path@[i as int]@);
        proof {
            law_amounts_and_delays_shrink(p, 0, i + 1);
        }
        fees = fees + path[i].fee_msat;
    }
    let amount: u64 = path[last].fee_msat;
    // total timelock
    let mut cltv_total: u16 = 0;
    for i in 0..n
        invariant
            n == path.len(),
            p == path_view(path@),
            path_ok(p),
            cltv_total == delay_from(p, 0) - delay_from(p, i as int),
    {
        assert(p[i as int] == path@[i as int]@);
        proof {
            law_amounts_and_delays_shrink(p, 0, i as int);
            law_amounts_and_delays_shrink(p, i as int, i + 1);
        }
        cltv_total = cltv_total + path[i].cltv_expiry_delta as u16;
    }
    let mut hops: Vec<SendpayRoute> = Vec::new();
    for j in 0..last
        invariant
            n == path.len(),
            last == n - 1,
            p == path_view(path@),
            path_ok(p),
            amount == amount_from(p, last as int),
            fees == amount_from(p, j as int) - amount,
            cltv_total == delay_from(p, 0),
            hops.len() == j,
            forall|k: int| 0 <= k < j ==> (#[trigger] hops@[k])@ == sendpay_of(p)[k],
    {
        assert(p[j as int] == path@[j as int]@);
        proof {
            law_amounts_and_delays_shrink(p, 0, j as int);
            law_amounts_and_delays_shrink(p, j as int, last as int);
            law_amounts_and_delays_shrink(p, j + 1, last as int);
            if j > 0 {
                assert(p[j - 1] == path@[j - 1]@);
                assert(hops@[j - 1]@ == sendpay_of(p)[j - 1]);
                law_amounts_and_delays_shrink(p, 0, j - 1);
            }
        }
        let hop = &path[j];
        let delay: u16 = if j == 0 {
            cltv_total
        } else {
            hops[j - 1].delay - path[j - 1].cltv_expiry_delta as u16
        };
        hops.push(
            SendpayRoute {
                amount_msat: fees + amount,
                id: copy_bytes(&hop.pubkey),
                delay,
                channel: sendpay_channel(hop.short_channel_id),
            },
        );
        assert(hops@[j as int]@ =~= sendpay_of(p)[j as int]);
        fees = fees - hop.fee_msat;
    }
    let end = &path[last];
    proof {
        law_amounts_and_delays_shrink(p, 0, last as int);
        if last > 0 {
            assert(p[last - 1] == path@[last - 1]@);
            assert(hops@[last - 1]@ == sendpay_of(p)[last - 1]);
            law_amounts_and_delays_shrink(p, 0, last - 1);
        }
    }
    let delay: u16 = if n == 1 {
        end.cltv_expiry_delta as u16
    } else {
        hops[last - 1].delay - path[last - 1].cltv_expiry_delta as u16
    };
    hops.push(
        SendpayRoute {
            amount_msat: end.fee_msat,
            id: copy_bytes(&end.pubkey),
            delay,
            channel: sendpay_channel(end.short_channel_id),
        },
    );
    assert(hops@[last as int]@ =~= sendpay_of(p)[last as int]);
    assert(sendpay_view(hops@) =~= sendpay_of(p));
    proof {
        assert forall|j: int| 0 <= j < hops@.len() implies (#[trigger] hops@[j]).id@
            == path@[j].pubkey@ && scid_value(hops@[j].channel@) == Some(
            path@[j].short_channel_id,
        ) by {
            assert(hops@[j]@ == sendpay_view(hops@)[j]);
            assert(p[j] == path@[j]@);
            law_hops_name_their_own_node_and_channel(p, j);
        }
        assert forall|j: int| 0 <= j < hops@.len() - 1 implies (#[trigger] hops@[j]).amount_msat
            - hops@[j + 1].amount_msat == path@[j].fee_msat && hops@[j].delay - hops@[j + 1].delay
            == path@[j].cltv_expiry_delta by {
            assert(hops@[j]@ == sendpay_view(hops@)[j]);
            assert(hops@[j + 1]@ == sendpay_view(hops@)[j + 1]);
            assert(p[j] == path@[j]@);
            law_hop_keeps_its_fee(p, j);
        }
        assert(hops@[last as int]@ == sendpay_view(hops@)[last as int]);
        law_last_hop_receives_the_payment(p);
    }
    hops
}

/// What a route delivers over all its paths, without the fees; nothing where the sum does not fit
/// in 64 bits.
pub fn get_total_amount(paths: &Vec<Vec<RouteHop>>) -> (r: Option<u64>)
    ensures
        match r {
            Some(total) => total == delivered(paths_view(paths@), paths.len() as int),
            None => delivered(paths_view(paths@), paths.len() as int) > u64::MAX,
        },
{
    let ghost v = paths_view(paths@);
    let mut total: u64 = 0;
    for i in 0..paths.len()
        invariant
            v == paths_view(paths@),
            total == delivered(v, i as int),
    {
        let path = &paths[i];
        assert(v[i as int] == path_view(path@));
        let amount: u64 = if path.len() == 0 {
            0
        } else {
            path[path.len() - 1].fee_msat
        };
        assert(delivered(v, i + 1) == total + amount);
        if amount > u64::MAX - total {
            proof {
                lemma_delivered_grows(v, i + 1, paths.len() as int);
            }
            return None;
        }
        total = total + amount;
    }
    Some(total)
}

proof fn lemma_delivered_grows(paths: Seq<Seq<HopView>>, j: int, k: int)
    requires
        j <= k,
    ensures
        delivered(paths, j) <= delivered(paths, k),
    decreases k,
{
    if 0 < k && j < k {
        lemma_delivered_grows(paths, j, k - 1);
    }
}

} // verus!
