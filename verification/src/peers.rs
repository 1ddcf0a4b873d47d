//! The channels of the node itself, over which a route can begin.

use crate::params::bytes_view;
use crate::route::copy_bytes;
use crate::scid::{cl_to_int_checked, scid_value};
use crate::send::optional_text;
use vstd::prelude::*;
use vstd::string::*;

verus! {

/// The states of a channel.
#[derive(Debug, PartialEq, Eq, Structural, Clone, Copy)]
pub enum ChannelState {
    Openingd,
    ChanneldAwaitingLockin,
    ChanneldNormal,
    ChanneldShuttingDown,
    ClosingdSigexchange,
    ClosingdComplete,
    AwaitingUnilateral,
    FundingSpendSeen,
    Onchain,
    DualopendOpenInit,
    DualopendAwaitingLockin,
}

/// A channel to a peer, as the node lists it.
#[derive(Debug)]
pub struct PeerChannel {
    pub state: ChannelState,
    pub short_channel_id: Option<String>,
    pub total_msat: Option<u64>,
    pub our_reserve_msat: Option<u64>,
    pub spendable_msat: Option<u64>,
    pub maximum_htlc_out_msat: Option<u64>,
}

/// A peer, as the node lists it.
#[derive(Debug)]
pub struct Peer {
    /// The peer, as a compressed key.
    pub id: Vec<u8>,
    pub connected: bool,
    pub channels: Vec<PeerChannel>,
}

/// What a `PeerChannel` holds.
#[verifier::ext_equal]
pub struct ChannelView {
    pub state: ChannelState,
    pub short_channel_id: Option<Seq<char>>,
    pub total_msat: Option<u64>,
    pub our_reserve_msat: Option<u64>,
    pub spendable_msat: Option<u64>,
    pub maximum_htlc_out_msat: Option<u64>,
}

impl View for PeerChannel {
    type V = ChannelView;

    open spec fn view(&self) -> ChannelView {
        ChannelView {
            state: self.state,
            short_channel_id: optional_text(self.short_channel_id),
            total_msat: self.total_msat,
            our_reserve_msat: self.our_reserve_msat,
            spendable_msat: self.spendable_msat,
            maximum_htlc_out_msat: self.maximum_htlc_out_msat,
        }
    }
}

/// What a `Peer` holds.
#[verifier::ext_equal]
pub struct PeerView {
    pub id: Seq<u8>,
    pub connected: bool,
    pub channels: Seq<ChannelView>,
}

impl View for Peer {
    type V = PeerView;

    open spec fn view(&self) -> PeerView {
        PeerView {
            id: self.id@,
            connected: self.connected,
            channels: self.channels@.map_values(|c: PeerChannel| c@),
        }
    }
}

/// What a list of peers holds.
pub open spec fn peers_view(peers: Seq<Peer>) -> Seq<PeerView> {
    peers.map_values(|p: Peer| p@)
}

/// A channel over which a route can begin, as the router takes it. What can be spent over the
/// channel is what matters; the rest is filled in so that the router accepts the channel.
#[derive(Debug)]
pub struct FirstHop {
    pub channel_id: [u8; 32],
    /// The peer, as a compressed key.
    pub node_id: Vec<u8>,
    /// The features of the peer, as flags with the least significant byte first.
    pub features: Vec<u8>,
    pub counterparty_reserve: u64,
    pub short_channel_id: u64,
    pub channel_value_satoshis: u64,
    pub unspendable_punishment_reserve: u64,
    pub user_channel_id: u128,
    pub balance_msat: u64,
    pub outbound_capacity_msat: u64,
    pub next_outbound_htlc_limit_msat: u64,
    pub inbound_capacity_msat: u64,
    pub confirmations_required: u32,
    pub confirmations: u32,
    pub force_close_spend_delay: u16,
    pub is_outbound: bool,
    pub is_channel_ready: bool,
    pub is_usable: bool,
    pub is_public: bool,
}

/// What a `FirstHop` holds.
#[verifier::ext_equal]
pub struct FirstHopView {
    pub channel_id: Seq<u8>,
    pub node_id: Seq<u8>,
    pub features: Seq<u8>,
    pub counterparty_reserve: u64,
    pub short_channel_id: u64,
    pub channel_value_satoshis: u64,
    pub unspendable_punishment_reserve: u64,
    pub user_channel_id: u128,
    pub balance_msat: u64,
    pub outbound_capacity_msat: u64,
    pub next_outbound_htlc_limit_msat: u64,
    pub inbound_capacity_msat: u64,
    pub confirmations_required: u32,
    pub confirmations: u32,
    pub force_close_spend_delay: u16,
    pub is_outbound: bool,
    pub is_channel_ready: bool,
    pub is_usable: bool,
    pub is_public: bool,
}

impl View for FirstHop {
    type V = FirstHopView;

    open spec fn view(&self) -> FirstHopView {
        FirstHopView {
            channel_id: self.channel_id@,
            node_id: self.node_id@,
            features: self.features@,
            counterparty_reserve: self.counterparty_reserve,
            short_channel_id: self.short_channel_id,
            channel_value_satoshis: self.channel_value_satoshis,
            unspendable_punishment_reserve: self.unspendable_punishment_reserve,
            user_channel_id: self.user_channel_id,
            balance_msat: self.balance_msat,
            outbound_capacity_msat: self.outbound_capacity_msat,
            next_outbound_htlc_limit_msat: self.next_outbound_htlc_limit_msat,
            inbound_capacity_msat: self.inbound_capacity_msat,
            confirmations_required: self.confirmations_required,
            confirmations: self.confirmations,
            force_close_spend_delay: self.force_close_spend_delay,
            is_outbound: self.is_outbound,
            is_channel_ready: self.is_channel_ready,
            is_usable: self.is_usable,
            is_public: self.is_public,
        }
    }
}

/// What a list of first hops holds.
pub open spec fn first_hops_view(hops: Seq<FirstHop>) -> Seq<FirstHopView> {
    hops.map_values(|h: FirstHop| h@)
}

/// A channel in use, with the peer at its other end.
#[verifier::ext_equal]
pub struct OpenChannel {
    pub peer: Seq<u8>,
    pub channel: ChannelView,
}

/// Those of the first `n` channels of a peer that are in normal operation.
pub open spec fn normal_channels(peer: PeerView, n: int) -> Seq<OpenChannel>
    decreases n,
{
    if n <= 0 {
        Seq::empty()
    } else {
        let front = normal_channels(peer, n - 1);
        if peer.channels[n - 1].state == ChannelState::ChanneldNormal {
            front.push(OpenChannel { peer: peer.id, channel: peer.channels[n - 1] })
        } else {
            front
        }
    }
}

/// The channels in normal operation to those of the first `n` peers that are connected, in order.
pub open spec fn open_channels(peers: Seq<PeerView>, n: int) -> Seq<OpenChannel>
    decreases n,
{
    if n <= 0 {
        Seq::empty()
    } else {
        let front = open_channels(peers, n - 1);
        if peers[n - 1].connected {
            front + normal_channels(peers[n - 1], peers[n - 1].channels.len() as int)
        } else {
            front
        }
    }
}

/// The number of a channel, where it has an id that can be read.
pub open spec fn channel_number(c: ChannelView) -> Option<u64> {
    match c.short_channel_id {
        Some(text) => scid_value(text),
        None => None,
    }
}

/// Whether all amounts of a channel are known.
pub open spec fn amounts_known(c: ChannelView) -> bool {
    &&& c.total_msat is Some
    &&& c.our_reserve_msat is Some
    &&& c.spendable_msat is Some
    &&& c.maximum_htlc_out_msat is Some
}

/// The numbers of the channels in use, where each has one.
pub open spec fn channel_numbers(channels: Seq<OpenChannel>) -> Option<Seq<u64>> {
    if forall|i: int|
        0 <= i < channels.len() ==> channel_number((#[trigger] channels[i]).channel) is Some {
        Some(Seq::new(channels.len(), |i: int| channel_number(channels[i].channel)->0))
    } else {
        None
    }
}

/// The first hop that a channel in use stands for, given the features that the graph holds of it.
pub open spec fn first_hop_of(c: OpenChannel, features: Seq<u8>) -> FirstHopView {
    FirstHopView {
        channel_id: Seq::new(32, |i: int| 2u8),
        node_id: c.peer,
        features,
        counterparty_reserve: 0,
        short_channel_id: channel_number(c.channel)->0,
        channel_value_satoshis: c.channel.total_msat->0 / 1000,
        unspendable_punishment_reserve: c.channel.our_reserve_msat->0 / 1000,
        user_channel_id: 0,
        balance_msat: c.channel.spendable_msat->0,
        outbound_capacity_msat: c.channel.spendable_msat->0,
        next_outbound_htlc_limit_msat: c.channel.maximum_htlc_out_msat->0,
        inbound_capacity_msat: 0,
        confirmations_required: 3,
        confirmations: 100,
        force_close_spend_delay: 100,
        is_outbound: true,
        is_channel_ready: true,
        is_usable: true,
        is_public: true,
    }
}

/// The first hops that the first `n` channels in use stand for. Those that the graph does not hold
/// are left out.
pub open spec fn first_hops_of(
    channels: Seq<OpenChannel>,
    features: Seq<Option<Seq<u8>>>,
    n: int,
) -> Seq<FirstHopView>
    decreases n,
{
    if n <= 0 {
        Seq::empty()
    } else {
        let front = first_hops_of(channels, features, n - 1);
        match features[n - 1] {
            Some(f) => front.push(first_hop_of(channels[n - 1], f)),
            None => front,
        }
    }
}

/// Whether each channel in use has a number, and the amounts of those that the graph holds are
/// known.
pub open spec fn hops_ready(channels: Seq<OpenChannel>, features: Seq<Option<Seq<u8>>>) -> bool {
    forall|i: int|
        0 <= i < channels.len() ==> channel_number((#[trigger] channels[i]).channel) is Some && (
        features[i] is Some ==> amounts_known(channels[i].channel))
}

/// What a list of features holds, each of which may be missing.
pub open spec fn features_view(features: Seq<Option<Vec<u8>>>) -> Seq<Option<Seq<u8>>> {
    features.map_values(|f: Option<Vec<u8>>| bytes_view(f))
}

/// Channels in use are in normal operation and belong to a connected peer that lists them.
pub proof fn law_open_channels_are_normal(peers: Seq<PeerView>, n: int, k: int)
    requires
        0 <= n <= peers.len(),
        0 <= k < open_channels(peers, n).len(),
    ensures
        open_channels(peers, n)[k].channel.state == ChannelState::ChanneldNormal,
        exists|i: int|
            0 <= i < n && (#[trigger] peers[i]).connected && peers[i].id == open_channels(
                peers,
                n,
            )[k].peer && peers[i].channels.contains(open_channels(peers, n)[k].channel),
    decreases n,
{
    if n > 0 {
        let front = open_channels(peers, n - 1);
        let p = peers[n - 1];
        if k < front.len() {
            law_open_channels_are_normal(peers, n - 1, k);
            let i = choose|i: int|
                0 <= i < n - 1 && (#[trigger] peers[i]).connected && peers[i].id == front[k].peer
                    && peers[i].channels.contains(front[k].channel);
            assert(peers[i].connected);
        } else {
            lemma_normal_channels(p, p.channels.len() as int, k - front.len());
            assert(peers[n - 1].connected);
        }
    }
}

/// Every first hop stands for a channel in normal operation to a connected peer that lists it, with
/// the features that the graph holds of that channel.
pub proof fn law_first_hops_are_open_channels(
    peers: Seq<PeerView>,
    features: Seq<Option<Seq<u8>>>,
    k: int,
)
    requires
        0 <= k < first_hops_of(
            open_channels(peers, peers.len() as int),
            features,
            open_channels(peers, peers.len() as int).len() as int,
        ).len(),
    ensures
        ({
            let channels = open_channels(peers, peers.len() as int);
            let hops = first_hops_of(channels, features, channels.len() as int);
            exists|i: int, p: int|
                {
                    &&& 0 <= i < channels.len() && 0 <= p < peers.len()
                    &&& features[i] is Some
                    &&& hops[k] == first_hop_of(#[trigger] channels[i], features[i]->0)
                    &&& channels[i].channel.state == ChannelState::ChanneldNormal
                    &&& (#[trigger] peers[p]).connected
                    &&& peers[p].id == hops[k].node_id
                    &&& peers[p].channels.contains(channels[i].channel)
                }
        }),
{
    let channels = open_channels(peers, peers.len() as int);
    let hops = first_hops_of(channels, features, channels.len() as int);
    lemma_first_hop_source(channels, features, channels.len() as int, k);
    let i = choose|i: int|
        0 <= i < channels.len() && features[i] is Some && hops[k] == first_hop_of(
            #[trigger] channels[i],
            features[i]->0,
        );
    law_open_channels_are_normal(peers, peers.len() as int, i);
    let p = choose|p: int|
        0 <= p < peers.len() && (#[trigger] peers[p]).connected && peers[p].id == channels[i].peer
            && peers[p].channels.contains(channels[i].channel);
    assert(peers[p].connected && peers[p].id == hops[k].node_id);
}

proof fn lemma_first_hop_source(
    channels: Seq<OpenChannel>,
    features: Seq<Option<Seq<u8>>>,
    n: int,
    k: int,
)
    requires
        0 <= n <= channels.len(),
        0 <= k < first_hops_of(channels, features, n).len(),
    ensures
        exists|i: int|
            0 <= i < n && features[i] is Some && first_hops_of(channels, features, n)[k]
                == first_hop_of(#[trigger] channels[i], features[i]->0),
    decreases n,
{
    if n > 0 {
        let front = first_hops_of(channels, features, n - 1);
        if k < front.len() {
            lemma_first_hop_source(channels, features, n - 1, k);
        } else {
            assert(first_hops_of(channels, features, n)[k] == first_hop_of(
                channels[n - 1],
                features[n - 1]->0,
            ));
        }
    }
}

proof fn lemma_normal_channels(peer: PeerView, n: int, k: int)
    requires
        0 <= n <= peer.channels.len(),
        0 <= k < normal_channels(peer, n).len(),
    ensures
        normal_channels(peer, n)[k].channel.state == ChannelState::ChanneldNormal,
        normal_channels(peer, n)[k].peer == peer.id,
        peer.channels.contains(normal_channels(peer, n)[k].channel),
    decreases n,
{
    if n > 0 {
        let front = normal_channels(peer, n - 1);
        if k < front.len() {
            lemma_normal_channels(peer, n - 1, k);
        } else {
            assert(peer.channels[n - 1] == normal_channels(peer, n)[k].channel);
        }
    }
}

/// The test for being in normal operation.
pub open spec fn in_normal_operation() -> spec_fn(ChannelView) -> bool {
    |c: ChannelView| c.state == ChannelState::ChanneldNormal
}

/// Joins a channel with the peer at its other end.
pub open spec fn joined_with(peer: Seq<u8>) -> spec_fn(ChannelView) -> OpenChannel {
    |c: ChannelView| OpenChannel { peer, channel: c }
}

/// A further peer that is connected adds all its channels in normal operation to the channels in
/// use, in order and once each, with that peer at the other end; one that is not connected adds
/// none.
pub proof fn law_channels_in_use_are_all_normal_ones(peers: Seq<PeerView>, p: PeerView)
    ensures
        open_channels(peers, 0).len() == 0,
        open_channels(peers.push(p), peers.len() as int + 1) == open_channels(
            peers,
            peers.len() as int,
        ) + (if p.connected {
            p.channels.filter(in_normal_operation()).map_values(joined_with(p.id))
        } else {
            Seq::empty()
        }),
{
    lemma_open_channels_prefix(peers, p, peers.len() as int);
    lemma_normal_channels_are_filtered(p, p.channels.len() as int);
    assert(p.channels.take(p.channels.len() as int) =~= p.channels);
    let front = open_channels(peers, peers.len() as int);
    assert(front + Seq::<OpenChannel>::empty() =~= front);
}

proof fn lemma_open_channels_prefix(peers: Seq<PeerView>, p: PeerView, n: int)
    requires
        0 <= n <= peers.len(),
    ensures
        open_channels(peers.push(p), n) == open_channels(peers, n),
    decreases n,
{
    if n > 0 {
        lemma_open_channels_prefix(peers, p, n - 1);
        assert(peers.push(p)[n - 1] == peers[n - 1]);
    }
}

proof fn lemma_normal_channels_are_filtered(p: PeerView, n: int)
    requires
        0 <= n <= p.channels.len(),
    ensures
        normal_channels(p, n) == p.channels.take(n).filter(in_normal_operation()).map_values(
            joined_with(p.id),
        ),
    decreases n,
{
    reveal(Seq::filter);
    let f = in_normal_operation();
    let g = joined_with(p.id);
    if n > 0 {
        lemma_normal_channels_are_filtered(p, n - 1);
        assert(p.channels.take(n).drop_last() =~= p.channels.take(n - 1));
        let front = p.channels.take(n - 1).filter(f);
        assert(front.push(p.channels[n - 1]).map_values(g) =~= front.map_values(g).push(
            g(p.channels[n - 1]),
        ));
    } else {
        assert(p.channels.take(0) =~= Seq::<ChannelView>::empty());
        assert(normal_channels(p, 0) =~= p.channels.take(n).filter(f).map_values(g));
    }
}

/// How many of the first `n` channels in use the graph holds.
pub open spec fn held_by_graph(features: Seq<Option<Seq<u8>>>, n: int) -> nat
    decreases n,
{
    if n <= 0 {
        0
    } else {
        held_by_graph(features, n - 1) + (if features[n - 1] is Some {
            1nat
        } else {
            0nat
        })
    }
}

/// Every channel in use that the graph holds stands for exactly one first hop, in order: there are as
/// many hops as such channels, and each such channel has its hop behind those of the channels
/// before it, whatever its amounts are.
pub proof fn law_every_channel_held_is_offered(
    channels: Seq<OpenChannel>,
    features: Seq<Option<Seq<u8>>>,
    n: int,
    i: int,
)
    requires
        0 <= i < n <= channels.len(),
    ensures
        first_hops_of(channels, features, n).len() == held_by_graph(features, n),
        features[i] is Some ==> held_by_graph(features, i) < held_by_graph(features, n),
        features[i] is Some ==> {
            let hop = first_hops_of(channels, features, n)[held_by_graph(features, i) as int];
            &&& hop.node_id == channels[i].peer
            &&& hop.features == features[i]->0
            &&& channel_number(channels[i].channel) == Some(hop.short_channel_id) || channel_number(
                channels[i].channel,
            ) is None
            &&& hop.balance_msat == channels[i].channel.spendable_msat->0
            &&& hop.outbound_capacity_msat == channels[i].channel.spendable_msat->0
            &&& hop.next_outbound_htlc_limit_msat == channels[i].channel.maximum_htlc_out_msat->0
            &&& 1000 * hop.channel_value_satoshis <= channels[i].channel.total_msat->0 < 1000
                * hop.channel_value_satoshis + 1000
            &&& 1000 * hop.unspendable_punishment_reserve <= channels[i].channel.our_reserve_msat->0
                < 1000 * hop.unspendable_punishment_reserve + 1000
        },
    decreases n,
{
    lemma_hops_counted(channels, features, n);
    lemma_hops_counted(channels, features, n - 1);
    if i < n - 1 {
        law_every_channel_held_is_offered(channels, features, n - 1, i);
    }
}

proof fn lemma_hops_counted(channels: Seq<OpenChannel>, features: Seq<Option<Seq<u8>>>, n: int)
    requires
        n <= channels.len(),
    ensures
        first_hops_of(channels, features, n).len() == held_by_graph(features, n),
    decreases n,
{
    if n > 0 {
        lemma_hops_counted(channels, features, n - 1);
    }
}

/// Every channel in normal operation of a connected peer is among the channels in use, so that it
/// stands for a first hop wherever the graph holds it.
pub proof fn law_every_normal_channel_is_in_use(peers: Seq<PeerView>, p: int, j: int)
    requires
        0 <= p < peers.len(),
        peers[p].connected,
        0 <= j < peers[p].channels.len(),
        peers[p].channels[j].state == ChannelState::ChanneldNormal,
    ensures
        open_channels(peers, peers.len() as int).contains(
            OpenChannel { peer: peers[p].id, channel: peers[p].channels[j] },
        ),
{
    lemma_normal_channel_listed(peers[p], peers[p].channels.len() as int, j);
    lemma_channel_in_use(
        peers,
        peers.len() as int,
        p,
        OpenChannel { peer: peers[p].id, channel: peers[p].channels[j] },
    );
}

proof fn lemma_normal_channel_listed(p: PeerView, n: int, j: int)
    requires
        0 <= j < n <= p.channels.len(),
        p.channels[j].state == ChannelState::ChanneldNormal,
    ensures
        normal_channels(p, n).contains(OpenChannel { peer: p.id, channel: p.channels[j] }),
    decreases n,
{
    let c = OpenChannel { peer: p.id, channel: p.channels[j] };
    let front = normal_channels(p, n - 1);
    if j < n - 1 {
        lemma_normal_channel_listed(p, n - 1, j);
        let k = choose|k: int| 0 <= k < front.len() && front[k] == c;
        assert(normal_channels(p, n)[k] == c);
    } else {
        assert(normal_channels(p, n)[front.len() as int] == c);
    }
}

proof fn lemma_channel_in_use(peers: Seq<PeerView>, n: int, p: int, c: OpenChannel)
    requires
        0 <= p < n <= peers.len(),
        peers[p].connected,
        normal_channels(peers[p], peers[p].channels.len() as int).contains(c),
    ensures
        open_channels(peers, n).contains(c),
    decreases n,
{
    let front = open_channels(peers, n - 1);
    if p < n - 1 {
        lemma_channel_in_use(peers, n - 1, p, c);
        let k = choose|k: int| 0 <= k < front.len() && front[k] == c;
        assert(open_channels(peers, n)[k] == c);
    } else {
        let own = normal_channels(peers[p], peers[p].channels.len() as int);
        let k = choose|k: int| 0 <= k < own.len() && own[k] == c;
        assert(open_channels(peers, n)[front.len() + k] == c);
    }
}

/// A first hop is filled in so that the router takes the channel for a public and confirmed one that
/// is ready to be used for sending.
pub proof fn law_first_hop_is_ready_to_use(c: OpenChannel, features: Seq<u8>)
    ensures
        ({
            let hop = first_hop_of(c, features);
            &&& hop.is_outbound && hop.is_channel_ready && hop.is_usable && hop.is_public
            &&& hop.confirmations_required == 3 && hop.confirmations == 100
            &&& hop.force_close_spend_delay == 100
            &&& hop.inbound_capacity_msat == 0 && hop.counterparty_reserve == 0
            &&& hop.user_channel_id == 0
            &&& hop.channel_id.len() == 32
            &&& forall|i: int| 0 <= i < 32 ==> #[trigger] hop.channel_id[i] == 2
        }),
{
}

/// A channel has the number that its id denotes, and the channels in use have numbers together
/// exactly where each has one, in order. The first hops are ready exactly where each channel in use
/// has a number and each that the graph holds has its four amounts.
pub proof fn law_what_is_asked_of_channels(
    channels: Seq<OpenChannel>,
    features: Seq<Option<Seq<u8>>>,
    c: ChannelView,
)
    ensures
        c.short_channel_id is None ==> channel_number(c) is None,
        c.short_channel_id is Some ==> channel_number(c) == scid_value(c.short_channel_id->0),
        channel_numbers(channels) is None <==> exists|i: int|
            0 <= i < channels.len() && channel_number((#[trigger] channels[i]).channel) is None,
        channel_numbers(channels) matches Some(numbers) ==> numbers.len() == channels.len()
            && forall|i: int|
            0 <= i < channels.len() ==> channel_number((#[trigger] channels[i]).channel) == Some(
                numbers[i],
            ),
        !hops_ready(channels, features) <==> exists|i: int|
            0 <= i < channels.len() && (channel_number((#[trigger] channels[i]).channel) is None || (
            features[i] is Some && (channels[i].channel.total_msat is None
                || channels[i].channel.our_reserve_msat is None
                || channels[i].channel.spendable_msat is None
                || channels[i].channel.maximum_htlc_out_msat is None))),
{
}

/// What is held of peers, channels and first hops is each of their fields, as they are.
pub proof fn law_views_show_channels_as_they_are(
    c: PeerChannel,
    peers: Vec<Peer>,
    features: Vec<Option<Vec<u8>>>,
    hops: Vec<FirstHop>,
    h: FirstHop,
    i: int,
    j: int,
)
    ensures
        c@.state == c.state && c@.total_msat == c.total_msat,
        c@.our_reserve_msat == c.our_reserve_msat && c@.spendable_msat == c.spendable_msat,
        c@.maximum_htlc_out_msat == c.maximum_htlc_out_msat,
        c.short_channel_id is Some ==> c@.short_channel_id == Some(c.short_channel_id->0@),
        c.short_channel_id is None ==> c@.short_channel_id is None,
        peers_view(peers@).len() == peers@.len(),
        0 <= i < peers@.len() ==> {
            &&& peers_view(peers@)[i].id == peers@[i].id@
            &&& peers_view(peers@)[i].connected == peers@[i].connected
            &&& peers_view(peers@)[i].channels.len() == peers@[i].channels@.len()
            &&& 0 <= j < peers@[i].channels@.len() ==> peers_view(peers@)[i].channels[j]
                == peers@[i].channels@[j]@
        },
        features_view(features@).len() == features@.len(),
        0 <= i < features@.len() ==> features_view(features@)[i] == bytes_view(features@[i]),
        first_hops_view(hops@).len() == hops@.len(),
        0 <= i < hops@.len() ==> first_hops_view(hops@)[i] == hops@[i]@,
        h@.channel_id == h.channel_id@ && h@.node_id == h.node_id@ && h@.features == h.features@,
        h@.counterparty_reserve == h.counterparty_reserve,
        h@.short_channel_id == h.short_channel_id,
        h@.channel_value_satoshis == h.channel_value_satoshis,
        h@.unspendable_punishment_reserve == h.unspendable_punishment_reserve,
        h@.user_channel_id == h.user_channel_id && h@.balance_msat == h.balance_msat,
        h@.outbound_capacity_msat == h.outbound_capacity_msat,
        h@.next_outbound_htlc_limit_msat == h.next_outbound_htlc_limit_msat,
        h@.inbound_capacity_msat == h.inbound_capacity_msat,
        h@.confirmations_required == h.confirmations_required,
        h@.confirmations == h.confirmations,
        h@.force_close_spend_delay == h.force_close_spend_delay,
        h@.is_outbound == h.is_outbound && h@.is_channel_ready == h.is_channel_ready,
        h@.is_usable == h.is_usable && h@.is_public == h.is_public,
{
}

/// The place of a channel in a list of peers.
struct Place {
    peer: usize,
    channel: usize,
}

spec fn place_ok(peers: Seq<Peer>, p: Place) -> bool {
    p.peer < peers.len() && p.channel < peers[p.peer as int].channels@.len()
}

spec fn at_place(peers: Seq<Peer>, p: Place) -> OpenChannel {
    OpenChannel {
        peer: peers[p.peer as int].id@,
        channel: peers[p.peer as int].channels@[p.channel as int]@,
    }
}

spec fn places_stand_for(peers: Seq<Peer>, places: Seq<Place>, channels: Seq<OpenChannel>) -> bool {
    &&& places.len() == channels.len()
    &&& forall|i: int|
        0 <= i < places.len() ==> place_ok(peers, #[trigger] places[i]) && at_place(
            peers,
            places[i],
        ) == channels[i]
}

/// Finds the channels in use.
fn find_open_channels(peers: &Vec<Peer>) -> (r: Vec<Place>)
    ensures
        places_stand_for(peers@, r@, open_channels(peers_view(peers@), peers.len() as int)),
{
    let ghost v = peers_view(peers@);
    let mut places: Vec<Place> = Vec::new();
    for i in 0..peers.len()
        invariant
            v == peers_view(peers@),
            places_stand_for(peers@, places@, open_channels(v, i as int)),
    {
        let peer = &peers[i];
        let ghost before = open_channels(v, i as int);
        assert(v[i as int] == peer@);
        if peer.connected {
            assert(before + normal_channels(peer@, 0) =~= before);
            for j in 0..peer.channels.len()
                invariant
                    i < peers.len(),
                    v == peers_view(peers@),
                    peer@ == v[i as int],
                    *peer == peers@[i as int],
                    places_stand_for(peers@, places@, before + normal_channels(peer@, j as int)),
            {
                let ghost front = normal_channels(peer@, j as int);
                assert(peer@.channels[j as int] == peer.channels@[j as int]@);
                if peer.channels[j].state == ChannelState::ChanneldNormal {
                    places.push(Place { peer: i, channel: j });
                    assert(before + normal_channels(peer@, j + 1) =~= (before + front).push(
                        OpenChannel { peer: peer@.id, channel: peer@.channels[j as int] },
                    ));
                }
            }
        }
    }
    places
}

/// The numbers of the channels in use, which are to be looked up in the graph, in order; nothing
/// where one of them has no number.
pub fn local_channels(peers: &Vec<Peer>) -> (r: Option<Vec<u64>>)
    ensures
        match r {
            Some(numbers) => channel_numbers(open_channels(peers_view(peers@), peers.len() as int))
                == Some(numbers@),
            None => channel_numbers(open_channels(peers_view(peers@), peers.len() as int)) is None,
        },
{
    let ghost channels = open_channels(peers_view(peers@), peers.len() as int);
    let places = find_open_channels(peers);
    let mut numbers: Vec<u64> = Vec::new();
    for i in 0..places.len()
        invariant
            channels == open_channels(peers_view(peers@), peers.len() as int),
            places_stand_for(peers@, places@, channels),
            numbers.len() == i,
            forall|k: int|
                0 <= k < i ==> channel_number((#[trigger] channels[k]).channel) == Some(
                    numbers@[k],
                ),
    {
        let place = &places[i];
        assert(place_ok(peers@, places@[i as int]));
        assert(at_place(peers@, places@[i as int]) == channels[i as int]);
        let channel = &peers[place.peer].channels[place.channel];
        match number_of(channel) {
            Some(n) => numbers.push(n),
            None => {
                return None;
            },
        }
    }
    assert(numbers@ =~= channel_numbers(channels)->0);
    Some(numbers)
}

fn number_of(channel: &PeerChannel) -> (r: Option<u64>)
    ensures
        r == channel_number(channel@),
{
    match &channel.short_channel_id {
        Some(text) => cl_to_int_checked(text.as_str()),
        None => None,
    }
}

/// The channels over which a route can begin, given the features that the graph holds of each
/// channel in use. A channel that the graph does not hold is left out. Nothing where a channel has
/// no number or the amounts of one that the graph holds are not known.
pub fn first_hops(peers: &Vec<Peer>, features: &Vec<Option<Vec<u8>>>) -> (r: Option<Vec<FirstHop>>)
    requires
        features@.len() == open_channels(peers_view(peers@), peers.len() as int).len(),
    ensures
        match r {
            Some(hops) => {
                let channels = open_channels(peers_view(peers@), peers.len() as int);
                &&& hops_ready(channels, features_view(features@))
                &&& hops@.len() == held_by_graph(features_view(features@), channels.len() as int)
                &&& first_hops_view(hops@) == first_hops_of(
                    channels,
                    features_view(features@),
                    channels.len() as int,
                )
            },
            None => !hops_ready(
                open_channels(peers_view(peers@), peers.len() as int),
                features_view(features@),
            ),
        },
{
    let ghost channels = open_channels(peers_view(peers@), peers.len() as int);
    let ghost fs = features_view(features@);
    let places = find_open_channels(peers);
    let mut hops: Vec<FirstHop> = Vec::new();
    assert(first_hops_view(hops@) =~= first_hops_of(channels, fs, 0));
    for i in 0..places.len()
        invariant
            channels == open_channels(peers_view(peers@), peers.len() as int),
            places_stand_for(peers@, places@, channels),
            features@.len() == channels.len(),
            fs == features_view(features@),
            forall|k: int|
                0 <= k < i ==> channel_number((#[trigger] channels[k]).channel) is Some && (
                fs[k] is Some ==> amounts_known(channels[k].channel)),
            first_hops_view(hops@) == first_hops_of(channels, fs, i as int),
    {
        let place = &places[i];
        assert(place_ok(peers@, places@[i as int]));
        assert(at_place(peers@, places@[i as int]) == channels[i as int]);
        assert(fs[i as int] == bytes_view(features@[i as int]));
        let ghost front = hops@;
        let peer = &peers[place.peer];
        let channel = &peer.channels[place.channel];
        let number: u64 = match number_of(channel) {
            Some(n) => n,
            None => {
                return None;
            },
        };
        match &features[i] {
            None => {},
            Some(f) => {
                match (
                    channel.total_msat,
                    channel.our_reserve_msat,
                    channel.spendable_msat,
                    channel.maximum_htlc_out_msat,
                ) {
                    (Some(total), Some(reserve), Some(spendable), Some(limit)) => {
                        let hop = FirstHop {
                            channel_id: [2u8; 32],
                            node_id: copy_bytes(&peer.id),
                            features: copy_bytes(f),
                            counterparty_reserve: 0,
                            short_channel_id: number,
                            channel_value_satoshis: total / 1000,
                            unspendable_punishment_reserve: reserve / 1000,
                            user_channel_id: 0,
                            balance_msat: spendable,
                            outbound_capacity_msat: spendable,
                            next_outbound_htlc_limit_msat: limit,
                            inbound_capacity_msat: 0,
                            confirmations_required: 3,
                            confirmations: 100,
                            force_close_spend_delay: 100,
                            is_outbound: true,
                            is_channel_ready: true,
                            is_usable: true,
                            is_public: true,
                        };
                        assert(hop@ =~= first_hop_of(channels[i as int], f@));
                        hops.push(hop);
                        assert(first_hops_view(hops@) =~= first_hops_view(front).push(hop@));
                    },
                    _ => {
                        return None;
                    },
                }
            },
        }
    }
    proof {
        lemma_hops_counted(channels, fs, channels.len() as int);
    }
    assert(hops@.len() == first_hops_view(hops@).len());
    Some(hops)
}

} // verus!
