use altpay::peers::{first_hops, local_channels, ChannelState, Peer, PeerChannel};

fn channel(state: ChannelState, id: Option<&str>) -> PeerChannel {
    PeerChannel {
        state,
        short_channel_id: id.map(String::from),
        total_msat: Some(5_000_999),
        our_reserve_msat: Some(50_000),
        spendable_msat: Some(4_000_000),
        maximum_htlc_out_msat: Some(3_000_000),
    }
}

fn peer(id: u8, connected: bool, channels: Vec<PeerChannel>) -> Peer {
    Peer { id: vec![id; 33], connected, channels }
}

fn peers() -> Vec<Peer> {
    vec![
        peer(1, true, vec![
            channel(ChannelState::ChanneldNormal, Some("1x1x1")),
            channel(ChannelState::Onchain, None),
            channel(ChannelState::ChanneldNormal, Some("2x2x2")),
        ]),
        peer(2, false, vec![channel(ChannelState::ChanneldNormal, Some("3x3x3"))]),
        peer(3, true, vec![channel(ChannelState::ChanneldNormal, Some("4x4x4"))]),
    ]
}

fn scid(n: u64) -> u64 {
    (n << 40) | (n << 16) | n
}

#[test]
fn normal_channels_of_connected_peers() {
    assert_eq!(local_channels(&peers()), Some(vec![scid(1), scid(2), scid(4)]));
    assert_eq!(local_channels(&vec![]), Some(vec![]));
}

#[test]
fn channels_without_a_number() {
    let bad = vec![peer(1, true, vec![channel(ChannelState::ChanneldNormal, None)])];
    assert_eq!(local_channels(&bad), None);
    assert!(first_hops(&bad, &vec![None]).is_none());
    let odd = vec![peer(1, true, vec![channel(ChannelState::ChanneldNormal, Some("1x2"))])];
    assert_eq!(local_channels(&odd), None);
    let closed = vec![peer(1, true, vec![channel(ChannelState::ClosingdComplete, None)])];
    assert_eq!(local_channels(&closed), Some(vec![]));
}

#[test]
fn hops_for_channels_that_the_graph_holds() {
    let hops = first_hops(&peers(), &vec![Some(vec![0, 1, 8]), None, Some(vec![])]).unwrap();
    assert_eq!(hops.len(), 2);
    assert_eq!(hops[0].node_id, vec![1; 33]);
    assert_eq!(hops[0].features, vec![0, 1, 8]);
    assert_eq!(hops[0].short_channel_id, scid(1));
    assert_eq!(hops[1].node_id, vec![3; 33]);
    assert!(hops[1].features.is_empty());
    assert_eq!(hops[1].short_channel_id, scid(4));
    for h in &hops {
        assert_eq!(h.channel_id, [2; 32]);
        assert_eq!(h.counterparty_reserve, 0);
        assert_eq!(h.channel_value_satoshis, 5_000);
        assert_eq!(h.unspendable_punishment_reserve, 50);
        assert_eq!(h.user_channel_id, 0);
        assert_eq!(h.balance_msat, 4_000_000);
        assert_eq!(h.outbound_capacity_msat, 4_000_000);
        assert_eq!(h.next_outbound_htlc_limit_msat, 3_000_000);
        assert_eq!(h.inbound_capacity_msat, 0);
        assert_eq!(h.confirmations_required, 3);
        assert_eq!(h.confirmations, 100);
        assert_eq!(h.force_close_spend_delay, 100);
        assert!(h.is_outbound && h.is_channel_ready && h.is_usable && h.is_public);
    }
}

#[test]
fn unknown_amounts_matter_only_for_known_channels() {
    let mut c = channel(ChannelState::ChanneldNormal, Some("1x1x1"));
    c.spendable_msat = None;
    let ps = vec![peer(1, true, vec![c])];
    assert!(first_hops(&ps, &vec![Some(vec![])]).is_none());
    assert!(first_hops(&ps, &vec![None]).unwrap().is_empty());
}
