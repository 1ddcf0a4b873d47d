use altpay::route::{
    copy_path, get_total_amount, path_fits, route_fits, sendpay_route, RouteHop,
};

fn hop(node: u8, scid: u64, fee_msat: u64, cltv_expiry_delta: u32) -> RouteHop {
    RouteHop {
        pubkey: vec![node; 33],
        node_features: vec![0, 0],
        short_channel_id: scid,
        channel_features: vec![0, 1, node],
        fee_msat,
        cltv_expiry_delta,
    }
}

fn three_hops() -> Vec<RouteHop> {
    vec![
        hop(1, (1u64 << 40) | (2 << 16) | 3, 7, 40),
        hop(2, (4u64 << 40) | (5 << 16) | 6, 5, 30),
        hop(3, (7u64 << 40) | (8 << 16) | 9, 1000, 18),
    ]
}

#[test]
fn amounts_and_delays_of_a_path() {
    let r = sendpay_route(&three_hops());
    assert_eq!(r.len(), 3);
    assert_eq!((r[0].amount_msat, r[0].delay), (1012, 88));
    assert_eq!((r[1].amount_msat, r[1].delay), (1005, 48));
    assert_eq!((r[2].amount_msat, r[2].delay), (1000, 18));
    assert_eq!(r[0].id, vec![1u8; 33]);
    assert_eq!(r[2].id, vec![3u8; 33]);
    assert_eq!(r[0].channel, "1x2x3");
    assert_eq!(r[1].channel, "4x5x6");
    assert_eq!(r[2].channel, "7x8x9");
}

#[test]
fn a_path_of_one_hop() {
    let r = sendpay_route(&vec![hop(9, 1, 500, 18)]);
    assert_eq!(r.len(), 1);
    assert_eq!((r[0].amount_msat, r[0].delay), (500, 18));
    assert_eq!(r[0].channel, "0x0x1");
}

#[test]
fn each_hop_keeps_its_fee_and_delta() {
    let path = three_hops();
    let r = sendpay_route(&path);
    for j in 0..2 {
        assert_eq!(r[j].amount_msat - r[j + 1].amount_msat, path[j].fee_msat);
        assert_eq!((r[j].delay - r[j + 1].delay) as u32, path[j].cltv_expiry_delta);
        assert!(r[j].amount_msat >= r[j + 1].amount_msat && r[j].delay >= r[j + 1].delay);
    }
    assert_eq!(r[0].amount_msat, 1000 + 7 + 5);
}

#[test]
fn what_fits_the_node() {
    assert!(path_fits(&three_hops()));
    assert!(!path_fits(&vec![]));
    assert!(path_fits(&vec![hop(1, 1, u64::MAX - 1, 1), hop(2, 2, 1, 1)]));
    assert!(!path_fits(&vec![hop(1, 1, u64::MAX, 1), hop(2, 2, 1, 1)]));
    assert!(path_fits(&vec![hop(1, 1, 1, 65535), hop(2, 2, 1, 0)]));
    assert!(!path_fits(&vec![hop(1, 1, 1, 65535), hop(2, 2, 1, 1)]));
    assert!(!path_fits(&vec![hop(1, 1, 1, 65536)]));
    assert!(!path_fits(&vec![hop(1, 1, 1, u32::MAX), hop(2, 2, 1, u32::MAX)]));
    assert!(route_fits(&vec![]));
    assert!(route_fits(&vec![three_hops(), three_hops()]));
    assert!(!route_fits(&vec![three_hops(), vec![]]));
}

#[test]
fn the_largest_path_that_fits() {
    let r = sendpay_route(&vec![hop(1, 1, u64::MAX - 1, 65000), hop(2, 2, 1, 535)]);
    assert_eq!((r[0].amount_msat, r[0].delay), (u64::MAX, 65535));
    assert_eq!((r[1].amount_msat, r[1].delay), (1, 535));
}

#[test]
fn what_a_route_delivers() {
    assert_eq!(get_total_amount(&vec![]), Some(0));
    assert_eq!(get_total_amount(&vec![three_hops()]), Some(1000));
    assert_eq!(get_total_amount(&vec![three_hops(), vec![], vec![hop(3, 2, 250, 18)]]), Some(1250));
    assert_eq!(
        get_total_amount(&vec![vec![hop(1, 1, u64::MAX, 1)], vec![hop(1, 1, 1, 1)]]),
        None
    );
}

#[test]
fn a_copied_path_is_the_same_path() {
    let path = three_hops();
    let copy = copy_path(&path);
    assert_eq!(copy.len(), 3);
    for (a, b) in copy.iter().zip(path.iter()) {
        assert_eq!(a.pubkey, b.pubkey);
        assert_eq!(a.node_features, b.node_features);
        assert_eq!(a.short_channel_id, b.short_channel_id);
        assert_eq!(a.channel_features, b.channel_features);
        assert_eq!(a.fee_msat, b.fee_msat);
        assert_eq!(a.cltv_expiry_delta, b.cltv_expiry_delta);
    }
}
