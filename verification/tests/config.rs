use altpay::config::{
    complete, config_path, genesis_hash, join, logs_dir, logs_file, network_graph_path,
    parse_network, rapid_sync_path, scorer_path, Conf, Network,
};

fn conf(network: &str) -> Conf {
    Conf {
        network: String::from(network),
        ldk_data_dir: String::from("/data"),
        rpc_path: String::from("unset"),
        mpp_pref: 2,
        probe_amount: 1000,
        rapid_gossip_sync_url: String::from("https://rgs/"),
    }
}

#[test]
fn networks() {
    assert_eq!(parse_network(&String::from("bitcoin")), Some(Network::Bitcoin));
    assert_eq!(parse_network(&String::from("testnet")), Some(Network::Testnet));
    assert_eq!(parse_network(&String::from("Bitcoin")), None);
    assert_eq!(parse_network(&String::new()), None);
}

#[test]
fn the_socket_follows_from_the_network() {
    let (c, n) = complete(conf("bitcoin"), "/home/me").unwrap();
    assert_eq!(n, Network::Bitcoin);
    assert_eq!(c.rpc_path, "/home/me/.lightning/bitcoin/lightning-rpc");
    assert_eq!(c.network, "bitcoin");
    assert_eq!(c.ldk_data_dir, "/data");
    assert_eq!((c.mpp_pref, c.probe_amount), (2, 1000));
    assert_eq!(c.rapid_gossip_sync_url, "https://rgs/");
    let (c, n) = complete(conf("testnet"), "").unwrap();
    assert_eq!(n, Network::Testnet);
    assert_eq!(c.rpc_path, "/.lightning/testnet/lightning-rpc");
    assert!(complete(conf("regtest"), "/home/me").is_none());
}

#[test]
fn paths() {
    assert_eq!(config_path("/home/me"), "/home/me/.config/altpay.toml");
    assert_eq!(network_graph_path("/d"), "/d/network_graph");
    assert_eq!(scorer_path("/d"), "/d/scorer");
    assert_eq!(rapid_sync_path("/d"), "/d/rapid_sync.lngossip");
    assert_eq!(logs_dir("/d"), "/d/logs");
    assert_eq!(logs_file("/d/logs"), "/d/logs/logs.txt");
    assert_eq!(join("a", "b"), "ab");
}

#[test]
fn genesis_blocks() {
    let text = |n| {
        genesis_hash(n).iter().rev().map(|b| format!("{:02x}", b)).collect::<String>()
    };
    assert_eq!(
        text(Network::Bitcoin),
        "000000000019d6689c085ae165831e934ff763ae46a2a6c172b3f1b60a8ce26f"
    );
    assert_eq!(
        text(Network::Testnet),
        "000000000933ea01ad0ee984209779baaec3ced90fa3f408719526f8d77f4943"
    );
}
