//! The configuration of the plugin and the files that it keeps.

use vstd::prelude::*;
use vstd::string::*;

verus! {

/// The networks that the plugin runs on.
#[derive(Debug, PartialEq, Eq, Structural, Clone, Copy)]
pub enum Network {
    Bitcoin,
    Testnet,
}

/// The configuration of the plugin.
#[derive(Debug)]
pub struct Conf {
    /// The name of the network.
    pub network: String,
    /// Where the plugin keeps its files.
    pub ldk_data_dir: String,
    /// The socket of the node.
    pub rpc_path: String,
    /// The largest share of a channel that is used, as a power of one half.
    pub mpp_pref: u8,
    /// The amount of a probe, in millisatoshi.
    pub probe_amount: u64,
    /// Where snapshots of the network graph are fetched.
    pub rapid_gossip_sync_url: String,
}

/// What a `Conf` holds.
#[verifier::ext_equal]
pub struct ConfView {
    pub network: Seq<char>,
    pub ldk_data_dir: Seq<char>,
    pub rpc_path: Seq<char>,
    pub mpp_pref: u8,
    pub probe_amount: u64,
    pub rapid_gossip_sync_url: Seq<char>,
}

impl View for Conf {
    type V = ConfView;

    open spec fn view(&self) -> ConfView {
        ConfView {
            network: self.network@,
            ldk_data_dir: self.ldk_data_dir@,
            rpc_path: self.rpc_path@,
            mpp_pref: self.mpp_pref,
            probe_amount: self.probe_amount,
            rapid_gossip_sync_url: self.rapid_gossip_sync_url@,
        }
    }
}

/// The network of a name.
pub open spec fn network_named(name: Seq<char>) -> Option<Network> {
    if name == "bitcoin"@ {
        Some(Network::Bitcoin)
    } else if name == "testnet"@ {
        Some(Network::Testnet)
    } else {
        None
    }
}

/// The socket of the node that runs on a network, under a home directory. Every network but the
/// main one is looked for among the files of the test network.
pub open spec fn rpc_path_of(home: Seq<char>, network: Seq<char>) -> Seq<char> {
    if network == "bitcoin"@ {
        home + "/.lightning/bitcoin/lightning-rpc"@
    } else {
        home + "/.lightning/testnet/lightning-rpc"@
    }
}

/// The hash of the first block of a network.
pub open spec fn genesis_hash_of(network: Network) -> Seq<u8> {
    match network {
        Network::Bitcoin => seq![
            111u8, 226, 140, 10, 182, 241, 179, 114, 193, 166, 162, 70, 174, 99, 247, 79, 147, 30,
            131, 101, 225, 90, 8, 156, 104, 214, 25, 0, 0, 0, 0, 0,
        ],
        Network::Testnet => seq![
            67u8, 73, 127, 215, 248, 38, 149, 113, 8, 244, 163, 15, 217, 206, 195, 174, 186, 121,
            151, 32, 132, 233, 14, 173, 1, 234, 51, 9, 0, 0, 0, 0,
        ],
    }
}

/// There are two networks, known by the names bitcoin and testnet, and no other name is known.
pub proof fn law_two_networks(name: Seq<char>)
    ensures
        network_named("bitcoin"@) == Some(Network::Bitcoin),
        network_named("testnet"@) == Some(Network::Testnet),
        network_named(name) is Some ==> name == "bitcoin"@ || name == "testnet"@,
{
    reveal_strlit("bitcoin");
    reveal_strlit("testnet");
    assert("bitcoin"@[0] == 'b' && "testnet"@[0] == 't');
}

/// The socket of the node lies under the home directory, in the directory of the network.
pub proof fn law_socket_lies_in_the_directory_of_the_network(home: Seq<char>)
    ensures
        rpc_path_of(home, "bitcoin"@) == home + "/.lightning/bitcoin/lightning-rpc"@,
        rpc_path_of(home, "testnet"@) == home + "/.lightning/testnet/lightning-rpc"@,
{
    reveal_strlit("bitcoin");
    reveal_strlit("testnet");
    assert("bitcoin"@[0] == 'b' && "testnet"@[0] == 't');
}

/// What is held of a configuration is each of its fields, as they are.
pub proof fn law_views_show_the_configuration_as_it_is(c: Conf)
    ensures
        c@.network == c.network@ && c@.ldk_data_dir == c.ldk_data_dir@,
        c@.rpc_path == c.rpc_path@ && c@.mpp_pref == c.mpp_pref,
        c@.probe_amount == c.probe_amount,
        c@.rapid_gossip_sync_url == c.rapid_gossip_sync_url@,
{
}

/// The hash of a first block is 32 bytes long and ends in four zeros at least, as its proof of work
/// asks, and tells the networks apart.
pub proof fn law_genesis_hashes()
    ensures
        forall|n: Network| (#[trigger] genesis_hash_of(n)).len() == 32,
        forall|n: Network, i: int| 28 <= i < 32 ==> #[trigger] genesis_hash_of(n)[i] == 0,
        genesis_hash_of(Network::Bitcoin) != genesis_hash_of(Network::Testnet),
{
    assert(genesis_hash_of(Network::Bitcoin)[0] != genesis_hash_of(Network::Testnet)[0]);
}

/// `bitcoin::blockdata::constants::genesis_block` and the hash of its header: the 32 bytes that are
/// known for each network.
#[verifier::external_body]
fn genesis_block_hash(network: Network) -> (r: Vec<u8>)
    ensures
        r@ == genesis_hash_of(network),
{
    let network = match network {
        Network::Bitcoin => bitcoin::Network::Bitcoin,
        Network::Testnet => bitcoin::Network::Testnet,
    };
    bitcoin::blockdata::constants::genesis_block(network).header.block_hash()[..].to_vec()
}

/// The network of a name, nothing for a network that is not supported.
pub fn parse_network(name: &String) -> (r: Option<Network>)
    ensures
        r == network_named(name@),
{
    if *name == "bitcoin".to_owned() {
        Some(Network::Bitcoin)
    } else if *name == "testnet".to_owned() {
        Some(Network::Testnet)
    } else {
        None
    }
}

/// The hash of the first block of a network.
pub fn genesis_hash(network: Network) -> (r: Vec<u8>)
    ensures
        r@ == genesis_hash_of(network),
        r@.len() == 32,
{
    genesis_block_hash(network)
}

/// Joins two texts.
pub fn join(a: &str, b: &str) -> (r: String)
    ensures
        r@ == a@ + b@,
{
    let mut r = a.to_owned();
    r.append(b);
    r
}

/// Completes a configuration that was read from its file: the socket of the node follows from the
/// network and the home directory. Nothing for a network that is not supported.
pub fn complete(conf: Conf, home: &str) -> (r: Option<(Conf, Network)>)
    ensures
        match r {
            Some((c, network)) => network_named(conf@.network) == Some(network) && c@ == (ConfView {
                rpc_path: rpc_path_of(home@, conf@.network),
                ..conf@
            }),
            None => network_named(conf@.network) is None,
        },
{
    let mut conf = conf;
    if conf.network == "bitcoin".to_owned() {
        conf.rpc_path = join(home, "/.lightning/bitcoin/lightning-rpc");
    } else {
        conf.rpc_path = join(home, "/.lightning/testnet/lightning-rpc");
    }
    match parse_network(&conf.network) {
        Some(network) => Some((conf, network)),
        None => None,
    }
}

/// The file that holds the configuration.
pub fn config_path(home: &str) -> (r: String)
    ensures
        r@ == home@ + "/.config/altpay.toml"@,
{
    join(home, "/.config/altpay.toml")
}

/// The file that keeps the network graph.
pub fn network_graph_path(data_dir: &str) -> (r: String)
    ensures
        r@ == data_dir@ + "/network_graph"@,
{
    join(data_dir, "/network_graph")
}

/// The file that keeps what was learned about channels.
pub fn scorer_path(data_dir: &str) -> (r: String)
    ensures
        r@ == data_dir@ + "/scorer"@,
{
    join(data_dir, "/scorer")
}

/// The file that a snapshot of the network graph is written to.
pub fn rapid_sync_path(data_dir: &str) -> (r: String)
    ensures
        r@ == data_dir@ + "/rapid_sync.lngossip"@,
{
    join(data_dir, "/rapid_sync.lngossip")
}

/// The directory that the logs are written to.
pub fn logs_dir(data_dir: &str) -> (r: String)
    ensures
        r@ == data_dir@ + "/logs"@,
{
    join(data_dir, "/logs")
}

/// The file in that directory that the logs are written to.
pub fn logs_file(logs_dir: &str) -> (r: String)
    ensures
        r@ == logs_dir@ + "/logs.txt"@,
{
    join(logs_dir, "/logs.txt")
}

} // verus!
