//! Chain selection and connectivity: which Bitcoin and Stacks networks the
//! node follows, how it reaches bitcoind, and how new blocks are signalled.

use vstd::prelude::*;

verus! {

pub const DEFAULT_INGESTION_PORT: u16 = 20455;

pub const DEFAULT_CONTROL_PORT: u16 = 20456;

#[derive(Clone, Copy, Debug, PartialEq, Eq, Structural)]
pub enum BitcoinNetwork {
    Regtest,
    Testnet,
    Signet,
    Mainnet,
}

#[derive(Clone, Copy, Debug, PartialEq, Eq, Structural)]
pub enum StacksNetwork {
    Simnet,
    Devnet,
    Testnet,
    Mainnet,
}

/// First block height at which an inscription can appear on `network`.
pub open spec fn first_inscription_height(network: BitcoinNetwork) -> u64 {
    match network {
        BitcoinNetwork::Mainnet => 767430,
        BitcoinNetwork::Regtest => 1,
        BitcoinNetwork::Testnet => 2413343,
        BitcoinNetwork::Signet => 112402,
    }
}

/// A Stacks node that relays Bitcoin blocks to the indexer.
#[derive(Debug)]
pub struct StacksNodeConfig {
    pub rpc_url: String,
    pub ingestion_port: u16,
}

pub struct StacksNodeConfigView {
    pub rpc_url: Seq<char>,
    pub ingestion_port: u16,
}

impl View for StacksNodeConfig {
    type V = StacksNodeConfigView;

    open spec fn view(&self) -> StacksNodeConfigView {
        StacksNodeConfigView { rpc_url: self.rpc_url@, ingestion_port: self.ingestion_port }
    }
}

impl Clone for StacksNodeConfig {
    fn clone(&self) -> (cloned: Self)
        ensures
            cloned == *self,
    {
        StacksNodeConfig { rpc_url: self.rpc_url.clone(), ingestion_port: self.ingestion_port }
    }
}

/// The node that `default_localhost` of the chain types describes: the local
/// Stacks node at its usual RPC address, relaying to `ingestion_port`.
pub open spec fn localhost_node(ingestion_port: u16) -> StacksNodeConfigView {
    StacksNodeConfigView { rpc_url: "http://localhost:20443"@, ingestion_port }
}

/// `chainhook_types::StacksNodeConfig::default_localhost`: the RPC address is
/// that crate's default for a local Stacks node, `http://localhost:20443`,
/// and the ingestion port is the one given.
#[verifier::external_body]
pub(crate) fn default_localhost_node(ingestion_port: u16) -> (node: StacksNodeConfig)
    ensures
        node@ == localhost_node(ingestion_port),
{
    let node = chainhook_types::StacksNodeConfig::default_localhost(ingestion_port);
    StacksNodeConfig { rpc_url: node.rpc_url, ingestion_port: node.ingestion_port }
}

/// How the indexer learns of new Bitcoin blocks.
#[derive(Debug)]
pub enum BitcoinBlockSignaling {
    /// A Stacks node forwards them.
    Stacks(StacksNodeConfig),
    /// bitcoind publishes them on the ZeroMQ endpoint given.
    ZeroMQ(String),
}

pub enum BitcoinBlockSignalingView {
    Stacks(StacksNodeConfigView),
    ZeroMQ(Seq<char>),
}

impl View for BitcoinBlockSignaling {
    type V = BitcoinBlockSignalingView;

    open spec fn view(&self) -> BitcoinBlockSignalingView {
        match self {
            BitcoinBlockSignaling::Stacks(node) => BitcoinBlockSignalingView::Stacks(node@),
            BitcoinBlockSignaling::ZeroMQ(endpoint) => BitcoinBlockSignalingView::ZeroMQ(endpoint@),
        }
    }
}

impl Clone for BitcoinBlockSignaling {
    fn clone(&self) -> (cloned: Self)
        ensures
            cloned == *self,
    {
        match self {
            BitcoinBlockSignaling::Stacks(node) => BitcoinBlockSignaling::Stacks(node.clone()),
            BitcoinBlockSignaling::ZeroMQ(endpoint) => BitcoinBlockSignaling::ZeroMQ(
                endpoint.clone(),
            ),
        }
    }
}

/// Connectivity and chain selection of the indexer.
#[derive(Debug)]
pub struct IndexerConfig {
    pub bitcoin_network: BitcoinNetwork,
    pub stacks_network: StacksNetwork,
    pub bitcoind_rpc_url: String,
    pub bitcoind_rpc_username: String,
    pub bitcoind_rpc_password: String,
    pub bitcoin_block_signaling: BitcoinBlockSignaling,
}

pub struct IndexerConfigView {
    pub bitcoin_network: BitcoinNetwork,
    pub stacks_network: StacksNetwork,
    pub bitcoind_rpc_url: Seq<char>,
    pub bitcoind_rpc_username: Seq<char>,
    pub bitcoind_rpc_password: Seq<char>,
    pub bitcoin_block_signaling: BitcoinBlockSignalingView,
}

impl View for IndexerConfig {
    type V = IndexerConfigView;

    open spec fn view(&self) -> IndexerConfigView {
        IndexerConfigView {
            bitcoin_network: self.bitcoin_network,
            stacks_network: self.stacks_network,
            bitcoind_rpc_url: self.bitcoind_rpc_url@,
            bitcoind_rpc_username: self.bitcoind_rpc_username@,
            bitcoind_rpc_password: self.bitcoind_rpc_password@,
            bitcoin_block_signaling: self.bitcoin_block_signaling@,
        }
    }
}

impl Clone for IndexerConfig {
    fn clone(&self) -> (cloned: Self)
        ensures
            cloned == *self,
    {
        IndexerConfig {
            bitcoin_network: self.bitcoin_network,
            stacks_network: self.stacks_network,
            bitcoind_rpc_url: self.bitcoind_rpc_url.clone(),
            bitcoind_rpc_username: self.bitcoind_rpc_username.clone(),
            bitcoind_rpc_password: self.bitcoind_rpc_password.clone(),
            bitcoin_block_signaling: self.bitcoin_block_signaling.clone(),
        }
    }
}

} // verus!
