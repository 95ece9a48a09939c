//! The named profiles: a complete `Config` for a development network, for
//! the public testnet and for mainnet.
//!
//! The three differ in the Bitcoin and Stacks networks they select, in the
//! bitcoind endpoint, and in how a fresh node is bootstrapped: a mainnet
//! index is too long to build from genesis, so mainnet downloads an archive,
//! while the other two build theirs. Everything else is shared. The only
//! value a profile takes from the host is its core count.

use crate::config::{
    Config, ConfigView, LogConfig, PredicatesApi, SnapshotConfig, SnapshotConfigView,
    StorageConfig, StorageConfigView,
};
use crate::network::{
    default_localhost_node, localhost_node, BitcoinBlockSignaling, BitcoinBlockSignalingView,
    BitcoinNetwork, IndexerConfig, IndexerConfigView, StacksNetwork, DEFAULT_INGESTION_PORT,
};
use crate::resources::{
    host_core_count, ResourcesConfig, DEFAULT_BITCOIND_RPC_THREADS, DEFAULT_BITCOIND_RPC_TIMEOUT,
    DEFAULT_MEMORY_AVAILABLE, DEFAULT_ULIMIT,
};
use vstd::prelude::*;
use vstd::string::StringExecFns;

verus! {

/// Base URL of the archive that a mainnet node bootstraps from.
pub const DEFAULT_MAINNET_ORDINALS_SQLITE_ARCHIVE: &'static str =
    "https://archive.hiro.so/mainnet/ordhook/mainnet-ordhook-sqlite-latest";

/// What all profiles share, around what tells them apart.
pub open spec fn profile(
    working_dir: Seq<char>,
    cpu_core_available: usize,
    bitcoind_rpc_url: Seq<char>,
    bitcoin_network: BitcoinNetwork,
    stacks_network: StacksNetwork,
    snapshot: SnapshotConfigView,
) -> ConfigView {
    ConfigView {
        storage: StorageConfigView { working_dir },
        http_api: PredicatesApi::Off,
        resources: ResourcesConfig {
            ulimit: DEFAULT_ULIMIT,
            cpu_core_available,
            memory_available: DEFAULT_MEMORY_AVAILABLE,
            bitcoind_rpc_threads: DEFAULT_BITCOIND_RPC_THREADS,
            bitcoind_rpc_timeout: DEFAULT_BITCOIND_RPC_TIMEOUT,
            expected_observers_count: 1,
        },
        network: IndexerConfigView {
            bitcoin_network,
            stacks_network,
            bitcoind_rpc_url,
            bitcoind_rpc_username: "devnet"@,
            bitcoind_rpc_password: "devnet"@,
            bitcoin_block_signaling: BitcoinBlockSignalingView::Stacks(
                localhost_node(DEFAULT_INGESTION_PORT),
            ),
        },
        snapshot,
        logs: LogConfig { ordinals_internals: true, chainhook_internals: false },
    }
}

pub open spec fn devnet_profile(working_dir: Seq<char>, cpu_core_available: usize) -> ConfigView {
    profile(
        working_dir,
        cpu_core_available,
        "http://0.0.0.0:18443"@,
        BitcoinNetwork::Regtest,
        StacksNetwork::Devnet,
        SnapshotConfigView::Build,
    )
}

pub open spec fn testnet_profile(working_dir: Seq<char>, cpu_core_available: usize) -> ConfigView {
    profile(
        working_dir,
        cpu_core_available,
        "http://0.0.0.0:18332"@,
        BitcoinNetwork::Testnet,
        StacksNetwork::Testnet,
        SnapshotConfigView::Build,
    )
}

pub open spec fn mainnet_profile(working_dir: Seq<char>, cpu_core_available: usize) -> ConfigView {
    profile(
        working_dir,
        cpu_core_available,
        "http://0.0.0.0:8332"@,
        BitcoinNetwork::Mainnet,
        StacksNetwork::Mainnet,
        SnapshotConfigView::Download(DEFAULT_MAINNET_ORDINALS_SQLITE_ARCHIVE@),
    )
}

fn build_profile(
    working_dir: String,
    cpu_core_available: usize,
    bitcoind_rpc_url: &str,
    bitcoin_network: BitcoinNetwork,
    stacks_network: StacksNetwork,
    snapshot: SnapshotConfig,
) -> (config: Config)
    ensures
        config@ == profile(
            working_dir@,
            cpu_core_available,
            bitcoind_rpc_url@,
            bitcoin_network,
            stacks_network,
            snapshot@,
        ),
{
    Config {
        storage: StorageConfig { working_dir },
        http_api: PredicatesApi::Off,
        snapshot,
        resources: ResourcesConfig {
            cpu_core_available,
            memory_available: DEFAULT_MEMORY_AVAILABLE,
            ulimit: DEFAULT_ULIMIT,
            bitcoind_rpc_threads: DEFAULT_BITCOIND_RPC_THREADS,
            bitcoind_rpc_timeout: DEFAULT_BITCOIND_RPC_TIMEOUT,
            expected_observers_count: 1,
        },
        network: IndexerConfig {
            bitcoind_rpc_url: String::from_str(bitcoind_rpc_url),
            bitcoind_rpc_username: String::from_str("devnet"),
            bitcoind_rpc_password: String::from_str("devnet"),
            bitcoin_block_signaling: BitcoinBlockSignaling::Stacks(
                default_localhost_node(DEFAULT_INGESTION_PORT),
            ),
            stacks_network,
            bitcoin_network,
        },
        logs: LogConfig { ordinals_internals: true, chainhook_internals: false },
    }
}

impl Config {
    /// The development profile on a host with `cpu_core_available` cores.
    pub fn devnet_with_cores(working_dir: String, cpu_core_available: usize) -> (config: Config)
        ensures
            config@ == devnet_profile(working_dir@, cpu_core_available),
    {
        build_profile(
            working_dir,
            cpu_core_available,
            "http://0.0.0.0:18443",
            BitcoinNetwork::Regtest,
            StacksNetwork::Devnet,
            SnapshotConfig::Build,
        )
    }

    /// The testnet profile on a host with `cpu_core_available` cores.
    pub fn testnet_with_cores(working_dir: String, cpu_core_available: usize) -> (config: Config)
        ensures
            config@ == testnet_profile(working_dir@, cpu_core_available),
    {
        build_profile(
            working_dir,
            cpu_core_available,
            "http://0.0.0.0:18332",
            BitcoinNetwork::Testnet,
            StacksNetwork::Testnet,
            SnapshotConfig::Build,
        )
    }

    /// The mainnet profile on a host with `cpu_core_available` cores.
    pub fn mainnet_with_cores(working_dir: String, cpu_core_available: usize) -> (config: Config)
        ensures
            config@ == mainnet_profile(working_dir@, cpu_core_available),
    {
        build_profile(
            working_dir,
            cpu_core_available,
            "http://0.0.0.0:8332",
            BitcoinNetwork::Mainnet,
            StacksNetwork::Mainnet,
            SnapshotConfig::Download(String::from_str(DEFAULT_MAINNET_ORDINALS_SQLITE_ARCHIVE)),
        )
    }

    /// The development profile on this host: whatever core count the host
    /// reports, the rest of the configuration is the profile's.
    pub fn devnet_default(working_dir: String) -> (config: Config)
        ensures
            config@ == devnet_profile(working_dir@, config.resources.cpu_core_available),
    {
        Config::devnet_with_cores(working_dir, host_core_count())
    }

    /// The testnet profile on this host: whatever core count the host
    /// reports, the rest of the configuration is the profile's.
    pub fn testnet_default(working_dir: String) -> (config: Config)
        ensures
            config@ == testnet_profile(working_dir@, config.resources.cpu_core_available),
    {
        Config::testnet_with_cores(working_dir, host_core_count())
    }

    /// The mainnet profile on this host: whatever core count the host
    /// reports, the rest of the configuration is the profile's.
    pub fn mainnet_default(working_dir: String) -> (config: Config)
        ensures
            config@ == mainnet_profile(working_dir@, config.resources.cpu_core_available),
    {
        Config::mainnet_with_cores(working_dir, host_core_count())
    }
}

} // verus!
