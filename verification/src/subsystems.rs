//! What each subsystem is handed when it starts.
//!
//! Both configurations here are computed from the `Config` on demand and
//! never stored in it, so neither can drift from the values it was made of.

use crate::config::{Config, ConfigView, LogConfig};
use crate::network::{
    first_inscription_height, BitcoinBlockSignaling, BitcoinBlockSignalingView, BitcoinNetwork,
    StacksNetwork, DEFAULT_INGESTION_PORT,
};
use crate::paths::path_of;
use crate::resources::ResourcesConfig;
use std::path::PathBuf;
use vstd::prelude::*;

verus! {

/// Configuration of the ordinals indexer.
#[derive(Debug)]
pub struct OrdhookConfig {
    pub resources: ResourcesConfig,
    pub db_path: PathBuf,
    pub first_inscription_height: u64,
    pub logs: LogConfig,
}

impl Clone for OrdhookConfig {
    fn clone(&self) -> (cloned: Self)
        ensures
            cloned == *self,
    {
        OrdhookConfig {
            resources: self.resources,
            db_path: self.db_path.clone(),
            first_inscription_height: self.first_inscription_height,
            logs: self.logs,
        }
    }
}

/// Settings of the event observer. Predicates and handlers of the data it
/// emits are not settings: whoever starts the observer attaches them.
#[derive(Debug)]
pub struct EventObserverConfig {
    pub bitcoin_rpc_proxy_enabled: bool,
    pub ingestion_port: u16,
    pub bitcoind_rpc_username: String,
    pub bitcoind_rpc_password: String,
    pub bitcoind_rpc_url: String,
    pub bitcoin_block_signaling: BitcoinBlockSignaling,
    pub display_logs: bool,
    pub cache_path: String,
    pub bitcoin_network: BitcoinNetwork,
    pub stacks_network: StacksNetwork,
}

pub struct EventObserverConfigView {
    pub bitcoin_rpc_proxy_enabled: bool,
    pub ingestion_port: u16,
    pub bitcoind_rpc_username: Seq<char>,
    pub bitcoind_rpc_password: Seq<char>,
    pub bitcoind_rpc_url: Seq<char>,
    pub bitcoin_block_signaling: BitcoinBlockSignalingView,
    pub display_logs: bool,
    pub cache_path: Seq<char>,
    pub bitcoin_network: BitcoinNetwork,
    pub stacks_network: StacksNetwork,
}

impl View for EventObserverConfig {
    type V = EventObserverConfigView;

    open spec fn view(&self) -> EventObserverConfigView {
        EventObserverConfigView {
            bitcoin_rpc_proxy_enabled: self.bitcoin_rpc_proxy_enabled,
            ingestion_port: self.ingestion_port,
            bitcoind_rpc_username: self.bitcoind_rpc_username@,
            bitcoind_rpc_password: self.bitcoind_rpc_password@,
            bitcoind_rpc_url: self.bitcoind_rpc_url@,
            bitcoin_block_signaling: self.bitcoin_block_signaling@,
            display_logs: self.display_logs,
            cache_path: self.cache_path@,
            bitcoin_network: self.bitcoin_network,
            stacks_network: self.stacks_network,
        }
    }
}

impl Clone for EventObserverConfig {
    fn clone(&self) -> (cloned: Self)
        ensures
            cloned == *self,
    {
        EventObserverConfig {
            bitcoin_rpc_proxy_enabled: self.bitcoin_rpc_proxy_enabled,
            ingestion_port: self.ingestion_port,
            bitcoind_rpc_username: self.bitcoind_rpc_username.clone(),
            bitcoind_rpc_password: self.bitcoind_rpc_password.clone(),
            bitcoind_rpc_url: self.bitcoind_rpc_url.clone(),
            bitcoin_block_signaling: self.bitcoin_block_signaling.clone(),
            display_logs: self.display_logs,
            cache_path: self.cache_path.clone(),
            bitcoin_network: self.bitcoin_network,
            stacks_network: self.stacks_network,
        }
    }
}

/// The indexer's configuration under `config`: resources and log switches
/// as they stand, the working directory as the database path, and the
/// inscription height of the Bitcoin network selected.
pub open spec fn ordhook_config_of(config: ConfigView) -> OrdhookConfig {
    OrdhookConfig {
        resources: config.resources,
        db_path: path_of(config.storage.working_dir),
        first_inscription_height: first_inscription_height(config.network.bitcoin_network),
        logs: config.logs,
    }
}

/// The observer's configuration under `config`: credentials, endpoint,
/// networks and block signalling as `config.network` has them, the working
/// directory as cache path, the RPC proxy on, the default ingestion port,
/// and display logs off whatever `config.logs` says.
pub open spec fn event_observer_config_of(config: ConfigView) -> EventObserverConfigView {
    EventObserverConfigView {
        bitcoin_rpc_proxy_enabled: true,
        ingestion_port: DEFAULT_INGESTION_PORT,
        bitcoind_rpc_username: config.network.bitcoind_rpc_username,
        bitcoind_rpc_password: config.network.bitcoind_rpc_password,
        bitcoind_rpc_url: config.network.bitcoind_rpc_url,
        bitcoin_block_signaling: config.network.bitcoin_block_signaling,
        display_logs: false,
        cache_path: config.storage.working_dir,
        bitcoin_network: config.network.bitcoin_network,
        stacks_network: config.network.stacks_network,
    }
}

impl Config {
    pub fn get_ordhook_config(&self) -> (ordhook: OrdhookConfig)
        ensures
            ordhook == ordhook_config_of(self@),
    {
        OrdhookConfig {
            resources: self.resources,
            db_path: self.expected_cache_path(),
            first_inscription_height: match self.network.bitcoin_network {
                BitcoinNetwork::Mainnet => 767430,
                BitcoinNetwork::Regtest => 1,
                BitcoinNetwork::Testnet => 2413343,
                BitcoinNetwork::Signet => 112402,
            },
            logs: self.logs,
        }
    }

    pub fn get_event_observer_config(&self) -> (observer: EventObserverConfig)
        ensures
            observer@ == event_observer_config_of(self@),
    {
        EventObserverConfig {
            bitcoin_rpc_proxy_enabled: true,
            ingestion_port: DEFAULT_INGESTION_PORT,
            bitcoind_rpc_username: self.network.bitcoind_rpc_username.clone(),
            bitcoind_rpc_password: self.network.bitcoind_rpc_password.clone(),
            bitcoind_rpc_url: self.network.bitcoind_rpc_url.clone(),
            bitcoin_block_signaling: self.network.bitcoin_block_signaling.clone(),
            display_logs: false,
            cache_path: self.storage.working_dir.clone(),
            bitcoin_network: self.network.bitcoin_network,
            stacks_network: self.network.stacks_network,
        }
    }
}

} // verus!
