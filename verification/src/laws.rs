//! What holds of the configuration across its functions: of every profile,
//! and of every configuration that the derivations are applied to.

use crate::config::{ConfigView, LogConfig, SnapshotConfigView};
use crate::network::{first_inscription_height, BitcoinNetwork};
use crate::paths::path_of;
use crate::profiles::{
    devnet_profile, mainnet_profile, testnet_profile, DEFAULT_MAINNET_ORDINALS_SQLITE_ARCHIVE,
};
use crate::subsystems::{event_observer_config_of, ordhook_config_of};
use vstd::prelude::*;

verus! {

/// Of the three profiles, only mainnet bootstraps through download, and it
/// downloads from the default archive; devnet and testnet build their index.
pub proof fn lemma_profile_bootstrap(working_dir: Seq<char>, cpu_core_available: usize)
    ensures
        devnet_profile(working_dir, cpu_core_available).snapshot == SnapshotConfigView::Build,
        testnet_profile(working_dir, cpu_core_available).snapshot == SnapshotConfigView::Build,
        mainnet_profile(working_dir, cpu_core_available).snapshot == SnapshotConfigView::Download(
            DEFAULT_MAINNET_ORDINALS_SQLITE_ARCHIVE@,
        ),
{
}

/// The inscription height handed to the indexer depends on the Bitcoin
/// network selected and on nothing else in the configuration.
pub proof fn lemma_inscription_height_follows_network(a: ConfigView, b: ConfigView)
    requires
        a.network.bitcoin_network == b.network.bitcoin_network,
    ensures
        ordhook_config_of(a).first_inscription_height == ordhook_config_of(
            b,
        ).first_inscription_height,
{
}

/// No two Bitcoin networks share an inscription height.
pub proof fn lemma_inscription_heights_distinct(a: BitcoinNetwork, b: BitcoinNetwork)
    requires
        first_inscription_height(a) == first_inscription_height(b),
    ensures
        a == b,
{
}

/// Each profile hands the indexer the inscription height of the network it
/// selects: regtest for devnet, testnet for testnet, mainnet for mainnet.
pub proof fn lemma_profile_inscription_height(working_dir: Seq<char>, cpu_core_available: usize)
    ensures
        ordhook_config_of(
            devnet_profile(working_dir, cpu_core_available),
        ).first_inscription_height == first_inscription_height(BitcoinNetwork::Regtest) == 1,
        ordhook_config_of(
            testnet_profile(working_dir, cpu_core_available),
        ).first_inscription_height == first_inscription_height(BitcoinNetwork::Testnet) == 2413343,
        ordhook_config_of(
            mainnet_profile(working_dir, cpu_core_available),
        ).first_inscription_height == first_inscription_height(BitcoinNetwork::Mainnet) == 767430,
{
}

/// The observer never displays logs, and its configuration is the same
/// whatever the log switches of the configuration it derives from.
pub proof fn lemma_observer_ignores_log_switches(config: ConfigView, logs: LogConfig)
    ensures
        !event_observer_config_of(config).display_logs,
        event_observer_config_of(ConfigView { logs, ..config }) == event_observer_config_of(
            config,
        ),
{
}

/// The indexer's database and the observer's cache lie under one path.
pub proof fn lemma_subsystems_share_storage_path(config: ConfigView)
    ensures
        ordhook_config_of(config).db_path == path_of(event_observer_config_of(config).cache_path),
{
}

} // verus!
