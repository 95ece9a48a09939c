use ordhook_config::config::{
    Config, LogConfig, PredicatesApi, PredicatesApiConfig, SnapshotConfig, StorageConfig,
};
use ordhook_config::network::{
    BitcoinBlockSignaling, BitcoinNetwork, IndexerConfig, StacksNetwork, StacksNodeConfig,
};
use ordhook_config::paths::{PathConfig, UrlConfig};
use ordhook_config::resources::ResourcesConfig;
use std::path::PathBuf;

fn config_with(working_dir: &str, http_api: PredicatesApi, snapshot: SnapshotConfig) -> Config {
    Config {
        storage: StorageConfig { working_dir: working_dir.to_string() },
        http_api,
        resources: ResourcesConfig {
            ulimit: 2048,
            cpu_core_available: 8,
            memory_available: 8,
            bitcoind_rpc_threads: 4,
            bitcoind_rpc_timeout: 15,
            expected_observers_count: 1,
        },
        network: IndexerConfig {
            bitcoin_network: BitcoinNetwork::Signet,
            stacks_network: StacksNetwork::Simnet,
            bitcoind_rpc_url: "http://bitcoind.test:38332".to_string(),
            bitcoind_rpc_username: "alice".to_string(),
            bitcoind_rpc_password: "hunter2".to_string(),
            bitcoin_block_signaling: BitcoinBlockSignaling::Stacks(StacksNodeConfig {
                rpc_url: "http://stacks.test:20443".to_string(),
                ingestion_port: 7,
            }),
        },
        snapshot,
        logs: LogConfig { ordinals_internals: false, chainhook_internals: true },
    }
}

fn download_from(base_url: &str) -> Config {
    config_with("/var/ordhook", PredicatesApi::Off, SnapshotConfig::Download(base_url.to_string()))
}

#[test]
fn download_strategy_names_the_archive() {
    let config = download_from("https://example.test/archive");
    assert_eq!(
        config.expected_remote_ordinals_sqlite_url(),
        "https://example.test/archive.tar.gz"
    );
}

#[test]
fn download_strategy_names_the_checksum() {
    let config = download_from("https://example.test/archive");
    assert_eq!(
        config.expected_remote_ordinals_sqlite_sha256(),
        "https://example.test/archive.sha256"
    );
}

#[test]
fn download_strategy_bootstraps_through_download() {
    let config = download_from("https://example.test/archive");
    assert!(config.should_bootstrap_through_download());
}

#[test]
fn download_urls_only_append_to_the_base() {
    let config = download_from("");
    assert!(config.should_bootstrap_through_download());
    assert_eq!(config.expected_remote_ordinals_sqlite_url(), ".tar.gz");
    assert_eq!(config.expected_remote_ordinals_sqlite_sha256(), ".sha256");

    let dotted = download_from("https://example.test/a.tar.gz");
    assert_eq!(
        dotted.expected_remote_ordinals_sqlite_url(),
        "https://example.test/a.tar.gz.tar.gz"
    );
    assert_eq!(
        dotted.expected_remote_ordinals_sqlite_sha256(),
        "https://example.test/a.tar.gz.sha256"
    );
}

#[test]
fn download_urls_keep_text_beyond_ascii() {
    let config = download_from("https://example.test/arch\u{ef}ve/\u{1f4e6}");
    assert_eq!(
        config.expected_remote_ordinals_sqlite_url(),
        "https://example.test/arch\u{ef}ve/\u{1f4e6}.tar.gz"
    );
    assert_eq!(
        config.expected_remote_ordinals_sqlite_sha256(),
        "https://example.test/arch\u{ef}ve/\u{1f4e6}.sha256"
    );
}

#[test]
fn download_urls_leave_the_configuration_as_it_was() {
    let config = download_from("https://example.test/archive");
    let _ = config.expected_remote_ordinals_sqlite_url();
    let _ = config.expected_remote_ordinals_sqlite_sha256();
    assert!(matches!(
        &config.snapshot,
        SnapshotConfig::Download(base_url) if base_url == "https://example.test/archive"
    ));
}

#[test]
fn build_strategy_does_not_bootstrap_through_download() {
    let config = config_with("/var/ordhook", PredicatesApi::Off, SnapshotConfig::Build);
    assert!(!config.should_bootstrap_through_download());
}

#[test]
fn http_api_off_is_not_enabled() {
    let config = config_with("/var/ordhook", PredicatesApi::Off, SnapshotConfig::Build);
    assert!(!config.is_http_api_enabled());
}

#[test]
fn http_api_on_is_enabled_whatever_its_settings() {
    for (http_port, display_logs) in [(0, false), (20456, true), (u16::MAX, false)] {
        let api = PredicatesApi::On(PredicatesApiConfig { http_port, display_logs });
        let config = config_with("/var/ordhook", api, SnapshotConfig::Build);
        assert!(config.is_http_api_enabled());
    }
}

#[test]
fn http_api_settings_come_back_as_given() {
    for (http_port, display_logs) in [(0, false), (20456, true), (u16::MAX, true)] {
        let api = PredicatesApi::On(PredicatesApiConfig { http_port, display_logs });
        let config = config_with("/var/ordhook", api, SnapshotConfig::Build);
        let settings = config.expected_api_config();
        assert_eq!(settings.http_port, http_port);
        assert_eq!(settings.display_logs, display_logs);
    }
}

#[test]
fn cache_path_is_the_working_directory() {
    let config = config_with("/var/ordhook", PredicatesApi::Off, SnapshotConfig::Build);
    let path: PathBuf = config.expected_cache_path();
    assert_eq!(path, PathBuf::from("/var/ordhook"));
    assert_eq!(path.to_str(), Some("/var/ordhook"));
    assert_eq!(config.storage.working_dir, "/var/ordhook");
}

#[test]
fn cache_path_keeps_the_text_of_any_working_directory() {
    for working_dir in ["", ".", "ordhook", "relative/dir/", "/", "/a//b/../c", "d\u{e9}p\u{f4}t"] {
        let config = config_with(working_dir, PredicatesApi::Off, SnapshotConfig::Build);
        let path = config.expected_cache_path();
        assert_eq!(path.to_str(), Some(working_dir));
        let mut pushed = PathBuf::new();
        pushed.push(working_dir);
        assert_eq!(path, pushed);
    }
}

#[test]
fn config_clone_keeps_every_field() {
    let api = PredicatesApi::On(PredicatesApiConfig { http_port: 20456, display_logs: true });
    let config =
        config_with("/var/ordhook", api, SnapshotConfig::Download("https://e.test/a".to_string()));
    let copy = config.clone();
    assert_eq!(copy.storage.working_dir, "/var/ordhook");
    assert!(matches!(
        copy.http_api,
        PredicatesApi::On(PredicatesApiConfig { http_port: 20456, display_logs: true })
    ));
    assert_eq!(copy.resources.cpu_core_available, 8);
    assert_eq!(copy.resources.ulimit, 2048);
    assert_eq!(copy.resources.memory_available, 8);
    assert_eq!(copy.resources.bitcoind_rpc_threads, 4);
    assert_eq!(copy.resources.bitcoind_rpc_timeout, 15);
    assert_eq!(copy.resources.expected_observers_count, 1);
    assert_eq!(copy.network.bitcoin_network, BitcoinNetwork::Signet);
    assert_eq!(copy.network.stacks_network, StacksNetwork::Simnet);
    assert_eq!(copy.network.bitcoind_rpc_url, "http://bitcoind.test:38332");
    assert_eq!(copy.network.bitcoind_rpc_username, "alice");
    assert_eq!(copy.network.bitcoind_rpc_password, "hunter2");
    assert!(matches!(
        &copy.network.bitcoin_block_signaling,
        BitcoinBlockSignaling::Stacks(node)
            if node.rpc_url == "http://stacks.test:20443" && node.ingestion_port == 7
    ));
    assert!(matches!(&copy.snapshot, SnapshotConfig::Download(url) if url == "https://e.test/a"));
    assert!(!copy.logs.ordinals_internals);
    assert!(copy.logs.chainhook_internals);
    assert_eq!(config.storage.working_dir, "/var/ordhook");
}

#[test]
fn signaling_clone_keeps_the_endpoint() {
    let signaling = BitcoinBlockSignaling::ZeroMQ("tcp://0.0.0.0:18543".to_string());
    assert!(matches!(
        signaling.clone(),
        BitcoinBlockSignaling::ZeroMQ(endpoint) if endpoint == "tcp://0.0.0.0:18543"
    ));
}

#[test]
fn path_and_url_settings_clone_as_they_are() {
    let path = PathConfig { file_path: PathBuf::from("/var/ordhook/hord.sqlite") };
    assert_eq!(path.clone().file_path, PathBuf::from("/var/ordhook/hord.sqlite"));
    let url = UrlConfig { file_url: "https://example.test/hord.sqlite".to_string() };
    assert_eq!(url.clone().file_url, "https://example.test/hord.sqlite");
}
