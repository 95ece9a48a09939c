//! The canonical configuration of a node, and what can be read off it.
//!
//! A `Config` is made once, by a profile or by whoever loads one, and only
//! read afterwards. Settings that exist in one state only (the archive to
//! download, the HTTP API's port) are reached through accessors that require
//! that state: a caller branches on `should_bootstrap_through_download` or
//! `is_http_api_enabled` first.

use crate::network::{IndexerConfig, IndexerConfigView};
use crate::paths::{path_from_string, path_of};
use crate::resources::ResourcesConfig;
use std::path::PathBuf;
use vstd::pervasive::unreached;
use vstd::prelude::*;
use vstd::string::StringExecFns;

verus! {

/// Where the node keeps what it persists.
#[derive(Debug)]
pub struct StorageConfig {
    pub working_dir: String,
}

pub struct StorageConfigView {
    pub working_dir: Seq<char>,
}

impl View for StorageConfig {
    type V = StorageConfigView;

    open spec fn view(&self) -> StorageConfigView {
        StorageConfigView { working_dir: self.working_dir@ }
    }
}

impl Clone for StorageConfig {
    fn clone(&self) -> (cloned: Self)
        ensures
            cloned == *self,
    {
        StorageConfig { working_dir: self.working_dir.clone() }
    }
}

/// Verbosity of the two internal subsystems, each on its own.
#[derive(Clone, Copy, Debug)]
pub struct LogConfig {
    pub ordinals_internals: bool,
    pub chainhook_internals: bool,
}

#[derive(Clone, Copy, Debug)]
pub struct PredicatesApiConfig {
    pub http_port: u16,
    pub display_logs: bool,
}

/// The HTTP API through which predicates are registered: off, or on with its
/// settings.
#[derive(Clone, Copy, Debug)]
pub enum PredicatesApi {
    Off,
    On(PredicatesApiConfig),
}

/// How a fresh node gets its initial state: by indexing from scratch, or
/// from an archive found under the base URL given.
#[derive(Debug)]
pub enum SnapshotConfig {
    Build,
    Download(String),
}

pub enum SnapshotConfigView {
    Build,
    Download(Seq<char>),
}

impl View for SnapshotConfig {
    type V = SnapshotConfigView;

    open spec fn view(&self) -> SnapshotConfigView {
        match self {
            SnapshotConfig::Build => SnapshotConfigView::Build,
            SnapshotConfig::Download(base_url) => SnapshotConfigView::Download(base_url@),
        }
    }
}

impl Clone for SnapshotConfig {
    fn clone(&self) -> (cloned: Self)
        ensures
            cloned == *self,
    {
        match self {
            SnapshotConfig::Build => SnapshotConfig::Build,
            SnapshotConfig::Download(base_url) => SnapshotConfig::Download(base_url.clone()),
        }
    }
}

/// Where the checksum of the archive under `base_url` is published.
pub open spec fn remote_sha256_url(base_url: Seq<char>) -> Seq<char> {
    base_url + ".sha256"@
}

/// Where the archive under `base_url` itself is published.
pub open spec fn remote_archive_url(base_url: Seq<char>) -> Seq<char> {
    base_url + ".tar.gz"@
}

#[derive(Debug)]
pub struct Config {
    pub storage: StorageConfig,
    pub http_api: PredicatesApi,
    pub resources: ResourcesConfig,
    pub network: IndexerConfig,
    pub snapshot: SnapshotConfig,
    pub logs: LogConfig,
}

pub struct ConfigView {
    pub storage: StorageConfigView,
    pub http_api: PredicatesApi,
    pub resources: ResourcesConfig,
    pub network: IndexerConfigView,
    pub snapshot: SnapshotConfigView,
    pub logs: LogConfig,
}

impl View for Config {
    type V = ConfigView;

    open spec fn view(&self) -> ConfigView {
        ConfigView {
            storage: self.storage@,
            http_api: self.http_api,
            resources: self.resources,
            network: self.network@,
            snapshot: self.snapshot@,
            logs: self.logs,
        }
    }
}

impl Clone for Config {
    fn clone(&self) -> (cloned: Self)
        ensures
            cloned == *self,
    {
        Config {
            storage: self.storage.clone(),
            http_api: self.http_api,
            resources: self.resources,
            network: self.network.clone(),
            snapshot: self.snapshot.clone(),
            logs: self.logs,
        }
    }
}

impl Config {
    pub fn is_http_api_enabled(&self) -> (enabled: bool)
        ensures
            enabled == (self.http_api is On),
    {
        match self.http_api {
            PredicatesApi::Off => false,
            PredicatesApi::On(_) => true,
        }
    }

    pub fn should_bootstrap_through_download(&self) -> (download: bool)
        ensures
            download == (self.snapshot is Download),
    {
        match &self.snapshot {
            SnapshotConfig::Build => false,
            SnapshotConfig::Download(_) => true,
        }
    }

    /// The settings of the HTTP API. Only a configuration with the API on
    /// has any.
    pub fn expected_api_config(&self) -> (api: &PredicatesApiConfig)
        requires
            self.http_api is On,
        ensures
            self.http_api == PredicatesApi::On(*api),
    {
        match &self.http_api {
            PredicatesApi::On(config) => config,
            PredicatesApi::Off => unreached(),
        }
    }

    /// The one path under which every subsystem persists its state: the
    /// working directory.
    pub fn expected_cache_path(&self) -> (path: PathBuf)
        ensures
            path == path_of(self@.storage.working_dir),
    {
        path_from_string(self.storage.working_dir.clone())
    }

    fn expected_remote_ordinals_sqlite_base_url(&self) -> (base_url: &str)
        requires
            self.snapshot is Download,
        ensures
            self@.snapshot == SnapshotConfigView::Download(base_url@),
    {
        match &self.snapshot {
            SnapshotConfig::Download(url) => url.as_str(),
            SnapshotConfig::Build => unreached(),
        }
    }

    /// URL of the archive's checksum. Only a configuration that bootstraps
    /// through download has one.
    pub fn expected_remote_ordinals_sqlite_sha256(&self) -> (url: String)
        requires
            self.snapshot is Download,
        ensures
            url@ == remote_sha256_url(self@.snapshot->Download_0),
    {
        let mut url = String::from_str(self.expected_remote_ordinals_sqlite_base_url());
        url.append(".sha256");
        url
    }

    /// URL of the archive. Only a configuration that bootstraps through
    /// download has one.
    pub fn expected_remote_ordinals_sqlite_url(&self) -> (url: String)
        requires
            self.snapshot is Download,
        ensures
            url@ == remote_archive_url(self@.snapshot->Download_0),
    {
        let mut url = String::from_str(self.expected_remote_ordinals_sqlite_base_url());
        url.append(".tar.gz");
        url
    }
}

} // verus!
