//! Core service configuration and storage-side value types.

use vstd::prelude::*;
use crate::strutil::copy_str;

verus! {

/// SQLite synchronous mode.
#[derive(Debug, Clone, Copy, PartialEq, Eq, Structural)]
pub enum SynchronousMode {
    Off,
    Normal,
    Full,
    Extra,
}

/// Database configuration. Durations are in milliseconds.
#[derive(Debug, Clone)]
pub struct DatabaseConfig {
    pub database_url: String,
    pub max_connections: u32,
    pub min_connections: u32,
    pub connect_timeout: u64,
    pub max_lifetime: Option<u64>,
    pub idle_timeout: Option<u64>,
    pub enable_wal_mode: bool,
    pub enable_foreign_keys: bool,
    pub synchronous_mode: SynchronousMode,
    pub auto_migrate: bool,
}

impl Default for DatabaseConfig {
    fn default() -> (r: Self)
        ensures
            r.database_url@ == "sqlite:./data/assistant.db"@,
            r.max_connections == 10,
            r.min_connections == 1,
            r.connect_timeout == 30_000,
            r.max_lifetime == Some(1_800_000u64),
            r.idle_timeout == Some(600_000u64),
            r.enable_wal_mode,
            r.enable_foreign_keys,
            r.synchronous_mode == SynchronousMode::Normal,
            r.auto_migrate,
    {
        DatabaseConfig {
            database_url: copy_str("sqlite:./data/assistant.db"),
            max_connections: 10,
            min_connections: 1,
            connect_timeout: 30_000,
            max_lifetime: Some(1_800_000),
            idle_timeout: Some(600_000),
            enable_wal_mode: true,
            enable_foreign_keys: true,
            synchronous_mode: SynchronousMode::Normal,
            auto_migrate: true,
        }
    }
}

/// Health of the storage backend.
#[derive(Debug, Clone, Copy, PartialEq, Eq, Structural)]
pub enum StorageStatus {
    Healthy,
    Degraded,
    Unhealthy,
}

/// Storage configuration.
#[derive(Debug, Clone)]
pub struct StorageConfig {
    pub database_url: String,
    pub max_connections: u32,
    pub connection_timeout_secs: u64,
    pub enable_wal_mode: bool,
}

impl Default for StorageConfig {
    fn default() -> (r: Self)
        ensures
            r.database_url@ == "sqlite:./data/assistant.db"@,
            r.max_connections == 10,
            r.connection_timeout_secs == 30,
            r.enable_wal_mode,
    {
        StorageConfig {
            database_url: copy_str("sqlite:./data/assistant.db"),
            max_connections: 10,
            connection_timeout_secs: 30,
            enable_wal_mode: true,
        }
    }
}

/// Configuration of the assistant core.
#[derive(Debug, Clone)]
pub struct CoreConfig {
    pub storage_config: StorageConfig,
    pub database_config: DatabaseConfig,
    pub plugin_directory: String,
    pub max_concurrent_tasks: usize,
}

impl Default for CoreConfig {
    fn default() -> (r: Self)
        ensures
            r.plugin_directory@ == "./plugins"@,
            r.max_concurrent_tasks == 10,
    {
        CoreConfig {
            storage_config: StorageConfig::default(),
            database_config: DatabaseConfig::default(),
            plugin_directory: copy_str("./plugins"),
            max_concurrent_tasks: 10,
        }
    }
}

} // verus!
