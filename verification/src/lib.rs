//! Plugin execution core: validation, sandboxing, resource limits, instance
//! pooling and inter-plugin messaging for untrusted WebAssembly modules.
//!
//! The policy layer (what may load, what may run, for how long, with which
//! capabilities) is verified; structural WebAssembly decoding, compilation and
//! execution are delegated to wasmtime behind narrow trusted wrappers.

use vstd::prelude::*;

pub mod api;
pub mod checksum;
pub mod common;
pub mod communication;
pub mod core_config;
pub mod db;
pub mod example_plugin;
pub mod knowledge;
pub mod loader;
pub mod manager;
pub mod rate_limit;
pub mod runtime;
pub mod security;
pub mod strutil;
pub mod voice;
pub mod wasm;

verus! {

/// Execution limits applied to a single plugin execution context.
///
/// All durations are in milliseconds; `max_fuel` is an abstract,
/// deterministic compute-step budget used to bound unbounded loops.
#[derive(Debug, Clone, Copy, PartialEq, Eq, Structural)]
pub struct ResourceLimits {
    /// Maximum memory allocation in bytes.
    pub max_memory: u64,
    /// Maximum wall-clock time for a single operation, in milliseconds.
    pub max_execution_time: u64,
    /// Maximum number of file descriptors.
    pub max_file_descriptors: u32,
    /// Maximum number of network connections.
    pub max_network_connections: u32,
    /// CPU time limit per operation, in milliseconds.
    pub cpu_time_limit: u64,
    /// Maximum fuel units for a single execution.
    pub max_fuel: u64,
}

impl Default for ResourceLimits {
    /// The manager-wide default limits: 64 MiB of memory, 30 s wall clock,
    /// 10 s of CPU time, 10 file descriptors, 5 connections, 1M fuel.
    fn default() -> (r: Self)
        ensures
            r == (ResourceLimits {
                max_memory: ((64 * 1024 * 1024) as u64),
                max_execution_time: 30_000,
                max_file_descriptors: 10,
                max_network_connections: 5,
                cpu_time_limit: 10_000,
                max_fuel: 1_000_000,
            }),
    {
        ResourceLimits {
            max_memory: 64 * 1024 * 1024,
            max_execution_time: 30_000,
            max_file_descriptors: 10,
            max_network_connections: 5,
            cpu_time_limit: 10_000,
            max_fuel: 1_000_000,
        }
    }
}

/// Plugin metadata declared by (or extracted from) a WebAssembly module.
#[derive(Debug, Clone)]
pub struct WasmPluginMetadata {
    pub id: String,
    pub name: String,
    pub version: String,
    pub description: String,
    pub author: String,
    pub license: String,
    pub capabilities: Vec<String>,
    pub dependencies: Vec<String>,
    pub api_version: String,
    pub checksum: String,
}

/// Per-call execution context handed in by the orchestration layer.
///
/// `started_at` is a monotonic timestamp in milliseconds supplied by the
/// caller; this core never reads a clock itself.
#[derive(Debug, Clone)]
pub struct PluginContext {
    pub user_id: String,
    pub session_id: String,
    pub request_id: String,
    pub metadata: Vec<(String, String)>,
    pub started_at: u64,
}

/// Health of a single plugin, derived from its execution counters.
#[derive(Debug, Clone)]
pub struct PluginHealth {
    pub status: HealthStatus,
    pub message: Option<String>,
    /// Timestamp of the check, in milliseconds, supplied by the caller.
    pub last_check: u64,
    pub execution_count: u64,
    pub error_count: u64,
    /// Average execution time in milliseconds.
    pub average_execution_time: u64,
}

#[derive(Debug, Clone, PartialEq, Eq, Structural)]
pub enum HealthStatus {
    Healthy,
    Degraded,
    Unhealthy,
    Unknown,
}

} // verus!
