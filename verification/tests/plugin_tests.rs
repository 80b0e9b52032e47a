use rusty_ai::example_plugin::create_sample_wasm_plugin;
use rusty_ai::loader::{
    CandidateFile, DiscoveryConfig, LoaderError, PluginLoader, PluginRegistry, PluginStatus,
};
use rusty_ai::manager::{PluginError, PluginManager};
use rusty_ai::runtime::{RuntimeConfig, RuntimeError, WasmRuntime};
use rusty_ai::security::{SecurityConfig, SecurityPolicy};
use rusty_ai::{PluginContext, ResourceLimits};

fn context(now: u64) -> PluginContext {
    PluginContext {
        user_id: "tester".to_string(),
        session_id: "session".to_string(),
        request_id: "request".to_string(),
        metadata: vec![],
        started_at: now,
    }
}

fn sample_candidate() -> CandidateFile {
    let bytes = create_sample_wasm_plugin();
    CandidateFile {
        path: "plugins/sample.wasm".to_string(),
        extension: "wasm".to_string(),
        size: bytes.len() as u64,
        modified: 0,
        bytes,
    }
}

fn default_manager() -> PluginManager {
    PluginManager::new(
        "plugins".to_string(),
        SecurityPolicy::default(),
        ResourceLimits::default(),
        RuntimeConfig::default(),
    )
    .unwrap()
}

#[test]
fn test_resource_limits_default() {
    let limits = ResourceLimits::default();
    assert_eq!(limits.max_memory, 64 * 1024 * 1024);
    assert_eq!(limits.max_execution_time, 30_000);
}

#[test]
fn test_plugin_manager_creation() {
    let manager = default_manager();
    assert_eq!(manager.list_plugins().len(), 0);
}

#[test]
fn test_runtime_creation() {
    let runtime = WasmRuntime::new(RuntimeConfig::default()).unwrap();
    let stats = runtime.get_stats();
    assert_eq!(stats.active_instances, 0);
    assert_eq!(stats.pooled_instances, 0);
}

#[test]
fn test_pool_cleanup() {
    let mut runtime = WasmRuntime::new(RuntimeConfig::default()).unwrap();
    runtime.cleanup_pool(0);
    let stats = runtime.get_stats();
    assert_eq!(stats.pooled_instances, 0);
}

#[test]
fn test_plugin_loader_creation() {
    let loader = PluginLoader::new("plugins".to_string(), RuntimeConfig::default()).unwrap();
    assert_eq!(loader.get_loaded_plugins().len(), 0);
}

#[test]
fn test_discovery_config_default() {
    let config = DiscoveryConfig::default();
    assert!(config.recursive);
    assert!(config.extensions.contains(&"wasm".to_string()));
}

#[test]
fn test_plugin_registry() {
    let mut registry = PluginRegistry::new();
    assert_eq!(registry.list_plugins().len(), 0);

    registry.update_status("test", PluginStatus::Loaded);
    // Status update on a non-existent plugin must not panic.
    assert_eq!(registry.list_plugins().len(), 0);
}

#[test]
fn test_checksum_calculation() {
    let loader = PluginLoader::new("plugins".to_string(), RuntimeConfig::default()).unwrap();

    let test_data = b"test data";
    let checksum1 = loader.calculate_checksum(test_data);
    let checksum2 = loader.calculate_checksum(test_data);

    assert_eq!(checksum1, checksum2);
    assert_eq!(checksum1.len(), 64);
}

#[test]
fn test_sample_wasm_creation() {
    let wasm_bytes = create_sample_wasm_plugin();
    assert!(!wasm_bytes.is_empty());
    assert_eq!(&wasm_bytes[0..4], &[0x00, 0x61, 0x73, 0x6d]);
}

#[test]
fn test_checksum_known_value() {
    // SHA-256 of the empty input, a published constant.
    let loader = PluginLoader::new("plugins".to_string(), RuntimeConfig::default()).unwrap();
    let checksum = loader.calculate_checksum(b"");
    assert_eq!(
        checksum,
        "e3b0c44298fc1c149afbf4c8996fb92427ae41e4649b934ca495991b7852b855"
    );
}

#[test]
fn test_pool_reuse() {
    // Checking out, returning and checking out again must reuse the pooled
    // instance rather than building a fresh one.
    let mut runtime = WasmRuntime::new(RuntimeConfig::default()).unwrap();
    let bytes = create_sample_wasm_plugin();
    let limits = ResourceLimits::default();

    let h1 = runtime.get_instance("sample", &bytes, &limits, 0).unwrap();
    assert!(!h1.from_pool);
    assert_eq!(h1.inner.usage_count, 1);
    let seq1 = h1.inner.instance_seq;
    runtime.return_instance(h1.inner, 1);
    assert_eq!(runtime.get_stats().pooled_instances, 1);

    let h2 = runtime.get_instance("sample", &bytes, &limits, 2).unwrap();
    assert!(h2.from_pool);
    assert_eq!(h2.inner.usage_count, 2);
    assert_eq!(h2.inner.instance_seq, seq1);
    assert_eq!(runtime.get_stats().pooled_instances, 0);
}

#[test]
fn test_distinct_instances_under_concurrent_checkout() {
    // Two simultaneously held handles are never the same instance.
    let mut runtime = WasmRuntime::new(RuntimeConfig::default()).unwrap();
    let bytes = create_sample_wasm_plugin();
    let limits = ResourceLimits::default();

    let h1 = runtime.get_instance("sample", &bytes, &limits, 0).unwrap();
    let h2 = runtime.get_instance("sample", &bytes, &limits, 0).unwrap();
    assert_ne!(h1.inner.instance_seq, h2.inner.instance_seq);
    assert_eq!(runtime.get_stats().active_instances, 2);
}

#[test]
fn test_capacity_exceeded() {
    let config = RuntimeConfig {
        max_instances: 1,
        ..RuntimeConfig::default()
    };
    let mut runtime = WasmRuntime::new(config).unwrap();
    let bytes = create_sample_wasm_plugin();
    let limits = ResourceLimits::default();

    let _h1 = runtime.get_instance("sample", &bytes, &limits, 0).unwrap();
    let r = runtime.get_instance("sample", &bytes, &limits, 0);
    assert!(matches!(r, Err(RuntimeError::CapacityExceeded)));
}

#[test]
fn test_call_sample_function() {
    let mut runtime = WasmRuntime::new(RuntimeConfig::default()).unwrap();
    let bytes = create_sample_wasm_plugin();
    let limits = ResourceLimits::default();

    let mut h = runtime.get_instance("sample", &bytes, &limits, 0).unwrap();
    let v = h.call_function("hello").unwrap();
    assert_eq!(v, 42);
    runtime.return_instance(h.inner, 1);
}

#[test]
fn test_function_not_found() {
    let mut runtime = WasmRuntime::new(RuntimeConfig::default()).unwrap();
    let bytes = create_sample_wasm_plugin();
    let limits = ResourceLimits::default();

    let mut h = runtime.get_instance("sample", &bytes, &limits, 0).unwrap();
    let r = h.call_function("no_such_export");
    assert!(matches!(r, Err(RuntimeError::FunctionNotFound)));
    runtime.discard_instance(h);
}

#[test]
fn test_timeout_interrupts_call() {
    // After an epoch interruption the instance traps at its next
    // check-point and the call reports a timeout; the instance is
    // discarded, never pooled again.
    let mut runtime = WasmRuntime::new(RuntimeConfig::default()).unwrap();
    let bytes = create_sample_wasm_plugin();
    let limits = ResourceLimits::default();

    let mut h = runtime.get_instance("sample", &bytes, &limits, 0).unwrap();
    runtime.interrupt_all();
    let r = h.call_function("hello");
    assert!(matches!(r, Err(RuntimeError::Timeout)));
    runtime.discard_instance(h);
    assert_eq!(runtime.get_stats().pooled_instances, 0);
    assert_eq!(runtime.get_stats().active_instances, 0);
}

#[test]
fn test_fuel_exhaustion_stops_infinite_loop() {
    // A function that never returns runs out of its deterministic fuel
    // budget instead of hanging.
    let spin = wat::parse_str(
        "(module (func (export \"spin\") (result i32) (loop $l br $l) unreachable))",
    )
    .unwrap();
    let mut runtime = WasmRuntime::new(RuntimeConfig::default()).unwrap();
    let limits = ResourceLimits::default();

    let mut h = runtime.get_instance("spin", &spin, &limits, 0).unwrap();
    let r = h.call_function("spin");
    assert!(matches!(r, Err(RuntimeError::FuelExhausted)));
    runtime.discard_instance(h);
}

#[test]
fn test_discover_and_load_and_execute() {
    let mut manager = default_manager();
    let files = vec![sample_candidate()];
    let entries = manager
        .discover_plugins(&files, &DiscoveryConfig::default())
        .unwrap();
    assert_eq!(entries.len(), 1);
    assert!(matches!(entries[0].status, PluginStatus::Available));
    let id = entries[0].id.clone();

    let bytes = create_sample_wasm_plugin();
    manager.load_plugin(&id, &bytes, None, 0).unwrap();
    assert_eq!(manager.list_plugins(), vec![id.clone()]);

    let out = manager.execute_plugin(&id, "hello", &[], &context(1)).unwrap();
    assert_eq!(out, vec![42, 0, 0, 0]);

    let health = manager.health_check_all(2);
    assert_eq!(health.len(), 1);
    assert_eq!(health[0].0, id);

    manager.unload_plugin(&id).unwrap();
    assert_eq!(manager.list_plugins().len(), 0);
}

#[test]
fn test_checksum_mismatch_rejected() {
    // Bytes altered between discovery and load must fail the load with a
    // checksum mismatch, and the plugin never becomes loaded.
    let mut manager = default_manager();
    let files = vec![sample_candidate()];
    let entries = manager
        .discover_plugins(&files, &DiscoveryConfig::default())
        .unwrap();
    let id = entries[0].id.clone();

    let mut tampered = create_sample_wasm_plugin();
    tampered.push(0x00);
    let r = manager.load_plugin(&id, &tampered, None, 0);
    assert!(matches!(
        r,
        Err(PluginError::Loader(LoaderError::ChecksumMismatch))
    ));
    assert_eq!(manager.list_plugins().len(), 0);
}

#[test]
fn test_load_unknown_plugin() {
    let mut manager = default_manager();
    let bytes = create_sample_wasm_plugin();
    let r = manager.load_plugin("nobody", &bytes, None, 0);
    assert!(matches!(
        r,
        Err(PluginError::Loader(LoaderError::NotFound))
    ));
}

#[test]
fn test_execute_not_loaded() {
    let mut manager = default_manager();
    let r = manager.execute_plugin("nobody", "hello", &[], &context(0));
    assert!(matches!(r, Err(PluginError::NotLoaded)));
}

#[test]
fn test_oversized_file_skipped() {
    let mut manager = default_manager();
    let mut file = sample_candidate();
    file.size = 200 * 1024 * 1024;
    let entries = manager
        .discover_plugins(&vec![file], &DiscoveryConfig::default())
        .unwrap();
    assert_eq!(entries.len(), 0);
}

#[test]
fn test_malformed_candidate_rejected() {
    let mut manager = default_manager();
    let mut file = sample_candidate();
    file.bytes = vec![1, 2, 3, 4];
    file.size = 4;
    let r = manager.discover_plugins(&vec![file], &DiscoveryConfig::default());
    assert!(matches!(
        r,
        Err(PluginError::Loader(LoaderError::InvalidModule(_)))
    ));
}

#[test]
fn test_untrusted_policy_denies_filesystem_import() {
    // Scenario: under the untrusted tier, an unsigned module with a file
    // system import is denied for that capability; under the trusted
    // tier the same module loads and its status turns Loaded.
    let wasm = wat::parse_str(
        "(module (import \"wasi_snapshot_preview1\" \"fd_read\" (func (param i32 i32 i32 i32) (result i32))))",
    )
    .unwrap();
    let candidate = CandidateFile {
        path: "plugins/fsuser.wasm".to_string(),
        extension: "wasm".to_string(),
        size: wasm.len() as u64,
        modified: 0,
        bytes: wasm.clone(),
    };

    let mut untrusted = PluginManager::new(
        "plugins".to_string(),
        SecurityConfig::untrusted(),
        ResourceLimits::default(),
        RuntimeConfig::default(),
    )
    .unwrap();
    let entries = untrusted
        .discover_plugins(&vec![candidate.clone()], &DiscoveryConfig::default())
        .unwrap();
    let id = entries[0].id.clone();
    let r = untrusted.load_plugin(&id, &wasm, None, 0);
    assert!(matches!(
        r,
        Err(PluginError::Validation(
            rusty_ai::security::ValidationError::CapabilityDenied(
                rusty_ai::security::WasiCapability::FileSystem
            )
        ))
    ));
    assert_eq!(untrusted.list_plugins().len(), 0);
    assert!(matches!(
        untrusted.loader.get_registry().list_plugins()[0].status,
        PluginStatus::Error(_)
    ));

    let mut trusted = PluginManager::new(
        "plugins".to_string(),
        SecurityConfig::trusted(),
        ResourceLimits::default(),
        RuntimeConfig::default(),
    )
    .unwrap();
    let entries = trusted
        .discover_plugins(&vec![candidate], &DiscoveryConfig::default())
        .unwrap();
    let id = entries[0].id.clone();
    trusted.load_plugin(&id, &wasm, None, 0).unwrap();
    assert!(matches!(
        trusted.loader.get_registry().list_plugins()[0].status,
        PluginStatus::Loaded
    ));
}

#[test]
fn test_reload_preserves_limits() {
    let mut loader = PluginLoader::new("plugins".to_string(), RuntimeConfig::default()).unwrap();
    let files = vec![sample_candidate()];
    let entries = loader
        .discover_plugins(&files, &DiscoveryConfig::default())
        .unwrap();
    let id = entries[0].id.clone();
    let bytes = create_sample_wasm_plugin();

    let limits = ResourceLimits {
        max_fuel: 123_456,
        ..ResourceLimits::default()
    };
    loader.load_plugin(&id, &bytes, Some(limits), 0).unwrap();
    loader.reload_plugin(&id, &bytes, 5).unwrap();
    assert_eq!(loader.get_loaded_plugins()[0].limits.max_fuel, 123_456);
}

#[test]
fn test_load_is_idempotent() {
    let mut loader = PluginLoader::new("plugins".to_string(), RuntimeConfig::default()).unwrap();
    let files = vec![sample_candidate()];
    let entries = loader
        .discover_plugins(&files, &DiscoveryConfig::default())
        .unwrap();
    let id = entries[0].id.clone();
    let bytes = create_sample_wasm_plugin();

    loader.load_plugin(&id, &bytes, None, 0).unwrap();
    loader.load_plugin(&id, &bytes, None, 1).unwrap();
    assert_eq!(loader.get_loaded_plugins().len(), 1);
}

#[test]
fn test_example_plugin_creation() {
    let plugin = rusty_ai::example_plugin::ExampleWasmPlugin::new();
    assert_eq!(plugin.metadata.id, "example_wasm_plugin");
    assert_eq!(plugin.metadata.version, "1.0.0");
}

#[test]
fn test_plugin_initialization() {
    let mut plugin = rusty_ai::example_plugin::ExampleWasmPlugin::new();
    plugin.initialize();
    assert!(plugin.initialized);
}

#[test]
fn test_hello_function() {
    let mut plugin = rusty_ai::example_plugin::ExampleWasmPlugin::new();
    plugin.initialize();

    let result = plugin.execute("hello", "Test").unwrap();
    match result {
        rusty_ai::example_plugin::ExampleOutput::Message(m) => {
            assert!(m.contains("Hello, Test"));
        }
        _ => panic!("expected a message"),
    }
}

#[test]
fn test_analyze_text_function() {
    let mut plugin = rusty_ai::example_plugin::ExampleWasmPlugin::new();
    plugin.initialize();

    let result = plugin.execute("analyze_text", "Hello world\nThis is a test").unwrap();
    match result {
        rusty_ai::example_plugin::ExampleOutput::Stats(stats) => {
            assert_eq!(stats.word_count, 6);
            assert_eq!(stats.lines, 2);
        }
        _ => panic!("expected statistics"),
    }
}

#[test]
fn example_plugin_test_health_check() {
    let plugin = rusty_ai::example_plugin::ExampleWasmPlugin::new();
    let health = plugin.health_check(0);

    // The plugin is unhealthy before initialization.
    assert_eq!(health.status, rusty_ai::HealthStatus::Unhealthy);
}

#[test]
fn test_unknown_function_fails() {
    let mut plugin = rusty_ai::example_plugin::ExampleWasmPlugin::new();
    plugin.initialize();
    assert!(plugin.execute("no_such_function", "").is_err());
    let health = plugin.health_check(0);
    assert_eq!(health.error_count, 1);
}

#[test]
fn test_trap_surfaces_execution_failed() {
    let wasm = wat::parse_str("(module (func (export \"t\") (result i32) unreachable))").unwrap();
    let mut runtime = WasmRuntime::new(RuntimeConfig::default()).unwrap();
    let limits = ResourceLimits::default();
    let mut h = runtime.get_instance("t", &wasm, &limits, 0).unwrap();
    let r = h.call_function("t");
    assert!(matches!(r, Err(RuntimeError::ExecutionFailed)));
    runtime.discard_instance(h);
}

#[test]
fn test_compile_refused_feature() {
    // The runtime's engine keeps SIMD off, so a module using it compiles
    // nowhere near the pool even though it decodes structurally.
    let wasm = wat::parse_str(
        "(module (func (export \"s\") (result v128) v128.const i64x2 0 0))",
    )
    .unwrap();
    let mut manager = default_manager();
    let candidate = CandidateFile {
        path: "plugins/simd.wasm".to_string(),
        extension: "wasm".to_string(),
        size: wasm.len() as u64,
        modified: 0,
        bytes: wasm.clone(),
    };
    let entries = manager
        .discover_plugins(&vec![candidate], &DiscoveryConfig::default())
        .unwrap();
    let id = entries[0].id.clone();
    let r = manager.load_plugin(&id, &wasm, None, 0);
    assert!(matches!(
        r,
        Err(PluginError::Loader(LoaderError::Runtime(
            RuntimeError::CompileFailed
        )))
    ));
}

#[test]
fn test_instantiate_failed_without_ambient_imports() {
    // The execution context carries no ambient authority at all, so a
    // module that imports a platform function can be loaded under a
    // permissive policy but cannot be instantiated.
    let wasm = wat::parse_str(
        "(module (import \"wasi_snapshot_preview1\" \"random_get\" (func (param i32 i32) (result i32))))",
    )
    .unwrap();
    let mut manager = default_manager();
    let candidate = CandidateFile {
        path: "plugins/rand.wasm".to_string(),
        extension: "wasm".to_string(),
        size: wasm.len() as u64,
        modified: 0,
        bytes: wasm.clone(),
    };
    let entries = manager
        .discover_plugins(&vec![candidate], &DiscoveryConfig::default())
        .unwrap();
    let id = entries[0].id.clone();
    manager.load_plugin(&id, &wasm, None, 0).unwrap();
    let r = manager.execute_plugin(&id, "anything", &[], &context(1));
    assert!(matches!(
        r,
        Err(PluginError::Runtime(RuntimeError::InstantiateFailed))
    ));
}

#[test]
fn test_interrupt_handle_shares_engine() {
    // The handle given to a host watchdog reaches the same engine: an
    // interrupt through it traps the runtime's instances.
    let mut runtime = WasmRuntime::new(RuntimeConfig::default()).unwrap();
    let bytes = create_sample_wasm_plugin();
    let limits = ResourceLimits::default();

    let mut h = runtime.get_instance("sample", &bytes, &limits, 0).unwrap();
    let watchdog = runtime.interrupt_handle();
    watchdog.interrupt();
    let r = h.call_function("hello");
    assert!(matches!(r, Err(RuntimeError::Timeout)));
    runtime.discard_instance(h);
}

#[test]
fn test_health_transitions() {
    // Health is derived from the trend: unhealthy before any successful
    // execution, healthy after one, degraded once failed calls outnumber
    // successful ones.
    let mut manager = default_manager();
    let entries = manager
        .discover_plugins(&vec![sample_candidate()], &DiscoveryConfig::default())
        .unwrap();
    let id = entries[0].id.clone();
    let bytes = create_sample_wasm_plugin();
    manager.load_plugin(&id, &bytes, None, 0).unwrap();

    let health = manager.health_check_all(1);
    assert_eq!(health[0].1.status, rusty_ai::HealthStatus::Unhealthy);

    manager.execute_plugin(&id, "hello", &[], &context(2)).unwrap();
    let health = manager.health_check_all(3);
    assert_eq!(health[0].1.status, rusty_ai::HealthStatus::Healthy);

    let _ = manager.execute_plugin(&id, "missing", &[], &context(4));
    let _ = manager.execute_plugin(&id, "missing", &[], &context(5));
    let health = manager.health_check_all(6);
    assert_eq!(health[0].1.status, rusty_ai::HealthStatus::Degraded);
}
