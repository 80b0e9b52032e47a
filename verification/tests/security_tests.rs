use rusty_ai::example_plugin::create_sample_wasm_plugin;
use rusty_ai::runtime::{interpret_outcome, CallOutcome, RuntimeError};
use rusty_ai::security::{
    validate_module_bytes, ExecutionStats, PluginSandbox, ResourceKind, ResourceMonitor,
    SecurityConfig, SecurityPolicy, SecurityViolation, ValidationError, WasiCapability,
};
use rusty_ai::{ResourceLimits, WasmPluginMetadata};

fn meta(author: &str, capabilities: Vec<String>) -> WasmPluginMetadata {
    WasmPluginMetadata {
        id: "m".to_string(),
        name: "m".to_string(),
        version: "0.1.0".to_string(),
        description: String::new(),
        author: author.to_string(),
        license: "MIT".to_string(),
        capabilities,
        dependencies: vec![],
        api_version: "1.0".to_string(),
        checksum: String::new(),
    }
}

#[test]
fn test_security_policy_default() {
    let policy = SecurityPolicy::default();
    assert!(policy
        .allowed_wasi_capabilities
        .contains(&WasiCapability::Random));
    assert!(policy
        .allowed_wasi_capabilities
        .contains(&WasiCapability::Clock));
    assert!(policy.disable_dangerous_features);
}

#[test]
fn test_security_configs() {
    let untrusted = SecurityConfig::untrusted();
    let semi_trusted = SecurityConfig::semi_trusted();
    let trusted = SecurityConfig::trusted();

    assert_eq!(untrusted.max_file_descriptors, 0);
    assert_eq!(semi_trusted.max_file_descriptors, 5);
    assert_eq!(trusted.max_file_descriptors, 20);

    assert!(untrusted.require_signature);
    assert!(!semi_trusted.require_signature);
    assert!(!trusted.require_signature);
}

#[test]
fn test_resource_monitor() {
    let limits = ResourceLimits::default();
    let mut monitor = ResourceMonitor::new(limits);

    monitor.start(0);
    monitor.record_file_operation();
    monitor.record_memory_usage(1024);

    assert_eq!(monitor.file_operations, 1);
    assert_eq!(monitor.memory_usage, 1024);
}

#[test]
fn test_execution_stats() {
    let stats = ExecutionStats::default();
    assert_eq!(stats.total_executions, 0);
    assert_eq!(stats.security_violations, 0);
}

#[test]
fn test_validate_clean_module() {
    let bytes = create_sample_wasm_plugin();
    let policy = SecurityPolicy::default();
    let r = validate_module_bytes(&bytes, &meta("Unknown", vec![]), &policy);
    assert!(r.is_ok());
}

#[test]
fn test_validate_malformed_module() {
    let policy = SecurityPolicy::default();
    let r = validate_module_bytes(&[1, 2, 3], &meta("Unknown", vec![]), &policy);
    assert!(matches!(r, Err(ValidationError::Malformed)));
}

#[test]
fn test_validate_denied_capability() {
    // fd_read maps to the file system capability, which the default
    // policy does not grant.
    let wasm = wat::parse_str(
        "(module (import \"wasi_snapshot_preview1\" \"fd_read\" (func (param i32 i32 i32 i32) (result i32))))",
    )
    .unwrap();
    let policy = SecurityPolicy::default();
    let r = validate_module_bytes(&wasm, &meta("Unknown", vec![]), &policy);
    assert!(matches!(
        r,
        Err(ValidationError::CapabilityDenied(WasiCapability::FileSystem))
    ));
}

#[test]
fn test_validate_allowed_capability() {
    let wasm = wat::parse_str(
        "(module (import \"wasi_snapshot_preview1\" \"random_get\" (func (param i32 i32) (result i32))))",
    )
    .unwrap();
    let policy = SecurityPolicy::default();
    let r = validate_module_bytes(&wasm, &meta("Unknown", vec![]), &policy);
    assert!(r.is_ok());
}

#[test]
fn test_validate_unknown_wasi_import_denied() {
    // Unknown implies deny: an unrecognized symbol in the platform
    // namespace is prohibited.
    let wasm = wat::parse_str(
        "(module (import \"wasi_snapshot_preview1\" \"mystery_call\" (func)))",
    )
    .unwrap();
    let policy = SecurityPolicy::default();
    let r = validate_module_bytes(&wasm, &meta("Unknown", vec![]), &policy);
    assert!(matches!(r, Err(ValidationError::ProhibitedImport(s)) if s == "mystery_call"));
}

#[test]
fn test_validate_foreign_namespace_denied() {
    let wasm =
        wat::parse_str("(module (import \"env\" \"do_things\" (func)))").unwrap();
    let policy = SecurityPolicy::default();
    let r = validate_module_bytes(&wasm, &meta("Unknown", vec![]), &policy);
    assert!(matches!(r, Err(ValidationError::ProhibitedImport(s)) if s == "env"));
}

#[test]
fn test_validate_untrusted_author() {
    let bytes = create_sample_wasm_plugin();
    let policy = SecurityConfig::untrusted();
    let r = validate_module_bytes(&bytes, &meta("Unknown", vec![]), &policy);
    assert!(matches!(r, Err(ValidationError::UntrustedAuthor)));
}

#[test]
fn test_validate_trusted_author() {
    let bytes = create_sample_wasm_plugin();
    let mut policy = SecurityConfig::untrusted();
    policy.trusted_authors.push("Unknown".to_string());
    let r = validate_module_bytes(&bytes, &meta("Unknown", vec![]), &policy);
    assert!(r.is_ok());
}

#[test]
fn test_validate_prohibited_capability_tag() {
    let bytes = create_sample_wasm_plugin();
    let policy = SecurityPolicy::default();
    let r = validate_module_bytes(
        &bytes,
        &meta("Unknown", vec!["arbitrary_code".to_string()]),
        &policy,
    );
    assert!(matches!(
        r,
        Err(ValidationError::ProhibitedCapability(s)) if s == "arbitrary_code"
    ));
}

#[test]
fn test_sandbox_records_violation() {
    let mut policy = SecurityPolicy::default();
    policy.max_file_descriptors = 0;
    let mut sandbox = PluginSandbox::new(policy, ResourceLimits::default());

    sandbox.start_monitoring(0);
    sandbox.resource_monitor.record_file_operation();
    let r = sandbox.stop_monitoring(5);
    assert!(matches!(
        r,
        Err(SecurityViolation::ResourceLimitExceeded(
            ResourceKind::FileDescriptors
        ))
    ));
    assert_eq!(sandbox.get_stats().security_violations, 1);
    assert_eq!(sandbox.get_stats().total_executions, 1);
}

#[test]
fn test_sandbox_clean_run() {
    let mut sandbox = PluginSandbox::new(SecurityPolicy::default(), ResourceLimits::default());
    sandbox.start_monitoring(0);
    let r = sandbox.stop_monitoring(7);
    assert!(r.is_ok());
    assert_eq!(sandbox.get_stats().total_executions, 1);
    assert_eq!(sandbox.get_stats().security_violations, 0);
    assert_eq!(sandbox.get_stats().total_cpu_time, 7);
}

#[test]
fn test_sandbox_memory_violation() {
    let mut sandbox = PluginSandbox::new(
        SecurityPolicy::default(),
        ResourceLimits {
            max_memory: 100,
            ..ResourceLimits::default()
        },
    );
    sandbox.start_monitoring(0);
    sandbox.resource_monitor.record_memory_usage(200);
    let r = sandbox.stop_monitoring(1);
    assert!(matches!(
        r,
        Err(SecurityViolation::ExcessiveMemoryUsage(200))
    ));
}

#[test]
fn test_outcome_mapping() {
    // The single place a raw call outcome turns into the error taxonomy:
    // epoch interruption is a timeout, fuel exhaustion its own error.
    assert_eq!(interpret_outcome(CallOutcome::Returned(7)), Ok(7));
    assert_eq!(
        interpret_outcome(CallOutcome::EpochInterrupt),
        Err(RuntimeError::Timeout)
    );
    assert_eq!(
        interpret_outcome(CallOutcome::FuelExhausted),
        Err(RuntimeError::FuelExhausted)
    );
    assert_eq!(
        interpret_outcome(CallOutcome::NoSuchFunction),
        Err(RuntimeError::FunctionNotFound)
    );
    assert_eq!(
        interpret_outcome(CallOutcome::Trapped),
        Err(RuntimeError::ExecutionFailed)
    );
}

#[test]
fn test_validate_too_many_imports() {
    // 101 imports run past the hard cap of 100.
    let mut wat_text = String::from("(module ");
    let mut i = 0;
    while i < 101 {
        wat_text.push_str(&format!(
            "(import \"wasi_snapshot_preview1\" \"random_get\" (func $f{} (param i32 i32) (result i32)))",
            i
        ));
        i += 1;
    }
    wat_text.push(')');
    let wasm = wat::parse_str(&wat_text).unwrap();
    let mut policy = SecurityPolicy::default();
    policy.allowed_wasi_capabilities.push(WasiCapability::Random);
    let r = validate_module_bytes(&wasm, &meta("Unknown", vec![]), &policy);
    assert!(matches!(r, Err(ValidationError::TooManyImports)));
}

#[test]
fn test_cpu_time_violation() {
    let mut sandbox = PluginSandbox::new(
        SecurityPolicy::default(),
        ResourceLimits {
            cpu_time_limit: 5,
            ..ResourceLimits::default()
        },
    );
    sandbox.start_monitoring(0);
    sandbox.resource_monitor.record_cpu_time(10);
    let r = sandbox.stop_monitoring(1);
    assert!(matches!(r, Err(SecurityViolation::ExcessiveCpuTime(10))));
}
