//! Security policy and module validation: which capabilities a plugin may
//! import, which namespaces are trusted, and when a module is rejected.
//!
//! The policy is deliberately conservative: an import that maps to no known
//! capability, or comes from an unrecognized namespace, is denied.

use vstd::prelude::*;
use crate::strutil::{contains_string, str_eq, string_vec_contains, views_of};
use crate::wasm::{wasm_surface, decode_surface, ModuleSurface};
use crate::{ResourceLimits, WasmPluginMetadata};

verus! {

/// Capabilities that can be granted to plugins through the platform
/// capability namespace.
#[derive(Debug, Clone, Copy, PartialEq, Eq, Structural)]
pub enum WasiCapability {
    FileSystem,
    Network,
    EnvironmentVariables,
    CommandLineArguments,
    Random,
    Clock,
    Exit,
}

/// Security policy for plugin validation and execution.
#[derive(Debug, Clone)]
pub struct SecurityPolicy {
    /// Capabilities a module may import.
    pub allowed_wasi_capabilities: Vec<WasiCapability>,
    /// File system path prefixes a plugin may touch.
    pub allowed_file_paths: Vec<String>,
    /// Network hosts a plugin may reach.
    pub allowed_network_hosts: Vec<String>,
    /// Environment variables a plugin may read.
    pub allowed_env_vars: Vec<String>,
    /// Maximum number of file descriptors.
    pub max_file_descriptors: u32,
    /// Maximum number of network connections.
    pub max_network_connections: u32,
    /// Disable dangerous WebAssembly features.
    pub disable_dangerous_features: bool,
    /// Require the module author to be in `trusted_authors`.
    pub require_signature: bool,
    /// Authors whose modules may load when a signature is required.
    pub trusted_authors: Vec<String>,
}

impl SecurityPolicy {
    /// Whether the policy grants the capability `c`.
    pub open spec fn allows(self, c: WasiCapability) -> bool {
        self.allowed_wasi_capabilities@.contains(c)
    }

    /// Whether the policy trusts the author named `author`.
    pub open spec fn trusts_author(self, author: Seq<char>) -> bool {
        contains_string(views_of(self.trusted_authors@), author)
    }

    pub fn allows_capability(&self, c: WasiCapability) -> (r: bool)
        ensures
            r == self.allows(c),
    {
        let caps = &self.allowed_wasi_capabilities;
        let mut i: usize = 0;
        while i < caps.len()
            invariant
                caps@ == self.allowed_wasi_capabilities@,
                i <= caps@.len(),
                forall|j: int| 0 <= j < i ==> caps@[j] != c,
            decreases caps@.len() - i,
        {
            if caps[i] == c {
                proof {
                    assert(self.allowed_wasi_capabilities@.contains(c)) by {
                        assert(caps@[i as int] == c);
                    }
                }
                return true;
            }
            i = i + 1;
        }
        false
    }
}

impl Default for SecurityPolicy {
    /// The default policy: random and clock only, five file descriptors,
    /// two network connections, dangerous features disabled, no signature
    /// requirement.
    fn default() -> (r: Self)
        ensures
            r.allowed_wasi_capabilities@ == seq![
                WasiCapability::Random,
                WasiCapability::Clock,
            ],
            r.allowed_file_paths@.len() == 0,
            r.allowed_network_hosts@.len() == 0,
            r.allowed_env_vars@.len() == 0,
            r.max_file_descriptors == 5,
            r.max_network_connections == 2,
            r.disable_dangerous_features,
            !r.require_signature,
            r.trusted_authors@.len() == 0,
    {
        SecurityPolicy {
            allowed_wasi_capabilities: vec![WasiCapability::Random, WasiCapability::Clock],
            allowed_file_paths: Vec::new(),
            allowed_network_hosts: Vec::new(),
            allowed_env_vars: Vec::new(),
            max_file_descriptors: 5,
            max_network_connections: 2,
            disable_dangerous_features: true,
            require_signature: false,
            trusted_authors: Vec::new(),
        }
    }
}

/// Why a module was rejected, over mathematical values. The payload of
/// name-carrying variants is the character sequence of the offending name.
pub enum ValidationIssue {
    Malformed,
    CapabilityDenied(WasiCapability),
    ProhibitedImport(Seq<char>),
    TooManyImports,
    UntrustedAuthor,
    ProhibitedCapability(Seq<char>),
}

/// Why a module was rejected. Always fatal to loading; never retried.
#[derive(Debug, Clone)]
pub enum ValidationError {
    /// The bytes are not a structurally valid module.
    Malformed,
    /// The module imports a capability the policy does not grant.
    CapabilityDenied(WasiCapability),
    /// The module imports an unknown symbol or from an untrusted namespace.
    ProhibitedImport(String),
    /// The module declares more imports than the hard cap.
    TooManyImports,
    /// A signature is required and the author is not trusted.
    UntrustedAuthor,
    /// The module declares a capability tag that is never granted.
    ProhibitedCapability(String),
}

impl View for ValidationError {
    type V = ValidationIssue;

    open spec fn view(&self) -> ValidationIssue {
        match self {
            ValidationError::Malformed => ValidationIssue::Malformed,
            ValidationError::CapabilityDenied(c) => ValidationIssue::CapabilityDenied(*c),
            ValidationError::ProhibitedImport(s) => ValidationIssue::ProhibitedImport(s@),
            ValidationError::TooManyImports => ValidationIssue::TooManyImports,
            ValidationError::UntrustedAuthor => ValidationIssue::UntrustedAuthor,
            ValidationError::ProhibitedCapability(s) => ValidationIssue::ProhibitedCapability(s@),
        }
    }
}

/// The capability a platform import maps to, or `None` for an unknown
/// symbol (unknown implies deny).
pub open spec fn import_capability(name: Seq<char>) -> Option<WasiCapability> {
    if name == "fd_read"@ || name == "fd_write"@ || name == "fd_close"@ || name == "path_open"@ {
        Some(WasiCapability::FileSystem)
    } else if name == "sock_accept"@ || name == "sock_recv"@ || name == "sock_send"@ {
        Some(WasiCapability::Network)
    } else if name == "environ_get"@ || name == "environ_sizes_get"@ {
        Some(WasiCapability::EnvironmentVariables)
    } else if name == "args_get"@ || name == "args_sizes_get"@ {
        Some(WasiCapability::CommandLineArguments)
    } else if name == "random_get"@ {
        Some(WasiCapability::Random)
    } else if name == "clock_time_get"@ {
        Some(WasiCapability::Clock)
    } else if name == "proc_exit"@ {
        Some(WasiCapability::Exit)
    } else {
        None
    }
}

/// The executable counterpart of [`import_capability`].
pub fn capability_for_import(name: &str) -> (r: Option<WasiCapability>)
    ensures
        r == import_capability(name@),
{
    if str_eq(name, "fd_read") || str_eq(name, "fd_write") || str_eq(name, "fd_close")
        || str_eq(name, "path_open") {
        Some(WasiCapability::FileSystem)
    } else if str_eq(name, "sock_accept") || str_eq(name, "sock_recv")
        || str_eq(name, "sock_send") {
        Some(WasiCapability::Network)
    } else if str_eq(name, "environ_get") || str_eq(name, "environ_sizes_get") {
        Some(WasiCapability::EnvironmentVariables)
    } else if str_eq(name, "args_get") || str_eq(name, "args_sizes_get") {
        Some(WasiCapability::CommandLineArguments)
    } else if str_eq(name, "random_get") {
        Some(WasiCapability::Random)
    } else if str_eq(name, "clock_time_get") {
        Some(WasiCapability::Clock)
    } else if str_eq(name, "proc_exit") {
        Some(WasiCapability::Exit)
    } else {
        None
    }
}

/// The issue a single import raises under `policy`, if any.
///
/// Only the platform capability namespaces are recognized; within them,
/// a symbol must map to a granted capability.
pub open spec fn import_issue(imp: (Seq<char>, Seq<char>), policy: SecurityPolicy) -> Option<
    ValidationIssue,
> {
    if imp.0 == "wasi_snapshot_preview1"@ {
        match import_capability(imp.1) {
            Some(c) => if policy.allows(c) {
                None
            } else {
                Some(ValidationIssue::CapabilityDenied(c))
            },
            None => Some(ValidationIssue::ProhibitedImport(imp.1)),
        }
    } else if imp.0 == "wasi_unstable"@ {
        None
    } else {
        Some(ValidationIssue::ProhibitedImport(imp.0))
    }
}

/// The issue raised by the first offending import, if any.
pub open spec fn first_import_issue(
    imports: Seq<(Seq<char>, Seq<char>)>,
    policy: SecurityPolicy,
) -> Option<ValidationIssue>
    decreases imports.len(),
{
    if imports.len() == 0 {
        None
    } else {
        match import_issue(imports[0], policy) {
            Some(e) => Some(e),
            None => first_import_issue(imports.skip(1), policy),
        }
    }
}

/// Capability tags that are never granted, whatever the policy.
pub open spec fn is_prohibited_capability(cap: Seq<char>) -> bool {
    cap == "system_admin"@ || cap == "unrestricted_network"@ || cap == "arbitrary_code"@
}

/// The first declared capability tag that is never granted, if any.
pub open spec fn first_capability_issue(caps: Seq<Seq<char>>) -> Option<ValidationIssue>
    decreases caps.len(),
{
    if caps.len() == 0 {
        None
    } else if is_prohibited_capability(caps[0]) {
        Some(ValidationIssue::ProhibitedCapability(caps[0]))
    } else {
        first_capability_issue(caps.skip(1))
    }
}

/// The hard cap on the number of imports a module may declare.
pub const MAX_IMPORTS: usize = 100;

/// The complete validation verdict for a module surface, metadata and
/// policy: `None` when the module is accepted, otherwise the first issue in
/// checking order (structure, imports, import count, signature, declared
/// capabilities).
pub open spec fn validation_issue(
    surface: Option<(Seq<(Seq<char>, Seq<char>)>, Seq<Seq<char>>)>,
    meta: WasmPluginMetadata,
    policy: SecurityPolicy,
) -> Option<ValidationIssue> {
    match surface {
        None => Some(ValidationIssue::Malformed),
        Some(s) => match first_import_issue(s.0, policy) {
            Some(e) => Some(e),
            None => if s.0.len() > 100 {
                Some(ValidationIssue::TooManyImports)
            } else if policy.require_signature && !policy.trusts_author(meta.author@) {
                Some(ValidationIssue::UntrustedAuthor)
            } else {
                first_capability_issue(views_of(meta.capabilities@))
            },
        },
    }
}

/// Checks every import of `surface` against `policy`.
fn check_imports(surface: &ModuleSurface, policy: &SecurityPolicy) -> (r: Result<
    (),
    ValidationError,
>)
    ensures
        r is Ok <==> first_import_issue(surface@.0, *policy) is None,
        r matches Err(e) ==> first_import_issue(surface@.0, *policy) == Some(e@),
{
    let imports = &surface.imports;
    let ghost iv = surface@.0;
    let mut i: usize = 0;
    proof {
        assert(iv.skip(0) =~= iv);
    }
    while i < imports.len()
        invariant
            imports@ == surface.imports@,
            iv == surface@.0,
            i <= imports@.len(),
            iv == imports@.map_values(|imp: crate::wasm::ModuleImport| imp@),
            first_import_issue(iv.skip(i as int), *policy) == first_import_issue(iv, *policy),
            forall|j: int| 0 <= j < i ==> import_issue(iv[j], *policy) is None,
        decreases imports@.len() - i,
    {
        let imp = &imports[i];
        proof {
            assert(iv[i as int] == (imp.module@, imp.name@));
            assert(iv.skip(i as int)[0] == iv[i as int]);
            assert(iv.skip(i as int).skip(1) =~= iv.skip(i + 1));
        }
        if str_eq(imp.module.as_str(), "wasi_snapshot_preview1") {
            match capability_for_import(imp.name.as_str()) {
                Some(c) => {
                    if !policy.allows_capability(c) {
                        return Err(ValidationError::CapabilityDenied(c));
                    }
                },
                None => {
                    return Err(ValidationError::ProhibitedImport(imp.name.clone()));
                },
            }
        } else if str_eq(imp.module.as_str(), "wasi_unstable") {
        } else {
            return Err(ValidationError::ProhibitedImport(imp.module.clone()));
        }
        i = i + 1;
    }
    proof {
        assert(iv.skip(iv.len() as int) =~= Seq::<(Seq<char>, Seq<char>)>::empty());
    }
    Ok(())
}

/// Checks the declared capability tags of `meta`.
fn check_declared_capabilities(meta: &WasmPluginMetadata) -> (r: Result<(), ValidationError>)
    ensures
        r is Ok <==> first_capability_issue(views_of(meta.capabilities@)) is None,
        r matches Err(e) ==> first_capability_issue(views_of(meta.capabilities@)) == Some(e@),
{
    let caps = &meta.capabilities;
    let ghost cv = views_of(meta.capabilities@);
    let mut i: usize = 0;
    proof {
        assert(cv.skip(0) =~= cv);
    }
    while i < caps.len()
        invariant
            caps@ == meta.capabilities@,
            cv == views_of(meta.capabilities@),
            i <= caps@.len(),
            cv == views_of(caps@),
            first_capability_issue(cv.skip(i as int)) == first_capability_issue(cv),
            forall|j: int| 0 <= j < i ==> !is_prohibited_capability(cv[j]),
        decreases caps@.len() - i,
    {
        proof {
            assert(cv[i as int] == caps@[i as int]@);
            assert(cv.skip(i as int)[0] == cv[i as int]);
            assert(cv.skip(i as int).skip(1) =~= cv.skip(i + 1));
        }
        let cap = caps[i].as_str();
        if str_eq(cap, "system_admin") || str_eq(cap, "unrestricted_network")
            || str_eq(cap, "arbitrary_code") {
            return Err(ValidationError::ProhibitedCapability(caps[i].clone()));
        }
        i = i + 1;
    }
    proof {
        assert(cv.skip(cv.len() as int) =~= Seq::<Seq<char>>::empty());
    }
    Ok(())
}

/// Validates an already-decoded module surface against `policy`:
/// imports, import count, signature requirement, declared capabilities.
pub fn validate_surface(
    surface: &ModuleSurface,
    meta: &WasmPluginMetadata,
    policy: &SecurityPolicy,
) -> (r: Result<(), ValidationError>)
    ensures
        r is Ok <==> validation_issue(Some(surface@), *meta, *policy) is None,
        r matches Err(e) ==> validation_issue(Some(surface@), *meta, *policy) == Some(e@),
{
    check_imports(surface, policy)?;
    if surface.imports.len() > MAX_IMPORTS {
        return Err(ValidationError::TooManyImports);
    }
    if policy.require_signature && !string_vec_contains(&policy.trusted_authors, meta.author.as_str()) {
        return Err(ValidationError::UntrustedAuthor);
    }
    check_declared_capabilities(meta)?;
    Ok(())
}

/// Validates candidate module bytes against `policy`: structural decoding
/// is delegated to wasmtime, and the decoded surface is checked exactly as
/// [`validate_surface`] does.
pub fn validate_module_bytes(
    bytes: &[u8],
    meta: &WasmPluginMetadata,
    policy: &SecurityPolicy,
) -> (r: Result<(), ValidationError>)
    ensures
        r is Ok <==> validation_issue(wasm_surface(bytes@), *meta, *policy) is None,
        r matches Err(e) ==> validation_issue(wasm_surface(bytes@), *meta, *policy) == Some(e@),
{
    match decode_surface(bytes) {
        Some(surface) => validate_surface(&surface, meta, policy),
        None => Err(ValidationError::Malformed),
    }
}

/// Capability denial: a module with an import from the platform capability
/// namespace whose capability the policy does not grant is never accepted,
/// whatever the rest of the surface, the metadata and the policy say.
pub proof fn lemma_capability_denial(
    surface: (Seq<(Seq<char>, Seq<char>)>, Seq<Seq<char>>),
    meta: WasmPluginMetadata,
    policy: SecurityPolicy,
    i: int,
)
    requires
        0 <= i < surface.0.len(),
        surface.0[i].0 == "wasi_snapshot_preview1"@,
        import_capability(surface.0[i].1) is Some,
        !policy.allows(import_capability(surface.0[i].1).unwrap()),
    ensures
        validation_issue(Some(surface), meta, policy) is Some,
{
    lemma_offending_import_rejected(surface.0, policy, i);
}

/// If some import raises an issue, the import scan reports one.
proof fn lemma_offending_import_rejected(
    imports: Seq<(Seq<char>, Seq<char>)>,
    policy: SecurityPolicy,
    i: int,
)
    requires
        0 <= i < imports.len(),
        import_issue(imports[i], policy) is Some,
    ensures
        first_import_issue(imports, policy) is Some,
    decreases imports.len(),
{
    if import_issue(imports[0], policy) is None {
        lemma_offending_import_rejected(imports.skip(1), policy, i - 1);
    }
}

/// Canned policy tiers for different trust levels.
pub struct SecurityConfig;

impl SecurityConfig {
    /// A restrictive policy for untrusted plugins: random and clock only,
    /// zero file descriptors and connections, signature required.
    pub fn untrusted() -> (r: SecurityPolicy)
        ensures
            r.allowed_wasi_capabilities@ == seq![
                WasiCapability::Random,
                WasiCapability::Clock,
            ],
            r.allowed_file_paths@.len() == 0,
            r.allowed_network_hosts@.len() == 0,
            r.allowed_env_vars@.len() == 0,
            r.max_file_descriptors == 0,
            r.max_network_connections == 0,
            r.disable_dangerous_features,
            r.require_signature,
            r.trusted_authors@.len() == 0,
    {
        SecurityPolicy {
            allowed_wasi_capabilities: vec![WasiCapability::Random, WasiCapability::Clock],
            allowed_file_paths: Vec::new(),
            allowed_network_hosts: Vec::new(),
            allowed_env_vars: Vec::new(),
            max_file_descriptors: 0,
            max_network_connections: 0,
            disable_dangerous_features: true,
            require_signature: true,
            trusted_authors: Vec::new(),
        }
    }

    /// A moderate policy for semi-trusted plugins: adds the file system
    /// under temporary paths, five file descriptors.
    pub fn semi_trusted() -> (r: SecurityPolicy)
        ensures
            r.allowed_wasi_capabilities@ == seq![
                WasiCapability::Random,
                WasiCapability::Clock,
                WasiCapability::FileSystem,
            ],
            views_of(r.allowed_file_paths@) == seq!["/tmp"@, "/var/tmp"@],
            r.allowed_network_hosts@.len() == 0,
            views_of(r.allowed_env_vars@) == seq!["PATH"@],
            r.max_file_descriptors == 5,
            r.max_network_connections == 0,
            r.disable_dangerous_features,
            !r.require_signature,
            r.trusted_authors@.len() == 0,
    {
        let r = SecurityPolicy {
            allowed_wasi_capabilities: vec![
                WasiCapability::Random,
                WasiCapability::Clock,
                WasiCapability::FileSystem,
            ],
            allowed_file_paths: vec![string_lit("/tmp"), string_lit("/var/tmp")],
            allowed_network_hosts: Vec::new(),
            allowed_env_vars: vec![string_lit("PATH")],
            max_file_descriptors: 5,
            max_network_connections: 0,
            disable_dangerous_features: true,
            require_signature: false,
            trusted_authors: Vec::new(),
        };
        proof {
            assert(views_of(r.allowed_file_paths@) =~= seq!["/tmp"@, "/var/tmp"@]);
            assert(views_of(r.allowed_env_vars@) =~= seq!["PATH"@]);
        }
        r
    }

    /// A permissive policy for trusted plugins: file system, network and
    /// environment, twenty file descriptors, ten connections.
    pub fn trusted() -> (r: SecurityPolicy)
        ensures
            r.allowed_wasi_capabilities@ == seq![
                WasiCapability::Random,
                WasiCapability::Clock,
                WasiCapability::FileSystem,
                WasiCapability::Network,
                WasiCapability::EnvironmentVariables,
            ],
            views_of(r.allowed_file_paths@) == seq!["/tmp"@, "/var/tmp"@, "/home"@],
            views_of(r.allowed_network_hosts@) == seq!["api.example.com"@],
            views_of(r.allowed_env_vars@) == seq!["PATH"@, "HOME"@],
            r.max_file_descriptors == 20,
            r.max_network_connections == 10,
            !r.disable_dangerous_features,
            !r.require_signature,
            r.trusted_authors@.len() == 0,
    {
        let r = SecurityPolicy {
            allowed_wasi_capabilities: vec![
                WasiCapability::Random,
                WasiCapability::Clock,
                WasiCapability::FileSystem,
                WasiCapability::Network,
                WasiCapability::EnvironmentVariables,
            ],
            allowed_file_paths: vec![string_lit("/tmp"), string_lit("/var/tmp"), string_lit("/home")],
            allowed_network_hosts: vec![string_lit("api.example.com")],
            allowed_env_vars: vec![string_lit("PATH"), string_lit("HOME")],
            max_file_descriptors: 20,
            max_network_connections: 10,
            disable_dangerous_features: false,
            require_signature: false,
            trusted_authors: Vec::new(),
        };
        proof {
            assert(views_of(r.allowed_file_paths@) =~= seq!["/tmp"@, "/var/tmp"@, "/home"@]);
            assert(views_of(r.allowed_network_hosts@) =~= seq!["api.example.com"@]);
            assert(views_of(r.allowed_env_vars@) =~= seq!["PATH"@, "HOME"@]);
        }
        r
    }
}

/// An owned copy of a string literal.
fn string_lit(s: &str) -> (r: String)
    ensures
        r@ == s@,
{
    s.to_owned()
}

/// Saturating addition on `u64`.
pub fn sat_add_u64(a: u64, b: u64) -> (r: u64)
    ensures
        r == if a + b > u64::MAX { u64::MAX as int } else { a + b },
{
    if a <= u64::MAX - b {
        a + b
    } else {
        u64::MAX
    }
}

/// Saturating increment on `u32`.
fn sat_inc_u32(a: u32) -> (r: u32)
    ensures
        r == if a < u32::MAX { a + 1 } else { a as int },
{
    if a < u32::MAX {
        a + 1
    } else {
        a
    }
}

/// Which resource ceiling an execution ran past.
#[derive(Debug, Clone, Copy, PartialEq, Eq, Structural)]
pub enum ResourceKind {
    FileDescriptors,
    NetworkConnections,
}

/// A resource or policy ceiling exceeded by an execution. Always recorded
/// in the execution statistics and surfaced to the caller.
#[derive(Debug, Clone)]
pub enum SecurityViolation {
    /// Peak memory in bytes ran past the limit.
    ExcessiveMemoryUsage(u64),
    /// CPU time in milliseconds ran past the limit.
    ExcessiveCpuTime(u64),
    UnauthorizedFileAccess(String),
    UnauthorizedNetworkAccess(String),
    ProhibitedWasiCall(String),
    /// An operation count ran past the policy ceiling.
    ResourceLimitExceeded(ResourceKind),
    UntrustedPlugin(String),
    InvalidSignature,
}

/// Per-execution resource accounting, compared to the limits when
/// monitoring stops.
#[derive(Debug, Clone)]
pub struct ResourceMonitor {
    /// When monitoring started, in caller-supplied milliseconds.
    pub start_time: u64,
    /// Peak memory observed, in bytes.
    pub memory_usage: u64,
    /// CPU time consumed, in milliseconds.
    pub cpu_time: u64,
    /// File operations performed.
    pub file_operations: u32,
    /// Network operations performed.
    pub network_operations: u32,
    /// The limits this execution was granted.
    pub limits: ResourceLimits,
}

/// Cumulative execution statistics, kept across the sandbox's lifetime so
/// health checks can report a trend. Monotonically non-decreasing.
#[derive(Debug, Clone)]
pub struct ExecutionStats {
    pub total_executions: u64,
    pub successful_executions: u64,
    pub failed_executions: u64,
    pub security_violations: u64,
    /// Average execution time in milliseconds.
    pub average_execution_time: u64,
    /// Peak memory in bytes over all executions.
    pub peak_memory_usage: u64,
    /// Total CPU time in milliseconds.
    pub total_cpu_time: u64,
}

impl Default for ExecutionStats {
    fn default() -> (r: Self)
        ensures
            r == (ExecutionStats {
                total_executions: 0,
                successful_executions: 0,
                failed_executions: 0,
                security_violations: 0,
                average_execution_time: 0,
                peak_memory_usage: 0,
                total_cpu_time: 0,
            }),
    {
        ExecutionStats {
            total_executions: 0,
            successful_executions: 0,
            failed_executions: 0,
            security_violations: 0,
            average_execution_time: 0,
            peak_memory_usage: 0,
            total_cpu_time: 0,
        }
    }
}

impl ResourceMonitor {
    /// A fresh monitor over `limits`, with all counters at zero.
    pub fn new(limits: ResourceLimits) -> (r: Self)
        ensures
            r.start_time == 0,
            r.memory_usage == 0,
            r.cpu_time == 0,
            r.file_operations == 0,
            r.network_operations == 0,
            r.limits == limits,
    {
        ResourceMonitor {
            start_time: 0,
            memory_usage: 0,
            cpu_time: 0,
            file_operations: 0,
            network_operations: 0,
            limits,
        }
    }

    /// Resets the counters for a new execution beginning at `now` (in
    /// caller-supplied milliseconds).
    pub fn start(&mut self, now: u64)
        ensures
            final(self).start_time == now,
            final(self).memory_usage == 0,
            final(self).cpu_time == 0,
            final(self).file_operations == 0,
            final(self).network_operations == 0,
            final(self).limits == old(self).limits,
    {
        self.start_time = now;
        self.memory_usage = 0;
        self.cpu_time = 0;
        self.file_operations = 0;
        self.network_operations = 0;
    }

    /// The wall-clock time elapsed since monitoring started, never
    /// negative even if the caller's clock stepped backwards.
    pub fn elapsed(&self, now: u64) -> (r: u64)
        ensures
            r == if now >= self.start_time { now - self.start_time } else { 0 },
    {
        if now >= self.start_time {
            now - self.start_time
        } else {
            0
        }
    }

    /// Records a memory high-water mark in bytes.
    pub fn record_memory_usage(&mut self, bytes: u64)
        ensures
            *final(self) == (ResourceMonitor {
                memory_usage: if bytes > old(self).memory_usage {
                    bytes
                } else {
                    old(self).memory_usage
                },
                ..*old(self)
            }),
    {
        if bytes > self.memory_usage {
            self.memory_usage = bytes;
        }
    }

    /// Records CPU time spent, in milliseconds.
    pub fn record_cpu_time(&mut self, ms: u64)
        ensures
            *final(self) == (ResourceMonitor {
                cpu_time: if old(self).cpu_time + ms > u64::MAX {
                    u64::MAX
                } else {
                    ((old(self).cpu_time + ms) as u64)
                },
                ..*old(self)
            }),
    {
        self.cpu_time = sat_add_u64(self.cpu_time, ms);
    }

    /// Records one file operation.
    pub fn record_file_operation(&mut self)
        ensures
            *final(self) == (ResourceMonitor {
                file_operations: if old(self).file_operations < u32::MAX {
                    ((old(self).file_operations + 1) as u32)
                } else {
                    old(self).file_operations
                },
                ..*old(self)
            }),
    {
        self.file_operations = sat_inc_u32(self.file_operations);
    }

    /// Records one network operation.
    pub fn record_network_operation(&mut self)
        ensures
            *final(self) == (ResourceMonitor {
                network_operations: if old(self).network_operations < u32::MAX {
                    ((old(self).network_operations + 1) as u32)
                } else {
                    old(self).network_operations
                },
                ..*old(self)
            }),
    {
        self.network_operations = sat_inc_u32(self.network_operations);
    }
}

/// The first ceiling the monitored execution ran past under `policy`, in
/// checking order: memory, CPU time, file operations, network operations.
pub open spec fn resource_violation(m: ResourceMonitor, policy: SecurityPolicy) -> Option<
    SecurityViolation,
> {
    if m.memory_usage > m.limits.max_memory {
        Some(SecurityViolation::ExcessiveMemoryUsage(m.memory_usage))
    } else if m.cpu_time > m.limits.cpu_time_limit {
        Some(SecurityViolation::ExcessiveCpuTime(m.cpu_time))
    } else if m.file_operations > policy.max_file_descriptors {
        Some(SecurityViolation::ResourceLimitExceeded(ResourceKind::FileDescriptors))
    } else if m.network_operations > policy.max_network_connections {
        Some(SecurityViolation::ResourceLimitExceeded(ResourceKind::NetworkConnections))
    } else {
        None
    }
}

/// Wraps one execution at a time: accounts its resource use, compares it to
/// the active policy and limits, and accumulates statistics across the
/// sandbox's lifetime.
pub struct PluginSandbox {
    pub policy: SecurityPolicy,
    pub resource_monitor: ResourceMonitor,
    pub execution_stats: ExecutionStats,
}

impl PluginSandbox {
    /// A sandbox enforcing `policy` with per-execution `limits`.
    pub fn new(policy: SecurityPolicy, limits: ResourceLimits) -> (r: Self)
        ensures
            r.policy == policy,
            r.resource_monitor.limits == limits,
            r.resource_monitor.memory_usage == 0,
            r.resource_monitor.cpu_time == 0,
            r.resource_monitor.file_operations == 0,
            r.resource_monitor.network_operations == 0,
            r.execution_stats == (ExecutionStats {
                total_executions: 0,
                successful_executions: 0,
                failed_executions: 0,
                security_violations: 0,
                average_execution_time: 0,
                peak_memory_usage: 0,
                total_cpu_time: 0,
            }),
    {
        PluginSandbox {
            policy,
            resource_monitor: ResourceMonitor::new(limits),
            execution_stats: ExecutionStats::default(),
        }
    }

    /// Validates candidate module bytes and metadata against this
    /// sandbox's policy; see [`validation_issue`] for the exact verdict.
    pub fn validate_plugin(&self, bytes: &[u8], meta: &WasmPluginMetadata) -> (r: Result<
        (),
        ValidationError,
    >)
        ensures
            r is Ok <==> validation_issue(wasm_surface(bytes@), *meta, self.policy) is None,
            r matches Err(e) ==> validation_issue(wasm_surface(bytes@), *meta, self.policy)
                == Some(e@),
    {
        validate_module_bytes(bytes, meta, &self.policy)
    }

    /// Starts monitoring one execution beginning at `now` (milliseconds).
    pub fn start_monitoring(&mut self, now: u64)
        ensures
            final(self).policy == old(self).policy,
            final(self).execution_stats == old(self).execution_stats,
            final(self).resource_monitor.start_time == now,
            final(self).resource_monitor.memory_usage == 0,
            final(self).resource_monitor.cpu_time == 0,
            final(self).resource_monitor.file_operations == 0,
            final(self).resource_monitor.network_operations == 0,
            final(self).resource_monitor.limits == old(self).resource_monitor.limits,
    {
        self.resource_monitor.start(now);
    }

    /// Stops monitoring at `now`, folds the execution into the statistics,
    /// and reports the first ceiling the execution ran past, if any.
    ///
    /// The statistics never decrease; `security_violations` grows by one
    /// exactly when a violation is reported, and `successful_executions`
    /// exactly when none is.
    pub fn stop_monitoring(&mut self, now: u64) -> (r: Result<(), SecurityViolation>)
        ensures
            final(self).policy == old(self).policy,
            final(self).resource_monitor == old(self).resource_monitor,
            ({
                let elapsed: u64 = if now >= old(self).resource_monitor.start_time {
                    (now - old(self).resource_monitor.start_time) as u64
                } else {
                    0
                };
                let total: u64 = if old(self).execution_stats.total_executions < u64::MAX {
                    (old(self).execution_stats.total_executions + 1) as u64
                } else {
                    u64::MAX
                };
                let cpu: u64 = if old(self).execution_stats.total_cpu_time + elapsed
                    > u64::MAX {
                    u64::MAX
                } else {
                    (old(self).execution_stats.total_cpu_time + elapsed) as u64
                };
                &&& final(self).execution_stats.total_executions == total
                &&& final(self).execution_stats.total_cpu_time == cpu
                &&& final(self).execution_stats.average_execution_time == cpu / total
                &&& final(self).execution_stats.failed_executions == old(
                    self,
                ).execution_stats.failed_executions
                &&& final(self).execution_stats.peak_memory_usage == if old(
                    self,
                ).resource_monitor.memory_usage > old(self).execution_stats.peak_memory_usage {
                    old(self).resource_monitor.memory_usage
                } else {
                    old(self).execution_stats.peak_memory_usage
                }
            }),
            r is Ok <==> resource_violation(old(self).resource_monitor, old(self).policy)
                is None,
            r matches Err(v) ==> Some(v) == resource_violation(
                old(self).resource_monitor,
                old(self).policy,
            ),
            r is Ok ==> final(self).execution_stats.security_violations == old(
                self,
            ).execution_stats.security_violations,
            r is Err ==> final(self).execution_stats.security_violations == if old(
                self,
            ).execution_stats.security_violations < u64::MAX {
                old(self).execution_stats.security_violations + 1
            } else {
                u64::MAX as int
            },
            r is Ok ==> final(self).execution_stats.successful_executions == if old(
                self,
            ).execution_stats.successful_executions < u64::MAX {
                old(self).execution_stats.successful_executions + 1
            } else {
                u64::MAX as int
            },
            r is Err ==> final(self).execution_stats.successful_executions == old(
                self,
            ).execution_stats.successful_executions,
    {
        let elapsed = self.resource_monitor.elapsed(now);
        let total = if self.execution_stats.total_executions < u64::MAX {
            self.execution_stats.total_executions + 1
        } else {
            u64::MAX
        };
        self.execution_stats.total_executions = total;
        let cpu = sat_add_u64(self.execution_stats.total_cpu_time, elapsed);
        self.execution_stats.total_cpu_time = cpu;
        self.execution_stats.average_execution_time = cpu / total;
        if self.resource_monitor.memory_usage > self.execution_stats.peak_memory_usage {
            self.execution_stats.peak_memory_usage = self.resource_monitor.memory_usage;
        }
        match self.check_resource_violations() {
            Some(v) => {
                self.execution_stats.security_violations = sat_add_u64(
                    self.execution_stats.security_violations,
                    1,
                );
                Err(v)
            },
            None => {
                self.execution_stats.successful_executions = sat_add_u64(
                    self.execution_stats.successful_executions,
                    1,
                );
                Ok(())
            },
        }
    }

    /// Compares the monitor's counters to the limits and policy; reports
    /// the first ceiling exceeded, in the order of [`resource_violation`].
    fn check_resource_violations(&self) -> (r: Option<SecurityViolation>)
        ensures
            r == resource_violation(self.resource_monitor, self.policy),
    {
        let m = &self.resource_monitor;
        if m.memory_usage > m.limits.max_memory {
            Some(SecurityViolation::ExcessiveMemoryUsage(m.memory_usage))
        } else if m.cpu_time > m.limits.cpu_time_limit {
            Some(SecurityViolation::ExcessiveCpuTime(m.cpu_time))
        } else if m.file_operations > self.policy.max_file_descriptors {
            Some(SecurityViolation::ResourceLimitExceeded(ResourceKind::FileDescriptors))
        } else if m.network_operations > self.policy.max_network_connections {
            Some(SecurityViolation::ResourceLimitExceeded(ResourceKind::NetworkConnections))
        } else {
            None
        }
    }

    /// Records one failed call in the statistics.
    pub fn record_failure(&mut self)
        ensures
            final(self).policy == old(self).policy,
            final(self).resource_monitor == old(self).resource_monitor,
            final(self).execution_stats == (ExecutionStats {
                failed_executions: if old(self).execution_stats.failed_executions + 1
                    > u64::MAX {
                    u64::MAX
                } else {
                    ((old(self).execution_stats.failed_executions + 1) as u64)
                },
                ..old(self).execution_stats
            }),
    {
        self.execution_stats.failed_executions = sat_add_u64(
            self.execution_stats.failed_executions,
            1,
        );
    }

    /// The cumulative statistics.
    pub fn get_stats(&self) -> (r: &ExecutionStats)
        ensures
            r == self.execution_stats,
    {
        &self.execution_stats
    }

    /// Replaces the active policy.
    pub fn update_policy(&mut self, policy: SecurityPolicy)
        ensures
            final(self).policy == policy,
            final(self).resource_monitor == old(self).resource_monitor,
            final(self).execution_stats == old(self).execution_stats,
    {
        self.policy = policy;
    }

    /// The active policy.
    pub fn get_policy(&self) -> (r: &SecurityPolicy)
        ensures
            r == self.policy,
    {
        &self.policy
    }
}

} // verus!
