//! The plugin manager facade: the one component the rest of the
//! application talks to. It owns the loader (registry and runtime) and the
//! sandbox together; every load passes validation, and every execution is
//! monitored and bounded.

use vstd::prelude::*;
use crate::loader::{
    first_entry, has_entry, has_loaded, lemma_first_entry, loaded_ids_unique, CandidateFile,
    DiscoveryConfig, LoaderError, PluginEntry, PluginLoader, PluginStatus,
};
use crate::runtime::{RuntimeConfig, RuntimeError};
use crate::security::{
    validation_issue, PluginSandbox, SecurityPolicy, SecurityViolation, ValidationError,
};
use crate::strutil::copy_str;
use crate::wasm::wasm_surface;
use crate::{HealthStatus, PluginContext, PluginHealth, ResourceLimits};

verus! {

/// Errors of the manager facade: the typed error of whichever layer
/// refused, plus `NotLoaded` for calls into plugins that are not loaded.
#[derive(Debug, Clone)]
pub enum PluginError {
    /// The validator rejected the module.
    Validation(ValidationError),
    /// The loader failed (not found, checksum mismatch, malformed).
    Loader(LoaderError),
    /// The runtime failed (capacity, compile, instantiate, timeout).
    Runtime(RuntimeError),
    /// The sandbox reported a resource ceiling exceeded.
    Security(SecurityViolation),
    /// The plugin is not loaded.
    NotLoaded,
}

/// The little-endian rendering of a 32-bit value, low byte first.
pub open spec fn le_bytes_of(u: u32) -> Seq<u8> {
    seq![
        (u % 256) as u8,
        ((u / 256) % 256) as u8,
        ((u / 65536) % 256) as u8,
        ((u / 16777216) % 256) as u8,
    ]
}

/// Renders a call result as four little-endian bytes.
fn i32_to_le_bytes(v: i32) -> (r: Vec<u8>)
    ensures
        r@ == le_bytes_of(v as u32),
{
    let u = #[verifier::truncate] (v as u32);
    let mut out: Vec<u8> = Vec::new();
    out.push((u % 256) as u8);
    out.push(((u / 256) % 256) as u8);
    out.push(((u / 65536) % 256) as u8);
    out.push(((u / 16777216) % 256) as u8);
    proof {
        assert(out@ =~= le_bytes_of(v as u32));
    }
    out
}

/// The health a statistics trend derives to: unhealthy while nothing has
/// ever executed successfully, degraded once failed calls outnumber
/// successful ones, else healthy. Health is derived, not stored.
pub open spec fn health_status_of(stats: crate::security::ExecutionStats) -> HealthStatus {
    if stats.successful_executions == 0 {
        HealthStatus::Unhealthy
    } else if stats.failed_executions > stats.successful_executions {
        HealthStatus::Degraded
    } else {
        HealthStatus::Healthy
    }
}

/// The manager facade: loader (registry and runtime) plus sandbox.
///
/// Execution contexts carry no ambient imports at all: a module whose
/// imports the policy grants still cannot instantiate, because nothing is
/// linked to provide them. Capability gating is therefore enforced at
/// validation, and the sandbox is strictly tighter than the policy.
pub struct PluginManager {
    pub loader: PluginLoader,
    pub sandbox: PluginSandbox,
}

impl PluginManager {
    /// Well-formedness of the parts: the runtime's pool identities, unique
    /// loaded ids, and the invariant that every loaded record's bytes
    /// compile on the runtime's engine.
    pub open spec fn wf(self) -> bool {
        &&& self.loader.runtime.wf()
        &&& loaded_ids_unique(self.loader.loaded_plugins@)
        &&& crate::loader::loaded_all_compilable(
            self.loader.loaded_plugins@,
            self.loader.runtime.engine.fuel_metered(),
            self.loader.runtime.engine.epoch_interrupted(),
        )
    }

    /// A manager over `policy` and default per-execution `limits`, with an
    /// empty registry and pool.
    pub fn new(
        plugin_directory: String,
        policy: SecurityPolicy,
        limits: ResourceLimits,
        runtime_config: RuntimeConfig,
    ) -> (r: Result<PluginManager, RuntimeError>)
        ensures
            r is Ok <==> crate::runtime::engine_builds(
                runtime_config.consume_fuel,
                runtime_config.epoch_interruption,
            ),
            r matches Ok(m) ==> {
                &&& m.wf()
                &&& m.sandbox.policy == policy
                &&& m.sandbox.resource_monitor.limits == limits
                &&& m.loader.plugin_directory == plugin_directory
                &&& m.loader.loaded_plugins@.len() == 0
                &&& m.loader.plugin_registry.plugins@.len() == 0
                &&& m.loader.runtime.pool_view().len() == 0
            },
    {
        let loader = match PluginLoader::new(plugin_directory, runtime_config) {
            Ok(l) => l,
            Err(e) => {
                return Err(e);
            },
        };
        Ok(PluginManager { loader, sandbox: PluginSandbox::new(policy, limits) })
    }

    /// Discovers plugins among `files` into the registry.
    pub fn discover_plugins(&mut self, files: &Vec<CandidateFile>, config: &DiscoveryConfig) -> (r:
        Result<Vec<PluginEntry>, PluginError>)
        requires
            old(self).wf(),
        ensures
            final(self).wf(),
            final(self).sandbox == old(self).sandbox,
            final(self).loader.loaded_plugins == old(self).loader.loaded_plugins,
    {
        match self.loader.discover_plugins(files, config) {
            Ok(es) => Ok(es),
            Err(e) => Err(PluginError::Loader(e)),
        }
    }

    /// Loads the plugin registered as `plugin_id` from the bytes now on
    /// disk, after validating them against the active policy. A module the
    /// validator rejects never becomes loaded: its registry entry turns
    /// `Error` and the loaded set keeps no record of it.
    pub fn load_plugin(
        &mut self,
        plugin_id: &str,
        current_bytes: &[u8],
        limits: Option<ResourceLimits>,
        now: u64,
    ) -> (r: Result<(), PluginError>)
        requires
            old(self).wf(),
        ensures
            final(self).wf(),
            final(self).sandbox == old(self).sandbox,
            !has_entry(old(self).loader.plugin_registry.plugins@, plugin_id@) ==> (r matches Err(
                e,
            ) && (e matches PluginError::Loader(le) && le matches LoaderError::NotFound)),
            !has_loaded(old(self).loader.loaded_plugins@, plugin_id@) && r is Err ==> final(self).loader.loaded_plugins == old(self).loader.loaded_plugins,
            r matches Err(PluginError::Loader(le)) ==> final(self).loader.plugin_registry == old(
                self,
            ).loader.plugin_registry,
            has_entry(old(self).loader.plugin_registry.plugins@, plugin_id@) && has_loaded(
                old(self).loader.loaded_plugins@,
                plugin_id@,
            ) ==> (r is Ok && *final(self) == *old(self)),
            has_entry(old(self).loader.plugin_registry.plugins@, plugin_id@) && !has_loaded(
                old(self).loader.loaded_plugins@,
                plugin_id@,
            ) ==> (r matches Err(PluginError::Loader(le)) && le matches
                LoaderError::ChecksumMismatch <==> crate::loader::first_entry_checksum(
                old(self).loader.plugin_registry.plugins@,
                plugin_id@,
            ) != crate::checksum::checksum_of(current_bytes@)),
            has_entry(old(self).loader.plugin_registry.plugins@, plugin_id@) && !has_loaded(
                old(self).loader.loaded_plugins@,
                plugin_id@,
            ) && crate::loader::first_entry_checksum(
                old(self).loader.plugin_registry.plugins@,
                plugin_id@,
            ) == crate::checksum::checksum_of(current_bytes@) ==> {
                let meta = first_entry(
                    old(self).loader.plugin_registry.plugins@,
                    plugin_id@,
                ).unwrap().metadata;
                &&& (r matches Err(PluginError::Validation(e)) <==> validation_issue(
                    wasm_surface(current_bytes@),
                    meta,
                    old(self).sandbox.policy,
                ) is Some)
                &&& (r matches Err(PluginError::Validation(e)) ==> Some(e@) == validation_issue(
                    wasm_surface(current_bytes@),
                    meta,
                    old(self).sandbox.policy,
                ))
                &&& (r is Ok ==> validation_issue(
                    wasm_surface(current_bytes@),
                    meta,
                    old(self).sandbox.policy,
                ) is None)
                &&& (validation_issue(
                    wasm_surface(current_bytes@),
                    meta,
                    old(self).sandbox.policy,
                ) is None ==> (r is Ok <==> crate::runtime::compilable(
                    old(self).loader.runtime.engine.fuel_metered(),
                    old(self).loader.runtime.engine.epoch_interrupted(),
                    current_bytes@,
                )))
            },
            r is Ok && has_entry(old(self).loader.plugin_registry.plugins@, plugin_id@)
                && !has_loaded(old(self).loader.loaded_plugins@, plugin_id@) ==> exists|j: int|
                {
                    &&& 0 <= j < old(self).loader.plugin_registry.plugins@.len()
                    &&& old(self).loader.plugin_registry.plugins@[j].id@ == plugin_id@
                    &&& final(self).loader.plugin_registry.plugins@
                        == old(self).loader.plugin_registry.plugins@.update(
                        j,
                        (PluginEntry {
                            status: PluginStatus::Loaded,
                            ..old(self).loader.plugin_registry.plugins@[j]
                        }),
                    )
                },
            r matches Err(PluginError::Validation(e)) ==> exists|j: int|
                {
                    &&& 0 <= j < old(self).loader.plugin_registry.plugins@.len()
                    &&& old(self).loader.plugin_registry.plugins@[j].id@ == plugin_id@
                    &&& final(self).loader.plugin_registry.plugins@[j].status matches
                        PluginStatus::Error(m)
                },
            r is Ok && !has_loaded(old(self).loader.loaded_plugins@, plugin_id@) ==> {
                &&& has_loaded(final(self).loader.loaded_plugins@, plugin_id@)
                &&& final(self).loader.loaded_plugins@.last().metadata.id@ == plugin_id@
                &&& final(self).loader.loaded_plugins@.last().checksum@
                    == crate::checksum::checksum_of(current_bytes@)
            },
    {
        let entry = match self.loader.plugin_registry.get_plugin(plugin_id) {
            Some(e) => e,
            None => {
                return Err(PluginError::Loader(LoaderError::NotFound));
            },
        };
        proof {
            lemma_first_entry(self.loader.plugin_registry.plugins@, plugin_id@);
            crate::loader::lemma_first_entry_checksum(
                self.loader.plugin_registry.plugins@,
                plugin_id@,
            );
        }
        if self.loader.get_loaded(plugin_id).is_some() {
            return Ok(());
        }
        let current_checksum = crate::checksum::calculate_checksum(current_bytes);
        if !crate::strutil::str_eq(current_checksum.as_str(), entry.checksum.as_str()) {
            return Err(PluginError::Loader(LoaderError::ChecksumMismatch));
        }
        let verdict = self.sandbox.validate_plugin(current_bytes, &entry.metadata);
        match verdict {
            Err(e) => {
                proof {
                    assert(has_entry(self.loader.plugin_registry.plugins@, plugin_id@));
                }
                self.loader.plugin_registry.update_status(
                    plugin_id,
                    PluginStatus::Error(copy_str("validation failed")),
                );
                Err(PluginError::Validation(e))
            },
            Ok(()) => {
                let res = self.loader.load_plugin(plugin_id, current_bytes, limits, now);
                match res {
                    Ok(()) => {
                        proof {
                            if !has_loaded(old(self).loader.loaded_plugins@, plugin_id@) {
                                let lp = self.loader.loaded_plugins@.last();
                                assert(has_loaded(self.loader.loaded_plugins@, plugin_id@)) by {
                                    assert(self.loader.loaded_plugins@[self.loader.loaded_plugins@.len()
                                        - 1] == lp);
                                }
                            }
                        }
                        Ok(())
                    },
                    Err(e) => Err(PluginError::Loader(e)),
                }
            },
        }
    }

    /// Executes the exported function `function_name` of the loaded plugin
    /// `plugin_id` under the sandbox, and returns its result as four
    /// little-endian output bytes. `input` is handed to the instance as
    /// far as the call type carries it; `context` supplies the caller
    /// identity and the monotonic start timestamp the sandbox runs on.
    ///
    /// A call that the runtime interrupts at its deadline surfaces
    /// `RuntimeError::Timeout`; on any failed call the instance is
    /// discarded, never returned to the pool: the pool only ever shrinks,
    /// and the count of active instances is restored.
    pub fn execute_plugin(
        &mut self,
        plugin_id: &str,
        function_name: &str,
        input: &[u8],
        context: &PluginContext,
    ) -> (r: Result<Vec<u8>, PluginError>)
        requires
            old(self).wf(),
        ensures
            final(self).wf(),
            final(self).loader.runtime.engine == old(self).loader.runtime.engine,
            r matches Err(PluginError::NotLoaded) <==> !has_loaded(
                old(self).loader.loaded_plugins@,
                plugin_id@,
            ),
            !has_loaded(old(self).loader.loaded_plugins@, plugin_id@) ==> (r matches Err(e)
                && e matches PluginError::NotLoaded && *final(self) == *old(self)),
            r matches Err(PluginError::Runtime(re)) ==> (re matches
                RuntimeError::CapacityExceeded <==> (old(self).loader.runtime.active_instances
                >= old(self).loader.runtime.config.max_instances || (!crate::runtime::has_module(
                old(self).loader.runtime.pool_view(),
                plugin_id@,
            ) && old(self).loader.runtime.next_instance_seq == u64::MAX))),
            r matches Err(PluginError::Runtime(re)) ==> !(re matches
                RuntimeError::CompileFailed),
            final(self).loader.loaded_plugins == old(self).loader.loaded_plugins,
            final(self).loader.plugin_registry == old(self).loader.plugin_registry,
            r is Err ==> (final(self).loader.runtime.pool_view() == old(self).loader.runtime.pool_view() || exists|j: int|
                0 <= j < old(self).loader.runtime.pool_view().len() && final(self).loader.runtime.pool_view() == old(self).loader.runtime.pool_view().remove(j)),
            r is Err ==> final(self).loader.runtime.active_instances == old(self).loader.runtime.active_instances,
            r matches Ok(out) ==> (out@.len() == 4 && exists|v: u32| out@ == le_bytes_of(v)),
            r matches Err(PluginError::Runtime(e)) ==> final(self).sandbox.execution_stats.failed_executions
                == (if old(self).sandbox.execution_stats.failed_executions < u64::MAX {
                old(self).sandbox.execution_stats.failed_executions + 1
            } else {
                u64::MAX as int
            }),
            r is Ok ==> final(self).sandbox.execution_stats.total_executions == (if old(self).sandbox.execution_stats.total_executions < u64::MAX {
                old(self).sandbox.execution_stats.total_executions + 1
            } else {
                u64::MAX as int
            }),
            r is Ok ==> final(self).sandbox.execution_stats.security_violations == old(self).sandbox.execution_stats.security_violations,
            r matches Err(PluginError::Security(v)) ==> final(self).sandbox.execution_stats.security_violations
                == (if old(self).sandbox.execution_stats.security_violations < u64::MAX {
                old(self).sandbox.execution_stats.security_violations + 1
            } else {
                u64::MAX as int
            }),
    {
        let _ = input;
        let now = context.started_at;
        let (bytes, limits) = match self.loader.get_loaded(plugin_id) {
            Some(lp) => (vstd::slice::slice_to_vec(lp.bytes.as_slice()), lp.limits),
            None => {
                return Err(PluginError::NotLoaded);
            },
        };
        self.sandbox.start_monitoring(now);
        let mut handle = match self.loader.runtime.get_instance(
            plugin_id,
            bytes.as_slice(),
            &limits,
            now,
        ) {
            Ok(h) => h,
            Err(e) => {
                self.sandbox.record_failure();
                return Err(PluginError::Runtime(e));
            },
        };
        let res = handle.call_function(function_name);
        match res {
            Ok(v) => {
                match self.sandbox.stop_monitoring(now) {
                    Ok(()) => {
                        self.loader.runtime.return_instance(handle.inner, now);
                        Ok(i32_to_le_bytes(v))
                    },
                    Err(viol) => {
                        self.loader.runtime.discard_instance(handle);
                        self.sandbox.record_failure();
                        Err(PluginError::Security(viol))
                    },
                }
            },
            Err(e) => {
                self.loader.runtime.discard_instance(handle);
                self.sandbox.record_failure();
                Err(PluginError::Runtime(e))
            },
        }
    }

    /// The ids of the loaded plugins, in load order.
    pub fn list_plugins(&self) -> (r: Vec<String>)
        ensures
            r@.len() == self.loader.loaded_plugins@.len(),
            forall|k: int|
                0 <= k < r@.len() ==> (#[trigger] r@[k])@ == self.loader.loaded_plugins@[
                    k
                ].metadata.id@,
    {
        let loaded = self.loader.get_loaded_plugins();
        let n = loaded.len();
        let mut out: Vec<String> = Vec::new();
        let mut i: usize = 0;
        while i < n
            invariant
                n == loaded@.len(),
                loaded@ == self.loader.loaded_plugins@,
                i <= n,
                out@.len() == i,
                forall|k: int|
                    0 <= k < i ==> (#[trigger] out@[k])@ == loaded@[k].metadata.id@,
            decreases n - i,
        {
            out.push(loaded[i].metadata.id.clone());
            i = i + 1;
        }
        out
    }

    /// Unloads `plugin_id`; see the loader for the exact effect.
    pub fn unload_plugin(&mut self, plugin_id: &str) -> (r: Result<(), PluginError>)
        requires
            old(self).wf(),
        ensures
            final(self).wf(),
            r is Ok,
            final(self).sandbox == old(self).sandbox,
            has_loaded(old(self).loader.loaded_plugins@, plugin_id@) ==> !has_loaded(
                final(self).loader.loaded_plugins@,
                plugin_id@,
            ),
            !has_loaded(old(self).loader.loaded_plugins@, plugin_id@) ==> *final(self) == *old(
                self,
            ),
            has_loaded(old(self).loader.loaded_plugins@, plugin_id@) && !has_entry(
                old(self).loader.plugin_registry.plugins@,
                plugin_id@,
            ) ==> final(self).loader.plugin_registry.plugins@
                == old(self).loader.plugin_registry.plugins@,
            has_loaded(old(self).loader.loaded_plugins@, plugin_id@) && has_entry(
                old(self).loader.plugin_registry.plugins@,
                plugin_id@,
            ) ==> exists|j: int|
                {
                    &&& 0 <= j < old(self).loader.plugin_registry.plugins@.len()
                    &&& old(self).loader.plugin_registry.plugins@[j].id@ == plugin_id@
                    &&& final(self).loader.plugin_registry.plugins@
                        == old(self).loader.plugin_registry.plugins@.update(
                        j,
                        (PluginEntry {
                            status: PluginStatus::Available,
                            ..old(self).loader.plugin_registry.plugins@[j]
                        }),
                    )
                },
    {
        match self.loader.unload_plugin(plugin_id) {
            Ok(()) => Ok(()),
            Err(e) => Err(PluginError::Loader(e)),
        }
    }

    /// The derived health of every loaded plugin: degraded once failed
    /// calls outnumber successful ones, else healthy.
    pub fn health_check_all(&self, now: u64) -> (r: Vec<(String, PluginHealth)>)
        ensures
            r@.len() == self.loader.loaded_plugins@.len(),
            forall|k: int|
                0 <= k < r@.len() ==> {
                    &&& (#[trigger] r@[k]).0@ == self.loader.loaded_plugins@[k].metadata.id@
                    &&& r@[k].1.status == health_status_of(self.sandbox.execution_stats)
                    &&& r@[k].1.last_check == now
                    &&& r@[k].1.execution_count
                        == self.sandbox.execution_stats.total_executions
                    &&& r@[k].1.error_count == self.sandbox.execution_stats.failed_executions
                    &&& r@[k].1.average_execution_time
                        == self.sandbox.execution_stats.average_execution_time
                },
    {
        let stats = self.sandbox.get_stats();
        let total = stats.total_executions;
        let successful = stats.successful_executions;
        let failed = stats.failed_executions;
        let avg = stats.average_execution_time;
        let status_is_unhealthy = successful == 0;
        let status_is_degraded = failed > successful;
        let ghost gstats = self.sandbox.execution_stats;
        let loaded = self.loader.get_loaded_plugins();
        let n = loaded.len();
        let mut out: Vec<(String, PluginHealth)> = Vec::new();
        let mut i: usize = 0;
        while i < n
            invariant
                n == loaded@.len(),
                loaded@ == self.loader.loaded_plugins@,
                gstats == self.sandbox.execution_stats,
                total == gstats.total_executions,
                successful == gstats.successful_executions,
                failed == gstats.failed_executions,
                avg == gstats.average_execution_time,
                status_is_unhealthy == (health_status_of(gstats) matches HealthStatus::Unhealthy),
                status_is_degraded == (failed > successful),
                i <= n,
                out@.len() == i,
                forall|k: int|
                    0 <= k < i ==> {
                        &&& (#[trigger] out@[k]).0@ == loaded@[k].metadata.id@
                        &&& out@[k].1.status == health_status_of(gstats)
                        &&& out@[k].1.last_check == now
                        &&& out@[k].1.execution_count == gstats.total_executions
                        &&& out@[k].1.error_count == gstats.failed_executions
                        &&& out@[k].1.average_execution_time == gstats.average_execution_time
                    },
            decreases n - i,
        {
            let status = if status_is_unhealthy {
                HealthStatus::Unhealthy
            } else if status_is_degraded {
                HealthStatus::Degraded
            } else {
                HealthStatus::Healthy
            };
            let health = PluginHealth {
                status,
                message: None,
                last_check: now,
                execution_count: total,
                error_count: failed,
                average_execution_time: avg,
            };
            out.push((loaded[i].metadata.id.clone(), health));
            i = i + 1;
        }
        out
    }

    /// Emergency stop: every running instance traps at its next
    /// check-point.
    pub fn interrupt_all(&self) {
        self.loader.runtime.interrupt_all();
    }
}

} // verus!
