//! WebAssembly runtime with instance pooling and resource management.
//!
//! Compilation, instantiation and execution are delegated to wasmtime behind
//! trusted wrappers; the pool bookkeeping around them — capacity, reuse,
//! eviction, interruption — is verified. Each checked-out instance is owned
//! exclusively by one handle until it is returned or discarded.

use vstd::prelude::*;
use crate::ResourceLimits;
use crate::strutil::str_eq;

verus! {

/// Declares `wasmtime::Engine` (opaque) for use in fields and signatures.
#[verifier::external_type_specification]
#[verifier::external_body]
pub struct ExEngine(wasmtime::Engine);

/// Declares `wasmtime::Module` (opaque) for use in fields and signatures.
#[verifier::external_type_specification]
#[verifier::external_body]
pub struct ExModule(wasmtime::Module);

/// Declares `wasmtime::Instance` (opaque) for use in fields and signatures.
#[verifier::external_type_specification]
#[verifier::external_body]
pub struct ExInstance(wasmtime::Instance);

/// Declares `wasmtime::Store` (opaque) for use in fields and signatures.
#[verifier::external_type_specification]
#[verifier::external_body]
#[verifier::reject_recursive_types(T)]
pub struct ExStore<T: 'static>(wasmtime::Store<T>);

/// Errors of the runtime. Capacity and timeout are transient (the caller
/// may retry); the others are permanent for the given module.
#[derive(Debug, Clone, Copy, PartialEq, Eq, Structural)]
pub enum RuntimeError {
    /// The engine could not be constructed.
    EngineFailed,
    /// The module failed to compile.
    CompileFailed,
    /// The module failed to instantiate or configure.
    InstantiateFailed,
    /// The cap on simultaneously active instances was reached.
    CapacityExceeded,
    /// The call ran past its deadline and was interrupted.
    Timeout,
    /// The named export does not exist or has the wrong type.
    FunctionNotFound,
    /// The call consumed its whole fuel budget.
    FuelExhausted,
    /// The call trapped.
    ExecutionFailed,
}

/// Runtime configuration.
#[derive(Debug, Clone)]
pub struct RuntimeConfig {
    /// Track a deterministic fuel budget per execution.
    pub consume_fuel: bool,
    /// Enable epoch-based cooperative interruption.
    pub epoch_interruption: bool,
    /// Cap on simultaneously active (checked-out) instances.
    pub max_instances: usize,
    /// Linear-memory reservation size in bytes.
    pub memory_pool_size: usize,
}

impl Default for RuntimeConfig {
    fn default() -> (r: Self)
        ensures
            r == (RuntimeConfig {
                consume_fuel: true,
                epoch_interruption: true,
                max_instances: 100,
                memory_pool_size: ((512 * 1024 * 1024) as usize),
            }),
    {
        RuntimeConfig {
            consume_fuel: true,
            epoch_interruption: true,
            max_instances: 100,
            memory_pool_size: 512 * 1024 * 1024,
        }
    }
}

/// What the pool records of an instance, over mathematical values.
pub struct PoolEntryView {
    pub module_id: Seq<char>,
    pub instance_seq: u64,
    pub last_used: u64,
    pub usage_count: u64,
}

/// A warmed execution context bound to one module id. While idle it is owned
/// by the pool; while executing, by exactly one handle.
pub struct PooledInstance {
    store: wasmtime::Store<()>,
    instance: wasmtime::Instance,
    pub module_id: String,
    /// Identity of this instance, unique within its runtime.
    pub instance_seq: u64,
    /// When the instance was last checked out, in caller milliseconds.
    pub last_used: u64,
    /// How many times the instance has been checked out.
    pub usage_count: u64,
}

impl View for PooledInstance {
    type V = PoolEntryView;

    closed spec fn view(&self) -> PoolEntryView {
        PoolEntryView {
            module_id: self.module_id@,
            instance_seq: self.instance_seq,
            last_used: self.last_used,
            usage_count: self.usage_count,
        }
    }
}

/// Time elapsed since `then`, zero if the caller's clock stepped back.
pub open spec fn age_of(now: u64, then: u64) -> u64 {
    if now >= then {
        (now - then) as u64
    } else {
        0
    }
}

/// An instance returned to the pool is kept only below the reuse ceiling
/// and the maximum age.
pub open spec fn keep_on_return(v: PoolEntryView, now: u64) -> bool {
    v.usage_count < 1000 && age_of(now, v.last_used) < 3_600_000
}

/// An idle pooled instance survives a sweep only below the staleness window.
pub open spec fn idle_fresh(v: PoolEntryView, now: u64) -> bool {
    age_of(now, v.last_used) < 1_800_000
}

/// Whether some pool entry is bound to `module_id`.
pub open spec fn has_module(pool: Seq<PoolEntryView>, module_id: Seq<char>) -> bool {
    exists|i: int| 0 <= i < pool.len() && pool[i].module_id == module_id
}

/// Whether some pool entry carries the identity `seq`.
pub open spec fn has_seq(pool: Seq<PoolEntryView>, seq: u64) -> bool {
    exists|i: int| 0 <= i < pool.len() && pool[i].instance_seq == seq
}

/// The outcome wasmtime reports for one function call.
#[derive(Debug, Clone, Copy, PartialEq, Eq, Structural)]
pub enum CallOutcome {
    /// The function returned this value.
    Returned(i32),
    /// No export of that name and type exists.
    NoSuchFunction,
    /// The instance trapped at a check-point after an epoch interruption.
    EpochInterrupt,
    /// The instance consumed its whole fuel budget.
    FuelExhausted,
    /// The instance trapped for another reason.
    Trapped,
}

/// The typed result a call outcome maps to: epoch interruption is a
/// timeout, fuel exhaustion and other traps are their own errors.
pub open spec fn outcome_result(o: CallOutcome) -> Result<i32, RuntimeError> {
    match o {
        CallOutcome::Returned(v) => Ok(v),
        CallOutcome::NoSuchFunction => Err(RuntimeError::FunctionNotFound),
        CallOutcome::EpochInterrupt => Err(RuntimeError::Timeout),
        CallOutcome::FuelExhausted => Err(RuntimeError::FuelExhausted),
        CallOutcome::Trapped => Err(RuntimeError::ExecutionFailed),
    }
}

/// The executable counterpart of [`outcome_result`]: the single place
/// where a raw call outcome is turned into the runtime's error taxonomy.
pub fn interpret_outcome(o: CallOutcome) -> (r: Result<i32, RuntimeError>)
    ensures
        r == outcome_result(o),
{
    match o {
        CallOutcome::Returned(v) => Ok(v),
        CallOutcome::NoSuchFunction => Err(RuntimeError::FunctionNotFound),
        CallOutcome::EpochInterrupt => Err(RuntimeError::Timeout),
        CallOutcome::FuelExhausted => Err(RuntimeError::FuelExhausted),
        CallOutcome::Trapped => Err(RuntimeError::ExecutionFailed),
    }
}

/// A wasmtime engine paired with the two flags it was built with. The
/// fields are private and every value comes from [`build_engine`], so the
/// pairing holds by construction and the flag-keyed verdicts below are
/// meaningful for every value of this type.
pub struct SandboxEngine {
    engine: wasmtime::Engine,
    consume_fuel: bool,
    epoch_interruption: bool,
}

impl SandboxEngine {
    /// Whether this engine meters fuel.
    pub closed spec fn fuel_metered(self) -> bool {
        self.consume_fuel
    }

    /// Whether this engine arms epoch interruption.
    pub closed spec fn epoch_interrupted(self) -> bool {
        self.epoch_interruption
    }
}

/// Whether `wasmtime::Engine::new` accepts the engine configuration built
/// from these two flags (all other settings are fixed by [`build_engine`]).
/// The verdict depends on the flags alone.
pub uninterp spec fn engine_builds(consume_fuel: bool, epoch_interruption: bool) -> bool;

/// Whether `wasmtime::Module::from_binary` accepts `bytes` on an engine
/// built from the two flags. The verdict depends on the arguments alone.
pub uninterp spec fn compilable(
    consume_fuel: bool,
    epoch_interruption: bool,
    bytes: Seq<u8>,
) -> bool;

/// Relies on `wasmtime::Config` and `wasmtime::Engine::new`: builds an
/// engine with multi-memory, threads, reference types, garbage collection,
/// SIMD and bulk memory disabled (and the features depending on them), and
/// fuel metering and epoch interruption as requested. Whether that
/// configuration is accepted depends on the two flags alone.
#[verifier::external_body]
fn build_engine(consume_fuel: bool, epoch_interruption: bool) -> (r: Option<SandboxEngine>)
    ensures
        r is Some <==> engine_builds(consume_fuel, epoch_interruption),
        r matches Some(e) ==> (e.fuel_metered() == consume_fuel && e.epoch_interrupted()
            == epoch_interruption),
{
    let mut config = wasmtime::Config::new();
    config.consume_fuel(consume_fuel);
    config.epoch_interruption(epoch_interruption);
    config.wasm_multi_memory(false);
    config.wasm_threads(false);
    config.wasm_gc(false);
    config.wasm_function_references(false);
    config.wasm_reference_types(false);
    config.wasm_relaxed_simd(false);
    config.wasm_simd(false);
    config.wasm_bulk_memory(false);
    config.wasm_component_model(false);
    let engine = wasmtime::Engine::new(&config).ok()?;
    Some(SandboxEngine { engine, consume_fuel, epoch_interruption })
}

/// Relies on `wasmtime::Module::from_binary`: compiles a binary module;
/// its verdict is a function of the engine's two flags and the bytes.
#[verifier::external_body]
fn compile_module(eng: &SandboxEngine, bytes: &[u8]) -> (r: Option<wasmtime::Module>)
    ensures
        r is Some <==> compilable(eng.fuel_metered(), eng.epoch_interrupted(), bytes@),
{
    wasmtime::Module::from_binary(&eng.engine, bytes).ok()
}

/// What building a fresh instance came to.
pub enum BuildOutcome {
    /// Store and instance, ready to call.
    Ready(wasmtime::Store<()>, wasmtime::Instance),
    /// The bytes did not compile.
    NoCompile,
    /// The module compiled but did not instantiate.
    NoInstantiate,
}

/// Relies on `wasmtime::Module::from_binary`, `wasmtime::Store::new`,
/// `wasmtime::Store::set_fuel`, `wasmtime::Store::set_epoch_deadline` and
/// `wasmtime::Linker::instantiate`: builds a fresh instance with an empty
/// linker (no ambient imports), with its fuel budget and epoch deadline
/// set before instantiation so a start function already runs under them.
/// Only the compile verdict is a function of the arguments; instantiation
/// runs the module's start function, which a concurrent epoch advance (or
/// its fuel budget) can interrupt, so whether it comes `Ready` is not.
#[verifier::external_body]
fn build_instance(eng: &SandboxEngine, bytes: &[u8], fuel: u64) -> (r: BuildOutcome)
    ensures
        r is NoCompile <==> !compilable(eng.fuel_metered(), eng.epoch_interrupted(), bytes@),
        r is Ready ==> compilable(eng.fuel_metered(), eng.epoch_interrupted(), bytes@),
{
    let module = match wasmtime::Module::from_binary(&eng.engine, bytes) {
        Ok(m) => m,
        Err(_) => return BuildOutcome::NoCompile,
    };
    let mut store = wasmtime::Store::new(&eng.engine, ());
    if eng.consume_fuel {
        let _ = store.set_fuel(fuel);
    }
    store.set_epoch_deadline(1);
    let linker: wasmtime::Linker<()> = wasmtime::Linker::new(&eng.engine);
    match linker.instantiate(&mut store, &module) {
        Ok(instance) => BuildOutcome::Ready(store, instance),
        Err(_) => BuildOutcome::NoInstantiate,
    }
}

/// Relies on `wasmtime::Store::set_fuel`: refills the store's fuel budget;
/// `false` when fuel metering is not enabled on the engine.
#[verifier::external_body]
fn refuel_store(store: &mut wasmtime::Store<()>, fuel: u64) -> (r: bool) {
    store.set_fuel(fuel).is_ok()
}

/// Relies on `wasmtime::Store::set_epoch_deadline`: arms the store to trap
/// at its next check-point once the engine epoch advances `ticks` beyond
/// the current epoch.
#[verifier::external_body]
fn arm_epoch_deadline(store: &mut wasmtime::Store<()>, ticks: u64) {
    store.set_epoch_deadline(ticks);
}

/// Relies on `wasmtime::Engine::increment_epoch`: advances the engine
/// epoch (one atomic add, safe from any thread), so every armed instance
/// traps at its next check-point.
#[verifier::external_body]
fn bump_engine_epoch(eng: &SandboxEngine) {
    eng.engine.increment_epoch();
}

/// Relies on `wasmtime::Engine::clone`: the clone shares the same engine,
/// so an epoch advance through it reaches every instance of the runtime.
#[verifier::external_body]
fn share_engine(eng: &SandboxEngine) -> (r: SandboxEngine)
    ensures
        r.fuel_metered() == eng.fuel_metered(),
        r.epoch_interrupted() == eng.epoch_interrupted(),
{
    SandboxEngine {
        engine: eng.engine.clone(),
        consume_fuel: eng.consume_fuel,
        epoch_interruption: eng.epoch_interruption,
    }
}

/// A handle a host may move to another thread to interrupt the runtime's
/// instances while a call is in flight (the wall-clock half of a timeout).
pub struct InterruptHandle {
    engine: SandboxEngine,
}

impl InterruptHandle {
    /// Advances the engine epoch: every armed instance traps at its next
    /// check-point.
    pub fn interrupt(&self) {
        bump_engine_epoch(&self.engine);
    }
}

/// Relies on `wasmtime::Instance::get_typed_func` and
/// `wasmtime::TypedFunc::call` for a `() -> i32` export, and on
/// `wasmtime::Trap` to tell an epoch interruption and fuel exhaustion from
/// other traps. The store and instance come from one [`build_instance`]
/// call (the fields of [`PooledInstance`] are private, so the pairing
/// holds by construction and the documented owner panics are unreachable).
#[verifier::external_body]
fn call_i32(
    store: &mut wasmtime::Store<()>,
    instance: &wasmtime::Instance,
    name: &str,
) -> (r: CallOutcome) {
    let func = match instance.get_typed_func::<(), i32>(&mut *store, name) {
        Ok(f) => f,
        Err(_) => return CallOutcome::NoSuchFunction,
    };
    match func.call(&mut *store, ()) {
        Ok(v) => CallOutcome::Returned(v),
        Err(e) => match e.downcast_ref::<wasmtime::Trap>() {
            Some(wasmtime::Trap::Interrupt) => CallOutcome::EpochInterrupt,
            Some(wasmtime::Trap::OutOfFuel) => CallOutcome::FuelExhausted,
            _ => CallOutcome::Trapped,
        },
    }
}

/// Handle to a checked-out instance: owned exclusively until returned to
/// (or discarded from) the runtime that produced it.
pub struct InstanceHandle {
    pub inner: PooledInstance,
    /// Whether the instance was reused from the pool.
    pub from_pool: bool,
    /// When the instance was checked out, in caller milliseconds.
    pub start_time: u64,
}

impl InstanceHandle {
    /// Calls the exported function `name` (of type `() -> i32`) on this
    /// instance. The instance's identity is unchanged; the raw outcome is
    /// mapped exactly as [`outcome_result`] says. Interruption is
    /// cooperative: with fuel metering off and no epoch advance from the
    /// host, a non-returning export never returns.
    pub fn call_function(&mut self, name: &str) -> (r: Result<i32, RuntimeError>)
        ensures
            final(self).inner@ == old(self).inner@,
            final(self).from_pool == old(self).from_pool,
            final(self).start_time == old(self).start_time,
            (exists|o: CallOutcome| r == outcome_result(o)),
    {
        let outcome = call_i32(&mut self.inner.store, &self.inner.instance, name);
        let r = interpret_outcome(outcome);
        proof {
            assert(r == outcome_result(outcome));
        }
        r
    }

    /// The time spent since checkout, given the caller's clock.
    pub fn execution_time(&self, now: u64) -> (r: u64)
        ensures
            r == age_of(now, self.start_time),
    {
        if now >= self.start_time {
            now - self.start_time
        } else {
            0
        }
    }
}

/// Runtime statistics.
#[derive(Debug, Clone, Copy, PartialEq, Eq, Structural)]
pub struct RuntimeStats {
    pub active_instances: usize,
    pub pooled_instances: usize,
    pub total_capacity: usize,
    pub memory_pool_size: usize,
}

/// The runtime: one engine, a pool of idle instances keyed by module id,
/// and a count of active (checked-out) instances.
pub struct WasmRuntime {
    pub engine: SandboxEngine,
    pub config: RuntimeConfig,
    pub instance_pool: Vec<PooledInstance>,
    pub active_instances: usize,
    /// The identity the next fresh instance will receive.
    pub next_instance_seq: u64,
}

impl WasmRuntime {
    /// The pool's entries over mathematical values.
    pub open spec fn pool_view(self) -> Seq<PoolEntryView> {
        self.instance_pool@.map_values(|p: PooledInstance| p@)
    }

    /// Well-formedness: pool identities are distinct and below the next
    /// fresh identity.
    pub open spec fn wf(self) -> bool {
        &&& forall|i: int, j: int|
            0 <= i < j < self.pool_view().len() ==> self.pool_view()[i].instance_seq
                != self.pool_view()[j].instance_seq
        &&& forall|i: int|
            0 <= i < self.pool_view().len() ==> self.pool_view()[i].instance_seq
                < self.next_instance_seq
    }

    /// A new runtime over `config`, with an empty pool. The runtime is
    /// built exactly when the engine configuration is accepted.
    pub fn new(config: RuntimeConfig) -> (r: Result<WasmRuntime, RuntimeError>)
        ensures
            r is Ok <==> engine_builds(config.consume_fuel, config.epoch_interruption),
            r matches Err(e) ==> e matches RuntimeError::EngineFailed,
            r matches Ok(rt) ==> {
                &&& rt.config == config
                &&& rt.engine.fuel_metered() == config.consume_fuel
                &&& rt.engine.epoch_interrupted() == config.epoch_interruption
                &&& rt.pool_view().len() == 0
                &&& rt.active_instances == 0
                &&& rt.next_instance_seq == 0
                &&& rt.wf()
            },
    {
        match build_engine(config.consume_fuel, config.epoch_interruption) {
            Some(engine) => Ok(
                WasmRuntime {
                    engine,
                    config,
                    instance_pool: Vec::new(),
                    active_instances: 0,
                    next_instance_seq: 0,
                },
            ),
            None => Err(RuntimeError::EngineFailed),
        }
    }

    /// Checks an instance for `module_id` out of the runtime: a pooled
    /// instance of that module is reused when one exists (its usage count
    /// grows and it leaves the pool — no instance is ever shared); else a
    /// fresh instance is compiled and instantiated, unless the cap on
    /// active instances would be passed. Compilation fails exactly when
    /// the bytes do not compile; instantiation runs the start function and
    /// can also fail under a concurrent interrupt or its fuel budget.
    pub fn get_instance(
        &mut self,
        module_id: &str,
        wasm_bytes: &[u8],
        limits: &ResourceLimits,
        now: u64,
    ) -> (r: Result<InstanceHandle, RuntimeError>)
        requires
            old(self).wf(),
    ensures
            final(self).wf(),
            final(self).config == old(self).config,
            final(self).engine == old(self).engine,
            r is Err ==> {
                &&& final(self).pool_view() == old(self).pool_view()
                &&& final(self).active_instances == old(self).active_instances
                &&& final(self).next_instance_seq == old(self).next_instance_seq
            },
            r matches Err(RuntimeError::CapacityExceeded) <==> (old(self).active_instances >= old(
                self,
            ).config.max_instances || (!has_module(old(self).pool_view(), module_id@) && old(
                self,
            ).next_instance_seq == u64::MAX)),
            old(self).active_instances < old(self).config.max_instances && has_module(
                old(self).pool_view(),
                module_id@,
            ) ==> r is Ok,
            old(self).active_instances < old(self).config.max_instances && !has_module(
                old(self).pool_view(),
                module_id@,
            ) && old(self).next_instance_seq < u64::MAX ==> {
                &&& (r matches Err(RuntimeError::CompileFailed) <==> !compilable(
                    old(self).engine.fuel_metered(),
                    old(self).engine.epoch_interrupted(),
                    wasm_bytes@,
                ))
                &&& (r is Ok ==> compilable(
                    old(self).engine.fuel_metered(),
                    old(self).engine.epoch_interrupted(),
                    wasm_bytes@,
                ))
                &&& (r is Err ==> (r matches Err(RuntimeError::CompileFailed) || r matches Err(
                    RuntimeError::InstantiateFailed,
                )))
            },
            r matches Ok(h) ==> {
                &&& final(self).active_instances == old(self).active_instances + 1
                &&& h.inner@.module_id == module_id@
                &&& h.inner@.last_used == now
                &&& h.start_time == now
                &&& h.from_pool == has_module(old(self).pool_view(), module_id@)
                &&& !has_seq(final(self).pool_view(), h.inner@.instance_seq)
                &&& h.inner@.instance_seq < final(self).next_instance_seq
            },
            r matches Ok(h) ==> has_module(old(self).pool_view(), module_id@) ==> {
                &&& final(self).next_instance_seq == old(self).next_instance_seq
                &&& exists|j: int|
                    {
                        &&& 0 <= j < old(self).pool_view().len()
                        &&& old(self).pool_view()[j].module_id == module_id@
                        &&& forall|k: int|
                            0 <= k < j ==> old(self).pool_view()[k].module_id != module_id@
                        &&& h.inner@.instance_seq == old(self).pool_view()[j].instance_seq
                        &&& h.inner@.usage_count == (if old(self).pool_view()[j].usage_count
                            < u64::MAX {
                            old(self).pool_view()[j].usage_count + 1
                        } else {
                            old(self).pool_view()[j].usage_count as int
                        })
                        &&& final(self).pool_view() == old(self).pool_view().remove(j)
                    }
            },
            r matches Ok(h) ==> !has_module(old(self).pool_view(), module_id@) ==> {
                &&& final(self).pool_view() == old(self).pool_view()
                &&& h.inner@.instance_seq == old(self).next_instance_seq
                &&& h.inner@.usage_count == 1
                &&& final(self).next_instance_seq == old(self).next_instance_seq + 1
            },
    {
        if self.active_instances >= self.config.max_instances {
            return Err(RuntimeError::CapacityExceeded);
        }
        match self.try_take_pooled(module_id) {
            Some(mut inst) => {
                inst.usage_count = if inst.usage_count < u64::MAX {
                    inst.usage_count + 1
                } else {
                    inst.usage_count
                };
                inst.last_used = now;
                if self.config.consume_fuel {
                    let _ = refuel_store(&mut inst.store, limits.max_fuel);
                }
                arm_epoch_deadline(&mut inst.store, 1);
                self.active_instances = self.active_instances + 1;
                Ok(InstanceHandle { inner: inst, from_pool: true, start_time: now })
            },
            None => {
                if self.next_instance_seq == u64::MAX {
                    return Err(RuntimeError::CapacityExceeded);
                }
                let (store, instance) = match build_instance(
                    &self.engine,
                    wasm_bytes,
                    limits.max_fuel,
                ) {
                    BuildOutcome::Ready(store, instance) => (store, instance),
                    BuildOutcome::NoCompile => {
                        return Err(RuntimeError::CompileFailed);
                    },
                    BuildOutcome::NoInstantiate => {
                        return Err(RuntimeError::InstantiateFailed);
                    },
                };
                let seq = self.next_instance_seq;
                self.next_instance_seq = seq + 1;
                self.active_instances = self.active_instances + 1;
                let inst = PooledInstance {
                    store,
                    instance,
                    module_id: crate::strutil::copy_str(module_id),
                    instance_seq: seq,
                    last_used: now,
                    usage_count: 1,
                };
                Ok(InstanceHandle { inner: inst, from_pool: false, start_time: now })
            },
        }
    }

    /// Removes and returns the first pooled instance bound to `module_id`.
    fn try_take_pooled(&mut self, module_id: &str) -> (r: Option<PooledInstance>)
        ensures
            final(self).engine == old(self).engine,
            final(self).config == old(self).config,
            final(self).active_instances == old(self).active_instances,
            final(self).next_instance_seq == old(self).next_instance_seq,
            r is Some <==> has_module(old(self).pool_view(), module_id@),
            r is None ==> final(self).pool_view() == old(self).pool_view(),
            r matches Some(inst) ==> exists|j: int|
                {
                    &&& 0 <= j < old(self).pool_view().len()
                    &&& old(self).pool_view()[j].module_id == module_id@
                    &&& forall|k: int|
                        0 <= k < j ==> old(self).pool_view()[k].module_id != module_id@
                    &&& inst@ == old(self).pool_view()[j]
                    &&& final(self).pool_view() == old(self).pool_view().remove(j)
                },
    {
        let ghost pv = self.pool_view();
        let mut i: usize = 0;
        while i < self.instance_pool.len()
            invariant
                pv == self.pool_view(),
                *self == *old(self),
                i <= pv.len(),
                forall|k: int| 0 <= k < i ==> pv[k].module_id != module_id@,
            decreases pv.len() - i,
        {
            if str_eq(self.instance_pool[i].module_id.as_str(), module_id) {
                proof {
                    assert(pv[i as int].module_id == module_id@);
                }
                let inst = self.instance_pool.remove(i);
                proof {
                    assert(final(self).pool_view() =~= pv.remove(i as int));
                }
                return Some(inst);
            }
            i = i + 1;
        }
        None
    }

    /// Returns a checked-out instance. It is pooled again only below the
    /// reuse ceiling and maximum age; when the pool then exceeds half the
    /// instance cap, entries idle past the staleness window are swept out.
    /// The active count falls by one either way.
    pub fn return_instance(&mut self, instance: PooledInstance, now: u64)
        requires
            old(self).wf(),
            instance@.instance_seq < old(self).next_instance_seq,
            !has_seq(old(self).pool_view(), instance@.instance_seq),
        ensures
            final(self).wf(),
            final(self).engine == old(self).engine,
            final(self).config == old(self).config,
            final(self).next_instance_seq == old(self).next_instance_seq,
            final(self).active_instances == (if old(self).active_instances > 0 {
                old(self).active_instances - 1
            } else {
                0
            }),
            final(self).pool_view() == (if !keep_on_return(instance@, now) {
                old(self).pool_view()
            } else if old(self).pool_view().len() + 1 > old(self).config.max_instances / 2 {
                old(self).pool_view().push(instance@).filter(|v: PoolEntryView| idle_fresh(v, now))
            } else {
                old(self).pool_view().push(instance@)
            }),
    {
        let keep = instance.usage_count < 1000 && {
            let a = if now >= instance.last_used {
                now - instance.last_used
            } else {
                0
            };
            a < 3_600_000
        };
        if keep {
            let ghost pushed = self.pool_view().push(instance@);
            proof {
                assert(forall|k: int|
                    0 <= k < old(self).pool_view().len() ==> old(self).pool_view()[
                        k
                    ].instance_seq != instance@.instance_seq);
            }
            self.instance_pool.push(instance);
            proof {
                assert(self.pool_view() =~= pushed);
            }
            if self.instance_pool.len() > self.config.max_instances / 2 {
                let ghost before = self.pool_view();
                self.sweep_idle(now);
                proof {
                    lemma_filter_wf(
                        before,
                        |v: PoolEntryView| idle_fresh(v, now),
                        self.next_instance_seq,
                    );
                }
            }
        }
        self.active_instances = if self.active_instances > 0 {
            self.active_instances - 1
        } else {
            0
        };
    }

    /// Discards a checked-out instance: the pool is unchanged and the
    /// active count falls by one. Used after a timeout or a failed call,
    /// whose instance must never be reused.
    pub fn discard_instance(&mut self, instance: InstanceHandle)
        ensures
            final(self).engine == old(self).engine,
            final(self).config == old(self).config,
            final(self).next_instance_seq == old(self).next_instance_seq,
            final(self).pool_view() == old(self).pool_view(),
            final(self).active_instances == (if old(self).active_instances > 0 {
                old(self).active_instances - 1
            } else {
                0
            }),
            old(self).wf() ==> final(self).wf(),
    {
        let _ = instance;
        self.active_instances = if self.active_instances > 0 {
            self.active_instances - 1
        } else {
            0
        };
        proof {
            assert(self.pool_view() =~= old(self).pool_view());
        }
    }

    /// Sweeps out pool entries idle past the staleness window.
    fn sweep_idle(&mut self, now: u64)
        ensures
            final(self).engine == old(self).engine,
            final(self).config == old(self).config,
            final(self).active_instances == old(self).active_instances,
            final(self).next_instance_seq == old(self).next_instance_seq,
            final(self).pool_view() == old(self).pool_view().filter(
                |v: PoolEntryView| idle_fresh(v, now),
            ),
    {
        let ghost orig = self.pool_view();
        let ghost pred = |v: PoolEntryView| idle_fresh(v, now);
        let mut kept: Vec<PooledInstance> = Vec::new();
        let n = self.instance_pool.len();
        let mut i: usize = 0;
        proof {
            reveal(Seq::filter);
            assert(orig.take(0).filter(pred) =~= Seq::<PoolEntryView>::empty());
            assert(orig.skip(0) =~= orig);
        }
        while i < n
            invariant
                orig == old(self).pool_view(),
                pred == (|v: PoolEntryView| idle_fresh(v, now)),
                self.engine == old(self).engine,
                self.config == old(self).config,
                self.active_instances == old(self).active_instances,
                self.next_instance_seq == old(self).next_instance_seq,
                n == orig.len(),
                i <= n,
                self.pool_view() == orig.skip(i as int),
                kept@.map_values(|p: PooledInstance| p@) == orig.take(i as int).filter(pred),
            decreases n - i,
        {
            proof {
                reveal(Seq::filter);
                assert(orig.skip(i as int)[0] == orig[i as int]);
                assert(orig.skip(i as int).remove(0) =~= orig.skip(i + 1));
                assert(orig.take(i + 1).drop_last() =~= orig.take(i as int));
                assert(orig.take(i + 1).last() == orig[i as int]);
            }
            let entry = self.instance_pool.remove(0);
            proof {
                assert(self.pool_view() =~= orig.skip(i as int).remove(0));
            }
            let fresh_entry = {
                let a = if now >= entry.last_used {
                    now - entry.last_used
                } else {
                    0
                };
                a < 1_800_000
            };
            if fresh_entry {
                let ghost kv = kept@.map_values(|p: PooledInstance| p@);
                kept.push(entry);
                proof {
                    assert(kept@.map_values(|p: PooledInstance| p@) =~= kv.push(orig[i as int]));
                }
            }
            i = i + 1;
        }
        proof {
            assert(orig.take(n as int) =~= orig);
        }
        self.instance_pool = kept;
        proof {
            assert(self.pool_view() =~= kept@.map_values(|p: PooledInstance| p@));
        }
    }

    /// Whether `wasm_bytes` compiles against this runtime's engine.
    pub fn compile_check(&self, wasm_bytes: &[u8]) -> (r: bool)
        ensures
            r == compilable(
                self.engine.fuel_metered(),
                self.engine.epoch_interrupted(),
                wasm_bytes@,
            ),
    {
        match compile_module(&self.engine, wasm_bytes) {
            Some(_) => true,
            None => false,
        }
    }

    /// A handle the host may move to another thread to interrupt running
    /// instances after a wall-clock deadline.
    pub fn interrupt_handle(&self) -> (r: InterruptHandle) {
        InterruptHandle { engine: share_engine(&self.engine) }
    }

    /// Emergency stop: advances the engine epoch so that every instance
    /// armed with an epoch deadline traps at its next check-point,
    /// regardless of individual timeouts. Best-effort and cooperative: a
    /// computation between check-points stops only when it reaches one.
    pub fn interrupt_all(&self) {
        bump_engine_epoch(&self.engine);
    }

    /// A snapshot of the runtime counters.
    pub fn get_stats(&self) -> (r: RuntimeStats)
        ensures
            r == (RuntimeStats {
                active_instances: self.active_instances,
                pooled_instances: self.pool_view().len() as usize,
                total_capacity: self.config.max_instances,
                memory_pool_size: self.config.memory_pool_size,
            }),
    {
        RuntimeStats {
            active_instances: self.active_instances,
            pooled_instances: self.instance_pool.len(),
            total_capacity: self.config.max_instances,
            memory_pool_size: self.config.memory_pool_size,
        }
    }

    /// Sweeps out pool entries idle past the staleness window.
    pub fn cleanup_pool(&mut self, now: u64)
        requires
            old(self).wf(),
        ensures
            final(self).wf(),
            final(self).engine == old(self).engine,
            final(self).config == old(self).config,
            final(self).active_instances == old(self).active_instances,
            final(self).next_instance_seq == old(self).next_instance_seq,
            final(self).pool_view() == old(self).pool_view().filter(
                |v: PoolEntryView| idle_fresh(v, now),
            ),
    {
        self.sweep_idle(now);
        proof {
            lemma_filter_wf(
                old(self).pool_view(),
                |v: PoolEntryView| idle_fresh(v, now),
                old(self).next_instance_seq,
            );
        }
    }
}

/// Every element of a filtered sequence is an element of the original.
proof fn lemma_filter_elements(s: Seq<PoolEntryView>, pred: spec_fn(PoolEntryView) -> bool)
    ensures
        forall|k: int|
            0 <= k < s.filter(pred).len() ==> #[trigger] s.contains(s.filter(pred)[k]),
    decreases s.len(),
{
    reveal(Seq::filter);
    if s.len() > 0 {
        let d = s.drop_last();
        lemma_filter_elements(d, pred);
        assert forall|k: int|
            0 <= k < s.filter(pred).len() implies #[trigger] s.contains(s.filter(pred)[k]) by {
            if k < d.filter(pred).len() {
                assert(d.contains(d.filter(pred)[k]));
                let m = choose|m: int| 0 <= m < d.len() && d[m] == d.filter(pred)[k];
                assert(s[m] == s.filter(pred)[k]);
            } else {
                assert(s.filter(pred)[k] == s.last());
                assert(s[s.len() - 1] == s.last());
            }
        }
    }
}

/// Filtering keeps pool identities distinct and below the bound.
proof fn lemma_filter_wf(s: Seq<PoolEntryView>, pred: spec_fn(PoolEntryView) -> bool, bound: u64)
    requires
        forall|i: int, j: int|
            0 <= i < j < s.len() ==> s[i].instance_seq != s[j].instance_seq,
        forall|i: int| 0 <= i < s.len() ==> s[i].instance_seq < bound,
    ensures
        forall|i: int, j: int|
            0 <= i < j < s.filter(pred).len() ==> s.filter(pred)[i].instance_seq != s.filter(
                pred,
            )[j].instance_seq,
        forall|i: int| 0 <= i < s.filter(pred).len() ==> s.filter(pred)[i].instance_seq < bound,
    decreases s.len(),
{
    reveal(Seq::filter);
    if s.len() > 0 {
        let d = s.drop_last();
        lemma_filter_wf(d, pred, bound);
        lemma_filter_elements(d, pred);
        let f = s.filter(pred);
        let fd = d.filter(pred);
        assert forall|i: int, j: int|
            0 <= i < j < f.len() implies f[i].instance_seq != f[j].instance_seq by {
            if j < fd.len() {
                assert(f[i] == fd[i] && f[j] == fd[j]);
            } else {
                assert(f[j] == s.last());
                assert(f[i] == fd[i]);
                assert(d.contains(fd[i]));
                let m = choose|m: int| 0 <= m < d.len() && d[m] == fd[i];
                assert(s[m].instance_seq != s[s.len() - 1].instance_seq);
            }
        }
        assert forall|i: int| 0 <= i < f.len() implies f[i].instance_seq < bound by {
            if i < fd.len() {
                assert(f[i] == fd[i]);
            } else {
                assert(f[i] == s.last());
                assert(s[s.len() - 1].instance_seq < bound);
            }
        }
    }
}

/// Single-writer instances: a checked-out handle's instance is absent from
/// the pool, so a second checkout — which takes either a pool entry or the
/// next fresh identity — never yields the same instance.
pub proof fn lemma_single_writer(
    pool: Seq<PoolEntryView>,
    next_seq: u64,
    held_seq: u64,
    other_seq: u64,
)
    requires
        !has_seq(pool, held_seq),
        held_seq < next_seq,
        has_seq(pool, other_seq) || other_seq == next_seq,
    ensures
        other_seq != held_seq,
{
}

} // verus!
