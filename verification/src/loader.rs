//! Plugin discovery, integrity checking and registry bookkeeping.
//!
//! The file system itself stays outside: discovery is handed the candidate
//! files as plain values (path, extension, size, modification time, bytes)
//! and never reads a disk. Loading re-checks the content checksum recorded
//! at discovery, so bytes altered in between are rejected.

use vstd::prelude::*;
use crate::checksum::{calculate_checksum, checksum_of};
use crate::runtime::{RuntimeConfig, RuntimeError, WasmRuntime};
use crate::strutil::{contains_string, copy_str, str_eq, string_vec_contains, views_of};
use crate::wasm::wasm_surface;
use crate::{ResourceLimits, WasmPluginMetadata};

verus! {

/// Plugin status in the registry.
#[derive(Debug, Clone, PartialEq)]
pub enum PluginStatus {
    Available,
    Loaded,
    Error(String),
    Disabled,
}

/// Errors of the loader. A checksum mismatch signals tampering or
/// corruption between discovery and load; it is permanent for those bytes.
#[derive(Debug, Clone)]
pub enum LoaderError {
    /// No registry entry of that id exists.
    NotFound,
    /// The bytes on disk no longer match the checksum recorded at
    /// discovery.
    ChecksumMismatch,
    /// A discovered candidate is not a structurally valid module; the
    /// payload is its path.
    InvalidModule(String),
    /// The runtime failed to warm an instance for the module.
    Runtime(RuntimeError),
}

/// Plugin discovery configuration.
#[derive(Debug, Clone)]
pub struct DiscoveryConfig {
    /// Search subdirectories.
    pub recursive: bool,
    /// File extensions accepted as plugin candidates.
    pub extensions: Vec<String>,
    /// Files above this size are skipped, not an error.
    pub max_file_size: u64,
    /// Verify plugin signatures.
    pub verify_signatures: bool,
    /// Reload plugins when their files change.
    pub auto_reload: bool,
}

impl Default for DiscoveryConfig {
    fn default() -> (r: Self)
        ensures
            r.recursive,
            views_of(r.extensions@) == seq!["wasm"@, "wat"@],
            r.max_file_size == ((100 * 1024 * 1024) as u64),
            !r.verify_signatures,
            !r.auto_reload,
    {
        let r = DiscoveryConfig {
            recursive: true,
            extensions: vec![copy_str("wasm"), copy_str("wat")],
            max_file_size: 100 * 1024 * 1024,
            verify_signatures: false,
            auto_reload: false,
        };
        proof {
            assert(views_of(r.extensions@) =~= seq!["wasm"@, "wat"@]);
        }
        r
    }
}

/// A candidate file handed to discovery: its path, extension, size,
/// modification time (caller milliseconds) and content.
#[derive(Debug, Clone)]
pub struct CandidateFile {
    pub path: String,
    pub extension: String,
    pub size: u64,
    pub modified: u64,
    pub bytes: Vec<u8>,
}

/// Entry in the plugin registry.
#[derive(Debug, Clone)]
pub struct PluginEntry {
    pub id: String,
    pub name: String,
    pub version: String,
    pub file_path: String,
    pub checksum: String,
    pub metadata: WasmPluginMetadata,
    pub status: PluginStatus,
    pub last_updated: u64,
}

/// A loaded plugin: the entry's metadata plus what the load recorded,
/// including the very bytes the checksum was verified against.
#[derive(Debug, Clone)]
pub struct LoadedPlugin {
    pub metadata: WasmPluginMetadata,
    pub file_path: String,
    pub checksum: String,
    pub loaded_at: u64,
    pub size: u64,
    pub limits: ResourceLimits,
    pub bytes: Vec<u8>,
}

/// Whether `plugins` holds an entry whose id is `id`.
pub open spec fn has_entry(plugins: Seq<PluginEntry>, id: Seq<char>) -> bool {
    exists|i: int| 0 <= i < plugins.len() && plugins[i].id@ == id
}

/// Whether `loaded` holds a plugin whose id is `id`.
pub open spec fn has_loaded(loaded: Seq<LoadedPlugin>, id: Seq<char>) -> bool {
    exists|i: int| 0 <= i < loaded.len() && loaded[i].metadata.id@ == id
}

/// Registry of known plugins, keyed by id.
#[derive(Debug, Clone)]
pub struct PluginRegistry {
    pub plugins: Vec<PluginEntry>,
}

impl PluginRegistry {
    /// An empty registry.
    pub fn new() -> (r: Self)
        ensures
            r.plugins@.len() == 0,
    {
        PluginRegistry { plugins: Vec::new() }
    }

    /// Adds `plugin`, replacing the first entry of the same id if one
    /// exists.
    pub fn add_plugin(&mut self, plugin: PluginEntry)
        ensures
            has_entry(old(self).plugins@, plugin.id@) ==> exists|j: int|
                {
                    &&& 0 <= j < old(self).plugins@.len()
                    &&& old(self).plugins@[j].id@ == plugin.id@
                    &&& forall|k: int| 0 <= k < j ==> old(self).plugins@[k].id@ != plugin.id@
                    &&& final(self).plugins@ == old(self).plugins@.update(j, plugin)
                },
            !has_entry(old(self).plugins@, plugin.id@) ==> final(self).plugins@ == old(self).plugins@.push(plugin),
    {
        let ghost pv = self.plugins@;
        let n = self.plugins.len();
        let mut i: usize = 0;
        while i < n
            invariant
                pv == old(self).plugins@,
                pv == self.plugins@,
                n == pv.len(),
                i <= n,
                forall|k: int| 0 <= k < i ==> pv[k].id@ != plugin.id@,
            decreases n - i,
        {
            if str_eq(self.plugins[i].id.as_str(), plugin.id.as_str()) {
                proof {
                    assert(pv[i as int].id@ == plugin.id@);
                }
                let ghost gp = plugin;
                let _ = self.plugins.remove(i);
                self.plugins.insert(i, plugin);
                proof {
                    assert(self.plugins@ =~= pv.update(i as int, gp));
                    assert(has_entry(pv, gp.id@)) by {
                        assert(pv[i as int].id@ == gp.id@);
                    }
                    assert(0 <= i < pv.len() && pv[i as int].id@ == gp.id@ && (forall|k: int|
                        0 <= k < i ==> pv[k].id@ != gp.id@) && self.plugins@ == pv.update(
                        i as int,
                        gp,
                    ));
                }
                return ;
            }
            i = i + 1;
        }
        proof {
            assert(!has_entry(pv, plugin.id@));
        }
        self.plugins.push(plugin);
    }

    /// The first entry of id `plugin_id`, if any.
    pub fn get_plugin(&self, plugin_id: &str) -> (r: Option<&PluginEntry>)
        ensures
            r is Some <==> has_entry(self.plugins@, plugin_id@),
            r matches Some(e) ==> exists|j: int|
                {
                    &&& 0 <= j < self.plugins@.len()
                    &&& self.plugins@[j].id@ == plugin_id@
                    &&& forall|k: int| 0 <= k < j ==> self.plugins@[k].id@ != plugin_id@
                    &&& *e == self.plugins@[j]
                },
    {
        let n = self.plugins.len();
        let mut i: usize = 0;
        while i < n
            invariant
                n == self.plugins@.len(),
                i <= n,
                forall|k: int| 0 <= k < i ==> self.plugins@[k].id@ != plugin_id@,
            decreases n - i,
        {
            if str_eq(self.plugins[i].id.as_str(), plugin_id) {
                proof {
                    assert(has_entry(self.plugins@, plugin_id@)) by {
                        assert(self.plugins@[i as int].id@ == plugin_id@);
                    }
                    assert(0 <= i < self.plugins@.len() && self.plugins@[i as int].id@
                        == plugin_id@ && (forall|k: int|
                        0 <= k < i ==> self.plugins@[k].id@ != plugin_id@));
                }
                return Some(&self.plugins[i]);
            }
            i = i + 1;
        }
        None
    }

    /// Sets the status of the first entry of id `plugin_id`; a missing id
    /// changes nothing.
    pub fn update_status(&mut self, plugin_id: &str, status: PluginStatus)
        ensures
            !has_entry(old(self).plugins@, plugin_id@) ==> final(self).plugins@ == old(self).plugins@,
            has_entry(old(self).plugins@, plugin_id@) ==> exists|j: int|
                {
                    &&& 0 <= j < old(self).plugins@.len()
                    &&& old(self).plugins@[j].id@ == plugin_id@
                    &&& forall|k: int| 0 <= k < j ==> old(self).plugins@[k].id@ != plugin_id@
                    &&& final(self).plugins@ == old(self).plugins@.update(
                        j,
                        PluginEntry { status, ..old(self).plugins@[j] },
                    )
                },
    {
        let ghost pv = self.plugins@;
        let n = self.plugins.len();
        let mut i: usize = 0;
        while i < n
            invariant
                pv == old(self).plugins@,
                pv == self.plugins@,
                n == pv.len(),
                i <= n,
                forall|k: int| 0 <= k < i ==> pv[k].id@ != plugin_id@,
            decreases n - i,
        {
            if str_eq(self.plugins[i].id.as_str(), plugin_id) {
                proof {
                    assert(pv[i as int].id@ == plugin_id@);
                }
                let ghost gs = status;
                let mut entry = self.plugins.remove(i);
                entry.status = status;
                proof {
                    assert(entry == (PluginEntry { status: gs, ..pv[i as int] }));
                }
                self.plugins.insert(i, entry);
                proof {
                    assert(self.plugins@ =~= pv.update(
                        i as int,
                        (PluginEntry { status: gs, ..pv[i as int] }),
                    ));
                    assert(has_entry(pv, plugin_id@)) by {
                        assert(pv[i as int].id@ == plugin_id@);
                    }
                    assert(0 <= i < pv.len() && pv[i as int].id@ == plugin_id@ && (forall|k: int|
                        0 <= k < i ==> pv[k].id@ != plugin_id@));
                }
                return ;
            }
            i = i + 1;
        }
        proof {
            assert(!has_entry(pv, plugin_id@));
        }
    }

    /// All entries, in registry order.
    pub fn list_plugins(&self) -> (r: &Vec<PluginEntry>)
        ensures
            r == self.plugins,
    {
        &self.plugins
    }

    /// Removes and returns the first entry of id `plugin_id`.
    pub fn remove_plugin(&mut self, plugin_id: &str) -> (r: Option<PluginEntry>)
        ensures
            r is Some <==> has_entry(old(self).plugins@, plugin_id@),
            r is None ==> final(self).plugins@ == old(self).plugins@,
            r matches Some(e) ==> exists|j: int|
                {
                    &&& 0 <= j < old(self).plugins@.len()
                    &&& old(self).plugins@[j].id@ == plugin_id@
                    &&& forall|k: int| 0 <= k < j ==> old(self).plugins@[k].id@ != plugin_id@
                    &&& e == old(self).plugins@[j]
                    &&& final(self).plugins@ == old(self).plugins@.remove(j)
                },
    {
        let ghost pv = self.plugins@;
        let n = self.plugins.len();
        let mut i: usize = 0;
        while i < n
            invariant
                pv == old(self).plugins@,
                pv == self.plugins@,
                n == pv.len(),
                i <= n,
                forall|k: int| 0 <= k < i ==> pv[k].id@ != plugin_id@,
            decreases n - i,
        {
            if str_eq(self.plugins[i].id.as_str(), plugin_id) {
                proof {
                    assert(has_entry(pv, plugin_id@)) by {
                        assert(pv[i as int].id@ == plugin_id@);
                    }
                }
                let e = self.plugins.remove(i);
                proof {
                    assert(0 <= i < pv.len() && pv[i as int].id@ == plugin_id@ && (forall|k: int|
                        0 <= k < i ==> pv[k].id@ != plugin_id@) && self.plugins@ == pv.remove(
                        i as int,
                    ));
                }
                return Some(e);
            }
            i = i + 1;
        }
        proof {
            assert(!has_entry(pv, plugin_id@));
        }
        None
    }

    /// Empties the registry.
    pub fn clear(&mut self)
        ensures
            final(self).plugins@.len() == 0,
    {
        self.plugins.clear();
    }
}

/// A field-for-field copy of `meta` (`clone` on a derived struct says
/// nothing to the verifier, so the copy is spelled out).
pub fn clone_metadata(meta: &WasmPluginMetadata) -> (r: WasmPluginMetadata)
    ensures
        r.id@ == meta.id@,
        r.name@ == meta.name@,
        r.version@ == meta.version@,
        r.author@ == meta.author@,
        r.checksum@ == meta.checksum@,
        views_of(r.capabilities@) == views_of(meta.capabilities@),
        views_of(r.dependencies@) == views_of(meta.dependencies@),
{
    WasmPluginMetadata {
        id: meta.id.clone(),
        name: meta.name.clone(),
        version: meta.version.clone(),
        description: meta.description.clone(),
        author: meta.author.clone(),
        license: meta.license.clone(),
        capabilities: clone_string_vec(&meta.capabilities),
        dependencies: clone_string_vec(&meta.dependencies),
        api_version: meta.api_version.clone(),
        checksum: meta.checksum.clone(),
    }
}

/// An element-by-element copy of a vector of strings.
fn clone_string_vec(v: &Vec<String>) -> (r: Vec<String>)
    ensures
        views_of(r@) == views_of(v@),
{
    let mut out: Vec<String> = Vec::new();
    let n = v.len();
    let mut i: usize = 0;
    while i < n
        invariant
            n == v@.len(),
            i <= n,
            out@.len() == i,
            forall|k: int| 0 <= k < i ==> out@[k]@ == v@[k]@,
        decreases n - i,
    {
        out.push(v[i].clone());
        i = i + 1;
    }
    proof {
        assert(views_of(out@) =~= views_of(v@));
    }
    out
}

/// Whether a candidate file takes part in discovery: its extension is
/// configured and it is not oversized.
pub open spec fn eligible(f: CandidateFile, c: DiscoveryConfig) -> bool {
    contains_string(views_of(c.extensions@), f.extension@) && f.size <= c.max_file_size
}

/// Whether a discovered entry records candidate `f`: path, checksum,
/// modification time, derived metadata, status `Available`.
pub open spec fn entry_records(e: PluginEntry, f: CandidateFile) -> bool {
    &&& e.id@ == "plugin_"@ + checksum_of(f.bytes@)
    &&& e.file_path@ == f.path@
    &&& e.checksum@ == checksum_of(f.bytes@)
    &&& e.status matches PluginStatus::Available
    &&& e.last_updated == f.modified
    &&& e.metadata.id@ == e.id@
    &&& e.metadata.checksum@ == checksum_of(f.bytes@)
    &&& e.metadata.author@ == "Unknown"@
    &&& views_of(e.metadata.capabilities@) == seq!["general"@]
}

/// Loader: discovers candidate files into the registry, loads plugins
/// against the runtime after re-checking their checksum, and tracks what
/// is loaded.
pub struct PluginLoader {
    pub plugin_directory: String,
    pub runtime: WasmRuntime,
    pub loaded_plugins: Vec<LoadedPlugin>,
    pub plugin_registry: PluginRegistry,
}

impl PluginLoader {
    /// A loader over a fresh runtime with nothing discovered or loaded.
    pub fn new(plugin_directory: String, runtime_config: RuntimeConfig) -> (r: Result<
        Self,
        RuntimeError,
    >)
        ensures
            r is Ok <==> crate::runtime::engine_builds(
                runtime_config.consume_fuel,
                runtime_config.epoch_interruption,
            ),
            r matches Ok(l) ==> {
                &&& l.plugin_directory == plugin_directory
                &&& l.runtime.wf()
                &&& l.runtime.engine.fuel_metered() == runtime_config.consume_fuel
                &&& l.runtime.engine.epoch_interrupted() == runtime_config.epoch_interruption
                &&& l.runtime.pool_view().len() == 0
                &&& l.runtime.config == runtime_config
                &&& l.loaded_plugins@.len() == 0
                &&& l.plugin_registry.plugins@.len() == 0
            },
    {
        let runtime = match WasmRuntime::new(runtime_config) {
            Ok(rt) => rt,
            Err(e) => {
                return Err(e);
            },
        };
        Ok(
            PluginLoader {
                plugin_directory,
                runtime,
                loaded_plugins: Vec::new(),
                plugin_registry: PluginRegistry::new(),
            },
        )
    }

    /// The content checksum this loader records for plugin bytes.
    pub fn calculate_checksum(&self, bytes: &[u8]) -> (r: String)
        ensures
            r@ == checksum_of(bytes@),
            r@.len() == 64,
    {
        calculate_checksum(bytes)
    }

    /// Examines one candidate file: skipped when its extension is not
    /// configured or it is oversized; rejected when it is not a valid
    /// module; otherwise turned into an `Available` registry entry.
    pub fn analyze_plugin_file(&self, file: &CandidateFile, config: &DiscoveryConfig) -> (r:
        Result<Option<PluginEntry>, LoaderError>)
        ensures
            !eligible(*file, *config) ==> (r matches Ok(e) && e is None),
            eligible(*file, *config) && wasm_surface(file.bytes@) is None ==> (r matches Err(e)
                && (e matches LoaderError::InvalidModule(p) && p@ == file.path@)),
            eligible(*file, *config) && wasm_surface(file.bytes@) is Some ==> (r matches Ok(e)
                && (e matches Some(entry) && entry_records(entry, *file))),
    {
        if !string_vec_contains(&config.extensions, file.extension.as_str()) {
            return Ok(None);
        }
        if file.size > config.max_file_size {
            return Ok(None);
        }
        match crate::wasm::decode_surface(file.bytes.as_slice()) {
            None => Err(LoaderError::InvalidModule(file.path.clone())),
            Some(_) => {
                let checksum = calculate_checksum(file.bytes.as_slice());
                let id = copy_str("plugin_").concat(checksum.as_str());
                let metadata = WasmPluginMetadata {
                    id: id.clone(),
                    name: copy_str("WebAssembly Plugin"),
                    version: copy_str("0.1.0"),
                    description: copy_str("A WebAssembly plugin"),
                    author: copy_str("Unknown"),
                    license: copy_str("Unknown"),
                    capabilities: vec![copy_str("general")],
                    dependencies: Vec::new(),
                    api_version: copy_str("1.0"),
                    checksum: checksum.clone(),
                };
                proof {
                    assert(views_of(metadata.capabilities@) =~= seq!["general"@]);
                }
                let entry = PluginEntry {
                    id: id.clone(),
                    name: copy_str("WebAssembly Plugin"),
                    version: copy_str("0.1.0"),
                    file_path: file.path.clone(),
                    checksum,
                    metadata,
                    status: PluginStatus::Available,
                    last_updated: file.modified,
                };
                Ok(Some(entry))
            },
        }
    }

    /// Discovers plugins among `files`: every eligible candidate becomes an
    /// `Available` registry entry (in order), and a malformed eligible
    /// candidate fails the discovery. The loaded set never changes.
    pub fn discover_plugins(&mut self, files: &Vec<CandidateFile>, config: &DiscoveryConfig) -> (r:
        Result<Vec<PluginEntry>, LoaderError>)
        requires
            old(self).runtime.wf(),
        ensures
            final(self).runtime == old(self).runtime,
            final(self).loaded_plugins == old(self).loaded_plugins,
            final(self).plugin_directory == old(self).plugin_directory,
            r is Ok <==> (forall|i: int|
                0 <= i < files@.len() && eligible(files@[i], *config)
                    ==> (#[trigger] wasm_surface(files@[i].bytes@)) is Some),
            r matches Err(e) ==> e matches LoaderError::InvalidModule(p) && exists|i: int|
                0 <= i < files@.len() && #[trigger] eligible(files@[i], *config) && wasm_surface(
                    files@[i].bytes@,
                ) is None && p@ == files@[i].path@,
            r matches Ok(es) ==> forall|id: Seq<char>|
                #[trigger] has_entry(final(self).plugin_registry.plugins@, id) ==> (has_entry(
                    old(self).plugin_registry.plugins@,
                    id,
                ) || exists|kk: int| 0 <= kk < es@.len() && (#[trigger] es@[kk].id@) == id),
            r matches Ok(es) ==> (es@.len() == 0 ==> final(self).plugin_registry == old(self).plugin_registry),
            r matches Ok(es) ==> forall|i: int|
                0 <= i < old(self).plugin_registry.plugins@.len() && (forall|kk: int|
                    0 <= kk < es@.len() ==> (#[trigger] es@[kk].id@) != old(self).plugin_registry.plugins@[i].id@) ==> (#[trigger] final(self).plugin_registry.plugins@[i]) == old(self).plugin_registry.plugins@[i],
            r matches Ok(es) ==> {
                &&& es@.len() == files@.filter(|f: CandidateFile| eligible(f, *config)).len()
                &&& forall|k: int|
                    0 <= k < es@.len() ==> entry_records(
                        #[trigger] es@[k],
                        files@.filter(|f: CandidateFile| eligible(f, *config))[k],
                    )
                &&& forall|k: int|
                    0 <= k < es@.len() ==> has_entry(
                        final(self).plugin_registry.plugins@,
                        #[trigger] es@[k].id@,
                    )
            },
    {
        let ghost fv = files@;
        let ghost pred = |f: CandidateFile| eligible(f, *config);
        let mut discovered: Vec<PluginEntry> = Vec::new();
        let n = files.len();
        let mut i: usize = 0;
        proof {
            reveal(Seq::filter);
            assert(fv.take(0).filter(pred) =~= Seq::<CandidateFile>::empty());
        }
        while i < n
            invariant
                fv == files@,
                pred == (|f: CandidateFile| eligible(f, *config)),
                old(self).runtime.wf(),
                self.runtime == old(self).runtime,
                self.loaded_plugins == old(self).loaded_plugins,
                self.plugin_directory == old(self).plugin_directory,
                self.plugin_registry == old(self).plugin_registry,
                n == fv.len(),
                i <= n,
                discovered@.len() == fv.take(i as int).filter(pred).len(),
                forall|k: int|
                    0 <= k < discovered@.len() ==> entry_records(
                        #[trigger] discovered@[k],
                        fv.take(i as int).filter(pred)[k],
                    ),
                forall|j: int|
                    0 <= j < i && pred(fv[j]) ==> (#[trigger] wasm_surface(fv[j].bytes@)) is Some,
            decreases n - i,
        {
            proof {
                reveal(Seq::filter);
                assert(fv.take(i + 1).drop_last() =~= fv.take(i as int));
                assert(fv.take(i + 1).last() == fv[i as int]);
            }
            match self.analyze_plugin_file(&files[i], config) {
                Err(e) => {
                    proof {
                        assert(eligible(fv[i as int], *config) && wasm_surface(
                            fv[i as int].bytes@,
                        ) is None);
                    }
                    return Err(e);
                },
                Ok(Some(entry)) => {
                    discovered.push(entry);
                },
                Ok(None) => {
                },
            }
            i = i + 1;
        }
        proof {
            assert(fv.take(n as int) =~= fv);
        }
        let m = discovered.len();
        let mut k: usize = 0;
        while k < m
            invariant
                old(self).runtime.wf(),
                self.runtime == old(self).runtime,
                self.loaded_plugins == old(self).loaded_plugins,
                self.plugin_directory == old(self).plugin_directory,
                m == discovered@.len(),
                k <= m,
                forall|j: int|
                    0 <= j < k ==> has_entry(
                        self.plugin_registry.plugins@,
                        #[trigger] discovered@[j].id@,
                    ),
                forall|id: Seq<char>|
                    #[trigger] has_entry(self.plugin_registry.plugins@, id) ==> (has_entry(
                        old(self).plugin_registry.plugins@,
                        id,
                    ) || exists|kk: int| 0 <= kk < k && (#[trigger] discovered@[kk].id@) == id),
                self.plugin_registry.plugins@.len() >= old(self).plugin_registry.plugins@.len(),
                k == 0 ==> self.plugin_registry == old(self).plugin_registry,
                forall|i: int|
                    0 <= i < old(self).plugin_registry.plugins@.len() && (forall|kk: int|
                        0 <= kk < k ==> (#[trigger] discovered@[kk].id@) != old(self).plugin_registry.plugins@[i].id@) ==> (#[trigger] self.plugin_registry.plugins@[
                        i
                    ]) == old(self).plugin_registry.plugins@[i],
            decreases m - k,
        {
            let entry = &discovered[k];
            let copy = PluginEntry {
                id: entry.id.clone(),
                name: entry.name.clone(),
                version: entry.version.clone(),
                file_path: entry.file_path.clone(),
                checksum: entry.checksum.clone(),
                metadata: clone_metadata(&entry.metadata),
                status: clone_status(&entry.status),
                last_updated: entry.last_updated,
            };
            proof {
                assert(copy.id@ == discovered@[k as int].id@);
            }
            let ghost prev = self.plugin_registry.plugins@;
            let ghost added = copy;
            self.plugin_registry.add_plugin(copy);
            proof {
                let cur = self.plugin_registry.plugins@;
                assert forall|j: int| 0 <= j < k + 1 implies has_entry(
                    cur,
                    #[trigger] discovered@[j].id@,
                ) by {
                    if j == k {
                        lemma_add_keeps_entry(prev, cur, added, added.id@);
                    } else {
                        lemma_add_keeps_entry(prev, cur, added, discovered@[j].id@);
                    }
                }
                assert forall|id: Seq<char>| #[trigger] has_entry(cur, id) implies (has_entry(
                    old(self).plugin_registry.plugins@,
                    id,
                ) || exists|kk: int| 0 <= kk < k + 1 && (#[trigger] discovered@[kk].id@)
                    == id) by {
                    lemma_add_bounds_ids(prev, cur, added, id);
                    if !has_entry(prev, id) {
                        assert(discovered@[k as int].id@ == id);
                    }
                }
                assert forall|i: int|
                    0 <= i < old(self).plugin_registry.plugins@.len() && (forall|kk: int|
                        0 <= kk < k + 1 ==> (#[trigger] discovered@[kk].id@) != old(self).plugin_registry.plugins@[i].id@) implies (#[trigger] cur[i]) == old(self).plugin_registry.plugins@[i] by {
                    assert(discovered@[k as int].id@ != old(self).plugin_registry.plugins@[
                        i
                    ].id@);
                    assert(prev[i] == old(self).plugin_registry.plugins@[i]);
                    lemma_add_preserves_index(prev, cur, added, i);
                }
            }
            k = k + 1;
        }
        Ok(discovered)
    }
}

/// A registry update by `add_plugin` leaves every entry whose id differs
/// from the added one exactly where it was.
proof fn lemma_add_preserves_index(
    pre: Seq<PluginEntry>,
    post: Seq<PluginEntry>,
    added: PluginEntry,
    i: int,
)
    requires
        (exists|j: int| 0 <= j < pre.len() && pre[j].id@ == added.id@ && post == pre.update(j, added))
            || post == pre.push(added),
        0 <= i < pre.len(),
        pre[i].id@ != added.id@,
    ensures
        post.len() >= pre.len(),
        post[i] == pre[i],
{
    if exists|j: int|
        0 <= j < pre.len() && pre[j].id@ == added.id@ && post == pre.update(j, added) {
        let j = choose|j: int|
            0 <= j < pre.len() && pre[j].id@ == added.id@ && post == pre.update(j, added);
        assert(i != j);
    }
}

/// A registry update by `add_plugin` never invents an id: every id
/// present after was present before, or is the added entry's.
proof fn lemma_add_bounds_ids(
    pre: Seq<PluginEntry>,
    post: Seq<PluginEntry>,
    added: PluginEntry,
    id: Seq<char>,
)
    requires
        (exists|j: int| 0 <= j < pre.len() && pre[j].id@ == added.id@ && post == pre.update(j, added))
            || post == pre.push(added),
        has_entry(post, id),
    ensures
        has_entry(pre, id) || id == added.id@,
{
    let m = choose|m: int| 0 <= m < post.len() && post[m].id@ == id;
    if exists|j: int|
        0 <= j < pre.len() && pre[j].id@ == added.id@ && post == pre.update(j, added) {
        let j = choose|j: int|
            0 <= j < pre.len() && pre[j].id@ == added.id@ && post == pre.update(j, added);
        if m == j {
            assert(post[m] == added);
        } else {
            assert(pre[m].id@ == id);
        }
    } else {
        if m == pre.len() {
            assert(post[m] == added);
        } else {
            assert(pre[m].id@ == id);
        }
    }
}

/// A registry update by `add_plugin` never loses an id: every id present
/// before, and the added id, is present after.
proof fn lemma_add_keeps_entry(
    pre: Seq<PluginEntry>,
    post: Seq<PluginEntry>,
    added: PluginEntry,
    id: Seq<char>,
)
    requires
        has_entry(pre, id) || added.id@ == id,
        (exists|j: int| 0 <= j < pre.len() && pre[j].id@ == added.id@ && post == pre.update(j, added))
            || post == pre.push(added),
    ensures
        has_entry(post, id),
{
    if exists|j: int|
        0 <= j < pre.len() && pre[j].id@ == added.id@ && post == pre.update(j, added) {
        let j = choose|j: int|
            0 <= j < pre.len() && pre[j].id@ == added.id@ && post == pre.update(j, added);
        if added.id@ == id {
            assert(post[j].id@ == id);
        } else {
            let m = choose|m: int| 0 <= m < pre.len() && pre[m].id@ == id;
            assert(m != j);
            assert(post[m].id@ == id);
        }
    } else {
        if added.id@ == id {
            assert(post[pre.len() as int].id@ == id);
        } else {
            let m = choose|m: int| 0 <= m < pre.len() && pre[m].id@ == id;
            assert(post[m].id@ == id);
        }
    }
}

/// The first loaded record of id `id`, if any.
pub open spec fn first_loaded(loaded: Seq<LoadedPlugin>, id: Seq<char>) -> Option<LoadedPlugin>
    decreases loaded.len(),
{
    if loaded.len() == 0 {
        None
    } else if loaded[0].metadata.id@ == id {
        Some(loaded[0])
    } else {
        first_loaded(loaded.skip(1), id)
    }
}

/// No two loaded records share an id.
pub open spec fn loaded_ids_unique(loaded: Seq<LoadedPlugin>) -> bool {
    forall|i: int, j: int|
        0 <= i < j < loaded.len() ==> loaded[i].metadata.id@ != loaded[j].metadata.id@
}

/// Every loaded record's bytes compile on an engine built from the two
/// flags — established at load time and kept thereafter.
pub open spec fn loaded_all_compilable(
    loaded: Seq<LoadedPlugin>,
    consume_fuel: bool,
    epoch_interruption: bool,
) -> bool {
    forall|i: int|
        0 <= i < loaded.len() ==> crate::runtime::compilable(
            consume_fuel,
            epoch_interruption,
            (#[trigger] loaded[i]).bytes@,
        )
}

impl PluginLoader {
    /// Whether the loader currently holds a loaded record of `plugin_id`.
    fn find_loaded(&self, plugin_id: &str) -> (r: Option<usize>)
        ensures
            r is Some <==> has_loaded(self.loaded_plugins@, plugin_id@),
            r matches Some(j) ==> 0 <= j < self.loaded_plugins@.len()
                && self.loaded_plugins@[j as int].metadata.id@ == plugin_id@ && (forall|k: int|
                0 <= k < j ==> self.loaded_plugins@[k].metadata.id@ != plugin_id@),
    {
        let n = self.loaded_plugins.len();
        let mut i: usize = 0;
        while i < n
            invariant
                n == self.loaded_plugins@.len(),
                i <= n,
                forall|k: int| 0 <= k < i ==> self.loaded_plugins@[k].metadata.id@ != plugin_id@,
            decreases n - i,
        {
            if str_eq(self.loaded_plugins[i].metadata.id.as_str(), plugin_id) {
                proof {
                    assert(has_loaded(self.loaded_plugins@, plugin_id@)) by {
                        assert(self.loaded_plugins@[i as int].metadata.id@ == plugin_id@);
                    }
                }
                return Some(i);
            }
            i = i + 1;
        }
        None
    }

    /// Loads the plugin registered as `plugin_id` from the bytes now on
    /// disk. The load fails with `ChecksumMismatch` exactly when the bytes
    /// differ from the checksum recorded at discovery; loading an
    /// already-loaded id is a no-op; on success the plugin is recorded with
    /// the limits it was loaded with and the registry entry turns `Loaded`.
    pub fn load_plugin(
        &mut self,
        plugin_id: &str,
        current_bytes: &[u8],
        limits: Option<ResourceLimits>,
        now: u64,
    ) -> (r: Result<(), LoaderError>)
        requires
            old(self).runtime.wf(),
            loaded_ids_unique(old(self).loaded_plugins@),
            loaded_all_compilable(
                old(self).loaded_plugins@,
                old(self).runtime.engine.fuel_metered(),
                old(self).runtime.engine.epoch_interrupted(),
            ),
        ensures
            final(self).runtime == old(self).runtime,
            final(self).runtime.wf(),
            loaded_ids_unique(final(self).loaded_plugins@),
            loaded_all_compilable(
                final(self).loaded_plugins@,
                final(self).runtime.engine.fuel_metered(),
                final(self).runtime.engine.epoch_interrupted(),
            ),
            final(self).plugin_directory == old(self).plugin_directory,
            final(self).runtime.config == old(self).runtime.config,
            !has_entry(old(self).plugin_registry.plugins@, plugin_id@) ==> (r matches Err(e)
                && e matches LoaderError::NotFound && *final(self) == *old(self)),
            has_entry(old(self).plugin_registry.plugins@, plugin_id@) && !has_loaded(
                old(self).loaded_plugins@,
                plugin_id@,
            ) && first_entry_checksum(old(self).plugin_registry.plugins@, plugin_id@)
                != crate::checksum::checksum_of(current_bytes@) ==> (r matches Err(e)
                && e matches LoaderError::ChecksumMismatch),
            has_entry(old(self).plugin_registry.plugins@, plugin_id@) && !has_loaded(
                old(self).loaded_plugins@,
                plugin_id@,
            ) && first_entry_checksum(old(self).plugin_registry.plugins@, plugin_id@)
                == crate::checksum::checksum_of(current_bytes@) ==> (r is Ok
                <==> crate::runtime::compilable(
                old(self).runtime.engine.fuel_metered(),
                old(self).runtime.engine.epoch_interrupted(),
                current_bytes@,
            )),
            has_entry(old(self).plugin_registry.plugins@, plugin_id@) && !has_loaded(
                old(self).loaded_plugins@,
                plugin_id@,
            ) && r is Ok ==> exists|j: int|
                {
                    &&& 0 <= j < old(self).plugin_registry.plugins@.len()
                    &&& old(self).plugin_registry.plugins@[j].id@ == plugin_id@
                    &&& final(self).plugin_registry.plugins@
                        == old(self).plugin_registry.plugins@.update(
                        j,
                        (PluginEntry {
                            status: PluginStatus::Loaded,
                            ..old(self).plugin_registry.plugins@[j]
                        }),
                    )
                },
            has_entry(old(self).plugin_registry.plugins@, plugin_id@) && has_loaded(
                old(self).loaded_plugins@,
                plugin_id@,
            ) ==> (r is Ok && *final(self) == *old(self)),
            r matches Err(e) ==> (e matches LoaderError::ChecksumMismatch <==> (has_entry(
                old(self).plugin_registry.plugins@,
                plugin_id@,
            ) && !has_loaded(old(self).loaded_plugins@, plugin_id@) && first_entry_checksum(
                old(self).plugin_registry.plugins@,
                plugin_id@,
            ) != checksum_of(current_bytes@))),
            r is Err ==> final(self).loaded_plugins == old(self).loaded_plugins,
            r is Err ==> final(self).plugin_registry == old(self).plugin_registry,
            r is Ok && !has_loaded(old(self).loaded_plugins@, plugin_id@) ==> {
                &&& final(self).loaded_plugins@.len() == old(self).loaded_plugins@.len() + 1
                &&& final(self).loaded_plugins@.take(old(self).loaded_plugins@.len() as int)
                    == old(self).loaded_plugins@
                &&& ({
                    let lp = final(self).loaded_plugins@.last();
                    &&& lp.metadata.id@ == plugin_id@
                    &&& lp.checksum@ == checksum_of(current_bytes@)
                    &&& lp.loaded_at == now
                    &&& lp.size == current_bytes@.len()
                    &&& lp.bytes@ == current_bytes@
                    &&& lp.limits == (match limits {
                        Some(l) => l,
                        None => ResourceLimits {
                            max_memory: ((64 * 1024 * 1024) as u64),
                            max_execution_time: 30_000,
                            max_file_descriptors: 10,
                            max_network_connections: 5,
                            cpu_time_limit: 10_000,
                            max_fuel: 1_000_000,
                        },
                    })
                })
                &&& exists|j: int|
                    {
                        &&& 0 <= j < old(self).plugin_registry.plugins@.len()
                        &&& old(self).plugin_registry.plugins@[j].id@ == plugin_id@
                        &&& final(self).plugin_registry.plugins@
                            == old(self).plugin_registry.plugins@.update(
                            j,
                            (PluginEntry {
                                status: PluginStatus::Loaded,
                                ..old(self).plugin_registry.plugins@[j]
                            }),
                        )
                    }
            },
    {
        let entry = match self.plugin_registry.get_plugin(plugin_id) {
            Some(e) => e,
            None => {
                return Err(LoaderError::NotFound);
            },
        };
        if let Some(_) = self.find_loaded(plugin_id) {
            return Ok(());
        }
        let current_checksum = calculate_checksum(current_bytes);
        if !str_eq(current_checksum.as_str(), entry.checksum.as_str()) {
            proof {
                lemma_first_entry_checksum(self.plugin_registry.plugins@, plugin_id@);
            }
            return Err(LoaderError::ChecksumMismatch);
        }
        proof {
            lemma_first_entry_checksum(self.plugin_registry.plugins@, plugin_id@);
        }
        let resource_limits = match limits {
            Some(l) => l,
            None => ResourceLimits {
                max_memory: 64 * 1024 * 1024,
                max_execution_time: 30_000,
                max_file_descriptors: 10,
                max_network_connections: 5,
                cpu_time_limit: 10_000,
                max_fuel: 1_000_000,
            },
        };
        let metadata = clone_metadata(&entry.metadata);
        let file_path = entry.file_path.clone();
        if !self.runtime.compile_check(current_bytes) {
            return Err(LoaderError::Runtime(RuntimeError::CompileFailed));
        }
        let loaded = LoadedPlugin {
            metadata: WasmPluginMetadata { id: copy_str(plugin_id), ..metadata },
            file_path,
            checksum: current_checksum,
            loaded_at: now,
            size: current_bytes.len() as u64,
            limits: resource_limits,
            bytes: vstd::slice::slice_to_vec(current_bytes),
        };
        let ghost pre_loaded = self.loaded_plugins@;
        self.loaded_plugins.push(loaded);
        proof {
            assert(self.loaded_plugins@.take(pre_loaded.len() as int) =~= pre_loaded);
        }
        self.plugin_registry.update_status(plugin_id, PluginStatus::Loaded);
        Ok(())
    }

    /// Unloads `plugin_id`: its loaded record is removed and its registry
    /// entry turns `Available` again; unloading an id that is not loaded
    /// changes nothing. The registry entry itself is never deleted.
    pub fn unload_plugin(&mut self, plugin_id: &str) -> (r: Result<(), LoaderError>)
        requires
            old(self).runtime.wf(),
            loaded_ids_unique(old(self).loaded_plugins@),
            loaded_all_compilable(
                old(self).loaded_plugins@,
                old(self).runtime.engine.fuel_metered(),
                old(self).runtime.engine.epoch_interrupted(),
            ),
        ensures
            r is Ok,
            final(self).runtime == old(self).runtime,
            final(self).runtime.wf(),
            loaded_ids_unique(final(self).loaded_plugins@),
            loaded_all_compilable(
                final(self).loaded_plugins@,
                final(self).runtime.engine.fuel_metered(),
                final(self).runtime.engine.epoch_interrupted(),
            ),
            final(self).plugin_directory == old(self).plugin_directory,
            !has_loaded(old(self).loaded_plugins@, plugin_id@) ==> *final(self) == *old(self),
            has_loaded(old(self).loaded_plugins@, plugin_id@) ==> {
                &&& !has_loaded(final(self).loaded_plugins@, plugin_id@)
                &&& exists|j: int|
                    {
                        &&& 0 <= j < old(self).loaded_plugins@.len()
                        &&& old(self).loaded_plugins@[j].metadata.id@ == plugin_id@
                        &&& final(self).loaded_plugins@ == old(self).loaded_plugins@.remove(j)
                    }
            },
            has_loaded(old(self).loaded_plugins@, plugin_id@) && !has_entry(
                old(self).plugin_registry.plugins@,
                plugin_id@,
            ) ==> final(self).plugin_registry.plugins@ == old(self).plugin_registry.plugins@,
            has_loaded(old(self).loaded_plugins@, plugin_id@) && has_entry(
                old(self).plugin_registry.plugins@,
                plugin_id@,
            ) ==> exists|j: int|
                {
                    &&& 0 <= j < old(self).plugin_registry.plugins@.len()
                    &&& old(self).plugin_registry.plugins@[j].id@ == plugin_id@
                    &&& final(self).plugin_registry.plugins@
                        == old(self).plugin_registry.plugins@.update(
                        j,
                        (PluginEntry {
                            status: PluginStatus::Available,
                            ..old(self).plugin_registry.plugins@[j]
                        }),
                    )
                },
    {
        match self.find_loaded(plugin_id) {
            Some(i) => {
                let ghost pre = self.loaded_plugins@;
                let _ = self.loaded_plugins.remove(i);
                proof {
                    assert(!has_loaded(self.loaded_plugins@, plugin_id@)) by {
                        assert forall|k: int|
                            0 <= k < self.loaded_plugins@.len() implies self.loaded_plugins@[
                            k
                        ].metadata.id@ != plugin_id@ by {
                            if k < i {
                                assert(self.loaded_plugins@[k] == pre[k]);
                            } else {
                                assert(self.loaded_plugins@[k] == pre[k + 1]);
                            }
                        }
                    }
                }
                self.plugin_registry.update_status(plugin_id, PluginStatus::Available);
                Ok(())
            },
            None => Ok(()),
        }
    }

    /// Reloads `plugin_id`: exactly an unload followed by a load from the
    /// bytes now on disk, with the previously used limits preserved. A
    /// failed reload leaves the plugin unloaded; the reload succeeds
    /// exactly when the load half does (checksum intact and the bytes
    /// compile).
    pub fn reload_plugin(&mut self, plugin_id: &str, current_bytes: &[u8], now: u64) -> (r: Result<
        (),
        LoaderError,
    >)
        requires
            old(self).runtime.wf(),
            loaded_ids_unique(old(self).loaded_plugins@),
            loaded_all_compilable(
                old(self).loaded_plugins@,
                old(self).runtime.engine.fuel_metered(),
                old(self).runtime.engine.epoch_interrupted(),
            ),
        ensures
            final(self).runtime == old(self).runtime,
            final(self).runtime.wf(),
            loaded_ids_unique(final(self).loaded_plugins@),
            loaded_all_compilable(
                final(self).loaded_plugins@,
                final(self).runtime.engine.fuel_metered(),
                final(self).runtime.engine.epoch_interrupted(),
            ),
            final(self).plugin_directory == old(self).plugin_directory,
            r is Err && has_loaded(old(self).loaded_plugins@, plugin_id@) ==> !has_loaded(
                final(self).loaded_plugins@,
                plugin_id@,
            ),
            has_loaded(old(self).loaded_plugins@, plugin_id@) && has_entry(
                old(self).plugin_registry.plugins@,
                plugin_id@,
            ) && first_entry_checksum(old(self).plugin_registry.plugins@, plugin_id@)
                == crate::checksum::checksum_of(current_bytes@) && crate::runtime::compilable(
                old(self).runtime.engine.fuel_metered(),
                old(self).runtime.engine.epoch_interrupted(),
                current_bytes@,
            ) ==> r is Ok,
            r is Ok && has_loaded(old(self).loaded_plugins@, plugin_id@) ==> {
                &&& has_loaded(final(self).loaded_plugins@, plugin_id@)
                &&& final(self).loaded_plugins@.last().metadata.id@ == plugin_id@
                &&& exists|j: int|
                    0 <= j < old(self).loaded_plugins@.len() && old(self).loaded_plugins@[
                        j
                    ].metadata.id@ == plugin_id@ && final(self).loaded_plugins@.last().limits
                        == old(self).loaded_plugins@[j].limits
            },
    {
        let ghost pre = self.loaded_plugins@;
        let ghost pre_reg = self.plugin_registry.plugins@;
        let found = self.find_loaded(plugin_id);
        let ghost gfound = found;
        let limits = match found {
            Some(i) => Some(self.loaded_plugins[i].limits),
            None => None,
        };
        self.unload_plugin(plugin_id)?;
        proof {
            if has_loaded(pre, plugin_id@) && has_entry(pre_reg, plugin_id@) {
                let mid = self.plugin_registry.plugins@;
                assert(forall|i: int|
                    0 <= i < pre_reg.len() ==> (#[trigger] mid[i]).id@ == pre_reg[i].id@
                        && mid[i].checksum@ == pre_reg[i].checksum@);
                lemma_same_surface_same_lookup(pre_reg, mid, plugin_id@);
            }
        }
        match self.load_plugin(plugin_id, current_bytes, limits, now) {
            Ok(()) => {
                proof {
                    if has_loaded(pre, plugin_id@) {
                        let i = gfound.unwrap() as int;
                        assert(pre[i].metadata.id@ == plugin_id@);
                        let lp = self.loaded_plugins@.last();
                        assert(has_loaded(self.loaded_plugins@, plugin_id@)) by {
                            assert(self.loaded_plugins@[self.loaded_plugins@.len() - 1]
                                == lp);
                        }
                    }
                }
                Ok(())
            },
            Err(e) => Err(e),
        }
    }

    /// The first loaded record of `plugin_id`, if any.
    pub fn get_loaded(&self, plugin_id: &str) -> (r: Option<&LoadedPlugin>)
        ensures
            r is Some <==> has_loaded(self.loaded_plugins@, plugin_id@),
            r matches Some(lp) ==> exists|j: int|
                {
                    &&& 0 <= j < self.loaded_plugins@.len()
                    &&& self.loaded_plugins@[j].metadata.id@ == plugin_id@
                    &&& *lp == self.loaded_plugins@[j]
                },
    {
        match self.find_loaded(plugin_id) {
            Some(i) => {
                proof {
                    assert(0 <= i < self.loaded_plugins@.len() && self.loaded_plugins@[
                        i as int
                    ].metadata.id@ == plugin_id@);
                }
                Some(&self.loaded_plugins[i])
            },
            None => None,
        }
    }

    /// The loaded records, in load order.
    pub fn get_loaded_plugins(&self) -> (r: &Vec<LoadedPlugin>)
        ensures
            r == self.loaded_plugins,
    {
        &self.loaded_plugins
    }

    /// The registry of discovered plugins.
    pub fn get_registry(&self) -> (r: &PluginRegistry)
        ensures
            r == self.plugin_registry,
    {
        &self.plugin_registry
    }

    /// The runtime behind this loader.
    pub fn runtime(&self) -> (r: &WasmRuntime)
        ensures
            r == self.runtime,
    {
        &self.runtime
    }
}

/// The first registry entry of id `id`, if any.
pub open spec fn first_entry(plugins: Seq<PluginEntry>, id: Seq<char>) -> Option<PluginEntry>
    decreases plugins.len(),
{
    if plugins.len() == 0 {
        None
    } else if plugins[0].id@ == id {
        Some(plugins[0])
    } else {
        first_entry(plugins.skip(1), id)
    }
}

/// Relates the first matching entry found by a scan to [`first_entry`].
pub proof fn lemma_first_entry(plugins: Seq<PluginEntry>, id: Seq<char>)
    ensures
        forall|j: int|
            0 <= j < plugins.len() && plugins[j].id@ == id && (forall|k: int|
                0 <= k < j ==> plugins[k].id@ != id) ==> first_entry(plugins, id) == Some(
                #[trigger] plugins[j],
            ),
    decreases plugins.len(),
{
    if plugins.len() > 0 {
        lemma_first_entry(plugins.skip(1), id);
        assert forall|j: int|
            0 <= j < plugins.len() && plugins[j].id@ == id && (forall|k: int|
                0 <= k < j ==> plugins[k].id@ != id) implies first_entry(plugins, id) == Some(
            #[trigger] plugins[j],
        ) by {
            if j > 0 {
                assert(plugins.skip(1)[j - 1] == plugins[j]);
                assert(forall|k: int| 0 <= k < j - 1 ==> plugins.skip(1)[k].id@ != id);
            }
        }
    }
}

/// The checksum of the first registry entry of id `id`.
pub open spec fn first_entry_checksum(plugins: Seq<PluginEntry>, id: Seq<char>) -> Seq<char>
    decreases plugins.len(),
{
    if plugins.len() == 0 {
        Seq::empty()
    } else if plugins[0].id@ == id {
        plugins[0].checksum@
    } else {
        first_entry_checksum(plugins.skip(1), id)
    }
}

/// Two registries whose entries agree pointwise on id and checksum give
/// the same lookup results: a status update changes neither.
pub proof fn lemma_same_surface_same_lookup(
    pre: Seq<PluginEntry>,
    post: Seq<PluginEntry>,
    id: Seq<char>,
)
    requires
        pre.len() == post.len(),
        forall|i: int|
            0 <= i < pre.len() ==> (#[trigger] post[i]).id@ == pre[i].id@ && post[i].checksum@
                == pre[i].checksum@,
    ensures
        has_entry(post, id) == has_entry(pre, id),
        first_entry_checksum(post, id) == first_entry_checksum(pre, id),
    decreases pre.len(),
{
    assert(has_entry(post, id) == has_entry(pre, id)) by {
        if has_entry(pre, id) {
            let m = choose|m: int| 0 <= m < pre.len() && pre[m].id@ == id;
            assert(post[m].id@ == id);
        }
        if has_entry(post, id) {
            let m = choose|m: int| 0 <= m < post.len() && post[m].id@ == id;
            assert(pre[m].id@ == id);
        }
    }
    if pre.len() > 0 {
        assert(forall|i: int|
            0 <= i < pre.skip(1).len() ==> (#[trigger] post.skip(1)[i]).id@ == pre.skip(
                1,
            )[i].id@ && post.skip(1)[i].checksum@ == pre.skip(1)[i].checksum@) by {
            assert(forall|i: int|
                0 <= i < pre.skip(1).len() ==> post.skip(1)[i] == post[i + 1] && pre.skip(
                    1,
                )[i] == pre[i + 1]);
        }
        lemma_same_surface_same_lookup(pre.skip(1), post.skip(1), id);
    }
}

/// Relates the first matching entry found by a scan to
/// [`first_entry_checksum`].
pub proof fn lemma_first_entry_checksum(plugins: Seq<PluginEntry>, id: Seq<char>)
    ensures
        forall|j: int|
            0 <= j < plugins.len() && plugins[j].id@ == id && (forall|k: int|
                0 <= k < j ==> plugins[k].id@ != id) ==> first_entry_checksum(plugins, id)
                == #[trigger] plugins[j].checksum@,
    decreases plugins.len(),
{
    if plugins.len() > 0 {
        lemma_first_entry_checksum(plugins.skip(1), id);
        assert forall|j: int|
            0 <= j < plugins.len() && plugins[j].id@ == id && (forall|k: int|
                0 <= k < j ==> plugins[k].id@ != id) implies first_entry_checksum(plugins, id)
            == #[trigger] plugins[j].checksum@ by {
            if j > 0 {
                assert(plugins.skip(1)[j - 1] == plugins[j]);
                assert(forall|k: int| 0 <= k < j - 1 ==> plugins.skip(1)[k].id@ != id);
            }
        }
    }
}

/// A field-for-field copy of a status.
pub fn clone_status(s: &PluginStatus) -> (r: PluginStatus)
    ensures
        r == *s,
{
    match s {
        PluginStatus::Available => PluginStatus::Available,
        PluginStatus::Loaded => PluginStatus::Loaded,
        PluginStatus::Error(msg) => PluginStatus::Error(msg.clone()),
        PluginStatus::Disabled => PluginStatus::Disabled,
    }
}

} // verus!
