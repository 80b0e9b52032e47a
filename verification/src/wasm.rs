//! The library's view of a decoded WebAssembly module: the import and export
//! names the policy layer reasons about. Structural decoding is delegated to
//! wasmtime; only the surface it reports is modelled here.

use vstd::prelude::*;

verus! {

/// One import of a module: the namespace it imports from and the symbol name.
#[derive(Debug, Clone)]
pub struct ModuleImport {
    pub module: String,
    pub name: String,
}

impl View for ModuleImport {
    type V = (Seq<char>, Seq<char>);

    open spec fn view(&self) -> (Seq<char>, Seq<char>) {
        (self.module@, self.name@)
    }
}

/// The surface of a structurally valid module: its imports and export names.
#[derive(Debug, Clone)]
pub struct ModuleSurface {
    pub imports: Vec<ModuleImport>,
    pub exports: Vec<String>,
}

impl View for ModuleSurface {
    type V = (Seq<(Seq<char>, Seq<char>)>, Seq<Seq<char>>);

    open spec fn view(&self) -> (Seq<(Seq<char>, Seq<char>)>, Seq<Seq<char>>) {
        (
            self.imports@.map_values(|imp: ModuleImport| imp@),
            self.exports@.map_values(|e: String| e@),
        )
    }
}

/// The surface that structural decoding reports for a byte sequence, or
/// `None` when the bytes are not a well-formed module. The result depends
/// on the bytes alone.
pub uninterp spec fn wasm_surface(bytes: Seq<u8>) -> Option<
    (Seq<(Seq<char>, Seq<char>)>, Seq<Seq<char>>),
>;

/// Relies on `wasmtime::Module::from_binary` (against a default
/// `wasmtime::Engine`) for structural validation of a WebAssembly binary,
/// and on `wasmtime::Module::imports` / `exports` for the import and export
/// lists; all three depend on the input bytes alone. On a host where
/// wasmtime cannot run at all, constructing the default engine aborts the
/// process; on hosts where it runs, the result is a function of the bytes.
#[verifier::external_body]
pub(crate) fn decode_surface(bytes: &[u8]) -> (r: Option<ModuleSurface>)
    ensures
        r is Some <==> wasm_surface(bytes@) is Some,
        r is Some ==> r.unwrap()@ == wasm_surface(bytes@).unwrap(),
{
    let engine = wasmtime::Engine::default();
    let module = match wasmtime::Module::from_binary(&engine, bytes) {
        Ok(m) => m,
        Err(_) => return None,
    };
    let imports = module
        .imports()
        .map(|i| ModuleImport { module: i.module().to_string(), name: i.name().to_string() })
        .collect();
    let exports = module.exports().map(|e| e.name().to_string()).collect();
    Some(ModuleSurface { imports, exports })
}

} // verus!
