//! The burner sandbox: WebAssembly bytes are checked for a module header and
//! then compiled, linked against nothing, and started in a throwaway wasmi
//! runtime.

use vstd::prelude::*;
use crate::wasm_sections::{declares_start, declares_start_section, start_body_is_empty};

verus! {

#[verifier::external_type_specification]
#[verifier::external_body]
pub struct ExEngine(wasmi::Engine);

#[verifier::external_type_specification]
#[verifier::external_body]
pub struct ExModule(wasmi::Module);

#[verifier::external_type_specification]
#[verifier::external_body]
#[verifier::reject_recursive_types(T)]
pub struct ExStore<T>(wasmi::Store<T>);

#[verifier::external_type_specification]
#[verifier::external_body]
pub struct ExInstancePre(wasmi::InstancePre);

/// What `wasmi::Module::new` gives for these bytes on a fresh engine with
/// the default configuration: `Ok` when they decode and validate as a
/// module, otherwise the `Display` text of the error.
pub uninterp spec fn wasm_compile_outcome(bytes: Seq<u8>) -> Result<(), Seq<char>>;

/// What `wasmi::Linker::instantiate` gives for the module compiled from
/// these bytes, with a linker that defines nothing and a fresh store of the
/// module's engine: `Ok`, or the `Display` text of the error.
pub uninterp spec fn wasm_instantiate_outcome(bytes: Seq<u8>) -> Result<(), Seq<char>>;

/// What `wasmi::InstancePre::start` gives for the instance prepared from
/// these bytes: `None` when it never returns (a start function that runs
/// forever), `Some(Ok(()))` when it returns cleanly, otherwise `Some` of the
/// `Display` text of the trap.
pub uninterp spec fn wasm_start_outcome(bytes: Seq<u8>) -> Option<Result<(), Seq<char>>>;

/// A module compiled on its own engine, with the bytes it was read from.
pub struct CompiledModule {
    engine: wasmi::Engine,
    module: wasmi::Module,
    source: Vec<u8>,
}

/// A module instantiated in its own store, with its start function not yet
/// run.
pub struct PreparedInstance {
    store: wasmi::Store<()>,
    pre: wasmi::InstancePre,
    source: Vec<u8>,
}

impl CompiledModule {
    /// The bytes the module was read from.
    pub closed spec fn source_bytes(self) -> Seq<u8> {
        self.source@
    }
}

impl PreparedInstance {
    /// The bytes the module was read from.
    pub closed spec fn source_bytes(self) -> Seq<u8> {
        self.source@
    }
}

/// `wasmi::Module::new` on a fresh `wasmi::Engine::default()`, reading the
/// module from `bytes`. Its outcome is named by `wasm_compile_outcome`, the
/// error carried as its `Display` text. A module whose sections hold no
/// start section has no start function, and `InstancePre::start` then
/// returns `Ok` without running anything: this is stated as well. So is the
/// plain fact that a start function whose body declares no locals and holds
/// only its closing `end`, in a module that imports nothing, returns `Ok`.
#[verifier::external_body]
fn module_new(bytes: &[u8]) -> (r: Result<CompiledModule, String>)
    ensures
        match wasm_compile_outcome(bytes@) {
            Ok(_) => r is Ok,
            Err(t) => r matches Err(e) && e@ == t,
        },
        r matches Ok(m) ==> m.source_bytes() == bytes@,
        r matches Ok(m) ==> (!declares_start(m.source_bytes()) ==> wasm_start_outcome(
            m.source_bytes(),
        ) == Some(Ok::<(), Seq<char>>(()))),
        r matches Ok(m) ==> (start_body_is_empty(m.source_bytes()) ==> wasm_start_outcome(
            m.source_bytes(),
        ) == Some(Ok::<(), Seq<char>>(()))),
{
    let engine = wasmi::Engine::default();
    match wasmi::Module::new(&engine, std::io::Cursor::new(bytes)) {
        Ok(module) => Ok(CompiledModule { engine, module, source: bytes.to_vec() }),
        Err(e) => Err(e.to_string()),
    }
}

/// `wasmi::Linker::instantiate` for `m`, with a linker that defines nothing
/// and a fresh store, both made from `m`'s own engine (so the engine check
/// that wasmi asserts always holds). Its outcome is named by
/// `wasm_instantiate_outcome`.
#[verifier::external_body]
fn linker_instantiate(m: &CompiledModule) -> (r: Result<PreparedInstance, String>)
    ensures
        match wasm_instantiate_outcome(m.source_bytes()) {
            Ok(_) => r is Ok,
            Err(t) => r matches Err(e) && e@ == t,
        },
        r matches Ok(p) ==> p.source_bytes() == m.source_bytes(),
{
    let mut store = wasmi::Store::new(&m.engine, ());
    let linker = wasmi::Linker::<()>::new(&m.engine);
    match linker.instantiate(&mut store, &m.module) {
        Ok(pre) => Ok(PreparedInstance { store, pre, source: m.source.clone() }),
        Err(e) => Err(e.to_string()),
    }
}

/// `wasmi::InstancePre::start` in the store the instance was prepared in.
/// Its outcome is named by `wasm_start_outcome`; inputs whose start
/// function never returns are left out.
#[verifier::external_body]
fn instance_start(p: PreparedInstance) -> (r: Result<(), String>)
    requires
        wasm_start_outcome(p.source_bytes()) is Some,
    ensures
        match wasm_start_outcome(p.source_bytes()) {
            Some(Ok(_)) => r is Ok,
            Some(Err(t)) => r matches Err(e) && e@ == t,
            None => false,
        },
{
    let PreparedInstance { mut store, pre, .. } = p;
    match pre.start(&mut store) {
        Ok(_) => Ok(()),
        Err(e) => Err(e.to_string()),
    }
}

/// Runs untrusted WebAssembly in a runtime with no host imports.
pub struct BurnerSandbox;

/// The four bytes that open every WebAssembly module: `\0asm`.
pub open spec fn wasm_magic() -> Seq<u8> {
    seq![0x00u8, 0x61u8, 0x73u8, 0x6du8]
}

/// Message for input shorter than a module header.
pub open spec fn too_small_text() -> Seq<char> {
    "[MOAT2] WASM payload too small to be a valid module."@
}

/// Message for input that does not open with the WebAssembly magic.
pub open spec fn bad_magic_text() -> Seq<char> {
    "[MOAT2] Invalid WASM magic header. Module rejected."@
}

/// The header check that runs before any bytes reach the engine: `None`
/// when the bytes may be handed on, otherwise the rejection message.
pub open spec fn header_rejection(bytes: Seq<u8>) -> Option<Seq<char>> {
    if bytes.len() < 8 {
        Some(too_small_text())
    } else if bytes.subrange(0, 4) != wasm_magic() {
        Some(bad_magic_text())
    } else {
        None
    }
}

/// Message prefix when the engine refuses to compile the module.
pub open spec fn compile_failed_prefix() -> Seq<char> {
    "[MOAT2] WASM compile failed: "@
}

/// Message prefix when the module cannot be instantiated.
pub open spec fn instantiation_failed_prefix() -> Seq<char> {
    "[MOAT2] Instantiation failed: "@
}

/// Message prefix when the start function traps.
pub open spec fn start_failed_prefix() -> Seq<char> {
    "[MOAT2] Module start/trap: "@
}

/// The bytes of the smallest valid module: magic and version 1, no sections.
pub open spec fn minimal_wasm_bytes() -> Seq<u8> {
    seq![0x00u8, 0x61u8, 0x73u8, 0x6du8, 0x01u8, 0x00u8, 0x00u8, 0x00u8]
}

/// What the sandbox reports for bytes that pass the header check: the first
/// engine stage that fails, with its error text, or `Ok` when the module
/// compiles, instantiates with no imports, and starts cleanly.
pub open spec fn engine_verdict(bytes: Seq<u8>) -> Result<(), Seq<char>> {
    match wasm_compile_outcome(bytes) {
        Err(t) => Err(compile_failed_prefix() + t),
        Ok(_) => match wasm_instantiate_outcome(bytes) {
            Err(t) => Err(instantiation_failed_prefix() + t),
            Ok(_) => match wasm_start_outcome(bytes) {
                Some(Err(t)) => Err(start_failed_prefix() + t),
                _ => Ok(()),
            },
        },
    }
}

/// What the sandbox reports for `bytes`.
pub open spec fn sandbox_verdict(bytes: Seq<u8>) -> Result<(), Seq<char>> {
    match header_rejection(bytes) {
        Some(m) => Err(m),
        None => engine_verdict(bytes),
    }
}

/// The start function of the module read from `bytes`, if the module gets
/// that far and declares one, returns.
pub open spec fn start_returns_if_reached(bytes: Seq<u8>) -> bool {
    header_rejection(bytes) is None && declares_start(bytes) && !start_body_is_empty(bytes)
        && wasm_compile_outcome(bytes) is Ok && wasm_instantiate_outcome(bytes) is Ok
        ==> wasm_start_outcome(bytes) is Some
}

/// The view of a sandbox result.
pub open spec fn result_view(r: Result<(), String>) -> Result<(), Seq<char>> {
    match r {
        Ok(_) => Ok(()),
        Err(e) => Err(e@),
    }
}

impl BurnerSandbox {
    /// Executes raw WebAssembly bytes inside an isolated runtime with no
    /// imports. Input that is too short or lacks the magic header is refused
    /// before any engine is built. Otherwise the result is `Ok` exactly when
    /// the module compiles, instantiates and starts cleanly, and an error
    /// naming the failing stage with the engine's text when not. Modules
    /// whose start function never returns are left out.
    pub fn test_execute(wasm_bytes: &[u8]) -> (r: Result<(), String>)
        requires
            start_returns_if_reached(wasm_bytes@),
        ensures
            result_view(r) == sandbox_verdict(wasm_bytes@),
            header_rejection(wasm_bytes@) is None && wasm_compile_outcome(wasm_bytes@) is Ok
                && wasm_instantiate_outcome(wasm_bytes@) is Ok && (!declares_start(wasm_bytes@)
                || start_body_is_empty(wasm_bytes@)) ==> r is Ok,
    {
        if wasm_bytes.len() < 8 {
            let m = String::from_str("[MOAT2] WASM payload too small to be a valid module.");
            return Err(m);
        }
        if wasm_bytes[0] != 0x00u8 || wasm_bytes[1] != 0x61u8 || wasm_bytes[2] != 0x73u8
            || wasm_bytes[3] != 0x6du8 {
            assert(wasm_bytes@.subrange(0, 4) != wasm_magic()) by {
                let h = wasm_bytes@.subrange(0, 4);
                assert(h[0] == wasm_bytes@[0] && h[1] == wasm_bytes@[1] && h[2] == wasm_bytes@[2]
                    && h[3] == wasm_bytes@[3]);
            }
            let m = String::from_str("[MOAT2] Invalid WASM magic header. Module rejected.");
            return Err(m);
        }
        assert(wasm_bytes@.subrange(0, 4) =~= wasm_magic());
        let module = match module_new(wasm_bytes) {
            Ok(m) => m,
            Err(e) => {
                return Err(String::from_str("[MOAT2] WASM compile failed: ").concat(e.as_str()));
            },
        };
        let pre = match linker_instantiate(&module) {
            Ok(p) => p,
            Err(e) => {
                return Err(String::from_str("[MOAT2] Instantiation failed: ").concat(e.as_str()));
            },
        };
        match instance_start(pre) {
            Ok(_) => Ok(()),
            Err(e) => Err(String::from_str("[MOAT2] Module start/trap: ").concat(e.as_str())),
        }
    }

    /// Runs [`Self::test_execute`] on modules that declare no start
    /// function, whose run therefore always ends; `None` for a module that
    /// declares one, since whether its start function returns cannot be
    /// decided beforehand.
    pub fn test_execute_startless(wasm_bytes: &[u8]) -> (r: Option<Result<(), String>>)
        ensures
            r is None <==> (header_rejection(wasm_bytes@) is None && declares_start(wasm_bytes@)),
            r matches Some(v) ==> result_view(v) == sandbox_verdict(wasm_bytes@),
    {
        let header_ok = wasm_bytes.len() >= 8 && wasm_bytes[0] == 0x00u8 && wasm_bytes[1] == 0x61u8
            && wasm_bytes[2] == 0x73u8 && wasm_bytes[3] == 0x6du8;
        proof {
            if wasm_bytes@.len() >= 8 {
                let h = wasm_bytes@.subrange(0, 4);
                assert(h[0] == wasm_bytes@[0] && h[1] == wasm_bytes@[1] && h[2] == wasm_bytes@[2]
                    && h[3] == wasm_bytes@[3]);
                if header_ok {
                    assert(h =~= wasm_magic());
                }
            }
        }
        if header_ok && declares_start_section(wasm_bytes) {
            return None;
        }
        Some(Self::test_execute(wasm_bytes))
    }

    /// Returns a minimal valid module (magic and version, no body), used to
    /// confirm that the sandbox runtime itself works.
    pub fn minimal_valid_wasm() -> (v: Vec<u8>)
        ensures
            v@ == minimal_wasm_bytes(),
    {
        let v = vec![0x00u8, 0x61, 0x73, 0x6d, 0x01, 0x00, 0x00, 0x00];
        assert(v@ =~= minimal_wasm_bytes());
        v
    }
}

} // verus!
