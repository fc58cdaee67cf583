use crate::error::AppError;
use vstd::prelude::*;
use vstd::string::StringExecFns;

verus! {

#[verifier::external_type_specification]
#[verifier::external_body]
pub struct ExEngine(wasmtime::Engine);

#[verifier::external_type_specification]
#[verifier::external_body]
pub struct ExComponent(wasmtime::component::Component);

#[verifier::external_type_specification]
#[verifier::external_body]
pub struct ExWasmtimeError(wasmtime::Error);

/// How component binaries are compiled.
#[derive(Clone, Copy, Debug, PartialEq, Eq, Structural)]
pub struct EngineSettings {
    /// Accept binaries in the component format.
    pub component_model: bool,
    /// Emit debug information for the compiled code.
    pub debug_info: bool,
    /// Let the code generator optimise for speed.
    pub optimize: bool,
}

impl EngineSettings {
    /// Component-aware, unoptimised and debug-annotated: faster to start and
    /// easier to diagnose.
    pub fn baseline() -> (r: EngineSettings)
        ensures
            r.component_model,
            r.debug_info,
            !r.optimize,
    {
        EngineSettings { component_model: true, debug_info: true, optimize: false }
    }
}

/// The first four bytes of every WebAssembly binary: `\0asm`.
pub open spec fn wasm_magic() -> Seq<u8> {
    seq![0u8, 97u8, 115u8, 109u8]
}

/// Whether `b` opens with the preamble of a component binary: the magic
/// bytes, a two-byte version, and the component layer `01 00`.
pub open spec fn has_component_preamble(b: Seq<u8>) -> bool {
    &&& b.len() >= 8
    &&& b.subrange(0, 4) == wasm_magic()
    &&& b[6] == 1u8
    &&& b[7] == 0u8
}

/// Checks the component preamble of `bytes`.
pub fn component_preamble(bytes: &[u8]) -> (r: bool)
    ensures
        r == has_component_preamble(bytes@),
{
    if bytes.len() < 8 {
        return false;
    }
    let ok = bytes[0] == 0 && bytes[1] == 97 && bytes[2] == 115 && bytes[3] == 109 && bytes[6] == 1
        && bytes[7] == 0;
    assert(ok == has_component_preamble(bytes@)) by {
        if ok {
            assert(bytes@.subrange(0, 4) =~= wasm_magic());
        } else if bytes@.subrange(0, 4) == wasm_magic() {
            assert(bytes@.subrange(0, 4)[0] == bytes@[0]);
            assert(bytes@.subrange(0, 4)[1] == bytes@[1]);
            assert(bytes@.subrange(0, 4)[2] == bytes@[2]);
            assert(bytes@.subrange(0, 4)[3] == bytes@[3]);
        }
    }
    ok
}

/// An upper bound on a LEB128 number of `n` bytes: `128^n`.
pub open spec fn leb_bound(n: nat) -> nat
    decreases n,
{
    if n == 0 {
        1
    } else {
        128 * leb_bound((n - 1) as nat)
    }
}

/// The unsigned LEB128 number that starts at `p`, read from at most `n`
/// bytes: its value and the position after it.
pub open spec fn leb(b: Seq<u8>, p: int, n: nat) -> Option<(int, int)>
    decreases n,
{
    if n == 0 || p < 0 || p >= b.len() {
        None
    } else if b[p] < 128 {
        Some((b[p] as int, p + 1))
    } else {
        match leb(b, p + 1, (n - 1) as nat) {
            None => None,
            Some((v, e)) => Some(((b[p] - 128) + 128 * v, e)),
        }
    }
}

/// Walks the sections of a component binary from `pos`, at most `n` of
/// them. `None` when a section header is malformed, a section runs past the
/// end of `b`, or the walk does not end exactly at the end of `b`; otherwise
/// whether a core module section (id 1) was met.
pub open spec fn sections_from(b: Seq<u8>, pos: int, n: nat) -> Option<bool>
    decreases n,
{
    if pos == b.len() {
        Some(false)
    } else if n == 0 || pos < 0 || pos > b.len() {
        None
    } else {
        match leb(b, pos + 1, 5) {
            None => None,
            Some((size, e)) => if e + size > b.len() {
                None
            } else {
                match sections_from(b, e + size, (n - 1) as nat) {
                    None => None,
                    Some(m) => Some(m || b[pos] == 1),
                }
            },
        }
    }
}

/// The top-level sections of the component binary `b`, after its preamble.
pub open spec fn sections(b: Seq<u8>) -> Option<bool> {
    sections_from(b, 8, b.len())
}

/// Whether the top-level sections of `b` follow one another exactly to the
/// end of `b`: no section is cut short.
pub open spec fn well_framed(b: Seq<u8>) -> bool {
    sections(b) is Some
}

/// Whether `b` is well framed and has a core module section at its top
/// level: the code that a function runs.
pub open spec fn has_core_module(b: Seq<u8>) -> bool {
    sections(b) == Some(true)
}

/// `o` with `found` joined to the answer.
pub open spec fn joined(o: Option<bool>, found: bool) -> Option<bool> {
    match o {
        None => None,
        Some(m) => Some(m || found),
    }
}

fn read_leb(b: &[u8], p: usize, n: u32) -> (r: Option<(u64, usize)>)
    requires
        n <= 5,
    ensures
        r is None <==> leb(b@, p as int, n as nat) is None,
        r matches Some((v, e)) ==> leb(b@, p as int, n as nat) == Some((v as int, e as int))
            && v < leb_bound(n as nat) && p < e <= b@.len(),
    decreases n,
{
    if n == 0 || p >= b.len() {
        return None;
    }
    let byte = b[p];
    if byte < 128 {
        assert(leb_bound(n as nat) == 128 * leb_bound((n - 1) as nat));
        assert(leb_bound(n as nat) >= 128) by {
            lemma_leb_bound_positive((n - 1) as nat);
        }
        return Some((byte as u64, p + 1));
    }
    match read_leb(b, p + 1, n - 1) {
        None => None,
        Some((v, e)) => {
            let lo = (byte - 128) as u64;
            proof {
                lemma_leb_bound_small((n - 1) as nat);
                let bd = leb_bound((n - 1) as nat);
                assert(lo + 128 * v < 128 * bd) by (nonlinear_arith)
                    requires
                        lo < 128,
                        v < bd,
                ;
            }
            Some((lo + 128 * v, e))
        },
    }
}

proof fn lemma_leb_bound_positive(n: nat)
    ensures
        leb_bound(n) >= 1,
    decreases n,
{
    if n > 0 {
        lemma_leb_bound_positive((n - 1) as nat);
    }
}

proof fn lemma_leb_bound_small(n: nat)
    requires
        n <= 4,
    ensures
        leb_bound(n) <= 268435456,
    decreases n,
{
    reveal_with_fuel(leb_bound, 5);
    if n > 0 {
        lemma_leb_bound_small((n - 1) as nat);
    }
}

/// Walks the top-level sections of a component binary: whether they are
/// well framed, and if so whether one of them is a core module.
pub fn scan_sections(bytes: &[u8]) -> (r: Option<bool>)
    ensures
        r == sections(bytes@),
{
    let mut pos: usize = 8;
    let mut n: usize = bytes.len();
    let mut found = false;
    while n > 0 && pos < bytes.len()
        invariant
            n <= bytes@.len(),
            joined(sections_from(bytes@, pos as int, n as nat), found) == sections(bytes@),
        decreases n,
    {
        match read_leb(bytes, pos + 1, 5) {
            None => {
                return None;
            },
            Some((size, e)) => {
                if size > (bytes.len() - e) as u64 {
                    return None;
                }
                found = found || bytes[pos] == 1;
                pos = e + size as usize;
                n = n - 1;
            },
        }
    }
    if pos == bytes.len() {
        Some(found)
    } else {
        None
    }
}

/// Whether some exported name is `exec`.
pub open spec fn exports_exec(names: Seq<String>) -> bool {
    exists|i: int| 0 <= i < names.len() && (#[trigger] names[i])@ == "exec"@
}

/// Looks for the export `exec` among the export names.
pub fn find_exec(names: &Vec<String>) -> (r: bool)
    ensures
        r == exports_exec(names@),
{
    let target = String::from_str("exec");
    let mut i: usize = 0;
    while i < names.len()
        invariant
            i <= names@.len(),
            target@ == "exec"@,
            forall|j: int| 0 <= j < i ==> (#[trigger] names@[j])@ != "exec"@,
        decreases names@.len() - i,
    {
        if names[i] == target {
            return true;
        }
        i = i + 1;
    }
    false
}

/// Relies on `wasmtime::Config` and `wasmtime::Engine::new`: builds an engine
/// with the given settings, or reports why the settings cannot be used.
#[verifier::external_body]
fn new_engine(settings: &EngineSettings) -> (r: Result<wasmtime::Engine, wasmtime::Error>) {
    let mut config = wasmtime::Config::new();
    config.wasm_component_model(settings.component_model);
    config.debug_info(settings.debug_info);
    config.cranelift_opt_level(
        if settings.optimize { wasmtime::OptLevel::Speed } else { wasmtime::OptLevel::None },
    );
    wasmtime::Engine::new(&config)
}

/// Relies on `wasmtime::component::Component::from_binary`: validates and
/// compiles a component binary, or reports why it is not one. With debug
/// information on, the compiler reads the first core module unconditionally
/// and panics on a component that has none, so such input is left out; only
/// well-framed components with a top-level core module are handed over.
#[verifier::external_body]
fn component_from_binary(engine: &wasmtime::Engine, bytes: &[u8]) -> (r: Result<
    wasmtime::component::Component,
    wasmtime::Error,
>)
    requires
        has_core_module(bytes@),
{
    wasmtime::component::Component::from_binary(engine, bytes)
}

/// Relies on `Component::component_type` and `types::Component::imports`: the
/// names of the component's imports, in the component's order.
#[verifier::external_body]
fn import_names(engine: &wasmtime::Engine, component: &wasmtime::component::Component) -> (r: Vec<
    String,
>) {
    component.component_type().imports(engine).map(|(name, _)| name.to_string()).collect()
}

/// Relies on `Component::component_type` and `types::Component::exports`: the
/// names of the component's exports, in the component's order.
#[verifier::external_body]
fn export_names(engine: &wasmtime::Engine, component: &wasmtime::component::Component) -> (r: Vec<
    String,
>) {
    component.component_type().exports(engine).map(|(name, _)| name.to_string()).collect()
}

/// A compiled artifact, with the engine it is bound to and the names of the
/// host interfaces it imports.
pub struct Compiled {
    pub engine: wasmtime::Engine,
    pub component: wasmtime::component::Component,
    pub imports: Vec<String>,
    pub exports: Vec<String>,
}

/// The message of a compile error for bytes that are not a component binary.
pub open spec fn not_a_component_text() -> Seq<char> {
    "not a component binary"@
}

/// Compiles the bytes of a function artifact. Bytes without the component
/// preamble (text, an empty file, a core module), bytes whose sections do not
/// follow one another exactly to the end (a file cut inside a section), and a
/// component without a core module at its top level give a compile error
/// before the compiler is called. Otherwise the compiler decides, and a
/// component that does not export `exec` gives a compile error too.
pub fn compile(settings: &EngineSettings, bytes: &[u8]) -> (r: Result<Compiled, AppError>)
    ensures
        !has_component_preamble(bytes@) ==> (r matches Err(AppError::Compile(m))
            && m@ == not_a_component_text()),
        has_component_preamble(bytes@) && !well_framed(bytes@) ==> (r matches Err(
            AppError::Compile(m),
        ) && m@ == "malformed or truncated section"@),
        has_component_preamble(bytes@) && well_framed(bytes@) && !has_core_module(bytes@) ==> (
        r matches Err(AppError::Compile(m)) && m@ == "component carries no core module"@),
        r is Ok ==> has_component_preamble(bytes@) && has_core_module(bytes@) && exports_exec(
            r->Ok_0.exports@,
        ),
        r is Err ==> r->Err_0 is Compile,
{
    if !component_preamble(bytes) {
        return Err(AppError::Compile(String::from_str("not a component binary")));
    }
    match scan_sections(bytes) {
        None => {
            return Err(AppError::Compile(String::from_str("malformed or truncated section")));
        },
        Some(false) => {
            return Err(AppError::Compile(String::from_str("component carries no core module")));
        },
        Some(true) => {},
    }
    let engine = match new_engine(settings) {
        Ok(e) => e,
        Err(e) => return Err(AppError::Compile(e.to_string())),
    };
    let component = match component_from_binary(&engine, bytes) {
        Ok(c) => c,
        Err(e) => return Err(AppError::Compile(e.to_string())),
    };
    let exports = export_names(&engine, &component);
    if !find_exec(&exports) {
        return Err(AppError::Compile(String::from_str("component does not export exec")));
    }
    let imports = import_names(&engine, &component);
    Ok(Compiled { engine, component, imports, exports })
}

} // verus!
