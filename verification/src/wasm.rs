//! Extraction of a function's raw descriptor from a WebAssembly module.
//!
//! A module built with wasm-bindgen exports, for its one public function
//! `f`, a companion `__wbindgen_describe_f`. Running the companion makes the
//! module call the host import `__wbindgen_describe` once per descriptor
//! byte. This file instantiates the module with such an import, picks the
//! companion among the exports, runs it and hands back what was recorded.
//!
//! What the engine reports of a module is gathered as plain values in an
//! [`EngineReport`]; [`described`] decides from the report what extraction
//! yields.
//!
//! The private helpers of this file are the calls into the WebAssembly
//! engine. The engine's handles are only good for the store they were made
//! in, so a store and the handles made in it are kept together, in
//! `Engine`, `Loaded` and `Companion`, and the helpers take them together.

use crate::text::{has_prefix, without_head};
use vstd::prelude::*;
use vstd::string::*;
use wasmer::{FunctionEnv, FunctionEnvMut, Imports, Instance, Module, RuntimeError, Store};

verus! {

#[verifier::external_type_specification]
#[verifier::external_body]
pub struct ExStore(Store);

#[verifier::external_type_specification]
#[verifier::external_body]
pub struct ExModule(Module);

#[verifier::external_type_specification]
#[verifier::external_body]
pub struct ExInstance(Instance);

#[verifier::external_type_specification]
#[verifier::external_body]
pub struct ExImports(Imports);

#[verifier::external_type_specification]
#[verifier::external_body]
pub struct ExFunction(wasmer::Function);

#[verifier::external_type_specification]
#[verifier::external_body]
#[verifier::reject_recursive_types(T)]
pub struct ExFunctionEnv<T>(FunctionEnv<T>);

/// Why a module yielded no descriptor.
#[derive(Debug, PartialEq, Eq, Structural, Clone, Copy)]
pub enum WasmError {
    /// The module could not be instantiated with the descriptor imports.
    LoadingInstance,
    /// The bytes are not a WebAssembly module.
    InvalidModule,
    /// No export is a descriptor companion, or the companion is no function.
    FunctionNotFound,
    /// Running the companion failed.
    CorruptFunctionDesc,
    /// More than one export is a descriptor companion.
    MultipleExports,
}

impl WasmError {
    /// The text shown to a caller for this error.
    pub open spec fn message_spec(self) -> Seq<char> {
        match self {
            WasmError::LoadingInstance => "could not parse wasm instance"@,
            WasmError::InvalidModule => "corrupt wasm module"@,
            WasmError::FunctionNotFound => "no function were found in binary"@,
            WasmError::CorruptFunctionDesc => "corrupt function signature"@,
            WasmError::MultipleExports =>
                "multiple functions were exported, only export one function"@,
        }
    }

    /// Returns the text shown to a caller for this error.
    pub fn message(&self) -> (text: String)
        ensures
            text@ == self.message_spec(),
    {
        match self {
            WasmError::LoadingInstance => String::from_str("could not parse wasm instance"),
            WasmError::InvalidModule => String::from_str("corrupt wasm module"),
            WasmError::FunctionNotFound => String::from_str("no function were found in binary"),
            WasmError::CorruptFunctionDesc => String::from_str("corrupt function signature"),
            WasmError::MultipleExports => String::from_str(
                "multiple functions were exported, only export one function",
            ),
        }
    }
}

/// The prefix that marks an export as a descriptor companion.
pub open spec fn describe_prefix() -> Seq<char> {
    "__wbindgen_describe_"@
}

/// Whether an export of this name is a descriptor companion.
pub open spec fn is_describe_export(name: Seq<char>) -> bool {
    describe_prefix().is_prefix_of(name)
}

/// The function name that a companion's export name carries.
pub open spec fn described_name(export: Seq<char>) -> Seq<char> {
    export.skip(describe_prefix().len() as int)
}

/// The outcome of looking for the one companion among `names`: its function
/// name if exactly one name is a companion, `FunctionNotFound` if none is,
/// `MultipleExports` if two or more are.
pub open spec fn select_export_spec(names: Seq<Seq<char>>) -> Result<Seq<char>, WasmError> {
    if forall|i: int| 0 <= i < names.len() ==> !is_describe_export(#[trigger] names[i]) {
        Err(WasmError::FunctionNotFound)
    } else {
        let first = choose|i: int|
            0 <= i < names.len() && is_describe_export(#[trigger] names[i]) && forall|j: int|
                0 <= j < i ==> !is_describe_export(#[trigger] names[j]);
        if forall|j: int| first < j < names.len() ==> !is_describe_export(#[trigger] names[j]) {
            Ok(described_name(names[first]))
        } else {
            Err(WasmError::MultipleExports)
        }
    }
}

/// The names of a list of exports as sequences of characters.
pub open spec fn names_view(names: Seq<String>) -> Seq<Seq<char>> {
    Seq::new(names.len(), |i: int| names[i]@)
}

/// Looks for the one descriptor companion among the export names of a module
/// and returns the name of the function it describes.
pub fn select_export(names: &Vec<String>) -> (found: Result<String, WasmError>)
    ensures
        match select_export_spec(names_view(names@)) {
            Ok(name) => found matches Ok(got) && got@ == name,
            Err(e) => found == Err::<String, WasmError>(e),
        },
{
    let prefix = "__wbindgen_describe_";
    let ghost all = names_view(names@);
    let mut first: Option<usize> = None;
    let mut i: usize = 0;
    while i < names.len()
        invariant
            0 <= i <= names.len(),
            all == names_view(names@),
            prefix@ == describe_prefix(),
            match first {
                Some(f) => {
                    &&& f < i
                    &&& is_describe_export(all[f as int])
                    &&& forall|j: int| 0 <= j < i && j != f ==> !is_describe_export(#[trigger] all[j])
                },
                None => forall|j: int| 0 <= j < i ==> !is_describe_export(#[trigger] all[j]),
            },
        decreases names.len() - i,
    {
        let name = names[i].as_str();
        assert(name@ == all[i as int]);
        if has_prefix(name, prefix) {
            match first {
                Some(f) => {
                    proof {
                        lemma_two_companions(all, f as int, i as int);
                    }
                    return Err(WasmError::MultipleExports);
                },
                None => {
                    first = Some(i);
                },
            }
        }
        i += 1;
    }
    match first {
        Some(f) => {
            let export = names[f].as_str();
            assert(export@ == all[f as int]);
            proof {
                lemma_one_companion(all, f as int);
            }
            Ok(without_head(export, prefix.unicode_len()))
        },
        None => Err(WasmError::FunctionNotFound),
    }
}

/// With exactly one companion, at `at`, the search yields its function name.
proof fn lemma_one_companion(names: Seq<Seq<char>>, at: int)
    requires
        0 <= at < names.len(),
        is_describe_export(names[at]),
        forall|j: int| 0 <= j < names.len() && j != at ==> !is_describe_export(#[trigger] names[j]),
    ensures
        select_export_spec(names) == Ok::<Seq<char>, WasmError>(described_name(names[at])),
{
    let first = choose|i: int|
        0 <= i < names.len() && is_describe_export(#[trigger] names[i]) && forall|j: int|
            0 <= j < i ==> !is_describe_export(#[trigger] names[j]);
    assert(first == at);
}

/// With companions at two places, the search reports several exports.
proof fn lemma_two_companions(names: Seq<Seq<char>>, a: int, b: int)
    requires
        0 <= a < b < names.len(),
        is_describe_export(names[a]),
        is_describe_export(names[b]),
        forall|j: int| 0 <= j < a ==> !is_describe_export(#[trigger] names[j]),
    ensures
        select_export_spec(names) == Err::<Seq<char>, WasmError>(WasmError::MultipleExports),
{
    let first = choose|i: int|
        0 <= i < names.len() && is_describe_export(#[trigger] names[i]) && forall|j: int|
            0 <= j < i ==> !is_describe_export(#[trigger] names[j]);
    assert(first == a);
}

/// Appends one descriptor byte to the accumulator.
pub fn record_byte(acc: &mut Vec<u8>, x: u8)
    ensures
        final(acc)@ == old(acc)@.push(x),
{
    acc.push(x);
}

/// The place of an import that the host offers to a module: its namespace
/// and its name.
#[derive(Debug, Clone, Copy)]
pub struct ImportName {
    pub namespace: &'static str,
    pub name: &'static str,
}

/// The import through which a module emits its descriptor bytes.
pub fn describe_import_name() -> (import: ImportName)
    ensures
        import.namespace@ == "__wbindgen_placeholder__"@,
        import.name@ == "__wbindgen_describe"@,
{
    ImportName { namespace: "__wbindgen_placeholder__", name: "__wbindgen_describe" }
}

/// The first of the two imports that a module must not reach while it
/// describes itself.
pub fn grow_import_name() -> (import: ImportName)
    ensures
        import.namespace@ == "__wbindgen_externref_xform__"@,
        import.name@ == "__wbindgen_externref_table_grow"@,
{
    ImportName {
        namespace: "__wbindgen_externref_xform__",
        name: "__wbindgen_externref_table_grow",
    }
}

/// The second of the two imports that a module must not reach while it
/// describes itself.
pub fn set_null_import_name() -> (import: ImportName)
    ensures
        import.namespace@ == "__wbindgen_externref_xform__"@,
        import.name@ == "__wbindgen_externref_table_set_null"@,
{
    ImportName {
        namespace: "__wbindgen_externref_xform__",
        name: "__wbindgen_externref_table_set_null",
    }
}

/// The message with which an import that must not be reached refuses a
/// call.
pub fn refusal(import: ImportName) -> (message: String)
    ensures
        message@ == "call to "@ + import.name@,
{
    String::from_str("call to ").concat(import.name)
}

/// The name under which a module exports the descriptor companion of the
/// function `name`.
pub fn companion_export(name: &str) -> (export: String)
    ensures
        export@ == describe_prefix() + name@,
{
    String::from_str("__wbindgen_describe_").concat(name)
}

/// What the engine reported of a module, step by step. A step that was not
/// reached, because an earlier one failed, stands as `false` or empty.
#[derive(Debug, Clone, PartialEq, Eq)]
pub struct EngineReport {
    /// The bytes compiled to a module.
    pub compiled: bool,
    /// The module was instantiated with the host's imports.
    pub instantiated: bool,
    /// The names of the instance's exports.
    pub names: Vec<String>,
    /// The instance exports a function under the companion's name.
    pub companion_is_function: bool,
    /// The companion ran and returned without a trap.
    pub returned: bool,
    /// The bytes that the companion emitted.
    pub recorded: Vec<u8>,
}

/// Whether a report is one that taking a module through the engine step by
/// step can give: no step is reported done unless the steps before it are,
/// the companion is only looked for where the export names select one, and
/// what an unreached step would have filled is empty.
pub open spec fn staged(report: EngineReport) -> bool {
    &&& report.instantiated ==> report.compiled
    &&& !report.instantiated ==> report.names@.len() == 0
    &&& report.companion_is_function ==> report.instantiated && select_export_spec(
        names_view(report.names@),
    ) is Ok
    &&& report.returned ==> report.companion_is_function
    &&& !report.returned ==> report.recorded@.len() == 0
}

/// What extraction yields for a module of which the engine reported
/// `report`: the first step that failed decides the error; with all steps
/// done, the function's name and the recorded bytes are the result.
pub open spec fn description_of(report: EngineReport) -> Result<(Seq<char>, Seq<u8>), WasmError> {
    if !report.compiled {
        Err(WasmError::InvalidModule)
    } else if !report.instantiated {
        Err(WasmError::LoadingInstance)
    } else {
        match select_export_spec(names_view(report.names@)) {
            Err(e) => Err(e),
            Ok(name) => if !report.companion_is_function {
                Err(WasmError::FunctionNotFound)
            } else if !report.returned {
                Err(WasmError::CorruptFunctionDesc)
            } else {
                Ok((name, report.recorded@))
            },
        }
    }
}

/// Whether `found` is the result `expected`.
pub open spec fn yields(
    found: Result<(String, Vec<u8>), WasmError>,
    expected: Result<(Seq<char>, Seq<u8>), WasmError>,
) -> bool {
    match expected {
        Ok((name, bytes)) => found matches Ok((got_name, got_bytes)) && got_name@ == name
            && got_bytes@ == bytes,
        Err(e) => found == Err::<(String, Vec<u8>), WasmError>(e),
    }
}

/// Decides what extraction yields from what the engine reported of the
/// module.
///
/// Bytes that did not compile give `InvalidModule`; a module that did not
/// instantiate gives `LoadingInstance`; among the export names exactly one
/// must be a companion, as [`select_export`] says; a companion that is no
/// function gives `FunctionNotFound`; a companion that trapped gives
/// `CorruptFunctionDesc`. Otherwise the result is the name of the described
/// function with the recorded bytes.
pub fn described(report: EngineReport) -> (found: Result<(String, Vec<u8>), WasmError>)
    ensures
        yields(found, description_of(report)),
{
    if !report.compiled {
        return Err(WasmError::InvalidModule);
    }
    if !report.instantiated {
        return Err(WasmError::LoadingInstance);
    }
    let name = match select_export(&report.names) {
        Ok(name) => name,
        Err(e) => {
            return Err(e);
        },
    };
    if !report.companion_is_function {
        return Err(WasmError::FunctionNotFound);
    }
    if !report.returned {
        return Err(WasmError::CorruptFunctionDesc);
    }
    Ok((name, report.recorded))
}

/// A store of the engine with what was made in it for a module that is to
/// describe itself: the accumulator of descriptor bytes and the imports
/// offered to the module.
struct Engine {
    store: Store,
    accumulator: FunctionEnv<Vec<u8>>,
    imports: Imports,
}

/// An engine with the instance of a module that was made in its store.
struct Loaded {
    engine: Engine,
    instance: Instance,
}

/// A loaded module with its descriptor companion, a function of its
/// instance.
struct Companion {
    loaded: Loaded,
    function: wasmer::Function,
}

/// `wasmer::Store::default`: a fresh store with the default engine. Nothing
/// is claimed of it.
#[verifier::external_body]
fn new_store() -> Store {
    Store::default()
}

/// `wasmer::FunctionEnv::new`: places an empty byte accumulator in the store
/// and returns the handle to it.
#[verifier::external_body]
fn new_accumulator(store: &mut Store) -> FunctionEnv<Vec<u8>> {
    FunctionEnv::new(store, Vec::new())
}

/// `wasmer::Imports::new`: an empty import object.
#[verifier::external_body]
fn new_imports() -> Imports {
    Imports::new()
}

/// `wasmer::Module::new`: compiles `bytes` for the engine. `None` stands for
/// any compile error; nothing is claimed of the module. A module belongs to
/// no store.
#[verifier::external_body]
fn compile_module(engine: &Engine, bytes: &[u8]) -> Option<Module> {
    Module::new(&engine.store, bytes).ok()
}

/// `wasmer::Function::new_typed_with_env`: a host function of one `u8`
/// argument, made in the engine's store, that hands each byte it is called
/// with to `record_byte` on the engine's accumulator.
#[verifier::external_body]
fn describe_import(engine: &mut Engine) -> wasmer::Function {
    wasmer::Function::new_typed_with_env(
        &mut engine.store,
        &engine.accumulator,
        |mut env: FunctionEnvMut<Vec<u8>>, x: u8| record_byte(env.data_mut(), x),
    )
}

/// `wasmer::Function::new_typed`: a host function from `i32` to `i32`, made
/// in the engine's store, that traps with `message` whenever the module
/// calls it.
#[verifier::external_body]
fn refusing_grow_import(engine: &mut Engine, message: String) -> wasmer::Function {
    wasmer::Function::new_typed(
        &mut engine.store,
        move |_x: i32| -> Result<i32, RuntimeError> { Err(RuntimeError::new(message.clone())) },
    )
}

/// `wasmer::Function::new_typed`: a host function of one `i32` argument and
/// no result, made in the engine's store, that traps with `message` whenever
/// the module calls it.
#[verifier::external_body]
fn refusing_set_null_import(engine: &mut Engine, message: String) -> wasmer::Function {
    wasmer::Function::new_typed(
        &mut engine.store,
        move |_x: i32| -> Result<(), RuntimeError> { Err(RuntimeError::new(message.clone())) },
    )
}

/// `wasmer::Imports::define`: binds `function` to the place `at` in the
/// engine's import object. A function of another store makes a later
/// instantiation fail; it does not make this call fail.
#[verifier::external_body]
fn define_import(engine: &mut Engine, at: ImportName, function: wasmer::Function) {
    engine.imports.define(at.namespace, at.name, function)
}

/// `wasmer::Instance::new`: instantiates the module in the engine's store
/// with the engine's imports, which runs the module's start function if it
/// has one. `None` stands for any link or start error; nothing is claimed
/// of the instance. The call returns when the start function does.
#[verifier::external_body]
fn instantiate(engine: Engine, module: &Module) -> Option<Loaded> {
    let mut engine = engine;
    match Instance::new(&mut engine.store, module, &engine.imports) {
        Ok(instance) => Some(Loaded { engine, instance }),
        Err(_) => None,
    }
}

/// `wasmer::Exports::iter` on the instance's exports: the export names in
/// the order the instance lists them. Nothing is claimed of the names.
#[verifier::external_body]
fn export_names(loaded: &Loaded) -> Vec<String> {
    loaded.instance.exports.iter().map(|(name, _)| name.clone()).collect()
}

/// `wasmer::Exports::get_function`: the function that the instance exports
/// as `name`, kept with its instance, or `None` where the instance exports
/// no function of that name.
#[verifier::external_body]
fn find_companion(loaded: Loaded, name: &str) -> Option<Companion> {
    match loaded.instance.exports.get_function(name).ok().cloned() {
        Some(function) => Some(Companion { loaded, function }),
        None => None,
    }
}

/// `wasmer::Function::call` with no arguments: runs the companion in the
/// store of its instance and tells whether it returned without a trap. The
/// call returns when the companion does: one that never halts keeps it from
/// returning.
#[verifier::external_body]
fn run_companion(companion: &mut Companion) -> bool {
    companion.function.call(&mut companion.loaded.engine.store, &[]).is_ok()
}

/// `wasmer::FunctionEnv::as_ref`: a copy of the bytes that the accumulator
/// of the companion's engine holds now. Nothing is claimed of them.
#[verifier::external_body]
fn accumulated(companion: &Companion) -> Vec<u8> {
    companion.loaded.engine.accumulator.as_ref(&companion.loaded.engine.store).clone()
}

impl Engine {
    /// A fresh store with an empty accumulator in it and, under their
    /// names, the three imports of a module that describes itself.
    fn new() -> Engine {
        let mut store = new_store();
        let accumulator = new_accumulator(&mut store);
        let mut engine = Engine { store, accumulator, imports: new_imports() };
        let describe = describe_import(&mut engine);
        define_import(&mut engine, describe_import_name(), describe);
        let grow = refusing_grow_import(&mut engine, refusal(grow_import_name()));
        define_import(&mut engine, grow_import_name(), grow);
        let set_null = refusing_set_null_import(&mut engine, refusal(set_null_import_name()));
        define_import(&mut engine, set_null_import_name(), set_null);
        engine
    }
}

/// Takes the module in `bytes` through the engine, step by step, and
/// reports how far it came: compiled, instantiated, its export names, its
/// companion found, the companion run, the bytes recorded.
fn examine(bytes: &[u8]) -> (report: EngineReport)
    ensures
        staged(report),
{
    let mut report = EngineReport {
        compiled: false,
        instantiated: false,
        names: Vec::new(),
        companion_is_function: false,
        returned: false,
        recorded: Vec::new(),
    };
    let engine = Engine::new();
    let module = match compile_module(&engine, bytes) {
        Some(module) => module,
        None => {
            return report;
        },
    };
    report.compiled = true;
    let loaded = match instantiate(engine, &module) {
        Some(loaded) => loaded,
        None => {
            return report;
        },
    };
    report.instantiated = true;
    report.names = export_names(&loaded);
    let name = match select_export(&report.names) {
        Ok(name) => name,
        Err(_) => {
            return report;
        },
    };
    let export = companion_export(name.as_str());
    let mut companion = match find_companion(loaded, export.as_str()) {
        Some(companion) => companion,
        None => {
            return report;
        },
    };
    report.companion_is_function = true;
    if !run_companion(&mut companion) {
        return report;
    }
    report.returned = true;
    report.recorded = accumulated(&companion);
    report
}

/// Runs the descriptor companion of the module in `bytes` and returns the
/// name of the described function with the raw descriptor bytes.
///
/// The module is taken through the WebAssembly engine with the imports
/// [`describe_import_name`], [`grow_import_name`] and
/// [`set_null_import_name`]; the latter two trap when reached. What the
/// engine makes of a module is the engine's to decide, so what is promised
/// here is that the result is the one that [`described`] gives for a report
/// of the engine's steps, taken in order. A companion that never halts is
/// not stopped.
pub fn extract_description(bytes: &[u8]) -> (found: Result<(String, Vec<u8>), WasmError>)
    ensures
        exists|report: EngineReport|
            staged(report) && yields(found, #[trigger] description_of(report)),
{
    let report = examine(bytes);
    let found = described(report);
    assert(staged(report) && yields(found, description_of(report)));
    found
}

} // verus!
