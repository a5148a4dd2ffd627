//! Compilation of contract Wasm code into a module that instances can share.
use cosmwasm_vm::internals::{compile, make_compiling_engine};
use cosmwasm_vm::{Size, VmError};
use vstd::prelude::*;
use wasmer::{Engine, Module};

verus! {

#[verifier::external_type_specification]
#[verifier::external_body]
pub struct ExEngine(Engine);

#[verifier::external_type_specification]
#[verifier::external_body]
pub struct ExModule(Module);

#[verifier::external_type_specification]
#[verifier::external_body]
pub struct ExVmError(VmError);

#[verifier::external_type_specification]
#[verifier::external_body]
pub struct ExSize(Size);

/// A compiling engine that has not compiled anything yet.
///
/// CosmWasm's metering middleware may take part in one compilation only, and
/// clones of an engine share it; so this type has no `Clone`, is made only by
/// `compiling_engine`, and is used up by the one compilation it serves.
pub struct CompilingEngine {
    engine: Engine,
    limited: Ghost<bool>,
}

impl CompilingEngine {
    /// Whether the engine was made with a memory limit.
    pub closed spec fn limited(&self) -> bool {
        self.limited@
    }
}

/// A module compiled from Wasm code, with a record of the code it was
/// compiled from and of whether its engine had a memory limit.
pub struct CompiledModule {
    module: Module,
    source: Ghost<Seq<u8>>,
    limited: Ghost<bool>,
}

impl CompiledModule {
    /// The Wasm code the module was compiled from.
    pub closed spec fn source(&self) -> Seq<u8> {
        self.source@
    }

    /// Whether the engine that compiled the module had a memory limit.
    pub closed spec fn limited(&self) -> bool {
        self.limited@
    }

    /// The compiled module.
    pub fn module(&self) -> &Module {
        &self.module
    }

    /// Gives up the record and returns the compiled module.
    pub fn into_module(self) -> Module {
        self.module
    }
}

/// A compilation error, with a record of the Wasm code whose compilation
/// failed.
pub struct CompileError {
    error: VmError,
    source: Ghost<Seq<u8>>,
}

impl CompileError {
    /// The Wasm code whose compilation failed.
    pub closed spec fn source(&self) -> Seq<u8> {
        self.source@
    }

    /// The error the compiler reported.
    pub fn error(&self) -> &VmError {
        &self.error
    }

    /// Gives up the record and returns the compiler's error.
    pub fn into_error(self) -> VmError {
        self.error
    }
}

/// Calls `cosmwasm_vm::internals::make_compiling_engine`, which builds a
/// fresh Wasmer engine with CosmWasm's determinism and metering middlewares
/// and, when a limit is given, a memory limit.
///
/// Trusted: the engine has a memory limit exactly when one is given. Nothing
/// else is claimed of it.
#[verifier::external_body]
fn compiling_engine(memory_limit: Option<Size>) -> (engine: CompilingEngine)
    ensures
        engine.limited() == (memory_limit is Some),
{
    let limited = Ghost(memory_limit is Some);
    CompilingEngine { engine: make_compiling_engine(memory_limit), limited }
}

/// Calls `cosmwasm_vm::internals::compile` on `code` with the given engine,
/// which it uses up (the engine's metering may serve one compilation only).
///
/// Trusted: a module that comes back was compiled from exactly `code`, with
/// that engine, and an error that comes back is the one compiling exactly
/// `code` raised. Nothing is claimed of whether the code is accepted, of what
/// the module holds, or of which error it is: that is Wasmer's work.
#[verifier::external_body]
fn compile_code(engine: CompilingEngine, code: &[u8]) -> (res: Result<CompiledModule, CompileError>)
    ensures
        res matches Ok(m) ==> m.source() == code@ && m.limited() == engine.limited(),
        res matches Err(e) ==> e.source() == code@,
{
    match compile(&engine.engine, code) {
        Ok(module) => Ok(CompiledModule { module, source: Ghost(code@), limited: engine.limited }),
        Err(error) => Err(CompileError { error, source: Ghost(code@) }),
    }
}

/// Compiles Wasm `code` into a module with a compiling engine that has no
/// memory limit. Whatever comes back is about `code` itself: a module
/// compiled from it, or the error its compilation raised.
pub fn create_module(code: &[u8]) -> (res: Result<CompiledModule, CompileError>)
    ensures
        res matches Ok(m) ==> m.source() == code@ && !m.limited(),
        res matches Err(e) ==> e.source() == code@,
{
    let engine = compiling_engine(None);
    compile_code(engine, code)
}

} // verus!
