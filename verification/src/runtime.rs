//! The types of the WebAssembly runtime that pass through the library. Each
//! is opaque here: the library hands such values from one call of the runtime
//! to the next and never looks inside.

use vstd::prelude::*;

verus! {

/// `wasmer::Store`: the owner of everything that lives at run time.
#[verifier::external_type_specification]
#[verifier::external_body]
pub struct ExStore(wasmer::Store);

/// `wasmer::Module`: a compiled module.
#[verifier::external_type_specification]
#[verifier::external_body]
pub struct ExModule(wasmer::Module);

/// `wasmer::Instance`: an instantiated module.
#[verifier::external_type_specification]
#[verifier::external_body]
pub struct ExInstance(wasmer::Instance);

/// `wasmer::Imports`: what an instance is given for its imports.
#[verifier::external_type_specification]
#[verifier::external_body]
pub struct ExImports(wasmer::Imports);

/// `wasmer::Memory`: a handle to a linear memory.
#[verifier::external_type_specification]
#[verifier::external_body]
pub struct ExMemory(wasmer::Memory);

/// `wasmer::Function`: a handle to a function.
#[verifier::external_type_specification]
#[verifier::external_body]
pub struct ExFunction(wasmer::Function);

/// `wasmer::DeserializeError`: why an artifact could not be loaded.
#[verifier::external_type_specification]
#[verifier::external_body]
pub struct ExDeserializeError(wasmer::DeserializeError);

/// `wasmer::CompileError`: why a source module could not be compiled.
#[verifier::external_type_specification]
#[verifier::external_body]
pub struct ExCompileError(wasmer::CompileError);

/// `wasmer::SerializeError`: why a compiled module could not be serialized.
#[verifier::external_type_specification]
#[verifier::external_body]
pub struct ExSerializeError(wasmer::SerializeError);

/// `wasmer_wasi::WasiFunctionEnv`: the system interface offered to a module.
#[verifier::external_type_specification]
#[verifier::external_body]
pub struct ExWasiFunctionEnv(wasmer_wasi::WasiFunctionEnv);

/// `wasmer_wasi::Pipe`: an in-memory byte pipe.
#[verifier::external_type_specification]
#[verifier::external_body]
pub struct ExPipe(wasmer_wasi::Pipe);

} // verus!
