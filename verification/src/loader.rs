//! The two ways into the sandbox: with a precompiled artifact, which needs no
//! compiler at load time, and with source bytecode, which is compiled on the
//! spot. Either way the caller brings the result buffer and learns how many
//! bytes of it were written.

use crate::bridge::{
    delivered, delivered_len, hand_over, handed_over, handed_over_len, is_delivery,
    lemma_delivery_is_bounded,
};
use crate::decimal::decimal;
use crate::sandbox::{run, SandboxSession};
use crate::stage::{Failure, Stage};
use vstd::prelude::*;
use wasmer::{CompileError, DeserializeError, Module, SerializeError, Store};

verus! {

/// Why no artifact came out of a source module.
#[derive(Debug)]
pub enum ArtifactError {
    /// The source did not compile.
    Compilation(CompileError),
    /// The compiled module could not be serialized.
    Serialization(SerializeError),
}

/// The sixteen bytes with which every artifact begins: the characters
/// `wasmer-universal`.
pub open spec fn artifact_signature() -> Seq<u8> {
    seq![
        0x77u8, 0x61u8, 0x73u8, 0x6du8, 0x65u8, 0x72u8, 0x2du8, 0x75u8,
        0x6eu8, 0x69u8, 0x76u8, 0x65u8, 0x72u8, 0x73u8, 0x61u8, 0x6cu8,
    ]
}

/// Whether `bytes` begin as an artifact does. A loader takes nothing else for
/// an artifact; bytes cut off within the signature are none.
pub open spec fn spec_is_artifact(bytes: Seq<u8>) -> bool {
    bytes.len() >= 16 && bytes.subrange(0, 16) == artifact_signature()
}

/// Whether `bytes` begin as an artifact does.
pub fn is_artifact(bytes: &[u8]) -> (framed: bool)
    ensures
        framed == spec_is_artifact(bytes@),
{
    let signature: [u8; 16] = [
        0x77, 0x61, 0x73, 0x6d, 0x65, 0x72, 0x2d, 0x75,
        0x6e, 0x69, 0x76, 0x65, 0x72, 0x73, 0x61, 0x6c,
    ];
    if bytes.len() < 16 {
        return false;
    }
    let mut i: usize = 0;
    while i < 16
        invariant
            i <= 16,
            bytes@.len() >= 16,
            signature@ == artifact_signature(),
            forall|j: int| 0 <= j < i ==> bytes@[j] == artifact_signature()[j],
        decreases 16 - i,
    {
        if bytes[i] != signature[i] {
            assert(bytes@.subrange(0, 16)[i as int] != artifact_signature()[i as int]);
            return false;
        }
        i += 1;
    }
    assert(bytes@.subrange(0, 16) =~= artifact_signature());
    true
}

/// Calls `Store::new` of wasmer on `Cranelift::default()`: a store whose
/// engine compiles for the host.
#[verifier::external_body]
fn jit_store() -> Store {
    Store::new(wasmer::Cranelift::default())
}

/// Calls `Module::new` of wasmer, which validates and compiles `code` with
/// the store's engine. Nothing is claimed of the result.
#[verifier::external_body]
fn compile_module(store: &Store, code: &[u8]) -> Result<Module, CompileError> {
    Module::new(store, code)
}

/// Calls `Module::serialize` of wasmer and copies the bytes out. What it
/// returns on `Ok` is built by `ArtifactBuild::serialize` of wasmer-compiler,
/// which writes its `MAGIC_HEADER`, the sixteen bytes `wasmer-universal`,
/// ahead of everything else. No more is claimed of the bytes, and nothing of
/// when the call succeeds.
#[verifier::external_body]
fn serialize_module(module: &Module) -> (serialized: Result<Vec<u8>, SerializeError>)
    ensures
        serialized matches Ok(bytes) ==> spec_is_artifact(bytes@),
{
    match module.serialize() {
        Ok(bytes) => Ok(bytes.to_vec()),
        Err(error) => Err(error),
    }
}

/// Compiles `source` with the engine of `store`, and so for the target and
/// under the memory policy that the store was made with, and serializes what
/// comes out. The bytes are the artifact, whole, and begin with the artifact
/// signature; the caller puts them where they belong. Whether the source
/// compiles and the module serializes is the runtime's to say.
pub fn compile_artifact(store: &Store, source: &[u8]) -> (artifact: Result<
    Vec<u8>,
    ArtifactError,
>)
    ensures
        artifact matches Ok(bytes) ==> spec_is_artifact(bytes@),
{
    let module = match compile_module(store, source) {
        Ok(module) => module,
        Err(error) => { return Err(ArtifactError::Compilation(error)); },
    };
    match serialize_module(&module) {
        Ok(bytes) => Ok(bytes),
        Err(error) => Err(ArtifactError::Serialization(error)),
    }
}

/// Whether `output` is what a run with the argument `n` captured: all that
/// the module had written to its standard output when its entry point had
/// run, in a session that gave the module `n` in decimal notation as its one
/// argument.
pub open spec fn is_captured(n: u32, output: Seq<u8>) -> bool {
    exists|session: SandboxSession|
        session.wf() && session.spec_stage() == Stage::Started && session.spec_argument()
            == decimal(n as nat) && output == #[trigger] session.spec_output()
}

/// Whether `stage` and `output` are how a run with the argument `n` can end:
/// in a terminal stage, with nothing where the run failed, and with what was
/// captured where it did not.
pub open spec fn is_outcome(n: u32, stage: Stage, output: Seq<u8>) -> bool {
    &&& stage.spec_is_terminal()
    &&& stage is Failed ==> output == Seq::<u8>::empty()
    &&& stage is OutputCaptured ==> is_captured(n, output)
}

/// Whether a caller's buffer went from `before` to `after`, with `written`
/// reported, as it does where the output of a run with the argument `n` is
/// handed over: bytes were written only where such a run captured them, and
/// they are that run's whole output at the front of the buffer.
pub open spec fn is_delivery_of_run(n: u32, before: Seq<u8>, after: Seq<u8>, written: u32) -> bool {
    &&& is_delivery(before, after, written)
    &&& written > 0 ==> exists|output: Seq<u8>|
        #[trigger] is_captured(n, output) && written == delivered_len(output, before.len())
            && after == delivered(output, before)
}

/// Runs a loaded module with the argument `n` and gives the stage in which
/// the session ended and the bytes it captured.
pub fn run_to_end(store: Store, module: &Module, n: u32) -> (outcome: (Stage, Vec<u8>))
    ensures
        is_outcome(n, outcome.0, outcome.1@),
        outcome.0 != Stage::Failed(Failure::Deserialize),
{
    let mut buf = Vec::<u8>::new();
    let stage = run(store, module, n, &mut buf);
    assert(buf@ =~= Seq::<u8>::empty() + buf@);
    proof {
        if stage is OutputCaptured {
            let session = choose|session: SandboxSession|
                session.wf() && session.spec_stage() == Stage::Started && session.spec_argument()
                    == decimal(n as nat) && buf@ == Seq::<u8>::empty()
                    + #[trigger] session.spec_output();
            assert(buf@ =~= session.spec_output());
        }
    }
    (stage, buf)
}

/// Runs what compiling a source module in `store` gave, with the argument
/// `n`. Source that did not compile ends the session in
/// `Failed(Deserialize)`, with nothing captured.
pub fn run_compiled(store: Store, compiled: Result<Module, CompileError>, n: u32) -> (outcome: (
    Stage,
    Vec<u8>,
))
    ensures
        is_outcome(n, outcome.0, outcome.1@),
        compiled is Err ==> outcome.0 == Stage::Failed(Failure::Deserialize),
{
    match compiled {
        Ok(module) => run_to_end(store, &module, n),
        Err(_) => (Stage::Created.after(false), Vec::new()),
    }
}

/// Compiles the source bytecode `code` for the host and runs it with the
/// argument `n`. Source that does not compile ends the session in
/// `Failed(Deserialize)`.
pub fn run_jit(code: &[u8], n: u32) -> (outcome: (Stage, Vec<u8>))
    ensures
        is_outcome(n, outcome.0, outcome.1@),
{
    let store = jit_store();
    let compiled = compile_module(&store, code);
    run_compiled(store, compiled, n)
}

/// Runs a precompiled artifact with the argument `n`. `artifact` is what
/// deserializing the artifact in `store` gave; to deserialize is an operation
/// that the runtime marks unsafe, so the caller performs it. An artifact that
/// did not deserialize ends the session in `Failed(Deserialize)`.
pub fn run_loaded(store: Store, artifact: Result<Module, DeserializeError>, n: u32) -> (outcome: (
    Stage,
    Vec<u8>,
))
    ensures
        is_outcome(n, outcome.0, outcome.1@),
        artifact is Err ==> outcome.0 == Stage::Failed(Failure::Deserialize),
{
    match artifact {
        Ok(module) => run_to_end(store, &module, n),
        Err(_) => (Stage::Created.after(false), Vec::new()),
    }
}

/// What `hand_over` does with the outcome of a run is a delivery of that run.
pub proof fn lemma_outcome_is_delivered(n: u32, stage: Stage, output: Seq<u8>, before: Seq<u8>)
    requires
        is_outcome(n, stage, output),
    ensures
        is_delivery_of_run(
            n,
            before,
            handed_over(stage, output, before),
            handed_over_len(stage, output, before.len()) as u32,
        ),
{
    lemma_delivery_is_bounded(output, before);
    let written = handed_over_len(stage, output, before.len());
    if written > 0 {
        assert(is_captured(n, output));
    }
}

/// Runs a loaded module with the argument `n` and hands its output over to
/// `result`. Bytes are written only where the run captured output that fits
/// `result`, and then they are all of it. Zero stands for no output: the
/// module wrote nothing, the run failed, or the output has no room in
/// `result`; `result` is then as it was.
pub fn run_into(store: Store, module: &Module, n: u32, result: &mut [u8]) -> (written: u32)
    ensures
        is_delivery_of_run(n, old(result)@, final(result)@, written),
{
    let outcome = run_to_end(store, module, n);
    proof {
        lemma_outcome_is_delivered(n, outcome.0, outcome.1@, result@);
    }
    hand_over(outcome.0, outcome.1.as_slice(), result)
}

/// Runs what compiling a source module in `store` gave, with the argument
/// `n`, and writes what the module printed to the front of `result`. Bytes
/// are written only where the run captured output that fits `result`, and
/// then they are all of it. Source that did not compile gives nothing:
/// zero is returned and `result` is as it was.
pub fn load_compiled(store: Store, compiled: Result<Module, CompileError>, n: u32, result: &mut [
    u8
]) -> (written: u32)
    ensures
        is_delivery_of_run(n, old(result)@, final(result)@, written),
        compiled is Err ==> written == 0 && final(result)@ == old(result)@,
{
    match compiled {
        Ok(module) => run_into(store, &module, n, result),
        Err(_) => hand_over(Stage::Created.after(false), &[], result),
    }
}

/// Compiles the source bytecode `code` for the host, runs it with the
/// argument `n` and writes what it printed to the front of `result`. The
/// count returned is the number of bytes written. Bytes are written only
/// where the run captured output that fits `result`, and then they are all
/// of it. Zero stands for no output: the source did not compile, the run
/// failed, the module wrote nothing, or its output has no room in `result`;
/// `result` is then as it was.
pub fn load_jit(code: &[u8], n: u32, result: &mut [u8]) -> (written: u32)
    ensures
        is_delivery_of_run(n, old(result)@, final(result)@, written),
{
    let store = jit_store();
    let compiled = compile_module(&store, code);
    load_compiled(store, compiled, n, result)
}

/// Runs a precompiled artifact with the argument `n` and writes what it
/// printed to the front of `result`. `artifact` is what deserializing the
/// artifact in `store` gave; to deserialize is an operation that the runtime
/// marks unsafe, so the caller performs it. The count returned is the number
/// of bytes written. Bytes are written only where the run captured output
/// that fits `result`, and then they are all of it. Zero stands for no
/// output: the artifact did not deserialize, the run failed, the module wrote
/// nothing, or its output has no room in `result`; `result` is then as it
/// was.
pub fn load(store: Store, artifact: Result<Module, DeserializeError>, n: u32, result: &mut [
    u8
]) -> (written: u32)
    ensures
        is_delivery_of_run(n, old(result)@, final(result)@, written),
        artifact is Err ==> written == 0 && final(result)@ == old(result)@,
{
    match artifact {
        Ok(module) => run_into(store, &module, n, result),
        Err(_) => hand_over(Stage::Created.after(false), &[], result),
    }
}

} // verus!
