//! The sandbox runner: one execution of one module under a restricted system
//! interface.
//!
//! The module is given a single argument, the number `n` in decimal notation,
//! and a standard output that is an in-memory pipe. A session instantiates
//! the module, attaches the module's memory to the environment, runs the
//! entry point and reads the pipe back, in this order. A step that fails ends
//! the session, and a session that failed hands out nothing.

use crate::decimal::{decimal, decimal_string};
use crate::guest::{import_names, may_run, spec_may_run};
use crate::limiter::WASM_MAX_PAGES;
use crate::stage::{Failure, Stage};
use vstd::prelude::*;
use wasmer::{Function, Imports, Instance, Memory, Module, Store};
use wasmer_wasi::{Pipe, WasiFunctionEnv};

verus! {

/// The bytes that a pipe holds: what was written to it and not yet read, in
/// the order it was written. A pipe shares its buffer with its clones, and
/// the one clone made here is the module's standard output; so whatever may
/// run the module's code takes the pipe along, mutably, and is taken to
/// change what the pipe holds.
pub uninterp spec fn pipe_contents(pipe: Pipe) -> Seq<u8>;

/// What the sandbox reads of a module before any of its code runs: the
/// module, whether it has a start function, and the namespace and name of
/// each function it imports.
struct Guest {
    module: Module,
    has_start_function: bool,
    function_imports: Vec<(String, String)>,
}

/// An environment made for a guest, with nothing instantiated in it.
struct Setup {
    store: Store,
    environment: WasiFunctionEnv,
    output: Pipe,
    guest: Guest,
}

/// An instantiated guest whose environment has no memory yet.
struct Fresh {
    store: Store,
    environment: WasiFunctionEnv,
    output: Pipe,
    guest: Guest,
    instance: Instance,
}

/// An instantiated guest whose environment has the guest's memory, which
/// was `memory_pages` pages large when it was attached.
struct Ready {
    store: Store,
    environment: WasiFunctionEnv,
    output: Pipe,
    guest: Guest,
    instance: Instance,
    memory_pages: u32,
}

impl Guest {
    /// Whether the guest may run.
    spec fn spec_admitted(&self) -> bool {
        spec_may_run(self.has_start_function, import_names(self.function_imports@))
    }

    /// Whether the guest may run.
    fn admitted(&self) -> (admitted: bool)
        ensures
            admitted == self.spec_admitted(),
    {
        may_run(self.has_start_function, &self.function_imports)
    }
}

/// Clones the module and reads, through `Module::info` of wasmer, the field
/// `ModuleInfo::start_function` of wasmer-types, and through `Module::imports`
/// of wasmer and `ImportsIterator::functions` of wasmer-types the namespace
/// and the name of each function import, in the module's order. What the
/// guest says is so read off the module it holds.
#[verifier::external_body]
fn inspect(module: &Module) -> Guest {
    Guest {
        module: module.clone(),
        has_start_function: module.info().start_function.is_some(),
        function_imports: module.imports().functions().map(
            |import| (import.module().to_string(), import.name().to_string()),
        ).collect(),
    }
}

/// Calls `Pipe::new` of wasmer-wasi, which makes a pipe over an empty buffer.
#[verifier::external_body]
fn new_pipe() -> (pipe: Pipe)
    ensures
        pipe_contents(pipe) == Seq::<u8>::empty(),
{
    Pipe::new()
}

/// Calls `WasiState::new`, `WasiStateBuilder::args`, `WasiStateBuilder::stdout`
/// and `WasiStateBuilder::finalize` of wasmer-wasi: an environment in `store`
/// for a program called `program` with the one argument `argument`, whose
/// standard output is a clone of `stdout`, which shares the pipe's buffer.
/// The environment it makes has no memory. `None` stands for the builder's
/// error. Nothing is claimed of the result.
#[verifier::external_body]
fn build_environment(store: &mut Store, program: &str, argument: &str, stdout: &Pipe) -> Option<
    WasiFunctionEnv,
> {
    let mut builder = wasmer_wasi::WasiState::new(program);
    builder.args(&[argument]).stdout(Box::new(stdout.clone()));
    match builder.finalize(store) {
        Ok(environment) => Some(environment),
        Err(_) => None,
    }
}

/// Calls `WasiFunctionEnv::import_object` of wasmer-wasi: the imports that
/// bind the guest's module to the environment, in the store that the
/// environment was made in. `None` stands for its error, which comes where
/// the module imports no known version of the system interface. The call
/// runs none of the module's code and leaves the pipe as it was. Nothing is
/// claimed of the result.
#[verifier::external_body]
fn resolve_imports(setup: &mut Setup) -> (imports: Option<Imports>)
    ensures
        final(setup).guest == old(setup).guest,
        final(setup).output == old(setup).output,
{
    match setup.environment.import_object(&mut setup.store, &setup.guest.module) {
        Ok(imports) => Some(imports),
        Err(_) => None,
    }
}

/// Calls `Instance::new` of wasmer on the guest's module. `None` stands for
/// its error: the imports do not link, or instantiation trapped. A start
/// function would run here, while the environment has no memory, and a call
/// of the system interface from it would panic on the missing memory; so the
/// guest must be one that may run, which has no start function. None of the
/// module's code runs then, and the pipe is left as it was.
#[verifier::external_body]
fn new_instance(setup: Setup, imports: &Imports) -> (fresh: Option<Fresh>)
    requires
        setup.guest.spec_admitted(),
    ensures
        fresh matches Some(f) ==> f.guest == setup.guest && f.output == setup.output,
{
    let Setup { mut store, environment, output, guest } = setup;
    match Instance::new(&mut store, &guest.module, imports) {
        Ok(instance) => Some(Fresh { store, environment, output, guest, instance }),
        Err(_) => None,
    }
}

/// Calls `Exports::get_memory` of wasmer on the exports of the guest's
/// instance and clones the handle. `None` stands for its error: no export of
/// that name, or one that is no memory. Nothing is claimed of the result.
#[verifier::external_body]
fn exported_memory(fresh: &Fresh, name: &str) -> Option<Memory> {
    match fresh.instance.exports.get_memory(name) {
        Ok(memory) => Some(memory.clone()),
        Err(_) => None,
    }
}

/// Reads the size of `memory` through `Memory::view` and `MemoryView::size`
/// of wasmer, then calls `WasiFunctionEnv::data_mut` and `WasiEnv::set_memory`
/// of wasmer-wasi. `set_memory` panics where the environment has a memory
/// already; a `Fresh` has none, and the call uses it up. The memory must be
/// one of the guest's instance; the one caller has it from `exported_memory`.
/// The call runs none of the module's code and leaves the pipe as it was.
#[verifier::external_body]
fn set_memory(fresh: Fresh, memory: Memory) -> (ready: Ready)
    ensures
        ready.guest == fresh.guest,
        ready.output == fresh.output,
{
    let Fresh { mut store, environment, output, guest, instance } = fresh;
    let memory_pages = memory.view(&store).size().0;
    environment.data_mut(&mut store).set_memory(memory);
    Ready { store, environment, output, guest, instance, memory_pages }
}

/// Calls `Exports::get_function` of wasmer on the exports of the guest's
/// instance and clones the handle. `None` stands for its error: no export of
/// that name, or one that is no function. Nothing is claimed of the result.
#[verifier::external_body]
fn exported_function(ready: &Ready, name: &str) -> Option<Function> {
    match ready.instance.exports.get_function(name) {
        Ok(function) => Some(function.clone()),
        Err(_) => None,
    }
}

/// Calls `Function::call` of wasmer in the guest's store, without arguments,
/// and tells whether it returned `Ok`; a trap is an `Err`. The function must
/// be one of the guest's instance; the one caller has it from
/// `exported_function`. A panic in a call of the system interface would come
/// out of this call, so three things are asked. The environment has its
/// memory, which every such call looks for: a `Ready` has. The guest may
/// run: it imports none of the calls that panic, `proc_raise` for one. And
/// the memory was attached with fewer pages than the format can address:
/// `args_get` adds to an offset that the module chooses, the sum stays within
/// 32 bits while the memory ends below the top of the address space, and a
/// memory never grows to that many pages. The call returns when the module's
/// code does: a module that loops keeps it from returning, and nothing here
/// bounds that. The module's code may write to standard output. Nothing is
/// claimed of the result, nor of what the pipe holds afterwards.
#[verifier::external_body]
fn call_function(ready: &mut Ready, function: &Function) -> (returned: bool)
    requires
        old(ready).guest.spec_admitted(),
        old(ready).memory_pages < WASM_MAX_PAGES,
    ensures
        final(ready).guest == old(ready).guest,
        final(ready).memory_pages == old(ready).memory_pages,
{
    function.call(&mut ready.store, &[]).is_ok()
}

/// Calls `Read::read_to_end` of std on the pipe and tells whether it returned
/// `Ok`. `read_to_end` fails only where a read does, and `Pipe::read` always
/// returns `Ok`; it takes bytes from the front of the pipe's buffer and
/// returns zero only where the buffer is empty, and `read_to_end` appends all
/// it reads until a read returns zero. So the call succeeds, what the pipe
/// held stands behind what `buf` held, and the pipe is empty.
#[verifier::external_body]
fn read_to_end(pipe: &mut Pipe, buf: &mut Vec<u8>) -> (complete: bool)
    ensures
        complete,
        final(buf)@ == old(buf)@ + pipe_contents(*old(pipe)),
        pipe_contents(*final(pipe)) == Seq::<u8>::empty(),
{
    std::io::Read::read_to_end(pipe, buf).is_ok()
}

/// Reads `pipe` to its end: all that the pipe held is appended to `buf`, in
/// order, and the pipe is left empty. Reading a pipe does not fail, and the
/// result says so.
pub fn drain(pipe: &mut Pipe, buf: &mut Vec<u8>) -> (complete: bool)
    ensures
        complete,
        final(buf)@ == old(buf)@ + pipe_contents(*old(pipe)),
        pipe_contents(*final(pipe)) == Seq::<u8>::empty(),
{
    read_to_end(pipe, buf)
}

/// One execution: the store, the environment, the instance and the pipe that
/// stands behind the module's standard output. A session serves one run and
/// is not used again.
pub struct SandboxSession {
    fresh: Option<Fresh>,
    ready: Option<Ready>,
    argument: String,
    stage: Stage,
}

impl SandboxSession {
    /// Whether the session is sound. While it is instantiated and has no
    /// memory, it holds a guest that may run. Once its memory is attached and
    /// until its output is captured, it holds a guest that may run, and the
    /// memory was attached with fewer pages than the format can address.
    pub closed spec fn wf(&self) -> bool {
        &&& self.stage == Stage::Instantiated ==> self.fresh is Some && self.ready is None
            && self.fresh->0.guest.spec_admitted()
        &&& self.stage == Stage::MemorySet || self.stage == Stage::Started ==> self.ready is Some
            && self.ready->0.guest.spec_admitted() && self.ready->0.memory_pages < WASM_MAX_PAGES
    }

    /// Where the session stands.
    pub closed spec fn spec_stage(&self) -> Stage {
        self.stage
    }

    /// What the module has written to its standard output and nobody has
    /// read yet.
    pub closed spec fn spec_output(&self) -> Seq<u8> {
        match (self.ready, self.fresh) {
            (Some(ready), _) => pipe_contents(ready.output),
            (None, Some(fresh)) => pipe_contents(fresh.output),
            (None, None) => Seq::<u8>::empty(),
        }
    }

    /// The one argument that the module is given.
    pub closed spec fn spec_argument(&self) -> Seq<char> {
        self.argument@
    }

    /// Where the session stands.
    #[verifier::when_used_as_spec(spec_stage)]
    pub fn stage(&self) -> (stage: Stage)
        ensures
            stage == self.spec_stage(),
    {
        self.stage
    }

    /// The one argument that the module is given.
    pub fn argument(&self) -> (argument: &str)
        ensures
            argument@ == self.spec_argument(),
    {
        self.argument.as_str()
    }

    /// Sets up the environment in `store`, for a program that sees itself
    /// called `mandelbrot`, with `n` in decimal notation as the one argument
    /// and a fresh pipe as standard output, binds the module's imports to it
    /// and instantiates the module. A module that may not run, because it has
    /// a start function or imports a function that is not admitted, is not
    /// instantiated. Where any of this fails there is no session, and the
    /// failure is `Instantiation`. A session that comes out has written
    /// nothing yet.
    pub fn instantiate(store: Store, module: &Module, n: u32) -> (session: Result<
        SandboxSession,
        Failure,
    >)
        ensures
            match session {
                Ok(s) => s.wf() && s.spec_stage() == Stage::Instantiated && s.spec_argument()
                    == decimal(n as nat) && s.spec_output() == Seq::<u8>::empty(),
                Err(failure) => failure == Failure::Instantiation,
            },
    {
        let guest = inspect(module);
        if !guest.admitted() {
            return Err(Failure::Instantiation);
        }
        let mut store = store;
        let output = new_pipe();
        let argument = decimal_string(n);
        let environment = match build_environment(
            &mut store,
            "mandelbrot",
            argument.as_str(),
            &output,
        ) {
            Some(environment) => environment,
            None => { return Err(Failure::Instantiation); },
        };
        let mut setup = Setup { store, environment, output, guest };
        let imports = match resolve_imports(&mut setup) {
            Some(imports) => imports,
            None => { return Err(Failure::Instantiation); },
        };
        let fresh = match new_instance(setup, &imports) {
            Some(fresh) => fresh,
            None => { return Err(Failure::Instantiation); },
        };
        Ok(
            SandboxSession {
                fresh: Some(fresh),
                ready: None,
                argument,
                stage: Stage::Instantiated,
            },
        )
    }

    /// Attaches the memory that the instance exports as `memory` to the
    /// environment, so that the module's calls into the system interface can
    /// reach the module's own memory. The session must have been
    /// instantiated and not gone further. Where the instance exports no such
    /// memory, or one that fills all that the format can address, the session
    /// fails.
    pub fn attach_memory(&mut self)
        requires
            old(self).wf(),
            old(self).spec_stage() == Stage::Instantiated,
        ensures
            final(self).wf(),
            final(self).spec_stage() == Stage::MemorySet || final(self).spec_stage()
                == Stage::Failed(Failure::MemoryExport),
            final(self).spec_argument() == old(self).spec_argument(),
            final(self).spec_output() == old(self).spec_output(),
    {
        let fresh = self.fresh.take().unwrap();
        match exported_memory(&fresh, "memory") {
            Some(memory) => {
                let ready = set_memory(fresh, memory);
                let bounded = ready.memory_pages < WASM_MAX_PAGES;
                self.ready = Some(ready);
                self.stage = self.stage.after(bounded);
            },
            None => {
                self.fresh = Some(fresh);
                self.stage = self.stage.after(false);
            },
        }
    }

    /// Runs the entry point `_start`, without arguments. The memory must have
    /// been attached. Where the instance has no entry point, or running it
    /// traps, the session fails.
    pub fn start(&mut self)
        requires
            old(self).wf(),
            old(self).spec_stage() == Stage::MemorySet,
        ensures
            final(self).wf(),
            final(self).spec_stage() == Stage::Started || final(self).spec_stage()
                == Stage::Failed(Failure::Trap),
            final(self).spec_argument() == old(self).spec_argument(),
    {
        let mut ready = self.ready.take().unwrap();
        let returned = match exported_function(&ready, "_start") {
            Some(entry) => call_function(&mut ready, &entry),
            None => false,
        };
        self.ready = Some(ready);
        self.stage = self.stage.after(returned);
    }

    /// Drains the pipe into `buf`: all that the module has written to its
    /// standard output stands behind what `buf` held, in the order it was
    /// written, and nothing is left in the pipe. The entry point must have
    /// run.
    pub fn capture(&mut self, buf: &mut Vec<u8>)
        requires
            old(self).wf(),
            old(self).spec_stage() == Stage::Started,
        ensures
            final(self).wf(),
            final(self).spec_stage() == Stage::OutputCaptured,
            final(buf)@ == old(buf)@ + old(self).spec_output(),
            final(self).spec_output() == Seq::<u8>::empty(),
            final(self).spec_argument() == old(self).spec_argument(),
    {
        let mut ready = self.ready.take().unwrap();
        let complete = drain(&mut ready.output, buf);
        self.ready = Some(ready);
        self.stage = self.stage.after(complete);
    }
}

/// Runs `module` once in `store` with the argument `n` and appends what the
/// module wrote to its standard output to `buf`: all that the pipe of a
/// session held whose entry point had run, in the order it was written. The
/// stage returned is where the session ended: `OutputCaptured`, or the
/// failure that ended it, in which case `buf` is as it was.
pub fn run(store: Store, module: &Module, n: u32, buf: &mut Vec<u8>) -> (stage: Stage)
    ensures
        stage.spec_is_terminal(),
        stage != Stage::Failed(Failure::Deserialize),
        stage is Failed ==> final(buf)@ == old(buf)@,
        stage is OutputCaptured ==> exists|session: SandboxSession|
            session.wf() && session.spec_stage() == Stage::Started && session.spec_argument()
                == decimal(n as nat) && final(buf)@ == old(buf)@ + #[trigger] session.spec_output(),
        old(buf)@.is_prefix_of(final(buf)@),
{
    let mut session = match SandboxSession::instantiate(store, module, n) {
        Ok(session) => session,
        Err(failure) => { return Stage::Failed(failure); },
    };
    session.attach_memory();
    if session.stage().is_terminal() {
        return session.stage();
    }
    session.start();
    if session.stage().is_terminal() {
        return session.stage();
    }
    let ghost started = session;
    session.capture(buf);
    proof {
        assert(buf@ == old(buf)@ + started.spec_output());
    }
    session.stage()
}

} // verus!
