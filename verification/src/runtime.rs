use vstd::prelude::*;
use vstd::string::*;
use crate::environment::Environment;
use crate::error::Error;
use crate::function::{Function, Signature, SignatureView};
use crate::handle::Handle;
use crate::module::{LoadFailure, Module, ParsedModule, ParsedModuleView};
use crate::raw_slice::RawSlice;
use crate::utils::{first_match, lemma_first_match_is, lemma_first_match_none};

verus! {

/// The execution context of the engine, with what it has been given.
///
/// The runtime owns the engine's context, the modules loaded into it and the
/// host closures registered with it. `C` is the type of those closures; the
/// runtime never looks inside one.
#[derive(Debug)]
pub struct Runtime<C> {
    raw: Handle,
    environment: Environment,
    stack_size: u32,
    // holds all linked closures so that they stay where they are while the engine may call them
    closure_store: Vec<C>,
    modules: Vec<ParsedModule>,
}

/// A runtime as a mathematical value.
pub struct RuntimeView<C> {
    /// The address of the engine's execution context.
    pub raw: usize,
    /// The identity of the environment that the runtime was made under.
    pub environment: usize,
    /// The stack size that the context was asked for.
    pub stack_size: u32,
    /// The loaded modules, in the order in which they were loaded.
    pub modules: Seq<ParsedModuleView>,
    /// The registered closures, in the order in which they were registered.
    pub closures: Seq<C>,
}

impl<C> RuntimeView<C> {
    /// The runtime right after its making: nothing loaded, nothing registered.
    pub open spec fn fresh(environment: usize, stack_size: u32, raw: usize) -> RuntimeView<C> {
        RuntimeView { raw, environment, stack_size, modules: Seq::empty(), closures: Seq::empty() }
    }

    /// Why `module` does not enter the runtime, if it does not, where the
    /// engine answers a request to load it with `status`.
    ///
    /// A module of another environment is turned away before the engine is
    /// asked; otherwise the engine decides, and zero is its word for success.
    pub open spec fn load_error(self, module: ParsedModuleView, status: usize) -> Option<Error> {
        if module.environment != self.environment {
            Some(Error::EnvironmentMismatch)
        } else if status != 0 {
            Some(Error::ModuleLoadFailure(status))
        } else {
            None
        }
    }

    /// The runtime after an attempt to load `module` that the engine answered
    /// with `status`: the module comes last where it enters, and nothing
    /// changes where it does not.
    pub open spec fn load(self, module: ParsedModuleView, status: usize) -> RuntimeView<C> {
        if self.load_error(module, status) is None {
            RuntimeView { modules: self.modules.push(module), ..self }
        } else {
            self
        }
    }

    /// The runtime after `closure` was registered.
    pub open spec fn push_closure(self, closure: C) -> RuntimeView<C> {
        RuntimeView { closures: self.closures.push(closure), ..self }
    }

    /// The view of the module at position `index`.
    pub open spec fn module(self, index: int) -> Module {
        Module { raw: self.modules[index].raw, index: index as usize }
    }

    /// For each loaded module, whether it is called `name`.
    pub open spec fn modules_named(self, name: Seq<u8>) -> Seq<bool> {
        Seq::new(self.modules.len(), |i: int| self.modules[i].is_named(name))
    }

    /// What a search for the module `name` gives: the first module of that
    /// name in load order, or `ModuleNotFound`.
    pub open spec fn find_module(self, name: Seq<u8>) -> Result<Module, Error> {
        match first_match(self.modules_named(name)) {
            Some(i) => Ok(self.module(i)),
            None => Err(Error::ModuleNotFound),
        }
    }

    /// For each loaded module, whether it settles a search for the function
    /// `name` with `signature`.
    pub open spec fn modules_deciding(self, name: Seq<u8>, signature: SignatureView) -> Seq<bool> {
        Seq::new(self.modules.len(), |i: int| self.modules[i].decides(name, signature))
    }

    /// What a search for the function `name` with `signature` gives: the
    /// answer of the first module, in load order, that has an export of that
    /// name, or `FunctionNotFound` where none has.
    pub open spec fn find_function(self, name: Seq<u8>, signature: SignatureView) -> Result<
        Function,
        Error,
    > {
        match first_match(self.modules_deciding(name, signature)) {
            Some(i) => match self.modules[i].find_function(name, signature) {
                Ok(export) => Ok(Function { module: self.module(i), index: export }),
                Err(e) => Err(e),
            },
            None => Err(Error::FunctionNotFound),
        }
    }
}

/// What the engine reports of its linear memory, as a buffer of bytes: no
/// bytes at all where it reports none or no address.
pub open spec fn memory_slice(base: usize, size: u32) -> RawSlice {
    if base == 0 || size == 0 {
        RawSlice::dangling(1)
    } else {
        RawSlice { base, len: size as usize }
    }
}

/// What the engine's status after a call means: zero is success, anything
/// else a trap with that status.
pub open spec fn status_result(status: usize) -> Result<(), Error> {
    if status == 0 {
        Ok(())
    } else {
        Err(Error::RuntimeTrap(status))
    }
}

impl<C> View for Runtime<C> {
    type V = RuntimeView<C>;

    closed spec fn view(&self) -> RuntimeView<C> {
        RuntimeView {
            raw: self.raw@,
            environment: self.environment@,
            stack_size: self.stack_size,
            modules: Seq::new(self.modules@.len(), |i: int| self.modules@[i]@),
            closures: self.closure_store@,
        }
    }
}

impl<C> Runtime<C> {
    /// Takes over the execution context that the engine made under
    /// `environment` for `stack_size` slots and left at `raw`.
    ///
    /// # Errors
    ///
    /// A null `raw` means that the engine could not allocate the context:
    /// the error is `MemoryAllocation`.
    pub fn new(environment: &Environment, stack_size: u32, raw: usize) -> (r: Result<
        Runtime<C>,
        Error,
    >)
        ensures
            raw == 0 ==> r is Err && r->Err_0 == Error::MemoryAllocation,
            raw != 0 ==> r is Ok && r->Ok_0@ == RuntimeView::<C>::fresh(
                environment@,
                stack_size,
                raw,
            ),
    {
        match Handle::new(raw) {
            Some(raw) => {
                let rt = Runtime {
                    raw,
                    environment: *environment,
                    stack_size,
                    closure_store: Vec::new(),
                    modules: Vec::new(),
                };
                proof {
                    assert(rt@.modules =~= Seq::empty());
                }
                Ok(rt)
            },
            None => Err(Error::malloc_error()),
        }
    }

    /// Whether a module may be loaded: whether it was parsed under the
    /// environment of this runtime. Only then is the engine to be asked.
    pub fn accepts(&self, module: &ParsedModule) -> (accepted: bool)
        ensures
            accepted == (module@.environment == self@.environment),
    {
        self.environment == *module.environment()
    }

    /// Takes the outcome of parsing a module under this runtime's
    /// environment and, where there is a module, loads it as `load_module`
    /// does.
    pub fn parse_and_load_module(&mut self, parsed: Result<ParsedModule, Error>, status: usize) -> (r:
        Result<Module, Error>)
        ensures
            match parsed {
                Ok(module) => {
                    &&& final(self)@ == old(self)@.load(module@, status)
                    &&& r == match old(self)@.load_error(module@, status) {
                        Some(e) => Err::<Module, Error>(e),
                        None => Ok::<Module, Error>(
                            Module { raw: module@.raw, index: old(self)@.modules.len() as usize },
                        ),
                    }
                },
                Err(e) => final(self)@ == old(self)@ && r == Err::<Module, Error>(e),
            },
    {
        match parsed {
            Ok(module) => match self.load_module(module, status) {
                Ok(loaded) => Ok(loaded),
                Err(failure) => Err(failure.error),
            },
            Err(e) => Err(e),
        }
    }

    /// Loads a parsed module, where `status` is what the engine answered
    /// when asked to load it, and hands the module back if it is not loaded.
    ///
    /// # Errors
    ///
    /// `EnvironmentMismatch` if the module's environment differs from the one
    /// this runtime uses, whatever `status` says: the engine is not to be
    /// asked then. `ModuleLoadFailure` with the status if the engine refused.
    /// Either way the runtime stays as it was.
    pub fn load_module(&mut self, module: ParsedModule, status: usize) -> (r: Result<
        Module,
        LoadFailure,
    >)
        ensures
            final(self)@ == old(self)@.load(module@, status),
            match old(self)@.load_error(module@, status) {
                Some(e) => r is Err && r->Err_0.error == e && r->Err_0.module == module,
                None => r is Ok && r->Ok_0 == (Module {
                    raw: module@.raw,
                    index: old(self)@.modules.len() as usize,
                }),
            },
            r is Ok ==> r->Ok_0.raw != 0,
    {
        if self.environment != *module.environment() {
            Err(LoadFailure { error: Error::EnvironmentMismatch, module })
        } else if status != 0 {
            Err(LoadFailure { error: Error::ModuleLoadFailure(status), module })
        } else {
            let loaded = Module { raw: module.as_ptr(), index: self.modules.len() };
            self.modules.push(module);
            proof {
                assert(final(self)@.modules =~= old(self)@.modules.push(module@));
            }
            Ok(loaded)
        }
    }

    /// What the engine's status after a call means for the caller.
    pub fn rt_error(&self, status: usize) -> (r: Result<(), Error>)
        ensures
            r == status_result(status),
    {
        if status == 0 {
            Ok(())
        } else {
            Err(Error::RuntimeTrap(status))
        }
    }

    /// Registers a closure: it is kept, behind all that were registered
    /// before, for as long as the runtime lives.
    pub fn push_closure(&mut self, closure: C)
        ensures
            final(self)@ == old(self)@.push_closure(closure),
    {
        self.closure_store.push(closure);
    }

    /// Looks up a function by the given name and types in the loaded modules
    /// of this runtime, in the order in which they were loaded.
    ///
    /// The first module with an export of that name decides: a mismatch of
    /// types there ends the search, whatever later modules export.
    pub fn find_function(&self, name: &str, signature: &Signature) -> (r: Result<Function, Error>)
        ensures
            r == self@.find_function(name.spec_bytes(), signature@),
    {
        let ghost flags = self@.modules_deciding(name.spec_bytes(), signature@);
        let mut modules = self.modules();
        loop
            invariant
                modules@ <= self@.modules.len(),
                flags == self@.modules_deciding(name.spec_bytes(), signature@),
                forall|j: int| 0 <= j < modules@ ==> !flags[j],
            decreases self@.modules.len() - modules@,
        {
            match modules.next(self) {
                Some(module) => {
                    match self.modules[module.index].find_function(name, signature) {
                        Ok(export) => {
                            proof {
                                lemma_first_match_is(flags, module.index as int);
                            }
                            return Ok(Function { module, index: export });
                        },
                        Err(Error::InvalidFunctionSignature) => {
                            proof {
                                lemma_first_match_is(flags, module.index as int);
                            }
                            return Err(Error::InvalidFunctionSignature);
                        },
                        _ => {},
                    }
                },
                None => {
                    proof {
                        lemma_first_match_none(flags);
                    }
                    return Err(Error::FunctionNotFound);
                },
            }
        }
    }

    /// Searches for a module with the given name in the runtime's loaded
    /// modules and gives the first one, in the order in which they were
    /// loaded.
    pub fn find_module(&self, name: &str) -> (r: Result<Module, Error>)
        ensures
            r == self@.find_module(name.spec_bytes()),
    {
        let ghost flags = self@.modules_named(name.spec_bytes());
        let mut i: usize = 0;
        while i < self.modules.len()
            invariant
                i <= self@.modules.len(),
                self@.modules.len() == self.modules@.len(),
                flags == self@.modules_named(name.spec_bytes()),
                forall|j: int| 0 <= j < i ==> !flags[j],
            decreases self@.modules.len() - i,
        {
            let module = &self.modules[i];
            if module.is_named(name) {
                proof {
                    lemma_first_match_is(flags, i as int);
                }
                return Ok(Module { raw: module.as_ptr(), index: i });
            }
            i += 1;
        }
        proof {
            lemma_first_match_none(flags);
        }
        Err(Error::ModuleNotFound)
    }

    /// Starts a walk over the runtime's loaded modules, in the order in which
    /// they were loaded.
    pub fn modules(&self) -> (modules: Modules)
        ensures
            modules@ == 0,
    {
        Modules { position: 0 }
    }

    /// Describes the linear memory of this runtime, from what the engine
    /// reports of it right now: its address and its size in bytes.
    ///
    /// Where the engine reports no memory, by a null address or by a size of
    /// zero, the result has no bytes and an address that is not null.
    pub fn memory(&self, base: usize, size: u32) -> (memory: RawSlice)
        ensures
            memory == memory_slice(base, size),
            base == 0 || size == 0 ==> memory.len == 0,
            memory.base != 0,
    {
        if size == 0 || base == 0 {
            RawSlice { base: 1, len: 0 }
        } else {
            RawSlice { base, len: size as usize }
        }
    }

    /// Describes the stack of this runtime as 64-bit words, from what the
    /// engine reports of it right now: its address and its number of slots.
    pub fn stack(&self, base: Handle, slots: u32) -> (stack: RawSlice)
        ensures
            stack == (RawSlice { base: base@, len: slots as usize }),
            stack.base != 0,
    {
        RawSlice { base: base.addr(), len: slots as usize }
    }

    /// Describes the stack of this runtime as 64-bit words that may be
    /// written, from what the engine reports of it right now.
    ///
    /// Nothing keeps an earlier description from being used beside this one:
    /// whoever writes through it sees to it that nobody else reads or writes
    /// the stack meanwhile.
    pub fn stack_mut(&mut self, base: Handle, slots: u32) -> (stack: RawSlice)
        ensures
            stack == (RawSlice { base: base@, len: slots as usize }),
            stack.base != 0,
            *final(self) == *old(self),
    {
        RawSlice { base: base.addr(), len: slots as usize }
    }

    /// The address of the engine's execution context, never null.
    pub fn as_ptr(&self) -> (raw: usize)
        ensures
            raw == self@.raw,
            raw != 0,
    {
        self.raw.addr()
    }

    /// The environment that this runtime was made under.
    pub fn environment(&self) -> (environment: &Environment)
        ensures
            environment@ == self@.environment,
    {
        &self.environment
    }

    /// The stack size that the execution context was asked for.
    pub fn stack_size(&self) -> (stack_size: u32)
        ensures
            stack_size == self@.stack_size,
    {
        self.stack_size
    }

    /// The registered closures, oldest first.
    pub fn closures(&self) -> (closures: &[C])
        ensures
            closures@ == self@.closures,
    {
        self.closure_store.as_slice()
    }
}

/// A walk over the modules of a runtime, forward only and once.
///
/// The walk holds a position, not the runtime: modules loaded while it is
/// under way are reached in their turn.
#[derive(Debug)]
pub struct Modules {
    position: usize,
}

impl View for Modules {
    type V = int;

    /// The number of modules that the walk has passed.
    closed spec fn view(&self) -> int {
        self.position as int
    }
}

impl Modules {
    /// Gives the next module of `rt` and steps past it, or gives nothing and
    /// stays where all modules have been passed.
    pub fn next<C>(&mut self, rt: &Runtime<C>) -> (module: Option<Module>)
        ensures
            old(self)@ < rt@.modules.len() ==> module == Some(rt@.module(old(self)@)) && final(self)@
                == old(self)@ + 1,
            old(self)@ >= rt@.modules.len() ==> module is None && final(self)@ == old(self)@,
            module is Some ==> module->Some_0.raw != 0,
    {
        if self.position < rt.modules.len() {
            let module = Module { raw: rt.modules[self.position].as_ptr(), index: self.position };
            self.position += 1;
            Some(module)
        } else {
            None
        }
    }

    /// Walks to the end and gives every module of `rt` that the walk had not
    /// passed yet, in the order in which they were loaded.
    pub fn collect<C>(self, rt: &Runtime<C>) -> (modules: Vec<Module>)
        ensures
            self@ <= rt@.modules.len() ==> modules@ == Seq::new(
                (rt@.modules.len() - self@) as nat,
                |i: int| rt@.module(self@ + i),
            ),
            self@ > rt@.modules.len() ==> modules@.len() == 0,
    {
        let ghost start = self@;
        let mut walk = self;
        let mut modules: Vec<Module> = Vec::new();
        loop
            invariant
                start == self@,
                start <= rt@.modules.len() ==> walk@ == start + modules@.len() && walk@
                    <= rt@.modules.len(),
                start > rt@.modules.len() ==> walk@ == start && modules@.len() == 0,
                forall|i: int| 0 <= i < modules@.len() ==> modules@[i] == rt@.module(start + i),
            decreases rt@.modules.len() - walk@,
        {
            match walk.next(rt) {
                Some(module) => modules.push(module),
                None => {
                    proof {
                        if start <= rt@.modules.len() {
                            assert(modules@ =~= Seq::new(
                                (rt@.modules.len() - start) as nat,
                                |i: int| rt@.module(start + i),
                            ));
                        }
                    }
                    return modules;
                },
            }
        }
    }
}

} // verus!
