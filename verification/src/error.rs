use vstd::prelude::*;

verus! {

/// What can go wrong while a runtime is built, filled or searched.
#[derive(Clone, Copy, Debug, PartialEq, Eq, Structural)]
pub enum Error {
    /// The engine could not allocate what was asked of it.
    MemoryAllocation,
    /// A module was parsed under another environment than the runtime's.
    EnvironmentMismatch,
    /// The engine refused to load a module; the field is its status.
    ModuleLoadFailure(usize),
    /// No loaded module exports a function of the requested name.
    FunctionNotFound,
    /// A function of the requested name exists, with other types.
    InvalidFunctionSignature,
    /// No loaded module carries the requested name.
    ModuleNotFound,
    /// The engine reported an error after a call; the field is its status.
    RuntimeTrap(usize),
}

impl Error {
    /// The error of a failed allocation.
    pub fn malloc_error() -> (e: Error)
        ensures
            e == Error::MemoryAllocation,
    {
        Error::MemoryAllocation
    }
}

} // verus!
