use vstd::prelude::*;
use vstd::std_specs::cmp::PartialEqSpecImpl;
use crate::error::Error;
use crate::handle::Handle;

verus! {

/// A handle on the engine's environment, shared by a runtime and the modules
/// parsed for it.
///
/// Two handles are equal when they stand for the same environment of the
/// engine, whatever that environment holds.
#[derive(Clone, Copy, Debug)]
pub struct Environment {
    raw: Handle,
}

impl View for Environment {
    type V = usize;

    /// The identity of the environment: the address the engine gave it.
    closed spec fn view(&self) -> usize {
        self.raw@
    }
}

impl PartialEq for Environment {
    fn eq(&self, other: &Environment) -> (equal: bool) {
        self.raw.addr() == other.raw.addr()
    }
}

impl Eq for Environment {
}

impl PartialEqSpecImpl for Environment {
    open spec fn obeys_eq_spec() -> bool {
        true
    }

    open spec fn eq_spec(&self, other: &Environment) -> bool {
        self@ == other@
    }
}

impl Environment {
    /// Takes over the environment that the engine allocated at `raw`; a null
    /// address means that the engine could not allocate one.
    pub fn new(raw: usize) -> (r: Result<Environment, Error>)
        ensures
            raw == 0 ==> r == Err::<Environment, Error>(Error::MemoryAllocation),
            raw != 0 ==> r is Ok && r->Ok_0@ == raw,
    {
        match Handle::new(raw) {
            Some(raw) => Ok(Environment { raw }),
            None => Err(Error::malloc_error()),
        }
    }

    /// The address of the environment, never null.
    pub fn as_ptr(&self) -> (raw: usize)
        ensures
            raw == self@,
            raw != 0,
    {
        self.raw.addr()
    }
}

} // verus!
