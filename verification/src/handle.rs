use vstd::prelude::*;

verus! {

/// The address of something that the engine owns. It is never null.
#[derive(Clone, Copy, Debug)]
pub struct Handle {
    addr: usize,
}

impl View for Handle {
    type V = usize;

    /// The address.
    closed spec fn view(&self) -> usize {
        self.addr
    }
}

impl Handle {
    #[verifier::type_invariant]
    spec fn nonnull(self) -> bool {
        self.addr != 0
    }

    /// A handle on what lies at `addr`, or nothing where `addr` is null.
    pub fn new(addr: usize) -> (handle: Option<Handle>)
        ensures
            addr == 0 <==> handle is None,
            handle is Some ==> handle->Some_0@ == addr,
    {
        if addr == 0 {
            None
        } else {
            Some(Handle { addr })
        }
    }

    /// The address.
    pub fn addr(&self) -> (addr: usize)
        ensures
            addr == self@,
            addr != 0,
    {
        proof {
            use_type_invariant(self);
        }
        self.addr
    }
}

} // verus!
