use vstd::prelude::*;

verus! {

/// Where a buffer of the engine lies: the address of its first element and
/// the number of its elements.
///
/// The buffer stays the engine's: a call into the engine may move, resize or
/// rewrite it, so what is described here holds only until the next such call.
#[derive(Clone, Copy, Debug, PartialEq, Eq, Structural)]
pub struct RawSlice {
    /// The address of the first element, never null.
    pub base: usize,
    /// The number of elements.
    pub len: usize,
}

impl RawSlice {
    /// A buffer without elements, at an address that is aligned for elements
    /// of `align` bytes and is never read.
    pub open spec fn dangling(align: usize) -> RawSlice {
        RawSlice { base: align, len: 0 }
    }
}

} // verus!
