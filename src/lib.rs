//! A global-allocator wrapper that keeps every allocation above the low 2 GiB
//! of the (32-bit truncated) address space.
use vstd::prelude::*;

pub mod boundary;
pub mod probe;

verus! {

/// The shape of one allocation request: a size in bytes and a power-of-two alignment.
#[derive(Clone, Copy, Debug, PartialEq, Eq, Structural)]
pub struct Layout {
    pub size: usize,
    pub align: usize,
}

/// The boundary-enforcing allocator: it owns one delegate, which does all real
/// allocation. Each request runs as a [`probe::Probe`] against it.
pub struct GgAlloc<A> {
    /// The wrapped allocator. Public so that a wrapper can be built in a
    /// constant initializer.
    pub alloc: A,
}

impl<A> GgAlloc<A> {
    /// Wraps `alloc`.
    pub fn new(alloc: A) -> (r: Self)
        ensures
            r.alloc == alloc,
    {
        GgAlloc { alloc }
    }
}

} // verus!
