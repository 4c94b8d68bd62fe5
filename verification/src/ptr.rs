//! Address arithmetic on pointers that are carried around as plain words.
//!
//! The `SwapArc` keeps every pointer as the address it exposes; these
//! helpers turn pointers into addresses and back and let a closure rewrite
//! an address.
use vstd::prelude::*;

verus! {

/// Rewrites the address of `ptr` with `f`.
pub fn map_addr<F: FnOnce(usize) -> usize>(ptr: usize, f: F) -> (r: usize)
    requires
        f.requires((ptr,)),
    ensures
        f.ensures((ptr,), r),
{
    f(expose_addr(ptr))
}

/// Rewrites the address of a mutable pointer with `f`.
pub fn map_addr_mut<F: FnOnce(usize) -> usize>(ptr: usize, f: F) -> (r: usize)
    requires
        f.requires((ptr,)),
    ensures
        f.ensures((ptr,), r),
{
    f(expose_addr(ptr))
}

/// The address of `ptr`.
pub fn expose_addr(ptr: usize) -> (r: usize)
    ensures
        r == ptr,
{
    ptr
}

/// The pointer with the exposed address `exposed_addr`.
pub fn from_exposed_addr(exposed_addr: usize) -> (r: usize)
    ensures
        r == exposed_addr,
{
    exposed_addr
}

/// The mutable pointer with the exposed address `exposed_addr`.
pub fn from_exposed_addr_mut(exposed_addr: usize) -> (r: usize)
    ensures
        r == exposed_addr,
{
    exposed_addr
}

} // verus!
