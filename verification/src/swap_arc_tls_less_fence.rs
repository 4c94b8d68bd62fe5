//! The pieces of the thread-local `SwapArc` variant that relies on fewer
//! fences: its result type for forced updates, its alignment check and its
//! conversion traits.
use vstd::prelude::*;

pub use crate::most_sig_set_bit;
use crate::free_bits;

verus! {

/// The outcome of a forced update (`Updated`: the update was performed).
#[derive(PartialEq, Eq, Structural, Clone, Copy, Debug)]
pub enum UpdateResult {
    Updated,
    AlreadyUpdating,
    NoUpdate,
}

/// This variant keeps one flag bit in the addresses besides the metadata,
/// so `T` has to leave `METADATA_BITS + 1` low bits free. The check is
/// meant to run at compile time; it holds of every type it is used with.
pub fn assert_alignment<T, const METADATA_BITS: u32>() -> (r: bool)
    requires
        free_bits(core::mem::align_of::<T>()) >= METADATA_BITS + 1,
    ensures
        r,
{
    let free = match most_sig_set_bit(core::mem::align_of::<T>()) {
        Some(i) => i,
        None => 0,
    };
    free >= METADATA_BITS + 1
}

/// Reference counted values that this variant can hold: cloning one takes a
/// reference, dropping one gives it back.
pub trait RefCnt: Send + Sync + Clone {

}

/// Conversion between a reference counted value and the address of the
/// value it refers to, for this variant.
pub trait DataPtrConvert<T>: RefCnt + Sized {
    /// The address that stands for no value.
    const INVALID: usize;

    /// The value at the address `ptr`; the reference count is not altered.
    fn from(ptr: usize) -> Self;

    /// The address of the value; the reference of `self` is given back when
    /// the value is dropped.
    fn into(self) -> usize;

    /// The address of the value; the reference count is not altered.
    fn as_ptr(&self) -> usize;

    /// Takes one more reference to the value directly.
    fn increase_ref_cnt(&self);
}

} // verus!
