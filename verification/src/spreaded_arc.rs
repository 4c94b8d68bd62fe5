//! The counting of `SpreadedArc`, an `Arc` whose clones count in a
//! thread-local counter and only touch the shared count when a thread's
//! counter leaves or reaches zero.
use std::sync::atomic::{AtomicUsize, Ordering};
use vstd::prelude::*;

verus! {

/// Counts a clone on the calling thread's counter `cached_cnt`; the first
/// handle of a thread takes a reference on the shared count.
pub fn clone_counts(cached_cnt: &AtomicUsize, global_cnt: &AtomicUsize) {
    if crate::unlikely(cached_cnt.fetch_add(1, Ordering::Relaxed) == 0) {
        global_cnt.fetch_add(1, Ordering::Relaxed);
    }
}

/// Counts a drop on the counter `cached_cnt` of the thread that cloned the
/// handle; the last handle of that thread gives back its shared reference.
/// `true` when that was the last shared reference and the value has to be
/// freed.
pub fn drop_counts(cached_cnt: &AtomicUsize, global_cnt: &AtomicUsize) -> (r: bool) {
    let prev_cached = cached_cnt.fetch_sub(1, Ordering::Relaxed);
    if crate::likely(prev_cached != 1) {
        return false;
    }
    let prev_global = global_cnt.fetch_sub(1, Ordering::Release);
    let last = drop_outcome(prev_cached, prev_global);
    if crate::unlikely(last) {
        crate::acquire_fence();
    }
    last
}

/// What a drop decides from the counts it found: the value has to be freed
/// exactly when it was the thread's last handle (`prev_cached` was 1) and
/// that thread held the last shared reference (`prev_global` was 1).
pub fn drop_outcome(prev_cached: usize, prev_global: usize) -> (r: bool)
    ensures
        r == (prev_cached == 1 && prev_global == 1),
{
    prev_cached == 1 && prev_global == 1
}

} // verus!
