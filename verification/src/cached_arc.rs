//! The counting of `CachedArc`, an `Arc` that can be turned into a
//! thread-local handle (`CachedLocalArc`) whose clones and drops only touch
//! a thread-local count.
//!
//! Each thread keeps a `CachedCount`: `ref_cnt` counts the local handles,
//! `debt` the references to the shared global count that the thread holds
//! for them. When the last local handle goes, the debt is paid back to the
//! global count at once.
use std::sync::atomic::{AtomicUsize, Ordering};
use vstd::prelude::*;

verus! {

/// The largest global count that a clone may find before it aborts.
pub const MAX_REFCOUNT: usize = usize::MAX >> 1;

/// The thread-local counts of a `CachedArc`.
#[derive(Clone, Copy, PartialEq, Eq, Structural, Debug)]
pub struct CachedCount {
    pub ref_cnt: usize,
    pub debt: usize,
}

impl CachedCount {
    /// A thread with local handles holds at least one global reference for
    /// them, so the value stays alive while any of its local handles does.
    pub open spec fn backed(self) -> bool {
        self.ref_cnt > 0 ==> self.debt >= 1
    }

    /// The counts of a thread that holds no local handle.
    pub fn new() -> (r: Self)
        ensures
            r.ref_cnt == 0,
            r.debt == 0,
            r.backed(),
    {
        CachedCount { ref_cnt: 0, debt: 0 }
    }
}

/// What a `CachedArc` that is dropped does with its reference: if the thread
/// holds local handles, the reference is kept as debt (`true`); otherwise
/// nothing changes and the reference goes back to the global count.
pub fn drop_into_cache(cnts: &mut CachedCount) -> (r: bool)
    requires
        old(cnts).debt < usize::MAX,
    ensures
        r == (old(cnts).ref_cnt != 0),
        old(cnts).backed() ==> final(cnts).backed(),
        r ==> *final(cnts) == (CachedCount { debt: (old(cnts).debt + 1) as usize, ..*old(cnts) }),
        !r ==> *final(cnts) == *old(cnts),
{
    if cnts.ref_cnt != 0 {
        // just store the debt
        cnts.debt = cnts.debt + 1;
        true
    } else {
        false
    }
}

/// Whether giving back `n` references to a global count that held `prev`
/// gave back the last ones.
pub fn releases_last(prev: usize, n: usize) -> (r: bool)
    ensures
        r == (prev == n),
{
    prev == n
}

/// Whether a clone that found the global count `prev` has to abort: the
/// count exceeded `MAX_REFCOUNT`.
pub fn count_overflows(prev: usize) -> (r: bool)
    ensures
        r == (prev > MAX_REFCOUNT),
{
    prev > MAX_REFCOUNT
}

/// Gives back `n` references to the global count; `true` when they were the
/// last ones and the value has to be freed.
pub fn release_global(global_cnt: &AtomicUsize, n: usize) -> (r: bool) {
    let prev = global_cnt.fetch_sub(n, Ordering::Release);
    let last = releases_last(prev, n);
    if last {
        crate::acquire_fence();
    }
    last
}

/// Takes one more global reference (`CachedArc::clone`); `true` when the
/// count it found exceeds `MAX_REFCOUNT`, on which the caller aborts.
pub fn clone_global(global_cnt: &AtomicUsize) -> (r: bool) {
    let old_size = global_cnt.fetch_add(1, Ordering::Relaxed);
    count_overflows(old_size)
}

/// Turns a `CachedArc` into a local handle (`CachedArc::downgrade`). The
/// first local handle keeps the arc's reference as debt; any later one
/// drops the arc, which stores its reference as debt as well.
pub fn downgrade(cnts: &mut CachedCount)
    requires
        old(cnts).ref_cnt < usize::MAX,
        old(cnts).debt < usize::MAX,
    ensures
        final(cnts).ref_cnt == old(cnts).ref_cnt + 1,
        final(cnts).debt == old(cnts).debt + 1,
        final(cnts).backed(),
{
    cnts.ref_cnt = cnts.ref_cnt + 1;
    if cnts.ref_cnt == 1 {
        cnts.debt = cnts.debt + 1;
    } else {
        // the arc is dropped: a local handle exists, so its reference
        // becomes debt
        drop_into_cache(cnts);
    }
}

/// Creates a local handle from a borrowed `CachedArc`
/// (`CachedArc::downgrade_cloned`). The first local handle takes a global
/// reference as its debt; `true` when that clone found the global count
/// above `MAX_REFCOUNT`, on which the caller aborts.
pub fn downgrade_cloned(cnts: &mut CachedCount, global_cnt: &AtomicUsize) -> (r: bool)
    requires
        old(cnts).ref_cnt < usize::MAX,
        old(cnts).debt < usize::MAX,
    ensures
        final(cnts).ref_cnt == old(cnts).ref_cnt + 1,
        old(cnts).ref_cnt == 0 ==> final(cnts).debt == old(cnts).debt + 1,
        old(cnts).ref_cnt != 0 ==> final(cnts).debt == old(cnts).debt && !r,
        old(cnts).backed() ==> final(cnts).backed(),
{
    cnts.ref_cnt = cnts.ref_cnt + 1;
    if cnts.ref_cnt == 1 {
        cnts.debt = cnts.debt + 1;
        // increment the strong count
        clone_global(global_cnt)
    } else {
        false
    }
}

/// Clones a local handle (`CachedLocalArc::clone`).
pub fn clone_local(cnts: &mut CachedCount)
    requires
        old(cnts).ref_cnt < usize::MAX,
    ensures
        *final(cnts) == (CachedCount { ref_cnt: (old(cnts).ref_cnt + 1) as usize, ..*old(cnts) }),
        old(cnts).ref_cnt >= 1 && old(cnts).backed() ==> final(cnts).backed(),
{
    cnts.ref_cnt = cnts.ref_cnt + 1;
}

/// The local part of dropping a local handle: the count goes down by one,
/// and the last local handle takes the whole debt, which `Some` returns to
/// be paid back to the global count.
pub fn local_drop_step(cnts: &mut CachedCount) -> (r: Option<usize>)
    requires
        old(cnts).ref_cnt >= 1,
    ensures
        r == (if old(cnts).ref_cnt == 1 {
            Some(old(cnts).debt)
        } else {
            None
        }),
        *final(cnts) == (if old(cnts).ref_cnt == 1 {
            CachedCount { ref_cnt: 0, debt: 0 }
        } else {
            CachedCount { ref_cnt: (old(cnts).ref_cnt - 1) as usize, debt: old(cnts).debt }
        }),
{
    cnts.ref_cnt = cnts.ref_cnt - 1;
    if cnts.ref_cnt == 0 {
        let debt = cnts.debt;
        cnts.debt = 0;
        Some(debt)
    } else {
        None
    }
}

/// Drops a local handle (`CachedLocalArc::drop`). The last local handle
/// pays the whole debt back to the global count; `true` when that was the
/// last global reference and the value has to be freed.
pub fn drop_local(cnts: &mut CachedCount, global_cnt: &AtomicUsize) -> (r: bool)
    requires
        old(cnts).ref_cnt >= 1,
    ensures
        final(cnts).ref_cnt == old(cnts).ref_cnt - 1,
        final(cnts).ref_cnt == 0 ==> final(cnts).debt == 0,
        final(cnts).ref_cnt != 0 ==> final(cnts).debt == old(cnts).debt && !r,
        old(cnts).backed() ==> final(cnts).backed(),
{
    match local_drop_step(cnts) {
        Some(debt) => release_global(global_cnt, debt),
        None => false,
    }
}

/// What `CachedLocalArc::upgrade` does to the counts.
#[derive(Clone, Copy, PartialEq, Eq, Structural, Debug)]
pub struct Upgrade {
    /// The global clone found the count above `MAX_REFCOUNT`; the caller
    /// aborts.
    pub abort: bool,
    /// The value has to be freed.
    pub free: bool,
}

/// How `CachedLocalArc::upgrade` gets the arc its reference.
#[derive(Clone, Copy, PartialEq, Eq, Structural, Debug)]
pub enum UpgradeAction {
    /// One reference of the debt becomes the arc's.
    UseDebt,
    /// The arc takes a new global reference, and the local handle is
    /// dropped afterwards.
    CloneGlobal,
}

/// The local part of an upgrade: with more than one reference of debt, the
/// handle is counted off and one reference of the debt becomes the arc's;
/// otherwise the counts stay as they are and the arc has to clone the
/// global count, after which the handle is dropped.
pub fn upgrade_step(cnts: &mut CachedCount) -> (r: UpgradeAction)
    requires
        old(cnts).ref_cnt >= 1,
    ensures
        r == (if old(cnts).debt > 1 {
            UpgradeAction::UseDebt
        } else {
            UpgradeAction::CloneGlobal
        }),
        *final(cnts) == (if old(cnts).debt > 1 {
            CachedCount { ref_cnt: (old(cnts).ref_cnt - 1) as usize, debt: (old(cnts).debt - 1) as usize }
        } else {
            *old(cnts)
        }),
{
    if cnts.debt > 1 {
        cnts.ref_cnt = cnts.ref_cnt - 1;
        cnts.debt = cnts.debt - 1;
        UpgradeAction::UseDebt
    } else {
        UpgradeAction::CloneGlobal
    }
}

/// Turns a local handle back into a `CachedArc`, consuming the handle. With
/// more than one reference of debt, one of them becomes the arc's.
/// Otherwise the arc takes a new global reference and the handle is
/// dropped, which pays the debt back when it was the thread's last one.
pub fn upgrade(cnts: &mut CachedCount, global_cnt: &AtomicUsize) -> (r: Upgrade)
    requires
        old(cnts).ref_cnt >= 1,
    ensures
        final(cnts).ref_cnt == old(cnts).ref_cnt - 1,
        old(cnts).debt > 1 ==> final(cnts).debt == old(cnts).debt - 1 && !r.abort && !r.free,
        old(cnts).debt <= 1 && final(cnts).ref_cnt != 0 ==> final(cnts).debt == old(cnts).debt && !r.free,
        old(cnts).debt <= 1 && final(cnts).ref_cnt == 0 ==> final(cnts).debt == 0,
        old(cnts).backed() ==> final(cnts).backed(),
{
    match upgrade_step(cnts) {
        UpgradeAction::UseDebt => Upgrade { abort: false, free: false },
        UpgradeAction::CloneGlobal => {
            let abort = clone_global(global_cnt);
            // the handle is dropped after the arc was built
            let free = drop_local(cnts, global_cnt);
            Upgrade { abort, free }
        },
    }
}

} // verus!
