//! The counting of `AutoLocalArc`, an `Arc` whose every thread keeps a cache
//! entry with its own reference count.
//!
//! The owner thread of a cache entry counts its handles in `ref_cnt`; other
//! threads that drop handles of that entry count them in `debt`. When both
//! agree, no handle of the entry is left and it can be cleaned up. The top
//! bit of `debt` marks an entry whose thread-local storage is gone
//! (detached).
use std::sync::atomic::{AtomicU64, AtomicU8, AtomicUsize, Ordering};
use vstd::prelude::*;

verus! {

/// The flag on `debt` marking a detached entry.
pub const DETACHED_FLAG: usize = 1usize << (usize::BITS - 1);

/// The largest local count; the top bit of `debt` is taken by the flag.
pub const MAX_REFCOUNT: usize = !0usize / 2;

/// The thread id of an entry that is being cleaned up or was cleaned up.
pub const INVALID_TID: u64 = u64::MAX - 1;

/// The thread id of a thread that has not looked up its id yet.
pub const NOT_PRESENT: u64 = u64::MAX;

/// The owner does not use the entry right now.
pub const CACHE_STATE_IDLE: u8 = 0;

/// The owner is using the entry.
pub const CACHE_STATE_IN_USE: u8 = 1;

/// The value is being destroyed; the entry is finished.
pub const CACHE_STATE_FINISH: u8 = 2;

/// The debt count without the detached flag.
pub fn strip_flags(debt: usize) -> (r: usize)
    ensures
        r == debt & !DETACHED_FLAG,
{
    debt & !DETACHED_FLAG
}

/// Whether the debt carries the detached flag.
pub fn is_detached(debt: usize) -> (r: bool)
    ensures
        r == (debt & DETACHED_FLAG != 0),
{
    debt & DETACHED_FLAG != 0
}

/// The flag and the count live apart in a debt word: stripping removes the
/// flag and nothing else, setting the flag is seen as detached and leaves
/// the count alone, and a count below `MAX_REFCOUNT` never carries the
/// flag.
pub proof fn lemma_debt_flags(debt: usize)
    ensures
        (debt & !DETACHED_FLAG) & DETACHED_FLAG == 0,
        (debt | DETACHED_FLAG) & DETACHED_FLAG != 0,
        (debt | DETACHED_FLAG) & !DETACHED_FLAG == debt & !DETACHED_FLAG,
        debt & DETACHED_FLAG == 0 ==> debt & !DETACHED_FLAG == debt,
        debt & !DETACHED_FLAG <= debt,
        debt <= MAX_REFCOUNT ==> debt & DETACHED_FLAG == 0,
{
    assert((debt & !(1usize << (usize::BITS - 1) as u32)) & (1usize << (usize::BITS - 1) as u32) == 0
        && (debt | (1usize << (usize::BITS - 1) as u32)) & (1usize << (usize::BITS - 1) as u32) != 0
        && (debt | (1usize << (usize::BITS - 1) as u32)) & !(1usize << (usize::BITS - 1) as u32)
            == debt & !(1usize << (usize::BITS - 1) as u32)
        && (debt & (1usize << (usize::BITS - 1) as u32) == 0 ==> debt & !(1usize << (usize::BITS - 1) as u32) == debt)
        && debt & !(1usize << (usize::BITS - 1) as u32) <= debt) by (bit_vector);
    assert(debt <= (!0usize) / 2 ==> debt & (1usize << (usize::BITS - 1) as u32) == 0) by (bit_vector);
}

/// A thread id can be used as long as it lies below the reserved ones.
pub fn tid_is_valid(tid: u64) -> (r: bool)
    ensures
        r == (tid < INVALID_TID),
{
    tid < INVALID_TID
}

/// No handle of an entry is left: its owner's count equals the debt the
/// other threads paid.
pub fn cache_unused(ref_cnt: usize, debt: usize) -> (r: bool)
    ensures
        r == (ref_cnt == debt & !DETACHED_FLAG),
{
    ref_cnt == strip_flags(debt)
}

/// The counters of one cache entry.
pub struct Metadata {
    pub thread_id: AtomicU64,
    pub ref_cnt: AtomicUsize,
    pub debt: AtomicUsize,
    pub state: AtomicU8,
}

/// What the owner's drop of a handle asks for.
#[derive(Clone, Copy, PartialEq, Eq, Structural, Debug)]
pub enum OwnerDrop {
    /// Handles are left; the entry went back to idle.
    Kept,
    /// No handle is left: the entry has to be cleaned up, with the
    /// detached flag as found.
    Cleanup { detached: bool },
}

/// What a clone through another thread's entry does with the calling
/// thread's own entry.
#[derive(Clone, Copy, PartialEq, Eq, Structural, Debug)]
pub enum ForeignClone {
    /// The own entry has no handle left: it is taken over for the clone
    /// (`reset_for`), after waiting until its last cleanup released it when
    /// `wait` is set.
    TakeOver { wait: bool },
    /// The own entry's count has reached `MAX_REFCOUNT`; the caller handles
    /// the large count.
    LargeRefCount { ref_cnt: usize },
    /// The own entry counts the clone.
    Counted,
}

/// The debt after one more payment on `prev`; the count wraps like the
/// release build.
pub open spec fn debt_after(prev: usize) -> usize {
    if prev == usize::MAX {
        0
    } else {
        (prev + 1) as usize
    }
}

/// Whether the entry has to be cleaned up after a payment on the debt
/// `prev`, given the owner's count `ref_cnt`, and whether it is detached.
pub open spec fn debt_outcome_of(prev: usize, ref_cnt: usize) -> (bool, bool) {
    (debt_after(prev) & !DETACHED_FLAG == ref_cnt, debt_after(prev) & DETACHED_FLAG != 0)
}

/// What the owner's drop leads to, given its count after the drop and the
/// debt: a cleanup, with the flag as found, exactly when they meet.
pub open spec fn owner_drop_of(ref_cnt: usize, debt: usize) -> OwnerDrop {
    if ref_cnt == debt & !DETACHED_FLAG {
        OwnerDrop::Cleanup { detached: debt & DETACHED_FLAG != 0 }
    } else {
        OwnerDrop::Kept
    }
}

/// What a payment of debt decides, given the debt `prev` found before it and
/// the owner's count `ref_cnt` read after it: whether the entry has to be
/// cleaned up (the new debt, flag aside, meets the count) and whether it is
/// detached.
pub fn debt_outcome(prev: usize, ref_cnt: usize) -> (r: (bool, bool))
    ensures
        r == debt_outcome_of(prev, ref_cnt),
{
    let debt = prev.wrapping_add(1);
    (strip_flags(debt) == ref_cnt, is_detached(debt))
}

/// What the owner's drop decides, given its count `ref_cnt` after the drop
/// and the debt it then read: the entry is cleaned up exactly when they
/// meet, flag aside.
pub fn owner_drop_outcome(ref_cnt: usize, debt: usize) -> (r: OwnerDrop)
    ensures
        r == owner_drop_of(ref_cnt, debt),
{
    if ref_cnt == strip_flags(debt) {
        OwnerDrop::Cleanup { detached: is_detached(debt) }
    } else {
        OwnerDrop::Kept
    }
}

/// The first decision of a foreign clone on the count `ref_cnt` and the
/// debt `debt` read from the own entry (`None`: the entry counts the clone).
pub open spec fn foreign_first_of(ref_cnt: usize, debt: usize) -> Option<ForeignClone> {
    if ref_cnt == debt & !DETACHED_FLAG {
        Some(ForeignClone::TakeOver { wait: debt > 0 })
    } else if ref_cnt >= MAX_REFCOUNT {
        Some(ForeignClone::LargeRefCount { ref_cnt })
    } else {
        None
    }
}

/// The second decision of a foreign clone, on the count `ref_cnt` read
/// before counting the clone and the debt `debt` read after it.
pub open spec fn foreign_counted_of(ref_cnt: usize, debt: usize) -> ForeignClone {
    if debt == ref_cnt {
        ForeignClone::TakeOver { wait: debt > 0 }
    } else {
        ForeignClone::Counted
    }
}

/// The first decision of a foreign clone, given the own entry's count and
/// debt: an unused entry is taken over (waiting for its cleanup when it had
/// a debt), a count at `MAX_REFCOUNT` goes to the caller, and `None` means
/// the entry counts the clone.
pub fn foreign_clone_first(ref_cnt: usize, debt: usize) -> (r: Option<ForeignClone>)
    ensures
        r == foreign_first_of(ref_cnt, debt),
{
    if ref_cnt == strip_flags(debt) {
        return Some(ForeignClone::TakeOver { wait: debt > 0 });
    }
    if crate::unlikely(ref_cnt >= MAX_REFCOUNT) {
        return Some(ForeignClone::LargeRefCount { ref_cnt });
    }
    None
}

/// The second decision of a foreign clone, once the entry counted it: if
/// the debt read afterwards equals the count read before, the entry was
/// released meanwhile and is taken over after all.
pub fn foreign_clone_counted(ref_cnt: usize, debt: usize) -> (r: ForeignClone)
    ensures
        r == foreign_counted_of(ref_cnt, debt),
{
    if debt == ref_cnt {
        ForeignClone::TakeOver { wait: debt > 0 }
    } else {
        ForeignClone::Counted
    }
}

/// What the drop of an entry's thread-local storage decides, given the
/// entry's state, and, unless the value is being destroyed, the owner's
/// count and the debt found when the detached flag was set: the entry has
/// to be cleaned up exactly when the value is not being destroyed and the
/// debt met the count.
pub fn detach_outcome(state: u8, ref_cnt: usize, prev_debt: usize) -> (r: bool)
    ensures
        r == (state != CACHE_STATE_FINISH && prev_debt == ref_cnt),
{
    state != CACHE_STATE_FINISH && prev_debt == ref_cnt
}

/// Whether the thread id `tid` marks an entry whose cleanup released it.
pub fn thread_released(tid: u64) -> (r: bool)
    ensures
        r == (tid == INVALID_TID),
{
    tid == INVALID_TID
}

impl Metadata {
    /// A thread clones a handle whose entry belongs to another thread; this
    /// is the calling thread's own entry. If it has no handle left (its count
    /// equals the debt, flag aside) it is taken over. Otherwise it counts
    /// one more handle, and if the debt then turns out to equal the count
    /// it read, the entry is taken over after all. Returns the outcome with
    /// the count and the debt read first and, when the clone was counted,
    /// the debt read afterwards.
    pub fn clone_foreign(&self) -> (r: (ForeignClone, usize, usize, Option<usize>))
        ensures
            r.3 is Some <==> foreign_first_of(r.1, r.2) is None,
            r.0 == (match r.3 {
                Some(later) => foreign_counted_of(r.1, later),
                None => foreign_first_of(r.1, r.2)->0,
            }),
            r.0 matches ForeignClone::LargeRefCount { ref_cnt } ==> ref_cnt >= MAX_REFCOUNT,
    {
        let ref_cnt = self.ref_cnt.load(Ordering::Relaxed);
        let debt = self.debt.load(Ordering::Acquire);
        if let Some(decided) = foreign_clone_first(ref_cnt, debt) {
            return (decided, ref_cnt, debt, None);
        }
        self.ref_cnt.store(ref_cnt + 1, Ordering::Release);
        crate::acquire_fence();
        let later = self.debt.load(Ordering::Acquire);
        (foreign_clone_counted(ref_cnt, later), ref_cnt, debt, Some(later))
    }

    /// Whether the entry's last cleanup has released it (its thread id is
    /// the invalid one); a take-over with `wait` set waits for this.
    pub fn released(&self) -> (r: bool) {
        let tid = self.thread_id.load(Ordering::Acquire);
        thread_released(tid)
    }

    /// The counters of a new entry: all zero.
    pub fn new() -> (r: Self) {
        Metadata {
            thread_id: AtomicU64::new(0),
            ref_cnt: AtomicUsize::new(0),
            debt: AtomicUsize::new(0),
            state: AtomicU8::new(0),
        }
    }

    /// The owner counts one more handle. `Some(count)` when the count has
    /// reached `MAX_REFCOUNT`: the caller handles the large count instead.
    pub fn increment_owned(&self) -> (r: Option<usize>)
        ensures
            r matches Some(c) ==> c >= MAX_REFCOUNT,
    {
        let ref_cnt = self.ref_cnt.load(Ordering::Relaxed);
        if crate::unlikely(ref_cnt >= MAX_REFCOUNT) {
            return Some(ref_cnt);
        }
        self.ref_cnt.store(ref_cnt + 1, Ordering::Release);
        None
    }

    /// The owner drops a handle: the entry is marked in use, the count goes
    /// down by one, and if it meets the debt the entry has to be cleaned
    /// up; otherwise the entry goes back to idle. The owner's count is at
    /// least one while it holds a handle; the decrement wraps like the
    /// release build. Returns the outcome with the count after the drop and
    /// the debt it was held against.
    pub fn drop_owned(&self) -> (r: (OwnerDrop, usize, usize))
        ensures
            r.0 == owner_drop_of(r.1, r.2),
    {
        let ref_cnt = self.ref_cnt.load(Ordering::Relaxed);
        self.state.store(CACHE_STATE_IN_USE, Ordering::Release);
        let ref_cnt = ref_cnt.wrapping_sub(1);
        self.ref_cnt.store(ref_cnt, Ordering::Release);
        crate::acquire_fence();
        let debt = self.debt.load(Ordering::Acquire);
        let outcome = owner_drop_outcome(ref_cnt, debt);
        if outcome == OwnerDrop::Kept {
            self.state.store(CACHE_STATE_IDLE, Ordering::Release);
        }
        (outcome, ref_cnt, debt)
    }

    /// Another thread drops a handle of this entry: one more debt. `true`
    /// when the debt now meets the owner's count and the entry has to be
    /// cleaned up; the flag is read from the debt. Returns the outcome with
    /// the debt found before the payment and the owner's count read after
    /// it.
    pub fn pay_debt(&self) -> (r: ((bool, bool), usize, usize))
        ensures
            r.0 == debt_outcome_of(r.1, r.2),
    {
        let prev = self.debt.fetch_add(1, Ordering::AcqRel);
        crate::acquire_fence();
        let ref_cnt = self.ref_cnt.load(Ordering::Acquire);
        (debt_outcome(prev, ref_cnt), prev, ref_cnt)
    }

    /// Claims the entry for cleaning up, if its thread id still is
    /// `exp_tid`.
    pub fn claim(&self, exp_tid: u64) -> (r: bool) {
        self.thread_id.compare_exchange(exp_tid, INVALID_TID, Ordering::AcqRel, Ordering::Relaxed).is_ok()
    }

    /// Marks the entry of the value's own thread as detached when the value
    /// itself is about to be freed, and lets the destructor go on.
    pub fn finish_major_cleanup(&self) {
        self.debt.fetch_or(DETACHED_FLAG, Ordering::AcqRel);
        self.state.store(CACHE_STATE_IDLE, Ordering::Release);
        crate::acquire_fence();
    }

    /// The thread-local storage of the entry is dropped: unless the value is
    /// being destroyed, the entry is marked detached. `true` when no handle
    /// of it is left and it has to be cleaned up.
    pub fn detach(&self) -> (r: bool) {
        let state = self.state.load(Ordering::Acquire);
        if state != CACHE_STATE_FINISH {
            let ref_cnt = self.ref_cnt.load(Ordering::Acquire);
            let debt = self.debt.fetch_or(DETACHED_FLAG, Ordering::AcqRel);
            detach_outcome(state, ref_cnt, debt)
        } else {
            false
        }
    }

    /// Takes the entry over for the thread `tid` after it was found unused:
    /// it counts the handle being cloned and the one of the thread, and has
    /// no debt.
    pub fn reset_for(&self, tid: u64) {
        // this is `2`: one reference for the current thread's instance and one
        // for the newly created instance
        self.ref_cnt.store(2, Ordering::Release);
        // the debt is updated after the count so that an acquire load of
        // the debt sees the count
        self.debt.store(0, Ordering::Release);
        self.thread_id.store(tid, Ordering::Release);
        self.state.store(CACHE_STATE_IDLE, Ordering::Release);
    }
}

} // verus!
