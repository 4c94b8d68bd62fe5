//! The per-thread cache of a `SwapArc`.
//!
//! Each thread keeps up to three slots: `curr`, the value it hands out as
//! long as nothing changed; `new`, a more recent value it found while
//! `curr` was still in use; and `intermediate`, a value it read from the
//! `intermediate` pointer while an update was on its way. Every slot counts
//! the guards handed out from it (`ref_cnt`) and carries a generation
//! number (`gen_cnt`) by which a guard finds its slot again when it is
//! dropped. `curr` and `new` hold a reference to their value; the
//! `intermediate` slot is protected by the shared `intermediate` counter
//! while its count is not zero.
use core::mem::ManuallyDrop;
use core::ops::Deref;
use std::sync::atomic::Ordering;
use vstd::prelude::*;

use crate::meta::{ptr_of, strip_metadata, UPDATE};
use crate::{acquire_ref, release_ref, DataPtrConvert, SwapArcAnyMeta};

verus! {

/// One slot of the thread-local cache.
#[derive(Clone, Copy, PartialEq, Eq, Structural, Debug)]
pub struct LocalCounted {
    pub gen_cnt: usize,
    pub ptr: usize,
    pub ref_cnt: usize,
}

/// The thread-local cache of a `SwapArc`.
pub struct LocalDataInner {
    pub next_gen_cnt: usize,
    pub intermediate: LocalCounted,
    pub new: LocalCounted,
    pub curr: LocalCounted,
}

/// What a load hands out: the pointer and the generation of the slot that
/// counts the guard.
#[derive(Clone, Copy, PartialEq, Eq, Structural, Debug)]
pub struct LoadedRef {
    pub ptr: usize,
    pub gen_cnt: usize,
}

/// The generation number that follows `gen`; `0` is skipped, it marks a
/// slot that never had a generation of its own.
pub open spec fn next_gen(gen: usize) -> usize {
    if gen == usize::MAX {
        1
    } else {
        (gen + 1) as usize
    }
}

/// Whether the slot counts at least one guard. The `new` slot starts out
/// with the count `usize::MAX`, which marks a cache that has not served a
/// load yet.
pub open spec fn in_use(s: LocalCounted) -> bool {
    s.ref_cnt != 0 && s.ref_cnt != usize::MAX
}

/// Which slot of the cache.
#[derive(PartialEq, Eq, Structural, Clone, Copy, Debug)]
pub enum SlotKind {
    Curr,
    New,
    Intermediate,
}

impl LocalCounted {
    /// The slot that holds nothing.
    pub fn empty() -> (r: Self)
        ensures
            r.gen_cnt == 0,
            r.ptr == 0,
            r.ref_cnt == 0,
    {
        LocalCounted { gen_cnt: 0, ptr: 0, ref_cnt: 0 }
    }

    /// A slot with a fresh generation for `ptr`, counting one guard.
    pub fn new(parent: &mut LocalDataInner, ptr: usize) -> (r: Self)
        ensures
            r.gen_cnt == old(parent).next_gen_cnt,
            r.ptr == ptr,
            r.ref_cnt == 1,
            final(parent).next_gen_cnt == next_gen(old(parent).next_gen_cnt),
            final(parent).curr == old(parent).curr,
            final(parent).new == old(parent).new,
            final(parent).intermediate == old(parent).intermediate,
    {
        let gen_cnt = parent.next_gen_cnt;
        // on overflow the counter continues at 1, never at 0
        parent.next_gen_cnt = match gen_cnt.checked_add(1) {
            Some(next) => next,
            None => 1,
        };
        LocalCounted { gen_cnt, ptr, ref_cnt: 1 }
    }
}

/// Refills a slot that counts no guard with `ptr`, keeping its generation.
/// A slot that holds a reference (`drops`) gives back the reference to its
/// old value.
pub fn refill_unchecked<T: Send + Sync, D: DataPtrConvert<T>>(slot: &mut LocalCounted, ptr: usize, drops: bool)
    ensures
        final(slot).gen_cnt == old(slot).gen_cnt,
        final(slot).ptr == ptr,
        final(slot).ref_cnt == 1,
{
    if drops {
        if slot.ptr != 0 {
            release_ref::<T, D>(slot.ptr);
        }
    }
    slot.ptr = ptr;
    slot.ref_cnt = 1;
}

/// Overwrites a slot that holds a reference, giving back the reference to
/// its old value.
pub fn replace_slot<T: Send + Sync, D: DataPtrConvert<T>>(slot: &mut LocalCounted, with: LocalCounted)
    ensures
        *final(slot) == with,
{
    if slot.ptr != 0 {
        release_ref::<T, D>(slot.ptr);
    }
    *slot = with;
}

impl LocalDataInner {
    /// What every cache keeps: the generation counter never reaches `0`,
    /// the marker count `usize::MAX` only sits on an empty `new` slot of a
    /// cache that has not served a load, and an `intermediate` slot that
    /// counts guards has a generation (and never the marker count).
    pub open spec fn wf(self) -> bool {
        &&& self.next_gen_cnt != 0
        &&& (self.new.ref_cnt == usize::MAX ==> self.new.gen_cnt == 0 && self.new.ptr == 0 && self.curr.ref_cnt >= 1)
        &&& (self.intermediate.ref_cnt != 0 ==> self.intermediate.gen_cnt != 0)
        &&& self.intermediate.ref_cnt != usize::MAX
    }

    /// No count is about to overflow: a load adds one guard to a slot, and
    /// a count never reaches `usize::MAX`, the marker of an unused `new`
    /// slot.
    pub open spec fn counts_bounded(self) -> bool {
        &&& self.curr.ref_cnt < usize::MAX - 1
        &&& self.intermediate.ref_cnt < usize::MAX - 1
        &&& (self.new.ref_cnt < usize::MAX - 1 || self.new.ref_cnt == usize::MAX)
    }

    /// The slot of each kind.
    pub open spec fn slot(self, kind: SlotKind) -> LocalCounted {
        match kind {
            SlotKind::Curr => self.curr,
            SlotKind::New => self.new,
            SlotKind::Intermediate => self.intermediate,
        }
    }

    /// The slot a guard of generation `gen` is given back to: `curr` if the
    /// generation is `curr`'s, else `new` if it is `new`'s, else
    /// `intermediate`.
    pub open spec fn slot_kind_of(self, gen: usize) -> SlotKind {
        if gen == self.curr.gen_cnt {
            SlotKind::Curr
        } else if gen == self.new.gen_cnt {
            SlotKind::New
        } else {
            SlotKind::Intermediate
        }
    }

    /// Every slot that counts guards is the one its generation leads back
    /// to, so a guard is always given back to the slot it came from.
    pub open spec fn dispatch_ok(self) -> bool {
        &&& (in_use(self.new) ==> self.new.gen_cnt != self.curr.gen_cnt)
        &&& (in_use(self.intermediate) ==> self.intermediate.gen_cnt != self.curr.gen_cnt
            && self.intermediate.gen_cnt != self.new.gen_cnt)
    }

    /// Generation numbers are handed out in increasing order: every slot's
    /// generation lies below the counter, and the slots that have a
    /// generation of their own have different ones.
    pub open spec fn gens_ok(self) -> bool {
        &&& self.curr.gen_cnt < self.next_gen_cnt
        &&& self.new.gen_cnt < self.next_gen_cnt
        &&& self.intermediate.gen_cnt < self.next_gen_cnt
        &&& (self.new.gen_cnt != 0 ==> self.new.gen_cnt != self.curr.gen_cnt)
        &&& (self.intermediate.gen_cnt != 0 ==> self.intermediate.gen_cnt != self.curr.gen_cnt
            && self.intermediate.gen_cnt != self.new.gen_cnt)
    }

    /// `gens_ok`, and a `new` slot in use without a generation of its own is
    /// never confused with `curr`.
    pub open spec fn healthy(self) -> bool {
        &&& self.gens_ok()
        &&& (in_use(self.new) && self.new.gen_cnt == 0 ==> self.curr.gen_cnt != 0)
    }

    /// The guard `r` is counted by the slot of kind `kind`: the slot has the
    /// guard's generation and pointer and counts at least one guard.
    pub open spec fn backs(self, kind: SlotKind, r: LoadedRef) -> bool {
        &&& self.slot(kind).gen_cnt == r.gen_cnt
        &&& self.slot(kind).ptr == r.ptr
        &&& self.slot(kind).ref_cnt >= 1
        &&& self.slot(kind).ref_cnt != usize::MAX
    }

    /// The guards counted by the slot of kind `kind`; the very first load of
    /// a thread is counted in advance in `curr`, and the marker count of an
    /// unused `new` slot counts none.
    pub open spec fn effective_count(self, kind: SlotKind) -> int {
        if kind == SlotKind::New && self.new.ref_cnt == usize::MAX {
            0
        } else if kind == SlotKind::Curr && self.new.ref_cnt == usize::MAX {
            self.curr.ref_cnt - 1
        } else {
            self.slot(kind).ref_cnt as int
        }
    }

    /// Every slot of `self` that counts guards lives on in `after` (maybe
    /// in another position) with its generation, its pointer and at least
    /// as many guards: nothing a guard points to is given up.
    pub open spec fn kept_in(self, after: Self) -> bool {
        forall|k: SlotKind| #![trigger self.slot(k)]
            in_use(self.slot(k)) ==> exists|k2: SlotKind| #![trigger after.slot(k2)]
                after.slot(k2).gen_cnt == self.slot(k).gen_cnt && after.slot(k2).ptr == self.slot(k).ptr
                    && after.slot(k2).ref_cnt >= self.slot(k).ref_cnt && after.slot(k2).ref_cnt != usize::MAX
    }
}


/// Every slot that counts guards moves to the position `f` names, with its
/// generation, its pointer and at least as many guards.
pub proof fn lemma_kept_by(before: LocalDataInner, after: LocalDataInner, f: spec_fn(SlotKind) -> SlotKind)
    requires
        forall|k: SlotKind| in_use(#[trigger] before.slot(k)) ==> {
            &&& after.slot(f(k)).gen_cnt == before.slot(k).gen_cnt
            &&& after.slot(f(k)).ptr == before.slot(k).ptr
            &&& after.slot(f(k)).ref_cnt >= before.slot(k).ref_cnt
            &&& after.slot(f(k)).ref_cnt != usize::MAX
        },
    ensures
        before.kept_in(after),
{
    assert forall|k: SlotKind| #![trigger before.slot(k)] in_use(before.slot(k)) implies exists|k2: SlotKind| #![trigger after.slot(k2)]
        after.slot(k2).gen_cnt == before.slot(k).gen_cnt && after.slot(k2).ptr == before.slot(k).ptr
            && after.slot(k2).ref_cnt >= before.slot(k).ref_cnt && after.slot(k2).ref_cnt != usize::MAX by {
        let k2 = f(k);
        assert(after.slot(k2).gen_cnt == before.slot(k).gen_cnt);
    }
}

/// Keeping guards is transitive.
pub proof fn lemma_kept_trans(a: LocalDataInner, b: LocalDataInner, c: LocalDataInner)
    requires
        a.kept_in(b),
        b.kept_in(c),
    ensures
        a.kept_in(c),
{
    assert forall|k: SlotKind| #![trigger a.slot(k)] in_use(a.slot(k)) implies exists|k3: SlotKind| #![trigger c.slot(k3)]
        c.slot(k3).gen_cnt == a.slot(k).gen_cnt && c.slot(k3).ptr == a.slot(k).ptr
            && c.slot(k3).ref_cnt >= a.slot(k).ref_cnt && c.slot(k3).ref_cnt != usize::MAX by {
        let k2 = choose|k2: SlotKind| #![trigger b.slot(k2)]
            b.slot(k2).gen_cnt == a.slot(k).gen_cnt && b.slot(k2).ptr == a.slot(k).ptr
                && b.slot(k2).ref_cnt >= a.slot(k).ref_cnt && b.slot(k2).ref_cnt != usize::MAX;
        assert(in_use(b.slot(k2)));
        let k3 = choose|k3: SlotKind| #![trigger c.slot(k3)]
            c.slot(k3).gen_cnt == b.slot(k2).gen_cnt && c.slot(k3).ptr == b.slot(k2).ptr
                && c.slot(k3).ref_cnt >= b.slot(k2).ref_cnt && c.slot(k3).ref_cnt != usize::MAX;
        assert(c.slot(k3).gen_cnt == a.slot(k).gen_cnt);
    }
}

/// The cache after it took the value `fresh` of a strong read while `new`
/// counted no guard, with the guard handed out for it: `curr` takes the
/// value if it counts no guard, else `new` does, keeping its generation or
/// getting a fresh one.
pub open spec fn fresh_cached(d: LocalDataInner, fresh: usize) -> (LocalDataInner, LoadedRef) {
    if d.curr.ref_cnt == 0 {
        (
            LocalDataInner { curr: LocalCounted { gen_cnt: d.curr.gen_cnt, ptr: fresh, ref_cnt: 1 }, ..d },
            LoadedRef { ptr: fresh, gen_cnt: d.curr.gen_cnt },
        )
    } else if d.new.gen_cnt != 0 {
        (
            LocalDataInner { new: LocalCounted { gen_cnt: d.new.gen_cnt, ptr: fresh, ref_cnt: 1 }, ..d },
            LoadedRef { ptr: fresh, gen_cnt: d.new.gen_cnt },
        )
    } else {
        (
            LocalDataInner {
                new: LocalCounted { gen_cnt: d.next_gen_cnt, ptr: fresh, ref_cnt: 1 },
                next_gen_cnt: next_gen(d.next_gen_cnt),
                ..d
            },
            LoadedRef { ptr: fresh, gen_cnt: d.next_gen_cnt },
        )
    }
}

/// Puts the value `fresh` of a strong read, whose reference the caller
/// hands over, into a cache whose `new` slot counts no guard, and hands out
/// one guard for it. The reference of the value the slot held before is
/// given back.
pub fn cache_fresh<T: Send + Sync, D: DataPtrConvert<T>>(data: &mut LocalDataInner, fresh: usize) -> (r: LoadedRef)
    ensures
        (*final(data), r) == fresh_cached(*old(data), fresh),
{
    if data.curr.ref_cnt == 0 {
        // no guard of `curr` is left, so it can take the value at once
        refill_unchecked::<T, D>(&mut data.curr, fresh, true);
        LoadedRef { ptr: fresh, gen_cnt: data.curr.gen_cnt }
    } else {
        if data.new.gen_cnt != 0 {
            refill_unchecked::<T, D>(&mut data.new, fresh, true);
        } else {
            let slot = LocalCounted::new(data, fresh);
            replace_slot::<T, D>(&mut data.new, slot);
        }
        LoadedRef { ptr: fresh, gen_cnt: data.new.gen_cnt }
    }
}

/// The slot that holds nothing.
pub open spec fn empty_slot() -> LocalCounted {
    LocalCounted { gen_cnt: 0, ptr: 0, ref_cnt: 0 }
}

/// The cache a thread starts with when its first strong read gave `p`.
pub open spec fn initial_cache(p: usize) -> LocalDataInner {
    LocalDataInner {
        next_gen_cnt: 2,
        intermediate: empty_slot(),
        new: LocalCounted { gen_cnt: 0, ptr: 0, ref_cnt: usize::MAX },
        curr: LocalCounted { gen_cnt: 1, ptr: p, ref_cnt: 1 },
    }
}

/// The cache after a load that hands out `curr` once more: `new` counted no
/// guard, and `curr` counts one more.
pub open spec fn fast_loaded(o: LocalDataInner, f: LocalDataInner, r: LoadedRef) -> bool {
    &&& o.new.ref_cnt == 0
    &&& r == (LoadedRef { ptr: o.curr.ptr, gen_cnt: o.curr.gen_cnt })
    &&& f == (LocalDataInner { curr: LocalCounted { ref_cnt: (o.curr.ref_cnt + 1) as usize, ..o.curr }, ..o })
}

/// The cache after a drained `curr` gave way to `new`.
pub open spec fn moved_to_curr(o: LocalDataInner) -> LocalDataInner {
    LocalDataInner { curr: o.new, new: empty_slot(), ..o }
}

/// The cache and the guard after a load read the shared `intermediate`
/// counter as `icnt` and the pointer `p` from the `intermediate` pointer:
/// unless an update of it was running, the `intermediate` slot takes `p`
/// (keeping its generation or getting a fresh one) and backs the guard;
/// otherwise `new` hands out one more guard.
pub open spec fn intermediate_taken(d: LocalDataInner, icnt: usize, p: usize) -> (LocalDataInner, LoadedRef) {
    if icnt & UPDATE == 0 {
        if d.intermediate.gen_cnt != 0 {
            (
                LocalDataInner { intermediate: LocalCounted { gen_cnt: d.intermediate.gen_cnt, ptr: p, ref_cnt: 1 }, ..d },
                LoadedRef { ptr: p, gen_cnt: d.intermediate.gen_cnt },
            )
        } else {
            (
                LocalDataInner {
                    intermediate: LocalCounted { gen_cnt: d.next_gen_cnt, ptr: p, ref_cnt: 1 },
                    next_gen_cnt: next_gen(d.next_gen_cnt),
                    ..d
                },
                LoadedRef { ptr: p, gen_cnt: d.next_gen_cnt },
            )
        }
    } else {
        (
            LocalDataInner { new: LocalCounted { ref_cnt: (d.new.ref_cnt + 1) as usize, ..d.new }, ..d },
            LoadedRef { ptr: d.new.ptr, gen_cnt: d.new.gen_cnt },
        )
    }
}

/// The cache `f` and the guard `r` that a load which cannot simply hand out
/// `curr` once more leaves, from the cache `o`, with `mask` the metadata
/// mask; `p` stands for a pointer a strong read returned and `icnt`, `p`
/// for what was read of the shared `intermediate` counter and pointer.
pub open spec fn slow_loaded(o: LocalDataInner, f: LocalDataInner, r: LoadedRef, mask: usize) -> bool {
    if o.new.ref_cnt == 0 {
        // the value of a strong read goes into the cache
        exists|p: usize| #[trigger] fresh_cached(o, p) == (f, r) && p & mask == 0
    } else if o.new.ref_cnt == usize::MAX {
        // the first load of a thread: its guard was counted in advance
        f == (LocalDataInner { new: empty_slot(), ..o }) && r == (LoadedRef { ptr: o.curr.ptr, gen_cnt: o.curr.gen_cnt })
    } else if o.curr.ref_cnt == 0 {
        if o.intermediate.ref_cnt != 0 {
            // `new` moves to `curr` and the `intermediate` slot to `new`,
            // which counts the guard handed out
            f == (LocalDataInner {
                curr: o.new,
                new: LocalCounted { ref_cnt: (o.intermediate.ref_cnt + 1) as usize, ..o.intermediate },
                intermediate: empty_slot(),
                ..o
            }) && r == (LoadedRef { ptr: o.intermediate.ptr, gen_cnt: o.intermediate.gen_cnt })
        } else {
            // `new` moves to `curr`; a strong read that gives the same
            // pointer is handed out from `curr`, another one goes to `new`
            let m = moved_to_curr(o);
            ||| (f == (LocalDataInner { curr: LocalCounted { ref_cnt: (m.curr.ref_cnt + 1) as usize, ..m.curr }, ..m })
                && r == (LoadedRef { ptr: m.curr.ptr, gen_cnt: m.curr.gen_cnt }))
            ||| exists|p: usize| #[trigger] fresh_cached(m, p) == (f, r) && p & mask == 0 && p != m.curr.ptr
        }
    } else if o.intermediate.ref_cnt != 0 {
        f == (LocalDataInner { intermediate: LocalCounted { ref_cnt: (o.intermediate.ref_cnt + 1) as usize, ..o.intermediate }, ..o })
            && r == (LoadedRef { ptr: o.intermediate.ptr, gen_cnt: o.intermediate.gen_cnt })
    } else {
        exists|icnt: usize, p: usize| #[trigger] intermediate_taken(o, icnt, p) == (f, r) && p & mask == 0
    }
}

/// Takes the value `p` read from the `intermediate` pointer into the cache,
/// given the shared `intermediate` counter `icnt` read before it: as
/// `intermediate_taken` says. The second part tells whether the reference
/// taken on the shared counter is kept (the slot took `p`) or has to be
/// given back.
pub fn take_intermediate(data: &mut LocalDataInner, icnt: usize, p: usize) -> (r: (LoadedRef, bool))
    requires
        old(data).new.ref_cnt < usize::MAX,
    ensures
        (*final(data), r.0) == intermediate_taken(*old(data), icnt, p),
        r.1 == (icnt & UPDATE == 0),
{
    if icnt & UPDATE == 0 {
        if data.intermediate.gen_cnt != 0 {
            data.intermediate = LocalCounted { gen_cnt: data.intermediate.gen_cnt, ptr: p, ref_cnt: 1 };
        } else {
            let slot = LocalCounted::new(data, p);
            data.intermediate = slot;
        }
        (LoadedRef { ptr: p, gen_cnt: data.intermediate.gen_cnt }, true)
    } else {
        data.new.ref_cnt = data.new.ref_cnt + 1;
        (LoadedRef { ptr: data.new.ptr, gen_cnt: data.new.gen_cnt }, false)
    }
}

impl LocalDataInner {
    /// The number of guards the cache counts, over all slots.
    pub open spec fn total_count(self) -> int {
        self.effective_count(SlotKind::Curr) + self.effective_count(SlotKind::New)
            + self.effective_count(SlotKind::Intermediate)
    }

    /// The cache a thread starts with: `curr` holds the value of its first
    /// strong read and already counts the guard of its first load.
    pub fn initial(curr_ptr: usize) -> (r: Self)
        ensures
            r.wf(),
            r.dispatch_ok(),
            r.total_count() == 0,
            r.healthy(),
            r == initial_cache(curr_ptr),
    {
        LocalDataInner {
            next_gen_cnt: 2,
            intermediate: LocalCounted::empty(),
            new: LocalCounted { gen_cnt: 0, ptr: 0, ref_cnt: usize::MAX },
            curr: LocalCounted { gen_cnt: 1, ptr: curr_ptr, ref_cnt: 1 },
        }
    }
}

impl<T: Send + Sync, D: DataPtrConvert<T>, const METADATA_BITS: u32> SwapArcAnyMeta<T, D, METADATA_BITS> {
    /// Sets up the cache of the calling thread from a strong read. `Some`
    /// asks the caller to bring `ptr` up to date with the given pointer
    /// (see `release_strong`).
    pub fn init_local(&self) -> (r: (LocalDataInner, Option<usize>))
        requires
            self.wf(),
        ensures
            r.0.wf(),
            r.0.dispatch_ok(),
            r.0.total_count() == 0,
            r.0.curr.ref_cnt == 1,
            r.0.curr.ptr & self.mask() == 0,
            r.0 == initial_cache(r.0.curr.ptr),
            r.0.healthy(),
    {
        let curr = self.load_strongly();
        // take a reference for the cache
        let cloned = curr.fake_ref.deref().clone();
        let _kept = cloned.into_ptr();
        let data = LocalDataInner::initial(curr.ptr);
        let pending = self.release_strong(curr);
        (data, pending)
    }

    /// Loads the stored value: the pointer and the generation by which the
    /// guard is given back (`release_guard`). `Some` in the second part asks
    /// the caller to bring `ptr` up to date with the given pointer.
    pub fn load(&self, data: &mut LocalDataInner) -> (r: (LoadedRef, Option<usize>))
        requires
            self.wf(),
            old(data).wf(),
            old(data).counts_bounded(),
        ensures
            final(data).wf(),
            final(data).new.ref_cnt != usize::MAX,
            final(data).backs(SlotKind::Curr, r.0) || final(data).backs(SlotKind::New, r.0)
                || final(data).backs(SlotKind::Intermediate, r.0),
            old(data).kept_in(*final(data)),
            final(data).total_count() == old(data).total_count() + 1,
            old(data).gens_ok() && old(data).next_gen_cnt < usize::MAX ==> final(data).gens_ok()
                && final(data).effective_count(final(data).slot_kind_of(r.0.gen_cnt)) >= 1,
            old(data).healthy() && old(data).next_gen_cnt < usize::MAX ==> final(data).healthy(),
            fast_loaded(*old(data), *final(data), r.0) || slow_loaded(*old(data), *final(data), r.0, self.mask()),
    {
        let word = self.ptr.load(Ordering::Relaxed);
        self.load_seen(data, word)
    }

    /// A load that found the word `word` in `ptr`. As long as `ptr` still
    /// holds the pointer of `curr` and `new` counts no guard, the load hands
    /// out `curr` once more and touches no shared counter.
    pub fn load_seen(&self, data: &mut LocalDataInner, word: usize) -> (r: (LoadedRef, Option<usize>))
        requires
            self.wf(),
            old(data).wf(),
            old(data).counts_bounded(),
        ensures
            final(data).wf(),
            final(data).new.ref_cnt != usize::MAX,
            final(data).backs(SlotKind::Curr, r.0) || final(data).backs(SlotKind::New, r.0)
                || final(data).backs(SlotKind::Intermediate, r.0),
            old(data).kept_in(*final(data)),
            final(data).total_count() == old(data).total_count() + 1,
            old(data).gens_ok() && old(data).next_gen_cnt < usize::MAX ==> final(data).gens_ok()
                && final(data).effective_count(final(data).slot_kind_of(r.0.gen_cnt)) >= 1,
            old(data).healthy() && old(data).next_gen_cnt < usize::MAX ==> final(data).healthy(),
            !(ptr_of(word, self.mask()) == old(data).curr.ptr && old(data).new.ref_cnt == 0)
                ==> slow_loaded(*old(data), *final(data), r.0, self.mask()),
            ptr_of(word, self.mask()) == old(data).curr.ptr && old(data).new.ref_cnt == 0 ==> {
                &&& r.0 == (LoadedRef { ptr: old(data).curr.ptr, gen_cnt: old(data).curr.gen_cnt })
                &&& r.1 is None
                &&& *final(data) == (LocalDataInner {
                    curr: LocalCounted { ref_cnt: (old(data).curr.ref_cnt + 1) as usize, ..old(data).curr },
                    ..*old(data)
                })
            },
    {
        let no_update = strip_metadata(word, self.meta_mask) == data.curr.ptr;
        if crate::likely(no_update && data.new.ref_cnt == 0) {
            data.curr.ref_cnt = data.curr.ref_cnt + 1;
            let r = LoadedRef { ptr: data.curr.ptr, gen_cnt: data.curr.gen_cnt };
            assert(final(data).backs(SlotKind::Curr, r));
            assert(fast_loaded(*old(data), *final(data), r));
            proof {
                lemma_kept_by(*old(data), *data, |k: SlotKind| k);
            }
            return (r, None);
        }
        self.load_slow(data)
    }

    /// Brings the cache up to date with a strong read when `new` counts no
    /// guard: the value goes to `curr` if `curr` counts no guard, else to
    /// `new`.
    fn load_updated_slow(&self, data: &mut LocalDataInner) -> (r: (LoadedRef, Option<usize>))
        requires
            self.wf(),
            old(data).wf(),
            old(data).new.ref_cnt == 0,
        ensures
            exists|p: usize| #[trigger] fresh_cached(*old(data), p) == (*final(data), r.0) && p & self.mask() == 0,
            final(data).wf(),
            final(data).new.ref_cnt != usize::MAX,
            final(data).backs(SlotKind::Curr, r.0) || final(data).backs(SlotKind::New, r.0),
            old(data).kept_in(*final(data)),
            final(data).total_count() == old(data).total_count() + 1,
            old(data).gens_ok() && old(data).next_gen_cnt < usize::MAX ==> final(data).gens_ok()
                && final(data).effective_count(final(data).slot_kind_of(r.0.gen_cnt)) >= 1,
            old(data).healthy() && old(data).next_gen_cnt < usize::MAX ==> final(data).healthy(),
    {
        let curr = self.load_strongly();
        // take a reference for the cache
        let cloned = curr.fake_ref.deref().clone();
        let _kept = cloned.into_ptr();
        let r = cache_fresh::<T, D>(data, curr.ptr);
        let pending = self.release_strong(curr);
        assert(fresh_cached(*old(data), curr.ptr) == (*final(data), r) && curr.ptr & self.mask() == 0);
        assert(final(data).backs(SlotKind::Curr, r) || final(data).backs(SlotKind::New, r));
        proof {
            lemma_kept_by(*old(data), *data, |k: SlotKind| k);
        }
        (r, pending)
    }
}


impl<T: Send + Sync, D: DataPtrConvert<T>, const METADATA_BITS: u32> SwapArcAnyMeta<T, D, METADATA_BITS> {
    /// The loads that cannot simply hand out `curr` once more.
    fn load_slow(&self, data: &mut LocalDataInner) -> (r: (LoadedRef, Option<usize>))
        requires
            self.wf(),
            old(data).wf(),
            old(data).counts_bounded(),
        ensures
            final(data).wf(),
            final(data).new.ref_cnt != usize::MAX,
            final(data).backs(SlotKind::Curr, r.0) || final(data).backs(SlotKind::New, r.0)
                || final(data).backs(SlotKind::Intermediate, r.0),
            old(data).kept_in(*final(data)),
            final(data).total_count() == old(data).total_count() + 1,
            old(data).gens_ok() && old(data).next_gen_cnt < usize::MAX ==> final(data).gens_ok()
                && final(data).effective_count(final(data).slot_kind_of(r.0.gen_cnt)) >= 1,
            old(data).healthy() && old(data).next_gen_cnt < usize::MAX ==> final(data).healthy(),
            slow_loaded(*old(data), *final(data), r.0, self.mask()),
    {
        if data.new.ref_cnt == 0 {
            return self.load_updated_slow(data);
        }
        if crate::unlikely(data.new.ref_cnt == usize::MAX) {
            // the first load of this thread: its guard is already counted
            data.new.ref_cnt = 0;
            let r = LoadedRef { ptr: data.curr.ptr, gen_cnt: data.curr.gen_cnt };
            assert(final(data).backs(SlotKind::Curr, r));
            proof {
                lemma_kept_by(*old(data), *data, |k: SlotKind| k);
            }
            return (r, None);
        }
        if data.curr.ref_cnt == 0 {
            // `curr` is drained: `new` takes its place
            let taken = data.new;
            data.new = LocalCounted::empty();
            replace_slot::<T, D>(&mut data.curr, taken);
            if data.intermediate.ref_cnt != 0 {
                // the `intermediate` slot becomes `new`, holding a reference
                // of its own instead of the shared counter
                acquire_ref::<T, D>(data.intermediate.ptr);
                let promoted_slot = data.intermediate;
                data.intermediate = LocalCounted::empty();
                replace_slot::<T, D>(&mut data.new, promoted_slot);
                // the slot counts the guard handed out
                data.new.ref_cnt = data.new.ref_cnt + 1;
                let pending = self.release_intermediate_ref();
                let r = LoadedRef { ptr: data.new.ptr, gen_cnt: data.new.gen_cnt };
                assert(final(data).backs(SlotKind::New, r));
                proof {
                    lemma_kept_by(*old(data), *data, |k: SlotKind| match k {
                        SlotKind::Intermediate => SlotKind::New,
                        _ => SlotKind::Curr,
                    });
                }
                return (r, pending);
            }
            let ghost moved = *data;
            assert(moved == moved_to_curr(*old(data)));
            let curr = self.load_strongly();
            if curr.ptr == data.curr.ptr {
                // nothing changed: keep using `curr`
                data.curr.ref_cnt = data.curr.ref_cnt + 1;
                let pending = self.release_strong(curr);
                let r = LoadedRef { ptr: data.curr.ptr, gen_cnt: data.curr.gen_cnt };
                assert(final(data).backs(SlotKind::Curr, r));
                proof {
                    lemma_kept_by(*old(data), *data, |k: SlotKind| match k {
                        SlotKind::New => SlotKind::Curr,
                        _ => k,
                    });
                }
                return (r, pending);
            }
            // take a reference for the cache
            let cloned = curr.fake_ref.deref().clone();
            let _kept = cloned.into_ptr();
            let r = cache_fresh::<T, D>(data, curr.ptr);
            let pending = self.release_strong(curr);
            assert(fresh_cached(moved, curr.ptr) == (*final(data), r) && curr.ptr & self.mask() == 0
                && curr.ptr != moved.curr.ptr);
            assert(final(data).backs(SlotKind::New, r));
            proof {
                lemma_kept_by(*old(data), *data, |k: SlotKind| match k {
                    SlotKind::New => SlotKind::Curr,
                    _ => k,
                });
            }
            return (r, pending);
        }
        if data.intermediate.ref_cnt != 0 {
            data.intermediate.ref_cnt = data.intermediate.ref_cnt + 1;
            let r = LoadedRef { ptr: data.intermediate.ptr, gen_cnt: data.intermediate.gen_cnt };
            assert(final(data).backs(SlotKind::Intermediate, r));
            proof {
                lemma_kept_by(*old(data), *data, |k: SlotKind| k);
            }
            return (r, None);
        }
        let word = self.intermediate_ptr.load(Ordering::Relaxed);
        let intermediate = strip_metadata(word, self.meta_mask);
        // is there a newer `intermediate` value that may be used?
        if intermediate != data.new.ptr {
            crate::acquire_fence();
            // guard the load with a reference on the shared counter
            let icnt = self.intermediate_ref_cnt.fetch_add(1, Ordering::AcqRel);
            let word = self.intermediate_ptr.load(Ordering::Relaxed);
            let loaded = strip_metadata(word, self.meta_mask);
            proof {
                crate::meta::lemma_split_then_merge(word, self.meta_mask);
            }
            let (r, kept) = take_intermediate(data, icnt, loaded);
            if !kept {
                // the update is still running: give the shared reference back
                self.intermediate_ref_cnt.fetch_sub(1, Ordering::Relaxed);
            }
            assert(intermediate_taken(*old(data), icnt, loaded) == (*final(data), r) && loaded & self.mask() == 0);
            if kept {
                assert(final(data).backs(SlotKind::Intermediate, r));
            } else {
                assert(final(data).backs(SlotKind::New, r));
            }
            proof {
                lemma_kept_by(*old(data), *data, |k: SlotKind| k);
            }
            (r, None)
        } else {
            // nothing newer: hand out `new` once more
            data.new.ref_cnt = data.new.ref_cnt + 1;
            let r = LoadedRef { ptr: data.new.ptr, gen_cnt: data.new.gen_cnt };
            assert(intermediate_taken(*old(data), UPDATE, 0) == (*final(data), r) && 0usize & self.mask() == 0) by {
                assert(UPDATE & UPDATE != 0) by (bit_vector);
                assert(0usize & self.mask() == 0) by (bit_vector);
            }
            assert(final(data).backs(SlotKind::New, r));
            proof {
                lemma_kept_by(*old(data), *data, |k: SlotKind| k);
            }
            (r, None)
        }
    }
}


impl LocalDataInner {
    /// The cache after a guard of generation `gen` is given back: the slot
    /// the generation leads to counts one guard less, and a `new` slot that
    /// drops to zero while the `intermediate` slot is in use is replaced by
    /// it.
    pub open spec fn released(self, gen: usize) -> LocalDataInner {
        match self.slot_kind_of(gen) {
            SlotKind::Curr => LocalDataInner {
                curr: LocalCounted { ref_cnt: (self.curr.ref_cnt - 1) as usize, ..self.curr },
                ..self
            },
            SlotKind::New => {
                if self.new.ref_cnt - 1 == 0 && self.intermediate.ref_cnt != 0 {
                    LocalDataInner {
                        new: self.intermediate,
                        intermediate: LocalCounted { gen_cnt: 0, ptr: 0, ref_cnt: 0 },
                        ..self
                    }
                } else {
                    LocalDataInner {
                        new: LocalCounted { ref_cnt: (self.new.ref_cnt - 1) as usize, ..self.new },
                        ..self
                    }
                }
            },
            SlotKind::Intermediate => LocalDataInner {
                intermediate: LocalCounted {
                    ref_cnt: (self.intermediate.ref_cnt - 1) as usize,
                    ..self.intermediate
                },
                ..self
            },
        }
    }
}

impl<T: Send + Sync, D: DataPtrConvert<T>, const METADATA_BITS: u32> SwapArcAnyMeta<T, D, METADATA_BITS> {
    /// Gives back a guard of generation `gen`. When the `new` slot drops to
    /// zero while the `intermediate` slot is in use, that slot becomes the
    /// new `new`: it takes a reference of its own, the old value of `new`
    /// is given back, and so is the shared `intermediate` reference. When
    /// the `intermediate` slot drops to zero, its shared reference is given
    /// back. Whenever the shared `intermediate` reference is given back, the
    /// last reader of the `intermediate` pointer applies a store waiting in
    /// `updated`, and `Some(new)` asks the caller to bring `ptr` up to date
    /// with `new`.
    pub fn release_guard(&self, data: &mut LocalDataInner, gen_cnt: usize) -> (r: Option<usize>)
        requires
            self.wf(),
            old(data).wf(),
            old(data).effective_count(old(data).slot_kind_of(gen_cnt)) >= 1,
        ensures
            r matches Some(new) ==> new != 0,
            r is Some ==> old(data).slot_kind_of(gen_cnt) != SlotKind::Curr,
            *final(data) == old(data).released(gen_cnt),
            final(data).wf(),
            final(data).total_count() == old(data).total_count() - 1,
            old(data).gens_ok() ==> final(data).gens_ok(),
            old(data).healthy() ==> final(data).healthy(),
    {
        if crate::likely(gen_cnt == data.curr.gen_cnt) {
            // a guard of the locally owned value: no shared counter is touched
            data.curr.ref_cnt = data.curr.ref_cnt - 1;
            None
        } else if gen_cnt == data.new.gen_cnt {
            data.new.ref_cnt = data.new.ref_cnt - 1;
            if data.new.ref_cnt == 0 && data.intermediate.ref_cnt != 0 {
                // take a reference of our own to the `intermediate` value
                acquire_ref::<T, D>(data.intermediate.ptr);
                let promoted_slot = data.intermediate;
                data.intermediate = LocalCounted::empty();
                replace_slot::<T, D>(&mut data.new, promoted_slot);
                self.release_intermediate_ref()
            } else {
                None
            }
        } else {
            data.intermediate.ref_cnt = data.intermediate.ref_cnt - 1;
            if data.intermediate.ref_cnt == 0 {
                // no local guard of the `intermediate` value is left
                self.release_intermediate_ref()
            } else {
                None
            }
        }
    }

    /// Loads the stored value and returns a reference of its own to it,
    /// which stays valid after the `SwapArc` is gone, with the address it
    /// was made from: the pointer of the guard the load handed out, which is
    /// given back at once. `Some` in the third part (left by the load) or
    /// the fourth (left by giving the guard back) asks the caller to bring
    /// `ptr` up to date with the given pointer, in that order.
    pub fn load_full(&self, data: &mut LocalDataInner) -> (r: (D, usize, Option<usize>, Option<usize>))
        requires
            self.wf(),
            old(data).wf(),
            old(data).counts_bounded(),
            old(data).gens_ok(),
            old(data).next_gen_cnt < usize::MAX,
        ensures
            final(data).wf(),
            final(data).gens_ok(),
            final(data).total_count() == old(data).total_count(),
            exists|v: D| #[trigger] crate::made_from::<T, D>(r.1, v) && cloned::<D>(v, r.0),
            exists|mid: LocalDataInner, gen: usize| #![trigger mid.released(gen)]
                (fast_loaded(*old(data), mid, LoadedRef { ptr: r.1, gen_cnt: gen })
                    || slow_loaded(*old(data), mid, LoadedRef { ptr: r.1, gen_cnt: gen }, self.mask()))
                && *final(data) == mid.released(gen),
    {
        let (loaded, pending) = self.load(data);
        let ghost mid = *data;
        let from_ptr = D::from(loaded.ptr);
        let ghost made = from_ptr;
        let val = ManuallyDrop::new(from_ptr);
        let out = val.deref().clone();
        let released = self.release_guard(data, loaded.gen_cnt);
        let res = (out, loaded.ptr, pending, released);
        assert(res.1 == loaded.ptr && res.0 == out);
        assert(crate::made_from::<T, D>(res.1, made) && cloned::<D>(made, res.0));
        assert(LoadedRef { ptr: res.1, gen_cnt: loaded.gen_cnt } == loaded);
        assert((fast_loaded(*old(data), mid, LoadedRef { ptr: res.1, gen_cnt: loaded.gen_cnt })
            || slow_loaded(*old(data), mid, LoadedRef { ptr: res.1, gen_cnt: loaded.gen_cnt }, self.mask()))
            && *data == mid.released(loaded.gen_cnt));
        res
    }

    /// Gives back the references a thread's cache holds when it is dropped:
    /// those of `curr` and `new`.
    pub fn dispose_local(data: LocalDataInner) {
        if data.new.ptr != 0 {
            release_ref::<T, D>(data.new.ptr);
        }
        if data.curr.ptr != 0 {
            release_ref::<T, D>(data.curr.ptr);
        }
    }
}


impl<T: Send + Sync, D: DataPtrConvert<T>, const METADATA_BITS: u32> SwapArcAnyMeta<T, D, METADATA_BITS> {
    /// Loads the pointer together with the current metadata. The guard is
    /// protected like the one of `load` and given back with
    /// `release_guard`.
    pub fn load_raw(&self, data: &mut LocalDataInner) -> (r: (LoadedRef, Option<usize>))
        requires
            self.wf(),
            old(data).wf(),
            old(data).counts_bounded(),
        ensures
            final(data).wf(),
            exists|k: SlotKind| #![trigger final(data).slot(k)]
                final(data).backs(k, LoadedRef { ptr: final(data).slot(k).ptr, gen_cnt: r.0.gen_cnt })
                && r.0.ptr & !self.mask() == final(data).slot(k).ptr & !self.mask(),
            old(data).kept_in(*final(data)),
            final(data).total_count() == old(data).total_count() + 1,
            old(data).gens_ok() && old(data).next_gen_cnt < usize::MAX ==> final(data).gens_ok()
                && final(data).effective_count(final(data).slot_kind_of(r.0.gen_cnt)) >= 1,
            old(data).healthy() && old(data).next_gen_cnt < usize::MAX ==> final(data).healthy(),
            exists|p: usize| #![trigger ptr_of(p, self.mask())]
                (fast_loaded(*old(data), *final(data), LoadedRef { ptr: p, gen_cnt: r.0.gen_cnt })
                || slow_loaded(*old(data), *final(data), LoadedRef { ptr: p, gen_cnt: r.0.gen_cnt }, self.mask()))
                && ptr_of(r.0.ptr, self.mask()) == ptr_of(p, self.mask()),
    {
        let (guard, pending) = self.load(data);
        let word = self.intermediate_ptr.load(Ordering::Relaxed);
        let curr_meta = crate::meta::get_metadata(word, self.meta_mask);
        let mask = self.meta_mask;
        proof {
            crate::meta::lemma_split_then_merge(word, mask);
        }
        let ptr = crate::ptr::map_addr(guard.ptr, |x: usize| -> (y: usize)
            ensures
                y == x | curr_meta,
            { x | curr_meta });
        let p = guard.ptr;
        assert((p | curr_meta) & !mask == p & !mask) by (bit_vector)
            requires
                curr_meta & !mask == 0;
        let r = LoadedRef { ptr, gen_cnt: guard.gen_cnt };
        proof {
            if data.backs(SlotKind::Curr, guard) {
                assert(data.slot(SlotKind::Curr).ptr == p);
            } else if data.backs(SlotKind::New, guard) {
                assert(data.slot(SlotKind::New).ptr == p);
            } else {
                assert(data.slot(SlotKind::Intermediate).ptr == p);
            }
        }
        assert(LoadedRef { ptr: p, gen_cnt: r.gen_cnt } == guard);
        assert((fast_loaded(*old(data), *data, guard) || slow_loaded(*old(data), *data, guard, self.mask()))
            && ptr_of(r.ptr, self.mask()) == ptr_of(p, self.mask()));
        (r, pending)
    }

    /// A strong load of the pointer as stored, metadata included, with a
    /// reference of its own to the value that keeps it valid. The value is
    /// made from the address without its metadata.
    pub fn load_raw_full(&self) -> (r: (D, usize))
        requires
            self.wf(),
        ensures
            exists|v: D| #[trigger] crate::made_from::<T, D>(ptr_of(r.1, self.mask()), v) && cloned::<D>(v, r.0),
    {
        let (ptr, src) = self.load_internal();
        let from_ptr = D::from(strip_metadata(ptr, self.meta_mask));
        let ghost made = from_ptr;
        let held = ManuallyDrop::new(from_ptr);
        let val = held.deref().clone();
        assert(crate::made_from::<T, D>(ptr_of(ptr, self.meta_mask), made) && cloned::<D>(made, val));
        match src {
            crate::RefSource::Curr => {
                self.curr_ref_cnt.fetch_sub(1, Ordering::Release);
            },
            crate::RefSource::Intermediate => {
                self.intermediate_ref_cnt.fetch_sub(1, Ordering::Release);
            },
        }
        let out = (val, ptr);
        assert(out.1 == ptr && out.0 == val);
        assert(crate::made_from::<T, D>(ptr_of(out.1, self.mask()), made) && cloned::<D>(made, out.0));
        out
    }
}

/// In a healthy cache a guard counted by a slot in use is given back to
/// that very slot: its generation leads to the slot it came from.
pub proof fn lemma_guard_returns_to_its_slot(data: LocalDataInner, kind: SlotKind, r: LoadedRef)
    requires
        data.wf(),
        data.healthy(),
        data.backs(kind, r),
    ensures
        data.slot_kind_of(r.gen_cnt) == kind,
        data.effective_count(data.slot_kind_of(r.gen_cnt)) >= 1 || (kind == SlotKind::Curr && data.new.ref_cnt == usize::MAX),
{
}

/// Giving back a guard of a slot in use counts exactly one guard less in
/// total and never touches a slot of another generation.
pub proof fn lemma_release_counts_one(data: LocalDataInner, gen: usize)
    requires
        data.wf(),
        data.effective_count(data.slot_kind_of(gen)) >= 1,
    ensures
        data.released(gen).total_count() == data.total_count() - 1,
        data.released(gen).wf(),
        data.slot_kind_of(gen) != SlotKind::Curr ==> data.released(gen).curr == data.curr,
        data.slot_kind_of(gen) == SlotKind::Curr ==> data.released(gen).new == data.new
            && data.released(gen).intermediate == data.intermediate,
{
}

/// A load followed by giving back the guard it handed out leaves the number
/// of guards the cache counts as it was. `before` is the cache before
/// `load`, `mid` the cache `load` left and `r` the guard it returned, as
/// `load`'s contract relates them.
pub proof fn lemma_load_then_release(before: LocalDataInner, mid: LocalDataInner, r: LoadedRef)
    requires
        mid.wf(),
        mid.total_count() == before.total_count() + 1,
        mid.effective_count(mid.slot_kind_of(r.gen_cnt)) >= 1,
    ensures
        mid.released(r.gen_cnt).total_count() == before.total_count(),
{
    lemma_release_counts_one(mid, r.gen_cnt);
}

} // verus!
