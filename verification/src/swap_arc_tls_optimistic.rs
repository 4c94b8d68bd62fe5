//! `SwapArcIntermediateTLS`: the variant of the `SwapArc` whose thread-local
//! cache takes an optimistic path through its slots.
//!
//! It shares the layout of the atomics and of the thread-local cache with
//! `SwapArcAnyMeta`; it differs in how loads walk the cache, in which flags
//! send a strong read to the `intermediate` pointer, and in how an update
//! is finished.
use core::marker::PhantomData;
use core::mem::ManuallyDrop;
use core::ops::Deref;
use std::sync::atomic::{AtomicUsize, Ordering};
use vstd::prelude::*;

use crate::local::{fast_loaded, fresh_cached, in_use, initial_cache, intermediate_taken, take_intermediate, lemma_kept_by, lemma_kept_trans, moved_to_curr, empty_slot, LoadedRef, LocalCounted, LocalDataInner, SlotKind};
use crate::meta::{
    get_metadata, low_mask, merge_ptr_and_metadata, meta_mask, ptr_of, replace_metadata,
    set_metadata_bits, strip_metadata, unset_metadata_bits, with_meta, OTHER_UPDATE, UPDATE,
};
use crate::{free_bits, CompareExchange, FinishStep, RefSource, StoreAttempt};

verus! {

/// Reference counted values that this variant can hold: cloning one takes a
/// reference, dropping one gives it back.
pub trait RefCnt: Clone {

}

/// Conversion between a reference counted value and the address of the
/// value it refers to, for this variant.
pub trait DataPtrConvert<T>: RefCnt + Sized {
    /// The value at the address `ptr`; the reference count is not altered.
    fn from(ptr: usize) -> Self;

    /// The address of the value; the reference of `self` is given back as
    /// the value is dropped.
    fn into(self) -> (r: usize)
        ensures
            call_ensures(<Self as DataPtrConvert<T>>::as_ptr, (&self,), r),
    {
        self.as_ptr()
    }

    /// The address of the value; the reference count is not altered.
    fn as_ptr(&self) -> usize;

    /// Takes one more reference to the value directly.
    fn increase_ref_cnt(&self) {
        let _kept = ManuallyDrop::new(self.clone());
    }
}

/// `v` is a value that `D::from` may return for the address `ptr`.
pub open spec fn made_from<T, D: DataPtrConvert<T>>(ptr: usize, v: D) -> bool {
    call_ensures(<D as DataPtrConvert<T>>::from, (ptr,), v)
}

/// Gives back one reference held behind the address `ptr`.
fn release_ptr<T, D: DataPtrConvert<T>>(ptr: usize) {
    let _released = D::from(ptr);
}

/// Takes one more reference to the value behind the address `ptr`.
fn increase_ptr<T, D: DataPtrConvert<T>>(ptr: usize) {
    let val = ManuallyDrop::new(D::from(ptr));
    let _kept = ManuallyDrop::new(val.deref().clone());
}

/// Refills a slot that counts no guard, keeping its generation; a slot that
/// holds a reference gives back the one to its old value.
fn refill<T, D: DataPtrConvert<T>>(slot: &mut LocalCounted, ptr: usize, drops: bool)
    ensures
        final(slot).gen_cnt == old(slot).gen_cnt,
        final(slot).ptr == ptr,
        final(slot).ref_cnt == 1,
{
    if drops {
        if slot.ptr != 0 {
            release_ptr::<T, D>(slot.ptr);
        }
    }
    slot.ptr = ptr;
    slot.ref_cnt = 1;
}

/// Overwrites a slot that holds a reference, giving back the one to its old
/// value.
fn replace<T, D: DataPtrConvert<T>>(slot: &mut LocalCounted, with: LocalCounted)
    ensures
        *final(slot) == with,
{
    if slot.ptr != 0 {
        release_ptr::<T, D>(slot.ptr);
    }
    *slot = with;
}

/// A pointer loaded strongly, protected by the counter `ref_src` names
/// until `release_internal` gives it back.
pub struct SwapArcIntermediateInternalGuard<D> {
    pub fake_ref: ManuallyDrop<D>,
    /// The address, without metadata, that `fake_ref` was made from.
    pub ptr: usize,
    pub ref_src: RefSource,
}

/// Puts the value `fresh` of a strong read, whose reference the caller
/// hands over, into a cache whose `new` slot counts no guard, and hands out
/// one guard for it, as `local::cache_fresh` does for `SwapArcAnyMeta`.
pub fn cache_fresh<T, D: DataPtrConvert<T>>(data: &mut LocalDataInner, fresh: usize) -> (r: LoadedRef)
    ensures
        (*final(data), r) == fresh_cached(*old(data), fresh),
{
    if data.curr.ref_cnt == 0 {
        // no guard of `curr` is left, so it can take the value at once
        refill::<T, D>(&mut data.curr, fresh, true);
        LoadedRef { ptr: fresh, gen_cnt: data.curr.gen_cnt }
    } else {
        if data.new.gen_cnt != 0 {
            refill::<T, D>(&mut data.new, fresh, true);
        } else {
            let slot = LocalCounted::new(data, fresh);
            replace::<T, D>(&mut data.new, slot);
        }
        LoadedRef { ptr: fresh, gen_cnt: data.new.gen_cnt }
    }
}

/// A `SwapArc` whose reads are wait-free: in the common case a load is a
/// single relaxed atomic load plus bookkeeping in the thread-local cache.
pub struct SwapArcIntermediateTLS<T, D: DataPtrConvert<T>, const METADATA_BITS: u32> {
    curr_ref_cnt: AtomicUsize,
    ptr: AtomicUsize,
    intermediate_ref_cnt: AtomicUsize,
    intermediate_ptr: AtomicUsize,
    updated: AtomicUsize,
    meta_mask: usize,
    _marker: PhantomData<(T, D)>,
}

impl<T, D: DataPtrConvert<T>, const METADATA_BITS: u32> SwapArcIntermediateTLS<T, D, METADATA_BITS> {
    /// The mask covers exactly the metadata bits.
    pub closed spec fn wf(&self) -> bool {
        &&& METADATA_BITS < usize::BITS
        &&& self.meta_mask == low_mask(METADATA_BITS)
    }

    /// The mask of the metadata bits.
    pub closed spec fn mask(&self) -> usize {
        self.meta_mask
    }

    /// Creates a new `SwapArc` with `val` as the initial value; the
    /// reference of `val` stays behind the stored address.
    pub fn new(val: D) -> (r: Self)
        requires
            free_bits(core::mem::align_of::<T>()) >= METADATA_BITS,
        ensures
            r.wf(),
    {
        let val = ManuallyDrop::new(val);
        let virtual_ref = val.deref().as_ptr();
        Self::new_raw(virtual_ref)
    }

    /// Creates a new `SwapArc` around the address `val`, whose reference the
    /// caller hands over.
    pub fn new_raw(val: usize) -> (r: Self)
        requires
            free_bits(core::mem::align_of::<T>()) >= METADATA_BITS,
        ensures
            r.wf(),
    {
        proof {
            crate::lemma_msb_below_bound(core::mem::align_of::<T>(), usize::BITS);
        }
        let mask = meta_mask(METADATA_BITS);
        SwapArcIntermediateTLS {
            curr_ref_cnt: AtomicUsize::new(0),
            ptr: AtomicUsize::new(val),
            intermediate_ref_cnt: AtomicUsize::new(0),
            intermediate_ptr: AtomicUsize::new(val),
            updated: AtomicUsize::new(0),
            meta_mask: mask,
            _marker: PhantomData,
        }
    }

    /// The mask of the metadata bits of this `SwapArc`.
    pub fn metadata_mask(&self) -> (r: usize)
        requires
            self.wf(),
        ensures
            r == self.mask(),
            r == low_mask(METADATA_BITS),
    {
        self.meta_mask
    }

    /// A strong read: a reference on `curr`'s counter and `ptr`, unless an
    /// update of `ptr` is running, in which case the `intermediate` pointer
    /// is used when it is not being replaced itself.
    pub fn load_internal(&self) -> (r: SwapArcIntermediateInternalGuard<D>)
        requires
            self.wf(),
        ensures
            made_from::<T, D>(r.ptr, r.fake_ref@),
            r.ptr & self.mask() == 0,
    {
        let ref_cnt = self.curr_ref_cnt.fetch_add(1, Ordering::AcqRel);
        let (ptr, src) = if ref_cnt & UPDATE != 0 {
            let intermediate_ref_cnt = self.intermediate_ref_cnt.fetch_add(1, Ordering::AcqRel);
            match crate::strong_source(ref_cnt, UPDATE, intermediate_ref_cnt) {
                RefSource::Curr => {
                    let ret = self.ptr.load(Ordering::Relaxed);
                    // release the redundant reference
                    self.intermediate_ref_cnt.fetch_sub(1, Ordering::AcqRel);
                    (ret, RefSource::Curr)
                },
                RefSource::Intermediate => {
                    let ret = self.intermediate_ptr.load(Ordering::Relaxed);
                    // release the redundant reference
                    self.curr_ref_cnt.fetch_sub(1, Ordering::AcqRel);
                    (ret, RefSource::Intermediate)
                },
            }
        } else {
            (self.ptr.load(Ordering::Relaxed), RefSource::Curr)
        };
        let stripped = strip_metadata(ptr, self.meta_mask);
        proof {
            crate::meta::lemma_split_then_merge(ptr, self.meta_mask);
        }
        let from_ptr = D::from(stripped);
        let fake_ref = ManuallyDrop::new(from_ptr);
        let guard = SwapArcIntermediateInternalGuard { fake_ref, ptr: stripped, ref_src: src };
        assert(made_from::<T, D>(guard.ptr, guard.fake_ref@));
        guard
    }

    /// Gives back the reference of a strong read. The last reader of `ptr`
    /// with an update pending applies it; the last reader of the
    /// `intermediate` pointer with a store waiting applies that store.
    pub fn release_internal(&self, guard: SwapArcIntermediateInternalGuard<D>)
        requires
            self.wf(),
    {
        proof {
            crate::meta::lemma_flags();
        }
        match guard.ref_src {
            RefSource::Curr => {
                let ref_cnt = self.curr_ref_cnt.fetch_sub(1, Ordering::AcqRel);
                if crate::release_applies(RefSource::Curr, ref_cnt, 0) {
                    self.try_update_curr();
                }
            },
            RefSource::Intermediate => self.release_intermediate_ref(),
        }
    }

    /// Gives back one reference on the shared `intermediate` counter. The
    /// last reader of the `intermediate` pointer with a store waiting in
    /// `updated` applies that store.
    pub fn release_intermediate_ref(&self)
        requires
            self.wf(),
    {
        let ref_cnt = self.intermediate_ref_cnt.fetch_sub(1, Ordering::AcqRel);
        let waiting = self.updated.load(Ordering::Relaxed);
        if crate::release_applies(RefSource::Intermediate, ref_cnt, waiting) {
            self.try_update_intermediate();
        }
    }

    /// Applies a pending update of `ptr` when no reader of it is left.
    pub fn try_update_curr(&self) -> (r: bool)
        requires
            self.wf(),
    {
        match self.curr_ref_cnt.compare_exchange(OTHER_UPDATE, UPDATE, Ordering::AcqRel, Ordering::Relaxed) {
            Ok(_) => {
                let intermediate = self.intermediate_ptr.load(Ordering::Relaxed);
                let prev = self.ptr.load(Ordering::Relaxed);
                if crate::replaces_curr(prev, intermediate, self.meta_mask) {
                    self.ptr.store(intermediate, Ordering::Relaxed);
                    // unset the update flag
                    self.curr_ref_cnt.fetch_and(!UPDATE, Ordering::AcqRel);
                    // drop the reference held for the replaced pointer
                    release_ptr::<T, D>(strip_metadata(prev, self.meta_mask));
                } else {
                    // unset the update flag
                    self.curr_ref_cnt.fetch_and(!UPDATE, Ordering::AcqRel);
                }
                // unset the pending flag of the intermediate counter
                self.intermediate_ref_cnt.fetch_and(!OTHER_UPDATE, Ordering::AcqRel);
                true
            },
            Err(_) => false,
        }
    }

    /// Applies a waiting store when no reader of the `intermediate` pointer
    /// is left, and makes one attempt to bring `ptr` up to date with it.
    pub fn try_update_intermediate(&self)
        requires
            self.wf(),
    {
        match self.intermediate_ref_cnt.compare_exchange(0, UPDATE | OTHER_UPDATE, Ordering::AcqRel, Ordering::Relaxed) {
            Ok(_) => {
                // take the update
                let taken = self.updated.swap(0, Ordering::AcqRel);
                if taken != 0 {
                    let metadata = get_metadata(self.intermediate_ptr.load(Ordering::Relaxed), self.meta_mask);
                    let update = merge_ptr_and_metadata(taken, metadata);
                    self.intermediate_ptr.store(update, Ordering::Release);
                    // unset the update flag
                    self.intermediate_ref_cnt.fetch_and(!UPDATE, Ordering::AcqRel);
                    // try finishing the update
                    match self.curr_ref_cnt.compare_exchange(0, UPDATE, Ordering::AcqRel, Ordering::Relaxed) {
                        Ok(_) => {
                            let prev = self.ptr.load(Ordering::Relaxed);
                            self.ptr.store(update, Ordering::Relaxed);
                            // unset the update flag
                            self.curr_ref_cnt.fetch_and(!UPDATE, Ordering::AcqRel);
                            // unset the pending flag of the intermediate counter
                            self.intermediate_ref_cnt.fetch_and(!OTHER_UPDATE, Ordering::AcqRel);
                            release_ptr::<T, D>(strip_metadata(prev, self.meta_mask));
                        },
                        Err(_) => {},
                    }
                } else {
                    // unset the update flags
                    self.intermediate_ref_cnt.fetch_and(!(UPDATE | OTHER_UPDATE), Ordering::AcqRel);
                }
            },
            Err(_) => {},
        }
    }

    /// Prepares an update to the value `updated`: its address, with one more
    /// reference taken that the following `update_attempt`s hand over. The
    /// reference of `updated` itself is given back.
    pub fn prepare_update(&self, updated: D) -> (r: usize)
        requires
            self.wf(),
        ensures
            exists|p: usize| call_ensures(<D as DataPtrConvert<T>>::as_ptr, (&updated,), p)
                && r == ptr_of(p, self.mask()),
    {
        let ptr = updated.as_ptr();
        self.prepare_update_raw(ptr)
    }

    /// Prepares an update to the raw address `updated`: its metadata bits
    /// are removed and one more reference to its value is taken.
    pub fn prepare_update_raw(&self, updated: usize) -> (r: usize)
        requires
            self.wf(),
        ensures
            r == ptr_of(updated, self.mask()),
    {
        let updated = strip_metadata(updated, self.meta_mask);
        increase_ptr::<T, D>(updated);
        updated
    }

    /// One attempt to store the prepared address `new`: as
    /// `SwapArcAnyMeta::store_attempt`.
    pub fn update_attempt(&self, new: usize) -> (r: StoreAttempt)
        requires
            self.wf(),
        ensures
            r matches StoreAttempt::Published { new: published } ==>
                published & !self.mask() == new & !self.mask(),
    {
        match self.intermediate_ref_cnt.compare_exchange(0, UPDATE | OTHER_UPDATE, Ordering::AcqRel, Ordering::Relaxed) {
            Ok(_) => {
                // clear out old updates so that they can't overwrite ours later
                let old = self.updated.swap(0, Ordering::AcqRel);
                let word = self.intermediate_ptr.load(Ordering::Relaxed);
                let metadata = get_metadata(word, self.meta_mask);
                let published = merge_ptr_and_metadata(new, metadata);
                let mask = self.meta_mask;
                proof {
                    crate::meta::lemma_split_then_merge(word, mask);
                }
                assert((new | metadata) & !mask == new & !mask) by (bit_vector)
                    requires
                        metadata & !mask == 0;
                self.intermediate_ptr.store(published, Ordering::Relaxed);
                // unset the update flag
                self.intermediate_ref_cnt.fetch_and(!UPDATE, Ordering::AcqRel);
                if old != 0 {
                    release_ptr::<T, D>(old);
                }
                StoreAttempt::Published { new: published }
            },
            Err(found) => {
                let outcome = crate::contended_store(found);
                if outcome == StoreAttempt::Pushed {
                    crate::acquire_fence();
                    // push the update so that the last reader applies it
                    let old = self.updated.swap(new, Ordering::AcqRel);
                    if old != 0 {
                        release_ptr::<T, D>(old);
                    }
                }
                // otherwise somebody else is updating: wait until they finish
                outcome
            },
        }
    }

    /// One round of bringing `ptr` up to date with the published `new`,
    /// expecting the `curr` counter to hold `curr`: as
    /// `SwapArcAnyMeta::finish_update_step`.
    pub fn finish_update_step(&self, new: usize, curr: usize) -> (r: FinishStep)
        requires
            self.wf(),
        ensures
            r matches FinishStep::Retry { expected } ==> expected == OTHER_UPDATE,
    {
        match self.curr_ref_cnt.compare_exchange(curr, UPDATE, Ordering::AcqRel, Ordering::Relaxed) {
            Ok(_) => {
                let prev = self.ptr.load(Ordering::Relaxed);
                self.ptr.store(new, Ordering::Relaxed);
                // unset the update flag
                self.curr_ref_cnt.fetch_and(!UPDATE, Ordering::AcqRel);
                // unset the pending flag of the intermediate counter
                self.intermediate_ref_cnt.fetch_and(!OTHER_UPDATE, Ordering::AcqRel);
                release_ptr::<T, D>(strip_metadata(prev, self.meta_mask));
                FinishStep::Done
            },
            Err(_) => {
                let prev = self.curr_ref_cnt.fetch_or(OTHER_UPDATE, Ordering::AcqRel);
                crate::pending_outcome(prev)
            },
        }
    }

    /// One round of finishing an update started by `update_attempt`,
    /// expecting the `curr` counter to hold `curr`: `0` in the first round,
    /// then the count a `Retry` names, which carries the pending flag that
    /// the failed round set.
    pub fn update_finish_step(&self, new: usize, curr: usize) -> (r: FinishStep)
        requires
            self.wf(),
        ensures
            r matches FinishStep::Retry { expected } ==> expected == OTHER_UPDATE,
    {
        self.finish_update_step(new, curr)
    }

    /// One attempt to take the `intermediate` pointer for a compare-exchange.
    pub fn lock_intermediate_attempt(&self) -> (r: bool)
        requires
            self.wf(),
    {
        self.intermediate_ref_cnt.compare_exchange(0, UPDATE | OTHER_UPDATE, Ordering::AcqRel, Ordering::Relaxed).is_ok()
    }

    /// The compare-exchange once the `intermediate` pointer is held: if it
    /// is `old` (metadata included), it becomes `new`, a waiting store is
    /// discarded and one more reference to `new`'s value is taken.
    pub fn try_compare_exchange_with_meta_locked(&self, old: usize, new: usize) -> (r: CompareExchange)
        requires
            self.wf(),
        ensures
            r matches CompareExchange::Installed { new: installed } ==> installed == new,
    {
        let intermediate = self.intermediate_ptr.load(Ordering::Relaxed);
        if crate::compare_outcome(intermediate, old, new, false, self.meta_mask) == CompareExchange::Mismatch {
            self.intermediate_ref_cnt.fetch_and(!(UPDATE | OTHER_UPDATE), Ordering::AcqRel);
            return CompareExchange::Mismatch;
        }
        // clear out old updates so that they can't overwrite ours later
        let old_update = self.updated.swap(0, Ordering::AcqRel);
        increase_ptr::<T, D>(strip_metadata(new, self.meta_mask));
        self.intermediate_ptr.store(new, Ordering::Relaxed);
        // unset the update flag
        self.intermediate_ref_cnt.fetch_and(!UPDATE, Ordering::AcqRel);
        if old_update != 0 {
            release_ptr::<T, D>(old_update);
        }
        CompareExchange::Installed { new }
    }

    /// One attempt to replace the metadata, expecting the pointer to be
    /// `curr`; on failure the word found is returned.
    pub fn update_metadata_attempt(&self, curr: usize, metadata: usize) -> (r: Result<usize, usize>)
        requires
            self.wf(),
        ensures
            r matches Ok(w) ==> w == with_meta(curr, metadata, self.mask()),
    {
        let new = replace_metadata(curr, metadata, self.meta_mask);
        match self.intermediate_ptr.compare_exchange_weak(curr, new, Ordering::Relaxed, Ordering::Relaxed) {
            Ok(_) => Ok(new),
            Err(err) => Err(err),
        }
    }

    /// Replaces the metadata by `metadata`, provided the pointer still is
    /// `old`.
    pub fn try_update_meta(&self, old: usize, metadata: usize) -> (r: bool)
        requires
            self.wf(),
    {
        let new = replace_metadata(old, metadata, self.meta_mask);
        self.intermediate_ptr.compare_exchange(old, new, Ordering::Relaxed, Ordering::Relaxed).is_ok()
    }

    /// One attempt to set the metadata bits set in `active_bits`.
    pub fn set_in_metadata_attempt(&self, curr: usize, active_bits: usize) -> (r: Result<usize, usize>)
        requires
            self.wf(),
        ensures
            r matches Ok(w) ==> w == curr | (active_bits & self.mask()),
    {
        let new = set_metadata_bits(curr, active_bits, self.meta_mask);
        match self.intermediate_ptr.compare_exchange_weak(curr, new, Ordering::Relaxed, Ordering::Relaxed) {
            Ok(_) => Ok(new),
            Err(err) => Err(err),
        }
    }

    /// One attempt to clear the metadata bits set in `inactive_bits`.
    pub fn unset_in_metadata_attempt(&self, curr: usize, inactive_bits: usize) -> (r: Result<usize, usize>)
        requires
            self.wf(),
        ensures
            r matches Ok(w) ==> w == curr & !(inactive_bits & self.mask()),
    {
        let new = unset_metadata_bits(curr, inactive_bits, self.meta_mask);
        match self.intermediate_ptr.compare_exchange_weak(curr, new, Ordering::Relaxed, Ordering::Relaxed) {
            Ok(_) => Ok(new),
            Err(err) => Err(err),
        }
    }

    /// The word of the `intermediate` pointer.
    pub fn load_intermediate_word(&self) -> (r: usize)
        requires
            self.wf(),
    {
        self.intermediate_ptr.load(Ordering::Relaxed)
    }

    /// Returns the metadata stored inside the internal pointer.
    pub fn load_metadata(&self) -> (r: usize)
        requires
            self.wf(),
        ensures
            r & !self.mask() == 0,
    {
        let word = self.intermediate_ptr.load(Ordering::Relaxed);
        proof {
            crate::meta::lemma_split_then_merge(word, self.meta_mask);
        }
        get_metadata(word, self.meta_mask)
    }

    /// Gives back the references the `SwapArc` holds when it is dropped.
    pub fn dispose(self)
        requires
            self.wf(),
    {
        let updated = self.updated.load(Ordering::Relaxed);
        if updated != 0 {
            release_ptr::<T, D>(updated);
        }
        let curr = strip_metadata(self.ptr.load(Ordering::Relaxed), self.meta_mask);
        let intermediate = strip_metadata(self.intermediate_ptr.load(Ordering::Relaxed), self.meta_mask);
        if intermediate != curr {
            release_ptr::<T, D>(intermediate);
        }
        release_ptr::<T, D>(curr);
    }
}


/// The cache a load of this variant goes on from: a drained `curr` has
/// given way to `new`.
pub open spec fn settled(o: LocalDataInner) -> LocalDataInner {
    if o.curr.ref_cnt == 0 {
        moved_to_curr(o)
    } else {
        o
    }
}

/// The cache `f` and the guard `r` that a load of this variant which cannot
/// simply hand out `curr` once more leaves, from the cache `o`, with `mask`
/// the metadata mask. A drained `curr` gives way to `new`; unless the
/// `intermediate` slot is then promoted to `new`, the load goes on from
/// that cache as from one whose `curr` is in use.
pub open spec fn slow_loaded_opt(o: LocalDataInner, f: LocalDataInner, r: LoadedRef, mask: usize) -> bool {
    if o.new.ref_cnt == 0 {
        // the value of a strong read goes into the cache
        exists|p: usize| #[trigger] fresh_cached(o, p) == (f, r) && p & mask == 0
    } else if o.new.ref_cnt == usize::MAX {
        // the first load of a thread: its guard was counted in advance
        f == (LocalDataInner { new: empty_slot(), ..o }) && r == (LoadedRef { ptr: o.curr.ptr, gen_cnt: o.curr.gen_cnt })
    } else if o.curr.ref_cnt == 0 && o.intermediate.ref_cnt != 0 {
        // `new` moves to `curr` and the `intermediate` slot to `new`, which
        // counts the guard handed out
        f == (LocalDataInner {
            curr: o.new,
            new: LocalCounted { ref_cnt: (o.intermediate.ref_cnt + 1) as usize, ..o.intermediate },
            intermediate: empty_slot(),
            ..o
        }) && r == (LoadedRef { ptr: o.intermediate.ptr, gen_cnt: o.intermediate.gen_cnt })
    } else {
        let m = settled(o);
        if m.intermediate.ref_cnt != 0 {
            // the `intermediate` slot hands out one more guard
            f == (LocalDataInner { intermediate: LocalCounted { ref_cnt: (m.intermediate.ref_cnt + 1) as usize, ..m.intermediate }, ..m })
                && r == (LoadedRef { ptr: m.intermediate.ptr, gen_cnt: m.intermediate.gen_cnt })
        } else {
            exists|icnt: usize, p: usize| #[trigger] intermediate_taken(m, icnt, p) == (f, r) && p & mask == 0
        }
    }
}

/// The state in which a load of this variant moves `new` into `curr` and
/// then hands out the emptied `new` slot, which has no generation.
pub open spec fn drained_fall_through(data: LocalDataInner) -> bool {
    &&& data.curr.ref_cnt == 0
    &&& in_use(data.new)
    &&& data.intermediate.ref_cnt == 0
}

impl<T, D: DataPtrConvert<T>, const METADATA_BITS: u32> SwapArcIntermediateTLS<T, D, METADATA_BITS> {
    /// Sets up the cache of the calling thread from a strong read.
    pub fn init_local(&self) -> (r: LocalDataInner)
        requires
            self.wf(),
        ensures
            r.wf(),
            r.healthy(),
            r.total_count() == 0,
            r.curr.ptr & self.mask() == 0,
            r == initial_cache(r.curr.ptr),
    {
        let curr = self.load_internal();
        // take a reference for the cache
        let _kept = ManuallyDrop::new(curr.fake_ref.deref().clone());
        let data = LocalDataInner::initial(curr.ptr);
        self.release_internal(curr);
        data
    }

    /// Loads the stored value: the pointer and the generation by which the
    /// guard is given back (`release_guard`).
    pub fn load(&self, data: &mut LocalDataInner) -> (r: LoadedRef)
        requires
            self.wf(),
            old(data).wf(),
            old(data).counts_bounded(),
        ensures
            final(data).wf(),
            final(data).new.ref_cnt != usize::MAX,
            final(data).backs(SlotKind::Curr, r) || final(data).backs(SlotKind::New, r)
                || final(data).backs(SlotKind::Intermediate, r),
            old(data).kept_in(*final(data)),
            final(data).total_count() == old(data).total_count() + 1,
            old(data).gens_ok() && old(data).next_gen_cnt < usize::MAX ==> final(data).gens_ok()
                && final(data).effective_count(final(data).slot_kind_of(r.gen_cnt)) >= 1,
            old(data).healthy() && old(data).next_gen_cnt < usize::MAX && !drained_fall_through(*old(data))
                ==> final(data).healthy(),
            fast_loaded(*old(data), *final(data), r) || slow_loaded_opt(*old(data), *final(data), r, self.mask()),
    {
        let word = self.ptr.load(Ordering::Relaxed);
        self.load_seen(data, word)
    }

    /// A load that found the word `word` in `ptr`. As long as `ptr` still
    /// holds the pointer of `curr` and `new` counts no guard, the load hands
    /// out `curr` once more and touches no shared counter.
    pub fn load_seen(&self, data: &mut LocalDataInner, word: usize) -> (r: LoadedRef)
        requires
            self.wf(),
            old(data).wf(),
            old(data).counts_bounded(),
        ensures
            final(data).wf(),
            final(data).new.ref_cnt != usize::MAX,
            final(data).backs(SlotKind::Curr, r) || final(data).backs(SlotKind::New, r)
                || final(data).backs(SlotKind::Intermediate, r),
            old(data).kept_in(*final(data)),
            final(data).total_count() == old(data).total_count() + 1,
            old(data).gens_ok() && old(data).next_gen_cnt < usize::MAX ==> final(data).gens_ok()
                && final(data).effective_count(final(data).slot_kind_of(r.gen_cnt)) >= 1,
            old(data).healthy() && old(data).next_gen_cnt < usize::MAX && !drained_fall_through(*old(data))
                ==> final(data).healthy(),
            !(ptr_of(word, self.mask()) == old(data).curr.ptr && old(data).new.ref_cnt == 0)
                ==> slow_loaded_opt(*old(data), *final(data), r, self.mask()),
            ptr_of(word, self.mask()) == old(data).curr.ptr && old(data).new.ref_cnt == 0 ==> {
                &&& r == (LoadedRef { ptr: old(data).curr.ptr, gen_cnt: old(data).curr.gen_cnt })
                &&& *final(data) == (LocalDataInner {
                    curr: LocalCounted { ref_cnt: (old(data).curr.ref_cnt + 1) as usize, ..old(data).curr },
                    ..*old(data)
                })
            },
    {
        let no_update = strip_metadata(word, self.meta_mask) == data.curr.ptr;
        if crate::likely(no_update && data.new.ref_cnt == 0) {
            data.curr.ref_cnt = data.curr.ref_cnt + 1;
            let r = LoadedRef { ptr: data.curr.ptr, gen_cnt: data.curr.gen_cnt };
            assert(final(data).backs(SlotKind::Curr, r));
            assert(fast_loaded(*old(data), *final(data), r));
            proof {
                lemma_kept_by(*old(data), *data, |k: SlotKind| k);
            }
            return r;
        }
        self.load_slow(data)
    }

    /// Brings the cache up to date with a strong read when `new` counts no
    /// guard.
    fn load_new_slow(&self, data: &mut LocalDataInner) -> (r: LoadedRef)
        requires
            self.wf(),
            old(data).wf(),
            old(data).new.ref_cnt == 0,
        ensures
            exists|p: usize| #[trigger] fresh_cached(*old(data), p) == (*final(data), r) && p & self.mask() == 0,
            final(data).wf(),
            final(data).new.ref_cnt != usize::MAX,
            final(data).backs(SlotKind::Curr, r) || final(data).backs(SlotKind::New, r),
            old(data).kept_in(*final(data)),
            final(data).total_count() == old(data).total_count() + 1,
            old(data).gens_ok() && old(data).next_gen_cnt < usize::MAX ==> final(data).gens_ok()
                && final(data).effective_count(final(data).slot_kind_of(r.gen_cnt)) >= 1,
            old(data).healthy() && old(data).next_gen_cnt < usize::MAX ==> final(data).healthy(),
    {
        let curr = self.load_internal();
        // take a reference for the cache
        let _kept = ManuallyDrop::new(curr.fake_ref.deref().clone());
        let r = cache_fresh::<T, D>(data, curr.ptr);
        assert(fresh_cached(*old(data), curr.ptr) == (*final(data), r) && curr.ptr & self.mask() == 0);
        self.release_internal(curr);
        assert(final(data).backs(SlotKind::Curr, r) || final(data).backs(SlotKind::New, r));
        proof {
            lemma_kept_by(*old(data), *data, |k: SlotKind| k);
        }
        r
    }

    /// The loads that cannot simply hand out `curr` once more.
    fn load_slow(&self, data: &mut LocalDataInner) -> (r: LoadedRef)
        requires
            self.wf(),
            old(data).wf(),
            old(data).counts_bounded(),
        ensures
            final(data).wf(),
            final(data).new.ref_cnt != usize::MAX,
            final(data).backs(SlotKind::Curr, r) || final(data).backs(SlotKind::New, r)
                || final(data).backs(SlotKind::Intermediate, r),
            old(data).kept_in(*final(data)),
            final(data).total_count() == old(data).total_count() + 1,
            old(data).gens_ok() && old(data).next_gen_cnt < usize::MAX ==> final(data).gens_ok()
                && final(data).effective_count(final(data).slot_kind_of(r.gen_cnt)) >= 1,
            old(data).healthy() && old(data).next_gen_cnt < usize::MAX && !drained_fall_through(*old(data))
                ==> final(data).healthy(),
            slow_loaded_opt(*old(data), *final(data), r, self.mask()),
    {
        if data.new.ref_cnt == 0 {
            return self.load_new_slow(data);
        } else if crate::unlikely(data.new.ref_cnt == usize::MAX) {
            // the first load of this thread: its guard is already counted
            data.new.ref_cnt = 0;
            let r = LoadedRef { ptr: data.curr.ptr, gen_cnt: data.curr.gen_cnt };
            assert(final(data).backs(SlotKind::Curr, r));
            proof {
                lemma_kept_by(*old(data), *data, |k: SlotKind| k);
            }
            assert(slow_loaded_opt(*old(data), *final(data), r, self.mask()));
            return r;
        }
        let ghost moved = data.curr.ref_cnt == 0;
        if data.curr.ref_cnt == 0 {
            // `curr` is drained: `new` takes its place
            let taken = data.new;
            data.new = LocalCounted::empty();
            replace::<T, D>(&mut data.curr, taken);
            if data.intermediate.ref_cnt != 0 {
                increase_ptr::<T, D>(data.intermediate.ptr);
                let promoted_slot = data.intermediate;
                data.intermediate = LocalCounted::empty();
                replace::<T, D>(&mut data.new, promoted_slot);
                // the slot counts the guard handed out
                data.new.ref_cnt = data.new.ref_cnt + 1;
                self.release_intermediate_ref();
                let r = LoadedRef { ptr: data.new.ptr, gen_cnt: data.new.gen_cnt };
                assert(final(data).backs(SlotKind::New, r));
                proof {
                    lemma_kept_by(*old(data), *data, |k: SlotKind| match k {
                        SlotKind::Intermediate => SlotKind::New,
                        _ => SlotKind::Curr,
                    });
                }
                assert(slow_loaded_opt(*old(data), *final(data), r, self.mask()));
            return r;
            }
            // no return here: the emptied `new` slot is used below
        }
        let ghost mid = *data;
        assert(mid == settled(*old(data)));
        assert(old(data).kept_in(mid)) by {
            if moved {
                lemma_kept_by(*old(data), mid, |k: SlotKind| match k {
                    SlotKind::New => SlotKind::Curr,
                    _ => k,
                });
            } else {
                lemma_kept_by(*old(data), mid, |k: SlotKind| k);
            }
        }
        if data.intermediate.ref_cnt == 0 {
            let intermediate = strip_metadata(self.intermediate_ptr.load(Ordering::Relaxed), self.meta_mask);
            if intermediate != data.new.ptr {
                crate::acquire_fence();
                // guard the load with a reference on the shared counter
                let icnt = self.intermediate_ref_cnt.fetch_add(1, Ordering::AcqRel);
                let word = self.intermediate_ptr.load(Ordering::Relaxed);
                let loaded = strip_metadata(word, self.meta_mask);
                proof {
                    crate::meta::lemma_split_then_merge(word, self.meta_mask);
                }
                let (r, kept) = take_intermediate(data, icnt, loaded);
                if !kept {
                    // the update is still running: give the shared reference back
                    self.intermediate_ref_cnt.fetch_sub(1, Ordering::Relaxed);
                }
                assert(intermediate_taken(mid, icnt, loaded) == (*final(data), r) && loaded & self.mask() == 0);
                if kept {
                    assert(final(data).backs(SlotKind::Intermediate, r));
                } else {
                    assert(final(data).backs(SlotKind::New, r));
                }
                proof {
                    lemma_kept_by(mid, *data, |k: SlotKind| k);
                    lemma_kept_trans(*old(data), mid, *data);
                }
                assert(slow_loaded_opt(*old(data), *final(data), r, self.mask()));
                r
            } else {
                // nothing newer: hand out `new` once more
                data.new.ref_cnt = data.new.ref_cnt + 1;
                let r = LoadedRef { ptr: data.new.ptr, gen_cnt: data.new.gen_cnt };
                assert(intermediate_taken(mid, UPDATE, 0) == (*final(data), r) && 0usize & self.mask() == 0) by {
                    assert(UPDATE & UPDATE != 0) by (bit_vector);
                    assert(0usize & self.mask() == 0) by (bit_vector);
                }
                assert(final(data).backs(SlotKind::New, r));
                proof {
                    lemma_kept_by(mid, *data, |k: SlotKind| k);
                    lemma_kept_trans(*old(data), mid, *data);
                }
                assert(slow_loaded_opt(*old(data), *final(data), r, self.mask()));
                r
            }
        } else {
            data.intermediate.ref_cnt = data.intermediate.ref_cnt + 1;
            let r = LoadedRef { ptr: data.intermediate.ptr, gen_cnt: data.intermediate.gen_cnt };
            assert(final(data).backs(SlotKind::Intermediate, r));
            proof {
                lemma_kept_by(mid, *data, |k: SlotKind| k);
                lemma_kept_trans(*old(data), mid, *data);
            }
            assert(slow_loaded_opt(*old(data), *final(data), r, self.mask()));
            r
        }
    }
}


impl<T, D: DataPtrConvert<T>, const METADATA_BITS: u32> SwapArcIntermediateTLS<T, D, METADATA_BITS> {
    /// Gives back a guard of generation `gen`, as
    /// `SwapArcAnyMeta::release_guard` does; where the last reader of the
    /// `intermediate` pointer applies a waiting store, it also makes one
    /// attempt to bring `ptr` up to date with it.
    pub fn release_guard(&self, data: &mut LocalDataInner, gen_cnt: usize)
        requires
            self.wf(),
            old(data).wf(),
            old(data).effective_count(old(data).slot_kind_of(gen_cnt)) >= 1,
        ensures
            *final(data) == old(data).released(gen_cnt),
            final(data).wf(),
            final(data).total_count() == old(data).total_count() - 1,
            old(data).gens_ok() ==> final(data).gens_ok(),
            old(data).healthy() ==> final(data).healthy(),
    {
        if crate::likely(gen_cnt == data.curr.gen_cnt) {
            data.curr.ref_cnt = data.curr.ref_cnt - 1;
        } else if gen_cnt == data.new.gen_cnt {
            data.new.ref_cnt = data.new.ref_cnt - 1;
            if data.new.ref_cnt == 0 {
                if data.intermediate.ref_cnt != 0 {
                    // take a reference of our own to the `intermediate` value
                    increase_ptr::<T, D>(data.intermediate.ptr);
                    let promoted_slot = data.intermediate;
                    data.intermediate = LocalCounted::empty();
                    replace::<T, D>(&mut data.new, promoted_slot);
                    self.release_intermediate_ref();
                }
            }
        } else {
            data.intermediate.ref_cnt = data.intermediate.ref_cnt - 1;
            if data.intermediate.ref_cnt == 0 {
                // no local guard of the `intermediate` value is left
                self.release_intermediate_ref();
            }
        }
    }

    /// Loads the stored value and returns a reference of its own to it,
    /// with the address it was made from: the pointer of the guard the load
    /// handed out, which is given back at once.
    pub fn load_full(&self, data: &mut LocalDataInner) -> (r: (D, usize))
        requires
            self.wf(),
            old(data).wf(),
            old(data).counts_bounded(),
            old(data).gens_ok(),
            old(data).next_gen_cnt < usize::MAX,
        ensures
            final(data).wf(),
            final(data).gens_ok(),
            final(data).total_count() == old(data).total_count(),
            exists|v: D| #[trigger] made_from::<T, D>(r.1, v) && cloned::<D>(v, r.0),
            exists|mid: LocalDataInner, gen: usize| #![trigger mid.released(gen)]
                (fast_loaded(*old(data), mid, LoadedRef { ptr: r.1, gen_cnt: gen })
                    || slow_loaded_opt(*old(data), mid, LoadedRef { ptr: r.1, gen_cnt: gen }, self.mask()))
                && *final(data) == mid.released(gen),
    {
        let loaded = self.load(data);
        let ghost mid = *data;
        let from_ptr = D::from(loaded.ptr);
        let ghost made = from_ptr;
        let val = ManuallyDrop::new(from_ptr);
        let out = val.deref().clone();
        self.release_guard(data, loaded.gen_cnt);
        let res = (out, loaded.ptr);
        assert(res.1 == loaded.ptr && res.0 == out);
        assert(made_from::<T, D>(res.1, made) && cloned::<D>(made, res.0));
        assert(LoadedRef { ptr: res.1, gen_cnt: loaded.gen_cnt } == loaded);
        assert((fast_loaded(*old(data), mid, loaded) || slow_loaded_opt(*old(data), mid, loaded, self.mask()))
            && *data == mid.released(loaded.gen_cnt));
        res
    }

    /// Loads the pointer together with the current metadata; the guard is
    /// given back with `release_guard`.
    pub fn load_raw(&self, data: &mut LocalDataInner) -> (r: LoadedRef)
        requires
            self.wf(),
            old(data).wf(),
            old(data).counts_bounded(),
        ensures
            final(data).wf(),
            exists|k: SlotKind| #![trigger final(data).slot(k)]
                final(data).backs(k, LoadedRef { ptr: final(data).slot(k).ptr, gen_cnt: r.gen_cnt })
                && r.ptr & !self.mask() == final(data).slot(k).ptr & !self.mask(),
            old(data).kept_in(*final(data)),
            final(data).total_count() == old(data).total_count() + 1,
            old(data).gens_ok() && old(data).next_gen_cnt < usize::MAX ==> final(data).gens_ok()
                && final(data).effective_count(final(data).slot_kind_of(r.gen_cnt)) >= 1,
            old(data).healthy() && old(data).next_gen_cnt < usize::MAX && !drained_fall_through(*old(data))
                ==> final(data).healthy(),
            exists|p: usize| #![trigger ptr_of(p, self.mask())]
                (fast_loaded(*old(data), *final(data), LoadedRef { ptr: p, gen_cnt: r.gen_cnt })
                || slow_loaded_opt(*old(data), *final(data), LoadedRef { ptr: p, gen_cnt: r.gen_cnt }, self.mask()))
                && ptr_of(r.ptr, self.mask()) == ptr_of(p, self.mask()),
    {
        let guard = self.load(data);
        let word = self.intermediate_ptr.load(Ordering::Relaxed);
        let curr_meta = get_metadata(word, self.meta_mask);
        let mask = self.meta_mask;
        proof {
            crate::meta::lemma_split_then_merge(word, mask);
        }
        let p = guard.ptr;
        let ptr = p | curr_meta;
        assert((p | curr_meta) & !mask == p & !mask) by (bit_vector)
            requires
                curr_meta & !mask == 0;
        proof {
            if data.backs(SlotKind::Curr, guard) {
                assert(data.slot(SlotKind::Curr).ptr == p);
            } else if data.backs(SlotKind::New, guard) {
                assert(data.slot(SlotKind::New).ptr == p);
            } else {
                assert(data.slot(SlotKind::Intermediate).ptr == p);
            }
        }
        let r = LoadedRef { ptr, gen_cnt: guard.gen_cnt };
        assert(LoadedRef { ptr: p, gen_cnt: r.gen_cnt } == guard);
        assert((fast_loaded(*old(data), *data, guard) || slow_loaded_opt(*old(data), *data, guard, self.mask()))
            && ptr_of(r.ptr, self.mask()) == ptr_of(p, self.mask()));
        r
    }

    /// Gives back the references a thread's cache holds when it is dropped:
    /// those of `curr` and `new`.
    pub fn dispose_local(data: LocalDataInner) {
        if data.new.ptr != 0 {
            release_ptr::<T, D>(data.new.ptr);
        }
        if data.curr.ptr != 0 {
            release_ptr::<T, D>(data.curr.ptr);
        }
    }
}

} // verus!
