//! `SwapArc`: a reference counted value that can be swapped out while it is
//! being read.
//!
//! The shared part of a `SwapArc` is a handful of atomic words: the current
//! pointer `ptr` with its reader counter `curr_ref_cnt`, the `intermediate`
//! pointer with its counter, and the `updated` slot in which a store that
//! could not be applied right away waits for the last reader to apply it.
//! Every thread keeps a small cache (`local::LocalDataInner`) that lets
//! most loads finish with a single relaxed atomic load.
//!
//! Values are handled through their addresses; the trait `DataPtrConvert`
//! turns a reference counted value into its address and back.
//!
//! Operations that may have to retry while other threads interfere are
//! offered as single attempts (`store_attempt`, `finish_update_step`, ...):
//! each attempt is verified, and the caller repeats it as long as the
//! attempt asks for it.
use core::marker::PhantomData;
use core::mem::ManuallyDrop;
use core::ops::Deref;
use std::sync::atomic::{AtomicUsize, Ordering};
use vstd::prelude::*;

pub mod accounting;
pub mod auto_local_arc;
pub mod cached_arc;
pub mod local;
pub mod meta;
pub mod ptr;
pub mod spreaded_arc;
pub mod swap_arc_tls_less_fence;
pub mod swap_arc_tls_optimistic;

use crate::meta::{
    get_metadata, low_mask, merge_ptr_and_metadata, meta_mask, meta_of, ptr_of, replace_metadata,
    set_metadata_bits, strip_metadata, unset_metadata_bits, with_meta, OTHER_UPDATE, UPDATE,
};

verus! {

/// Whether bit `i` of `val` is set.
pub open spec fn bit_at(val: usize, i: u32) -> bool {
    val & (1usize << i) != 0
}

/// The index of the highest bit below position `n` that is set in `val`.
pub open spec fn msb_below(val: usize, n: u32) -> Option<u32>
    decreases n,
{
    if n == 0 {
        None
    } else if bit_at(val, (n - 1) as u32) {
        Some((n - 1) as u32)
    } else {
        msb_below(val, (n - 1) as u32)
    }
}

/// The number of low bits that are known to be clear in every address of a
/// value with alignment `align`, as `SwapArc::new` computes it.
pub open spec fn free_bits(align: usize) -> u32 {
    match msb_below(align, usize::BITS) {
        Some(i) => i,
        None => 0,
    }
}

/// The index `msb_below` finds lies below the bound it searched.
pub proof fn lemma_msb_below_bound(val: usize, n: u32)
    ensures
        msb_below(val, n) matches Some(i) ==> i < n,
    decreases n,
{
    if n > 0 {
        lemma_msb_below_bound(val, (n - 1) as u32);
    }
}

proof fn lemma_msb_of_single_bit(k: u32, n: u32)
    requires
        k < n <= usize::BITS,
    ensures
        msb_below(1usize << k, n) == Some(k),
    decreases n,
{
    let j = (n - 1) as u32;
    if j == k {
        assert((1usize << k) & (1usize << k) != 0) by (bit_vector)
            requires
                k < usize::BITS;
    } else {
        assert((1usize << k) & (1usize << j) == 0) by (bit_vector)
            requires
                k < usize::BITS,
                j < usize::BITS,
                j != k;
        lemma_msb_of_single_bit(k, j);
    }
}

/// A value aligned to `2^k` leaves exactly `k` bits free: `SwapArc::new`
/// accepts it with up to `k` bits of metadata.
pub proof fn lemma_free_bits_of_power_of_two(k: u32)
    requires
        k < usize::BITS,
    ensures
        free_bits(1usize << k) == k,
{
    lemma_msb_of_single_bit(k, usize::BITS);
}

proof fn lemma_low_bits_extend(val: usize, i: u32)
    requires
        i + 1 < usize::BITS,
        (val >> i) << i == val,
        val & (1usize << i) == 0,
    ensures
        (val >> ((i + 1) as u32)) << ((i + 1) as u32) == val,
{
    assert((val >> ((i + 1) as u32)) << ((i + 1) as u32) == val) by (bit_vector)
        requires
            i + 1 < usize::BITS,
            (val >> i) << i == val,
            val & (1usize << i) == 0;
}

proof fn lemma_low_bits_all(val: usize, i: u32)
    requires
        i + 1 == usize::BITS,
        (val >> i) << i == val,
        val & (1usize << i) == 0,
    ensures
        val == 0,
{
    assert(val == 0) by (bit_vector)
        requires
            i + 1 == usize::BITS,
            (val >> i) << i == val,
            val & (1usize << i) == 0;
}

proof fn lemma_bit_set_nonzero(val: usize, i: u32)
    requires
        i < usize::BITS,
        val & (1usize << i) != 0,
    ensures
        val != 0,
{
    assert(val != 0) by (bit_vector)
        requires
            i < usize::BITS,
            val & (1usize << i) != 0;
}

/// Returns the index of the most significant bit that is set in `val`,
/// or `None` when no bit is set.
pub fn most_sig_set_bit(val: usize) -> (ret: Option<u32>)
    ensures
        ret == msb_below(val, usize::BITS),
        ret is None <==> val == 0,
        ret matches Some(i) ==> i < usize::BITS && bit_at(val, i) && forall|j: u32|
            i < j < usize::BITS ==> !#[trigger] bit_at(val, j),
{
    let mut i: u32 = 0;
    let mut ret: Option<u32> = None;
    assert((val >> 0u32) << 0u32 == val) by (bit_vector);
    while i < usize::BITS
        invariant
            i <= usize::BITS,
            ret == msb_below(val, i),
            ret is None ==> (i < usize::BITS ==> (val >> i) << i == val),
            ret is None ==> (i == usize::BITS ==> val == 0),
            ret matches Some(k) ==> k < i && bit_at(val, k) && forall|j: u32|
                k < j < i ==> !#[trigger] bit_at(val, j),
        decreases usize::BITS - i,
    {
        if val & (1usize << i) != 0 {
            ret = Some(i);
        } else {
            proof {
                if ret is None {
                    if i + 1 < usize::BITS {
                        lemma_low_bits_extend(val, i);
                    } else {
                        lemma_low_bits_all(val, i);
                    }
                }
            }
        }
        i += 1;
    }
    proof {
        if let Some(k) = ret {
            lemma_bit_set_nonzero(val, k);
        }
    }
    ret
}

/// Whether a value with alignment `align` leaves room for `metadata_bits`
/// bits of metadata in its address; `SwapArc::new` insists on it.
pub fn alignment_fits(align: usize, metadata_bits: u32) -> (r: bool)
    ensures
        r == (free_bits(align) >= metadata_bits),
{
    let free = match most_sig_set_bit(align) {
        Some(i) => i,
        None => 0,
    };
    free >= metadata_bits
}

/// Whether a weak compare-exchange may fail spuriously on the target:
/// on the x86 family it never does, elsewhere it may.
/// This is a hint for retry loops and is never relied upon for correctness.
pub fn is_cmp_exchg_really_weak(x86_family: bool) -> (r: bool)
    ensures
        r == !x86_family,
{
    !x86_family
}

/// Whether a failed weak compare-exchange that expected `curr` and found
/// `found` should be retried at once, as a spurious failure, instead of
/// backing off first.
pub fn retry_at_once(really_weak: bool, curr: usize, found: usize) -> (r: bool)
    ensures
        r == (really_weak && curr == found),
{
    really_weak && curr == found
}

/// The branch hint `likely_stable::likely`: returns `b`.
#[verifier::external_body]
pub(crate) fn likely(b: bool) -> (r: bool)
    ensures
        r == b,
{
    likely_stable::likely(b)
}

/// The branch hint `likely_stable::unlikely`: returns `b`.
#[verifier::external_body]
pub(crate) fn unlikely(b: bool) -> (r: bool)
    ensures
        r == b,
{
    likely_stable::unlikely(b)
}

/// Reference counted values that a `SwapArc` can hold: cloning one takes a
/// reference, dropping one gives it back.
pub trait RefCnt: Send + Sync + Clone {

}

/// Conversion between a reference counted value and the address of the
/// value it refers to. Neither direction alters the reference count.
pub trait DataPtrConvert<T: Send + Sync>: RefCnt + Sized {
    /// The value whose address is `ptr`, which was produced by `into_ptr`
    /// from a value whose count has not dropped to zero since.
    fn from(ptr: usize) -> Self;

    /// The address of the value; the reference that `self` held is kept
    /// alive behind the address.
    fn into_ptr(self) -> usize;

    /// Takes one more reference to the value directly.
    fn increase_ref_cnt(&self) {
        let _kept = ManuallyDrop::new(self.clone());
    }
}

/// `v` is a value that `D::from` may return for the address `ptr`.
pub open spec fn made_from<T: Send + Sync, D: DataPtrConvert<T>>(ptr: usize, v: D) -> bool {
    call_ensures(<D as DataPtrConvert<T>>::from, (ptr,), v)
}

/// Gives back one reference held behind the address `ptr`.
pub(crate) fn release_ref<T: Send + Sync, D: DataPtrConvert<T>>(ptr: usize) {
    let _released = D::from(ptr);
}

/// Takes one more reference to the value behind the address `ptr`.
pub(crate) fn acquire_ref<T: Send + Sync, D: DataPtrConvert<T>>(ptr: usize) {
    let val = ManuallyDrop::new(D::from(ptr));
    val.deref().increase_ref_cnt();
}

/// Which counter protects a strongly loaded pointer.
#[derive(PartialEq, Eq, Structural, Clone, Copy, Debug)]
pub enum RefSource {
    Curr,
    Intermediate,
}

/// A pointer loaded strongly, protected by the counter `ref_src` names
/// until it is handed back with `release_strong`.
pub struct StrongGuard<D> {
    pub fake_ref: ManuallyDrop<D>,
    pub ptr: usize,
    pub ref_src: RefSource,
}

/// What one round of bringing `ptr` up to date with a published update
/// asks of its caller.
#[derive(PartialEq, Eq, Structural, Clone, Copy, Debug)]
pub enum FinishStep {
    /// `ptr` now holds the update.
    Done,
    /// Try again, expecting the `curr` counter to hold `expected`.
    Retry { expected: usize },
    /// Readers of `ptr` are still active; the last of them applies the
    /// update.
    Deferred,
}

/// The outcome of one attempt to store a new pointer.
#[derive(PartialEq, Eq, Structural, Clone, Copy, Debug)]
pub enum StoreAttempt {
    /// Another store holds the `intermediate` pointer; back off and try
    /// again.
    Busy,
    /// The pointer waits in `updated` until the last reader applies it.
    Pushed,
    /// The pointer (with the current metadata) is the new `intermediate`
    /// pointer; `ptr` still has to be brought up to date with it.
    Published { new: usize },
}

/// The outcome of a compare-exchange once the `intermediate` pointer is
/// held.
#[derive(PartialEq, Eq, Structural, Clone, Copy, Debug)]
pub enum CompareExchange {
    /// The current pointer was not the expected one; nothing changed.
    Mismatch,
    /// `new` is the new `intermediate` pointer; `ptr` still has to be
    /// brought up to date with it.
    Installed { new: usize },
}

/// What a store decides when the `intermediate` counter was not free, given
/// the count `found`: with another store running it backs off, otherwise it
/// pushes its pointer for the last reader.
pub fn contended_store(found: usize) -> (r: StoreAttempt)
    ensures
        r == (if found & UPDATE != 0 {
            StoreAttempt::Busy
        } else {
            StoreAttempt::Pushed
        }),
{
    if found & UPDATE != 0 {
        StoreAttempt::Busy
    } else {
        StoreAttempt::Pushed
    }
}

/// Whether the word `found` of the `intermediate` pointer is the expected
/// `old`: compared whole, or by their pointer parts alone when
/// `ignore_meta` is set.
pub fn expected_found(found: usize, old: usize, ignore_meta: bool, mask: usize) -> (r: bool)
    ensures
        r == (if ignore_meta {
            ptr_of(found, mask) == ptr_of(old, mask)
        } else {
            found == old
        }),
{
    if ignore_meta {
        strip_metadata(found, mask) == strip_metadata(old, mask)
    } else {
        found == old
    }
}

/// Which counter a strong read keeps, given the `curr` count `ref_cnt` it
/// found (with `flags` the flags that send it on to the `intermediate`
/// pointer) and, when it went on, the `intermediate` count `icnt` it found:
/// the `intermediate` counter exactly when `curr` carried such a flag and
/// `intermediate` was not being replaced itself.
pub fn strong_source(ref_cnt: usize, flags: usize, icnt: usize) -> (r: RefSource)
    ensures
        r == (if ref_cnt & flags != 0 && icnt & UPDATE == 0 {
            RefSource::Intermediate
        } else {
            RefSource::Curr
        }),
{
    if ref_cnt & flags != 0 && icnt & UPDATE == 0 {
        RefSource::Intermediate
    } else {
        RefSource::Curr
    }
}

/// Whether a pending update of `ptr` replaces its value, given the word
/// `prev` of `ptr` and the word `intermediate` of the `intermediate`
/// pointer: exactly when their pointer parts differ. Only then is `ptr`
/// stored and the reference of its old value given back.
pub fn replaces_curr(prev: usize, intermediate: usize, mask: usize) -> (r: bool)
    ensures
        r == (ptr_of(prev, mask) != ptr_of(intermediate, mask)),
{
    strip_metadata(prev, mask) != strip_metadata(intermediate, mask)
}

/// Whether giving back a strong read from the counter `src`, which held
/// `prev` before, makes this reader the one to apply an update: the last
/// reader of `ptr` with an update pending (`curr` held only the pending
/// flag and this reader), or the last reader of the `intermediate` pointer
/// while a store waits in `updated`.
pub fn release_applies(src: RefSource, prev: usize, updated: usize) -> (r: bool)
    ensures
        r == (match src {
            RefSource::Curr => prev == OTHER_UPDATE + 1,
            RefSource::Intermediate => prev == 1 && updated != 0,
        }),
{
    proof {
        meta::lemma_flags();
    }
    match src {
        RefSource::Curr => prev == OTHER_UPDATE + 1,
        RefSource::Intermediate => prev == 1 && updated != 0,
    }
}

/// What a compare-exchange decides once it holds the `intermediate`
/// pointer and found the word `found` there: `new` is installed exactly
/// when `found` is the expected `old` (compared as `expected_found` does).
pub fn compare_outcome(found: usize, old: usize, new: usize, ignore_meta: bool, mask: usize) -> (r: CompareExchange)
    ensures
        r == (if (if ignore_meta {
            ptr_of(found, mask) == ptr_of(old, mask)
        } else {
            found == old
        }) {
            CompareExchange::Installed { new }
        } else {
            CompareExchange::Mismatch
        }),
{
    if expected_found(found, old, ignore_meta, mask) {
        CompareExchange::Installed { new }
    } else {
        CompareExchange::Mismatch
    }
}

/// What a round of finishing an update decides when readers of `ptr` were
/// left, given the `curr` count `prev` found when it marked the update as
/// pending: a count without readers or flags asks for one more round, any
/// other leaves the update to the last reader.
pub fn pending_outcome(prev: usize) -> (r: FinishStep)
    ensures
        r == (if prev == 0 {
            FinishStep::Retry { expected: OTHER_UPDATE }
        } else {
            FinishStep::Deferred
        }),
{
    if prev == 0 {
        FinishStep::Retry { expected: OTHER_UPDATE }
    } else {
        FinishStep::Deferred
    }
}

/// A `SwapArc` is a data structure that allows for an `Arc`
/// to be passed around and swapped out with other `Arc`s.
/// Reads are cheap in the common case (no update) and still fast while an
/// update is performed. A new value is first tried on the current pointer
/// (when no other update is running and no strong reader is left), then on
/// the `intermediate` pointer, and otherwise pushed so that the last
/// `intermediate` reader applies it.
pub struct SwapArcAnyMeta<T: Send + Sync, D: DataPtrConvert<T>, const METADATA_BITS: u32> {
    curr_ref_cnt: AtomicUsize,
    ptr: AtomicUsize,
    intermediate_ref_cnt: AtomicUsize,
    intermediate_ptr: AtomicUsize,
    updated: AtomicUsize,
    meta_mask: usize,
    _marker: PhantomData<(T, D)>,
}

impl<T: Send + Sync, D: DataPtrConvert<T>, const METADATA_BITS: u32> SwapArcAnyMeta<T, D, METADATA_BITS> {
    /// The shape every `SwapArc` keeps: its mask covers exactly the
    /// metadata bits, and those leave the two flag bits alone.
    pub closed spec fn wf(&self) -> bool {
        &&& METADATA_BITS < usize::BITS
        &&& self.meta_mask == low_mask(METADATA_BITS)
    }

    /// The mask of the metadata bits.
    pub closed spec fn mask(&self) -> usize {
        self.meta_mask
    }

    /// The mask of the metadata bits of this `SwapArc`.
    pub fn metadata_mask(&self) -> (r: usize)
        requires
            self.wf(),
        ensures
            r == self.mask(),
            r == low_mask(METADATA_BITS),
    {
        self.meta_mask
    }

    /// Creates a new `SwapArc` instance with `val` as the initial value.
    pub fn new(val: D) -> (r: Self)
        requires
            free_bits(core::mem::align_of::<T>()) >= METADATA_BITS,
        ensures
            r.wf(),
    {
        let virtual_ref = val.into_ptr();
        Self::new_raw(virtual_ref)
    }

    /// Creates a new `SwapArc` instance around the address `val`, whose
    /// reference the caller hands over.
    pub fn new_raw(val: usize) -> (r: Self)
        requires
            free_bits(core::mem::align_of::<T>()) >= METADATA_BITS,
        ensures
            r.wf(),
    {
        proof {
            lemma_msb_below_bound(core::mem::align_of::<T>(), usize::BITS);
        }
        let mask = meta_mask(METADATA_BITS);
        SwapArcAnyMeta {
            curr_ref_cnt: AtomicUsize::new(0),
            ptr: AtomicUsize::new(val),
            intermediate_ref_cnt: AtomicUsize::new(0),
            intermediate_ptr: AtomicUsize::new(val),
            updated: AtomicUsize::new(0),
            meta_mask: mask,
            _marker: PhantomData,
        }
    }
}


/// An acquire fence: `std::sync::atomic::fence(Ordering::Acquire)`.
/// It orders memory accesses and returns nothing; no contract is claimed.
#[verifier::external_body]
pub(crate) fn acquire_fence() {
    std::sync::atomic::fence(Ordering::Acquire)
}

impl<T: Send + Sync, D: DataPtrConvert<T>, const METADATA_BITS: u32> SwapArcAnyMeta<T, D, METADATA_BITS> {
    /// Takes a reference on one of the two counters and reads the pointer
    /// it protects: `ptr` unless an update of it is running or pending, in
    /// which case the `intermediate` pointer is used when it is not being
    /// replaced itself.
    pub fn load_internal(&self) -> (r: (usize, RefSource))
        requires
            self.wf(),
    {
        let ref_cnt = self.curr_ref_cnt.fetch_add(1, Ordering::AcqRel);
        if ref_cnt & (UPDATE | OTHER_UPDATE) != 0 {
            let intermediate_ref_cnt = self.intermediate_ref_cnt.fetch_add(1, Ordering::AcqRel);
            match strong_source(ref_cnt, UPDATE | OTHER_UPDATE, intermediate_ref_cnt) {
                RefSource::Curr => {
                    let ret = self.ptr.load(Ordering::Relaxed);
                    // release the redundant reference
                    self.intermediate_ref_cnt.fetch_sub(1, Ordering::AcqRel);
                    (ret, RefSource::Curr)
                },
                RefSource::Intermediate => {
                    let ret = self.intermediate_ptr.load(Ordering::Relaxed);
                    // release the redundant reference
                    self.curr_ref_cnt.fetch_sub(1, Ordering::AcqRel);
                    (ret, RefSource::Intermediate)
                },
            }
        } else {
            (self.ptr.load(Ordering::Relaxed), RefSource::Curr)
        }
    }

    /// A strong read: the current pointer, protected by a reference on one
    /// of the counters until `release_strong` gives it back.
    pub fn load_strongly(&self) -> (r: StrongGuard<D>)
        requires
            self.wf(),
        ensures
            r.ptr & self.mask() == 0,
            made_from::<T, D>(r.ptr, r.fake_ref@),
    {
        let (ptr, src) = self.load_internal();
        let stripped = strip_metadata(ptr, self.meta_mask);
        proof {
            meta::lemma_split_then_merge(ptr, self.meta_mask);
        }
        let fake_ref = ManuallyDrop::new(D::from(stripped));
        let guard = StrongGuard { fake_ref, ptr: stripped, ref_src: src };
        assert(made_from::<T, D>(guard.ptr, guard.fake_ref@));
        guard
    }

    /// Gives back the reference of a strong read. The last reader of `ptr`
    /// with an update pending applies it; the last reader of the
    /// `intermediate` pointer with a store waiting applies that store, and
    /// then `Some(new)` asks the caller to bring `ptr` up to date with `new`
    /// (`finish_update_step`, starting from an expected count of `0`).
    pub fn release_strong(&self, guard: StrongGuard<D>) -> (r: Option<usize>)
        requires
            self.wf(),
        ensures
            r matches Some(new) ==> new != 0,
            r is Some ==> guard.ref_src == RefSource::Intermediate,
    {
        proof {
            meta::lemma_flags();
        }
        match guard.ref_src {
            RefSource::Curr => {
                let ref_cnt = self.curr_ref_cnt.fetch_sub(1, Ordering::AcqRel);
                if release_applies(RefSource::Curr, ref_cnt, 0) {
                    self.try_update_curr();
                }
                None
            },
            RefSource::Intermediate => self.release_intermediate_ref(),
        }
    }

    /// Applies a pending update of `ptr` when no reader of it is left:
    /// `ptr` takes the `intermediate` pointer and the reference held for
    /// the old `ptr` is given back.
    pub fn try_update_curr(&self) -> (r: bool)
        requires
            self.wf(),
    {
        match self.curr_ref_cnt.compare_exchange(OTHER_UPDATE, UPDATE, Ordering::AcqRel, Ordering::Relaxed) {
            Ok(_) => {
                let intermediate = self.intermediate_ptr.load(Ordering::Relaxed);
                let prev = self.ptr.load(Ordering::Relaxed);
                if replaces_curr(prev, intermediate, self.meta_mask) {
                    self.ptr.store(intermediate, Ordering::Relaxed);
                    // unset the update flag
                    self.curr_ref_cnt.fetch_and(!UPDATE, Ordering::AcqRel);
                    // drop the reference held for the replaced pointer
                    release_ref::<T, D>(strip_metadata(prev, self.meta_mask));
                } else {
                    // unset the update flag
                    self.curr_ref_cnt.fetch_and(!UPDATE, Ordering::AcqRel);
                }
                // unset the pending flag of the intermediate counter
                self.intermediate_ref_cnt.fetch_and(!OTHER_UPDATE, Ordering::AcqRel);
                true
            },
            Err(_) => false,
        }
    }

    /// Gives back one reference on the shared `intermediate` counter. The
    /// last reader of the `intermediate` pointer with a store waiting in
    /// `updated` applies that store; `Some(new)` then asks the caller to
    /// bring `ptr` up to date with `new`.
    pub fn release_intermediate_ref(&self) -> (r: Option<usize>)
        requires
            self.wf(),
        ensures
            r matches Some(new) ==> new != 0,
    {
        let ref_cnt = self.intermediate_ref_cnt.fetch_sub(1, Ordering::AcqRel);
        let waiting = self.updated.load(Ordering::Relaxed);
        if release_applies(RefSource::Intermediate, ref_cnt, waiting) {
            self.try_update_intermediate()
        } else {
            None
        }
    }

    /// Applies a waiting store to the `intermediate` pointer when no reader
    /// of it is left. `Some(new)` asks the caller to bring `ptr` up to date
    /// with `new`.
    pub fn try_update_intermediate(&self) -> (r: Option<usize>)
        requires
            self.wf(),
        ensures
            r matches Some(new) ==> new != 0,
    {
        match self.intermediate_ref_cnt.compare_exchange(0, UPDATE | OTHER_UPDATE, Ordering::AcqRel, Ordering::Relaxed) {
            Ok(_) => {
                // take the update
                let taken = self.updated.swap(0, Ordering::AcqRel);
                if taken != 0 {
                    let metadata = get_metadata(self.intermediate_ptr.load(Ordering::Relaxed), self.meta_mask);
                    let update = merge_ptr_and_metadata(taken, metadata);
                    assert(taken | metadata != 0) by (bit_vector)
                        requires
                            taken != 0;
                    self.intermediate_ptr.store(update, Ordering::Release);
                    // unset the update flag
                    self.intermediate_ref_cnt.fetch_and(!UPDATE, Ordering::AcqRel);
                    Some(update)
                } else {
                    // unset the update flags as there's no update to be applied here
                    self.intermediate_ref_cnt.fetch_and(!(UPDATE | OTHER_UPDATE), Ordering::AcqRel);
                    None
                }
            },
            Err(_) => None,
        }
    }
}


impl<T: Send + Sync, D: DataPtrConvert<T>, const METADATA_BITS: u32> SwapArcAnyMeta<T, D, METADATA_BITS> {
    /// One round of bringing `ptr` up to date with the published pointer
    /// `new`, expecting the `curr` counter to hold `curr` (`0` in the first
    /// round). When no reader of `ptr` is left, `ptr` takes `new`, both
    /// update flags are cleared and the reference held for the old `ptr` is
    /// given back. Otherwise the `curr` counter is marked as having an
    /// update pending: if it had no flag yet, one more round is asked for;
    /// if it had, the last reader of `ptr` applies the update.
    pub fn finish_update_step(&self, new: usize, curr: usize) -> (r: FinishStep)
        requires
            self.wf(),
        ensures
            r matches FinishStep::Retry { expected } ==> expected == OTHER_UPDATE,
    {
        match self.curr_ref_cnt.compare_exchange(curr, UPDATE, Ordering::AcqRel, Ordering::Relaxed) {
            Ok(_) => {
                let prev = self.ptr.load(Ordering::Relaxed);
                self.ptr.store(new, Ordering::Relaxed);
                // unset the update flag to signal that `ptr` may be used again
                self.curr_ref_cnt.fetch_and(!UPDATE, Ordering::AcqRel);
                // allow new updates of the `intermediate` pointer again
                self.intermediate_ref_cnt.fetch_and(!OTHER_UPDATE, Ordering::AcqRel);
                // drop the reference held for the replaced pointer
                release_ref::<T, D>(strip_metadata(prev, self.meta_mask));
                FinishStep::Done
            },
            Err(_) => {
                let prev = self.curr_ref_cnt.fetch_or(OTHER_UPDATE, Ordering::AcqRel);
                pending_outcome(prev)
            },
        }
    }

    /// One attempt to store the address `new`, whose reference the caller
    /// hands over. If no reader or writer holds the `intermediate` pointer,
    /// it takes `new` with the current metadata and a store still waiting
    /// in `updated` is discarded; otherwise, unless another store is
    /// running, `new` replaces whatever waits in `updated`. A replaced
    /// waiting store has its reference given back.
    pub fn store_attempt(&self, new: usize) -> (r: StoreAttempt)
        requires
            self.wf(),
        ensures
            r matches StoreAttempt::Published { new: published } ==>
                ptr_of(published, self.mask()) == ptr_of(new, self.mask()),
    {
        match self.intermediate_ref_cnt.compare_exchange(0, UPDATE | OTHER_UPDATE, Ordering::AcqRel, Ordering::Relaxed) {
            Ok(_) => {
                // clear out old updates so that they can't overwrite ours later
                let old = self.updated.swap(0, Ordering::AcqRel);
                let word = self.intermediate_ptr.load(Ordering::Relaxed);
                let metadata = get_metadata(word, self.meta_mask);
                let published = merge_ptr_and_metadata(new, metadata);
                let mask = self.meta_mask;
                proof {
                    meta::lemma_split_then_merge(word, mask);
                }
                assert((new | metadata) & !mask == new & !mask) by (bit_vector)
                    requires
                        metadata & !mask == 0;
                self.intermediate_ptr.store(published, Ordering::Relaxed);
                // unset the update flag: `intermediate_ptr` may be relied upon again
                self.intermediate_ref_cnt.fetch_and(!UPDATE, Ordering::AcqRel);
                if old != 0 {
                    release_ref::<T, D>(old);
                }
                StoreAttempt::Published { new: published }
            },
            Err(found) => {
                let outcome = contended_store(found);
                if outcome == StoreAttempt::Pushed {
                    acquire_fence();
                    // push the update so that the last reader applies it
                    let old = self.updated.swap(new, Ordering::AcqRel);
                    if old != 0 {
                        release_ref::<T, D>(old);
                    }
                }
                // otherwise somebody else is updating: wait until they finish
                outcome
            },
        }
    }

    /// Prepares the store of a raw address: its metadata bits are removed
    /// and one more reference to its value is taken, which the following
    /// `store_attempt`s hand over.
    pub fn prepare_store_raw(&self, updated: usize) -> (r: usize)
        requires
            self.wf(),
        ensures
            r == ptr_of(updated, self.mask()),
    {
        let updated = strip_metadata(updated, self.meta_mask);
        let tmp = ManuallyDrop::new(D::from(updated));
        tmp.deref().increase_ref_cnt();
        updated
    }

    /// One attempt to take the `intermediate` pointer for a
    /// compare-exchange: succeeds when no reader or writer holds it.
    pub fn lock_intermediate_attempt(&self) -> (r: bool)
        requires
            self.wf(),
    {
        self.intermediate_ref_cnt.compare_exchange_weak(0, UPDATE | OTHER_UPDATE, Ordering::AcqRel, Ordering::Relaxed).is_ok()
    }

    /// The compare-exchange itself, once `lock_intermediate_attempt` has
    /// succeeded: if the `intermediate` pointer is `old` (ignoring the
    /// metadata of both when `ignore_meta` is set), it becomes `new`, one
    /// more reference to `new`'s value is taken, and a waiting store is
    /// discarded; otherwise the pointer is released unchanged.
    pub fn compare_exchange_locked(&self, old: usize, new: usize, ignore_meta: bool) -> (r: CompareExchange)
        requires
            self.wf(),
        ensures
            r matches CompareExchange::Installed { new: installed } ==> installed == new,
    {
        let intermediate = self.intermediate_ptr.load(Ordering::Relaxed);
        if compare_outcome(intermediate, old, new, ignore_meta, self.meta_mask) == CompareExchange::Mismatch {
            self.intermediate_ref_cnt.fetch_and(!(UPDATE | OTHER_UPDATE), Ordering::Acquire);
            return CompareExchange::Mismatch;
        }
        let tmp = ManuallyDrop::new(D::from(strip_metadata(new, self.meta_mask)));
        tmp.deref().increase_ref_cnt();
        // clear out old updates so that they can't overwrite ours later
        let old_update = self.updated.swap(0, Ordering::AcqRel);
        self.intermediate_ptr.store(new, Ordering::Relaxed);
        // unset the update flag
        self.intermediate_ref_cnt.fetch_and(!UPDATE, Ordering::AcqRel);
        if old_update != 0 {
            release_ref::<T, D>(old_update);
        }
        CompareExchange::Installed { new }
    }

    /// One attempt to replace the metadata of the `intermediate` pointer,
    /// expected to be `curr`, by `metadata`; on failure the word found is
    /// returned.
    pub fn update_metadata_attempt(&self, curr: usize, metadata: usize) -> (r: Result<usize, usize>)
        requires
            self.wf(),
        ensures
            r matches Ok(w) ==> w == with_meta(curr, metadata, self.mask()),
    {
        let new = replace_metadata(curr, metadata, self.meta_mask);
        match self.intermediate_ptr.compare_exchange_weak(curr, new, Ordering::Relaxed, Ordering::Relaxed) {
            Ok(_) => Ok(new),
            Err(err) => Err(err),
        }
    }

    /// Replaces the metadata of the pointer by `metadata`, provided the
    /// pointer still is `old`.
    pub fn try_update_meta(&self, old: usize, metadata: usize) -> (r: bool)
        requires
            self.wf(),
    {
        let new = replace_metadata(old, metadata, self.meta_mask);
        self.intermediate_ptr.compare_exchange(old, new, Ordering::Relaxed, Ordering::Relaxed).is_ok()
    }

    /// One attempt to set the metadata bits that are set in `active_bits`,
    /// expecting the pointer to be `curr`; on failure the word found is
    /// returned.
    pub fn set_in_metadata_attempt(&self, curr: usize, active_bits: usize) -> (r: Result<usize, usize>)
        requires
            self.wf(),
        ensures
            r matches Ok(w) ==> w == curr | (active_bits & self.mask()),
    {
        let new = set_metadata_bits(curr, active_bits, self.meta_mask);
        match self.intermediate_ptr.compare_exchange_weak(curr, new, Ordering::Relaxed, Ordering::Relaxed) {
            Ok(_) => Ok(new),
            Err(err) => Err(err),
        }
    }

    /// One attempt to clear the metadata bits that are set in
    /// `inactive_bits`, expecting the pointer to be `curr`; on failure the
    /// word found is returned.
    pub fn unset_in_metadata_attempt(&self, curr: usize, inactive_bits: usize) -> (r: Result<usize, usize>)
        requires
            self.wf(),
        ensures
            r matches Ok(w) ==> w == curr & !(inactive_bits & self.mask()),
    {
        let new = unset_metadata_bits(curr, inactive_bits, self.meta_mask);
        match self.intermediate_ptr.compare_exchange_weak(curr, new, Ordering::Relaxed, Ordering::Relaxed) {
            Ok(_) => Ok(new),
            Err(err) => Err(err),
        }
    }

    /// The word of the `intermediate` pointer, the starting point of the
    /// metadata updates.
    pub fn load_intermediate_word(&self) -> (r: usize)
        requires
            self.wf(),
    {
        self.intermediate_ptr.load(Ordering::Relaxed)
    }

    /// Returns the metadata stored inside the internal pointer.
    pub fn load_metadata(&self) -> (r: usize)
        requires
            self.wf(),
        ensures
            r & !self.mask() == 0,
    {
        let word = self.intermediate_ptr.load(Ordering::Relaxed);
        let r = get_metadata(word, self.meta_mask);
        proof {
            meta::lemma_split_then_merge(word, self.meta_mask);
        }
        r
    }

    /// Gives back the references the `SwapArc` holds when it is dropped:
    /// the waiting store, the `intermediate` pointer when it differs from
    /// `ptr`, and `ptr`.
    pub fn dispose(self)
        requires
            self.wf(),
    {
        let updated = self.updated.load(Ordering::Relaxed);
        if updated != 0 {
            release_ref::<T, D>(updated);
        }
        let curr = strip_metadata(self.ptr.load(Ordering::Relaxed), self.meta_mask);
        let intermediate = strip_metadata(self.intermediate_ptr.load(Ordering::Relaxed), self.meta_mask);
        if intermediate != curr {
            release_ref::<T, D>(intermediate);
        }
        release_ref::<T, D>(curr);
    }
}

} // verus!
