//! The guards a thread holds, counted against its cache.
//!
//! A thread's outstanding guards are a multiset of generations. The cache
//! accounts for them when every generation occurs exactly as often as the
//! slots with that generation count guards. Loads and releases keep that
//! accounting, and a cache that accounts for a guard always lets it be given
//! back: its generation leads to a slot that still counts it.
use vstd::multiset::Multiset;
use vstd::prelude::*;

use crate::local::{
    fast_loaded, fresh_cached, intermediate_taken, moved_to_curr, slow_loaded, LoadedRef,
    LocalDataInner, SlotKind,
};
use crate::swap_arc_tls_optimistic::{drained_fall_through, settled, slow_loaded_opt};

verus! {

broadcast use vstd::multiset::group_multiset_axioms;

/// The guards that the slots of `d` with the generation `g` count.
pub open spec fn counted(d: LocalDataInner, g: usize) -> int {
    (if d.curr.gen_cnt == g { d.effective_count(SlotKind::Curr) } else { 0 })
        + (if d.new.gen_cnt == g { d.effective_count(SlotKind::New) } else { 0 })
        + (if d.intermediate.gen_cnt == g { d.effective_count(SlotKind::Intermediate) } else { 0 })
}

/// The cache `d` accounts for the outstanding guards `guards`: each
/// generation occurs as often as the slots with it count guards.
pub open spec fn accounts(d: LocalDataInner, guards: Multiset<usize>) -> bool {
    forall|g: usize| #[trigger] guards.count(g) == counted(d, g)
}

/// A thread starts with no outstanding guard, and its first cache accounts
/// for that.
pub proof fn lemma_initial_accounts(p: usize)
    ensures
        accounts(crate::local::initial_cache(p), Multiset::empty()),
{
    let d = crate::local::initial_cache(p);
    assert forall|g: usize| #[trigger] Multiset::<usize>::empty().count(g) == counted(d, g) by {}
}

/// Every guard a healthy cache accounts for can be given back: its
/// generation leads to a slot that counts at least one guard. Giving it back
/// leaves a cache that accounts for the remaining guards.
pub proof fn lemma_release_accounts(d: LocalDataInner, guards: Multiset<usize>, g: usize)
    requires
        d.wf(),
        d.healthy(),
        accounts(d, guards),
        guards.count(g) > 0,
    ensures
        d.effective_count(d.slot_kind_of(g)) >= 1,
        accounts(d.released(g), guards.remove(g)),
{
    assert(guards.count(g) == counted(d, g));
    let after = d.released(g);
    assert forall|h: usize| #[trigger] guards.remove(g).count(h) == counted(after, h) by {
        assert(guards.count(h) == counted(d, h));
    }
}

/// A load keeps the accounting: the cache it leaves accounts for the guards
/// held before and the one it handed out. `before` is the cache before the
/// load, `after` the one it left and `r` the guard, as `load`'s contract
/// relates them.
pub proof fn lemma_load_accounts(
    before: LocalDataInner,
    after: LocalDataInner,
    r: LoadedRef,
    guards: Multiset<usize>,
    mask: usize,
)
    requires
        before.wf(),
        before.counts_bounded(),
        before.healthy(),
        accounts(before, guards),
        fast_loaded(before, after, r) || slow_loaded(before, after, r, mask),
    ensures
        accounts(after, guards.insert(r.gen_cnt)),
{
    assert forall|h: usize| #[trigger] guards.insert(r.gen_cnt).count(h) == counted(after, h) by {
        assert(guards.count(h) == counted(before, h));
        if fast_loaded(before, after, r) {
        } else if before.new.ref_cnt == 0 {
            let p = choose|p: usize| #[trigger] fresh_cached(before, p) == (after, r) && p & mask == 0;
            assert(fresh_cached(before, p) == (after, r));
        } else if before.new.ref_cnt == usize::MAX {
        } else if before.curr.ref_cnt == 0 {
            if before.intermediate.ref_cnt != 0 {
            } else {
                let m = moved_to_curr(before);
                if after == (LocalDataInner { curr: crate::local::LocalCounted { ref_cnt: (m.curr.ref_cnt + 1) as usize, ..m.curr }, ..m })
                    && r == (LoadedRef { ptr: m.curr.ptr, gen_cnt: m.curr.gen_cnt }) {
                } else {
                    let p = choose|p: usize| #[trigger] fresh_cached(m, p) == (after, r) && p & mask == 0 && p != m.curr.ptr;
                    assert(fresh_cached(m, p) == (after, r));
                }
            }
        } else if before.intermediate.ref_cnt != 0 {
        } else {
            let (icnt, p) = choose|icnt: usize, p: usize| #[trigger] intermediate_taken(before, icnt, p) == (after, r) && p & mask == 0;
            assert(intermediate_taken(before, icnt, p) == (after, r));
        }
    }
}

/// A load of `SwapArcIntermediateTLS` keeps the accounting too, except from
/// the drained cache in which it hands out the emptied `new` slot.
pub proof fn lemma_tls_load_accounts(
    before: LocalDataInner,
    after: LocalDataInner,
    r: LoadedRef,
    guards: Multiset<usize>,
    mask: usize,
)
    requires
        before.wf(),
        before.counts_bounded(),
        before.healthy(),
        !drained_fall_through(before),
        accounts(before, guards),
        fast_loaded(before, after, r) || slow_loaded_opt(before, after, r, mask),
    ensures
        accounts(after, guards.insert(r.gen_cnt)),
{
    assert forall|h: usize| #[trigger] guards.insert(r.gen_cnt).count(h) == counted(after, h) by {
        assert(guards.count(h) == counted(before, h));
        if fast_loaded(before, after, r) {
        } else if before.new.ref_cnt == 0 {
            let p = choose|p: usize| #[trigger] fresh_cached(before, p) == (after, r) && p & mask == 0;
            assert(fresh_cached(before, p) == (after, r));
        } else if before.new.ref_cnt == usize::MAX {
        } else if before.curr.ref_cnt == 0 && before.intermediate.ref_cnt != 0 {
        } else {
            let m = settled(before);
            assert(m == before);
            if m.intermediate.ref_cnt != 0 {
            } else {
                let (icnt, p) = choose|icnt: usize, p: usize| #[trigger] intermediate_taken(m, icnt, p) == (after, r) && p & mask == 0;
                assert(intermediate_taken(m, icnt, p) == (after, r));
            }
        }
    }
}

} // verus!
