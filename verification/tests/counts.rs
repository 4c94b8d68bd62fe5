use std::sync::atomic::{AtomicUsize, Ordering};

use swap_arc::auto_local_arc::{
    cache_unused, is_detached, strip_flags, tid_is_valid, ForeignClone, Metadata, OwnerDrop, DETACHED_FLAG, INVALID_TID,
    MAX_REFCOUNT,
};
use swap_arc::cached_arc::{self, CachedCount, Upgrade};
use swap_arc::spreaded_arc;

#[test]
fn downgrade_turns_the_arc_into_debt() {
    let mut c = CachedCount::new();
    cached_arc::downgrade(&mut c);
    assert_eq!(c, CachedCount { ref_cnt: 1, debt: 1 });
    cached_arc::downgrade(&mut c);
    assert_eq!(c, CachedCount { ref_cnt: 2, debt: 2 });
}

#[test]
fn last_local_handle_pays_the_debt() {
    let global = AtomicUsize::new(3);
    let mut c = CachedCount { ref_cnt: 2, debt: 2 };
    assert!(!cached_arc::drop_local(&mut c, &global));
    assert_eq!(c, CachedCount { ref_cnt: 1, debt: 2 });
    assert!(!cached_arc::drop_local(&mut c, &global));
    assert_eq!(c, CachedCount { ref_cnt: 0, debt: 0 });
    assert_eq!(global.load(Ordering::SeqCst), 1);
    let mut c = CachedCount { ref_cnt: 1, debt: 1 };
    assert!(cached_arc::drop_local(&mut c, &global));
}

#[test]
fn downgrade_cloned_takes_a_global_reference_once() {
    let global = AtomicUsize::new(1);
    let mut c = CachedCount::new();
    assert!(!cached_arc::downgrade_cloned(&mut c, &global));
    assert!(!cached_arc::downgrade_cloned(&mut c, &global));
    assert_eq!(c, CachedCount { ref_cnt: 2, debt: 1 });
    assert_eq!(global.load(Ordering::SeqCst), 2);
    let global = AtomicUsize::new(MAX_REFCOUNT_CACHED + 1);
    let mut c = CachedCount::new();
    assert!(cached_arc::downgrade_cloned(&mut c, &global));
}

const MAX_REFCOUNT_CACHED: usize = cached_arc::MAX_REFCOUNT;

#[test]
fn upgrade_uses_debt_or_the_global_count() {
    let global = AtomicUsize::new(5);
    let mut c = CachedCount { ref_cnt: 2, debt: 3 };
    assert_eq!(cached_arc::upgrade(&mut c, &global), Upgrade { abort: false, free: false });
    assert_eq!(c, CachedCount { ref_cnt: 1, debt: 2 });
    let mut c = CachedCount { ref_cnt: 3, debt: 1 };
    assert_eq!(cached_arc::upgrade(&mut c, &global), Upgrade { abort: false, free: false });
    // the handle is counted off once
    assert_eq!(c, CachedCount { ref_cnt: 2, debt: 1 });
    assert_eq!(global.load(Ordering::SeqCst), 6);
}

#[test]
fn upgrade_of_the_single_downgraded_handle() {
    // `CachedArc::new` then `downgrade`: one handle, one reference of debt
    let global = AtomicUsize::new(1);
    let mut c = CachedCount::new();
    cached_arc::downgrade(&mut c);
    assert_eq!(cached_arc::upgrade(&mut c, &global), Upgrade { abort: false, free: false });
    // the arc holds the one global reference; the thread holds nothing
    assert_eq!(c, CachedCount { ref_cnt: 0, debt: 0 });
    assert_eq!(global.load(Ordering::SeqCst), 1);
    assert!(cached_arc::release_global(&global, 1));
}

#[test]
fn dropped_arc_becomes_debt_only_with_local_handles() {
    let mut c = CachedCount::new();
    assert!(!cached_arc::drop_into_cache(&mut c));
    let mut c = CachedCount { ref_cnt: 1, debt: 1 };
    assert!(cached_arc::drop_into_cache(&mut c));
    assert_eq!(c.debt, 2);
    let global = AtomicUsize::new(2);
    assert!(!cached_arc::release_global(&global, 1));
    assert!(cached_arc::release_global(&global, 1));
    assert!(!cached_arc::clone_global(&global));
}

#[test]
fn spreaded_counts() {
    let local = AtomicUsize::new(1);
    let global = AtomicUsize::new(1);
    let other = AtomicUsize::new(0);
    spreaded_arc::clone_counts(&other, &global);
    assert_eq!(global.load(Ordering::SeqCst), 2);
    spreaded_arc::clone_counts(&other, &global);
    assert_eq!(global.load(Ordering::SeqCst), 2);
    assert!(!spreaded_arc::drop_counts(&other, &global));
    assert!(!spreaded_arc::drop_counts(&other, &global));
    assert_eq!(global.load(Ordering::SeqCst), 1);
    assert!(spreaded_arc::drop_counts(&local, &global));
}

#[test]
fn debt_flags() {
    assert_eq!(DETACHED_FLAG, 1usize << (usize::BITS - 1));
    assert_eq!(strip_flags(DETACHED_FLAG | 7), 7);
    assert!(is_detached(DETACHED_FLAG | 7));
    assert!(!is_detached(7));
    assert!(cache_unused(7, DETACHED_FLAG | 7));
    assert!(!cache_unused(6, 7));
    assert!(tid_is_valid(5));
    assert!(!tid_is_valid(INVALID_TID));
    assert_eq!(MAX_REFCOUNT, usize::MAX / 2);
}

#[test]
fn owner_counting() {
    let meta = Metadata::new();
    assert_eq!(meta.increment_owned(), None);
    assert_eq!(meta.increment_owned(), None);
    assert_eq!(meta.drop_owned().0, OwnerDrop::Kept);
    assert_eq!(meta.drop_owned(), (OwnerDrop::Cleanup { detached: false }, 0, 0));
    meta.reset_for(9);
    assert_eq!(meta.ref_cnt.load(Ordering::SeqCst), 2);
    assert!(meta.claim(9));
    assert!(!meta.claim(9));
    assert_eq!(meta.pay_debt(), ((false, false), 0, 2));
    assert_eq!(meta.pay_debt(), ((true, false), 1, 2));
    assert!(meta.detach());
    assert!(meta.debt.load(Ordering::SeqCst) & DETACHED_FLAG != 0);
    meta.ref_cnt.store(MAX_REFCOUNT, Ordering::SeqCst);
    assert_eq!(meta.increment_owned(), Some(MAX_REFCOUNT));
}

#[test]
fn foreign_clone_takes_over_an_unused_entry() {
    let meta = Metadata::new();
    assert_eq!(meta.clone_foreign().0, ForeignClone::TakeOver { wait: false });
    meta.reset_for(3);
    assert_eq!(meta.clone_foreign().0, ForeignClone::Counted);
    assert_eq!(meta.ref_cnt.load(Ordering::SeqCst), 3);
    meta.debt.store(3 | DETACHED_FLAG, Ordering::SeqCst);
    assert_eq!(meta.clone_foreign().0, ForeignClone::TakeOver { wait: true });
    assert!(!meta.released());
    assert!(meta.claim(3));
    assert!(meta.released());
    meta.ref_cnt.store(MAX_REFCOUNT, Ordering::SeqCst);
    meta.debt.store(0, Ordering::SeqCst);
    assert_eq!(meta.clone_foreign().0, ForeignClone::LargeRefCount { ref_cnt: MAX_REFCOUNT });
}
