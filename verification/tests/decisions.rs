use swap_arc::auto_local_arc::{
    detach_outcome, debt_outcome, foreign_clone_counted, foreign_clone_first, owner_drop_outcome, thread_released,
    ForeignClone, OwnerDrop, CACHE_STATE_FINISH, CACHE_STATE_IN_USE, DETACHED_FLAG, INVALID_TID, MAX_REFCOUNT,
};
use swap_arc::cached_arc::{self, count_overflows, local_drop_step, releases_last, upgrade_step, CachedCount, UpgradeAction};
use swap_arc::spreaded_arc::drop_outcome;
use swap_arc::{release_applies, replaces_curr, strong_source, RefSource};
use swap_arc::meta::{OTHER_UPDATE, UPDATE};
use swap_arc::{contended_store, expected_found, pending_outcome, FinishStep, StoreAttempt};

#[test]
fn payment_that_meets_the_count_cleans_up() {
    assert_eq!(debt_outcome(2, 3), (true, false));
    assert_eq!(debt_outcome(1, 3), (false, false));
    assert_eq!(debt_outcome(DETACHED_FLAG | 2, 3), (true, true));
}

#[test]
fn payment_wraps_like_the_release_build() {
    assert_eq!(debt_outcome(usize::MAX, 0), (true, false));
}

#[test]
fn owner_drop_cleans_up_when_count_meets_debt() {
    assert_eq!(owner_drop_outcome(2, 2), OwnerDrop::Cleanup { detached: false });
    assert_eq!(owner_drop_outcome(2, DETACHED_FLAG | 2), OwnerDrop::Cleanup { detached: true });
    assert_eq!(owner_drop_outcome(3, 2), OwnerDrop::Kept);
}

#[test]
fn foreign_clone_decisions() {
    assert_eq!(foreign_clone_first(4, 4), Some(ForeignClone::TakeOver { wait: true }));
    assert_eq!(foreign_clone_first(0, 0), Some(ForeignClone::TakeOver { wait: false }));
    assert_eq!(
        foreign_clone_first(MAX_REFCOUNT, 1),
        Some(ForeignClone::LargeRefCount { ref_cnt: MAX_REFCOUNT })
    );
    assert_eq!(foreign_clone_first(5, 1), None);
    assert_eq!(foreign_clone_counted(5, 5), ForeignClone::TakeOver { wait: true });
    assert_eq!(foreign_clone_counted(5, 1), ForeignClone::Counted);
}

#[test]
fn contended_store_backs_off_only_behind_another_store() {
    assert_eq!(contended_store(UPDATE | OTHER_UPDATE), StoreAttempt::Busy);
    assert_eq!(contended_store(3), StoreAttempt::Pushed);
    assert_eq!(contended_store(OTHER_UPDATE), StoreAttempt::Pushed);
}

#[test]
fn pending_update_retries_only_on_a_free_counter() {
    assert_eq!(pending_outcome(0), FinishStep::Retry { expected: OTHER_UPDATE });
    assert_eq!(pending_outcome(2), FinishStep::Deferred);
}

#[test]
fn expected_found_ignores_metadata_on_request() {
    assert!(expected_found(64 | 3, 64, true, 0b111));
    assert!(!expected_found(64 | 3, 64, false, 0b111));
    assert!(expected_found(64 | 3, 64 | 3, false, 0b111));
    assert!(!expected_found(128, 64, true, 0b111));
}

#[test]
fn strong_read_source() {
    let flags = UPDATE | OTHER_UPDATE;
    assert_eq!(strong_source(3, flags, 0), RefSource::Curr);
    assert_eq!(strong_source(OTHER_UPDATE | 3, flags, 2), RefSource::Intermediate);
    assert_eq!(strong_source(UPDATE, flags, UPDATE | 1), RefSource::Curr);
    assert_eq!(strong_source(OTHER_UPDATE, UPDATE, 0), RefSource::Curr);
}

#[test]
fn pending_update_replaces_only_a_different_pointer() {
    assert!(replaces_curr(64 | 1, 128 | 1, 3));
    assert!(!replaces_curr(64 | 1, 64 | 2, 3));
}

#[test]
fn last_readers_apply_updates() {
    assert!(release_applies(RefSource::Curr, OTHER_UPDATE + 1, 0));
    assert!(!release_applies(RefSource::Curr, OTHER_UPDATE + 2, 0));
    assert!(!release_applies(RefSource::Curr, 1, 0));
    assert!(release_applies(RefSource::Intermediate, 1, 128));
    assert!(!release_applies(RefSource::Intermediate, 1, 0));
    assert!(!release_applies(RefSource::Intermediate, 2, 128));
}

#[test]
fn spreaded_drop_frees_on_the_last_references() {
    assert!(drop_outcome(1, 1));
    assert!(!drop_outcome(1, 2));
    assert!(!drop_outcome(2, 1));
}

#[test]
fn global_count_decisions() {
    assert!(releases_last(3, 3));
    assert!(!releases_last(4, 3));
    assert!(count_overflows(MAX_REFCOUNT_CACHED + 1));
    assert!(!count_overflows(MAX_REFCOUNT_CACHED));
}

const MAX_REFCOUNT_CACHED: usize = cached_arc::MAX_REFCOUNT;

#[test]
fn last_local_handle_takes_the_whole_debt() {
    let mut c = CachedCount { ref_cnt: 1, debt: 5 };
    assert_eq!(local_drop_step(&mut c), Some(5));
    assert_eq!(c, CachedCount { ref_cnt: 0, debt: 0 });
    let mut c = CachedCount { ref_cnt: 2, debt: 5 };
    assert_eq!(local_drop_step(&mut c), None);
    assert_eq!(c, CachedCount { ref_cnt: 1, debt: 5 });
}

#[test]
fn upgrade_names_its_action() {
    let mut c = CachedCount { ref_cnt: 2, debt: 3 };
    assert_eq!(upgrade_step(&mut c), UpgradeAction::UseDebt);
    assert_eq!(c, CachedCount { ref_cnt: 1, debt: 2 });
    let mut c = CachedCount { ref_cnt: 3, debt: 1 };
    assert_eq!(upgrade_step(&mut c), UpgradeAction::CloneGlobal);
    assert_eq!(c, CachedCount { ref_cnt: 3, debt: 1 });
}

#[test]
fn detach_and_release_decisions() {
    assert!(detach_outcome(CACHE_STATE_IN_USE, 3, 3));
    assert!(!detach_outcome(CACHE_STATE_IN_USE, 3, 2));
    assert!(!detach_outcome(CACHE_STATE_FINISH, 3, 3));
    assert!(thread_released(INVALID_TID));
    assert!(!thread_released(7));
}
