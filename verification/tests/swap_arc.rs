use swap_arc::local::{LoadedRef, LocalCounted, LocalDataInner};
use swap_arc::meta::{OTHER_UPDATE, UPDATE};
use swap_arc::{
    CompareExchange, DataPtrConvert, FinishStep, RefCnt, StoreAttempt, SwapArcAnyMeta,
};

/// A stand-in for a reference counted value: its address is all it holds.
#[derive(Clone, Debug, PartialEq)]
struct Token(usize);

impl RefCnt for Token {}

impl DataPtrConvert<u64> for Token {
    fn from(ptr: usize) -> Self {
        Token(ptr)
    }

    fn into_ptr(self) -> usize {
        self.0
    }
}

type Swap<const B: u32> = SwapArcAnyMeta<u64, Token, B>;

/// Runs the rounds that bring `ptr` up to date with a published pointer.
fn finish<const B: u32>(arc: &Swap<B>, new: usize) -> FinishStep {
    let mut curr = 0;
    loop {
        match arc.finish_update_step(new, curr) {
            FinishStep::Retry { expected } => curr = expected,
            other => return other,
        }
    }
}

/// Stores `new` the way `SwapArc::store` does.
fn store<const B: u32>(arc: &Swap<B>, new: Token) -> StoreAttempt {
    let ptr = new.into_ptr();
    loop {
        match arc.store_attempt(ptr) {
            StoreAttempt::Busy => continue,
            StoreAttempt::Published { new } => {
                finish(arc, new);
                return StoreAttempt::Published { new };
            }
            StoreAttempt::Pushed => return StoreAttempt::Pushed,
        }
    }
}

fn local<const B: u32>(arc: &Swap<B>) -> LocalDataInner {
    let (data, pending) = arc.init_local();
    if let Some(new) = pending {
        finish(arc, new);
    }
    data
}

#[test]
fn test_load() {
    let tmp = Swap::<0>::new(Token(3 * 8));
    let mut data = local(&tmp);
    let (guard, pending) = tmp.load(&mut data);
    assert_eq!(pending, None);
    assert_eq!(guard.ptr, 24);
    tmp.release_guard(&mut data, guard.gen_cnt);
    Swap::<0>::dispose_local(data);
    tmp.dispose();
}

#[test]
fn test_store() {
    let tmp = Swap::<0>::new(Token(3 * 8));
    assert_eq!(store(&tmp, Token(16)), StoreAttempt::Published { new: 16 });
    tmp.dispose();
}

#[test]
fn first_load_uses_the_count_taken_in_advance() {
    let arc = Swap::<0>::new(Token(64));
    let mut data = local(&arc);
    assert_eq!(data.curr.ref_cnt, 1);
    assert_eq!(data.new.ref_cnt, usize::MAX);
    let (g, _) = arc.load(&mut data);
    assert_eq!((g.ptr, g.gen_cnt), (64, 1));
    assert_eq!(data.curr.ref_cnt, 1);
    assert_eq!(data.new.ref_cnt, 0);
    // the next load takes the fast path
    let (g2, _) = arc.load(&mut data);
    assert_eq!((g2.ptr, g2.gen_cnt), (64, 1));
    assert_eq!(data.curr.ref_cnt, 2);
    arc.release_guard(&mut data, g.gen_cnt);
    arc.release_guard(&mut data, g2.gen_cnt);
    assert_eq!(data.curr.ref_cnt, 0);
}

#[test]
fn load_after_store_sees_the_new_value() {
    let arc = Swap::<0>::new(Token(64));
    let mut data = local(&arc);
    let (g, _) = arc.load(&mut data);
    arc.release_guard(&mut data, g.gen_cnt);
    store(&arc, Token(128));
    // curr counts no guard: it takes the new value at once
    let (g, _) = arc.load(&mut data);
    assert_eq!(g.ptr, 128);
    assert_eq!(g.gen_cnt, data.curr.gen_cnt);
    assert_eq!(data.curr.ptr, 128);
    arc.release_guard(&mut data, g.gen_cnt);
}

#[test]
fn load_while_curr_in_use_fills_new() {
    let arc = Swap::<0>::new(Token(64));
    let mut data = local(&arc);
    let (g1, _) = arc.load(&mut data);
    store(&arc, Token(128));
    let (g2, _) = arc.load(&mut data);
    assert_eq!(g2.ptr, 128);
    assert_eq!(data.new.ptr, 128);
    assert_eq!(data.new.gen_cnt, 2);
    assert_eq!(data.next_gen_cnt, 3);
    assert_eq!(g2.gen_cnt, 2);
    assert_eq!(g1.ptr, 64);
    // the old guard still finds its slot
    arc.release_guard(&mut data, g1.gen_cnt);
    assert_eq!(data.curr.ref_cnt, 0);
    assert_eq!(data.new.ref_cnt, 1);
    arc.release_guard(&mut data, g2.gen_cnt);
    assert_eq!(data.new.ref_cnt, 0);
}

#[test]
fn store_with_no_reader_is_applied_at_once() {
    let arc = Swap::<0>::new(Token(8));
    match arc.store_attempt(16) {
        StoreAttempt::Published { new } => {
            assert_eq!(new, 16);
            assert_eq!(arc.finish_update_step(new, 0), FinishStep::Done);
        }
        other => panic!("unexpected {:?}", other),
    }
    let (r, src) = arc.load_internal();
    assert_eq!(r, 16);
    assert_eq!(src, swap_arc::RefSource::Curr);
}

#[test]
fn store_keeps_the_metadata() {
    let arc = Swap::<2>::new(Token(64));
    assert_eq!(arc.metadata_mask(), 3);
    assert!(arc.try_update_meta(64, 2));
    assert_eq!(arc.load_metadata(), 2);
    match arc.store_attempt(128) {
        StoreAttempt::Published { new } => assert_eq!(new, 128 | 2),
        other => panic!("unexpected {:?}", other),
    }
    assert_eq!(arc.load_metadata(), 2);
}

#[test]
fn metadata_updates() {
    let arc = Swap::<3>::new(Token(64));
    let w = arc.load_intermediate_word();
    assert_eq!(arc.update_metadata_attempt(w, 0b1101), Ok(64 | 0b101));
    assert_eq!(arc.load_metadata(), 0b101);
    let w = arc.load_intermediate_word();
    assert_eq!(arc.unset_in_metadata_attempt(w, 0b001), Ok(64 | 0b100));
    let w = arc.load_intermediate_word();
    assert_eq!(arc.set_in_metadata_attempt(w, 0b011), Ok(64 | 0b111));
    assert_eq!(arc.load_metadata(), 0b111);
    // a stale expectation fails and reports the current word
    assert_eq!(arc.set_in_metadata_attempt(64, 1), Err(64 | 0b111));
    assert!(!arc.try_update_meta(64, 1));
}

#[test]
fn compare_exchange_installs_only_on_match() {
    let arc = Swap::<0>::new(Token(64));
    assert!(arc.lock_intermediate_attempt());
    assert_eq!(arc.compare_exchange_locked(8, 128, false), CompareExchange::Mismatch);
    assert!(arc.lock_intermediate_attempt());
    assert_eq!(
        arc.compare_exchange_locked(64, 128, false),
        CompareExchange::Installed { new: 128 }
    );
    assert_eq!(finish(&arc, 128), FinishStep::Done);
    assert_eq!(arc.load_internal().0, 128);
}

#[test]
fn compare_exchange_can_ignore_metadata() {
    let arc = Swap::<2>::new(Token(64));
    assert!(arc.try_update_meta(64, 1));
    assert!(arc.lock_intermediate_attempt());
    assert_eq!(
        arc.compare_exchange_locked(64 | 2, 128, true),
        CompareExchange::Installed { new: 128 }
    );
}

#[test]
fn busy_while_another_store_runs() {
    let arc = Swap::<0>::new(Token(64));
    assert!(arc.lock_intermediate_attempt());
    assert_eq!(arc.store_attempt(128), StoreAttempt::Busy);
}

#[test]
fn store_is_pushed_while_an_update_is_pending() {
    let arc = Swap::<0>::new(Token(64));
    // a reader of the `intermediate` pointer
    assert!(arc.lock_intermediate_attempt());
    assert_eq!(arc.compare_exchange_locked(64, 64, false), CompareExchange::Installed { new: 64 });
    // `ptr` has a pending update now, so strong reads go to `intermediate`
    assert_eq!(arc.finish_update_step(64, 1), FinishStep::Retry { expected: OTHER_UPDATE });
    let g = arc.load_strongly();
    assert_eq!(g.ref_src, swap_arc::RefSource::Intermediate);
    assert_eq!(arc.store_attempt(128), StoreAttempt::Pushed);
    // the `intermediate` counter still carries the pending flag, so the
    // reader leaves the waiting store alone
    assert_eq!(arc.release_strong(g), None);
}

#[test]
fn flags_are_the_two_top_bits() {
    assert_eq!(UPDATE, 1usize << (usize::BITS - 1));
    assert_eq!(OTHER_UPDATE, 1usize << (usize::BITS - 2));
}

#[test]
fn guard_of_a_promoted_intermediate_slot_is_counted() {
    // `curr` is drained, `new` in use and the `intermediate` slot in use:
    // the slot is promoted to `new`, which counts the guard handed out
    let arc = Swap::<0>::new(Token(64));
    let mut data = LocalDataInner {
        next_gen_cnt: 5,
        curr: LocalCounted { gen_cnt: 1, ptr: 64, ref_cnt: 0 },
        new: LocalCounted { gen_cnt: 2, ptr: 128, ref_cnt: 1 },
        intermediate: LocalCounted { gen_cnt: 4, ptr: 256, ref_cnt: 2 },
    };
    let (g, _) = arc.load(&mut data);
    assert_eq!((g.ptr, g.gen_cnt), (256, 4));
    assert_eq!(data.curr.gen_cnt, 2);
    assert_eq!(data.new.gen_cnt, 4);
    assert_eq!(data.new.ref_cnt, 3);
    assert_eq!(data.intermediate.ref_cnt, 0);
    assert_eq!(data.new.ptr, 256);
    // every guard of the slot can be given back
    for _ in 0..3 {
        arc.release_guard(&mut data, 4);
    }
    assert_eq!(data.new.ref_cnt, 0);
}

#[test]
fn load_seen_takes_the_fast_path_while_nothing_changed() {
    let arc = Swap::<1>::new(Token(64));
    let mut data = local(&arc);
    let (g, _) = arc.load(&mut data);
    // the metadata bit does not count as a change
    let (g2, pending) = arc.load_seen(&mut data, 64 | 1);
    assert_eq!(pending, None);
    assert_eq!((g2.ptr, g2.gen_cnt), (g.ptr, g.gen_cnt));
    assert_eq!(data.curr.ref_cnt, 2);
}

#[test]
fn anonymous_new_slot_promoted_gets_a_generation_apart_from_curr() {
    // `new` is in use without a generation of its own and `curr` is drained:
    // `new` moves to `curr`, and the value of the strong read goes to `new`
    // under a fresh generation, so each guard keeps its own count
    let arc = Swap::<0>::new(Token(64));
    let mut data = LocalDataInner {
        next_gen_cnt: 5,
        curr: LocalCounted { gen_cnt: 3, ptr: 32, ref_cnt: 0 },
        new: LocalCounted { gen_cnt: 0, ptr: 48, ref_cnt: 1 },
        intermediate: LocalCounted::empty(),
    };
    let (g, _) = arc.load(&mut data);
    assert_eq!(g, LoadedRef { ptr: 64, gen_cnt: 5 });
    assert_eq!(data.curr, LocalCounted { gen_cnt: 0, ptr: 48, ref_cnt: 1 });
    assert_eq!(data.new, LocalCounted { gen_cnt: 5, ptr: 64, ref_cnt: 1 });
    assert_eq!(data.next_gen_cnt, 6);
    // the guard is given back to `new`, the slot it came from
    arc.release_guard(&mut data, g.gen_cnt);
    assert_eq!(data.curr.ref_cnt, 1);
    assert_eq!(data.new.ref_cnt, 0);
}

#[test]
fn released_new_slot_takes_the_intermediate_slot() {
    let arc = Swap::<0>::new(Token(64));
    let mut data = LocalDataInner {
        next_gen_cnt: 5,
        curr: LocalCounted { gen_cnt: 1, ptr: 32, ref_cnt: 1 },
        new: LocalCounted { gen_cnt: 2, ptr: 48, ref_cnt: 1 },
        intermediate: LocalCounted { gen_cnt: 4, ptr: 80, ref_cnt: 2 },
    };
    arc.release_guard(&mut data, 2);
    assert_eq!(data.new, LocalCounted { gen_cnt: 4, ptr: 80, ref_cnt: 2 });
    assert_eq!(data.intermediate, LocalCounted::empty());
    arc.release_guard(&mut data, 4);
    assert_eq!(data.new.ref_cnt, 1);
    arc.release_guard(&mut data, 1);
    assert_eq!(data.curr.ref_cnt, 0);
}

#[test]
fn full_and_raw_loads() {
    let arc = Swap::<2>::new(Token(64));
    let mut data = local(&arc);
    let (full, ptr, _, _) = arc.load_full(&mut data);
    assert_eq!(ptr, 64);
    assert_eq!(full, Token(64));
    assert!(arc.try_update_meta(64, 3));
    let (raw, _) = arc.load_raw(&mut data);
    assert_eq!(raw.ptr, 64 | 3);
    arc.release_guard(&mut data, raw.gen_cnt);
    let (val, word) = arc.load_raw_full();
    assert_eq!(word, 64);
    assert_eq!(val, Token(64));
    assert_eq!(arc.prepare_store_raw(128 | 1), 128);
}

#[test]
fn raw_full_load_strips_metadata_before_making_the_value() {
    let arc = Swap::<2>::new(Token(64));
    assert!(arc.try_update_meta(64, 1));
    assert_eq!(store(&arc, Token(128)), StoreAttempt::Published { new: 128 | 1 });
    let (val, word) = arc.load_raw_full();
    assert_eq!(word & 3, 1);
    assert_eq!(word & !3, 128);
    assert_eq!(val, Token(128));
}

#[test]
fn fresh_value_goes_to_curr_when_it_is_drained() {
    let mut data = LocalDataInner {
        next_gen_cnt: 5,
        intermediate: LocalCounted::empty(),
        new: LocalCounted { gen_cnt: 0, ptr: 0, ref_cnt: 0 },
        curr: LocalCounted { gen_cnt: 1, ptr: 64, ref_cnt: 0 },
    };
    let r = swap_arc::local::cache_fresh::<u64, Token>(&mut data, 128);
    assert_eq!(r, LoadedRef { ptr: 128, gen_cnt: 1 });
    assert_eq!(data.curr, LocalCounted { gen_cnt: 1, ptr: 128, ref_cnt: 1 });
    assert_eq!(data.next_gen_cnt, 5);
}

#[test]
fn fresh_value_goes_to_new_while_curr_is_in_use() {
    let mut data = LocalDataInner {
        next_gen_cnt: 5,
        intermediate: LocalCounted::empty(),
        new: LocalCounted { gen_cnt: 0, ptr: 0, ref_cnt: 0 },
        curr: LocalCounted { gen_cnt: 1, ptr: 64, ref_cnt: 2 },
    };
    let r = swap_arc::local::cache_fresh::<u64, Token>(&mut data, 128);
    assert_eq!(r, LoadedRef { ptr: 128, gen_cnt: 5 });
    assert_eq!(data.new, LocalCounted { gen_cnt: 5, ptr: 128, ref_cnt: 1 });
    assert_eq!(data.next_gen_cnt, 6);
    let r = {
        data.new.ref_cnt = 0;
        swap_arc::local::cache_fresh::<u64, Token>(&mut data, 256)
    };
    assert_eq!(r, LoadedRef { ptr: 256, gen_cnt: 5 });
    assert_eq!(data.next_gen_cnt, 6);
}

#[test]
fn load_after_store_sees_the_stored_value() {
    let arc = Swap::<0>::new(Token(64));
    let mut data = local(&arc);
    let (g, _) = arc.load(&mut data);
    assert_eq!(g.ptr, 64);
    assert_eq!(store(&arc, Token(128)), StoreAttempt::Published { new: 128 });
    let (g2, pending) = arc.load(&mut data);
    assert_eq!(pending, None);
    assert_eq!(g2.ptr, 128);
    arc.release_guard(&mut data, g.gen_cnt);
    arc.release_guard(&mut data, g2.gen_cnt);
}

#[test]
fn last_local_intermediate_reader_applies_the_waiting_store() {
    let arc = Swap::<2>::new(Token(64));
    let mut data = LocalDataInner {
        next_gen_cnt: 3,
        intermediate: LocalCounted::empty(),
        new: LocalCounted { gen_cnt: 2, ptr: 32, ref_cnt: 1 },
        curr: LocalCounted { gen_cnt: 1, ptr: 64, ref_cnt: 1 },
    };
    // `new` is in use and the shared `intermediate` pointer differs from it:
    // the load reads the `intermediate` pointer under the shared counter
    let (g, pending) = arc.load(&mut data);
    assert_eq!(pending, None);
    assert_eq!(g, LoadedRef { ptr: 64, gen_cnt: 3 });
    assert_eq!(data.intermediate, LocalCounted { gen_cnt: 3, ptr: 64, ref_cnt: 1 });
    // a store while the `intermediate` pointer is read waits in `updated`
    assert_eq!(arc.store_attempt(128), StoreAttempt::Pushed);
    // giving back the last local guard of it applies the store
    assert_eq!(arc.release_guard(&mut data, 3), Some(128));
    assert_eq!(finish(&arc, 128), FinishStep::Done);
    assert_eq!(arc.load_internal().0, 128);
}

#[test]
fn drained_cache_keeps_one_count_per_guard() {
    let arc = Swap::<0>::new(Token(64));
    let mut data = local(&arc);
    let (g1, _) = arc.load(&mut data);
    assert_eq!(store(&arc, Token(128)), StoreAttempt::Published { new: 128 });
    let (g2, _) = arc.load(&mut data);
    assert_eq!(g2.ptr, 128);
    assert!(arc.release_guard(&mut data, g1.gen_cnt).is_none());
    let (g3, _) = arc.load(&mut data);
    assert_eq!(g3.ptr, 128);
    // `new` moved to `curr` and the strong read found the same pointer
    assert_eq!(data.curr, LocalCounted { gen_cnt: g2.gen_cnt, ptr: 128, ref_cnt: 2 });
    assert!(arc.release_guard(&mut data, g2.gen_cnt).is_none());
    let (g4, _) = arc.load(&mut data);
    assert_eq!(g4.ptr, 128);
    arc.release_guard(&mut data, g3.gen_cnt);
    arc.release_guard(&mut data, g4.gen_cnt);
    assert_eq!(data.curr.ref_cnt, 0);
    let (g5, _) = arc.load(&mut data);
    assert_eq!(g5.ptr, 128);
}

#[test]
fn load_after_a_dropped_guard_and_a_store_sees_the_store() {
    let arc = Swap::<0>::new(Token(64));
    let mut data = local(&arc);
    let (g, _) = arc.load(&mut data);
    arc.release_guard(&mut data, g.gen_cnt);
    assert_eq!(store(&arc, Token(128)), StoreAttempt::Published { new: 128 });
    let (g, _) = arc.load(&mut data);
    assert_eq!(g.ptr, 128);
    assert_eq!(data.curr, LocalCounted { gen_cnt: 1, ptr: 128, ref_cnt: 1 });
}

#[test]
fn parked_store_is_applied_by_the_last_intermediate_guard() {
    let arc = Swap::<0>::new(Token(64));
    let mut data = local(&arc);
    let (_g1, _) = arc.load(&mut data);
    assert_eq!(store(&arc, Token(128)), StoreAttempt::Published { new: 128 });
    let (_g2, _) = arc.load(&mut data);
    assert_eq!(store(&arc, Token(256)), StoreAttempt::Published { new: 256 });
    let (g3, _) = arc.load(&mut data);
    assert_eq!(g3.ptr, 256);
    assert_eq!(data.intermediate.ref_cnt, 1);
    assert_eq!(store(&arc, Token(512)), StoreAttempt::Pushed);
    let pending = arc.release_guard(&mut data, g3.gen_cnt);
    assert_eq!(pending, Some(512));
    assert_eq!(finish(&arc, 512), FinishStep::Done);
    assert_eq!(arc.load_internal().0, 512);
}

#[test]
fn load_hands_out_the_intermediate_slot_in_use() {
    // `curr` and `new` count guards and the `intermediate` slot is in use:
    // the load hands out the `intermediate` slot once more
    let arc = Swap::<0>::new(Token(64));
    let mut data = LocalDataInner {
        next_gen_cnt: 5,
        curr: LocalCounted { gen_cnt: 1, ptr: 64, ref_cnt: 1 },
        new: LocalCounted { gen_cnt: 2, ptr: 128, ref_cnt: 1 },
        intermediate: LocalCounted { gen_cnt: 4, ptr: 256, ref_cnt: 1 },
    };
    let (g, _) = arc.load(&mut data);
    assert_eq!(g, LoadedRef { ptr: 256, gen_cnt: 4 });
    assert_eq!(data.intermediate.ref_cnt, 2);
}
