use swap_arc::local::{LocalCounted, LocalDataInner};
use swap_arc::swap_arc_tls_optimistic::{DataPtrConvert, RefCnt, SwapArcIntermediateTLS};
use swap_arc::{CompareExchange, FinishStep, StoreAttempt};

/// A stand-in for a reference counted value: its address is all it holds.
#[derive(Clone, Debug, PartialEq)]
struct Handle(usize);

impl RefCnt for Handle {}

impl DataPtrConvert<u64> for Handle {
    fn from(ptr: usize) -> Self {
        Handle(ptr)
    }

    fn as_ptr(&self) -> usize {
        self.0
    }
}

type Tls<const B: u32> = SwapArcIntermediateTLS<u64, Handle, B>;

fn update<const B: u32>(arc: &Tls<B>, val: Handle) -> StoreAttempt {
    let new = arc.prepare_update(val);
    loop {
        match arc.update_attempt(new) {
            StoreAttempt::Busy => continue,
            StoreAttempt::Published { new } => {
                let mut curr = 0;
                while let FinishStep::Retry { expected } = arc.update_finish_step(new, curr) {
                    curr = expected;
                }
                return StoreAttempt::Published { new };
            }
            StoreAttempt::Pushed => return StoreAttempt::Pushed,
        }
    }
}

#[test]
fn tls_first_load_and_fast_path() {
    let arc = Tls::<0>::new(Handle(64));
    let mut data = arc.init_local();
    let g = arc.load(&mut data);
    assert_eq!((g.ptr, g.gen_cnt), (64, 1));
    let g2 = arc.load(&mut data);
    assert_eq!((g2.ptr, g2.gen_cnt), (64, 1));
    assert_eq!(data.curr.ref_cnt, 2);
    arc.release_guard(&mut data, g.gen_cnt);
    arc.release_guard(&mut data, g2.gen_cnt);
    assert_eq!(data.curr.ref_cnt, 0);
    Tls::<0>::dispose_local(data);
    arc.dispose();
}

#[test]
fn tls_update_then_load() {
    let arc = Tls::<0>::new(Handle(64));
    let mut data = arc.init_local();
    let g = arc.load(&mut data);
    assert_eq!(update(&arc, Handle(128)), StoreAttempt::Published { new: 128 });
    let g2 = arc.load(&mut data);
    assert_eq!(g2.ptr, 128);
    assert_eq!(data.new.gen_cnt, 2);
    arc.release_guard(&mut data, g.gen_cnt);
    arc.release_guard(&mut data, g2.gen_cnt);
    assert_eq!(arc.load_full(&mut data), (Handle(128), 128));
}

#[test]
fn tls_drained_curr_falls_through_to_the_emptied_new_slot() {
    let arc = Tls::<0>::new(Handle(64));
    let mut data = LocalDataInner {
        next_gen_cnt: 4,
        curr: LocalCounted { gen_cnt: 1, ptr: 32, ref_cnt: 0 },
        new: LocalCounted { gen_cnt: 2, ptr: 64, ref_cnt: 1 },
        intermediate: LocalCounted::empty(),
    };
    // the `intermediate` pointer holds the value the emptied `new` slot
    // does not: a fresh `intermediate` slot is filled
    let g = arc.load(&mut data);
    assert_eq!(data.curr.gen_cnt, 2);
    assert_eq!(data.curr.ptr, 64);
    assert_eq!((g.ptr, g.gen_cnt), (64, 4));
    assert_eq!(data.intermediate.ref_cnt, 1);
}

#[test]
fn tls_compare_exchange() {
    let arc = Tls::<1>::new(Handle(64));
    assert!(arc.lock_intermediate_attempt());
    assert_eq!(arc.try_compare_exchange_with_meta_locked(64 | 1, 128), CompareExchange::Mismatch);
    assert!(arc.lock_intermediate_attempt());
    assert_eq!(arc.try_compare_exchange_with_meta_locked(64, 128 | 1), CompareExchange::Installed { new: 129 });
    assert_eq!(arc.load_metadata(), 1);
    assert_eq!(arc.finish_update_step(129, 0), FinishStep::Done);
    let g = arc.load_internal();
    assert_eq!(g.fake_ref.as_ptr(), 128);
    assert_eq!(g.ptr, 128);
}

#[test]
fn tls_metadata() {
    let arc = Tls::<2>::new(Handle(64));
    assert_eq!(arc.metadata_mask(), 3);
    let w = arc.load_intermediate_word();
    assert_eq!(arc.update_metadata_attempt(w, 6), Ok(64 | 2));
    let w = arc.load_intermediate_word();
    assert_eq!(arc.set_in_metadata_attempt(w, 1), Ok(64 | 3));
    let w = arc.load_intermediate_word();
    assert_eq!(arc.unset_in_metadata_attempt(w, 2), Ok(64 | 1));
    assert!(arc.try_update_meta(64 | 1, 0));
    assert_eq!(arc.load_metadata(), 0);
    let mut data = arc.init_local();
    let r = arc.load_raw(&mut data);
    assert_eq!(r.ptr, 64);
}

#[test]
fn tls_update_waits_while_an_update_runs() {
    let arc = Tls::<0>::new(Handle(64));
    assert!(arc.lock_intermediate_attempt());
    assert_eq!(arc.update_attempt(128), StoreAttempt::Busy);
    assert_eq!(arc.prepare_update_raw(128 | 0), 128);
}

#[test]
fn tls_fresh_value_goes_to_new_while_curr_is_in_use() {
    let mut data = LocalDataInner {
        next_gen_cnt: 5,
        intermediate: LocalCounted::empty(),
        new: LocalCounted { gen_cnt: 7, ptr: 32, ref_cnt: 0 },
        curr: LocalCounted { gen_cnt: 1, ptr: 64, ref_cnt: 2 },
    };
    let r = swap_arc::swap_arc_tls_optimistic::cache_fresh::<u64, Handle>(&mut data, 128);
    assert_eq!(r.ptr, 128);
    assert_eq!(r.gen_cnt, 7);
    assert_eq!(data.new, LocalCounted { gen_cnt: 7, ptr: 128, ref_cnt: 1 });
}

#[test]
fn tls_load_hands_out_the_intermediate_slot_in_use() {
    let arc = Tls::<0>::new(Handle(64));
    let mut data = LocalDataInner {
        next_gen_cnt: 5,
        curr: LocalCounted { gen_cnt: 1, ptr: 64, ref_cnt: 1 },
        new: LocalCounted { gen_cnt: 2, ptr: 128, ref_cnt: 1 },
        intermediate: LocalCounted { gen_cnt: 4, ptr: 256, ref_cnt: 1 },
    };
    let g = arc.load(&mut data);
    assert_eq!((g.ptr, g.gen_cnt), (256, 4));
    assert_eq!(data.intermediate.ref_cnt, 2);
    assert_eq!(data.new.ref_cnt, 1);
}

#[test]
fn tls_promoted_intermediate_slot_counts_its_guard() {
    let arc = Tls::<0>::new(Handle(64));
    let mut data = LocalDataInner {
        next_gen_cnt: 5,
        curr: LocalCounted { gen_cnt: 1, ptr: 64, ref_cnt: 0 },
        new: LocalCounted { gen_cnt: 2, ptr: 128, ref_cnt: 1 },
        intermediate: LocalCounted { gen_cnt: 4, ptr: 256, ref_cnt: 2 },
    };
    let g = arc.load(&mut data);
    assert_eq!((g.ptr, g.gen_cnt), (256, 4));
    assert_eq!(data.new, LocalCounted { gen_cnt: 4, ptr: 256, ref_cnt: 3 });
    assert_eq!(data.curr.gen_cnt, 2);
}
