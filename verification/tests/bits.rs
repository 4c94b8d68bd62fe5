use swap_arc::meta::{
    get_metadata, merge_ptr_and_metadata, meta_mask, replace_metadata, set_metadata_bits, strip_metadata,
    unset_metadata_bits,
};
use swap_arc::ptr::{expose_addr, from_exposed_addr, from_exposed_addr_mut, map_addr, map_addr_mut};
use swap_arc::swap_arc_tls_less_fence::{assert_alignment, UpdateResult};
use swap_arc::{alignment_fits, is_cmp_exchg_really_weak, most_sig_set_bit, retry_at_once};

#[test]
fn msb() {
    assert_eq!(most_sig_set_bit(0), None);
    assert_eq!(most_sig_set_bit(1), Some(0));
    assert_eq!(most_sig_set_bit(8), Some(3));
    assert_eq!(most_sig_set_bit(12), Some(3));
    assert_eq!(most_sig_set_bit(usize::MAX), Some(usize::BITS - 1));
}

#[test]
fn alignment() {
    assert!(alignment_fits(8, 3));
    assert!(!alignment_fits(8, 4));
    assert!(alignment_fits(1, 0));
    assert!(!alignment_fits(1, 1));
    assert!(alignment_fits(0, 0));
    assert!(assert_alignment::<u64, 2>());
}

#[test]
fn masks() {
    assert_eq!(meta_mask(0), 0);
    assert_eq!(meta_mask(3), 0b111);
    assert_eq!(meta_mask(usize::BITS), usize::MAX);
    assert_eq!(get_metadata(0x1005, 7), 5);
    assert_eq!(strip_metadata(0x1005, 7), 0x1000);
    assert_eq!(merge_ptr_and_metadata(0x1000, 5), 0x1005);
    assert_eq!(replace_metadata(0x1005, 0xa, 7), 0x1002);
    assert_eq!(set_metadata_bits(0x1001, 0xe, 7), 0x1007);
    assert_eq!(unset_metadata_bits(0x1007, 0xd, 7), 0x1002);
}

#[test]
fn addresses() {
    assert_eq!(expose_addr(0x40), 0x40);
    assert_eq!(from_exposed_addr(0x40), 0x40);
    assert_eq!(from_exposed_addr_mut(0x40), 0x40);
    assert_eq!(map_addr(0x40, |x| x | 1), 0x41);
    assert_eq!(map_addr_mut(0x41, |x| x & !1), 0x40);
}

#[test]
fn weak_compare_exchange_hint() {
    assert!(!is_cmp_exchg_really_weak(true));
    assert!(is_cmp_exchg_really_weak(false));
    assert!(retry_at_once(true, 4, 4));
    assert!(!retry_at_once(true, 4, 5));
    assert!(!retry_at_once(false, 4, 4));
}

#[test]
fn update_results_differ() {
    assert_ne!(UpdateResult::Updated, UpdateResult::AlreadyUpdating);
    assert_ne!(UpdateResult::NoUpdate, UpdateResult::AlreadyUpdating);
}
