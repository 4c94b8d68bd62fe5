//! The bit layout of the words a `SwapArc` keeps in its atomics.
//!
//! Pointers to aligned values have their lowest bits clear; a `SwapArc` with
//! `METADATA_BITS` bits of metadata stores user metadata in exactly those
//! low bits of the word that holds the current pointer. The reference
//! counters use their two highest bits as flags.
use vstd::prelude::*;

verus! {

/// The flag on a reference counter saying that the pointer it guards is
/// being replaced right now and may not be used.
pub const UPDATE: usize = 1usize << (usize::BITS - 1);

/// On the `intermediate` counter: its pointer has not reached `ptr` yet.
/// On the `curr` counter: `curr` still has to be brought up to date.
pub const OTHER_UPDATE: usize = 1usize << (usize::BITS - 2);

/// The word whose lowest `bits` bits are set and all others clear.
pub open spec fn low_mask(bits: u32) -> usize {
    if bits >= usize::BITS {
        !0usize
    } else {
        ((1usize << bits) - 1) as usize
    }
}

/// The metadata part of an address word.
pub open spec fn meta_of(addr: usize, mask: usize) -> usize {
    addr & mask
}

/// The pointer part of an address word.
pub open spec fn ptr_of(addr: usize, mask: usize) -> usize {
    addr & !mask
}

/// The word that keeps the pointer part of `addr` and carries the bits of
/// `metadata` that fall inside the mask as its metadata.
pub open spec fn with_meta(addr: usize, metadata: usize, mask: usize) -> usize {
    (addr & !mask) | (metadata & mask)
}

proof fn lemma_low_mask_step(i: u32)
    requires
        i < usize::BITS,
    ensures
        low_mask(i) | (1usize << i) == low_mask((i + 1) as u32),
{
    if i + 1 < usize::BITS {
        assert((((1usize << i) - 1) as usize) | (1usize << i) == (((1usize << ((i + 1) as u32)) - 1) as usize)) by (bit_vector)
            requires
                i + 1 < usize::BITS;
    } else {
        assert((((1usize << i) - 1) as usize) | (1usize << i) == !0usize) by (bit_vector)
            requires
                i + 1 == usize::BITS;
    }
}

/// Computes the mask of the lowest `bits` bits by setting them one by one.
pub fn meta_mask(bits: u32) -> (mask: usize)
    requires
        bits <= usize::BITS,
    ensures
        mask == low_mask(bits),
{
    let mut result: usize = 0;
    let mut i: u32 = 0;
    assert((((1usize << 0u32) - 1) as usize) == 0usize) by (bit_vector);
    while bits > i
        invariant
            i <= bits <= usize::BITS,
            result == low_mask(i),
        decreases bits - i,
    {
        proof {
            lemma_low_mask_step(i);
        }
        result = result | (1usize << i);
        i += 1;
    }
    result
}

/// The metadata stored in the low bits of `addr`.
pub fn get_metadata(addr: usize, mask: usize) -> (r: usize)
    ensures
        r == meta_of(addr, mask),
{
    addr & mask
}

/// `addr` with its metadata bits cleared.
pub fn strip_metadata(addr: usize, mask: usize) -> (r: usize)
    ensures
        r == ptr_of(addr, mask),
{
    addr & !mask
}

/// `addr` with the bits of `metadata` added to it.
pub fn merge_ptr_and_metadata(addr: usize, metadata: usize) -> (r: usize)
    ensures
        r == addr | metadata,
{
    addr | metadata
}

/// The word that replaces the metadata of `addr` by the part of `metadata`
/// that fits into the mask.
pub fn replace_metadata(addr: usize, metadata: usize, mask: usize) -> (r: usize)
    ensures
        r == with_meta(addr, metadata, mask),
{
    let prefix = metadata & mask;
    (addr & !mask) | prefix
}

/// The word that additionally sets those metadata bits of `addr` that are
/// set in `active_bits`.
pub fn set_metadata_bits(addr: usize, active_bits: usize, mask: usize) -> (r: usize)
    ensures
        r == addr | (active_bits & mask),
{
    let prefix = active_bits & mask;
    addr | prefix
}

/// The word that clears those metadata bits of `addr` that are set in
/// `inactive_bits`.
pub fn unset_metadata_bits(addr: usize, inactive_bits: usize, mask: usize) -> (r: usize)
    ensures
        r == addr & !(inactive_bits & mask),
{
    let prefix = inactive_bits & mask;
    addr & !prefix
}

/// Merging metadata that fits into the mask onto an aligned pointer keeps
/// both apart: the pointer and the metadata can be read back unchanged.
pub proof fn lemma_merge_then_split(addr: usize, metadata: usize, mask: usize)
    requires
        addr & mask == 0,
        metadata & !mask == 0,
    ensures
        ptr_of(addr | metadata, mask) == addr,
        meta_of(addr | metadata, mask) == metadata,
{
    assert((addr | metadata) & !mask == addr && (addr | metadata) & mask == metadata) by (bit_vector)
        requires
            addr & mask == 0,
            metadata & !mask == 0;
}

/// Splitting a word into pointer and metadata and merging them again gives
/// back the word.
pub proof fn lemma_split_then_merge(addr: usize, mask: usize)
    ensures
        ptr_of(addr, mask) | meta_of(addr, mask) == addr,
        ptr_of(addr, mask) & mask == 0,
        meta_of(addr, mask) & !mask == 0,
{
    assert((addr & !mask) | (addr & mask) == addr && (addr & !mask) & mask == 0 && (addr & mask) & !mask == 0) by (bit_vector);
}

/// Replacing the metadata never touches the pointer part, and the new
/// metadata is the part of the given metadata that fits into the mask.
pub proof fn lemma_replace_metadata(addr: usize, metadata: usize, mask: usize)
    ensures
        ptr_of(with_meta(addr, metadata, mask), mask) == ptr_of(addr, mask),
        meta_of(with_meta(addr, metadata, mask), mask) == metadata & mask,
{
    assert(((addr & !mask) | (metadata & mask)) & !mask == addr & !mask
        && ((addr & !mask) | (metadata & mask)) & mask == metadata & mask) by (bit_vector);
}

/// Setting metadata bits never touches the pointer part and only adds bits
/// to the metadata.
pub proof fn lemma_set_metadata_bits(addr: usize, bits: usize, mask: usize)
    ensures
        ptr_of(addr | (bits & mask), mask) == ptr_of(addr, mask),
        meta_of(addr | (bits & mask), mask) == meta_of(addr, mask) | (bits & mask),
{
    assert((addr | (bits & mask)) & !mask == addr & !mask
        && (addr | (bits & mask)) & mask == (addr & mask) | (bits & mask)) by (bit_vector);
}

/// Clearing metadata bits never touches the pointer part and only removes
/// bits from the metadata.
pub proof fn lemma_unset_metadata_bits(addr: usize, bits: usize, mask: usize)
    ensures
        ptr_of(addr & !(bits & mask), mask) == ptr_of(addr, mask),
        meta_of(addr & !(bits & mask), mask) == meta_of(addr, mask) & !bits,
{
    assert((addr & !(bits & mask)) & !mask == addr & !mask
        && (addr & !(bits & mask)) & mask == (addr & mask) & !bits) by (bit_vector);
}

/// The two flags are distinct single bits, and neither of them is a
/// metadata bit for any mask narrower than the word minus two bits.
pub proof fn lemma_flags()
    ensures
        UPDATE & OTHER_UPDATE == 0,
        UPDATE != 0,
        OTHER_UPDATE != 0,
        UPDATE > OTHER_UPDATE,
        UPDATE | OTHER_UPDATE == UPDATE + OTHER_UPDATE,
        OTHER_UPDATE + 1 < UPDATE,
{
    assert((1usize << (usize::BITS - 1) as u32) & (1usize << (usize::BITS - 2) as u32) == 0
        && (1usize << (usize::BITS - 1) as u32) != 0
        && (1usize << (usize::BITS - 2) as u32) != 0
        && (1usize << (usize::BITS - 1) as u32) > (1usize << (usize::BITS - 2) as u32)
        && ((1usize << (usize::BITS - 1) as u32) | (1usize << (usize::BITS - 2) as u32)) == (1usize << (usize::BITS - 1) as u32) + (1usize << (usize::BITS - 2) as u32)
        && (1usize << (usize::BITS - 2) as u32) + 1 < (1usize << (usize::BITS - 1) as u32)) by (bit_vector);
}

} // verus!
