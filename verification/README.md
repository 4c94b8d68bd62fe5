# swap_arc

A `SwapArc` holds a reference counted value (an `Arc`) that can be replaced
while other threads keep reading it. Reads are cheap: every thread keeps a
small cache, and as long as nothing was stored since its last read, a load is
one relaxed atomic load plus local bookkeeping.

## Layout

- `src/` is the verified library (Verus).
  - `lib.rs`: the shared atomics of `SwapArcAnyMeta` and the operations on
    them, the conversion traits, and bit helpers (`most_sig_set_bit`).
  - `meta.rs`: the layout of the words: metadata in the low bits of a
    pointer, update flags in the high bits of a counter, with the laws that
    keep the two apart.
  - `local.rs`: the per-thread cache (`LocalDataInner`): loads, the release
    of guards, and the invariants that keep every handed-out pointer
    protected.
  - `accounting.rs`: the guards a thread holds, as a multiset of
    generations, and the laws that loads and releases keep them accounted
    for, so that every guard can be given back.
  - `swap_arc_tls_optimistic.rs`: the `SwapArcIntermediateTLS` variant.
  - `swap_arc_tls_less_fence.rs`: the forced-update result type, the alignment
    check and the traits of the variant with fewer fences.
  - `cached_arc.rs`, `spreaded_arc.rs`, `auto_local_arc.rs`: the counting of
    three `Arc` designs with thread-local counts.
  - `ptr.rs`: address helpers.
- `app/` holds what Verus does not take: the user-facing types with
  `Arc<T>`, the thread-local storage, the guards that dereference to the
  value, the retry loops around the single attempts of the library, and a
  demo program.
- `tests/` exercises the library single-threaded.

Values are handled by address inside the library; an implementation of
`DataPtrConvert` turns a value into its address and back.

`AutoLocalArc` is present only through its counting (`src/auto_local_arc.rs`).
Its handle type, the per-thread cache assembly around it (the sized
allocation, the sentinel address and the cleanup of cache entries) needs a
thread-local storage API with unsafe access tokens that the `thread_local`
crate does not offer, so neither `src/` nor `app/` holds it.
