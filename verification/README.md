# axhash

A deterministic, seedable 64-bit hash family for byte strings and streams of
typed values, written in Verus. The byte hash, the streaming hasher, the
builder, the incremental hasher and the C-interface rules have contracts that
give their results exactly over a mathematical model, proved by Verus. Some
results rest on code outside the library, and their contracts say so: the
random seed of `AxBuildHasher::random` (nothing is stated of the value drawn),
and what the standard library's `Hash` impl for byte arrays feeds a hasher
(named, not spelt out). Hashing an arbitrary `Hash` value (`axhash_of`)
depends on the value's own `Hash` impl and lives in `app/`, unverified.

## Layout

- `src/math.rs` — the folded 128-bit multiply, rotations, seed derivation.
- `src/constants.rs` — the mixing constants.
- `src/backend.rs` — the byte-string hash, one branch per length class, with
  a spec function per branch.
- `src/hasher.rs` — `AxHasher` (a streaming `core::hash::Hasher` with a
  128-bit sponge for small integers), its abstract state `HasherState`, and
  `AxBuildHasher`.
- `src/api.rs` — one-shot hashing of byte strings.
- `src/lib.rs` — the backend report (`runtime_backend`), chosen from CPU
  features that the caller detects; whatever it reports, digests are
  computed by the scalar code, the only backend implemented.
- `src/laws.rs` — properties relating several operations (sponge packing,
  flushing, empty writes, chunked writes, builder/hasher agreement).
- `src/stream.rs`, `src/c_api.rs` — the incremental hasher and the rules of
  the C interface, over plain values.
- `src/bench_data.rs`, `src/profile.rs` — benchmark inputs and hot loops.
- `app/` — `axhash_of`, CPU feature detection, the C ABI, the Python and
  WebAssembly bindings, the benchmark harness and the profiling helper, in
  ordinary Rust around the library.
- `tests/` — behavioural tests and known-answer digests.

All digests are computed by the portable scalar backend, so they are the
same on every machine.
