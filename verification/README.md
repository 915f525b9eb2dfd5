# sybil

The proof-of-work and block-reward logic of a small Substrate chain, written
in Verus.

- `src/uint.rs`: 256-bit integers as four 64-bit limbs; their SCALE encoding,
  big-endian reading and overflowing multiplication, through `primitive-types`.
- `src/hashing.rs`: SHA3-256 through the `sha3` crate.
- `src/pow.rs`: the seal format, the work of a nonce, and seal verification.
- `src/mining.rs`: a mining thread's decisions; every seal it submits verifies.
- `src/rewards.rs`: the block-reward pallet's storage and rules.
- `src/runtime.rs`: the runtime's dust handler and executor marker.
- `app/`: the node service, the consensus-engine and FRAME glue, which call
  the library.
