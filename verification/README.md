# pallet_kitties

A registry of five kinds of unit (gold, silver, land, stock, sukuk) that accounts mint,
price, transfer and buy, with its logic verified by Verus.

- `src/` is the verified library. `model.rs` states what every call does to the state as
  mathematics; `calls.rs` and `getters.rs` hold the calls, each with a contract in terms of
  that model; `laws.rs` proves what holds across calls (every counter counts its units, the
  lists of holdings agree with the owners of the units, refused calls change nothing, a
  checked transfer or purchase succeeds). `codec.rs` builds the byte encodings that are
  hashed with BLAKE2 through `sp_io` (`hashing.rs`).
- `app/` is the runtime side: signed origins, randomness and block data, the currency that
  pays for purchases, and logging.
- `tests/` runs the library on concrete values and checks its keys against
  `BlakeTwo256::hash_of` of the SCALE encoding.

Design notes:
- The chain's storage maps and values are handles to the runtime's storage, not values the
  logic holds, so the pallet's state is the library's own `Pallet` struct (`unit_map.rs`,
  `store.rs`). The bounded lists of holdings are `Vec`s with their bound kept as a proved
  invariant (`owned_index.rs`): the bound of a `BoundedVec` is a per-runtime type, and a
  name for what such a list holds would have to fix it to one constant.
- The runtime's types are fixed: accounts are `u64`, balances `u128`, hashes 32 bytes with
  BLAKE2-256; the block number keeps the width of the runtime's type (`BlockNumber`).
