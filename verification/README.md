# pallet_kitties

A kitties pallet verified with Verus. Accounts create kitties with a random
DNA, breed two kitties into a new one whose genes come from either parent, and
transfer kitties to other accounts.

- `src/types.rs`: kitties, origins, errors and events.
- `src/dna.rs`: how a DNA is drawn from the runtime's randomness (SCALE
  encoding and Blake2-128) and how a bred DNA mixes its parents.
- `src/pallet.rs`: the storage, the `Config` the runtime implements, and the
  calls `create`, `breed` and `transfer`, each specified by a transition
  predicate over the storage.
- `src/runtime.rs`: `SimpleRuntime`, a verified runtime with a settable seed
  and a ledger of free and reserved balances, which meets `Config`'s contract.
- `src/laws.rs`: what every call keeps of the storage, the transfer round
  trip, and the gene laws of breeding.
- `src/external.rs`: the calls into `sp-io` and `sp-runtime`'s codec.
