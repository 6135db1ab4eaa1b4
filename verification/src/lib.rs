//! A kitties pallet: accounts create kitties with a random DNA, breed two
//! kitties into a new one whose genes come from either parent, and transfer
//! kitties to other accounts.
//!
//! The pallet's storage (the next free kitty index, the kitties and their
//! owners, and the events deposited) is held by `Pallet`; the runtime that
//! the pallet is configured with provides randomness and reservable currency
//! through the `Config` trait, whose contract says what the pallet may rely
//! on. `SimpleRuntime` is a runtime that meets that contract.

pub mod types;
pub mod external;
pub mod dna;
pub mod pallet;
pub mod laws;
pub mod runtime;
