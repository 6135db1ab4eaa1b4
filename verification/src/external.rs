//! The calls this pallet makes into outside crates: SCALE encoding of the
//! payload that seeds a kitty's DNA, and the Blake2 hash of it.
use sp_runtime::codec::Encode;
use vstd::prelude::*;
use crate::dna::random_payload;

verus! {

/// What `sp_io::hashing::blake2_128` returns for the given bytes: the
/// 128-bit Blake2b digest of them.
pub uninterp spec fn blake2_128_digest(data: Seq<u8>) -> Seq<u8>;

/// Calls `sp_io::hashing::blake2_128`, which hashes the bytes with Blake2b
/// and a 16-byte output. Trusted: the result is the named digest of the
/// bytes; nothing more is claimed of it.
#[verifier::external_body]
pub(crate) fn blake2_128(data: &[u8]) -> (digest: [u8; 16])
    ensures
        digest@ == blake2_128_digest(data@),
{
    sp_io::hashing::blake2_128(data)
}

/// Calls `Encode::encode` of `parity-scale-codec` (re-exported as
/// `sp_runtime::codec`) on the tuple `((seed, block_number), &sender,
/// extrinsic_index)`. Trusted: SCALE writes a fixed-size byte array as its
/// bytes, an unsigned integer as its little-endian bytes, an `Option` as a
/// byte 0 (`None`) or a byte 1 followed by the value, and a tuple as its
/// fields one after another; the contract states that layout.
#[verifier::external_body]
pub(crate) fn encode_payload(
    seed: [u8; 32],
    block_number: u64,
    sender: u64,
    extrinsic_index: Option<u32>,
) -> (bytes: Vec<u8>)
    ensures
        bytes@ == random_payload(seed@, block_number, sender, extrinsic_index),
{
    ((seed, block_number), &sender, extrinsic_index).encode()
}

} // verus!
