//! A kitty's DNA: how it is drawn from the runtime's randomness, and how a
//! bred kitty's DNA mixes the DNA of its parents.
use vstd::prelude::*;
use crate::external::{blake2_128, blake2_128_digest, encode_payload};
use crate::types::{AccountId, BlockNumber, Kitty};

verus! {

/// The `n` little-endian bytes of `x` (the lowest `n` bytes).
pub open spec fn le_bytes(x: nat, n: nat) -> Seq<u8>
    decreases n,
{
    if n == 0 {
        Seq::empty()
    } else {
        seq![(x % 256) as u8] + le_bytes(x / 256, (n - 1) as nat)
    }
}

/// The SCALE bytes of an optional `u32`.
pub open spec fn option_u32_bytes(o: Option<u32>) -> Seq<u8> {
    match o {
        Some(v) => seq![1u8] + le_bytes(v as nat, 4),
        None => seq![0u8],
    }
}

/// The bytes that are hashed into a fresh DNA: the random seed, the block
/// number it belongs to, the account, and the index of the extrinsic.
pub open spec fn random_payload(
    seed: Seq<u8>,
    block_number: BlockNumber,
    sender: AccountId,
    extrinsic_index: Option<u32>,
) -> Seq<u8> {
    seed + le_bytes(block_number as nat, 8) + le_bytes(sender as nat, 8) + option_u32_bytes(
        extrinsic_index,
    )
}

/// The DNA drawn for `sender` from a random seed.
pub open spec fn random_dna(
    seed: Seq<u8>,
    block_number: BlockNumber,
    sender: AccountId,
    extrinsic_index: Option<u32>,
) -> Seq<u8> {
    blake2_128_digest(random_payload(seed, block_number, sender, extrinsic_index))
}

/// The DNA for `sender`, given the random seed and its block number, and the
/// index of the current extrinsic: the Blake2-128 digest of their SCALE
/// encoding.
pub fn dna_from_seed(
    seed: [u8; 32],
    block_number: BlockNumber,
    sender: AccountId,
    extrinsic_index: Option<u32>,
) -> (dna: [u8; 16])
    ensures
        dna@ == random_dna(seed@, block_number, sender, extrinsic_index),
{
    let payload = encode_payload(seed, block_number, sender, extrinsic_index);
    blake2_128(payload.as_slice())
}

/// One gene of a bred kitty: the bits of `a` where `selector` is set, and
/// the bits of `b` where it is not.
pub open spec fn mix_gene(a: u8, b: u8, selector: u8) -> u8 {
    (a & selector) | (b & !selector)
}

/// The DNA of a kitty bred from DNAs `a` and `b` with `selector`.
pub open spec fn mix_dna(a: Seq<u8>, b: Seq<u8>, selector: Seq<u8>) -> Seq<u8> {
    Seq::new(16, |i: int| mix_gene(a[i], b[i], selector[i]))
}

/// The kitty bred from `kitty_1` and `kitty_2`: each bit comes from
/// `kitty_1` where `selector` has it set and from `kitty_2` elsewhere.
pub fn breed_dna(kitty_1: &Kitty, kitty_2: &Kitty, selector: &[u8; 16]) -> (child: Kitty)
    ensures
        child.0@ == mix_dna(kitty_1.0@, kitty_2.0@, selector@),
{
    let mut data = [0u8; 16];
    for i in 0..16usize
        invariant
            forall|j: int| 0 <= j < i ==> data[j] == mix_gene(kitty_1.0[j], kitty_2.0[j], selector[j]),
    {
        data[i] = (kitty_1.0[i] & selector[i]) | (kitty_2.0[i] & !selector[i]);
    }
    let child = Kitty(data);
    assert(child.0@ =~= mix_dna(kitty_1.0@, kitty_2.0@, selector@));
    child
}

} // verus!
