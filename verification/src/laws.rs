//! Properties of the pallet that span its calls: what every call keeps, what
//! one call undoes of another, and how a bred kitty's genes relate to its
//! parents.
use vstd::prelude::*;
use vstd::arithmetic::div_mod::lemma_div_denominator;
use vstd::arithmetic::power::{lemma_pow_positive, pow};
use crate::dna::{le_bytes, mix_dna, mix_gene, option_u32_bytes, random_dna};
use crate::external::blake2_128_digest;
use crate::pallet::{Config, PalletState, breed_transition, create_transition, transfer_transition};
use crate::runtime::SimpleRuntime;
use crate::types::{AccountId, Balance, BlockNumber, DispatchResult, Event, Kitty, KittyIndex};

verus! {

/// The indices below `n`.
pub open spec fn indices_below(n: KittyIndex) -> Set<KittyIndex> {
    Set::new(|i: KittyIndex| i < n)
}

proof fn lemma_indices_below_len(n: KittyIndex)
    ensures
        indices_below(n).finite(),
        indices_below(n).len() == n,
    decreases n,
{
    if n == 0 {
        assert(indices_below(0) =~= Set::<KittyIndex>::empty());
    } else {
        let m = (n - 1) as KittyIndex;
        lemma_indices_below_len(m);
        assert(indices_below(n) =~= indices_below(m).insert(m));
    }
}

/// In consistent storage there are exactly `next_kitty_id` kitties, each
/// with an owner.
pub proof fn lemma_kitty_count(s: PalletState)
    requires
        s.wf(),
    ensures
        s.kitties.dom().finite(),
        s.kitties.dom().len() == s.next_kitty_id,
        s.owners.dom().len() == s.next_kitty_id,
{
    lemma_indices_below_len(s.next_kitty_id);
    assert(s.kitties.dom() =~= indices_below(s.next_kitty_id));
    assert(s.owners.dom() =~= indices_below(s.next_kitty_id));
}

proof fn lemma_add_kitty_wf(s: PalletState, who: AccountId, kitty: Kitty, block_number: BlockNumber, event: Event)
    requires
        s.wf(),
        s.next_kitty_id < KittyIndex::MAX,
    ensures
        s.add_kitty(who, kitty, block_number, event).wf(),
        !s.kitties.contains_key(s.next_kitty_id),
        !s.owners.contains_key(s.next_kitty_id),
{
    let s2 = s.add_kitty(who, kitty, block_number, event);
    assert forall|i: KittyIndex| #[trigger] s2.kitties.contains_key(i) <==> i < s2.next_kitty_id by {
        if i != s.next_kitty_id {
            assert(s.kitties.contains_key(i) <==> i < s.next_kitty_id);
        }
    }
    assert forall|i: KittyIndex| #[trigger] s2.owners.contains_key(i) <==> i < s2.next_kitty_id by {
        if i != s.next_kitty_id {
            assert(s.owners.contains_key(i) <==> i < s.next_kitty_id);
        }
    }
}

/// `create` keeps the storage consistent, and a created kitty takes a fresh
/// index: every kitty stored before keeps its DNA and its owner. The next
/// index grows by one on success; the event is recorded unless the block is
/// block 0; on failure both stay as they were.
pub proof fn lemma_create_keeps_storage(
    s: PalletState,
    s2: PalletState,
    who: AccountId,
    block_number: BlockNumber,
    reserved: bool,
    dna: Seq<u8>,
    r: DispatchResult,
)
    requires
        s.wf(),
        create_transition(s, s2, who, block_number, reserved, dna, r),
    ensures
        s2.wf(),
        r is Ok ==> !s.kitties.contains_key(s.next_kitty_id),
        forall|i: KittyIndex| #[trigger] s.kitties.contains_key(i) ==> s2.kitties.contains_key(i) && s2.kitties[i] == s.kitties[i] && s2.owners[i] == s.owners[i],
        s2.next_kitty_id == s.next_kitty_id + (if r is Ok { 1int } else { 0int }),
        s2.events.len() == s.events.len() + (if r is Ok && block_number != 0 { 1int } else { 0int }),
        s2.events.take(s.events.len() as int) == s.events,
{
    assert(s2.events.take(s.events.len() as int) =~= s.events);
    if r is Ok {
        let kitty = s2.kitties[s.next_kitty_id];
        lemma_add_kitty_wf(s, who, kitty, block_number, Event::KittyCreated { who, kitty_id: s.next_kitty_id, kitty });
    }
}

/// `breed` keeps the storage consistent, and a bred kitty takes a fresh
/// index: every kitty stored before, its parents among them, keeps its DNA
/// and its owner. The next index grows by one on success; the event is
/// recorded unless the block is block 0; on failure both stay as they were.
pub proof fn lemma_breed_keeps_storage(
    s: PalletState,
    s2: PalletState,
    who: AccountId,
    block_number: BlockNumber,
    reserved: bool,
    kitty_id_1: KittyIndex,
    kitty_id_2: KittyIndex,
    selector: Seq<u8>,
    r: DispatchResult,
)
    requires
        s.wf(),
        breed_transition(s, s2, who, block_number, reserved, kitty_id_1, kitty_id_2, selector, r),
    ensures
        s2.wf(),
        r is Ok ==> !s.kitties.contains_key(s.next_kitty_id),
        forall|i: KittyIndex| #[trigger] s.kitties.contains_key(i) ==> s2.kitties.contains_key(i) && s2.kitties[i] == s.kitties[i] && s2.owners[i] == s.owners[i],
        s2.next_kitty_id == s.next_kitty_id + (if r is Ok { 1int } else { 0int }),
        s2.events.len() == s.events.len() + (if r is Ok && block_number != 0 { 1int } else { 0int }),
        s2.events.take(s.events.len() as int) == s.events,
{
    assert(s2.events.take(s.events.len() as int) =~= s.events);
    if r is Ok {
        let kitty = s2.kitties[s.next_kitty_id];
        lemma_add_kitty_wf(s, who, kitty, block_number, Event::KittyBreed { who, kitty_id: s.next_kitty_id, kitty });
    }
}

/// `transfer` keeps the storage consistent and changes neither the kitties
/// nor the next index; only the owner of the transferred kitty changes, and
/// one event is recorded on success (unless the block is block 0) and none
/// on failure.
pub proof fn lemma_transfer_keeps_storage(
    s: PalletState,
    s2: PalletState,
    who: AccountId,
    block_number: BlockNumber,
    kitty_id: KittyIndex,
    new_owner: AccountId,
    r: DispatchResult,
)
    requires
        s.wf(),
        transfer_transition(s, s2, who, block_number, kitty_id, new_owner, r),
    ensures
        s2.wf(),
        s2.kitties == s.kitties,
        s2.next_kitty_id == s.next_kitty_id,
        forall|i: KittyIndex| i != kitty_id && #[trigger] s.owners.contains_key(i) ==> s2.owners[i] == s.owners[i],
        s2.events.len() == s.events.len() + (if r is Ok && block_number != 0 { 1int } else { 0int }),
        s2.events.take(s.events.len() as int) == s.events,
{
    assert(s2.events.take(s.events.len() as int) =~= s.events);
    if r is Ok {
        assert forall|i: KittyIndex| #[trigger] s2.owners.contains_key(i) <==> i < s2.next_kitty_id by {
            assert(s.owners.contains_key(i) <==> i < s.next_kitty_id);
        }
    }
}

/// A transfer from `a` to `b` followed by a transfer back from `b` to `a`
/// restores the owners, the kitties and the next index.
pub proof fn lemma_transfer_round_trip(
    s: PalletState,
    s1: PalletState,
    s2: PalletState,
    a: AccountId,
    b: AccountId,
    block_number: BlockNumber,
    kitty_id: KittyIndex,
    r1: DispatchResult,
    r2: DispatchResult,
)
    requires
        transfer_transition(s, s1, a, block_number, kitty_id, b, r1),
        transfer_transition(s1, s2, b, block_number, kitty_id, a, r2),
        r1 is Ok,
    ensures
        r2 is Ok,
        s2.owners == s.owners,
        s2.kitties == s.kitties,
        s2.next_kitty_id == s.next_kitty_id,
{
    assert(s2.owners =~= s.owners);
}

/// Each bit of a bred kitty's gene comes from the first parent where the
/// selector has it set, and from the second parent where it does not.
pub proof fn lemma_gene_from_parents(a: Seq<u8>, b: Seq<u8>, selector: Seq<u8>, i: int)
    requires
        0 <= i < 16,
    ensures
        mix_dna(a, b, selector)[i] & selector[i] == a[i] & selector[i],
        mix_dna(a, b, selector)[i] & !selector[i] == b[i] & !selector[i],
{
    let (x, y, s) = (a[i], b[i], selector[i]);
    assert(((x & s) | (y & !s)) & s == x & s) by (bit_vector);
    assert(((x & s) | (y & !s)) & !s == y & !s) by (bit_vector);
    assert(mix_dna(a, b, selector)[i] == mix_gene(x, y, s));
}

/// Breeding two kitties with the same DNA gives that DNA again, whatever
/// the selector.
pub proof fn lemma_same_parents_same_child(a: Seq<u8>, selector: Seq<u8>)
    requires
        a.len() == 16,
    ensures
        mix_dna(a, a, selector) == a,
{
    assert forall|i: int| 0 <= i < 16 implies #[trigger] mix_dna(a, a, selector)[i] == a[i] by {
        let (x, s) = (a[i], selector[i]);
        assert((x & s) | (x & !s) == x) by (bit_vector);
    }
    assert(mix_dna(a, a, selector) =~= a);
}

/// A signer whose deposit is reserved breeds any two distinct stored kitties,
/// in either order, while indices remain: the call succeeds, and the new
/// kitty, owned by the signer, is stored under the old next index. Each bit
/// of its DNA is the first parent's where the selector is set and the second
/// parent's elsewhere, and outside block 0 `KittyBreed` names the signer, the
/// new index and the new kitty.
pub proof fn lemma_breed_succeeds(
    s: PalletState,
    s2: PalletState,
    who: AccountId,
    block_number: BlockNumber,
    kitty_id_1: KittyIndex,
    kitty_id_2: KittyIndex,
    selector: Seq<u8>,
    r: DispatchResult,
)
    requires
        breed_transition(s, s2, who, block_number, true, kitty_id_1, kitty_id_2, selector, r),
        kitty_id_1 != kitty_id_2,
        s.kitties.contains_key(kitty_id_1),
        s.kitties.contains_key(kitty_id_2),
        s.next_kitty_id < KittyIndex::MAX,
    ensures
        r == Ok::<(), crate::types::DispatchError>(()),
        s2.next_kitty_id == s.next_kitty_id + 1,
        s2.kitties.contains_key(s.next_kitty_id),
        s2.owners.contains_key(s.next_kitty_id) && s2.owners[s.next_kitty_id] == who,
        forall|i: int| 0 <= i < 16 ==> {
            &&& #[trigger] s2.kitties[s.next_kitty_id].0[i] & selector[i] == s.kitties[kitty_id_1].0[i] & selector[i]
            &&& s2.kitties[s.next_kitty_id].0[i] & !selector[i] == s.kitties[kitty_id_2].0[i] & !selector[i]
        },
        block_number != 0 ==> s2.events == s.events.push(
            Event::KittyBreed { who, kitty_id: s.next_kitty_id, kitty: s2.kitties[s.next_kitty_id] },
        ),
{
    let (k1, k2) = (s.kitties[kitty_id_1].0@, s.kitties[kitty_id_2].0@);
    assert forall|i: int| 0 <= i < 16 implies {
        &&& #[trigger] s2.kitties[s.next_kitty_id].0[i] & selector[i] == s.kitties[kitty_id_1].0[i] & selector[i]
        &&& s2.kitties[s.next_kitty_id].0[i] & !selector[i] == s.kitties[kitty_id_2].0[i] & !selector[i]
    } by {
        lemma_gene_from_parents(k1, k2, selector, i);
    }
}

/// A signer whose deposit is reserved creates a kitty whenever indices
/// remain, however many kitties exist or it owns: the call succeeds, the
/// kitty is stored under the old next index, owned by the signer, and in
/// consistent storage the number of kitties grows by one. Outside block 0
/// `KittyCreated` names the signer, the new index and the new kitty.
pub proof fn lemma_create_succeeds(
    s: PalletState,
    s2: PalletState,
    who: AccountId,
    block_number: BlockNumber,
    dna: Seq<u8>,
    r: DispatchResult,
)
    requires
        create_transition(s, s2, who, block_number, true, dna, r),
        s.next_kitty_id < KittyIndex::MAX,
    ensures
        r == Ok::<(), crate::types::DispatchError>(()),
        s2.next_kitty_id == s.next_kitty_id + 1,
        s2.kitties.dom() == s.kitties.dom().insert(s.next_kitty_id),
        s2.kitties[s.next_kitty_id].0@ == dna,
        s2.owners.contains_key(s.next_kitty_id) && s2.owners[s.next_kitty_id] == who,
        block_number != 0 ==> s2.events == s.events.push(
            Event::KittyCreated { who, kitty_id: s.next_kitty_id, kitty: s2.kitties[s.next_kitty_id] },
        ),
        block_number == 0 ==> s2.events == s.events,
        s.wf() ==> s2.kitties.dom().len() == s.kitties.dom().len() + 1,
{
    assert(s2.kitties.dom() =~= s.kitties.dom().insert(s.next_kitty_id));
    if s.wf() {
        lemma_create_keeps_storage(s, s2, who, block_number, true, dna, r);
        lemma_kitty_count(s);
        lemma_kitty_count(s2);
    }
}

/// The owner of a stored kitty can always transfer it, whatever its index
/// and whoever the recipient: the call succeeds, the recipient owns it, the
/// kitties stay as they were, and outside block 0 `KittyTransfer` names the
/// signer as sender and the recipient.
pub proof fn lemma_owner_can_transfer(
    s: PalletState,
    s2: PalletState,
    who: AccountId,
    block_number: BlockNumber,
    kitty_id: KittyIndex,
    new_owner: AccountId,
    r: DispatchResult,
)
    requires
        transfer_transition(s, s2, who, block_number, kitty_id, new_owner, r),
        s.owners.contains_key(kitty_id),
        s.owners[kitty_id] == who,
    ensures
        r == Ok::<(), crate::types::DispatchError>(()),
        s2.owners.contains_key(kitty_id) && s2.owners[kitty_id] == new_owner,
        s2.kitties == s.kitties,
        block_number != 0 ==> s2.events == s.events.push(
            Event::KittyTransfer { who, recipient: new_owner, kitty_id },
        ),
{
}

/// Byte `j` of the `n` little-endian bytes of `x` is digit `j` of `x` in
/// base 256.
pub proof fn lemma_le_bytes_digits(x: nat, n: nat, j: int)
    requires
        0 <= j < n,
    ensures
        le_bytes(x, n).len() == n,
        le_bytes(x, n)[j] == ((x as int / pow(256, j as nat)) % 256) as u8,
    decreases n,
{
    lemma_le_bytes_len(x, n);
    reveal(pow);
    if j == 0 {
        assert(pow(256, 0) == 1);
    } else {
        let y = x / 256;
        lemma_le_bytes_digits(y, (n - 1) as nat, j - 1);
        lemma_pow_positive(256, (j - 1) as nat);
        lemma_div_denominator(x as int, 256, pow(256, (j - 1) as nat));
        assert(pow(256, j as nat) == 256 * pow(256, (j - 1) as nat));
        assert(le_bytes(x, n)[j] == le_bytes(y, (n - 1) as nat)[j - 1]);
    }
}

proof fn lemma_le_bytes_len(x: nat, n: nat)
    ensures
        le_bytes(x, n).len() == n,
    decreases n,
{
    if n > 0 {
        lemma_le_bytes_len(x / 256, (n - 1) as nat);
    }
}

/// A kitty's DNA is the Blake2-128 digest of the SCALE bytes of the seed (its
/// bytes in order), then the block number and the sender, eight
/// little-endian bytes each, then the extrinsic index: byte 0 when there is
/// none, else byte 1 and its four little-endian bytes.
pub proof fn lemma_dna_is_digest_of_encoded_seed(
    seed: Seq<u8>,
    block_number: BlockNumber,
    sender: AccountId,
    extrinsic_index: Option<u32>,
)
    ensures
        random_dna(seed, block_number, sender, extrinsic_index) == blake2_128_digest(
            seed + le_bytes(block_number as nat, 8) + le_bytes(sender as nat, 8) + option_u32_bytes(
                extrinsic_index,
            ),
        ),
        option_u32_bytes(extrinsic_index) == (match extrinsic_index {
            None => seq![0u8],
            Some(v) => seq![1u8] + le_bytes(v as nat, 4),
        }),
{
}

/// In a `SimpleRuntime`, an amount can be reserved from an account exactly
/// when its free balance covers it.
pub proof fn lemma_simple_runtime_reserves_free_balance(rt: SimpleRuntime, who: AccountId, amount: Balance)
    ensures
        rt.can_reserve(who, amount) <==> rt.free_balance(who) >= amount,
        rt.free_balance(who) == rt.account(who).0 - rt.account(who).1,
{
}

} // verus!
