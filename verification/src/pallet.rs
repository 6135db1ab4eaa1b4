//! The pallet: its storage, the runtime it is configured with, and the three
//! calls `create`, `breed` and `transfer`.
use std::collections::HashMap;
use vstd::prelude::*;
use crate::dna::{breed_dna, dna_from_seed, mix_dna, random_dna};
use crate::types::{
    AccountId, Balance, BlockNumber, DispatchError, DispatchResult, Error, Event, Kitty,
    KittyIndex, Origin, ensure_signed, signer_of,
};

verus! {

broadcast use vstd::std_specs::hash::group_hash_axioms;

/// What the runtime provides to this pallet: randomness, the index of the
/// extrinsic being executed, and a currency whose funds can be reserved.
///
/// A runtime states, through the spec functions, the random seed it hands
/// out, the extrinsic index, the kitty reserve, and the free and reserved
/// balance of each account; its methods promise to report them and to move
/// funds between free and reserved balance as a reservable currency does.
pub trait Config: Sized {
    /// The random seed, and the block number it belongs to.
    spec fn spec_random_seed(&self) -> ([u8; 32], BlockNumber);

    /// The index of the extrinsic being executed, if any.
    spec fn spec_extrinsic_index(&self) -> Option<u32>;

    /// The amount reserved for each kitty created or bred.
    spec fn spec_kitty_reserve(&self) -> Balance;

    /// The number of the block being executed.
    spec fn spec_block_number(&self) -> BlockNumber;

    /// The free balance of `who`.
    spec fn free_balance(&self, who: AccountId) -> int;

    /// The reserved balance of `who`.
    spec fn reserved_balance(&self, who: AccountId) -> nat;

    /// `amount` can be reserved from `who`.
    spec fn can_reserve(&self, who: AccountId, amount: Balance) -> bool;

    /// A random seed and the block number it belongs to.
    fn random_seed(&self) -> (seed: ([u8; 32], BlockNumber))
        ensures
            seed == self.spec_random_seed(),
    ;

    /// The index of the extrinsic being executed, if any.
    fn extrinsic_index(&self) -> (index: Option<u32>)
        ensures
            index == self.spec_extrinsic_index(),
    ;

    /// The amount reserved from an account for each kitty it creates or breeds.
    fn kitty_reserve(&self) -> (amount: Balance)
        ensures
            amount == self.spec_kitty_reserve(),
    ;

    /// The number of the block being executed.
    fn block_number(&self) -> (n: BlockNumber)
        ensures
            n == self.spec_block_number(),
    ;

    /// The bound on the number of kitties that one account may own.
    fn max_length(&self) -> u32;

    /// Reserves `amount` of the free balance of `who`; fails, moving no
    /// funds, if it cannot.
    fn reserve(&mut self, who: AccountId, amount: Balance) -> (r: DispatchResult)
        ensures
            r is Ok <==> old(self).can_reserve(who, amount),
            final(self).spec_random_seed() == old(self).spec_random_seed(),
            final(self).spec_extrinsic_index() == old(self).spec_extrinsic_index(),
            final(self).spec_kitty_reserve() == old(self).spec_kitty_reserve(),
            final(self).spec_block_number() == old(self).spec_block_number(),
            forall|x: AccountId|
                #![trigger final(self).free_balance(x)]
                #![trigger final(self).reserved_balance(x)]
                x != who ==> {
                    &&& final(self).free_balance(x) == old(self).free_balance(x)
                    &&& final(self).reserved_balance(x) == old(self).reserved_balance(x)
                },
            r is Ok ==> {
                &&& old(self).free_balance(who) >= amount
                &&& final(self).free_balance(who) == old(self).free_balance(who) - amount
                &&& final(self).reserved_balance(who) == old(self).reserved_balance(who) + amount
            },
            r is Err ==> {
                &&& final(self).free_balance(who) == old(self).free_balance(who)
                &&& final(self).reserved_balance(who) == old(self).reserved_balance(who)
            },
    ;

    /// Releases up to `amount` of the reserved balance of `who` into its free
    /// balance; returns the part of `amount` that was not reserved.
    fn unreserve(&mut self, who: AccountId, amount: Balance) -> (left: Balance)
        ensures
            final(self).spec_random_seed() == old(self).spec_random_seed(),
            final(self).spec_extrinsic_index() == old(self).spec_extrinsic_index(),
            final(self).spec_kitty_reserve() == old(self).spec_kitty_reserve(),
            final(self).spec_block_number() == old(self).spec_block_number(),
            forall|x: AccountId|
                #![trigger final(self).free_balance(x)]
                #![trigger final(self).reserved_balance(x)]
                x != who ==> {
                    &&& final(self).free_balance(x) == old(self).free_balance(x)
                    &&& final(self).reserved_balance(x) == old(self).reserved_balance(x)
                },
            old(self).reserved_balance(who) <= amount ==> {
                &&& final(self).reserved_balance(who) == 0
                &&& final(self).free_balance(who) == old(self).free_balance(who) + old(self).reserved_balance(who)
                &&& left == amount - old(self).reserved_balance(who)
            },
            amount < old(self).reserved_balance(who) ==> {
                &&& final(self).reserved_balance(who) == old(self).reserved_balance(who) - amount
                &&& final(self).free_balance(who) == old(self).free_balance(who) + amount
                &&& left == 0
            },
    ;
}

/// The smaller of two integers.
pub open spec fn min_int(a: int, b: int) -> int {
    if a <= b { a } else { b }
}

/// The runtime's randomness, extrinsic index, kitty reserve and block number
/// are the same in `a` and `b`.
pub open spec fn same_context<T: Config>(a: T, b: T) -> bool {
    &&& a.spec_random_seed() == b.spec_random_seed()
    &&& a.spec_extrinsic_index() == b.spec_extrinsic_index()
    &&& a.spec_kitty_reserve() == b.spec_kitty_reserve()
    &&& a.spec_block_number() == b.spec_block_number()
}

/// Every account other than `who` has the same balances in `a` and `b`.
pub open spec fn others_unchanged<T: Config>(a: T, b: T, who: AccountId) -> bool {
    forall|x: AccountId|
        #![trigger b.free_balance(x)]
        #![trigger b.reserved_balance(x)]
        x != who ==> {
            &&& b.free_balance(x) == a.free_balance(x)
            &&& b.reserved_balance(x) == a.reserved_balance(x)
        }
}

/// Every account has the same balances in `a` and `b`.
pub open spec fn balances_unchanged<T: Config>(a: T, b: T) -> bool {
    forall|x: AccountId|
        #![trigger b.free_balance(x)]
        #![trigger b.reserved_balance(x)]
        {
            &&& b.free_balance(x) == a.free_balance(x)
            &&& b.reserved_balance(x) == a.reserved_balance(x)
        }
}

/// `b` is `a` once `amount` of the free balance of `who` is reserved.
pub open spec fn reserved_from<T: Config>(a: T, b: T, who: AccountId, amount: Balance) -> bool {
    &&& same_context(a, b)
    &&& others_unchanged(a, b, who)
    &&& b.free_balance(who) == a.free_balance(who) - amount
    &&& b.reserved_balance(who) == a.reserved_balance(who) + amount
}

/// `b` is `a` once up to `amount` of the reserved balance of `who` is
/// released into its free balance.
pub open spec fn released_from<T: Config>(a: T, b: T, who: AccountId, amount: Balance) -> bool {
    let released = min_int(amount as int, a.reserved_balance(who) as int);
    &&& same_context(a, b)
    &&& others_unchanged(a, b, who)
    &&& b.reserved_balance(who) == a.reserved_balance(who) - released
    &&& b.free_balance(who) == a.free_balance(who) + released
}

/// Reserving `amount` from `who` and then releasing `amount` of its reserve
/// leaves every balance, and the runtime's randomness, as they were.
pub proof fn lemma_reserve_then_release<T: Config>(a: T, b: T, c: T, who: AccountId, amount: Balance)
    requires
        reserved_from(a, b, who, amount),
        released_from(b, c, who, amount),
    ensures
        same_context(a, c),
        balances_unchanged(a, c),
{
    assert forall|x: AccountId| #[trigger] c.free_balance(x) == a.free_balance(x) && c.reserved_balance(x) == a.reserved_balance(x) by {
        if x != who {
            assert(b.free_balance(x) == a.free_balance(x));
        }
    }
}

/// The DNA the runtime `env` draws for `sender`.
pub open spec fn env_dna<T: Config>(env: T, sender: AccountId) -> Seq<u8> {
    random_dna(env.spec_random_seed().0@, env.spec_random_seed().1, sender, env.spec_extrinsic_index())
}

/// The events once `event` is deposited during block `block_number`. As in
/// the runtime's system pallet, no event is recorded during block 0 (the
/// genesis block).
pub open spec fn deposit(events: Seq<Event>, block_number: BlockNumber, event: Event) -> Seq<Event> {
    if block_number == 0 {
        events
    } else {
        events.push(event)
    }
}

/// The pallet's storage, seen as mathematical values.
pub struct PalletState {
    /// The index the next kitty will be stored under.
    pub next_kitty_id: KittyIndex,
    /// The kitties by index.
    pub kitties: Map<KittyIndex, Kitty>,
    /// The owner of each kitty, by index.
    pub owners: Map<KittyIndex, AccountId>,
    /// The events recorded so far, oldest first; an event deposited during
    /// block 0 is not recorded.
    pub events: Seq<Event>,
}

impl PalletState {
    /// The storage is consistent: the kitties, and their owners, are stored
    /// under exactly the indices below `next_kitty_id`.
    pub open spec fn wf(self) -> bool {
        &&& forall|i: KittyIndex| #[trigger] self.kitties.contains_key(i) <==> i < self.next_kitty_id
        &&& forall|i: KittyIndex| #[trigger] self.owners.contains_key(i) <==> i < self.next_kitty_id
    }

    /// The storage once `kitty` is stored under the next index, owned by
    /// `who`, and `event` is deposited during block `block_number`.
    pub open spec fn add_kitty(self, who: AccountId, kitty: Kitty, block_number: BlockNumber, event: Event) -> PalletState {
        PalletState {
            next_kitty_id: (self.next_kitty_id + 1) as KittyIndex,
            kitties: self.kitties.insert(self.next_kitty_id, kitty),
            owners: self.owners.insert(self.next_kitty_id, who),
            events: deposit(self.events, block_number, event),
        }
    }

    /// `who` owns the kitty stored under `kitty_id`.
    pub open spec fn owns(self, who: AccountId, kitty_id: KittyIndex) -> bool {
        self.owners.contains_key(kitty_id) && self.owners[kitty_id] == who
    }
}

/// What `create` returns once the caller is known, given whether the
/// reservation of funds succeeded.
pub open spec fn create_outcome(s: PalletState, reserved: bool) -> DispatchResult {
    if s.next_kitty_id == KittyIndex::MAX {
        Err(DispatchError::Module(Error::InvalidKittyId))
    } else if !reserved {
        Err(DispatchError::Module(Error::TokenNotEnough))
    } else {
        Ok(())
    }
}

/// `create` by `who` during block `block_number` takes storage `s` to `s2`
/// and returns `r`, given whether the reservation of funds succeeded and the
/// DNA drawn for the new kitty.
pub open spec fn create_transition(
    s: PalletState,
    s2: PalletState,
    who: AccountId,
    block_number: BlockNumber,
    reserved: bool,
    dna: Seq<u8>,
    r: DispatchResult,
) -> bool {
    &&& r == create_outcome(s, reserved)
    &&& r is Err ==> s2 == s
    &&& r is Ok ==> {
        let kitty = s2.kitties[s.next_kitty_id];
        &&& kitty.0@ == dna
        &&& s2 == s.add_kitty(
            who,
            kitty,
            block_number,
            Event::KittyCreated { who, kitty_id: s.next_kitty_id, kitty },
        )
    }
}

/// The check on the parents that `breed` makes after reserving funds: the
/// error it fails with, if any.
pub open spec fn breed_check(s: PalletState, kitty_id_1: KittyIndex, kitty_id_2: KittyIndex) -> Option<Error> {
    if kitty_id_1 == kitty_id_2 {
        Some(Error::SameKittyId)
    } else if !s.kitties.contains_key(kitty_id_1) || !s.kitties.contains_key(kitty_id_2) {
        Some(Error::InvalidKittyId)
    } else if s.next_kitty_id == KittyIndex::MAX {
        Some(Error::KittiesCountOverflow)
    } else {
        None
    }
}

/// What `breed` returns once the caller is known, given whether the
/// reservation of funds succeeded.
pub open spec fn breed_outcome(
    s: PalletState,
    reserved: bool,
    kitty_id_1: KittyIndex,
    kitty_id_2: KittyIndex,
) -> DispatchResult {
    if !reserved {
        Err(DispatchError::Module(Error::TokenNotEnough))
    } else {
        match breed_check(s, kitty_id_1, kitty_id_2) {
            Some(e) => Err(DispatchError::Module(e)),
            None => Ok(()),
        }
    }
}

/// The new kitty of a successful `breed` from storage `s` to `s2` has the DNA
/// mixed from the two parents with `selector`.
pub open spec fn bred_from(
    s: PalletState,
    s2: PalletState,
    kitty_id_1: KittyIndex,
    kitty_id_2: KittyIndex,
    selector: Seq<u8>,
) -> bool {
    s2.kitties[s.next_kitty_id].0@ == mix_dna(
        s.kitties[kitty_id_1].0@,
        s.kitties[kitty_id_2].0@,
        selector,
    )
}

/// `breed` by `who` during block `block_number` takes storage `s` to `s2` and
/// returns `r`, given whether the reservation of funds succeeded and the
/// random selector.
pub open spec fn breed_transition(
    s: PalletState,
    s2: PalletState,
    who: AccountId,
    block_number: BlockNumber,
    reserved: bool,
    kitty_id_1: KittyIndex,
    kitty_id_2: KittyIndex,
    selector: Seq<u8>,
    r: DispatchResult,
) -> bool {
    &&& r == breed_outcome(s, reserved, kitty_id_1, kitty_id_2)
    &&& r is Err ==> s2 == s
    &&& r is Ok ==> {
        let child = s2.kitties[s.next_kitty_id];
        &&& bred_from(s, s2, kitty_id_1, kitty_id_2, selector)
        &&& s2 == s.add_kitty(
            who,
            child,
            block_number,
            Event::KittyBreed { who, kitty_id: s.next_kitty_id, kitty: child },
        )
    }
}

/// What `transfer` by `who` returns.
pub open spec fn transfer_outcome(s: PalletState, who: AccountId, kitty_id: KittyIndex) -> DispatchResult {
    if s.owns(who, kitty_id) {
        Ok(())
    } else {
        Err(DispatchError::Module(Error::NotOwner))
    }
}

/// `transfer` of kitty `kitty_id` by `who` to `new_owner` during block
/// `block_number` takes storage `s` to `s2` and returns `r`.
pub open spec fn transfer_transition(
    s: PalletState,
    s2: PalletState,
    who: AccountId,
    block_number: BlockNumber,
    kitty_id: KittyIndex,
    new_owner: AccountId,
    r: DispatchResult,
) -> bool {
    &&& r == transfer_outcome(s, who, kitty_id)
    &&& r is Err ==> s2 == s
    &&& r is Ok ==> s2 == PalletState {
        owners: s.owners.insert(kitty_id, new_owner),
        events: deposit(
            s.events,
            block_number,
            Event::KittyTransfer { who, recipient: new_owner, kitty_id },
        ),
        ..s
    }
}

/// The kitties pallet and its storage.
pub struct Pallet {
    next_kitty_id: KittyIndex,
    kitties: HashMap<KittyIndex, Kitty>,
    kitty_owner: HashMap<KittyIndex, AccountId>,
    events: Vec<Event>,
}

impl View for Pallet {
    type V = PalletState;

    closed spec fn view(&self) -> PalletState {
        PalletState {
            next_kitty_id: self.next_kitty_id,
            kitties: self.kitties@,
            owners: self.kitty_owner@,
            events: self.events@,
        }
    }
}

impl Pallet {
    /// The pallet with empty storage.
    pub fn new() -> (p: Pallet)
        ensures
            p@.next_kitty_id == 0,
            p@.kitties == Map::<KittyIndex, Kitty>::empty(),
            p@.owners == Map::<KittyIndex, AccountId>::empty(),
            p@.events == Seq::<Event>::empty(),
            p@.wf(),
    {
        Pallet {
            next_kitty_id: 0,
            kitties: HashMap::new(),
            kitty_owner: HashMap::new(),
            events: Vec::new(),
        }
    }

    /// The index the next kitty will be stored under.
    pub fn next_kitty_id(&self) -> (id: KittyIndex)
        ensures
            id == self@.next_kitty_id,
    {
        self.next_kitty_id
    }

    /// The kitty stored under `kitty_id`, if any.
    pub fn kitties(&self, kitty_id: KittyIndex) -> (k: Option<Kitty>)
        ensures
            k == self@.kitties.get(kitty_id),
    {
        match self.kitties.get(&kitty_id) {
            Some(k) => Some(*k),
            None => None,
        }
    }

    /// The owner of the kitty stored under `kitty_id`, if any.
    pub fn kitty_owner(&self, kitty_id: KittyIndex) -> (o: Option<AccountId>)
        ensures
            o == self@.owners.get(kitty_id),
    {
        match self.kitty_owner.get(&kitty_id) {
            Some(o) => Some(*o),
            None => None,
        }
    }

    /// The events recorded so far, oldest first. As the runtime's system
    /// pallet does, an event deposited during block 0 is not recorded.
    pub fn events(&self) -> (e: &Vec<Event>)
        ensures
            e@ == self@.events,
    {
        &self.events
    }

    /// Writes the stored next index directly, as a genesis configuration or
    /// a storage migration does.
    pub fn put_next_kitty_id(&mut self, kitty_id: KittyIndex)
        ensures
            final(self)@ == (PalletState { next_kitty_id: kitty_id, ..old(self)@ }),
    {
        self.next_kitty_id = kitty_id;
    }

    /// The index for a new kitty; fails once the indices are used up.
    pub fn get_next_id(&self) -> (r: Result<KittyIndex, DispatchError>)
        ensures
            r == (if self@.next_kitty_id == KittyIndex::MAX {
                Err(DispatchError::Module(Error::KittiesCountOverflow))
            } else {
                Ok(self@.next_kitty_id)
            }),
    {
        let kitty_id = self.next_kitty_id;
        if kitty_id == KittyIndex::MAX {
            return Err(DispatchError::Module(Error::KittiesCountOverflow));
        }
        Ok(kitty_id)
    }

    /// The kitty stored under `kitty_id`; `InvalidKittyId` if there is none.
    pub fn get_kitty(&self, kitty_id: KittyIndex) -> (r: Result<Kitty, DispatchError>)
        ensures
            r == (match self@.kitties.get(kitty_id) {
                Some(k) => Ok(k),
                None => Err(DispatchError::Module(Error::InvalidKittyId)),
            }),
    {
        match self.kitties.get(&kitty_id) {
            Some(k) => Ok(*k),
            None => Err(DispatchError::Module(Error::InvalidKittyId)),
        }
    }

    /// A fresh DNA for `sender`, drawn from the runtime's random seed and the
    /// index of the current extrinsic.
    pub fn random_value<T: Config>(env: &T, sender: AccountId) -> (dna: [u8; 16])
        ensures
            dna@ == env_dna(*env, sender),
    {
        let (seed, block_number) = env.random_seed();
        let extrinsic_index = env.extrinsic_index();
        dna_from_seed(seed, block_number, sender, extrinsic_index)
    }

    /// Stores `kitty` under the next index, owned by `who`, and deposits
    /// `event`.
    fn store_new_kitty(&mut self, who: AccountId, kitty: Kitty, block_number: BlockNumber, event: Event)
        requires
            old(self)@.next_kitty_id < KittyIndex::MAX,
        ensures
            final(self)@ == old(self)@.add_kitty(who, kitty, block_number, event),
    {
        let kitty_id = self.next_kitty_id;
        self.kitties.insert(kitty_id, kitty);
        self.kitty_owner.insert(kitty_id, who);
        self.next_kitty_id = kitty_id + 1;
        self.deposit_event(block_number, event);
    }

    /// Records `event`, deposited during block `block_number`, unless that is
    /// block 0.
    fn deposit_event(&mut self, block_number: BlockNumber, event: Event)
        ensures
            final(self)@ == (PalletState { events: deposit(old(self)@.events, block_number, event), ..old(self)@ }),
    {
        if block_number != 0 {
            self.events.push(event);
        }
    }

    /// `create` by `who` once the runtime has answered: `reserved` is what
    /// reserving the funds returned and `dna` is the DNA drawn for the kitty.
    pub fn create_with(
        &mut self,
        who: AccountId,
        block_number: BlockNumber,
        reserved: DispatchResult,
        dna: [u8; 16],
    ) -> (r: DispatchResult)
        ensures
            create_transition(old(self)@, final(self)@, who, block_number, reserved is Ok, dna@, r),
    {
        let kitty_id = match self.get_next_id() {
            Ok(id) => id,
            Err(_) => return Err(DispatchError::Module(Error::InvalidKittyId)),
        };
        if reserved.is_err() {
            return Err(DispatchError::Module(Error::TokenNotEnough));
        }
        let kitty = Kitty(dna);
        self.store_new_kitty(who, kitty, block_number, Event::KittyCreated { who, kitty_id, kitty });
        Ok(())
    }

    /// Creates a kitty for the signer of `origin`: reserves the kitty reserve
    /// from its funds, draws a random DNA, stores the kitty under the next
    /// index owned by the signer and deposits `KittyCreated`.
    pub fn create<T: Config>(&mut self, env: &mut T, origin: Origin) -> (r: DispatchResult)
        ensures
            match signer_of(origin) {
                None => {
                    &&& r == Err::<(), DispatchError>(DispatchError::BadOrigin)
                    &&& final(self)@ == old(self)@
                    &&& *final(env) == *old(env)
                },
                Some(who) => {
                    let amount = old(env).spec_kitty_reserve();
                    &&& create_transition(
                        old(self)@,
                        final(self)@,
                        who,
                        old(env).spec_block_number(),
                        old(env).can_reserve(who, amount),
                        env_dna(*old(env), who),
                        r,
                    )
                    &&& old(self)@.next_kitty_id == KittyIndex::MAX ==> *final(env) == *old(env)
                    &&& r is Ok ==> reserved_from(*old(env), *final(env), who, amount)
                    &&& r is Err ==> same_context(*old(env), *final(env)) && balances_unchanged(*old(env), *final(env))
                },
            },
    {
        let who = ensure_signed(origin)?;
        if self.get_next_id().is_err() {
            return Err(DispatchError::Module(Error::InvalidKittyId));
        }
        let amount = env.kitty_reserve();
        let reserved = env.reserve(who, amount);
        if reserved.is_err() {
            return Err(DispatchError::Module(Error::TokenNotEnough));
        }
        let dna = Self::random_value(env, who);
        let block_number = env.block_number();
        self.create_with(who, block_number, reserved, dna)
    }

    /// The checks `breed` makes on the parents once funds are reserved.
    fn check_parents(&self, kitty_id_1: KittyIndex, kitty_id_2: KittyIndex) -> (r: Result<(Kitty, Kitty), DispatchError>)
        ensures
            match breed_check(self@, kitty_id_1, kitty_id_2) {
                Some(e) => r == Err::<(Kitty, Kitty), DispatchError>(DispatchError::Module(e)),
                None => r == Ok::<(Kitty, Kitty), DispatchError>(
                    (self@.kitties[kitty_id_1], self@.kitties[kitty_id_2]),
                ),
            },
    {
        if kitty_id_1 == kitty_id_2 {
            return Err(DispatchError::Module(Error::SameKittyId));
        }
        let kitty_1 = self.get_kitty(kitty_id_1)?;
        let kitty_2 = self.get_kitty(kitty_id_2)?;
        self.get_next_id()?;
        Ok((kitty_1, kitty_2))
    }

    /// `breed` by `who` once the runtime has answered: `reserved` is what
    /// reserving the funds returned and `selector` is the random selector.
    pub fn breed_with(
        &mut self,
        who: AccountId,
        block_number: BlockNumber,
        reserved: DispatchResult,
        kitty_id_1: KittyIndex,
        kitty_id_2: KittyIndex,
        selector: [u8; 16],
    ) -> (r: DispatchResult)
        ensures
            breed_transition(old(self)@, final(self)@, who, block_number, reserved is Ok, kitty_id_1, kitty_id_2, selector@, r),
    {
        if reserved.is_err() {
            return Err(DispatchError::Module(Error::TokenNotEnough));
        }
        let (kitty_1, kitty_2) = self.check_parents(kitty_id_1, kitty_id_2)?;
        let kitty_id = self.next_kitty_id;
        let new_kitty = breed_dna(&kitty_1, &kitty_2, &selector);
        self.store_new_kitty(who, new_kitty, block_number, Event::KittyBreed { who, kitty_id, kitty: new_kitty });
        Ok(())
    }

    /// Breeds a new kitty for the signer of `origin` from the two kitties
    /// stored under `kitty_id_1` and `kitty_id_2`: reserves the kitty reserve
    /// from its funds, mixes the parents' DNA with a random selector, stores
    /// the new kitty under the next index owned by the signer and deposits
    /// `KittyBreed`.
    pub fn breed<T: Config>(
        &mut self,
        env: &mut T,
        origin: Origin,
        kitty_id_1: KittyIndex,
        kitty_id_2: KittyIndex,
    ) -> (r: DispatchResult)
        ensures
            match signer_of(origin) {
                None => {
                    &&& r == Err::<(), DispatchError>(DispatchError::BadOrigin)
                    &&& final(self)@ == old(self)@
                    &&& *final(env) == *old(env)
                },
                Some(who) => {
                    let amount = old(env).spec_kitty_reserve();
                    &&& breed_transition(
                        old(self)@,
                        final(self)@,
                        who,
                        old(env).spec_block_number(),
                        old(env).can_reserve(who, amount),
                        kitty_id_1,
                        kitty_id_2,
                        env_dna(*old(env), who),
                        r,
                    )
                    &&& r is Ok ==> reserved_from(*old(env), *final(env), who, amount)
                    &&& r is Err ==> same_context(*old(env), *final(env)) && balances_unchanged(*old(env), *final(env))
                },
            },
    {
        let who = ensure_signed(origin)?;
        let amount = env.kitty_reserve();
        let reserved = env.reserve(who, amount);
        if reserved.is_err() {
            return Err(DispatchError::Module(Error::TokenNotEnough));
        }
        let ghost reserved_env = *env;
        if let Err(e) = self.check_parents(kitty_id_1, kitty_id_2) {
            // A failed call keeps nothing: give back what was just reserved.
            env.unreserve(who, amount);
            proof {
                lemma_reserve_then_release(*old(env), reserved_env, *env, who, amount);
            }
            return Err(e);
        }
        let selector = Self::random_value(env, who);
        let block_number = env.block_number();
        self.breed_with(who, block_number, reserved, kitty_id_1, kitty_id_2, selector)
    }

    /// Transfers the kitty stored under `kitty_id` from the signer of
    /// `origin`, who must own it, to `new_owner`: releases the kitty reserve
    /// of the signer, records the new owner and deposits `KittyTransfer`.
    pub fn transfer<T: Config>(
        &mut self,
        env: &mut T,
        origin: Origin,
        kitty_id: KittyIndex,
        new_owner: AccountId,
    ) -> (r: DispatchResult)
        ensures
            match signer_of(origin) {
                None => {
                    &&& r == Err::<(), DispatchError>(DispatchError::BadOrigin)
                    &&& final(self)@ == old(self)@
                    &&& *final(env) == *old(env)
                },
                Some(who) => {
                    &&& transfer_transition(old(self)@, final(self)@, who, old(env).spec_block_number(), kitty_id, new_owner, r)
                    &&& r is Ok ==> released_from(*old(env), *final(env), who, old(env).spec_kitty_reserve())
                    &&& r is Err ==> *final(env) == *old(env)
                },
            },
    {
        let prev_owner = ensure_signed(origin)?;
        let is_owner = match self.kitty_owner.get(&kitty_id) {
            Some(owner) => *owner == prev_owner,
            None => false,
        };
        if !is_owner {
            return Err(DispatchError::Module(Error::NotOwner));
        }
        let amount = env.kitty_reserve();
        env.unreserve(prev_owner, amount);
        self.kitty_owner.insert(kitty_id, new_owner);
        let block_number = env.block_number();
        self.deposit_event(block_number, Event::KittyTransfer { who: prev_owner, recipient: new_owner, kitty_id });
        Ok(())
    }
}

} // verus!
