use pallet_kitties::dna::{breed_dna, dna_from_seed};
use pallet_kitties::pallet::{Config, Pallet};
use pallet_kitties::runtime::SimpleRuntime;
use pallet_kitties::types::{ensure_signed, DispatchError, DispatchResult, Error, Event, Kitty, Origin};

/// The runtime of the tests: accounts 1, 2 and 3 hold 10_000 each, and a
/// kitty reserves 1_000.
fn test_runtime() -> SimpleRuntime {
    let mut runtime = SimpleRuntime::new(1_000);
    runtime.endow(1, 10_000);
    runtime.endow(2, 10_000);
    runtime.endow(3, 10_000);
    runtime
}

fn module(e: Error) -> DispatchResult {
    Err(DispatchError::Module(e))
}

const DNA_SEED0_BLOCK1_WHO1: [u8; 16] =
    [250, 147, 40, 122, 202, 228, 210, 154, 251, 23, 196, 66, 49, 235, 123, 53];

#[test]
fn create_kitty_works() {
    let mut runtime = test_runtime();
    let mut kitties = Pallet::new();
    runtime.block_number = 1;
    assert_eq!(kitties.create(&mut runtime, Origin::Signed(1)), Ok(()));
    assert_eq!(kitties.next_kitty_id(), 1);
    assert_eq!(kitties.kitty_owner(0), Some(1));
}

#[test]
fn create_stores_random_kitty_and_event() {
    let mut runtime = test_runtime();
    let mut kitties = Pallet::new();
    runtime.block_number = 1;
    assert_eq!(kitties.create(&mut runtime, Origin::Signed(1)), Ok(()));
    let kitty = Kitty(DNA_SEED0_BLOCK1_WHO1);
    assert_eq!(kitties.kitties(0), Some(kitty));
    assert_eq!(kitties.get_kitty(0), Ok(kitty));
    assert_eq!(kitties.events(), &vec![Event::KittyCreated { who: 1, kitty_id: 0, kitty }]);
    assert_eq!(runtime.reserved_balance_of(1), 1_000);
}

#[test]
fn create_takes_consecutive_indices() {
    let mut runtime = test_runtime();
    let mut kitties = Pallet::new();
    assert_eq!(kitties.create(&mut runtime, Origin::Signed(1)), Ok(()));
    assert_eq!(kitties.create(&mut runtime, Origin::Signed(2)), Ok(()));
    assert_eq!(kitties.create(&mut runtime, Origin::Signed(1)), Ok(()));
    assert_eq!(kitties.next_kitty_id(), 3);
    assert_eq!(kitties.kitty_owner(0), Some(1));
    assert_eq!(kitties.kitty_owner(1), Some(2));
    assert_eq!(kitties.kitty_owner(2), Some(1));
    assert_eq!(kitties.kitty_owner(3), None);
    assert_eq!(kitties.kitties(3), None);
    // during block 0 (genesis) no event is recorded
    assert!(kitties.events().is_empty());
    runtime.block_number = 1;
    assert_eq!(kitties.create(&mut runtime, Origin::Signed(3)), Ok(()));
    assert_eq!(kitties.next_kitty_id(), 4);
    assert_eq!(kitties.events().len(), 1);
}

#[test]
fn create_needs_signed_origin() {
    let mut runtime = test_runtime();
    let mut kitties = Pallet::new();
    assert_eq!(kitties.create(&mut runtime, Origin::Unsigned), Err(DispatchError::BadOrigin));
    assert_eq!(kitties.create(&mut runtime, Origin::Root), Err(DispatchError::BadOrigin));
    assert_eq!(kitties.next_kitty_id(), 0);
    assert!(kitties.events().is_empty());
}

#[test]
fn create_fails_without_funds() {
    let mut runtime = test_runtime();
    let mut kitties = Pallet::new();
    assert_eq!(kitties.create(&mut runtime, Origin::Signed(9)), module(Error::TokenNotEnough));
    assert_eq!(kitties.next_kitty_id(), 0);
    assert_eq!(kitties.kitty_owner(0), None);
    assert!(kitties.events().is_empty());
}

#[test]
fn create_fails_when_indices_are_used_up() {
    let mut runtime = test_runtime();
    let mut kitties = Pallet::new();
    kitties.put_next_kitty_id(u32::MAX);
    assert_eq!(kitties.get_next_id(), Err(DispatchError::Module(Error::KittiesCountOverflow)));
    assert_eq!(kitties.create(&mut runtime, Origin::Signed(1)), module(Error::InvalidKittyId));
    assert_eq!(runtime.reserved_balance_of(1), 0);
    assert_eq!(kitties.next_kitty_id(), u32::MAX);
}

#[test]
fn create_with_follows_reservation() {
    let mut kitties = Pallet::new();
    assert_eq!(kitties.create_with(5, 1, Err(DispatchError::Other), [9u8; 16]), module(Error::TokenNotEnough));
    assert_eq!(kitties.create_with(5, 1, Ok(()), [9u8; 16]), Ok(()));
    assert_eq!(kitties.kitties(0), Some(Kitty([9u8; 16])));
    assert_eq!(kitties.kitty_owner(0), Some(5));
    assert_eq!(kitties.next_kitty_id(), 1);
}

#[test]
fn dna_is_blake2_of_the_encoded_seed() {
    assert_eq!(dna_from_seed([0u8; 32], 1, 1, None), DNA_SEED0_BLOCK1_WHO1);
    assert_eq!(
        dna_from_seed([0u8; 32], 1, 1, Some(0)),
        [47, 29, 77, 0, 174, 39, 210, 164, 191, 166, 69, 154, 121, 134, 56, 114]
    );
    assert_eq!(
        dna_from_seed([7u8; 32], 42, 2, Some(3)),
        [134, 12, 138, 95, 11, 100, 166, 228, 125, 212, 33, 150, 98, 81, 59, 144]
    );
}

#[test]
fn random_value_uses_runtime_randomness() {
    let mut runtime = test_runtime();
    runtime.seed = [7u8; 32];
    runtime.block_number = 42;
    runtime.extrinsic_index = Some(3);
    assert_eq!(Pallet::random_value(&runtime, 2), dna_from_seed([7u8; 32], 42, 2, Some(3)));
}

#[test]
fn breed_dna_mixes_parents() {
    let a = Kitty([0b1010_1010u8; 16]);
    let b = Kitty([0b0101_0101u8; 16]);
    let mut selector = [0u8; 16];
    selector[0] = 0xff;
    selector[1] = 0x0f;
    let child = breed_dna(&a, &b, &selector);
    assert_eq!(child.0[0], 0b1010_1010);
    assert_eq!(child.0[1], 0b0101_1010);
    assert_eq!(child.0[2], 0b0101_0101);
    assert_eq!(breed_dna(&a, &a, &selector), a);
}

#[test]
fn breed_works() {
    let mut runtime = test_runtime();
    let mut kitties = Pallet::new();
    runtime.block_number = 1;
    assert_eq!(kitties.create(&mut runtime, Origin::Signed(1)), Ok(()));
    runtime.seed = [7u8; 32];
    assert_eq!(kitties.create(&mut runtime, Origin::Signed(1)), Ok(()));
    let k0 = kitties.kitties(0).unwrap();
    let k1 = kitties.kitties(1).unwrap();
    runtime.seed = [3u8; 32];
    assert_eq!(kitties.breed(&mut runtime, Origin::Signed(2), 0, 1), Ok(()));
    let selector = dna_from_seed([3u8; 32], 1, 2, None);
    let child = breed_dna(&k0, &k1, &selector);
    assert_eq!(kitties.kitties(2), Some(child));
    assert_eq!(kitties.kitty_owner(2), Some(2));
    assert_eq!(kitties.next_kitty_id(), 3);
    assert_eq!(kitties.events()[2], Event::KittyBreed { who: 2, kitty_id: 2, kitty: child });
    assert_eq!(runtime.reserved_balance_of(2), 1_000);
}

#[test]
fn breed_errors() {
    let mut runtime = test_runtime();
    runtime.block_number = 1;
    let mut kitties = Pallet::new();
    assert_eq!(kitties.create(&mut runtime, Origin::Signed(1)), Ok(()));
    assert_eq!(kitties.breed(&mut runtime, Origin::Unsigned, 0, 1), Err(DispatchError::BadOrigin));
    assert_eq!(kitties.breed(&mut runtime, Origin::Signed(9), 0, 0), module(Error::TokenNotEnough));
    assert_eq!(kitties.breed(&mut runtime, Origin::Signed(1), 0, 0), module(Error::SameKittyId));
    assert_eq!(kitties.breed(&mut runtime, Origin::Signed(1), 0, 1), module(Error::InvalidKittyId));
    assert_eq!(kitties.breed(&mut runtime, Origin::Signed(1), 5, 0), module(Error::InvalidKittyId));
    assert_eq!(kitties.next_kitty_id(), 1);
    assert_eq!(kitties.events().len(), 1);
    // the reservation made before a failed check is given back
    assert_eq!(runtime.reserved_balance_of(1), 1_000);
    assert_eq!(runtime.free_balance_of(1), 9_000);
}

#[test]
fn breed_fails_when_indices_are_used_up() {
    let mut kitties = Pallet::new();
    assert_eq!(kitties.create_with(1, 1, Ok(()), [1u8; 16]), Ok(()));
    assert_eq!(kitties.create_with(1, 1, Ok(()), [2u8; 16]), Ok(()));
    kitties.put_next_kitty_id(u32::MAX);
    assert_eq!(kitties.breed_with(1, 1, Ok(()), 0, 1, [0u8; 16]), module(Error::KittiesCountOverflow));
    assert_eq!(kitties.breed_with(1, 1, Err(DispatchError::Other), 0, 1, [0u8; 16]), module(Error::TokenNotEnough));
    kitties.put_next_kitty_id(2);
    assert_eq!(kitties.breed_with(1, 1, Ok(()), 0, 1, [0u8; 16]), Ok(()));
    assert_eq!(kitties.kitties(2), Some(Kitty([2u8; 16])));
}

#[test]
fn transfer_works() {
    let mut runtime = test_runtime();
    runtime.block_number = 1;
    let mut kitties = Pallet::new();
    assert_eq!(kitties.create(&mut runtime, Origin::Signed(1)), Ok(()));
    assert_eq!(runtime.reserved_balance_of(1), 1_000);
    assert_eq!(kitties.transfer(&mut runtime, Origin::Signed(1), 0, 2), Ok(()));
    assert_eq!(kitties.kitty_owner(0), Some(2));
    assert_eq!(runtime.reserved_balance_of(1), 0);
    assert_eq!(
        kitties.events()[1],
        Event::KittyTransfer { who: 1, recipient: 2, kitty_id: 0 }
    );
}

#[test]
fn transfer_needs_owner() {
    let mut runtime = test_runtime();
    runtime.block_number = 1;
    let mut kitties = Pallet::new();
    assert_eq!(kitties.create(&mut runtime, Origin::Signed(1)), Ok(()));
    assert_eq!(kitties.transfer(&mut runtime, Origin::Signed(2), 0, 3), module(Error::NotOwner));
    assert_eq!(kitties.transfer(&mut runtime, Origin::Signed(1), 7, 3), module(Error::NotOwner));
    assert_eq!(kitties.transfer(&mut runtime, Origin::Root, 0, 3), Err(DispatchError::BadOrigin));
    assert_eq!(kitties.kitty_owner(0), Some(1));
    assert_eq!(kitties.events().len(), 1);
}

#[test]
fn transfer_round_trip_restores_owner() {
    let mut runtime = test_runtime();
    let mut kitties = Pallet::new();
    assert_eq!(kitties.create(&mut runtime, Origin::Signed(1)), Ok(()));
    assert_eq!(kitties.transfer(&mut runtime, Origin::Signed(1), 0, 2), Ok(()));
    assert_eq!(kitties.transfer(&mut runtime, Origin::Signed(2), 0, 1), Ok(()));
    assert_eq!(kitties.kitty_owner(0), Some(1));
    assert_eq!(kitties.next_kitty_id(), 1);
}

#[test]
fn ensure_signed_works() {
    assert_eq!(ensure_signed(Origin::Signed(4)), Ok(4));
    assert_eq!(ensure_signed(Origin::Root), Err(DispatchError::BadOrigin));
    assert_eq!(ensure_signed(Origin::Unsigned), Err(DispatchError::BadOrigin));
}

#[test]
fn kitty_default_is_zero() {
    assert_eq!(Kitty::default(), Kitty([0u8; 16]));
}

#[test]
fn runtime_reserves_and_releases() {
    let mut runtime = test_runtime();
    assert_eq!(runtime.reserve(1, 4_000), Ok(()));
    assert_eq!(runtime.free_balance_of(1), 6_000);
    assert_eq!(runtime.reserved_balance_of(1), 4_000);
    assert_eq!(runtime.reserve(1, 6_001), Err(DispatchError::Other));
    assert_eq!(runtime.reserved_balance_of(1), 4_000);
    assert_eq!(runtime.unreserve(1, 1_000), 0);
    assert_eq!(runtime.reserved_balance_of(1), 3_000);
    assert_eq!(runtime.unreserve(1, 5_000), 2_000);
    assert_eq!(runtime.reserved_balance_of(1), 0);
    assert_eq!(runtime.free_balance_of(1), 10_000);
    assert_eq!(runtime.free_balance_of(2), 10_000);
    assert_eq!(runtime.kitty_reserve(), 1_000);
}

#[test]
fn transfer_to_self_releases_reserve() {
    let mut runtime = test_runtime();
    let mut kitties = Pallet::new();
    assert_eq!(kitties.create(&mut runtime, Origin::Signed(1)), Ok(()));
    assert_eq!(kitties.transfer(&mut runtime, Origin::Signed(1), 0, 1), Ok(()));
    assert_eq!(kitties.kitty_owner(0), Some(1));
    assert_eq!(runtime.reserved_balance_of(1), 0);
    assert_eq!(runtime.free_balance_of(1), 10_000);
}
