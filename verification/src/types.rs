use vstd::prelude::*;

verus! {

/// The account identifier of the runtime this pallet is built for.
pub type AccountId = u64;

/// The index under which a kitty is stored.
pub type KittyIndex = u32;

/// The balance type of the runtime's currency.
pub type Balance = u128;

/// The block number type of the runtime.
pub type BlockNumber = u64;

/// A kitty: sixteen bytes of DNA.
#[derive(Clone, Copy, Debug, PartialEq, Eq)]
pub struct Kitty(pub [u8; 16]);

impl Default for Kitty {
    fn default() -> (k: Kitty)
        ensures
            forall|i: int| 0 <= i < 16 ==> k.0[i] == 0u8,
    {
        Kitty([0u8; 16])
    }
}

/// Where a dispatched call comes from.
#[derive(Clone, Copy, Debug, PartialEq, Eq)]
pub enum Origin {
    /// The root origin.
    Root,
    /// A call signed by an account.
    Signed(AccountId),
    /// An unsigned call.
    Unsigned,
}

/// The errors of this pallet.
#[derive(Clone, Copy, Debug, PartialEq, Eq)]
pub enum Error {
    NoneValue,
    InvalidKittyId,
    NotOwner,
    SameKittyId,
    KittiesCountOverflow,
    TokenNotEnough,
    ExceedMaxKittyOwned,
    NoBuySelf,
    NotForSale,
}

/// Why a dispatched call failed.
#[derive(Clone, Copy, Debug, PartialEq, Eq)]
pub enum DispatchError {
    /// The origin was not a signed account.
    BadOrigin,
    /// An error of this pallet.
    Module(Error),
    /// An error reported by another part of the runtime (its currency).
    Other,
}

/// The result of a dispatched call.
pub type DispatchResult = Result<(), DispatchError>;

/// The events this pallet deposits.
#[derive(Clone, Copy, Debug, PartialEq, Eq)]
pub enum Event {
    KittyCreated { who: AccountId, kitty_id: KittyIndex, kitty: Kitty },
    KittyBreed { who: AccountId, kitty_id: KittyIndex, kitty: Kitty },
    KittyTransfer { who: AccountId, recipient: AccountId, kitty_id: KittyIndex },
    KittyInSell(AccountId, KittyIndex, Option<Balance>),
}

/// The account that signed `origin`, if it is signed.
pub open spec fn signer_of(origin: Origin) -> Option<AccountId> {
    match origin {
        Origin::Signed(who) => Some(who),
        _ => None,
    }
}

/// The signer of a signed origin; `BadOrigin` for any other origin.
pub fn ensure_signed(origin: Origin) -> (r: Result<AccountId, DispatchError>)
    ensures
        r == (match signer_of(origin) {
            Some(who) => Ok(who),
            None => Err(DispatchError::BadOrigin),
        }),
{
    match origin {
        Origin::Signed(who) => Ok(who),
        _ => Err(DispatchError::BadOrigin),
    }
}

} // verus!
