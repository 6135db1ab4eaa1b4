//! A small runtime for the pallet: a fixed random seed that its owner sets,
//! and a ledger of free and reserved balances per account.
use std::collections::HashMap;
use vstd::prelude::*;
use crate::pallet::Config;
use crate::types::{AccountId, Balance, BlockNumber, DispatchError, DispatchResult};

verus! {

broadcast use vstd::std_specs::hash::group_hash_axioms;

/// A runtime with a settable random seed and a ledger that holds, for each
/// account, its total balance and the part of it that is reserved.
pub struct SimpleRuntime {
    /// The random seed handed out.
    pub seed: [u8; 32],
    /// The number of the block being executed, which the seed belongs to.
    pub block_number: BlockNumber,
    /// The index of the extrinsic being executed.
    pub extrinsic_index: Option<u32>,
    /// The amount reserved for each kitty.
    pub kitty_reserve: Balance,
    /// The bound on the kitties one account may own.
    pub max_length: u32,
    /// The (total, reserved) balance of each account; an account not in it
    /// holds nothing.
    pub accounts: HashMap<AccountId, (Balance, Balance)>,
}

impl SimpleRuntime {
    /// The (total, reserved) balance of `who`.
    pub open spec fn account(&self, who: AccountId) -> (Balance, Balance) {
        if self.accounts@.contains_key(who) {
            self.accounts@[who]
        } else {
            (0, 0)
        }
    }

    /// A runtime with no accounts, a zero seed at block 0 and no extrinsic.
    pub fn new(kitty_reserve: Balance) -> (rt: SimpleRuntime)
        ensures
            rt.seed@ == Seq::new(32, |i: int| 0u8),
            rt.block_number == 0,
            rt.extrinsic_index is None,
            rt.kitty_reserve == kitty_reserve,
            forall|x: AccountId|
                #![trigger rt.free_balance(x)]
                #![trigger rt.reserved_balance(x)]
                rt.free_balance(x) == 0 && rt.reserved_balance(x) == 0,
        {
            let rt = SimpleRuntime {
                seed: [0u8; 32],
                block_number: 0,
                extrinsic_index: None,
                kitty_reserve,
                max_length: 16,
                accounts: HashMap::new(),
            };
            assert(rt.seed@ =~= Seq::new(32, |i: int| 0u8));
            rt
        }
    
        fn get_account(&self, who: AccountId) -> (a: (Balance, Balance))
            ensures
                a == self.account(who),
        {
            match self.accounts.get(&who) {
                Some(a) => *a,
                None => (0, 0),
            }
        }
    
        /// Gives `who` a fresh account holding `amount`, all of it free.
        pub fn endow(&mut self, who: AccountId, amount: Balance)
            ensures
                final(self).free_balance(who) == amount,
                final(self).reserved_balance(who) == 0,
                final(self).seed == old(self).seed,
                final(self).block_number == old(self).block_number,
                final(self).extrinsic_index == old(self).extrinsic_index,
                final(self).kitty_reserve == old(self).kitty_reserve,
                final(self).max_length == old(self).max_length,
                forall|x: AccountId|
                    #![trigger final(self).free_balance(x)]
                    #![trigger final(self).reserved_balance(x)]
                    x != who ==> {
                    &&& final(self).free_balance(x) == old(self).free_balance(x)
                    &&& final(self).reserved_balance(x) == old(self).reserved_balance(x)
                },
    {
        self.accounts.insert(who, (amount, 0));
    }

    /// The free balance of `who`.
    pub fn free_balance_of(&self, who: AccountId) -> (b: Balance)
        ensures
            b == (if self.free_balance(who) >= 0 { self.free_balance(who) } else { 0 }),
    {
        let (total, reserved) = self.get_account(who);
        if reserved <= total { total - reserved } else { 0 }
    }

    /// The reserved balance of `who`.
    pub fn reserved_balance_of(&self, who: AccountId) -> (b: Balance)
        ensures
            b == self.reserved_balance(who),
    {
        self.get_account(who).1
    }
}

impl Config for SimpleRuntime {
    open spec fn spec_random_seed(&self) -> ([u8; 32], BlockNumber) {
        (self.seed, self.block_number)
    }

    open spec fn spec_extrinsic_index(&self) -> Option<u32> {
        self.extrinsic_index
    }

    open spec fn spec_kitty_reserve(&self) -> Balance {
        self.kitty_reserve
    }

    open spec fn spec_block_number(&self) -> BlockNumber {
        self.block_number
    }

    open spec fn free_balance(&self, who: AccountId) -> int {
        self.account(who).0 - self.account(who).1
    }

    open spec fn reserved_balance(&self, who: AccountId) -> nat {
        self.account(who).1 as nat
    }

    open spec fn can_reserve(&self, who: AccountId, amount: Balance) -> bool {
        self.account(who).1 <= self.account(who).0 && amount <= self.account(who).0 - self.account(who).1
    }

    fn random_seed(&self) -> (seed: ([u8; 32], BlockNumber)) {
        (self.seed, self.block_number)
    }

    fn extrinsic_index(&self) -> (index: Option<u32>) {
        self.extrinsic_index
    }

    fn kitty_reserve(&self) -> (amount: Balance) {
        self.kitty_reserve
    }

    fn block_number(&self) -> (n: BlockNumber) {
        self.block_number
    }

    fn max_length(&self) -> u32 {
        self.max_length
    }

    fn reserve(&mut self, who: AccountId, amount: Balance) -> (r: DispatchResult) {
        let (total, reserved) = self.get_account(who);
        if reserved <= total && amount <= total - reserved {
            self.accounts.insert(who, (total, reserved + amount));
            Ok(())
        } else {
            Err(DispatchError::Other)
        }
    }

    fn unreserve(&mut self, who: AccountId, amount: Balance) -> (left: Balance) {
        let (total, reserved) = self.get_account(who);
        let released = if amount < reserved { amount } else { reserved };
        self.accounts.insert(who, (total, reserved - released));
        amount - released
    }
}

} // verus!
