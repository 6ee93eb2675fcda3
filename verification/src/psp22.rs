//! The pool's own claim-token ledger.
//!
//! The pool issues claim tokens against deposits and burns them on
//! redemption and seizure.  This ledger holds the per-account claim-token
//! balances and the total supply; a missing entry stands for a zero
//! balance.

use std::collections::HashMap;

use vstd::prelude::*;

use crate::types::{AccountId, Balance};

verus! {

broadcast use vstd::std_specs::hash::group_hash_axioms;

/// A claim-token operation that could not be applied.
#[derive(Clone, Copy, Debug, PartialEq, Eq, Structural)]
pub enum PSP22Error {
    InsufficientBalance,
    InsufficientAllowance,
    ZeroRecipientAddress,
    ZeroSenderAddress,
}

/// Claim-token balances and total supply.
pub struct Data {
    pub balances: HashMap<AccountId, Balance>,
    pub total_supply: Balance,
}

impl Data {
    /// The claim-token balance of `owner`; accounts without an entry hold
    /// nothing.
    pub open spec fn balance_spec(self, owner: AccountId) -> nat {
        if self.balances@.contains_key(owner) {
            self.balances@[owner] as nat
        } else {
            0
        }
    }

    /// An empty ledger: no balances, no supply.
    pub fn new() -> (r: Data)
        ensures
            r.total_supply == 0,
            r.balances@ == Map::<AccountId, Balance>::empty(),
            forall|a: AccountId| r.balance_spec(a) == 0,
    {
        let d = Data { balances: HashMap::new(), total_supply: 0 };
        proof {
            assert(forall|a: AccountId| !d.balances@.contains_key(a));
        }
        d
    }

    pub fn balance_of(&self, owner: AccountId) -> (r: Balance)
        ensures
            r as nat == self.balance_spec(owner),
    {
        match self.balances.get(&owner) {
            Some(b) => *b,
            None => 0,
        }
    }

    /// Whether `amount` claim tokens can be credited to `to` without
    /// leaving the native balance range.
    pub fn can_mint_to(&self, to: AccountId, amount: Balance) -> (r: bool)
        ensures
            r == (self.balance_spec(to) + amount <= u128::MAX && self.total_supply + amount
                <= u128::MAX),
    {
        let b = self.balance_of(to);
        b <= u128::MAX - amount && self.total_supply <= u128::MAX - amount
    }

    /// Credits `amount` claim tokens to `to` and grows the supply.
    pub fn mint_to(&mut self, to: AccountId, amount: Balance)
        requires
            old(self).balance_spec(to) + amount <= u128::MAX,
            old(self).total_supply + amount <= u128::MAX,
        ensures
            final(self).balances@ == old(self).balances@.insert(
                to,
                (old(self).balance_spec(to) + amount) as u128,
            ),
            final(self).total_supply == old(self).total_supply + amount,
            final(self).balance_spec(to) == old(self).balance_spec(to) + amount,
            forall|a: AccountId|
                a != to ==> final(self).balance_spec(a) == old(self).balance_spec(a),
    {
        let b = self.balance_of(to);
        self.balances.insert(to, b + amount);
        self.total_supply = self.total_supply + amount;
    }

    /// Whether `amount` claim tokens can be burned from `from`.
    pub fn can_burn_from(&self, from: AccountId, amount: Balance) -> (r: bool)
        ensures
            r == (self.balance_spec(from) >= amount && self.total_supply >= amount),
    {
        let b = self.balance_of(from);
        b >= amount && self.total_supply >= amount
    }

    /// Burns `amount` claim tokens held by `from` and shrinks the supply.
    pub fn burn_from(&mut self, from: AccountId, amount: Balance)
        requires
            old(self).balance_spec(from) >= amount,
            old(self).total_supply >= amount,
        ensures
            final(self).balances@ == old(self).balances@.insert(
                from,
                (old(self).balance_spec(from) - amount) as u128,
            ),
            final(self).total_supply == old(self).total_supply - amount,
            final(self).balance_spec(from) == old(self).balance_spec(from) - amount,
            forall|a: AccountId|
                a != from ==> final(self).balance_spec(a) == old(self).balance_spec(a),
    {
        let b = self.balance_of(from);
        self.balances.insert(from, b - amount);
        self.total_supply = self.total_supply - amount;
    }
}

} // verus!
