//! The risk/policy authority.
//!
//! The controller tracks which pools (markets) exist and a per-market
//! pause flag for minting and for borrowing.  Every state-changing pool
//! operation asks it for permission first; any denial is a hard stop for
//! the triggering operation.

use std::collections::HashMap;

use vstd::prelude::*;

use crate::types::{AccountId, Balance};

verus! {

broadcast use vstd::std_specs::hash::group_hash_axioms;

/// A denial reason returned by the policy authority.
#[derive(Clone, Copy, Debug, PartialEq, Eq, Structural)]
pub enum Error {
    MarketNotListed,
    MintIsPaused,
    BorrowIsPaused,
}

/// The authority's persistent state: the listed markets and their pause
/// flags.
pub struct Data {
    pub markets: Vec<AccountId>,
    pub mint_guardian_paused: HashMap<AccountId, bool>,
    pub borrow_guardian_paused: HashMap<AccountId, bool>,
}

impl Data {
    /// Whether `pool` is a listed market.
    pub open spec fn listed(self, pool: AccountId) -> bool {
        self.markets@.contains(pool)
    }

    /// The listed markets are distinct, and exactly they carry pause
    /// flags.
    pub open spec fn wf(self) -> bool {
        &&& forall|i: int, j: int|
            0 <= i < j < self.markets@.len() ==> self.markets@[i] != self.markets@[j]
        &&& forall|p: AccountId|
            #[trigger] self.mint_guardian_paused@.contains_key(p) <==> self.markets@.contains(p)
        &&& forall|p: AccountId|
            #[trigger] self.borrow_guardian_paused@.contains_key(p) <==> self.markets@.contains(p)
    }

    /// A fresh authority with no listed market.
    pub fn new() -> (r: Data)
        ensures
            r.wf(),
            r.markets@ == Seq::<AccountId>::empty(),
            r.mint_guardian_paused@ == Map::<AccountId, bool>::empty(),
            r.borrow_guardian_paused@ == Map::<AccountId, bool>::empty(),
    {
        let d = Data {
            markets: Vec::new(),
            mint_guardian_paused: HashMap::new(),
            borrow_guardian_paused: HashMap::new(),
        };
        proof {
            assert(forall|p: AccountId| !d.markets@.contains(p));
        }
        d
    }

    fn is_listed(&self, pool: AccountId) -> (r: bool)
        ensures
            r == self.listed(pool),
    {
        let mut i: usize = 0;
        while i < self.markets.len()
            invariant
                i <= self.markets@.len(),
                forall|k: int| 0 <= k < i ==> self.markets@[k] != pool,
            decreases self.markets@.len() - i,
        {
            if self.markets[i] == pool {
                proof {
                    assert(self.markets@[i as int] == pool);
                }
                return true;
            }
            i += 1;
        }
        false
    }

    /// Registers `pool` as a market with both pause flags cleared; a
    /// pool that is already listed is left as it is.
    pub fn support_market(&mut self, pool: AccountId) -> (r: Result<(), Error>)
        requires
            old(self).wf(),
        ensures
            final(self).wf(),
            r is Ok,
            old(self).listed(pool) ==> *final(self) == *old(self),
            !old(self).listed(pool) ==> {
                &&& final(self).markets@ == old(self).markets@.push(pool)
                &&& final(self).mint_guardian_paused@ == old(self).mint_guardian_paused@.insert(
                    pool,
                    false,
                )
                &&& final(self).borrow_guardian_paused@ == old(self).borrow_guardian_paused@.insert(pool, false)
            },
    {
        if self.is_listed(pool) {
            return Ok(());
        }
        self.markets.push(pool);
        self.mint_guardian_paused.insert(pool, false);
        self.borrow_guardian_paused.insert(pool, false);
        proof {
            assert forall|p: AccountId| self.markets@.contains(p) implies (
            old(self).markets@.contains(p) || p == pool) by {
                let k = choose|k: int| 0 <= k < self.markets@.len() && self.markets@[k] == p;
                if k < old(self).markets@.len() {
                    assert(old(self).markets@[k] == p);
                }
            }
            assert forall|p: AccountId| old(self).markets@.contains(p) implies self
                .markets@.contains(p) by {
                let k = choose|k: int|
                    0 <= k < old(self).markets@.len() && old(self).markets@[k] == p;
                assert(self.markets@[k] == p);
            }
            assert(self.markets@[self.markets@.len() - 1] == pool);
            assert(self.markets@.contains(pool));
        }
        Ok(())
    }

    /// The listed markets, in the order they were registered.
    pub fn markets(&self) -> (r: Vec<AccountId>)
        ensures
            r@ == self.markets@,
    {
        let mut out: Vec<AccountId> = Vec::new();
        let mut i: usize = 0;
        while i < self.markets.len()
            invariant
                i <= self.markets@.len(),
                out@ == self.markets@.subrange(0, i as int),
            decreases self.markets@.len() - i,
        {
            out.push(self.markets[i]);
            i += 1;
        }
        proof {
            assert(out@ =~= self.markets@);
        }
        out
    }

    /// The mint pause flag of `pool`, or `None` where it is not listed.
    pub fn mint_guardian_paused(&self, pool: AccountId) -> (r: Option<bool>)
        ensures
            r == (if self.mint_guardian_paused@.contains_key(pool) {
                Some(self.mint_guardian_paused@[pool])
            } else {
                None::<bool>
            }),
    {
        match self.mint_guardian_paused.get(&pool) {
            Some(b) => Some(*b),
            None => None,
        }
    }

    /// The borrow pause flag of `pool`, or `None` where it is not
    /// listed.
    pub fn borrow_guardian_paused(&self, pool: AccountId) -> (r: Option<bool>)
        ensures
            r == (if self.borrow_guardian_paused@.contains_key(pool) {
                Some(self.borrow_guardian_paused@[pool])
            } else {
                None::<bool>
            }),
    {
        match self.borrow_guardian_paused.get(&pool) {
            Some(b) => Some(*b),
            None => None,
        }
    }

    /// Sets the mint pause flag of a listed market.
    pub fn set_mint_guardian_paused(&mut self, pool: AccountId, paused: bool) -> (r: Result<
        (),
        Error,
    >)
        requires
            old(self).wf(),
        ensures
            final(self).wf(),
            !old(self).listed(pool) ==> r == Err::<(), Error>(Error::MarketNotListed) && *final(self) == *old(self),
            old(self).listed(pool) ==> r is Ok && final(self).markets@ == old(self).markets@
                && final(self).mint_guardian_paused@ == old(self).mint_guardian_paused@.insert(
                pool,
                paused,
            ) && final(self).borrow_guardian_paused@ == old(self).borrow_guardian_paused@,
    {
        if !self.is_listed(pool) {
            return Err(Error::MarketNotListed);
        }
        self.mint_guardian_paused.insert(pool, paused);
        Ok(())
    }

    /// Sets the borrow pause flag of a listed market.
    pub fn set_borrow_guardian_paused(&mut self, pool: AccountId, paused: bool) -> (r: Result<
        (),
        Error,
    >)
        requires
            old(self).wf(),
        ensures
            final(self).wf(),
            !old(self).listed(pool) ==> r == Err::<(), Error>(Error::MarketNotListed) && *final(self) == *old(self),
            old(self).listed(pool) ==> r is Ok && final(self).markets@ == old(self).markets@
                && final(self).borrow_guardian_paused@ == old(self).borrow_guardian_paused@.insert(
                pool,
                paused,
            ) && final(self).mint_guardian_paused@ == old(self).mint_guardian_paused@,
    {
        if !self.is_listed(pool) {
            return Err(Error::MarketNotListed);
        }
        self.borrow_guardian_paused.insert(pool, paused);
        Ok(())
    }

    /// Whether minting is allowed: the market carries a mint pause flag
    /// that is cleared.  An unlisted market counts as paused.
    pub open spec fn mint_allowed_spec(self, pool: AccountId) -> Result<(), Error> {
        if self.mint_guardian_paused@.contains_key(pool) && self.mint_guardian_paused@[pool]
            == false {
            Ok(())
        } else {
            Err(Error::MintIsPaused)
        }
    }

    pub fn mint_allowed(&self, pool: AccountId, _minter: AccountId, _amount: Balance) -> (r:
        Result<(), Error>)
        ensures
            r == self.mint_allowed_spec(pool),
    {
        match self.mint_guardian_paused.get(&pool) {
            Some(b) => if *b {
                Err(Error::MintIsPaused)
            } else {
                Ok(())
            },
            None => Err(Error::MintIsPaused),
        }
    }

    /// Whether redeeming is allowed: the market must be listed.
    pub open spec fn redeem_allowed_spec(self, pool: AccountId) -> Result<(), Error> {
        if self.listed(pool) {
            Ok(())
        } else {
            Err(Error::MarketNotListed)
        }
    }

    pub fn redeem_allowed(&self, pool: AccountId, _redeemer: AccountId, _amount: Balance) -> (r:
        Result<(), Error>)
        ensures
            r == self.redeem_allowed_spec(pool),
    {
        if self.is_listed(pool) {
            Ok(())
        } else {
            Err(Error::MarketNotListed)
        }
    }

    /// Whether borrowing is allowed: the market carries a borrow pause
    /// flag that is cleared.  An unlisted market counts as paused.
    pub open spec fn borrow_allowed_spec(self, pool: AccountId) -> Result<(), Error> {
        if self.borrow_guardian_paused@.contains_key(pool) && self.borrow_guardian_paused@[pool]
            == false {
            Ok(())
        } else {
            Err(Error::BorrowIsPaused)
        }
    }

    pub fn borrow_allowed(&self, pool: AccountId, _borrower: AccountId, _amount: Balance) -> (r:
        Result<(), Error>)
        ensures
            r == self.borrow_allowed_spec(pool),
    {
        match self.borrow_guardian_paused.get(&pool) {
            Some(b) => if *b {
                Err(Error::BorrowIsPaused)
            } else {
                Ok(())
            },
            None => Err(Error::BorrowIsPaused),
        }
    }

    /// Whether repaying is allowed: the market must be listed.
    pub open spec fn repay_borrow_allowed_spec(self, pool: AccountId) -> Result<(), Error> {
        if self.listed(pool) {
            Ok(())
        } else {
            Err(Error::MarketNotListed)
        }
    }

    pub fn repay_borrow_allowed(
        &self,
        pool: AccountId,
        _payer: AccountId,
        _borrower: AccountId,
        _amount: Balance,
    ) -> (r: Result<(), Error>)
        ensures
            r == self.repay_borrow_allowed_spec(pool),
    {
        if self.is_listed(pool) {
            Ok(())
        } else {
            Err(Error::MarketNotListed)
        }
    }

    /// Whether a liquidation is allowed: both the borrowed market and
    /// the collateral market must be listed.
    pub open spec fn liquidate_borrow_allowed_spec(
        self,
        pool: AccountId,
        collateral: AccountId,
    ) -> Result<(), Error> {
        if self.listed(pool) && self.listed(collateral) {
            Ok(())
        } else {
            Err(Error::MarketNotListed)
        }
    }

    pub fn liquidate_borrow_allowed(
        &self,
        pool: AccountId,
        collateral: AccountId,
        _liquidator: AccountId,
        _borrower: AccountId,
        _repay_amount: Balance,
    ) -> (r: Result<(), Error>)
        ensures
            r == self.liquidate_borrow_allowed_spec(pool, collateral),
    {
        if self.is_listed(pool) && self.is_listed(collateral) {
            Ok(())
        } else {
            Err(Error::MarketNotListed)
        }
    }

    /// Whether a seizure is allowed: both the seizing market and the
    /// collateral market must be listed.
    pub open spec fn seize_allowed_spec(self, pool: AccountId, seizer_pool: AccountId) -> Result<
        (),
        Error,
    > {
        if self.listed(pool) && self.listed(seizer_pool) {
            Ok(())
        } else {
            Err(Error::MarketNotListed)
        }
    }

    pub fn seize_allowed(
        &self,
        pool: AccountId,
        seizer_pool: AccountId,
        _liquidator: AccountId,
        _borrower: AccountId,
        _seize_tokens: Balance,
    ) -> (r: Result<(), Error>)
        ensures
            r == self.seize_allowed_spec(pool, seizer_pool),
    {
        if self.is_listed(pool) && self.is_listed(seizer_pool) {
            Ok(())
        } else {
            Err(Error::MarketNotListed)
        }
    }
}

} // verus!
