//! The pool ledger state machine.
//!
//! Owns the pool's persistent state and implements the guarded state
//! transitions: mint, redeem, borrow, repay, liquidate and seize.  Every
//! state-changing operation is meant to run against freshly accrued
//! indices (the host accrues first, the freshness guards enforce it),
//! then performs its guard checks, and only then mutates the ledger; a
//! rejected operation leaves every balance, index and timestamp
//! unchanged.
//!
//! External value movements are not performed here.  An operation that
//! sends underlying out commits its ledger writes and returns the amount
//! to transfer; an operation that pulls underlying in is split in two, a
//! read-only `..._prepare` that names the amount to pull and a
//! `..._commit` that applies the ledger writes once the host has pulled
//! the funds.  For mint this encodes the safety-sensitive
//! pull-funds-in-first, credit-claim-tokens-second ordering.

use std::collections::HashMap;

use vstd::prelude::*;

use crate::controller::Data as Controller;
use crate::controller::Error as ControllerError;
use crate::exp::{mul_div, Exp, EXP_SCALE};
use crate::interest::{
    calculate_interest, calculate_interest_fits, calculate_interest_output_spec,
    CalculateInterestInput, BORROW_RATE_MAX_MANTISSA,
};
use crate::psp22;
use crate::psp22::PSP22Error;
use crate::types::{AccountId, Balance, Timestamp, ZERO_ADDRESS};

verus! {

broadcast use vstd::std_specs::hash::group_hash_axioms;

/// A host-dispatch failure, surfaced unchanged through the pool's call
/// chain.
#[derive(Clone, Copy, Debug, PartialEq, Eq, Structural)]
pub enum LangError {
    CouldNotReadInput,
}

/// Everything a pool operation can be rejected with.
#[derive(Clone, Copy, Debug, PartialEq, Eq, Structural)]
pub enum Error {
    AccrualBlockNumberIsNotFresh,
    InvalidParameter,
    BorrowRateIsAbsurdlyHigh,
    BalanceOverflow,
    RepayAmountExceedsBorrowBalance,
    RedeemTransferOutNotPossible,
    BorrowCashNotAvailable,
    LiquidateLiquidatorIsBorrower,
    LiquidateCloseAmountIsZero,
    LiquidateSeizeLiquidatorIsBorrower,
    Controller(ControllerError),
    PSP22(PSP22Error),
    Lang(LangError),
}

/// Wraps a claim-token failure into a pool error.
pub fn to_psp22_error(e: PSP22Error) -> (r: Error)
    ensures
        r == Error::PSP22(e),
{
    Error::PSP22(e)
}

/// Wraps a host-dispatch failure into a pool error.
pub fn to_lang_error(e: LangError) -> (r: Error)
    ensures
        r == Error::Lang(e),
{
    Error::Lang(e)
}

/// A borrower's recorded principal and the borrow index at which it was
/// recorded.  The borrower's current debt is
/// `principal * current_index / interest_index`; a zero principal means
/// no debt regardless of the index ratio.
#[derive(Clone, Copy, Debug, PartialEq, Eq, Structural)]
pub struct BorrowSnapshot {
    pub principal: Balance,
    pub interest_index: Balance,
}

/// A seizure the host must carry out against another pool's ledger
/// during a cross-pool liquidation.
#[derive(Clone, Copy, Debug, PartialEq, Eq, Structural)]
pub struct SeizeInstruction {
    pub collateral_pool: AccountId,
    pub liquidator: AccountId,
    pub borrower: AccountId,
    pub seize_tokens: Balance,
}

/// The pool's persistent state.
pub struct Data {
    /// This pool's own account identity.
    pub pool_id: AccountId,
    /// Identity of the external ledger of the underlying asset.
    pub underlying: AccountId,
    /// Identity of the policy authority.
    pub controller: AccountId,
    /// Identity of the interest-rate model.
    pub rate_model: AccountId,
    /// Outstanding principal plus accrued interest across all borrowers.
    pub total_borrows: Balance,
    /// Protocol-retained interest.
    pub total_reserves: Balance,
    /// Per-account borrow snapshots; entries are created on first borrow
    /// and never removed.
    pub account_borrows: HashMap<AccountId, BorrowSnapshot>,
    /// The timestamp of the last interest accrual.
    pub accrual_block_timestamp: Timestamp,
    /// The borrow index mantissa; starts at the fixed-point 1.0 and
    /// never decreases.
    pub borrow_index: Balance,
    /// Fraction of newly accrued interest retained as reserves, as a
    /// mantissa in `[0, EXP_SCALE]`.
    pub reserve_factor: Balance,
    /// The claim tokens this pool has issued.
    pub claim_token: psp22::Data,
}

/// The share of seized claim tokens retained for the protocol.
/// A placeholder of zero until a real seize-share policy is committed.
pub open spec fn protocol_seize_share_spec(seize_tokens: nat) -> nat {
    0
}

/// The share of seized claim tokens credited to the liquidator.
pub open spec fn liquidator_seize_share_spec(seize_tokens: nat) -> nat {
    (seize_tokens - protocol_seize_share_spec(seize_tokens)) as nat
}

/// The two shares of a seizure always add back up to the seized amount.
pub proof fn lemma_seize_share_split(seize_tokens: nat)
    ensures
        protocol_seize_share_spec(seize_tokens) + liquidator_seize_share_spec(seize_tokens)
            == seize_tokens,
{
}

/// The fields no operation ever changes.
pub open spec fn config_unchanged(pre: Data, post: Data) -> bool {
    &&& post.pool_id == pre.pool_id
    &&& post.underlying == pre.underlying
    &&& post.controller == pre.controller
    &&& post.rate_model == pre.rate_model
    &&& post.reserve_factor == pre.reserve_factor
}

/// The borrow-side fields are untouched.
pub open spec fn borrows_unchanged(pre: Data, post: Data) -> bool {
    &&& post.account_borrows@ == pre.account_borrows@
    &&& post.total_borrows == pre.total_borrows
    &&& post.total_reserves == pre.total_reserves
    &&& post.borrow_index == pre.borrow_index
    &&& post.accrual_block_timestamp == pre.accrual_block_timestamp
}

/// `post` is `pre` after a successful borrow of `amount`: the borrower's
/// snapshot is rewritten to the current debt plus `amount` at the
/// current index, and the total borrows grow by `amount`.  Nothing else
/// moves.
pub open spec fn borrow_applied(pre: Data, post: Data, borrower: AccountId, amount: Balance) -> bool {
    &&& post.account_borrows@ == pre.account_borrows@.insert(
        borrower,
        BorrowSnapshot {
            principal: (pre.debt_of(borrower) + amount) as u128,
            interest_index: pre.borrow_index,
        },
    )
    &&& post.total_borrows == pre.total_borrows + amount
    &&& post.total_reserves == pre.total_reserves
    &&& post.borrow_index == pre.borrow_index
    &&& post.accrual_block_timestamp == pre.accrual_block_timestamp
    &&& post.claim_token == pre.claim_token
    &&& config_unchanged(pre, post)
}

/// `post` is `pre` after a successful repayment of `amount`: the
/// borrower's snapshot is rewritten to the current debt minus `amount`
/// at the current index, and the total borrows shrink by `amount`.
/// Nothing else moves.
pub open spec fn repay_applied(pre: Data, post: Data, borrower: AccountId, amount: Balance) -> bool {
    &&& post.account_borrows@ == pre.account_borrows@.insert(
        borrower,
        BorrowSnapshot {
            principal: (pre.debt_of(borrower) - amount) as u128,
            interest_index: pre.borrow_index,
        },
    )
    &&& post.total_borrows == pre.total_borrows - amount
    &&& post.total_reserves == pre.total_reserves
    &&& post.borrow_index == pre.borrow_index
    &&& post.accrual_block_timestamp == pre.accrual_block_timestamp
    &&& post.claim_token == pre.claim_token
    &&& config_unchanged(pre, post)
}

/// `post` is `pre` after a successful seizure of `seize_tokens` claim
/// tokens from `borrower`: the borrower is debited, the liquidator is
/// credited with the liquidator share, the reserves grow by the
/// protocol share (converted 1:1), and the supply shrinks by the
/// protocol share.
pub open spec fn seize_applied(
    pre: Data,
    post: Data,
    liquidator: AccountId,
    borrower: AccountId,
    seize_tokens: Balance,
) -> bool {
    &&& post.claim_token.balances@ == pre.claim_token.balances@.insert(
        borrower,
        (pre.claim_token.balance_spec(borrower) - seize_tokens) as u128,
    ).insert(
        liquidator,
        (pre.claim_token.balance_spec(liquidator) + liquidator_seize_share_spec(
            seize_tokens as nat,
        )) as u128,
    )
    &&& post.claim_token.total_supply == pre.claim_token.total_supply - protocol_seize_share_spec(
        seize_tokens as nat,
    )
    &&& post.total_reserves == pre.total_reserves + protocol_seize_share_spec(seize_tokens as nat)
    &&& post.total_borrows == pre.total_borrows
    &&& post.account_borrows@ == pre.account_borrows@
    &&& post.borrow_index == pre.borrow_index
    &&& post.accrual_block_timestamp == pre.accrual_block_timestamp
    &&& config_unchanged(pre, post)
}

impl Data {
    /// The borrower's snapshot, taking a missing entry as an empty one.
    pub open spec fn snapshot_of(self, account: AccountId) -> BorrowSnapshot {
        if self.account_borrows@.contains_key(account) {
            self.account_borrows@[account]
        } else {
            BorrowSnapshot { principal: 0, interest_index: 0 }
        }
    }

    /// The borrower's recorded principal; zero without a snapshot.
    pub open spec fn principal_of(self, account: AccountId) -> Balance {
        self.snapshot_of(account).principal
    }

    /// The borrower's current debt: the recorded principal scaled by the
    /// growth of the borrow index since it was recorded.  Zero without a
    /// snapshot or with a zero principal.
    pub open spec fn debt_of(self, account: AccountId) -> nat {
        let snap = self.snapshot_of(account);
        if snap.principal == 0 {
            0
        } else {
            snap.principal as nat * self.borrow_index as nat / snap.interest_index as nat
        }
    }

    /// Well-formedness: the borrow index has grown from the fixed-point
    /// 1.0, the reserve factor is a fraction, and every snapshot was
    /// recorded at an index between 1.0 and the current one.
    pub open spec fn wf(self) -> bool {
        &&& self.borrow_index >= EXP_SCALE
        &&& self.reserve_factor <= EXP_SCALE
        &&& forall|a: AccountId| #[trigger]
            self.account_borrows@.contains_key(a) ==> EXP_SCALE <= self.account_borrows@[a].interest_index
                <= self.borrow_index
    }

    /// A fresh pool: no borrows, no reserves, no claim tokens, the
    /// borrow index at the fixed-point 1.0, and the accrual clock set to
    /// the construction time.
    pub fn new(
        pool_id: AccountId,
        underlying: AccountId,
        controller: AccountId,
        rate_model: AccountId,
        reserve_factor: Balance,
        construction_timestamp: Timestamp,
    ) -> (r: Data)
        requires
            reserve_factor <= EXP_SCALE,
        ensures
            r.wf(),
            r.pool_id == pool_id,
            r.underlying == underlying,
            r.controller == controller,
            r.rate_model == rate_model,
            r.total_borrows == 0,
            r.total_reserves == 0,
            r.account_borrows@ == Map::<AccountId, BorrowSnapshot>::empty(),
            r.accrual_block_timestamp == construction_timestamp,
            r.borrow_index == EXP_SCALE,
            r.reserve_factor == reserve_factor,
            r.claim_token.total_supply == 0,
            r.claim_token.balances@ == Map::<AccountId, Balance>::empty(),
    {
        let d = Data {
            pool_id,
            underlying,
            controller,
            rate_model,
            total_borrows: 0,
            total_reserves: 0,
            account_borrows: HashMap::new(),
            accrual_block_timestamp: construction_timestamp,
            borrow_index: EXP_SCALE,
            reserve_factor,
            claim_token: psp22::Data::new(),
        };
        proof {
            assert(forall|a: AccountId| !d.account_borrows@.contains_key(a));
        }
        d
    }

    /// The timestamp of the last interest accrual.
    pub fn get_accrual_block_timestamp(&self) -> (r: Timestamp)
        ensures
            r == self.accrual_block_timestamp,
    {
        self.accrual_block_timestamp
    }

    /// Identity of the external ledger of the underlying asset.
    pub fn underlying(&self) -> (r: AccountId)
        ensures
            r == self.underlying,
    {
        self.underlying
    }

    /// Identity of the policy authority.
    pub fn controller(&self) -> (r: AccountId)
        ensures
            r == self.controller,
    {
        self.controller
    }

    /// Identity of the interest-rate model.
    pub fn rate_model(&self) -> (r: AccountId)
        ensures
            r == self.rate_model,
    {
        self.rate_model
    }

    /// Total outstanding principal plus accrued interest.
    pub fn total_borrows(&self) -> (r: Balance)
        ensures
            r == self.total_borrows,
    {
        self.total_borrows
    }

    /// Protocol-retained interest.
    pub fn total_reserves(&self) -> (r: Balance)
        ensures
            r == self.total_reserves,
    {
        self.total_reserves
    }

    /// The borrow index as a fixed-point number.
    pub fn borrow_index(&self) -> (r: Exp)
        ensures
            r == (Exp { mantissa: self.borrow_index }),
    {
        Exp { mantissa: self.borrow_index }
    }

    /// The reserve factor as a fixed-point number.
    pub fn reserve_factor(&self) -> (r: Exp)
        ensures
            r == (Exp { mantissa: self.reserve_factor }),
    {
        Exp { mantissa: self.reserve_factor }
    }

    /// The borrower's current debt, or `None` where it leaves the
    /// native balance range.
    pub fn borrow_balance_stored(&self, account: AccountId) -> (r: Option<Balance>)
        requires
            self.wf(),
        ensures
            r == (if self.debt_of(account) <= u128::MAX as nat {
                Some(self.debt_of(account) as u128)
            } else {
                None::<u128>
            }),
    {
        let snapshot = match self.account_borrows.get(&account) {
            Some(s) => *s,
            None => {
                return Some(0);
            },
        };
        if snapshot.principal == 0 {
            return Some(0);
        }
        mul_div(snapshot.principal, self.borrow_index, snapshot.interest_index)
    }

    /// Brings the stored indices up to `at`, using the rate model's
    /// current borrow rate.  With no elapsed time this is an exact
    /// no-op; a rate above the hard ceiling is the fatal path and is
    /// rejected deterministically; a result beyond the native balance
    /// range is a hard failure.  The borrow index never decreases.
    pub fn accrue_interest_at(&mut self, at: Timestamp, borrow_rate: Balance) -> (r: Result<
        (),
        Error,
    >)
        requires
            old(self).wf(),
        ensures
            final(self).wf(),
            final(self).borrow_index >= old(self).borrow_index,
            old(self).accrual_block_timestamp == at ==> r is Ok && *final(self) == *old(self),
            old(self).accrual_block_timestamp != at && borrow_rate > BORROW_RATE_MAX_MANTISSA
                ==> r == Err::<(), Error>(Error::BorrowRateIsAbsurdlyHigh) && *final(self) == *old(
                self,
            ),
            old(self).accrual_block_timestamp != at && borrow_rate <= BORROW_RATE_MAX_MANTISSA
                ==> {
                let input = old(self).accrual_input(at, borrow_rate);
                if calculate_interest_fits(input) {
                    let out = calculate_interest_output_spec(input);
                    &&& r is Ok
                    &&& final(self).accrual_block_timestamp == at
                    &&& final(self).borrow_index == out.borrow_index.mantissa
                    &&& final(self).total_borrows == out.total_borrows
                    &&& final(self).total_reserves == out.total_reserves
                    &&& final(self).account_borrows@ == old(self).account_borrows@
                    &&& final(self).claim_token == old(self).claim_token
                    &&& config_unchanged(*old(self), *final(self))
                } else {
                    r == Err::<(), Error>(Error::BalanceOverflow) && *final(self) == *old(self)
                }
            },
    {
        if self.accrual_block_timestamp == at {
            return Ok(());
        }
        if borrow_rate > BORROW_RATE_MAX_MANTISSA {
            return Err(Error::BorrowRateIsAbsurdlyHigh);
        }
        let input = CalculateInterestInput {
            total_borrows: self.total_borrows,
            total_reserves: self.total_reserves,
            borrow_index: Exp { mantissa: self.borrow_index },
            borrow_rate,
            old_block_timestamp: self.accrual_block_timestamp,
            new_block_timestamp: at,
            reserve_factor: self.reserve_factor,
        };
        let out = match calculate_interest(&input) {
            Ok(o) => o,
            Err(e) => {
                return Err(e);
            },
        };
        self.accrual_block_timestamp = at;
        self.borrow_index = out.borrow_index.mantissa;
        self.total_borrows = out.total_borrows;
        self.total_reserves = out.total_reserves;
        Ok(())
    }

    /// The accrual-engine input this pool would hand over at `at`.
    pub open spec fn accrual_input(
        self,
        at: Timestamp,
        borrow_rate: Balance,
    ) -> CalculateInterestInput {
        CalculateInterestInput {
            total_borrows: self.total_borrows,
            total_reserves: self.total_reserves,
            borrow_index: Exp { mantissa: self.borrow_index },
            borrow_rate,
            old_block_timestamp: self.accrual_block_timestamp,
            new_block_timestamp: at,
            reserve_factor: self.reserve_factor,
        }
    }

    /// The mint guards: policy approval, then freshness.  On success the
    /// amount of underlying to pull from the minter (1:1 with the claim
    /// tokens to credit, the placeholder exchange-rate policy).
    pub open spec fn mint_check_spec(
        self,
        ctrl: Controller,
        minter: AccountId,
        mint_amount: Balance,
        now: Timestamp,
    ) -> Result<Balance, Error> {
        match ctrl.mint_allowed_spec(self.pool_id) {
            Err(e) => Err(Error::Controller(e)),
            Ok(_) => if self.accrual_block_timestamp != now {
                Err(Error::AccrualBlockNumberIsNotFresh)
            } else {
                Ok(mint_amount)
            },
        }
    }

    /// First half of mint: the guard checks alone, with no mutation.  On
    /// success the host must pull the returned amount of underlying from
    /// the minter and only then call [`Data::mint_commit`]: funds come
    /// in before any claim token is credited.
    pub fn mint_prepare(
        &self,
        ctrl: &Controller,
        minter: AccountId,
        mint_amount: Balance,
        now: Timestamp,
    ) -> (r: Result<Balance, Error>)
        ensures
            r == self.mint_check_spec(*ctrl, minter, mint_amount, now),
    {
        match ctrl.mint_allowed(self.pool_id, minter, mint_amount) {
            Err(e) => {
                return Err(Error::Controller(e));
            },
            Ok(_) => {},
        }
        if self.accrual_block_timestamp != now {
            return Err(Error::AccrualBlockNumberIsNotFresh);
        }
        Ok(mint_amount)
    }

    /// Second half of mint: credits the minter with claim tokens at 1:1,
    /// after the host has pulled the underlying in.  A credit beyond the
    /// native balance range is a hard failure that leaves the ledger
    /// untouched.
    pub fn mint_commit(&mut self, minter: AccountId, mint_amount: Balance) -> (r: Result<
        (),
        Error,
    >)
        requires
            old(self).wf(),
        ensures
            final(self).wf(),
            old(self).claim_token.balance_spec(minter) + mint_amount <= u128::MAX as nat && old(
                self,
            ).claim_token.total_supply + mint_amount <= u128::MAX as nat ==> {
                &&& r is Ok
                &&& final(self).claim_token.balances@ == old(self).claim_token.balances@.insert(
                    minter,
                    (old(self).claim_token.balance_spec(minter) + mint_amount) as u128,
                )
                &&& final(self).claim_token.total_supply == old(self).claim_token.total_supply
                    + mint_amount
                &&& borrows_unchanged(*old(self), *final(self))
                &&& config_unchanged(*old(self), *final(self))
            },
            !(old(self).claim_token.balance_spec(minter) + mint_amount <= u128::MAX as nat && old(
                self,
            ).claim_token.total_supply + mint_amount <= u128::MAX as nat) ==> r == Err::<
                (),
                Error,
            >(Error::BalanceOverflow) && *final(self) == *old(self),
    {
        if !self.claim_token.can_mint_to(minter, mint_amount) {
            return Err(Error::BalanceOverflow);
        }
        self.claim_token.mint_to(minter, mint_amount);
        Ok(())
    }

    /// The redeem guards: exactly one positive selector, policy
    /// approval, pool liquidity, then a sufficient claim-token balance.
    /// On success the claim tokens to burn, which (at the 1:1 placeholder
    /// exchange rate) equal the underlying amount to send out.
    pub open spec fn redeem_check_spec(
        self,
        ctrl: Controller,
        redeemer: AccountId,
        redeem_tokens_in: Balance,
        redeem_amount_in: Balance,
        cash: Balance,
    ) -> Result<Balance, Error> {
        if redeem_tokens_in > 0 && redeem_amount_in > 0 {
            Err(Error::InvalidParameter)
        } else if redeem_tokens_in == 0 && redeem_amount_in == 0 {
            Err(Error::InvalidParameter)
        } else {
            let redeem_tokens = if redeem_tokens_in > 0 {
                redeem_tokens_in
            } else {
                redeem_amount_in
            };
            match ctrl.redeem_allowed_spec(self.pool_id) {
                Err(e) => Err(Error::Controller(e)),
                Ok(_) => if cash < redeem_tokens {
                    Err(Error::RedeemTransferOutNotPossible)
                } else if !(self.claim_token.balance_spec(redeemer) >= redeem_tokens
                    && self.claim_token.total_supply >= redeem_tokens) {
                    Err(Error::PSP22(PSP22Error::InsufficientBalance))
                } else {
                    Ok(redeem_tokens)
                },
            }
        }
    }

    /// Redeems claim tokens for underlying.  Exactly one of
    /// `redeem_tokens_in` and `redeem_amount_in` must be positive; the
    /// claim tokens are burned here and the returned amount of
    /// underlying is then sent to the redeemer by the host, so every
    /// ledger write lands before the outbound transfer.
    pub fn redeem(
        &mut self,
        ctrl: &Controller,
        redeemer: AccountId,
        redeem_tokens_in: Balance,
        redeem_amount_in: Balance,
        cash: Balance,
    ) -> (r: Result<Balance, Error>)
        requires
            old(self).wf(),
        ensures
            final(self).wf(),
            r == old(self).redeem_check_spec(
                *ctrl,
                redeemer,
                redeem_tokens_in,
                redeem_amount_in,
                cash,
            ),
            r matches Ok(t) ==> {
                &&& final(self).claim_token.balances@ == old(self).claim_token.balances@.insert(
                    redeemer,
                    (old(self).claim_token.balance_spec(redeemer) - t) as u128,
                )
                &&& final(self).claim_token.total_supply == old(self).claim_token.total_supply - t
                &&& borrows_unchanged(*old(self), *final(self))
                &&& config_unchanged(*old(self), *final(self))
            },
            r is Err ==> *final(self) == *old(self),
    {
        if redeem_tokens_in > 0 && redeem_amount_in > 0 {
            return Err(Error::InvalidParameter);
        }
        if redeem_tokens_in == 0 && redeem_amount_in == 0 {
            return Err(Error::InvalidParameter);
        }
        let redeem_tokens = if redeem_tokens_in > 0 {
            redeem_tokens_in
        } else {
            redeem_amount_in
        };
        match ctrl.redeem_allowed(self.pool_id, redeemer, redeem_tokens) {
            Err(e) => {
                return Err(Error::Controller(e));
            },
            Ok(_) => {},
        }
        if cash < redeem_tokens {
            return Err(Error::RedeemTransferOutNotPossible);
        }
        if !self.claim_token.can_burn_from(redeemer, redeem_tokens) {
            return Err(Error::PSP22(PSP22Error::InsufficientBalance));
        }
        self.claim_token.burn_from(redeemer, redeem_tokens);
        Ok(redeem_tokens)
    }

    /// The borrow guards: policy approval, freshness, pool liquidity,
    /// then the native-range limits on the new snapshot and the new
    /// total.  On success the amount of underlying to send out.
    pub open spec fn borrow_check_spec(
        self,
        ctrl: Controller,
        borrower: AccountId,
        amount: Balance,
        now: Timestamp,
        cash: Balance,
    ) -> Result<Balance, Error> {
        match ctrl.borrow_allowed_spec(self.pool_id) {
            Err(e) => Err(Error::Controller(e)),
            Ok(_) => if self.accrual_block_timestamp != now {
                Err(Error::AccrualBlockNumberIsNotFresh)
            } else if cash < amount {
                Err(Error::BorrowCashNotAvailable)
            } else if self.debt_of(borrower) + amount > u128::MAX as nat {
                Err(Error::BalanceOverflow)
            } else if self.total_borrows + amount > u128::MAX as nat {
                Err(Error::BalanceOverflow)
            } else {
                Ok(amount)
            },
        }
    }

    /// Borrows underlying against the caller's account.  The borrower's
    /// snapshot is rewritten to the current debt plus the amount at the
    /// current index; the returned amount is then sent to the borrower
    /// by the host, so every ledger write lands before the outbound
    /// transfer.
    pub fn borrow(
        &mut self,
        ctrl: &Controller,
        borrower: AccountId,
        borrow_amount: Balance,
        now: Timestamp,
        cash: Balance,
    ) -> (r: Result<Balance, Error>)
        requires
            old(self).wf(),
        ensures
            final(self).wf(),
            r == old(self).borrow_check_spec(*ctrl, borrower, borrow_amount, now, cash),
            r is Ok ==> borrow_applied(*old(self), *final(self), borrower, borrow_amount),
            r is Err ==> *final(self) == *old(self),
    {
        match ctrl.borrow_allowed(self.pool_id, borrower, borrow_amount) {
            Err(e) => {
                return Err(Error::Controller(e));
            },
            Ok(_) => {},
        }
        if self.accrual_block_timestamp != now {
            return Err(Error::AccrualBlockNumberIsNotFresh);
        }
        if cash < borrow_amount {
            return Err(Error::BorrowCashNotAvailable);
        }
        let account_borrows_prev = match self.borrow_balance_stored(borrower) {
            Some(d) => d,
            None => {
                return Err(Error::BalanceOverflow);
            },
        };
        if borrow_amount > u128::MAX - account_borrows_prev {
            return Err(Error::BalanceOverflow);
        }
        if borrow_amount > u128::MAX - self.total_borrows {
            return Err(Error::BalanceOverflow);
        }
        let idx = self.borrow_index;
        self.account_borrows.insert(
            borrower,
            BorrowSnapshot { principal: account_borrows_prev + borrow_amount, interest_index: idx },
        );
        self.total_borrows = self.total_borrows + borrow_amount;
        Ok(borrow_amount)
    }

    /// The guards of the mutating half of repay, for an already
    /// resolved amount: the amount may not exceed the current debt
    /// (rejected, never an underflow) nor the recorded total borrows.
    pub open spec fn repay_borrow_commit_check_spec(self, borrower: AccountId, amount: Balance) -> Result<
        Balance,
        Error,
    > {
        if self.debt_of(borrower) > u128::MAX as nat {
            Err(Error::BalanceOverflow)
        } else if amount > self.debt_of(borrower) {
            Err(Error::RepayAmountExceedsBorrowBalance)
        } else if amount > self.total_borrows {
            Err(Error::BalanceOverflow)
        } else {
            Ok(amount)
        }
    }

    /// The full repay guards: policy approval, freshness, then the
    /// resolution of the repay-everything sentinel (`u128::MAX` means
    /// the whole current debt) and the amount checks.
    pub open spec fn repay_borrow_check_spec(
        self,
        ctrl: Controller,
        payer: AccountId,
        borrower: AccountId,
        repay_amount: Balance,
        now: Timestamp,
    ) -> Result<Balance, Error> {
        match ctrl.repay_borrow_allowed_spec(self.pool_id) {
            Err(e) => Err(Error::Controller(e)),
            Ok(_) => if self.accrual_block_timestamp != now {
                Err(Error::AccrualBlockNumberIsNotFresh)
            } else if self.debt_of(borrower) > u128::MAX as nat {
                Err(Error::BalanceOverflow)
            } else {
                let final_amount = if repay_amount == u128::MAX {
                    self.debt_of(borrower) as u128
                } else {
                    repay_amount
                };
                self.repay_borrow_commit_check_spec(borrower, final_amount)
            },
        }
    }

    /// First half of repay: the guard checks alone, with no mutation.
    /// On success the host must pull the returned amount of underlying
    /// from the payer and only then call [`Data::repay_borrow_commit`]
    /// with it.
    pub fn repay_borrow_prepare(
        &self,
        ctrl: &Controller,
        payer: AccountId,
        borrower: AccountId,
        repay_amount: Balance,
        now: Timestamp,
    ) -> (r: Result<Balance, Error>)
        requires
            self.wf(),
        ensures
            r == self.repay_borrow_check_spec(*ctrl, payer, borrower, repay_amount, now),
    {
        match ctrl.repay_borrow_allowed(self.pool_id, payer, borrower, repay_amount) {
            Err(e) => {
                return Err(Error::Controller(e));
            },
            Ok(_) => {},
        }
        if self.accrual_block_timestamp != now {
            return Err(Error::AccrualBlockNumberIsNotFresh);
        }
        let account_borrow_prev = match self.borrow_balance_stored(borrower) {
            Some(d) => d,
            None => {
                return Err(Error::BalanceOverflow);
            },
        };
        let repay_amount_final = if repay_amount == u128::MAX {
            account_borrow_prev
        } else {
            repay_amount
        };
        self.repay_borrow_commit_check(borrower, repay_amount_final)
    }

    /// The guards of the mutating half of repay, evaluated without
    /// mutating.
    fn repay_borrow_commit_check(&self, borrower: AccountId, amount: Balance) -> (r: Result<
        Balance,
        Error,
    >)
        requires
            self.wf(),
        ensures
            r == self.repay_borrow_commit_check_spec(borrower, amount),
    {
        let debt = match self.borrow_balance_stored(borrower) {
            Some(d) => d,
            None => {
                return Err(Error::BalanceOverflow);
            },
        };
        if amount > debt {
            return Err(Error::RepayAmountExceedsBorrowBalance);
        }
        if amount > self.total_borrows {
            return Err(Error::BalanceOverflow);
        }
        Ok(amount)
    }

    /// Rewrites the borrower's snapshot to the current debt minus
    /// `amount` and shrinks the total borrows, once the guards have
    /// passed.
    fn repay_borrow_apply(&mut self, borrower: AccountId, amount: Balance)
        requires
            old(self).wf(),
            old(self).repay_borrow_commit_check_spec(borrower, amount) is Ok,
        ensures
            final(self).wf(),
            repay_applied(*old(self), *final(self), borrower, amount),
    {
        let debt = match self.borrow_balance_stored(borrower) {
            Some(d) => d,
            None => {
                proof {
                    assert(false);
                }
                0
            },
        };
        let idx = self.borrow_index;
        self.account_borrows.insert(
            borrower,
            BorrowSnapshot { principal: debt - amount, interest_index: idx },
        );
        self.total_borrows = self.total_borrows - amount;
    }

    /// Second half of repay: applies the ledger writes for an amount the
    /// host has already pulled from the payer.  Returns the amount
    /// actually repaid.
    pub fn repay_borrow_commit(&mut self, borrower: AccountId, repay_amount_final: Balance) -> (r:
        Result<Balance, Error>)
        requires
            old(self).wf(),
        ensures
            final(self).wf(),
            r == old(self).repay_borrow_commit_check_spec(borrower, repay_amount_final),
            r is Ok ==> repay_applied(*old(self), *final(self), borrower, repay_amount_final),
            r is Err ==> *final(self) == *old(self),
    {
        match self.repay_borrow_commit_check(borrower, repay_amount_final) {
            Err(e) => {
                return Err(e);
            },
            Ok(_) => {},
        }
        self.repay_borrow_apply(borrower, repay_amount_final);
        Ok(repay_amount_final)
    }

    /// The seize guards: policy approval, the borrower may not seize
    /// from themselves, the borrower must hold the seized claim tokens,
    /// and the liquidator's credit must stay in the native range.
    pub open spec fn seize_check_spec(
        self,
        ctrl: Controller,
        seizer_pool: AccountId,
        liquidator: AccountId,
        borrower: AccountId,
        seize_tokens: Balance,
    ) -> Result<(), Error> {
        match ctrl.seize_allowed_spec(self.pool_id, seizer_pool) {
            Err(e) => Err(Error::Controller(e)),
            Ok(_) => if liquidator == borrower {
                Err(Error::LiquidateSeizeLiquidatorIsBorrower)
            } else if !(self.claim_token.balance_spec(borrower) >= seize_tokens
                && self.claim_token.total_supply >= seize_tokens) {
                Err(Error::PSP22(PSP22Error::InsufficientBalance))
            } else if self.claim_token.balance_spec(liquidator) + liquidator_seize_share_spec(
                seize_tokens as nat,
            ) > u128::MAX as nat {
                Err(Error::BalanceOverflow)
            } else {
                Ok(())
            },
        }
    }

    /// The seize guards, evaluated without mutating.
    fn seize_check(
        &self,
        ctrl: &Controller,
        seizer_pool: AccountId,
        liquidator: AccountId,
        borrower: AccountId,
        seize_tokens: Balance,
    ) -> (r: Result<(), Error>)
        ensures
            r == self.seize_check_spec(*ctrl, seizer_pool, liquidator, borrower, seize_tokens),
    {
        match ctrl.seize_allowed(self.pool_id, seizer_pool, liquidator, borrower, seize_tokens) {
            Err(e) => {
                return Err(Error::Controller(e));
            },
            Ok(_) => {},
        }
        if liquidator == borrower {
            return Err(Error::LiquidateSeizeLiquidatorIsBorrower);
        }
        if !self.claim_token.can_burn_from(borrower, seize_tokens) {
            return Err(Error::PSP22(PSP22Error::InsufficientBalance));
        }
        let protocol_seize_token: u128 = 0;
        let liquidator_seize_token = seize_tokens - protocol_seize_token;
        let liquidator_balance = self.claim_token.balance_of(liquidator);
        if liquidator_balance > u128::MAX - liquidator_seize_token {
            return Err(Error::BalanceOverflow);
        }
        Ok(())
    }

    /// Debits the borrower, credits the liquidator and books the
    /// protocol share, once the guards have passed.
    fn seize_apply(&mut self, liquidator: AccountId, borrower: AccountId, seize_tokens: Balance)
        requires
            old(self).wf(),
            liquidator != borrower,
            old(self).claim_token.balance_spec(borrower) >= seize_tokens,
            old(self).claim_token.total_supply >= seize_tokens,
            old(self).claim_token.balance_spec(liquidator) + liquidator_seize_share_spec(
                seize_tokens as nat,
            ) <= u128::MAX as nat,
        ensures
            final(self).wf(),
            seize_applied(*old(self), *final(self), liquidator, borrower, seize_tokens),
    {
        // the protocol's share of the seizure: a placeholder of zero
        let protocol_seize_token: u128 = 0;
        let liquidator_seize_token = seize_tokens - protocol_seize_token;
        // claim tokens convert to underlying 1:1, the placeholder rate
        let exchange_rate: u128 = 1;
        let protocol_seize_amount = protocol_seize_token * exchange_rate;
        self.total_reserves = self.total_reserves + protocol_seize_amount;
        self.claim_token.burn_from(borrower, seize_tokens);
        self.claim_token.mint_to(liquidator, liquidator_seize_token);
    }

    /// Seizes `seize_tokens` claim tokens from the borrower during a
    /// liquidation: the liquidator's share is re-minted to the
    /// liquidator and the protocol's share (currently zero) is retired
    /// into the reserves.  A rejected seizure leaves the ledger
    /// untouched.
    pub fn seize(
        &mut self,
        ctrl: &Controller,
        seizer_pool: AccountId,
        liquidator: AccountId,
        borrower: AccountId,
        seize_tokens: Balance,
    ) -> (r: Result<(), Error>)
        requires
            old(self).wf(),
        ensures
            final(self).wf(),
            r == old(self).seize_check_spec(*ctrl, seizer_pool, liquidator, borrower, seize_tokens),
            r is Ok ==> seize_applied(*old(self), *final(self), liquidator, borrower, seize_tokens),
            r is Err ==> *final(self) == *old(self),
    {
        match self.seize_check(ctrl, seizer_pool, liquidator, borrower, seize_tokens) {
            Err(e) => {
                return Err(e);
            },
            Ok(_) => {},
        }
        self.seize_apply(liquidator, borrower, seize_tokens);
        Ok(())
    }

    /// The liquidation guards: policy approval, freshness of both this
    /// pool and the collateral pool against the same instant, the
    /// borrower may not liquidate themselves, the repay amount may not
    /// be zero, and the repayment itself must be possible.
    pub open spec fn liquidate_borrow_check_spec(
        self,
        ctrl: Controller,
        liquidator: AccountId,
        borrower: AccountId,
        repay_amount: Balance,
        collateral: AccountId,
        collateral_timestamp: Timestamp,
        now: Timestamp,
    ) -> Result<Balance, Error> {
        match ctrl.liquidate_borrow_allowed_spec(self.pool_id, collateral) {
            Err(e) => Err(Error::Controller(e)),
            Ok(_) => if self.accrual_block_timestamp != now {
                Err(Error::AccrualBlockNumberIsNotFresh)
            } else if collateral_timestamp != now {
                Err(Error::AccrualBlockNumberIsNotFresh)
            } else if liquidator == borrower {
                Err(Error::LiquidateLiquidatorIsBorrower)
            } else if repay_amount == 0 {
                Err(Error::LiquidateCloseAmountIsZero)
            } else {
                self.repay_borrow_check_spec(ctrl, liquidator, borrower, repay_amount, now)
            },
        }
    }

    /// First half of liquidate: the guard checks alone, with no
    /// mutation.  On success the host must pull the returned repay
    /// amount from the liquidator and then call
    /// [`Data::liquidate_borrow_commit`] with it.
    pub fn liquidate_borrow_prepare(
        &self,
        ctrl: &Controller,
        liquidator: AccountId,
        borrower: AccountId,
        repay_amount: Balance,
        collateral: AccountId,
        collateral_timestamp: Timestamp,
        now: Timestamp,
    ) -> (r: Result<Balance, Error>)
        requires
            self.wf(),
        ensures
            r == self.liquidate_borrow_check_spec(
                *ctrl,
                liquidator,
                borrower,
                repay_amount,
                collateral,
                collateral_timestamp,
                now,
            ),
    {
        match ctrl.liquidate_borrow_allowed(
            self.pool_id,
            collateral,
            liquidator,
            borrower,
            repay_amount,
        ) {
            Err(e) => {
                return Err(Error::Controller(e));
            },
            Ok(_) => {},
        }
        if self.accrual_block_timestamp != now {
            return Err(Error::AccrualBlockNumberIsNotFresh);
        }
        if collateral_timestamp != now {
            return Err(Error::AccrualBlockNumberIsNotFresh);
        }
        if liquidator == borrower {
            return Err(Error::LiquidateLiquidatorIsBorrower);
        }
        if repay_amount == 0 {
            return Err(Error::LiquidateCloseAmountIsZero);
        }
        self.repay_borrow_prepare(ctrl, liquidator, borrower, repay_amount, now)
    }

    /// The guards of the mutating half of liquidate: the repayment must
    /// apply, and for same-pool collateral the local seizure (of the
    /// placeholder zero tokens) must be allowed too.
    pub open spec fn liquidate_borrow_commit_check_spec(
        self,
        ctrl: Controller,
        liquidator: AccountId,
        borrower: AccountId,
        amount: Balance,
        collateral: AccountId,
    ) -> Result<Option<SeizeInstruction>, Error> {
        match self.repay_borrow_commit_check_spec(borrower, amount) {
            Err(e) => Err(e),
            Ok(_) => if collateral == self.pool_id {
                match self.seize_check_spec(ctrl, self.pool_id, liquidator, borrower, 0) {
                    Err(e) => Err(e),
                    Ok(_) => Ok(None),
                }
            } else {
                Ok(
                    Some(
                        SeizeInstruction {
                            collateral_pool: collateral,
                            liquidator,
                            borrower,
                            seize_tokens: 0,
                        },
                    ),
                )
            },
        }
    }

    /// Second half of liquidate: applies the repayment the host has
    /// already pulled funds for, then resolves the seizure.  Same-pool
    /// collateral is seized locally (placeholder amount of zero) and
    /// `None` is returned; for cross-pool collateral the returned
    /// instruction names the seizure the host must run against the
    /// collateral pool.  A rejected commit leaves the ledger untouched.
    pub fn liquidate_borrow_commit(
        &mut self,
        ctrl: &Controller,
        liquidator: AccountId,
        borrower: AccountId,
        repay_amount_final: Balance,
        collateral: AccountId,
    ) -> (r: Result<Option<SeizeInstruction>, Error>)
        requires
            old(self).wf(),
        ensures
            final(self).wf(),
            r == old(self).liquidate_borrow_commit_check_spec(
                *ctrl,
                liquidator,
                borrower,
                repay_amount_final,
                collateral,
            ),
            r == Ok::<Option<SeizeInstruction>, Error>(None) ==> {
                &&& final(self).account_borrows@ == old(self).account_borrows@.insert(
                    borrower,
                    BorrowSnapshot {
                        principal: (old(self).debt_of(borrower) - repay_amount_final) as u128,
                        interest_index: old(self).borrow_index,
                    },
                )
                &&& final(self).total_borrows == old(self).total_borrows - repay_amount_final
                &&& final(self).total_reserves == old(self).total_reserves
                &&& final(self).borrow_index == old(self).borrow_index
                &&& final(self).accrual_block_timestamp == old(self).accrual_block_timestamp
                &&& final(self).claim_token.balances@ == old(self).claim_token.balances@.insert(
                    borrower,
                    old(self).claim_token.balance_spec(borrower) as u128,
                ).insert(liquidator, old(self).claim_token.balance_spec(liquidator) as u128)
                &&& final(self).claim_token.total_supply == old(self).claim_token.total_supply
                &&& config_unchanged(*old(self), *final(self))
            },
            r matches Ok(i) && i is Some ==> repay_applied(
                *old(self),
                *final(self),
                borrower,
                repay_amount_final,
            ),
            r is Err ==> *final(self) == *old(self),
    {
        match self.repay_borrow_commit_check(borrower, repay_amount_final) {
            Err(e) => {
                return Err(e);
            },
            Ok(_) => {},
        }
        if collateral == self.pool_id {
            // the seize guards are checked up front, so a rejected
            // seizure leaves the repayment unapplied as well
            match self.seize_check(ctrl, self.pool_id, liquidator, borrower, 0) {
                Err(e) => {
                    return Err(e);
                },
                Ok(_) => {},
            }
            self.repay_borrow_apply(borrower, repay_amount_final);
            self.seize_apply(liquidator, borrower, 0);
            Ok(None)
        } else {
            self.repay_borrow_apply(borrower, repay_amount_final);
            Ok(
                Some(
                    SeizeInstruction {
                        collateral_pool: collateral,
                        liquidator,
                        borrower,
                        seize_tokens: 0,
                    },
                ),
            )
        }
    }
}

impl Default for Data {
    /// The uninitialized storage default: zero addresses, zero
    /// balances, a zero borrow index and a zero accrual timestamp.
    /// Not a well-formed pool; live pools are made by [`Data::new`].
    fn default() -> (r: Data)
        ensures
            r.pool_id == ZERO_ADDRESS,
            r.underlying == ZERO_ADDRESS,
            r.controller == ZERO_ADDRESS,
            r.rate_model == ZERO_ADDRESS,
            r.total_borrows == 0,
            r.total_reserves == 0,
            r.account_borrows@ == Map::<AccountId, BorrowSnapshot>::empty(),
            r.accrual_block_timestamp == 0,
            r.borrow_index == 0,
            r.reserve_factor == 0,
            r.claim_token.total_supply == 0,
            r.claim_token.balances@ == Map::<AccountId, Balance>::empty(),
    {
        Data {
            pool_id: ZERO_ADDRESS,
            underlying: ZERO_ADDRESS,
            controller: ZERO_ADDRESS,
            rate_model: ZERO_ADDRESS,
            total_borrows: 0,
            total_reserves: 0,
            account_borrows: HashMap::new(),
            accrual_block_timestamp: 0,
            borrow_index: 0,
            reserve_factor: 0,
            claim_token: psp22::Data::new(),
        }
    }
}

/// Borrowing an amount and immediately repaying the same amount, with
/// no accrual in between, restores the borrower's stored principal and
/// the total borrows to their pre-borrow values.
///
/// The stored principal comes back exactly where the pre-borrow
/// snapshot is either empty or recorded at the current index; a stale
/// nonzero snapshot is first re-based to the current index by the
/// borrow, which is a larger principal for the same debt.
pub proof fn lemma_borrow_repay_round_trip(
    pre: Data,
    mid: Data,
    post: Data,
    borrower: AccountId,
    amount: Balance,
)
    requires
        pre.wf(),
        pre.debt_of(borrower) + amount <= u128::MAX as nat,
        pre.total_borrows + amount <= u128::MAX as nat,
        pre.principal_of(borrower) == 0 || pre.snapshot_of(borrower).interest_index
            == pre.borrow_index,
        borrow_applied(pre, mid, borrower, amount),
        repay_applied(mid, post, borrower, amount),
    ensures
        post.total_borrows == pre.total_borrows,
        post.principal_of(borrower) == pre.principal_of(borrower),
{
    let p0 = pre.debt_of(borrower);
    let idx = pre.borrow_index;
    assert(mid.account_borrows@.contains_key(borrower));
    let mid_snap = mid.account_borrows@[borrower];
    assert(mid_snap.principal == (p0 + amount) as u128);
    assert(mid_snap.interest_index == idx);
    if mid_snap.principal == 0 {
        assert(mid.debt_of(borrower) == 0);
        assert(amount == 0 && p0 == 0);
    } else {
        vstd::arithmetic::div_mod::lemma_div_by_multiple((p0 + amount) as int, idx as int);
        assert(mid_snap.principal as nat * mid.borrow_index as nat
            == (p0 + amount) * idx as nat) by (nonlinear_arith)
            requires
                mid_snap.principal as nat == p0 + amount,
                mid.borrow_index == idx,
        ;
        assert(mid.debt_of(borrower) == p0 + amount);
    }
    assert(post.principal_of(borrower) == (mid.debt_of(borrower) - amount) as u128);
    if pre.principal_of(borrower) == 0 {
        assert(p0 == 0);
    } else {
        let pre_snap = pre.snapshot_of(borrower);
        vstd::arithmetic::div_mod::lemma_div_by_multiple(
            pre_snap.principal as int,
            pre_snap.interest_index as int,
        );
        assert(p0 == pre_snap.principal);
    }
}

/// A liquidation in which the liquidator is the borrower personally is
/// always rejected, whatever the repay amount and the market state; and
/// where every earlier guard passes, the rejection names the liquidator.
pub proof fn lemma_liquidate_self_always_fails(
    s: Data,
    ctrl: Controller,
    account: AccountId,
    repay_amount: Balance,
    collateral: AccountId,
    collateral_timestamp: Timestamp,
    now: Timestamp,
)
    ensures
        s.liquidate_borrow_check_spec(
            ctrl,
            account,
            account,
            repay_amount,
            collateral,
            collateral_timestamp,
            now,
        ) is Err,
        ctrl.liquidate_borrow_allowed_spec(s.pool_id, collateral) is Ok
            && s.accrual_block_timestamp == now && collateral_timestamp == now
            ==> s.liquidate_borrow_check_spec(
            ctrl,
            account,
            account,
            repay_amount,
            collateral,
            collateral_timestamp,
            now,
        ) == Err::<Balance, Error>(Error::LiquidateLiquidatorIsBorrower),
{
}

} // verus!
