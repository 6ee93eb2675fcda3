//! The interest accrual engine.
//!
//! Pure fixed-point math over elapsed time: a per-period borrow rate,
//! the outstanding borrows and the reserve factor are turned into an
//! updated borrow index, total borrows and total reserves.  No side
//! effects; every output is a deterministic function of the inputs.

use vstd::prelude::*;

use crate::exp::{mul_scalar_truncate_spec, Exp};
use crate::pool::Error;
use crate::types::{Balance, Timestamp};

verus! {

/// The hard ceiling on the per-period borrow rate mantissa.  A rate
/// model that reports more has violated a programming invariant; the
/// accrual engine refuses to compute with such a rate.
pub const BORROW_RATE_MAX_MANTISSA: u128 = 500_000_000_000_000;

/// The inputs of one accrual step.
#[derive(Clone, Copy, Debug, PartialEq, Eq, Structural)]
pub struct CalculateInterestInput {
    pub total_borrows: Balance,
    pub total_reserves: Balance,
    pub borrow_index: Exp,
    pub borrow_rate: Balance,
    pub old_block_timestamp: Timestamp,
    pub new_block_timestamp: Timestamp,
    pub reserve_factor: Balance,
}

/// The outputs of one accrual step.
#[derive(Clone, Copy, Debug, PartialEq, Eq, Structural)]
pub struct CalculateInterestOutput {
    pub borrow_index: Exp,
    pub total_borrows: Balance,
    pub total_reserves: Balance,
    pub interest_accumulated: Balance,
}

/// The absolute difference of the two timestamps.
pub open spec fn elapsed_spec(old_ts: Timestamp, new_ts: Timestamp) -> nat {
    if new_ts >= old_ts {
        (new_ts - old_ts) as nat
    } else {
        (old_ts - new_ts) as nat
    }
}

/// Interest accumulated over `delta` periods: the truncating fixed-point
/// product of `rate * delta` and the outstanding borrows.
pub open spec fn interest_accumulated_spec(rate: nat, delta: nat, borrows: nat) -> nat {
    mul_scalar_truncate_spec(rate * delta, borrows)
}

/// The borrow index grows by the same relative factor as the borrows.
pub open spec fn new_borrow_index_spec(rate: nat, delta: nat, index: nat) -> nat {
    mul_scalar_truncate_spec(rate * delta, index) + index
}

/// Reserves grow by the reserve factor's truncating share of the
/// accumulated interest.
pub open spec fn new_total_reserves_spec(rf: nat, interest: nat, reserves: nat) -> nat {
    mul_scalar_truncate_spec(rf, interest) + reserves
}

/// Whether every output of the accrual step fits the native balance
/// range.
pub open spec fn calculate_interest_fits(input: CalculateInterestInput) -> bool {
    let delta = elapsed_spec(input.old_block_timestamp, input.new_block_timestamp);
    let interest = interest_accumulated_spec(
        input.borrow_rate as nat,
        delta,
        input.total_borrows as nat,
    );
    &&& interest <= u128::MAX as nat
    &&& input.total_borrows as nat + interest <= u128::MAX as nat
    &&& new_total_reserves_spec(input.reserve_factor as nat, interest, input.total_reserves as nat)
        <= u128::MAX as nat
    &&& new_borrow_index_spec(input.borrow_rate as nat, delta, input.borrow_index.mantissa as nat)
        <= u128::MAX as nat
}

/// The exact outputs of one accrual step, assuming they fit.
pub open spec fn calculate_interest_output_spec(
    input: CalculateInterestInput,
) -> CalculateInterestOutput {
    let delta = elapsed_spec(input.old_block_timestamp, input.new_block_timestamp);
    let interest = interest_accumulated_spec(
        input.borrow_rate as nat,
        delta,
        input.total_borrows as nat,
    );
    CalculateInterestOutput {
        borrow_index: Exp {
            mantissa: new_borrow_index_spec(
                input.borrow_rate as nat,
                delta,
                input.borrow_index.mantissa as nat,
            ) as u128,
        },
        total_borrows: (input.total_borrows as nat + interest) as u128,
        total_reserves: new_total_reserves_spec(
            input.reserve_factor as nat,
            interest,
            input.total_reserves as nat,
        ) as u128,
        interest_accumulated: interest as u128,
    }
}

/// One accrual step.
///
/// With no elapsed time the step is an exact no-op; otherwise the four
/// outputs follow the truncating fixed-point rules, and a value beyond
/// the native balance range is a hard failure, never a silent
/// wraparound.
pub fn calculate_interest(input: &CalculateInterestInput) -> (r: Result<
    CalculateInterestOutput,
    Error,
>)
    requires
        input.borrow_rate <= BORROW_RATE_MAX_MANTISSA,
    ensures
        r is Ok <==> calculate_interest_fits(*input),
        r matches Ok(out) ==> out == calculate_interest_output_spec(*input),
        r is Err ==> r == Err::<CalculateInterestOutput, Error>(Error::BalanceOverflow),
        input.old_block_timestamp == input.new_block_timestamp ==> r == (Ok::<
            CalculateInterestOutput,
            Error,
        >(
            CalculateInterestOutput {
                borrow_index: input.borrow_index,
                total_borrows: input.total_borrows,
                total_reserves: input.total_reserves,
                interest_accumulated: 0,
            },
        )),
        r matches Ok(out) ==> out.total_borrows == input.total_borrows + out.interest_accumulated,
        r matches Ok(out) ==> out.borrow_index.mantissa >= input.borrow_index.mantissa,
{
    let delta: u64 = if input.new_block_timestamp >= input.old_block_timestamp {
        input.new_block_timestamp - input.old_block_timestamp
    } else {
        input.old_block_timestamp - input.new_block_timestamp
    };
    proof {
        vstd::arithmetic::mul::lemma_mul_upper_bound(
            input.borrow_rate as int,
            BORROW_RATE_MAX_MANTISSA as int,
            delta as int,
            u64::MAX as int,
        );
    }
    let simple_interest_factor = Exp { mantissa: input.borrow_rate * (delta as u128) };
    proof {
        if delta == 0 {
            assert(input.borrow_rate as nat * 0 == 0) by (nonlinear_arith);
            crate::exp::lemma_mul_scalar_truncate_zero(input.total_borrows as nat);
            crate::exp::lemma_mul_scalar_truncate_zero(input.borrow_index.mantissa as nat);
            crate::exp::lemma_mul_scalar_truncate_zero_scalar(input.reserve_factor as nat);
        }
    }

    let interest_accumulated = match simple_interest_factor.mul_scalar_truncate(
        input.total_borrows,
    ) {
        Some(v) => v,
        None => {
            return Err(Error::BalanceOverflow);
        },
    };
    if interest_accumulated > u128::MAX - input.total_borrows {
        return Err(Error::BalanceOverflow);
    }
    let total_borrows_new = input.total_borrows + interest_accumulated;
    let total_reserves_new = match (Exp { mantissa: input.reserve_factor })
        .mul_scalar_truncate_add_uint(interest_accumulated, input.total_reserves) {
        Some(v) => v,
        None => {
            return Err(Error::BalanceOverflow);
        },
    };
    let borrow_index_new = match simple_interest_factor.mul_scalar_truncate_add_uint(
        input.borrow_index.mantissa,
        input.borrow_index.mantissa,
    ) {
        Some(v) => v,
        None => {
            return Err(Error::BalanceOverflow);
        },
    };
    Ok(
        CalculateInterestOutput {
            borrow_index: Exp { mantissa: borrow_index_new },
            total_borrows: total_borrows_new,
            total_reserves: total_reserves_new,
            interest_accumulated,
        },
    )
}

} // verus!
