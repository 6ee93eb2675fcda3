//! 18-decimal fixed-point arithmetic.
//!
//! A fixed-point number is an unsigned mantissa scaled by `10^18`.
//! Multiplication truncates (floors) the low-order 18 decimal digits;
//! addition is mantissa-exact.  Any value that leaves the native `u128`
//! magnitude is reported, never wrapped.

use vstd::prelude::*;

use crate::types::Balance;

verus! {

/// Mantissa of the fixed-point representation of 1.0, i.e. `10^18`.
pub const EXP_SCALE: u128 = 1_000_000_000_000_000_000;

/// An 18-decimal fixed-point number, held as its mantissa.
#[derive(Clone, Copy, Debug, PartialEq, Eq, Structural)]
pub struct Exp {
    pub mantissa: Balance,
}

/// The truncating fixed-point product of a mantissa `m` and a scalar `s`:
/// `m * s` with the 18 low-order decimal digits floored away.
pub open spec fn mul_scalar_truncate_spec(m: nat, s: nat) -> nat {
    (m * s) / (EXP_SCALE as nat)
}

/// Relies on `primitive_types::U256`: `From<u128>`, `Mul`, `Div`,
/// `PartialOrd` and `as_u128` compute `a * b / d` exactly over 256-bit
/// integers.  The product of two `u128` values always fits in 256 bits,
/// `d > 0` rules out the division-by-zero panic, and the comparison
/// guards the narrowing `as_u128` against its overflow panic.
#[verifier::external_body]
pub(crate) fn mul_div(a: u128, b: u128, d: u128) -> (r: Option<u128>)
    requires
        d > 0,
    ensures
        ({
            let q = (a as nat) * (b as nat) / (d as nat);
            r == (if q <= u128::MAX as nat {
                Some(q as u128)
            } else {
                None::<u128>
            })
        }),
{
    let wide = primitive_types::U256::from(a) * primitive_types::U256::from(b)
        / primitive_types::U256::from(d);
    if wide <= primitive_types::U256::from(u128::MAX) {
        Some(wide.as_u128())
    } else {
        None
    }
}

/// A zero mantissa multiplies to zero.
pub proof fn lemma_mul_scalar_truncate_zero(s: nat)
    ensures
        mul_scalar_truncate_spec(0, s) == 0,
{
    assert(0 * s == 0) by (nonlinear_arith);
}

/// A zero scalar multiplies to zero.
pub proof fn lemma_mul_scalar_truncate_zero_scalar(m: nat)
    ensures
        mul_scalar_truncate_spec(m, 0) == 0,
{
    assert(m * 0 == 0) by (nonlinear_arith);
}

impl Exp {
    /// The truncating product of this fixed-point number and the scalar
    /// `s`, or `None` where the result leaves the `u128` range.
    pub fn mul_scalar_truncate(self, s: Balance) -> (r: Option<Balance>)
        ensures
            ({
                let q = mul_scalar_truncate_spec(self.mantissa as nat, s as nat);
                r == (if q <= u128::MAX as nat {
                    Some(q as u128)
                } else {
                    None::<u128>
                })
            }),
    {
        mul_div(self.mantissa, s, EXP_SCALE)
    }

    /// The truncating product of this fixed-point number and `s`, plus
    /// the integer `a`, or `None` where either step leaves `u128`.
    pub fn mul_scalar_truncate_add_uint(self, s: Balance, a: Balance) -> (r: Option<Balance>)
        ensures
            ({
                let q = mul_scalar_truncate_spec(self.mantissa as nat, s as nat) + a as nat;
                r == (if q <= u128::MAX as nat {
                    Some(q as u128)
                } else {
                    None::<u128>
                })
            }),
    {
        match self.mul_scalar_truncate(s) {
            Some(t) => {
                if t <= u128::MAX - a {
                    Some(t + a)
                } else {
                    None
                }
            },
            None => None,
        }
    }
}

} // verus!
