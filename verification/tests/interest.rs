use lending_pool::exp::{Exp, EXP_SCALE};
use lending_pool::interest::{calculate_interest, CalculateInterestInput};
use primitive_types::U256;

fn mantissa() -> U256 {
    U256::from(10).pow(U256::from(18))
}

#[test]
fn test_calculate_interest() {
    let old_timestamp: u64 = 0;
    let inputs: &[CalculateInterestInput] = &[
        CalculateInterestInput {
            old_block_timestamp: old_timestamp,
            new_block_timestamp: old_timestamp + mantissa().as_u64(),
            borrow_index: Exp { mantissa: 0 },
            borrow_rate: (mantissa() / U256::from(100000)).as_u128(), // 0.001 %
            reserve_factor: (mantissa() / U256::from(100)).as_u128(), // 1 %
            total_borrows: 10_000 * 10_u128.pow(18),
            total_reserves: 10_000 * 10_u128.pow(18),
        },
        CalculateInterestInput {
            old_block_timestamp: old_timestamp,
            new_block_timestamp: old_timestamp + 1000 * 60 * 60, // 1 hour
            borrow_index: Exp { mantissa: 123123123 },
            borrow_rate: (mantissa() / U256::from(1000000)).as_u128(),
            reserve_factor: (mantissa() / U256::from(10)).as_u128(),
            total_borrows: 100_000 * 10_u128.pow(18),
            total_reserves: 1_000_000 * 10_u128.pow(18),
        },
        CalculateInterestInput {
            old_block_timestamp: old_timestamp,
            new_block_timestamp: old_timestamp + 999 * 60 * 60 * 2345 * 123,
            borrow_index: Exp { mantissa: 123123123 },
            borrow_rate: (mantissa() / U256::from(123123)).as_u128(),
            reserve_factor: (mantissa() / U256::from(10) * U256::from(2)).as_u128(),
            total_borrows: 123_456 * 10_u128.pow(18),
            total_reserves: 789_012 * 10_u128.pow(18),
        },
    ];
    for input in inputs {
        let got = calculate_interest(input).unwrap();
        let delta = input.new_block_timestamp.abs_diff(input.old_block_timestamp);
        // interest accumulated should be (borrow rate * delta * total borrows)
        let interest_want = (U256::from(input.borrow_rate)
            * U256::from(input.new_block_timestamp - input.old_block_timestamp)
            * U256::from(input.total_borrows)
            / mantissa())
        .as_u128();
        let reserves_want = U256::from(input.reserve_factor) * U256::from(interest_want)
            / U256::from(10_u128.pow(18))
            + U256::from(input.total_reserves);
        assert_eq!(got.interest_accumulated, interest_want);
        assert_eq!(got.total_borrows, interest_want + input.total_borrows);
        assert_eq!(got.total_reserves, reserves_want.as_u128());
        let borrow_idx_want = U256::from(input.borrow_rate) * U256::from(delta)
            * U256::from(input.borrow_index.mantissa)
            / U256::from(10_u128.pow(18))
            + U256::from(input.borrow_index.mantissa);
        assert_eq!(U256::from(got.borrow_index.mantissa), borrow_idx_want);
    }
}

#[test]
fn no_elapsed_time_accrual_is_identity() {
    let input = CalculateInterestInput {
        old_block_timestamp: 5,
        new_block_timestamp: 5,
        borrow_index: Exp { mantissa: 3 * EXP_SCALE },
        borrow_rate: 123_456_789,
        reserve_factor: 10_u128.pow(16),
        total_borrows: 777,
        total_reserves: 55,
    };
    let out = calculate_interest(&input).unwrap();
    assert_eq!(out.interest_accumulated, 0);
    assert_eq!(out.total_borrows, 777);
    assert_eq!(out.total_reserves, 55);
    assert_eq!(out.borrow_index.mantissa, 3 * EXP_SCALE);
}

#[test]
fn accrual_conserves_borrows_and_grows_index() {
    let input = CalculateInterestInput {
        old_block_timestamp: 100,
        new_block_timestamp: 103,
        borrow_index: Exp { mantissa: EXP_SCALE },
        borrow_rate: 499,
        reserve_factor: 0,
        total_borrows: 10_u128.pow(18) + 7,
        total_reserves: 0,
    };
    let out = calculate_interest(&input).unwrap();
    // simple interest factor is 499 * 3 = 1497;
    // 1497 * (10^18 + 7) / 10^18 truncates to 1497
    assert_eq!(out.interest_accumulated, 1497);
    assert_eq!(out.total_borrows, input.total_borrows + out.interest_accumulated);
    assert!(out.borrow_index.mantissa >= input.borrow_index.mantissa);
    assert_eq!(out.borrow_index.mantissa, EXP_SCALE + 1497);
}

#[test]
fn truncation_floors_the_low_digits() {
    // 1.5 (fixed point) times 3 truncates the half away: 4, not 4.5
    let half = EXP_SCALE + EXP_SCALE / 2;
    let r = Exp { mantissa: half }.mul_scalar_truncate(3).unwrap();
    assert_eq!(r, 4);
}
