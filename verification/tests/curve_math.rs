use amm::curve::{
    deposit_amounts_from_contribution, proportional_deposit_amounts, swap_output,
    withdraw_amounts_from_shares, DECIMALS, MAX_FEE_BPS,
};
use amm::error::AmmError;

#[test]
fn constants_have_their_values() {
    assert_eq!(MAX_FEE_BPS, 10_000);
    assert_eq!(DECIMALS, 6);
}

#[test]
fn swap_output_matches_formula() {
    assert_eq!(swap_output(1_000_000, 1_000_000, 1000, 30), Ok(996));
    assert_eq!(swap_output(1_000_000, 2_000_000, 1000, 30), Ok(1992));
    assert_eq!(swap_output(2_000_000, 1_000_000, 1000, 30), Ok(498));
    assert_eq!(swap_output(500, 1000, 250, 0), Ok(333));
    assert_eq!(swap_output(500, 1000, 250, 100), Ok(330));
    assert_eq!(swap_output(100, 100, 100, 0), Ok(50));
}

#[test]
fn swap_output_rounds_in_favour_of_pool() {
    // 1_000_000 * 1_000_000 / 1_009_999 is 990_099.99..: the pool keeps 990_100.
    assert_eq!(swap_output(1_000_000, 1_000_000, 10_000, 1), Ok(9900));
}

#[test]
fn swap_output_rejects_empty_reserve() {
    assert_eq!(swap_output(0, 1_000_000, 1000, 30), Err(AmmError::InsufficientLiquidity));
    assert_eq!(swap_output(1_000_000, 0, 1000, 30), Err(AmmError::InsufficientLiquidity));
    assert_eq!(swap_output(0, 0, 1000, 30), Err(AmmError::InsufficientLiquidity));
}

#[test]
fn swap_output_rejects_dust() {
    assert_eq!(swap_output(1_000_000, 1_000_000, 1, 30), Err(AmmError::InsufficientLiquidity));
    assert_eq!(swap_output(1_000_000, 1_000_000, 1, 0), Err(AmmError::InsufficientLiquidity));
    assert_eq!(swap_output(1_000_000, 1_000_000, 0, 30), Err(AmmError::InsufficientLiquidity));
    assert_eq!(swap_output(1_000_000, 1_000_000, 2, 0), Ok(1));
}

#[test]
fn swap_output_with_full_fee_pays_nothing() {
    assert_eq!(
        swap_output(1_000_000, 1_000_000, 1000, 10_000),
        Err(AmmError::InsufficientLiquidity)
    );
}

#[test]
fn swap_output_rejects_fee_above_maximum() {
    assert_eq!(swap_output(1_000_000, 1_000_000, 1000, 10_001), Err(AmmError::InvalidFee));
    assert_eq!(swap_output(0, 0, 0, u16::MAX), Err(AmmError::InvalidFee));
}

#[test]
fn swap_output_handles_largest_values() {
    assert_eq!(swap_output(u64::MAX, u64::MAX, u64::MAX, 0), Ok(9_223_372_036_854_775_807));
}

#[test]
fn proportional_deposit_amounts_match_formula() {
    assert_eq!(proportional_deposit_amounts(1000, 2000, 1000, 100), Ok((100, 200)));
    assert_eq!(proportional_deposit_amounts(12_345, 67_890, 1000, 7), Ok((87, 476)));
    assert_eq!(proportional_deposit_amounts(5, 3, 2, 1), Ok((3, 2)));
}

#[test]
fn proportional_deposit_amounts_round_up() {
    // One share of seven is 142.857.. of 1000 and 0.428.. of 3.
    assert_eq!(proportional_deposit_amounts(1000, 3, 7, 1), Ok((143, 1)));
}

#[test]
fn proportional_deposit_amounts_of_small_share_are_exact() {
    // 100 shares of 10^9 are one ten-millionth of each reserve.
    assert_eq!(
        proportional_deposit_amounts(1_000_000_000_000, 1_000_000_000, 1_000_000_000, 100),
        Ok((100_000, 100))
    );
    assert_eq!(
        proportional_deposit_amounts(1_000_000_000_000, 1_000_000_000, 1_000_000_000, 1),
        Ok((1000, 1))
    );
}

#[test]
fn proportional_deposit_amounts_are_least_that_cover_share() {
    let cases: [(u64, u64, u64); 6] = [
        (1000, 7, 1),
        (3, 7, 1),
        (12_345, 1000, 7),
        (u64::MAX, u64::MAX, u64::MAX - 1),
        (u64::MAX - 1, u64::MAX, u64::MAX),
        (1, u64::MAX, 1),
    ];
    for (reserve, lp_supply, contribution) in cases {
        let (amount, _) =
            proportional_deposit_amounts(reserve, reserve, lp_supply, contribution).unwrap();
        let owed = reserve as u128 * contribution as u128;
        assert!(amount as u128 * lp_supply as u128 >= owed);
        assert!(amount as u128 * (lp_supply as u128) < owed + lp_supply as u128);
    }
}

#[test]
fn proportional_deposit_amounts_of_zero_shares_are_zero() {
    assert_eq!(proportional_deposit_amounts(1000, 2000, 1000, 0), Ok((0, 0)));
}

#[test]
fn proportional_deposit_amounts_fail_without_supply() {
    assert_eq!(proportional_deposit_amounts(1000, 2000, 0, 100), Err(AmmError::MathError));
    assert_eq!(proportional_deposit_amounts(0, 0, 0, 100), Err(AmmError::MathError));
}

#[test]
fn proportional_deposit_amounts_fail_beyond_64_bits() {
    assert_eq!(proportional_deposit_amounts(u64::MAX, 1, 1, 1), Ok((u64::MAX, 1)));
    assert_eq!(proportional_deposit_amounts(u64::MAX, 1, 1, 2), Err(AmmError::MathError));
    assert_eq!(proportional_deposit_amounts(1, u64::MAX, 1, 2), Err(AmmError::MathError));
    assert_eq!(
        proportional_deposit_amounts(u64::MAX, u64::MAX, 1, u64::MAX),
        Err(AmmError::MathError)
    );
}

#[test]
fn deposit_amounts_in_bootstrap_are_the_ceilings() {
    assert_eq!(deposit_amounts_from_contribution(0, 0, 0, 100, 99, 200), Ok((99, 200)));
    assert_eq!(deposit_amounts_from_contribution(0, 0, 0, 1, u64::MAX, 0), Ok((u64::MAX, 0)));
}

#[test]
fn deposit_amounts_in_funded_pool_are_proportional() {
    assert_eq!(deposit_amounts_from_contribution(1000, 2000, 1000, 100, 100, 200), Ok((100, 200)));
    assert_eq!(
        deposit_amounts_from_contribution(1000, 2000, 1000, 100, u64::MAX, u64::MAX),
        Ok((100, 200))
    );
}

#[test]
fn deposit_amounts_above_ceiling_are_math_error() {
    assert_eq!(
        deposit_amounts_from_contribution(1000, 2000, 1000, 100, 99, 200),
        Err(AmmError::MathError)
    );
    assert_eq!(
        deposit_amounts_from_contribution(1000, 2000, 1000, 100, 100, 199),
        Err(AmmError::MathError)
    );
}

#[test]
fn deposit_amounts_without_supply_are_math_error() {
    assert_eq!(
        deposit_amounts_from_contribution(1000, 2000, 0, 100, u64::MAX, u64::MAX),
        Err(AmmError::MathError)
    );
    assert_eq!(
        deposit_amounts_from_contribution(0, 1, 0, 100, u64::MAX, u64::MAX),
        Err(AmmError::MathError)
    );
}

#[test]
fn withdraw_amounts_match_formula() {
    assert_eq!(withdraw_amounts_from_shares(1000, 2000, 1000, 333), Ok((333, 666)));
    assert_eq!(withdraw_amounts_from_shares(10, 7, 3, 2), Ok((6, 4)));
    assert_eq!(withdraw_amounts_from_shares(1143, 4, 8, 1), Ok((142, 0)));
    assert_eq!(withdraw_amounts_from_shares(1000, 2000, 1000, 0), Ok((0, 0)));
}

#[test]
fn withdraw_amounts_of_whole_supply_are_the_reserves() {
    assert_eq!(withdraw_amounts_from_shares(1000, 2000, 1000, 1000), Ok((1000, 2000)));
    assert_eq!(
        withdraw_amounts_from_shares(u64::MAX, u64::MAX, u64::MAX, u64::MAX),
        Ok((u64::MAX, u64::MAX))
    );
    assert_eq!(withdraw_amounts_from_shares(17, 3, 7, 7), Ok((17, 3)));
}

#[test]
fn withdraw_amounts_fail_in_bootstrap() {
    assert_eq!(withdraw_amounts_from_shares(0, 0, 0, 1), Err(AmmError::InsufficientLiquidity));
    assert_eq!(withdraw_amounts_from_shares(0, 0, 0, 0), Err(AmmError::InsufficientLiquidity));
}

#[test]
fn withdraw_amounts_fail_beyond_supply() {
    assert_eq!(
        withdraw_amounts_from_shares(1000, 2000, 1000, 1001),
        Err(AmmError::InsufficientLiquidity)
    );
}

#[test]
fn swap_output_is_share_of_reserve_rounded_down() {
    let cases: [(u64, u64, u64, u16); 6] = [
        (1_000_000, 1_000_000, 1000, 30),
        (1_000_000, 1_000_000, 10_000, 1),
        (500, 1000, 250, 100),
        (7, 1_000_003, 999_983, 250),
        (u64::MAX, 12_345, u64::MAX, 9999),
        (3, u64::MAX, 5, 0),
    ];
    for (reserve_in, reserve_out, amount_in, fee_bps) in cases {
        let after_fee = amount_in as u128 * (10_000 - fee_bps as u128) / 10_000;
        let expected = after_fee * reserve_out as u128 / (reserve_in as u128 + after_fee);
        assert!(expected > 0);
        assert_eq!(
            swap_output(reserve_in, reserve_out, amount_in, fee_bps),
            Ok(expected as u64)
        );
    }
}
