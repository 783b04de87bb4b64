use amm::curve::{deposit_amounts_from_contribution, swap_output};
use amm::deposit::deposit;
use amm::error::AmmError;
use amm::pool::{init_pool, set_locked, PoolState, Side};
use amm::swap::swap;
use amm::withdraw::withdraw;

fn balances(pool: &PoolState) -> (u64, u64, u64) {
    (pool.reserve_a(), pool.reserve_b(), pool.lp_supply())
}

fn funded(reserve_a: u64, reserve_b: u64, lp_supply: u64, fee_bps: u16) -> PoolState {
    PoolState::from_balances(reserve_a, reserve_b, lp_supply, fee_bps, false).unwrap()
}

#[test]
fn first_deposit_sets_reserves_to_ceilings() {
    let mut pool = init_pool(30).unwrap();
    assert_eq!(deposit(&mut pool, 500, 1_000_000, 2_000_000), Ok((1_000_000, 2_000_000, 500)));
    assert_eq!(balances(&pool), (1_000_000, 2_000_000, 500));
}

#[test]
fn first_deposit_into_emptied_pool_sets_reserves_again() {
    let mut pool = init_pool(30).unwrap();
    deposit(&mut pool, 10, 100, 200).unwrap();
    withdraw(&mut pool, 10, 0, 0).unwrap();
    assert_eq!(deposit(&mut pool, 7, 3, 5), Ok((3, 5, 7)));
    assert_eq!(balances(&pool), (3, 5, 7));
}

#[test]
fn first_deposit_needs_both_assets() {
    let mut pool = init_pool(30).unwrap();
    assert_eq!(deposit(&mut pool, 500, 0, 2_000_000), Err(AmmError::InvalidAmount));
    assert_eq!(deposit(&mut pool, 500, 1_000_000, 0), Err(AmmError::InvalidAmount));
    assert_eq!(balances(&pool), (0, 0, 0));
}

#[test]
fn deposit_of_zero_contribution_is_invalid() {
    let mut empty = init_pool(30).unwrap();
    assert_eq!(deposit(&mut empty, 0, 10, 10), Err(AmmError::InvalidAmount));
    assert_eq!(balances(&empty), (0, 0, 0));
    let mut pool = funded(1000, 2000, 1000, 30);
    assert_eq!(deposit(&mut pool, 0, 10, 10), Err(AmmError::InvalidAmount));
    assert_eq!(balances(&pool), (1000, 2000, 1000));
}

#[test]
fn later_deposit_is_proportional() {
    let mut pool = funded(1000, 2000, 1000, 30);
    assert_eq!(deposit(&mut pool, 100, 1000, 1000), Ok((100, 200, 100)));
    assert_eq!(balances(&pool), (1100, 2200, 1100));
}

#[test]
fn later_deposit_rounds_amounts_up() {
    let mut pool = funded(1000, 3, 7, 30);
    assert_eq!(deposit(&mut pool, 1, 143, 1), Ok((143, 1, 1)));
    assert_eq!(balances(&pool), (1143, 4, 8));
}

#[test]
fn deposit_at_ceiling_succeeds_and_above_fails() {
    let mut pool = funded(1000, 2000, 1000, 30);
    assert_eq!(deposit(&mut pool, 100, 99, 200), Err(AmmError::SlippageExceeded));
    assert_eq!(deposit(&mut pool, 100, 100, 199), Err(AmmError::SlippageExceeded));
    assert_eq!(balances(&pool), (1000, 2000, 1000));
    assert_eq!(deposit(&mut pool, 100, 100, 200), Ok((100, 200, 100)));
}

#[test]
fn deposit_beyond_64_bits_is_math_error() {
    let mut pool = funded(u64::MAX, 1, 1, 30);
    // The amount of the first asset would be twice the largest value.
    assert_eq!(deposit(&mut pool, 2, u64::MAX, u64::MAX), Err(AmmError::MathError));
    // The amount fits, the new reserve does not.
    assert_eq!(deposit(&mut pool, 1, u64::MAX, u64::MAX), Err(AmmError::MathError));
    assert_eq!(balances(&pool), (u64::MAX, 1, 1));
    let mut full = funded(1, 1, u64::MAX, 30);
    // The amounts round up to one unit each, the new supply does not fit.
    assert_eq!(deposit(&mut full, 1, 1, 1), Err(AmmError::MathError));
    assert_eq!(balances(&full), (1, 1, u64::MAX));
}

#[test]
fn withdraw_pays_share_of_reserves() {
    let mut pool = funded(1000, 2000, 1000, 30);
    assert_eq!(withdraw(&mut pool, 333, 0, 0), Ok((333, 666)));
    assert_eq!(balances(&pool), (667, 1334, 667));
}

#[test]
fn withdraw_rounds_amounts_down() {
    let mut pool = funded(10, 7, 3, 30);
    assert_eq!(withdraw(&mut pool, 2, 0, 0), Ok((6, 4)));
    assert_eq!(balances(&pool), (4, 3, 1));
}

#[test]
fn withdraw_of_zero_shares_is_invalid() {
    let mut pool = funded(1000, 2000, 1000, 30);
    assert_eq!(withdraw(&mut pool, 0, 0, 0), Err(AmmError::InvalidAmount));
    assert_eq!(balances(&pool), (1000, 2000, 1000));
}

#[test]
fn withdraw_beyond_supply_is_insufficient_liquidity() {
    let mut pool = funded(1000, 2000, 1000, 30);
    assert_eq!(withdraw(&mut pool, 1001, 0, 0), Err(AmmError::InsufficientLiquidity));
    assert_eq!(balances(&pool), (1000, 2000, 1000));
    let mut empty = init_pool(30).unwrap();
    assert_eq!(withdraw(&mut empty, 1, 0, 0), Err(AmmError::InsufficientLiquidity));
    assert_eq!(balances(&empty), (0, 0, 0));
}

#[test]
fn withdraw_at_floor_succeeds_and_below_fails() {
    let mut pool = funded(1000, 2000, 1000, 30);
    assert_eq!(withdraw(&mut pool, 333, 334, 666), Err(AmmError::SlippageExceeded));
    assert_eq!(withdraw(&mut pool, 333, 333, 667), Err(AmmError::SlippageExceeded));
    assert_eq!(balances(&pool), (1000, 2000, 1000));
    assert_eq!(withdraw(&mut pool, 333, 333, 666), Ok((333, 666)));
}

#[test]
fn full_withdrawal_leaves_no_dust() {
    let mut pool = funded(1_000_003, 999_983, 77_777, 30);
    assert_eq!(withdraw(&mut pool, 77_777, 0, 0), Ok((1_000_003, 999_983)));
    assert_eq!(balances(&pool), (0, 0, 0));
    assert_eq!(pool, init_pool(30).unwrap());
}

#[test]
fn full_withdrawal_after_trading_leaves_no_dust() {
    let mut pool = init_pool(30).unwrap();
    deposit(&mut pool, 1000, 1_000_000, 1_000_000).unwrap();
    swap(&mut pool, Side::A, 12_345, 0).unwrap();
    deposit(&mut pool, 17, u64::MAX, u64::MAX).unwrap();
    swap(&mut pool, Side::B, 999, 0).unwrap();
    let (reserve_a, reserve_b, lp_supply) = balances(&pool);
    assert_eq!(withdraw(&mut pool, lp_supply, 0, 0), Ok((reserve_a, reserve_b)));
    assert_eq!(balances(&pool), (0, 0, 0));
}

#[test]
fn round_trip_returns_at_most_deposit() {
    let mut pool = funded(1000, 3, 7, 30);
    let (amount_a, amount_b, minted) = deposit(&mut pool, 1, u64::MAX, u64::MAX).unwrap();
    assert_eq!((amount_a, amount_b, minted), (143, 1, 1));
    assert_eq!(withdraw(&mut pool, minted, 0, 0), Ok((142, 0)));
}

#[test]
fn round_trip_of_exact_share_returns_deposit() {
    let mut pool = funded(1000, 2000, 1000, 30);
    let (amount_a, amount_b, minted) = deposit(&mut pool, 100, u64::MAX, u64::MAX).unwrap();
    assert_eq!(withdraw(&mut pool, minted, 0, 0), Ok((amount_a, amount_b)));
    assert_eq!(balances(&pool), (1000, 2000, 1000));
}

#[test]
fn round_trip_of_first_deposit_returns_deposit() {
    let mut pool = init_pool(30).unwrap();
    let (amount_a, amount_b, minted) = deposit(&mut pool, 12, 345, 6789).unwrap();
    assert_eq!(withdraw(&mut pool, minted, 0, 0), Ok((amount_a, amount_b)));
    assert_eq!(balances(&pool), (0, 0, 0));
}

#[test]
fn swap_of_first_asset_moves_both_reserves() {
    let mut pool = funded(1_000_000, 1_000_000, 1000, 30);
    assert_eq!(swap(&mut pool, Side::A, 1000, 0), Ok(996));
    assert_eq!(balances(&pool), (1_001_000, 999_004, 1000));
}

#[test]
fn swap_of_second_asset_moves_both_reserves() {
    let mut pool = funded(1_000_000, 2_000_000, 1000, 30);
    assert_eq!(swap(&mut pool, Side::B, 1000, 0), Ok(498));
    assert_eq!(balances(&pool), (999_502, 2_001_000, 1000));
}

#[test]
fn swap_with_fee_raises_product() {
    let mut pool = funded(1_000_000, 1_000_000, 1000, 1);
    assert_eq!(swap(&mut pool, Side::A, 10_000, 0), Ok(9900));
    let product = pool.reserve_a() as u128 * pool.reserve_b() as u128;
    assert_eq!(product, 1_000_001_000_000);
    assert!(product > 1_000_000_000_000);
}

#[test]
fn swap_without_fee_keeps_product_from_falling() {
    let mut pool = funded(500, 1000, 10, 0);
    assert_eq!(swap(&mut pool, Side::A, 250, 0), Ok(333));
    assert_eq!(balances(&pool), (750, 667, 10));
    assert!(750 * 667 >= 500 * 1000);
}

#[test]
fn swap_at_floor_succeeds_and_one_below_fails() {
    let mut pool = funded(1_000_000, 1_000_000, 1000, 30);
    assert_eq!(swap(&mut pool, Side::A, 1000, 997), Err(AmmError::SlippageExceeded));
    assert_eq!(balances(&pool), (1_000_000, 1_000_000, 1000));
    assert_eq!(swap(&mut pool, Side::A, 1000, 996), Ok(996));
    assert_eq!(balances(&pool), (1_001_000, 999_004, 1000));
}

#[test]
fn swap_of_zero_input_is_invalid() {
    let mut pool = funded(1_000_000, 1_000_000, 1000, 30);
    assert_eq!(swap(&mut pool, Side::A, 0, 0), Err(AmmError::InvalidAmount));
    assert_eq!(swap(&mut pool, Side::B, 0, 0), Err(AmmError::InvalidAmount));
    assert_eq!(balances(&pool), (1_000_000, 1_000_000, 1000));
}

#[test]
fn swap_against_empty_pool_is_insufficient_liquidity() {
    let mut pool = init_pool(30).unwrap();
    assert_eq!(swap(&mut pool, Side::A, 1000, 0), Err(AmmError::InsufficientLiquidity));
    assert_eq!(swap(&mut pool, Side::B, 1000, 0), Err(AmmError::InsufficientLiquidity));
    assert_eq!(balances(&pool), (0, 0, 0));
}

#[test]
fn swap_of_dust_is_insufficient_liquidity() {
    let mut pool = funded(1_000_000, 1_000_000, 1000, 30);
    assert_eq!(swap(&mut pool, Side::A, 1, 0), Err(AmmError::InsufficientLiquidity));
    assert_eq!(balances(&pool), (1_000_000, 1_000_000, 1000));
}

#[test]
fn swap_beyond_64_bits_is_math_error() {
    let mut pool = funded(u64::MAX, u64::MAX, 1, 0);
    assert_eq!(swap(&mut pool, Side::A, 1000, 0), Err(AmmError::MathError));
    assert_eq!(balances(&pool), (u64::MAX, u64::MAX, 1));
}

#[test]
fn swap_leaves_bought_reserve_positive() {
    let mut pool = funded(1, 1, 1, 0);
    assert_eq!(swap(&mut pool, Side::A, u64::MAX - 1, 0), Err(AmmError::InsufficientLiquidity));
    let mut deep = funded(1, 1000, 1, 0);
    assert_eq!(swap(&mut deep, Side::A, u64::MAX - 1, 0), Ok(999));
    assert_eq!(balances(&deep), (u64::MAX, 1, 1));
}

#[test]
fn locked_pool_rejects_deposit() {
    let mut pool = funded(1000, 2000, 1000, 30);
    set_locked(&mut pool, true);
    assert_eq!(deposit(&mut pool, 100, 1000, 1000), Err(AmmError::PoolLocked));
    assert_eq!(deposit(&mut pool, 0, 0, 0), Err(AmmError::PoolLocked));
    assert_eq!(balances(&pool), (1000, 2000, 1000));
}

#[test]
fn locked_pool_rejects_withdraw() {
    let mut pool = funded(1000, 2000, 1000, 30);
    set_locked(&mut pool, true);
    assert_eq!(withdraw(&mut pool, 100, 0, 0), Err(AmmError::PoolLocked));
    assert_eq!(withdraw(&mut pool, 0, 0, 0), Err(AmmError::PoolLocked));
    assert_eq!(balances(&pool), (1000, 2000, 1000));
}

#[test]
fn locked_pool_rejects_swap() {
    let mut pool = funded(1000, 2000, 1000, 30);
    set_locked(&mut pool, true);
    assert_eq!(swap(&mut pool, Side::A, 100, 0), Err(AmmError::PoolLocked));
    assert_eq!(swap(&mut pool, Side::B, 0, 0), Err(AmmError::PoolLocked));
    assert_eq!(balances(&pool), (1000, 2000, 1000));
}

#[test]
fn locked_empty_pool_rejects_first_deposit() {
    let mut pool = init_pool(30).unwrap();
    set_locked(&mut pool, true);
    assert_eq!(deposit(&mut pool, 500, 1000, 1000), Err(AmmError::PoolLocked));
    assert_eq!(balances(&pool), (0, 0, 0));
}

#[test]
fn unlocked_pool_works_again() {
    let mut pool = funded(1000, 2000, 1000, 30);
    set_locked(&mut pool, true);
    set_locked(&mut pool, false);
    assert_eq!(deposit(&mut pool, 100, 1000, 1000), Ok((100, 200, 100)));
    assert_eq!(withdraw(&mut pool, 100, 0, 0), Ok((100, 200)));
    assert_eq!(swap(&mut pool, Side::A, 100, 0), Ok(180));
}

#[test]
fn deposit_brings_the_amounts_of_the_curve() {
    let mut pool = funded(12_345, 67_890, 1000, 30);
    let quoted = deposit_amounts_from_contribution(12_345, 67_890, 1000, 7, 100, 500).unwrap();
    assert_eq!(quoted, (87, 476));
    assert_eq!(deposit(&mut pool, 7, 100, 500), Ok((quoted.0, quoted.1, 7)));
    let mut empty = init_pool(30).unwrap();
    let first = deposit_amounts_from_contribution(0, 0, 0, 7, 100, 500).unwrap();
    assert_eq!(deposit(&mut empty, 7, 100, 500), Ok((first.0, first.1, 7)));
}

#[test]
fn swap_pays_the_output_of_the_curve() {
    let mut pool = funded(12_345, 67_890, 1000, 250);
    let quoted = swap_output(67_890, 12_345, 5000, 250).unwrap();
    assert_eq!(quoted, 827);
    assert_eq!(swap(&mut pool, Side::B, 5000, 0), Ok(quoted));
    assert_eq!(balances(&pool), (12_345 - quoted, 72_890, 1000));
}

#[test]
fn operations_through_crate_root_names() {
    let mut pool = amm::init_pool(30).unwrap();
    assert_eq!(deposit(&mut pool, 10, 20, 30), Ok((20, 30, 10)));
    amm::set_locked(&mut pool, true);
    assert_eq!(swap(&mut pool, amm::Side::A, 5, 0), Err(amm::AmmError::PoolLocked));
    assert_eq!(pool, amm::PoolState::from_balances(20, 30, 10, 30, true).unwrap());
}
