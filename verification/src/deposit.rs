//! Adding liquidity: a contribution of both assets against newly minted shares.

use vstd::prelude::*;
use crate::curve::{proportional_deposit_amounts, proportional_deposit_quote};
use crate::error::AmmError;
use crate::pool::{PoolModel, PoolState};

verus! {

/// What a deposit for `contribution` shares under the ceilings `max_a` and
/// `max_b` comes to: the amount of each asset to bring and the number of
/// shares to mint, or the reason the deposit is refused.
///
/// The checks come in this order. A locked pool refuses with `PoolLocked`.
/// A contribution of zero, and for an empty pool a ceiling of zero, is an
/// `InvalidAmount`. An empty pool takes the ceilings as the amounts. A
/// funded pool takes the proportional pair: where it cannot be computed the
/// deposit fails with `MathError`, where it passes a ceiling with
/// `SlippageExceeded`, and where a balance would leave the 64-bit range
/// with `MathError` again.
pub open spec fn deposit_outcome(pool: PoolModel, contribution: int, max_a: int, max_b: int)
    -> Result<(int, int, int), AmmError> {
    if pool.locked {
        Err(AmmError::PoolLocked)
    } else if contribution == 0 {
        Err(AmmError::InvalidAmount)
    } else if pool.is_empty() {
        if max_a == 0 || max_b == 0 {
            Err(AmmError::InvalidAmount)
        } else {
            Ok((max_a, max_b, contribution))
        }
    } else {
        match proportional_deposit_quote(
            pool.reserve_a,
            pool.reserve_b,
            pool.lp_supply,
            contribution,
        ) {
            Err(e) => Err(e),
            Ok((amount_a, amount_b)) => {
                if amount_a > max_a || amount_b > max_b {
                    Err(AmmError::SlippageExceeded)
                } else if pool.reserve_a + amount_a > u64::MAX || pool.reserve_b + amount_b
                    > u64::MAX || pool.lp_supply + contribution > u64::MAX {
                    Err(AmmError::MathError)
                } else {
                    Ok((amount_a, amount_b, contribution))
                }
            },
        }
    }
}

/// The pool once a deposit of the given amounts has been recorded.
pub open spec fn after_deposit(pool: PoolModel, amount_a: int, amount_b: int, lp_delta: int)
    -> PoolModel {
    PoolModel {
        reserve_a: pool.reserve_a + amount_a,
        reserve_b: pool.reserve_b + amount_b,
        lp_supply: pool.lp_supply + lp_delta,
        ..pool
    }
}

/// Deposits liquidity for `contribution` shares, bringing at most `max_a` of
/// the first asset and `max_b` of the second.
///
/// On success returns the amounts of the two assets to transfer in and the
/// number of shares to mint, and the pool has recorded all three. On
/// failure the pool is unchanged.
pub fn deposit(state: &mut PoolState, contribution: u64, max_a: u64, max_b: u64) -> (result:
    Result<(u64, u64, u64), AmmError>)
    ensures
        match result {
            Ok((amount_a, amount_b, lp_delta)) => {
                &&& deposit_outcome(
                    old(state)@,
                    contribution as int,
                    max_a as int,
                    max_b as int,
                ) == Ok::<(int, int, int), AmmError>(
                    (amount_a as int, amount_b as int, lp_delta as int),
                )
                &&& final(state)@ == after_deposit(
                    old(state)@,
                    amount_a as int,
                    amount_b as int,
                    lp_delta as int,
                )
            },
            Err(e) => {
                &&& deposit_outcome(
                    old(state)@,
                    contribution as int,
                    max_a as int,
                    max_b as int,
                ) == Err::<(int, int, int), AmmError>(e)
                &&& final(state)@ == old(state)@
            },
        },
        final(state)@.valid(),
{
    proof {
        use_type_invariant(&*state);
    }
    if state.is_locked() {
        return Err(AmmError::PoolLocked);
    }
    if contribution == 0 {
        return Err(AmmError::InvalidAmount);
    }
    let reserve_a: u64 = state.reserve_a();
    let reserve_b: u64 = state.reserve_b();
    let lp_supply: u64 = state.lp_supply();
    let (amount_a, amount_b): (u64, u64) = if lp_supply == 0 {
        if max_a == 0 || max_b == 0 {
            return Err(AmmError::InvalidAmount);
        }
        (max_a, max_b)
    } else {
        match proportional_deposit_amounts(reserve_a, reserve_b, lp_supply, contribution) {
            Ok(amounts) => amounts,
            Err(e) => {
                return Err(e);
            },
        }
    };
    if amount_a > max_a || amount_b > max_b {
        return Err(AmmError::SlippageExceeded);
    }
    let new_a: u64 = match reserve_a.checked_add(amount_a) {
        Some(sum) => sum,
        None => {
            return Err(AmmError::MathError);
        },
    };
    let new_b: u64 = match reserve_b.checked_add(amount_b) {
        Some(sum) => sum,
        None => {
            return Err(AmmError::MathError);
        },
    };
    let new_supply: u64 = match lp_supply.checked_add(contribution) {
        Some(sum) => sum,
        None => {
            return Err(AmmError::MathError);
        },
    };
    state.record(new_a, new_b, new_supply);
    Ok((amount_a, amount_b, contribution))
}

} // verus!
