//! Removing liquidity: a burn of shares against a part of both reserves.

use vstd::prelude::*;
use crate::curve::{lemma_withdraw_amount_bounds, withdraw_amounts_from_shares, withdraw_quote};
use crate::error::AmmError;
use crate::pool::{PoolModel, PoolState};

verus! {

/// What a burn of `shares` under the floors `min_a` and `min_b` comes to:
/// the amount of each asset to pay out, or the reason the withdrawal is
/// refused.
///
/// The checks come in this order. A locked pool refuses with `PoolLocked`.
/// A burn of zero shares is an `InvalidAmount`. A burn of more shares than
/// are outstanding, which is any burn from an empty pool, fails with
/// `InsufficientLiquidity`. A payout below a floor fails with
/// `SlippageExceeded`.
pub open spec fn withdraw_outcome(pool: PoolModel, shares: int, min_a: int, min_b: int) -> Result<
    (int, int),
    AmmError,
> {
    if pool.locked {
        Err(AmmError::PoolLocked)
    } else if shares == 0 {
        Err(AmmError::InvalidAmount)
    } else {
        match withdraw_quote(pool.reserve_a, pool.reserve_b, pool.lp_supply, shares) {
            Err(e) => Err(e),
            Ok((amount_a, amount_b)) => {
                if amount_a < min_a || amount_b < min_b {
                    Err(AmmError::SlippageExceeded)
                } else {
                    Ok((amount_a, amount_b))
                }
            },
        }
    }
}

/// The pool once a withdrawal of the given amounts has been recorded.
pub open spec fn after_withdraw(pool: PoolModel, amount_a: int, amount_b: int, shares: int)
    -> PoolModel {
    PoolModel {
        reserve_a: pool.reserve_a - amount_a,
        reserve_b: pool.reserve_b - amount_b,
        lp_supply: pool.lp_supply - shares,
        ..pool
    }
}

/// Burns `shares_to_burn` shares for at least `min_a` of the first asset and
/// `min_b` of the second.
///
/// On success returns the amounts of the two assets to transfer out, and the
/// pool has recorded them and the burn. On failure the pool is unchanged.
pub fn withdraw(state: &mut PoolState, shares_to_burn: u64, min_a: u64, min_b: u64) -> (result:
    Result<(u64, u64), AmmError>)
    ensures
        match result {
            Ok((amount_a, amount_b)) => {
                &&& withdraw_outcome(
                    old(state)@,
                    shares_to_burn as int,
                    min_a as int,
                    min_b as int,
                ) == Ok::<(int, int), AmmError>((amount_a as int, amount_b as int))
                &&& final(state)@ == after_withdraw(
                    old(state)@,
                    amount_a as int,
                    amount_b as int,
                    shares_to_burn as int,
                )
            },
            Err(e) => {
                &&& withdraw_outcome(
                    old(state)@,
                    shares_to_burn as int,
                    min_a as int,
                    min_b as int,
                ) == Err::<(int, int), AmmError>(e)
                &&& final(state)@ == old(state)@
            },
        },
        final(state)@.valid(),
{
    proof {
        use_type_invariant(&*state);
    }
    if state.is_locked() {
        return Err(AmmError::PoolLocked);
    }
    if shares_to_burn == 0 {
        return Err(AmmError::InvalidAmount);
    }
    let reserve_a: u64 = state.reserve_a();
    let reserve_b: u64 = state.reserve_b();
    let lp_supply: u64 = state.lp_supply();
    let (amount_a, amount_b): (u64, u64) = match withdraw_amounts_from_shares(
        reserve_a,
        reserve_b,
        lp_supply,
        shares_to_burn,
    ) {
        Ok(amounts) => amounts,
        Err(e) => {
            return Err(e);
        },
    };
    if amount_a < min_a || amount_b < min_b {
        return Err(AmmError::SlippageExceeded);
    }
    proof {
        lemma_withdraw_amount_bounds(reserve_a as int, lp_supply as int, shares_to_burn as int);
        lemma_withdraw_amount_bounds(reserve_b as int, lp_supply as int, shares_to_burn as int);
    }
    state.record(reserve_a - amount_a, reserve_b - amount_b, lp_supply - shares_to_burn);
    Ok((amount_a, amount_b))
}

} // verus!
