//! Trading one asset of the pool for the other.

use vstd::prelude::*;
use crate::curve::{lemma_swap_amount_out_bounds, swap_output, swap_quote};
use crate::error::AmmError;
use crate::pool::{PoolModel, PoolState, Side};

verus! {

/// What a sale of `amount_in` of the asset on `side` for at least
/// `min_amount_out` of the other comes to: the amount to pay out, or the
/// reason the swap is refused.
///
/// The checks come in this order. A locked pool refuses with `PoolLocked`.
/// An input of zero is an `InvalidAmount`. An empty pool, and a trade too
/// small to pay out a single unit, fails with `InsufficientLiquidity`. A
/// payout below the floor fails with `SlippageExceeded`, and an input that
/// would take the reserve out of the 64-bit range with `MathError`.
pub open spec fn swap_outcome(pool: PoolModel, side: Side, amount_in: int, min_amount_out: int)
    -> Result<int, AmmError> {
    if pool.locked {
        Err(AmmError::PoolLocked)
    } else if amount_in == 0 {
        Err(AmmError::InvalidAmount)
    } else {
        match swap_quote(pool.reserve(side), pool.reserve(side.other()), amount_in, pool.fee_bps) {
            Err(e) => Err(e),
            Ok(amount_out) => {
                if amount_out < min_amount_out {
                    Err(AmmError::SlippageExceeded)
                } else if pool.reserve(side) + amount_in > u64::MAX {
                    Err(AmmError::MathError)
                } else {
                    Ok(amount_out)
                }
            },
        }
    }
}

/// The pool once a swap has been recorded: the whole input, fee included,
/// joins the reserve of the sold asset, and the payout leaves the other.
pub open spec fn after_swap(pool: PoolModel, side: Side, amount_in: int, amount_out: int)
    -> PoolModel {
    match side {
        Side::A => PoolModel {
            reserve_a: pool.reserve_a + amount_in,
            reserve_b: pool.reserve_b - amount_out,
            ..pool
        },
        Side::B => PoolModel {
            reserve_a: pool.reserve_a - amount_out,
            reserve_b: pool.reserve_b + amount_in,
            ..pool
        },
    }
}

/// Sells `amount_in` of the asset on `side` for at least `min_amount_out` of
/// the other asset.
///
/// On success returns the amount of the other asset to transfer out, and
/// the pool has recorded both movements. On failure the pool is unchanged.
pub fn swap(state: &mut PoolState, side: Side, amount_in: u64, min_amount_out: u64) -> (result:
    Result<u64, AmmError>)
    ensures
        match result {
            Ok(amount_out) => {
                &&& swap_outcome(old(state)@, side, amount_in as int, min_amount_out as int)
                    == Ok::<int, AmmError>(amount_out as int)
                &&& final(state)@ == after_swap(
                    old(state)@,
                    side,
                    amount_in as int,
                    amount_out as int,
                )
            },
            Err(e) => {
                &&& swap_outcome(old(state)@, side, amount_in as int, min_amount_out as int)
                    == Err::<int, AmmError>(e)
                &&& final(state)@ == old(state)@
            },
        },
        final(state)@.valid(),
{
    proof {
        use_type_invariant(&*state);
    }
    if state.is_locked() {
        return Err(AmmError::PoolLocked);
    }
    if amount_in == 0 {
        return Err(AmmError::InvalidAmount);
    }
    let reserve_in: u64 = state.reserve(side);
    let reserve_out: u64 = state.reserve(side.opposite());
    let fee_bps: u16 = state.fee_bps();
    let amount_out: u64 = match swap_output(reserve_in, reserve_out, amount_in, fee_bps) {
        Ok(amount) => amount,
        Err(e) => {
            return Err(e);
        },
    };
    if amount_out < min_amount_out {
        return Err(AmmError::SlippageExceeded);
    }
    let new_in: u64 = match reserve_in.checked_add(amount_in) {
        Some(sum) => sum,
        None => {
            return Err(AmmError::MathError);
        },
    };
    proof {
        lemma_swap_amount_out_bounds(
            reserve_in as int,
            reserve_out as int,
            amount_in as int,
            fee_bps as int,
        );
    }
    let new_out: u64 = reserve_out - amount_out;
    let lp_supply: u64 = state.lp_supply();
    match side {
        Side::A => state.record(new_in, new_out, lp_supply),
        Side::B => state.record(new_out, new_in, lp_supply),
    }
    Ok(amount_out)
}

} // verus!
