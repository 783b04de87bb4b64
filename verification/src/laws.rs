//! What holds of every pool and every operation, proved from the outcomes
//! that the operations are specified by.

use vstd::prelude::*;
use crate::arith::{lemma_ceil_div_bounds, lemma_floor_div_unique};
use crate::curve::{
    amount_after_fee, deposit_amount, deposit_quote, lemma_amount_after_fee_bounds,
    lemma_burn_returns_at_most_deposit,
    lemma_deposit_amount_covers_share, lemma_deposit_amounts_in_ratio,
    lemma_swap_amount_out_bounds, lemma_swap_raises_product, lemma_withdraw_amount_bounds,
    lemma_withdraw_amount_within_share, reserve_out_after_swap, swap_amount_out,
    withdraw_amount, MAX_FEE_BPS,
};
use crate::deposit::{after_deposit, deposit_outcome};
use crate::error::AmmError;
use crate::pool::{PoolModel, Side};
use crate::swap::{after_swap, swap_outcome};
use crate::withdraw::{after_withdraw, withdraw_outcome};

verus! {

/// The first deposit into an empty, unlocked pool succeeds whenever the
/// contribution and both ceilings are positive. It brings exactly the
/// ceilings and mints exactly the contribution, so the reserves become
/// `max_a` and `max_b` and the supply becomes `contribution`.
pub proof fn first_deposit_sets_reserves(
    pool: PoolModel,
    contribution: u64,
    max_a: u64,
    max_b: u64,
)
    requires
        pool.valid(),
        pool.is_empty(),
        !pool.locked,
        contribution > 0,
        max_a > 0,
        max_b > 0,
    ensures
        deposit_outcome(pool, contribution as int, max_a as int, max_b as int) == Ok::<
            (int, int, int),
            AmmError,
        >((max_a as int, max_b as int, contribution as int)),
        after_deposit(pool, max_a as int, max_b as int, contribution as int).reserve_a == max_a,
        after_deposit(pool, max_a as int, max_b as int, contribution as int).reserve_b == max_b,
        after_deposit(pool, max_a as int, max_b as int, contribution as int).lp_supply
            == contribution,
        after_deposit(pool, max_a as int, max_b as int, contribution as int).valid(),
{
}

/// A deposit that succeeds brings the pair of amounts that the curve gives
/// for the pool's balances under the same ceilings. A deposit is refused
/// where the curve gives none; where it gives one, the deposit is refused
/// only for a lock, for a zero contribution or a first deposit with a zero
/// ceiling, or for a balance that would leave the 64-bit range.
pub proof fn deposit_brings_quoted_amounts(
    pool: PoolModel,
    contribution: u64,
    max_a: u64,
    max_b: u64,
)
    requires
        pool.valid(),
    ensures
        deposit_outcome(
            pool,
            contribution as int,
            max_a as int,
            max_b as int,
        ) matches Ok((amount_a, amount_b, lp_delta)) ==> deposit_quote(
            pool.reserve_a,
            pool.reserve_b,
            pool.lp_supply,
            contribution as int,
            max_a as int,
            max_b as int,
        ) == Ok::<(int, int), AmmError>((amount_a, amount_b)),
        deposit_quote(
            pool.reserve_a,
            pool.reserve_b,
            pool.lp_supply,
            contribution as int,
            max_a as int,
            max_b as int,
        ) matches Ok((amount_a, amount_b)) ==> {
            ||| deposit_outcome(pool, contribution as int, max_a as int, max_b as int) == Ok::<
                (int, int, int),
                AmmError,
            >((amount_a, amount_b, contribution as int))
            ||| pool.locked
            ||| contribution == 0
            ||| amount_a == 0
            ||| amount_b == 0
            ||| pool.reserve_a + amount_a > u64::MAX
            ||| pool.reserve_b + amount_b > u64::MAX
            ||| pool.lp_supply + contribution > u64::MAX
        },
{
}

/// Every deposit into a funded pool that succeeds mints exactly the
/// contribution, and makes each reserve grow in the ratio in which the
/// supply grows: each amount is the part of its reserve that the new shares
/// are of the supply, rounded up, so it is at least that part and exceeds
/// it by less than one unit. The two amounts therefore stand in the ratio
/// of the reserves: they cross-multiply with the reserves to within one
/// unit of either asset.
pub proof fn deposit_amounts_are_proportional(
    pool: PoolModel,
    contribution: u64,
    max_a: u64,
    max_b: u64,
    amount_a: int,
    amount_b: int,
    lp_delta: int,
)
    requires
        pool.valid(),
        pool.is_funded(),
        deposit_outcome(pool, contribution as int, max_a as int, max_b as int) == Ok::<
            (int, int, int),
            AmmError,
        >((amount_a, amount_b, lp_delta)),
    ensures
        lp_delta == contribution,
        (amount_a - 1) * pool.reserve_b < amount_b * pool.reserve_a,
        (amount_b - 1) * pool.reserve_a < amount_a * pool.reserve_b,
        pool.reserve_a * lp_delta <= amount_a * pool.lp_supply,
        pool.reserve_b * lp_delta <= amount_b * pool.lp_supply,
        amount_a * pool.lp_supply < pool.reserve_a * lp_delta + pool.lp_supply,
        amount_b * pool.lp_supply < pool.reserve_b * lp_delta + pool.lp_supply,
{
    let shares: int = contribution as int;
    assert(amount_a == deposit_amount(pool.reserve_a, pool.lp_supply, shares));
    assert(amount_b == deposit_amount(pool.reserve_b, pool.lp_supply, shares));
    lemma_deposit_amounts_in_ratio(pool.reserve_a, pool.reserve_b, pool.lp_supply, shares);
    lemma_deposit_amount_covers_share(pool.reserve_a, pool.lp_supply, shares);
    lemma_deposit_amount_covers_share(pool.reserve_b, pool.lp_supply, shares);
}

/// Every deposit that succeeds leaves a valid, funded pool with more shares
/// than before, brings a positive amount of each asset within its ceiling,
/// and never dilutes the shares that were outstanding: each reserve grows
/// at least in the proportion in which the supply grows.
pub proof fn deposit_never_dilutes(
    pool: PoolModel,
    contribution: u64,
    max_a: u64,
    max_b: u64,
    amount_a: int,
    amount_b: int,
    lp_delta: int,
)
    requires
        pool.valid(),
        deposit_outcome(pool, contribution as int, max_a as int, max_b as int) == Ok::<
            (int, int, int),
            AmmError,
        >((amount_a, amount_b, lp_delta)),
    ensures
        after_deposit(pool, amount_a, amount_b, lp_delta).valid(),
        after_deposit(pool, amount_a, amount_b, lp_delta).is_funded(),
        after_deposit(pool, amount_a, amount_b, lp_delta).lp_supply > pool.lp_supply,
        0 < amount_a <= max_a,
        0 < amount_b <= max_b,
        after_deposit(pool, amount_a, amount_b, lp_delta).reserve_a * pool.lp_supply
            >= pool.reserve_a * after_deposit(pool, amount_a, amount_b, lp_delta).lp_supply,
        after_deposit(pool, amount_a, amount_b, lp_delta).reserve_b * pool.lp_supply
            >= pool.reserve_b * after_deposit(pool, amount_a, amount_b, lp_delta).lp_supply,
{
    let shares: int = contribution as int;
    if pool.is_empty() {
        assert(pool.reserve_a * (pool.lp_supply + lp_delta) == 0) by (nonlinear_arith)
            requires
                pool.reserve_a == 0,
        ;
        assert(pool.reserve_b * (pool.lp_supply + lp_delta) == 0) by (nonlinear_arith)
            requires
                pool.reserve_b == 0,
        ;
        assert((pool.reserve_a + amount_a) * pool.lp_supply == 0) by (nonlinear_arith)
            requires
                pool.lp_supply == 0,
        ;
        assert((pool.reserve_b + amount_b) * pool.lp_supply == 0) by (nonlinear_arith)
            requires
                pool.lp_supply == 0,
        ;
    } else {
        lemma_deposit_amount_covers_share(pool.reserve_a, pool.lp_supply, shares);
        lemma_deposit_amount_covers_share(pool.reserve_b, pool.lp_supply, shares);
        lemma_grows_in_proportion(pool.reserve_a, amount_a, pool.lp_supply, lp_delta);
        lemma_grows_in_proportion(pool.reserve_b, amount_b, pool.lp_supply, lp_delta);
        lemma_positive_share_costs(pool.reserve_a, amount_a, pool.lp_supply, lp_delta);
        lemma_positive_share_costs(pool.reserve_b, amount_b, pool.lp_supply, lp_delta);
    }
}

/// Shares of a funded pool are never minted for nothing.
proof fn lemma_positive_share_costs(reserve: int, amount: int, lp_supply: int, lp_delta: int)
    by (nonlinear_arith)
    requires
        0 < reserve,
        0 < lp_supply,
        0 < lp_delta,
        reserve * lp_delta <= amount * lp_supply,
    ensures
        0 < amount,
{
}

/// A reserve that gains at least its part of the new shares grows at least
/// in the proportion of the supply.
proof fn lemma_grows_in_proportion(reserve: int, amount: int, lp_supply: int, lp_delta: int)
    by (nonlinear_arith)
    requires
        reserve * lp_delta <= amount * lp_supply,
    ensures
        (reserve + amount) * lp_supply >= reserve * (lp_supply + lp_delta),
{
}

/// Shares burned right after the deposit that minted them pay out no more
/// than the deposit brought: the withdrawal of all newly minted shares
/// succeeds and returns of each asset at most the amount deposited. It
/// returns exactly the amount deposited where the deposit was the first
/// into an empty pool, and for each asset of which the deposit brought
/// exactly the part that the new shares are of the supply.
pub proof fn round_trip_returns_at_most_deposit(
    pool: PoolModel,
    contribution: u64,
    max_a: u64,
    max_b: u64,
    amount_a: int,
    amount_b: int,
    lp_delta: int,
)
    requires
        pool.valid(),
        deposit_outcome(pool, contribution as int, max_a as int, max_b as int) == Ok::<
            (int, int, int),
            AmmError,
        >((amount_a, amount_b, lp_delta)),
    ensures
        withdraw_outcome(after_deposit(pool, amount_a, amount_b, lp_delta), lp_delta, 0, 0)
            is Ok,
        withdraw_outcome(
            after_deposit(pool, amount_a, amount_b, lp_delta),
            lp_delta,
            0,
            0,
        ) matches Ok((returned_a, returned_b)) ==> {
            &&& 0 <= returned_a <= amount_a
            &&& 0 <= returned_b <= amount_b
            &&& pool.is_empty() ==> returned_a == amount_a && returned_b == amount_b
            &&& pool.reserve_a * lp_delta == amount_a * pool.lp_supply ==> returned_a
                == amount_a
            &&& pool.reserve_b * lp_delta == amount_b * pool.lp_supply ==> returned_b
                == amount_b
        },
{
    let shares: int = contribution as int;
    let post: PoolModel = after_deposit(pool, amount_a, amount_b, lp_delta);
    deposit_never_dilutes(pool, contribution, max_a, max_b, amount_a, amount_b, lp_delta);
    if pool.is_empty() {
        assert(pool.reserve_a * shares == 0) by (nonlinear_arith)
            requires
                pool.reserve_a == 0,
        ;
        assert(pool.reserve_b * shares == 0) by (nonlinear_arith)
            requires
                pool.reserve_b == 0,
        ;
        assert(amount_a * pool.lp_supply == 0) by (nonlinear_arith)
            requires
                pool.lp_supply == 0,
        ;
        assert(amount_b * pool.lp_supply == 0) by (nonlinear_arith)
            requires
                pool.lp_supply == 0,
        ;
    } else {
        lemma_deposit_amount_covers_share(pool.reserve_a, pool.lp_supply, shares);
        lemma_deposit_amount_covers_share(pool.reserve_b, pool.lp_supply, shares);
    }
    lemma_burn_returns_at_most_deposit(pool.reserve_a, pool.lp_supply, shares, amount_a);
    lemma_burn_returns_at_most_deposit(pool.reserve_b, pool.lp_supply, shares, amount_b);
    lemma_withdraw_amount_bounds(post.reserve_a, post.lp_supply, shares);
    lemma_withdraw_amount_bounds(post.reserve_b, post.lp_supply, shares);
}

/// Every withdrawal that succeeds leaves a valid pool with fewer shares
/// than before: a funded pool where shares remain, an empty pool where
/// none do. It pays out no less than the floors and no more than the pool
/// holds, and never dilutes the shares that remain: each reserve shrinks at
/// most in the proportion in which the supply shrinks.
pub proof fn withdraw_never_dilutes(
    pool: PoolModel,
    shares: u64,
    min_a: u64,
    min_b: u64,
    amount_a: int,
    amount_b: int,
)
    requires
        pool.valid(),
        withdraw_outcome(pool, shares as int, min_a as int, min_b as int) == Ok::<
            (int, int),
            AmmError,
        >((amount_a, amount_b)),
    ensures
        after_withdraw(pool, amount_a, amount_b, shares as int).valid(),
        after_withdraw(pool, amount_a, amount_b, shares as int).lp_supply < pool.lp_supply,
        shares < pool.lp_supply ==> after_withdraw(
            pool,
            amount_a,
            amount_b,
            shares as int,
        ).is_funded(),
        shares == pool.lp_supply ==> after_withdraw(
            pool,
            amount_a,
            amount_b,
            shares as int,
        ).is_empty(),
        min_a <= amount_a <= pool.reserve_a,
        min_b <= amount_b <= pool.reserve_b,
        after_withdraw(pool, amount_a, amount_b, shares as int).reserve_a * pool.lp_supply
            >= pool.reserve_a * after_withdraw(
            pool,
            amount_a,
            amount_b,
            shares as int,
        ).lp_supply,
        after_withdraw(pool, amount_a, amount_b, shares as int).reserve_b * pool.lp_supply
            >= pool.reserve_b * after_withdraw(
            pool,
            amount_a,
            amount_b,
            shares as int,
        ).lp_supply,
{
    let burned: int = shares as int;
    assert(amount_a == withdraw_amount(pool.reserve_a, pool.lp_supply, burned));
    assert(amount_b == withdraw_amount(pool.reserve_b, pool.lp_supply, burned));
    lemma_withdraw_amount_bounds(pool.reserve_a, pool.lp_supply, burned);
    lemma_withdraw_amount_bounds(pool.reserve_b, pool.lp_supply, burned);
    lemma_withdraw_amount_within_share(pool.reserve_a, pool.lp_supply, burned);
    lemma_withdraw_amount_within_share(pool.reserve_b, pool.lp_supply, burned);
    lemma_shrinks_in_proportion(pool.reserve_a, amount_a, pool.lp_supply, burned);
    lemma_shrinks_in_proportion(pool.reserve_b, amount_b, pool.lp_supply, burned);
}

/// A reserve that loses at most its part of the burned shares shrinks at
/// most in the proportion of the supply.
proof fn lemma_shrinks_in_proportion(reserve: int, amount: int, lp_supply: int, shares: int)
    by (nonlinear_arith)
    requires
        amount * lp_supply <= reserve * shares,
    ensures
        (reserve - amount) * lp_supply >= reserve * (lp_supply - shares),
{
}

/// A withdrawal of every outstanding share from a funded, unlocked pool
/// succeeds whenever the floors are not above the reserves. It pays out
/// both reserves whole and leaves the pool empty: both reserves and the
/// supply are exactly zero.
pub proof fn full_withdrawal_empties_pool(pool: PoolModel, min_a: u64, min_b: u64)
    requires
        pool.valid(),
        pool.is_funded(),
        !pool.locked,
        min_a <= pool.reserve_a,
        min_b <= pool.reserve_b,
    ensures
        withdraw_outcome(pool, pool.lp_supply, min_a as int, min_b as int) == Ok::<
            (int, int),
            AmmError,
        >((pool.reserve_a, pool.reserve_b)),
        after_withdraw(pool, pool.reserve_a, pool.reserve_b, pool.lp_supply).is_empty(),
        after_withdraw(pool, pool.reserve_a, pool.reserve_b, pool.lp_supply).valid(),
{
    lemma_withdraw_amount_bounds(pool.reserve_a, pool.lp_supply, pool.lp_supply);
    lemma_withdraw_amount_bounds(pool.reserve_b, pool.lp_supply, pool.lp_supply);
}

/// Every swap that succeeds leaves a valid, funded pool, pays out less than
/// the whole reserve of the bought asset, and does not let the product of
/// the reserves fall. Where the pool charges a fee, the product rises.
pub proof fn swap_raises_product(
    pool: PoolModel,
    side: Side,
    amount_in: u64,
    min_amount_out: u64,
    amount_out: int,
)
    requires
        pool.valid(),
        swap_outcome(pool, side, amount_in as int, min_amount_out as int) == Ok::<
            int,
            AmmError,
        >(amount_out),
    ensures
        after_swap(pool, side, amount_in as int, amount_out).valid(),
        after_swap(pool, side, amount_in as int, amount_out).is_funded(),
        after_swap(pool, side, amount_in as int, amount_out).lp_supply == pool.lp_supply,
        min_amount_out <= amount_out < pool.reserve(side.other()),
        0 < amount_out,
        after_swap(pool, side, amount_in as int, amount_out).product() >= pool.product(),
        pool.fee_bps > 0 ==> after_swap(pool, side, amount_in as int, amount_out).product()
            > pool.product(),
{
    let sold: int = amount_in as int;
    let reserve_in: int = pool.reserve(side);
    let reserve_out: int = pool.reserve(side.other());
    assert(amount_out == swap_amount_out(reserve_in, reserve_out, sold, pool.fee_bps));
    lemma_swap_amount_out_bounds(reserve_in, reserve_out, sold, pool.fee_bps);
    lemma_swap_raises_product(reserve_in, reserve_out, sold, pool.fee_bps);
    match side {
        Side::A => {},
        Side::B => {
            assert((reserve_out - amount_out) * (reserve_in + sold) == (reserve_in + sold) * (
            reserve_out - amount_out)) by (nonlinear_arith);
            assert(reserve_out * reserve_in == reserve_in * reserve_out) by (nonlinear_arith);
        },
    }
}

/// The payout of a swap is the part of the bought reserve that the input
/// after fee is of the new reserve of the sold asset, rounded down.
pub proof fn swap_payout_is_rounded_down(
    reserve_in: int,
    reserve_out: int,
    amount_in: int,
    fee_bps: int,
)
    requires
        0 < reserve_in,
        0 < reserve_out,
        0 <= amount_in,
        0 <= fee_bps <= MAX_FEE_BPS,
    ensures
        swap_amount_out(reserve_in, reserve_out, amount_in, fee_bps) == amount_after_fee(
            amount_in,
            fee_bps,
        ) * reserve_out / (reserve_in + amount_after_fee(amount_in, fee_bps)),
{
    lemma_amount_after_fee_bounds(amount_in, fee_bps);
    let after_fee: int = amount_after_fee(amount_in, fee_bps);
    let denom: int = reserve_in + after_fee;
    let kept: int = reserve_out_after_swap(reserve_in, reserve_out, amount_in, fee_bps);
    let paid: int = reserve_out - kept;
    lemma_ceil_div_bounds(reserve_in * reserve_out, denom);
    assert(paid * denom <= after_fee * reserve_out < paid * denom + denom) by (nonlinear_arith)
        requires
            reserve_in * reserve_out <= kept * denom < reserve_in * reserve_out + denom,
            denom == reserve_in + after_fee,
            paid == reserve_out - kept,
    ;
    lemma_floor_div_unique(after_fee * reserve_out, denom, paid);
}

/// The floor of a swap is exact. A swap that pays out `amount_out` with no
/// floor succeeds with every floor up to `amount_out`, that amount
/// included, and fails with `SlippageExceeded` with every floor above it.
pub proof fn swap_floor_is_exact(
    pool: PoolModel,
    side: Side,
    amount_in: u64,
    amount_out: int,
    min_amount_out: u64,
)
    requires
        swap_outcome(pool, side, amount_in as int, 0) == Ok::<int, AmmError>(amount_out),
    ensures
        min_amount_out <= amount_out ==> swap_outcome(
            pool,
            side,
            amount_in as int,
            min_amount_out as int,
        ) == Ok::<int, AmmError>(amount_out),
        min_amount_out > amount_out ==> swap_outcome(
            pool,
            side,
            amount_in as int,
            min_amount_out as int,
        ) == Err::<int, AmmError>(AmmError::SlippageExceeded),
{
}

/// A locked pool refuses every deposit, every withdrawal and every swap
/// with `PoolLocked`, whatever the arguments.
pub proof fn locked_pool_refuses_all(
    pool: PoolModel,
    side: Side,
    amount: int,
    bound_a: int,
    bound_b: int,
)
    requires
        pool.locked,
    ensures
        deposit_outcome(pool, amount, bound_a, bound_b) == Err::<(int, int, int), AmmError>(
            AmmError::PoolLocked,
        ),
        withdraw_outcome(pool, amount, bound_a, bound_b) == Err::<(int, int), AmmError>(
            AmmError::PoolLocked,
        ),
        swap_outcome(pool, side, amount, bound_a) == Err::<int, AmmError>(AmmError::PoolLocked),
{
}

} // verus!
