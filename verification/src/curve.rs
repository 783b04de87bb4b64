//! Curve arithmetic of a constant-product pool.
//!
//! Three stateless computations: the output of a swap, the amounts a
//! deposit has to bring for a number of shares, and the amounts a burn of
//! shares pays out. Intermediate products are taken in 128 bits, and every
//! rounding favours the pool: what a trader or a withdrawing holder
//! receives is rounded down, what a depositor brings is rounded up.

use vstd::prelude::*;
use crate::arith::{
    ceil_div, lemma_ceil_div_bounds, lemma_ceil_div_near_floor, lemma_floor_div_bounds,
    lemma_mul_monotone,
};
use crate::error::AmmError;

verus! {

/// The highest fee, in basis points: one hundred percent.
pub const MAX_FEE_BPS: u16 = 10_000;

/// The decimal precision of every pool: the number of decimal digits in
/// which its liquidity shares are counted.
pub const DECIMALS: u8 = 6;

/// What is left of `amount_in` once the fee has been taken, rounded down.
pub open spec fn amount_after_fee(amount_in: int, fee_bps: int) -> int {
    amount_in * (MAX_FEE_BPS - fee_bps) / (MAX_FEE_BPS as int)
}

/// The reserve of the bought asset after a swap: the product of the two
/// reserves divided by the reserve of the sold asset increased by the input
/// after fee, rounded up, so that the product of the reserves cannot fall.
pub open spec fn reserve_out_after_swap(
    reserve_in: int,
    reserve_out: int,
    amount_in: int,
    fee_bps: int,
) -> int {
    ceil_div(reserve_in * reserve_out, reserve_in + amount_after_fee(amount_in, fee_bps))
}

/// The amount of the bought asset that a swap pays out.
pub open spec fn swap_amount_out(
    reserve_in: int,
    reserve_out: int,
    amount_in: int,
    fee_bps: int,
) -> int {
    reserve_out - reserve_out_after_swap(reserve_in, reserve_out, amount_in, fee_bps)
}

/// The outcome of pricing a swap: the amount paid out, or the reason there is none.
pub open spec fn swap_quote(
    reserve_in: int,
    reserve_out: int,
    amount_in: int,
    fee_bps: int,
) -> Result<int, AmmError> {
    if fee_bps > MAX_FEE_BPS {
        Err(AmmError::InvalidFee)
    } else if reserve_in == 0 || reserve_out == 0 {
        Err(AmmError::InsufficientLiquidity)
    } else if swap_amount_out(reserve_in, reserve_out, amount_in, fee_bps) == 0 {
        Err(AmmError::InsufficientLiquidity)
    } else {
        Ok(swap_amount_out(reserve_in, reserve_out, amount_in, fee_bps))
    }
}

/// Divides `n` by `d` and rounds up.
fn div_ceil(n: u128, d: u128) -> (q: u128)
    requires
        d > 0,
    ensures
        q == ceil_div(n as int, d as int),
{
    let q: u128 = n / d;
    let r: u128 = n % d;
    proof {
        lemma_ceil_div_near_floor(n as int, d as int);
        vstd::arithmetic::div_mod::lemma_fundamental_div_mod(n as int, d as int);
    }
    if r == 0 {
        q
    } else {
        assert(q < n) by (nonlinear_arith)
            requires
                n == d * q + r,
                r > 0,
                d >= 1,
                q >= 0,
        ;
        q + 1
    }
}

/// The input of a swap never grows when the fee is taken.
pub proof fn lemma_amount_after_fee_bounds(amount_in: int, fee_bps: int)
    requires
        0 <= amount_in,
        0 <= fee_bps <= MAX_FEE_BPS,
    ensures
        0 <= amount_after_fee(amount_in, fee_bps) <= amount_in,
        fee_bps > 0 && amount_in > 0 ==> amount_after_fee(amount_in, fee_bps) < amount_in,
{
    let keep: int = MAX_FEE_BPS - fee_bps;
    lemma_mul_monotone(0, amount_in, 0, keep);
    lemma_mul_monotone(amount_in, amount_in, keep, MAX_FEE_BPS as int);
    if fee_bps > 0 && amount_in > 0 {
        assert(amount_in * keep < amount_in * 10000) by (nonlinear_arith)
            requires
                amount_in > 0,
                keep < 10000,
        ;
    }
}

/// A swap against a funded pool pays out less than the whole reserve.
pub proof fn lemma_swap_amount_out_bounds(
    reserve_in: int,
    reserve_out: int,
    amount_in: int,
    fee_bps: int,
)
    requires
        0 < reserve_in,
        0 < reserve_out,
        0 <= amount_in,
        0 <= fee_bps <= MAX_FEE_BPS,
    ensures
        0 < reserve_out_after_swap(reserve_in, reserve_out, amount_in, fee_bps) <= reserve_out,
        0 <= swap_amount_out(reserve_in, reserve_out, amount_in, fee_bps) < reserve_out,
{
    lemma_amount_after_fee_bounds(amount_in, fee_bps);
    let denom: int = reserve_in + amount_after_fee(amount_in, fee_bps);
    let k: int = reserve_in * reserve_out;
    let kept: int = reserve_out_after_swap(reserve_in, reserve_out, amount_in, fee_bps);
    lemma_ceil_div_bounds(k, denom);
    assert(kept <= reserve_out) by (nonlinear_arith)
        requires
            kept * denom < k + denom,
            k == reserve_in * reserve_out,
            denom >= reserve_in,
            reserve_in > 0,
            reserve_out > 0,
    ;
    assert(kept > 0) by (nonlinear_arith)
        requires
            k <= kept * denom,
            k == reserve_in * reserve_out,
            denom > 0,
            reserve_in > 0,
            reserve_out > 0,
    ;
}

/// Prices a swap of `amount_in` of one asset against the other.
///
/// The fee is taken from the input first. The pool then keeps of the bought
/// asset the least reserve whose product with the new reserve of the sold
/// asset is not below the old product, and pays out the rest. A fee above
/// `MAX_FEE_BPS` is refused with `InvalidFee`; an empty reserve, or a trade
/// too small to pay out a single unit, with `InsufficientLiquidity`.
pub fn swap_output(reserve_in: u64, reserve_out: u64, amount_in: u64, fee_bps: u16) -> (result:
    Result<u64, AmmError>)
    ensures
        match result {
            Ok(amount_out) => swap_quote(
                reserve_in as int,
                reserve_out as int,
                amount_in as int,
                fee_bps as int,
            ) == Ok::<int, AmmError>(amount_out as int),
            Err(e) => swap_quote(
                reserve_in as int,
                reserve_out as int,
                amount_in as int,
                fee_bps as int,
            ) == Err::<int, AmmError>(e),
        },
{
    if fee_bps > MAX_FEE_BPS {
        return Err(AmmError::InvalidFee);
    }
    if reserve_in == 0 || reserve_out == 0 {
        return Err(AmmError::InsufficientLiquidity);
    }
    proof {
        lemma_amount_after_fee_bounds(amount_in as int, fee_bps as int);
        lemma_swap_amount_out_bounds(
            reserve_in as int,
            reserve_out as int,
            amount_in as int,
            fee_bps as int,
        );
        lemma_mul_monotone(
            amount_in as int,
            u64::MAX as int,
            (MAX_FEE_BPS - fee_bps) as int,
            MAX_FEE_BPS as int,
        );
        lemma_mul_monotone(
            reserve_in as int,
            u64::MAX as int,
            reserve_out as int,
            u64::MAX as int,
        );
    }
    let keep: u128 = (MAX_FEE_BPS - fee_bps) as u128;
    let after_fee: u128 = (amount_in as u128) * keep / (MAX_FEE_BPS as u128);
    let product: u128 = (reserve_in as u128) * (reserve_out as u128);
    let kept: u128 = div_ceil(product, reserve_in as u128 + after_fee);
    let amount_out: u128 = reserve_out as u128 - kept;
    if amount_out == 0 {
        Err(AmmError::InsufficientLiquidity)
    } else {
        Ok(amount_out as u64)
    }
}

/// Whether a pool with these balances has never been funded, or has been
/// emptied again.
pub open spec fn is_bootstrap(reserve_a: int, reserve_b: int, lp_supply: int) -> bool {
    reserve_a == 0 && reserve_b == 0 && lp_supply == 0
}

/// The amount of one asset that mints `contribution` shares: the part of
/// the reserve that the new shares are of the supply, rounded up. It is the
/// least amount with `amount * lp_supply >= reserve * contribution`.
pub open spec fn deposit_amount(reserve: int, lp_supply: int, contribution: int) -> int {
    ceil_div(reserve * contribution, lp_supply)
}

/// The pair of amounts that mints `contribution` shares of a pool that has
/// shares outstanding, or `MathError` where there are none to take a ratio
/// of, or where an amount leaves the 64-bit range.
pub open spec fn proportional_deposit_quote(
    reserve_a: int,
    reserve_b: int,
    lp_supply: int,
    contribution: int,
) -> Result<(int, int), AmmError> {
    if lp_supply == 0 {
        Err(AmmError::MathError)
    } else if deposit_amount(reserve_a, lp_supply, contribution) > u64::MAX || deposit_amount(
        reserve_b,
        lp_supply,
        contribution,
    ) > u64::MAX {
        Err(AmmError::MathError)
    } else {
        Ok(
            (
                deposit_amount(reserve_a, lp_supply, contribution),
                deposit_amount(reserve_b, lp_supply, contribution),
            ),
        )
    }
}

/// The pair of amounts of a deposit under the caller's ceilings: the
/// ceilings themselves for a pool in its bootstrap state, else the
/// proportional pair, or `MathError` where that pair cannot be computed or
/// passes a ceiling.
pub open spec fn deposit_quote(
    reserve_a: int,
    reserve_b: int,
    lp_supply: int,
    contribution: int,
    max_a: int,
    max_b: int,
) -> Result<(int, int), AmmError> {
    if is_bootstrap(reserve_a, reserve_b, lp_supply) {
        Ok((max_a, max_b))
    } else if lp_supply == 0 {
        Err(AmmError::MathError)
    } else if deposit_amount(reserve_a, lp_supply, contribution) > max_a || deposit_amount(
        reserve_b,
        lp_supply,
        contribution,
    ) > max_b {
        Err(AmmError::MathError)
    } else {
        Ok(
            (
                deposit_amount(reserve_a, lp_supply, contribution),
                deposit_amount(reserve_b, lp_supply, contribution),
            ),
        )
    }
}

/// The amount of one asset that mints `contribution` shares, or `None`
/// where it does not fit in 64 bits.
fn proportional_amount(reserve: u64, lp_supply: u64, contribution: u64) -> (amount: Option<u64>)
    requires
        lp_supply > 0,
    ensures
        match amount {
            Some(a) => a == deposit_amount(reserve as int, lp_supply as int, contribution as int),
            None => deposit_amount(reserve as int, lp_supply as int, contribution as int)
                > u64::MAX,
        },
{
    proof {
        lemma_mul_monotone(
            reserve as int,
            u64::MAX as int,
            contribution as int,
            u64::MAX as int,
        );
    }
    let product: u128 = (reserve as u128) * (contribution as u128);
    let amount: u128 = div_ceil(product, lp_supply as u128);
    if amount > u64::MAX as u128 {
        None
    } else {
        Some(amount as u64)
    }
}

/// Computes the amounts of both assets that mint `contribution` shares of a
/// pool with shares outstanding, each rounded up, whatever the caller is
/// ready to bring.
///
/// Fails with `MathError` where `lp_supply` is zero, or where an amount does
/// not fit in 64 bits.
pub fn proportional_deposit_amounts(
    reserve_a: u64,
    reserve_b: u64,
    lp_supply: u64,
    contribution: u64,
) -> (result: Result<(u64, u64), AmmError>)
    ensures
        match result {
            Ok((amount_a, amount_b)) => proportional_deposit_quote(
                reserve_a as int,
                reserve_b as int,
                lp_supply as int,
                contribution as int,
            ) == Ok::<(int, int), AmmError>((amount_a as int, amount_b as int)),
            Err(e) => proportional_deposit_quote(
                reserve_a as int,
                reserve_b as int,
                lp_supply as int,
                contribution as int,
            ) == Err::<(int, int), AmmError>(e),
        },
{
    if lp_supply == 0 {
        return Err(AmmError::MathError);
    }
    let amount_a: u64 = match proportional_amount(reserve_a, lp_supply, contribution) {
        Some(amount) => amount,
        None => { return Err(AmmError::MathError); },
    };
    let amount_b: u64 = match proportional_amount(reserve_b, lp_supply, contribution) {
        Some(amount) => amount,
        None => { return Err(AmmError::MathError); },
    };
    Ok((amount_a, amount_b))
}

/// Computes the amounts of both assets that a deposit for `contribution`
/// shares brings, under the ceilings `max_a` and `max_b`.
///
/// Into a pool in its bootstrap state the ceilings themselves are brought:
/// the first depositor sets the price. Into any other pool the proportional
/// pair is brought. Fails with `MathError` where that pair cannot be
/// computed, or where one of its amounts is above its ceiling.
pub fn deposit_amounts_from_contribution(
    reserve_a: u64,
    reserve_b: u64,
    lp_supply: u64,
    contribution: u64,
    max_a: u64,
    max_b: u64,
) -> (result: Result<(u64, u64), AmmError>)
    ensures
        match result {
            Ok((amount_a, amount_b)) => deposit_quote(
                reserve_a as int,
                reserve_b as int,
                lp_supply as int,
                contribution as int,
                max_a as int,
                max_b as int,
            ) == Ok::<(int, int), AmmError>((amount_a as int, amount_b as int)),
            Err(e) => deposit_quote(
                reserve_a as int,
                reserve_b as int,
                lp_supply as int,
                contribution as int,
                max_a as int,
                max_b as int,
            ) == Err::<(int, int), AmmError>(e),
        },
{
    if lp_supply == 0 && reserve_a == 0 && reserve_b == 0 {
        return Ok((max_a, max_b));
    }
    match proportional_deposit_amounts(reserve_a, reserve_b, lp_supply, contribution) {
        Ok((amount_a, amount_b)) => {
            if amount_a > max_a || amount_b > max_b {
                Err(AmmError::MathError)
            } else {
                Ok((amount_a, amount_b))
            }
        },
        Err(_) => Err(AmmError::MathError),
    }
}

/// The amount of one asset that a burn of `shares` pays out: the holder's
/// part of the reserve, rounded down.
pub open spec fn withdraw_amount(reserve: int, lp_supply: int, shares: int) -> int {
    reserve * shares / lp_supply
}

/// The pair of amounts that a burn of `shares` pays out, or
/// `InsufficientLiquidity` where the pool has no shares outstanding or
/// fewer than are to be burned.
pub open spec fn withdraw_quote(
    reserve_a: int,
    reserve_b: int,
    lp_supply: int,
    shares: int,
) -> Result<(int, int), AmmError> {
    if lp_supply == 0 || shares > lp_supply {
        Err(AmmError::InsufficientLiquidity)
    } else {
        Ok(
            (
                withdraw_amount(reserve_a, lp_supply, shares),
                withdraw_amount(reserve_b, lp_supply, shares),
            ),
        )
    }
}

/// A burn pays out no more than the reserve, all of it when every share is
/// burned, and less than all of it otherwise.
pub proof fn lemma_withdraw_amount_bounds(reserve: int, lp_supply: int, shares: int)
    requires
        0 <= reserve,
        0 < lp_supply,
        0 <= shares <= lp_supply,
    ensures
        0 <= withdraw_amount(reserve, lp_supply, shares) <= reserve,
        shares == lp_supply ==> withdraw_amount(reserve, lp_supply, shares) == reserve,
        shares < lp_supply && reserve > 0 ==> withdraw_amount(reserve, lp_supply, shares)
            < reserve,
{
    let paid: int = withdraw_amount(reserve, lp_supply, shares);
    lemma_floor_div_bounds(reserve * shares, lp_supply);
    lemma_mul_monotone(0, reserve, 0, shares);
    assert(0 <= paid <= reserve) by (nonlinear_arith)
        requires
            paid * lp_supply <= reserve * shares < paid * lp_supply + lp_supply,
            0 <= reserve * shares,
            0 <= reserve,
            0 < lp_supply,
            0 <= shares <= lp_supply,
    ;
    if shares == lp_supply {
        assert(paid == reserve) by (nonlinear_arith)
            requires
                paid * lp_supply <= reserve * lp_supply < paid * lp_supply + lp_supply,
                0 < lp_supply,
        ;
    }
    if shares < lp_supply && reserve > 0 {
        assert(paid < reserve) by (nonlinear_arith)
            requires
                paid * lp_supply <= reserve * shares,
                0 < reserve,
                0 <= shares < lp_supply,
        ;
    }
}

/// The amount of one asset that a burn of `shares` pays out.
fn share_of_reserve(reserve: u64, lp_supply: u64, shares: u64) -> (amount: u64)
    requires
        0 < lp_supply,
        shares <= lp_supply,
    ensures
        amount == withdraw_amount(reserve as int, lp_supply as int, shares as int),
{
    proof {
        lemma_withdraw_amount_bounds(reserve as int, lp_supply as int, shares as int);
        lemma_mul_monotone(reserve as int, u64::MAX as int, shares as int, u64::MAX as int);
    }
    let paid: u128 = (reserve as u128) * (shares as u128) / (lp_supply as u128);
    paid as u64
}

/// Computes the amounts of both assets that a burn of `shares_burned`
/// shares pays out: of each reserve the part that the burned shares are of
/// the supply, rounded down.
///
/// Fails with `InsufficientLiquidity` where the pool has no shares
/// outstanding, or fewer than are to be burned.
pub fn withdraw_amounts_from_shares(
    reserve_a: u64,
    reserve_b: u64,
    lp_supply: u64,
    shares_burned: u64,
) -> (result: Result<(u64, u64), AmmError>)
    ensures
        match result {
            Ok((amount_a, amount_b)) => withdraw_quote(
                reserve_a as int,
                reserve_b as int,
                lp_supply as int,
                shares_burned as int,
            ) == Ok::<(int, int), AmmError>((amount_a as int, amount_b as int)),
            Err(e) => withdraw_quote(
                reserve_a as int,
                reserve_b as int,
                lp_supply as int,
                shares_burned as int,
            ) == Err::<(int, int), AmmError>(e),
        },
{
    if lp_supply == 0 || shares_burned > lp_supply {
        return Err(AmmError::InsufficientLiquidity);
    }
    let amount_a: u64 = share_of_reserve(reserve_a, lp_supply, shares_burned);
    let amount_b: u64 = share_of_reserve(reserve_b, lp_supply, shares_burned);
    Ok((amount_a, amount_b))
}

/// A swap never lets the product of the reserves fall, and raises it
/// whenever a fee is charged on a positive input.
pub proof fn lemma_swap_raises_product(
    reserve_in: int,
    reserve_out: int,
    amount_in: int,
    fee_bps: int,
)
    requires
        0 < reserve_in,
        0 < reserve_out,
        0 <= amount_in,
        0 <= fee_bps <= MAX_FEE_BPS,
    ensures
        (reserve_in + amount_in) * (reserve_out - swap_amount_out(
            reserve_in,
            reserve_out,
            amount_in,
            fee_bps,
        )) >= reserve_in * reserve_out,
        fee_bps > 0 && amount_in > 0 ==> (reserve_in + amount_in) * (reserve_out
            - swap_amount_out(reserve_in, reserve_out, amount_in, fee_bps)) > reserve_in
            * reserve_out,
{
    lemma_amount_after_fee_bounds(amount_in, fee_bps);
    lemma_swap_amount_out_bounds(reserve_in, reserve_out, amount_in, fee_bps);
    let after_fee: int = amount_after_fee(amount_in, fee_bps);
    let kept: int = reserve_out_after_swap(reserve_in, reserve_out, amount_in, fee_bps);
    let product: int = reserve_in * reserve_out;
    lemma_ceil_div_bounds(product, reserve_in + after_fee);
    assert((reserve_in + amount_in) * kept >= product) by (nonlinear_arith)
        requires
            product <= kept * (reserve_in + after_fee),
            after_fee <= amount_in,
            0 < kept,
    ;
    if fee_bps > 0 && amount_in > 0 {
        assert((reserve_in + amount_in) * kept > product) by (nonlinear_arith)
            requires
                product <= kept * (reserve_in + after_fee),
                after_fee < amount_in,
                0 < kept,
        ;
    }
}

/// A deposit brings at least the part of the reserve that the new shares
/// are of the supply, and exceeds that part by less than one unit.
pub proof fn lemma_deposit_amount_covers_share(reserve: int, lp_supply: int, contribution: int)
    requires
        0 <= reserve,
        0 < lp_supply,
        0 <= contribution,
    ensures
        reserve * contribution <= deposit_amount(reserve, lp_supply, contribution) * lp_supply,
        deposit_amount(reserve, lp_supply, contribution) * lp_supply < reserve * contribution
            + lp_supply,
{
    lemma_ceil_div_bounds(reserve * contribution, lp_supply);
}

/// The two amounts of a deposit stand in the ratio of the reserves, each to
/// within one unit.
pub proof fn lemma_deposit_amounts_in_ratio(
    reserve_a: int,
    reserve_b: int,
    lp_supply: int,
    contribution: int,
)
    requires
        0 < reserve_a,
        0 < reserve_b,
        0 < lp_supply,
        0 <= contribution,
    ensures
        (deposit_amount(reserve_a, lp_supply, contribution) - 1) * reserve_b < deposit_amount(
            reserve_b,
            lp_supply,
            contribution,
        ) * reserve_a,
        (deposit_amount(reserve_b, lp_supply, contribution) - 1) * reserve_a < deposit_amount(
            reserve_a,
            lp_supply,
            contribution,
        ) * reserve_b,
{
    let amount_a: int = deposit_amount(reserve_a, lp_supply, contribution);
    let amount_b: int = deposit_amount(reserve_b, lp_supply, contribution);
    lemma_deposit_amount_covers_share(reserve_a, lp_supply, contribution);
    lemma_deposit_amount_covers_share(reserve_b, lp_supply, contribution);
    lemma_cross_ratio(amount_a, amount_b, reserve_a, reserve_b, contribution, lp_supply);
    lemma_cross_ratio(amount_b, amount_a, reserve_b, reserve_a, contribution, lp_supply);
}

/// Two amounts rounded up from the same part of two reserves cross-multiply
/// to within one unit.
proof fn lemma_cross_ratio(
    amount_x: int,
    amount_y: int,
    reserve_x: int,
    reserve_y: int,
    shares: int,
    supply: int,
)
    by (nonlinear_arith)
    requires
        0 < reserve_x,
        0 < reserve_y,
        0 < supply,
        0 <= shares,
        amount_x * supply < reserve_x * shares + supply,
        reserve_y * shares <= amount_y * supply,
    ensures
        (amount_x - 1) * reserve_y < amount_y * reserve_x,
{
    assert((amount_x - 1) * supply < reserve_x * shares);
    assert(((amount_x - 1) * supply) * reserve_y < (reserve_x * shares) * reserve_y);
    assert(reserve_x * (reserve_y * shares) <= reserve_x * (amount_y * supply));
    assert(((amount_x - 1) * reserve_y) * supply < (amount_y * reserve_x) * supply);
}

/// Shares that were minted for at least their part of the reserve pay out
/// no more than was brought for them when they are burned at once, and
/// exactly what was brought where that part was brought exactly.
pub proof fn lemma_burn_returns_at_most_deposit(
    reserve: int,
    lp_supply: int,
    shares: int,
    amount: int,
)
    requires
        0 <= reserve,
        0 <= lp_supply,
        0 < shares,
        0 <= amount,
        reserve * shares <= amount * lp_supply,
    ensures
        withdraw_amount(reserve + amount, lp_supply + shares, shares) <= amount,
        reserve * shares == amount * lp_supply ==> withdraw_amount(
            reserve + amount,
            lp_supply + shares,
            shares,
        ) == amount,
{
    let paid: int = withdraw_amount(reserve + amount, lp_supply + shares, shares);
    let supply: int = lp_supply + shares;
    lemma_floor_div_bounds((reserve + amount) * shares, supply);
    assert((reserve + amount) * shares <= amount * supply) by (nonlinear_arith)
        requires
            reserve * shares <= amount * lp_supply,
            supply == lp_supply + shares,
    ;
    assert(paid <= amount) by (nonlinear_arith)
        requires
            paid * supply <= (reserve + amount) * shares,
            (reserve + amount) * shares <= amount * supply,
            0 < supply,
    ;
    if reserve * shares == amount * lp_supply {
        assert((reserve + amount) * shares == amount * supply) by (nonlinear_arith)
            requires
                reserve * shares == amount * lp_supply,
                supply == lp_supply + shares,
        ;
        assert(paid >= amount) by (nonlinear_arith)
            requires
                amount * supply < paid * supply + supply,
                0 < supply,
        ;
    }
}

/// A burn leaves to the remaining shares at least their part of the reserve.
pub proof fn lemma_withdraw_amount_within_share(reserve: int, lp_supply: int, shares: int)
    requires
        0 <= reserve,
        0 < lp_supply,
        0 <= shares <= lp_supply,
    ensures
        withdraw_amount(reserve, lp_supply, shares) * lp_supply <= reserve * shares,
{
    lemma_floor_div_bounds(reserve * shares, lp_supply);
}

} // verus!
