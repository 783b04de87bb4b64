//! The state of one pool and the rules that every change of it keeps.

use vstd::prelude::*;
use crate::curve::{DECIMALS, MAX_FEE_BPS};
use crate::error::AmmError;

verus! {

/// One of the two pooled assets.
#[derive(Debug, Clone, Copy, PartialEq, Eq, Structural)]
pub enum Side {
    /// The first asset.
    A,
    /// The second asset.
    B,
}

/// The mathematical content of a pool: its balances as unbounded integers.
pub struct PoolModel {
    /// The quantity of the first asset that the pool holds.
    pub reserve_a: int,
    /// The quantity of the second asset that the pool holds.
    pub reserve_b: int,
    /// The number of liquidity shares outstanding.
    pub lp_supply: int,
    /// The swap fee in basis points.
    pub fee_bps: int,
    /// Whether the pool refuses every operation.
    pub locked: bool,
}

impl PoolModel {
    /// The bootstrap state: nothing pooled and no share outstanding.
    pub open spec fn is_empty(self) -> bool {
        self.reserve_a == 0 && self.reserve_b == 0 && self.lp_supply == 0
    }

    /// Both assets are pooled and shares are outstanding.
    pub open spec fn is_funded(self) -> bool {
        self.reserve_a > 0 && self.reserve_b > 0 && self.lp_supply > 0
    }

    /// What holds of every pool: each balance fits in 64 bits, the fee is at
    /// most one hundred percent, and the pool is either empty or funded.
    pub open spec fn valid(self) -> bool {
        &&& 0 <= self.reserve_a <= u64::MAX
        &&& 0 <= self.reserve_b <= u64::MAX
        &&& 0 <= self.lp_supply <= u64::MAX
        &&& 0 <= self.fee_bps <= MAX_FEE_BPS
        &&& (self.is_empty() || self.is_funded())
    }

    /// The product of the two reserves, which no swap lets fall.
    pub open spec fn product(self) -> int {
        self.reserve_a * self.reserve_b
    }

    /// The reserve of the asset on `side`.
    pub open spec fn reserve(self, side: Side) -> int {
        match side {
            Side::A => self.reserve_a,
            Side::B => self.reserve_b,
        }
    }
}

impl Side {
    /// The other asset of the pair.
    pub open spec fn other(self) -> Side {
        match self {
            Side::A => Side::B,
            Side::B => Side::A,
        }
    }

    /// Returns the other asset of the pair.
    pub fn opposite(&self) -> (side: Side)
        ensures
            side == self.other(),
    {
        match self {
            Side::A => Side::B,
            Side::B => Side::A,
        }
    }
}

/// A constant-product pool: two reserves, the supply of liquidity shares,
/// the swap fee and the lock.
#[derive(Debug, Clone, Copy, PartialEq, Eq)]
pub struct PoolState {
    reserve_a: u64,
    reserve_b: u64,
    lp_supply: u64,
    fee_bps: u16,
    locked: bool,
}

impl View for PoolState {
    type V = PoolModel;

    closed spec fn view(&self) -> PoolModel {
        PoolModel {
            reserve_a: self.reserve_a as int,
            reserve_b: self.reserve_b as int,
            lp_supply: self.lp_supply as int,
            fee_bps: self.fee_bps as int,
            locked: self.locked,
        }
    }
}

impl PoolState {
    /// Every pool state that exists is a valid pool.
    #[verifier::type_invariant]
    pub open spec fn well_formed(self) -> bool {
        self@.valid()
    }

    /// Rebuilds a pool from balances that a host has kept: the two vault
    /// balances, the supply of shares, the fee and the lock.
    ///
    /// Refuses a fee above `MAX_FEE_BPS` with `InvalidFee`, and balances of
    /// which some but not all are zero with `InsufficientLiquidity`.
    pub fn from_balances(
        reserve_a: u64,
        reserve_b: u64,
        lp_supply: u64,
        fee_bps: u16,
        locked: bool,
    ) -> (result: Result<PoolState, AmmError>)
        ensures
            match result {
                Ok(pool) => {
                    &&& model_of(reserve_a, reserve_b, lp_supply, fee_bps, locked).valid()
                    &&& pool@ == model_of(reserve_a, reserve_b, lp_supply, fee_bps, locked)
                },
                Err(e) => {
                    &&& !model_of(reserve_a, reserve_b, lp_supply, fee_bps, locked).valid()
                    &&& fee_bps > MAX_FEE_BPS ==> e == AmmError::InvalidFee
                    &&& fee_bps <= MAX_FEE_BPS ==> e == AmmError::InsufficientLiquidity
                },
            },
    {
        if fee_bps > MAX_FEE_BPS {
            return Err(AmmError::InvalidFee);
        }
        let empty: bool = reserve_a == 0 && reserve_b == 0 && lp_supply == 0;
        let funded: bool = reserve_a > 0 && reserve_b > 0 && lp_supply > 0;
        if empty || funded {
            Ok(PoolState { reserve_a, reserve_b, lp_supply, fee_bps, locked })
        } else {
            Err(AmmError::InsufficientLiquidity)
        }
    }

    /// Returns the quantity of the first asset that the pool holds.
    pub fn reserve_a(&self) -> (amount: u64)
        ensures
            amount == self@.reserve_a,
    {
        self.reserve_a
    }

    /// Returns the quantity of the second asset that the pool holds.
    pub fn reserve_b(&self) -> (amount: u64)
        ensures
            amount == self@.reserve_b,
    {
        self.reserve_b
    }

    /// Returns the quantity that the pool holds of the asset on `side`.
    pub fn reserve(&self, side: Side) -> (amount: u64)
        ensures
            amount == self@.reserve(side),
    {
        match side {
            Side::A => self.reserve_a,
            Side::B => self.reserve_b,
        }
    }

    /// Returns the number of liquidity shares outstanding.
    pub fn lp_supply(&self) -> (shares: u64)
        ensures
            shares == self@.lp_supply,
    {
        self.lp_supply
    }

    /// Returns the swap fee in basis points.
    pub fn fee_bps(&self) -> (fee: u16)
        ensures
            fee == self@.fee_bps,
            fee <= MAX_FEE_BPS,
    {
        proof {
            use_type_invariant(self);
        }
        self.fee_bps
    }

    /// Returns whether the pool refuses every operation.
    pub fn is_locked(&self) -> (locked: bool)
        ensures
            locked == self@.locked,
    {
        self.locked
    }

    /// Returns the decimal precision of the pool, the same for every pool.
    pub fn decimals(&self) -> (digits: u8)
        ensures
            digits == DECIMALS,
    {
        DECIMALS
    }

    /// Replaces the three balances at once, and leaves the fee and the lock.
    pub(crate) fn record(&mut self, reserve_a: u64, reserve_b: u64, lp_supply: u64)
        requires
            (reserve_a == 0 && reserve_b == 0 && lp_supply == 0) || (reserve_a > 0 && reserve_b
                > 0 && lp_supply > 0),
        ensures
            final(self)@ == (PoolModel {
                reserve_a: reserve_a as int,
                reserve_b: reserve_b as int,
                lp_supply: lp_supply as int,
                ..old(self)@
            }),
    {
        proof {
            use_type_invariant(&*self);
        }
        *self = PoolState {
            reserve_a,
            reserve_b,
            lp_supply,
            fee_bps: self.fee_bps,
            locked: self.locked,
        };
    }
}

/// The pool that holds the given balances.
pub open spec fn model_of(
    reserve_a: u64,
    reserve_b: u64,
    lp_supply: u64,
    fee_bps: u16,
    locked: bool,
) -> PoolModel {
    PoolModel {
        reserve_a: reserve_a as int,
        reserve_b: reserve_b as int,
        lp_supply: lp_supply as int,
        fee_bps: fee_bps as int,
        locked,
    }
}

/// Creates an empty, unlocked pool that charges `fee_bps` basis points on
/// each swap. A fee above `MAX_FEE_BPS` is refused with `InvalidFee`.
pub fn init_pool(fee_bps: u16) -> (result: Result<PoolState, AmmError>)
    ensures
        fee_bps <= MAX_FEE_BPS ==> result is Ok,
        fee_bps > MAX_FEE_BPS ==> result == Err::<PoolState, AmmError>(AmmError::InvalidFee),
        result matches Ok(pool) ==> pool@ == (PoolModel {
            reserve_a: 0,
            reserve_b: 0,
            lp_supply: 0,
            fee_bps: fee_bps as int,
            locked: false,
        }),
{
    if fee_bps > MAX_FEE_BPS {
        Err(AmmError::InvalidFee)
    } else {
        Ok(PoolState { reserve_a: 0, reserve_b: 0, lp_supply: 0, fee_bps, locked: false })
    }
}

/// Locks or unlocks the pool. A locked pool refuses deposits, withdrawals
/// and swaps until it is unlocked again; its balances stay as they are.
pub fn set_locked(state: &mut PoolState, locked: bool)
    ensures
        final(state)@ == (PoolModel { locked: locked, ..old(state)@ }),
{
    proof {
        use_type_invariant(&*state);
    }
    state.locked = locked;
}

} // verus!
