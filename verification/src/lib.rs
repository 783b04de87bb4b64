//! Constant-product liquidity pool: the state of one pool, the curve
//! arithmetic behind deposits, withdrawals and swaps, and the rules that
//! decide whether an operation is applied or refused.
//!
//! The pool never moves funds itself. Every operation computes the amounts
//! that a host has to transfer, mint or burn, and records them in the pool
//! state only once all checks have passed.

pub mod arith;
pub mod curve;
pub mod deposit;
pub mod error;
pub mod laws;
pub mod pool;
pub mod swap;
pub mod withdraw;

pub use error::AmmError;
pub use pool::{init_pool, set_locked, PoolState, Side};
