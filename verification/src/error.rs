//! The reasons a pool operation is refused.

use vstd::prelude::*;

verus! {

/// Why an operation was refused. A refused operation leaves the pool untouched.
#[derive(Debug, Clone, Copy, PartialEq, Eq, Structural)]
pub enum AmmError {
    /// An amount was zero where a positive amount is needed.
    InvalidAmount,
    /// A computed amount is on the wrong side of the caller's bound.
    SlippageExceeded,
    /// The pool is empty, or holds too little for the operation.
    InsufficientLiquidity,
    /// The pool is locked.
    PoolLocked,
    /// The fee is above one hundred percent.
    InvalidFee,
    /// A quantity would leave the 64-bit range or a divisor is zero.
    MathError,
}

impl AmmError {
    /// The text that describes this error to a user.
    pub open spec fn message_text(self) -> Seq<char> {
        match self {
            AmmError::InvalidAmount => "Invalid amount provided"@,
            AmmError::SlippageExceeded => "Slippage tolerance exceeded"@,
            AmmError::InsufficientLiquidity => "Insufficient liquidity in pool"@,
            AmmError::PoolLocked => "Pool is locked"@,
            AmmError::InvalidFee => "Fee exceeds maximum allowed"@,
            AmmError::MathError => "Arithmetic overflow or division by zero"@,
        }
    }

    /// Returns the text that describes this error to a user.
    pub fn message(&self) -> (text: &'static str)
        ensures
            text@ == self.message_text(),
    {
        match self {
            AmmError::InvalidAmount => "Invalid amount provided",
            AmmError::SlippageExceeded => "Slippage tolerance exceeded",
            AmmError::InsufficientLiquidity => "Insufficient liquidity in pool",
            AmmError::PoolLocked => "Pool is locked",
            AmmError::InvalidFee => "Fee exceeds maximum allowed",
            AmmError::MathError => "Arithmetic overflow or division by zero",
        }
    }
}

} // verus!
