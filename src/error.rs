use vstd::prelude::*;

verus! {

/// Why a request against a curve was rejected. Every rejection happens before
/// any field of the record changes.
#[derive(Clone, Copy, Debug, PartialEq, Eq, Structural)]
pub enum ErrorCode {
    /// The curve has graduated and takes no more trades.
    AlreadyGraduated,
    /// A trade amount of zero.
    InvalidAmount,
    /// The output falls below the caller's minimum.
    SlippageExceeded,
    /// The output exceeds what the curve really holds.
    InsufficientLiquidity,
    /// A reserve would leave the range of a `u64`.
    ArithmeticError,
    /// A curve already exists for this token.
    AlreadyExists,
    /// The name, symbol or URI is longer than the record holds.
    MetadataTooLong,
}

impl ErrorCode {
    /// A short human-readable description of the error.
    pub fn message(&self) -> (r: &'static str) {
        match self {
            ErrorCode::AlreadyGraduated => "Token has already graduated to DEX",
            ErrorCode::InvalidAmount => "Invalid amount",
            ErrorCode::SlippageExceeded => "Slippage exceeded",
            ErrorCode::InsufficientLiquidity => "Insufficient liquidity",
            ErrorCode::ArithmeticError => "Arithmetic overflow or underflow",
            ErrorCode::AlreadyExists => "Bonding curve already exists",
            ErrorCode::MetadataTooLong => "Name, symbol or URI too long",
        }
    }
}

} // verus!
