use vstd::prelude::*;

verus! {

/// Total supply of a launched token, recorded on every curve.
pub const TOTAL_SUPPLY: u64 = 1_000_000_000_000_000;

/// Tokens allocated to the curve: its starting virtual and real token reserves.
pub const BONDING_CURVE_SUPPLY: u64 = 800_000_000_000_000;

/// Starting virtual base reserve, which gives the curve its opening price.
pub const INITIAL_VIRTUAL_SOL_RESERVES: u64 = 30_000_000_000;

/// Real base reserve at which a curve graduates and stops trading.
pub const GRADUATION_THRESHOLD: u64 = 85_000_000_000;

/// Fee charged on every trade, in basis points.
pub const PLATFORM_FEE_BPS: u64 = 100;

/// Basis points in a whole.
pub const BPS_DENOMINATOR: u64 = 10_000;

/// Decimal places of a launched token.
pub const DECIMALS: u8 = 6;

/// Longest name, in bytes, that a curve record holds.
pub const MAX_NAME_LEN: usize = 32;

/// Longest symbol, in bytes, that a curve record holds.
pub const MAX_SYMBOL_LEN: usize = 10;

/// Longest metadata URI, in bytes, that a curve record holds.
pub const MAX_URI_LEN: usize = 200;

} // verus!
