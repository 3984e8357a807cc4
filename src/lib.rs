//! A constant-product bonding curve: prices, fees, reserve bookkeeping and the
//! one-way graduation of a launch curve, with every transition proved free of
//! overflow and stated exactly.
pub mod constants;
pub mod error;
pub mod instructions;
pub mod laws;
pub mod pricing;
pub mod state;

pub use constants::{
    BONDING_CURVE_SUPPLY, DECIMALS, GRADUATION_THRESHOLD, INITIAL_VIRTUAL_SOL_RESERVES,
    PLATFORM_FEE_BPS, TOTAL_SUPPLY,
};
pub use error::ErrorCode;
pub use instructions::{buy, create_token, get_buy_quote, get_sell_quote, sell};
pub use pricing::{calculate_sol_out, calculate_tokens_out, platform_fee};
pub use state::{BondingCurve, CreateToken, Key};
