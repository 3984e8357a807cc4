//! The constant-product pricing function and the fee rule.
use vstd::prelude::*;
use vstd::arithmetic::div_mod::{lemma_fundamental_div_mod, lemma_mod_bound};

use crate::constants::{BPS_DENOMINATOR, PLATFORM_FEE_BPS};
use crate::error::ErrorCode;

verus! {

/// The curve's constant: the product of its two reserves.
pub open spec fn product(sol_reserves: int, token_reserves: int) -> int {
    sol_reserves * token_reserves
}

/// `a / b` rounded up, for `b > 0`.
pub open spec fn ceil_div(a: int, b: int) -> int {
    (a + b - 1) / b
}

/// Tokens paid for `sol_in` base units: the token reserve falls to the floor of
/// `k / (sol_reserves + sol_in)`, so the buyer's share is rounded down.
pub open spec fn tokens_out_of(sol_in: int, sol_reserves: int, token_reserves: int) -> int {
    token_reserves - product(sol_reserves, token_reserves) / (sol_reserves + sol_in)
}

/// Base units paid for `tokens_in` tokens: the base reserve falls to the ceiling of
/// `k / (token_reserves + tokens_in)`, so the seller's share is rounded down.
pub open spec fn sol_out_of(tokens_in: int, sol_reserves: int, token_reserves: int) -> int {
    sol_reserves - ceil_div(product(sol_reserves, token_reserves), token_reserves + tokens_in)
}

/// The platform fee on `amount`, rounded down.
pub open spec fn fee_of(amount: int) -> int {
    amount * PLATFORM_FEE_BPS / BPS_DENOMINATOR as int
}

/// The fee on a non-negative amount is at most the amount.
pub proof fn lemma_fee_bounds(amount: int)
    requires
        amount >= 0,
    ensures
        0 <= fee_of(amount) <= amount,
{
}

/// `d * (x / d) <= x < d * (x / d) + d` for `x >= 0`, `d > 0`.
pub proof fn lemma_floor_div_bounds(x: int, d: int)
    requires
        x >= 0,
        d > 0,
    ensures
        d * (x / d) <= x,
        x < d * (x / d) + d,
        x / d >= 0,
{
    lemma_fundamental_div_mod(x, d);
    lemma_mod_bound(x, d);
    let q = x / d;
    assert(q >= 0) by (nonlinear_arith)
        requires
            x == d * q + x % d,
            0 <= x % d < d,
            x >= 0,
            d > 0,
    {
    }
}

/// The product of two `u64` values fits in a `u128`.
pub proof fn lemma_product_fits(a: u64, b: u64)
    ensures
        0 <= a * b <= u128::MAX,
{
    assert(0 <= a * b <= u128::MAX) by (nonlinear_arith)
        requires
            a <= u64::MAX,
            b <= u64::MAX,
    {
    }
}

/// A buy never pays out more tokens than the virtual token reserve holds.
pub proof fn lemma_tokens_out_bounds(sol_in: int, sol_reserves: int, token_reserves: int)
    requires
        sol_in >= 0,
        sol_reserves >= 0,
        token_reserves >= 0,
        sol_reserves + sol_in > 0,
    ensures
        0 <= tokens_out_of(sol_in, sol_reserves, token_reserves) <= token_reserves,
        0 <= product(sol_reserves, token_reserves) / (sol_reserves + sol_in) <= token_reserves,
{
    let k = product(sol_reserves, token_reserves);
    let d = sol_reserves + sol_in;
    assert(k >= 0) by (nonlinear_arith)
        requires
            k == sol_reserves * token_reserves,
            sol_reserves >= 0,
            token_reserves >= 0,
    {
    }
    lemma_floor_div_bounds(k, d);
    let q = k / d;
    assert(q <= token_reserves) by (nonlinear_arith)
        requires
            d * q <= k,
            k == sol_reserves * token_reserves,
            sol_reserves <= d,
            token_reserves >= 0,
            d > 0,
    {
    }
}

/// A sell never pays out more base units than the virtual base reserve holds.
pub proof fn lemma_sol_out_bounds(tokens_in: int, sol_reserves: int, token_reserves: int)
    requires
        tokens_in >= 0,
        sol_reserves >= 0,
        token_reserves >= 0,
        token_reserves + tokens_in > 0,
    ensures
        0 <= sol_out_of(tokens_in, sol_reserves, token_reserves) <= sol_reserves,
        0 <= ceil_div(product(sol_reserves, token_reserves), token_reserves + tokens_in)
            <= sol_reserves,
{
    let k = product(sol_reserves, token_reserves);
    let d = token_reserves + tokens_in;
    assert(k >= 0) by (nonlinear_arith)
        requires
            k == sol_reserves * token_reserves,
            sol_reserves >= 0,
            token_reserves >= 0,
    {
    }
    lemma_floor_div_bounds(k + d - 1, d);
    let q = (k + d - 1) / d;
    assert(q <= sol_reserves) by (nonlinear_arith)
        requires
            d * q <= k + d - 1,
            k == sol_reserves * token_reserves,
            token_reserves <= d,
            sol_reserves >= 0,
            d > 0,
    {
    }
}

/// The platform fee on `amount`, rounded down.
pub fn platform_fee(amount: u64) -> (fee: u64)
    ensures
        fee == fee_of(amount as int),
        fee <= amount,
{
    let wide: u128 = (amount as u128) * (PLATFORM_FEE_BPS as u128);
    (wide / (BPS_DENOMINATOR as u128)) as u64
}

/// Tokens paid for `sol_in` base units against the reserves `(sol_reserves,
/// token_reserves)`. Fails only when the new base reserve would overflow or be zero.
pub fn calculate_tokens_out(sol_in: u64, sol_reserves: u64, token_reserves: u64) -> (r: Result<
    u64,
    ErrorCode,
>)
    ensures
        r is Ok <==> 0 < sol_reserves + sol_in <= u64::MAX,
        r is Ok ==> r->Ok_0 == tokens_out_of(sol_in as int, sol_reserves as int, token_reserves as int),
        r is Ok ==> r->Ok_0 <= token_reserves,
        r is Err ==> r->Err_0 == ErrorCode::ArithmeticError,
{
    proof {
        lemma_product_fits(sol_reserves, token_reserves);
    }
    let k: u128 = (sol_reserves as u128) * (token_reserves as u128);
    let new_sol_reserves = match sol_reserves.checked_add(sol_in) {
        Some(n) => n,
        None => return Err(ErrorCode::ArithmeticError),
    };
    if new_sol_reserves == 0 {
        return Err(ErrorCode::ArithmeticError);
    }
    proof {
        lemma_tokens_out_bounds(sol_in as int, sol_reserves as int, token_reserves as int);
    }
    let new_token_reserves: u128 = k / (new_sol_reserves as u128);
    if new_token_reserves > token_reserves as u128 {
        return Err(ErrorCode::ArithmeticError);
    }
    Ok(token_reserves - new_token_reserves as u64)
}

/// Base units paid for `tokens_in` tokens against the reserves `(sol_reserves,
/// token_reserves)`. Fails only when the new token reserve would overflow or be zero.
pub fn calculate_sol_out(tokens_in: u64, sol_reserves: u64, token_reserves: u64) -> (r: Result<
    u64,
    ErrorCode,
>)
    ensures
        r is Ok <==> 0 < token_reserves + tokens_in <= u64::MAX,
        r is Ok ==> r->Ok_0 == sol_out_of(tokens_in as int, sol_reserves as int, token_reserves as int),
        r is Ok ==> r->Ok_0 <= sol_reserves,
        r is Err ==> r->Err_0 == ErrorCode::ArithmeticError,
{
    proof {
        lemma_product_fits(sol_reserves, token_reserves);
    }
    let k: u128 = (sol_reserves as u128) * (token_reserves as u128);
    let new_token_reserves = match token_reserves.checked_add(tokens_in) {
        Some(n) => n,
        None => return Err(ErrorCode::ArithmeticError),
    };
    if new_token_reserves == 0 {
        return Err(ErrorCode::ArithmeticError);
    }
    let d: u128 = new_token_reserves as u128;
    assert(k + d - 1 <= u128::MAX) by (nonlinear_arith)
        requires
            k == sol_reserves * token_reserves,
            sol_reserves <= u64::MAX,
            token_reserves <= u64::MAX,
            d <= u64::MAX,
    {
    }
    proof {
        lemma_sol_out_bounds(tokens_in as int, sol_reserves as int, token_reserves as int);
    }
    let new_sol_reserves: u128 = (k + (d - 1)) / d;
    if new_sol_reserves > sol_reserves as u128 {
        return Err(ErrorCode::ArithmeticError);
    }
    Ok(sol_reserves - new_sol_reserves as u64)
}

} // verus!
