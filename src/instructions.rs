//! The requests a curve answers: create, buy, sell and the two quotes.
use vstd::prelude::*;

use crate::constants::{
    BONDING_CURVE_SUPPLY, GRADUATION_THRESHOLD, INITIAL_VIRTUAL_SOL_RESERVES, MAX_NAME_LEN,
    MAX_SYMBOL_LEN, MAX_URI_LEN, TOTAL_SUPPLY,
};
use crate::error::ErrorCode;
use crate::pricing::{
    calculate_sol_out, calculate_tokens_out, fee_of, platform_fee, sol_out_of, tokens_out_of,
};
use crate::state::{byte_len, BondingCurve, CreateToken, Reserves};

verus! {

/// Base units of a buy that reach the curve once the fee is taken.
pub open spec fn buy_net(sol_amount: nat) -> int {
    sol_amount - fee_of(sol_amount as int)
}

/// What a buy quote returns on the reserves `s`.
pub open spec fn buy_quote(s: Reserves, sol_amount: nat) -> Result<nat, ErrorCode> {
    let net = buy_net(sol_amount);
    if s.graduated {
        Err(ErrorCode::AlreadyGraduated)
    } else if !(0 < s.virtual_sol + net <= u64::MAX) {
        Err(ErrorCode::ArithmeticError)
    } else {
        Ok(tokens_out_of(net, s.virtual_sol as int, s.virtual_token as int) as nat)
    }
}

/// What a buy does on the reserves `s`: the new reserves and the tokens paid
/// out, or the error that stops it.
pub open spec fn buy_result(s: Reserves, sol_amount: nat, min_tokens_out: nat) -> Result<
    (Reserves, nat),
    ErrorCode,
> {
    let net = buy_net(sol_amount);
    if s.graduated {
        Err(ErrorCode::AlreadyGraduated)
    } else if sol_amount == 0 {
        Err(ErrorCode::InvalidAmount)
    } else {
        match buy_quote(s, sol_amount) {
            Err(e) => Err(e),
            Ok(out) => {
                if out < min_tokens_out {
                    Err(ErrorCode::SlippageExceeded)
                } else if out > s.real_token {
                    Err(ErrorCode::InsufficientLiquidity)
                } else if s.real_sol + net > u64::MAX {
                    Err(ErrorCode::ArithmeticError)
                } else {
                    Ok(
                        (
                            Reserves {
                                virtual_sol: (s.virtual_sol + net) as nat,
                                virtual_token: (s.virtual_token - out) as nat,
                                real_sol: (s.real_sol + net) as nat,
                                real_token: (s.real_token - out) as nat,
                                graduated: s.real_sol + net >= GRADUATION_THRESHOLD,
                            },
                            out,
                        ),
                    )
                }
            },
        }
    }
}

/// Base units that a sell of `token_amount` takes off the virtual base reserve.
pub open spec fn sell_gross(s: Reserves, token_amount: nat) -> int {
    sol_out_of(token_amount as int, s.virtual_sol as int, s.virtual_token as int)
}

/// Base units that a sell of `token_amount` pays out once the fee is kept back.
pub open spec fn sell_net(s: Reserves, token_amount: nat) -> int {
    sell_gross(s, token_amount) - fee_of(sell_gross(s, token_amount))
}

/// What a sell quote returns on the reserves `s`.
pub open spec fn sell_quote(s: Reserves, token_amount: nat) -> Result<nat, ErrorCode> {
    if s.graduated {
        Err(ErrorCode::AlreadyGraduated)
    } else if !(0 < s.virtual_token + token_amount <= u64::MAX) {
        Err(ErrorCode::ArithmeticError)
    } else {
        Ok(sell_net(s, token_amount) as nat)
    }
}

/// What a sell does on the reserves `s`: the new reserves and the base units
/// paid out, or the error that stops it. The fee stays in the real base reserve.
pub open spec fn sell_result(s: Reserves, token_amount: nat, min_sol_out: nat) -> Result<
    (Reserves, nat),
    ErrorCode,
> {
    let gross = sell_gross(s, token_amount);
    if s.graduated {
        Err(ErrorCode::AlreadyGraduated)
    } else if token_amount == 0 {
        Err(ErrorCode::InvalidAmount)
    } else {
        match sell_quote(s, token_amount) {
            Err(e) => Err(e),
            Ok(net) => {
                if net < min_sol_out {
                    Err(ErrorCode::SlippageExceeded)
                } else if net > s.real_sol {
                    Err(ErrorCode::InsufficientLiquidity)
                } else {
                    Ok(
                        (
                            Reserves {
                                virtual_sol: (s.virtual_sol - gross) as nat,
                                virtual_token: s.virtual_token + token_amount,
                                real_sol: (s.real_sol - net) as nat,
                                real_token: s.real_token + token_amount,
                                graduated: s.graduated,
                            },
                            net,
                        ),
                    )
                }
            },
        }
    }
}

/// Buys tokens with `sol_amount` base units. The fee stays in the curve; the
/// rest moves the curve and is added to the real base reserve. The curve
/// graduates on the buy that brings its real base reserve to the threshold.
/// Returns the tokens to issue to the buyer; on an error the record is untouched.
pub fn buy(curve: &mut BondingCurve, sol_amount: u64, min_tokens_out: u64) -> (r: Result<
    u64,
    ErrorCode,
>)
    requires
        old(curve).wf(),
    ensures
        final(curve).wf(),
        match buy_result(old(curve).reserves(), sol_amount as nat, min_tokens_out as nat) {
            Ok((s, out)) => {
                &&& r == Ok::<u64, ErrorCode>(out as u64)
                &&& final(curve).reserves() == s
                &&& final(curve).same_token(old(curve))
            },
            Err(e) => r == Err::<u64, ErrorCode>(e) && *final(curve) == *old(curve),
        },
{
    if curve.is_graduated {
        return Err(ErrorCode::AlreadyGraduated);
    }
    if sol_amount == 0 {
        return Err(ErrorCode::InvalidAmount);
    }
    let fee = platform_fee(sol_amount);
    let sol_after_fee = sol_amount - fee;
    let tokens_out = match calculate_tokens_out(
        sol_after_fee,
        curve.virtual_sol_reserves,
        curve.virtual_token_reserves,
    ) {
        Ok(t) => t,
        Err(e) => return Err(e),
    };
    if tokens_out < min_tokens_out {
        return Err(ErrorCode::SlippageExceeded);
    }
    if tokens_out > curve.real_token_reserves {
        return Err(ErrorCode::InsufficientLiquidity);
    }
    let real_sol_reserves = match curve.real_sol_reserves.checked_add(sol_after_fee) {
        Some(v) => v,
        None => return Err(ErrorCode::ArithmeticError),
    };
    curve.virtual_sol_reserves = curve.virtual_sol_reserves + sol_after_fee;
    curve.virtual_token_reserves = curve.virtual_token_reserves - tokens_out;
    curve.real_sol_reserves = real_sol_reserves;
    curve.real_token_reserves = curve.real_token_reserves - tokens_out;
    if curve.real_sol_reserves >= GRADUATION_THRESHOLD {
        curve.is_graduated = true;
    }
    Ok(tokens_out)
}

/// Sells `token_amount` tokens back to the curve. The whole price leaves the
/// virtual base reserve; only the price less the fee leaves the real one.
/// Returns the base units to pay the seller; on an error the record is untouched.
pub fn sell(curve: &mut BondingCurve, token_amount: u64, min_sol_out: u64) -> (r: Result<
    u64,
    ErrorCode,
>)
    requires
        old(curve).wf(),
    ensures
        final(curve).wf(),
        match sell_result(old(curve).reserves(), token_amount as nat, min_sol_out as nat) {
            Ok((s, out)) => {
                &&& r == Ok::<u64, ErrorCode>(out as u64)
                &&& final(curve).reserves() == s
                &&& final(curve).same_token(old(curve))
            },
            Err(e) => r == Err::<u64, ErrorCode>(e) && *final(curve) == *old(curve),
        },
{
    if curve.is_graduated {
        return Err(ErrorCode::AlreadyGraduated);
    }
    if token_amount == 0 {
        return Err(ErrorCode::InvalidAmount);
    }
    let sol_out = match calculate_sol_out(
        token_amount,
        curve.virtual_sol_reserves,
        curve.virtual_token_reserves,
    ) {
        Ok(v) => v,
        Err(e) => return Err(e),
    };
    let fee = platform_fee(sol_out);
    let sol_after_fee = sol_out - fee;
    if sol_after_fee < min_sol_out {
        return Err(ErrorCode::SlippageExceeded);
    }
    if sol_after_fee > curve.real_sol_reserves {
        return Err(ErrorCode::InsufficientLiquidity);
    }
    curve.virtual_sol_reserves = curve.virtual_sol_reserves - sol_out;
    curve.virtual_token_reserves = curve.virtual_token_reserves + token_amount;
    curve.real_sol_reserves = curve.real_sol_reserves - sol_after_fee;
    curve.real_token_reserves = curve.real_token_reserves + token_amount;
    Ok(sol_after_fee)
}

/// The tokens that a buy of `sol_amount` base units would pay out now, before
/// any slippage or liquidity check. Fails only on a graduated curve or when the
/// new base reserve would leave the range of a `u64`.
pub fn get_buy_quote(curve: &BondingCurve, sol_amount: u64) -> (r: Result<u64, ErrorCode>)
    ensures
        match buy_quote(curve.reserves(), sol_amount as nat) {
            Ok(out) => r == Ok::<u64, ErrorCode>(out as u64),
            Err(e) => r == Err::<u64, ErrorCode>(e),
        },
{
    if curve.is_graduated {
        return Err(ErrorCode::AlreadyGraduated);
    }
    let fee = platform_fee(sol_amount);
    let sol_after_fee = sol_amount - fee;
    calculate_tokens_out(sol_after_fee, curve.virtual_sol_reserves, curve.virtual_token_reserves)
}

/// The base units that a sell of `token_amount` tokens would pay out now, fee
/// deducted, before any slippage or liquidity check. Fails only on a graduated
/// curve or when the new token reserve would leave the range of a `u64`.
pub fn get_sell_quote(curve: &BondingCurve, token_amount: u64) -> (r: Result<u64, ErrorCode>)
    ensures
        match sell_quote(curve.reserves(), token_amount as nat) {
            Ok(out) => r == Ok::<u64, ErrorCode>(out as u64),
            Err(e) => r == Err::<u64, ErrorCode>(e),
        },
{
    if curve.is_graduated {
        return Err(ErrorCode::AlreadyGraduated);
    }
    let sol_out = match calculate_sol_out(
        token_amount,
        curve.virtual_sol_reserves,
        curve.virtual_token_reserves,
    ) {
        Ok(v) => v,
        Err(e) => return Err(e),
    };
    let fee = platform_fee(sol_out);
    Ok(sol_out - fee)
}

/// The reserves of a newly created curve.
pub open spec fn initial_reserves() -> Reserves {
    Reserves {
        virtual_sol: INITIAL_VIRTUAL_SOL_RESERVES as nat,
        virtual_token: BONDING_CURVE_SUPPLY as nat,
        real_sol: 0,
        real_token: BONDING_CURVE_SUPPLY as nat,
        graduated: false,
    }
}

/// Whether the name, symbol and URI fit the record's bounds, in bytes.
pub open spec fn metadata_fits(name: Seq<char>, symbol: Seq<char>, uri: Seq<char>) -> bool {
    &&& byte_len(name) <= MAX_NAME_LEN
    &&& byte_len(symbol) <= MAX_SYMBOL_LEN
    &&& byte_len(uri) <= MAX_URI_LEN
}

/// Creates the record of a new curve for `ctx.mint`, at the starting point of
/// the curve, with no real base reserve and the whole curve supply to sell.
pub fn create_token(ctx: &CreateToken, name: String, symbol: String, uri: String) -> (r: Result<
    BondingCurve,
    ErrorCode,
>)
    ensures
        ctx.curve_exists ==> r == Err::<BondingCurve, ErrorCode>(ErrorCode::AlreadyExists),
        !ctx.curve_exists && !metadata_fits(name@, symbol@, uri@) ==> r == Err::<
            BondingCurve,
            ErrorCode,
        >(ErrorCode::MetadataTooLong),
        r is Ok <==> !ctx.curve_exists && metadata_fits(name@, symbol@, uri@),
        r matches Ok(c) ==> {
            &&& c.wf()
            &&& c.reserves() == initial_reserves()
            &&& c.mint == ctx.mint
            &&& c.creator == ctx.creator
            &&& c.total_supply == TOTAL_SUPPLY
            &&& c.created_at == ctx.created_at
            &&& c.name == name
            &&& c.symbol == symbol
            &&& c.uri == uri
            &&& c.bump == ctx.bump
            &&& c.vault_bump == ctx.vault_bump
        },
{
    if ctx.curve_exists {
        return Err(ErrorCode::AlreadyExists);
    }
    if name.as_str().as_bytes().len() > MAX_NAME_LEN || symbol.as_str().as_bytes().len() > MAX_SYMBOL_LEN
        || uri.as_str().as_bytes().len() > MAX_URI_LEN {
        return Err(ErrorCode::MetadataTooLong);
    }
    Ok(
        BondingCurve {
            mint: ctx.mint,
            creator: ctx.creator,
            virtual_sol_reserves: INITIAL_VIRTUAL_SOL_RESERVES,
            virtual_token_reserves: BONDING_CURVE_SUPPLY,
            real_sol_reserves: 0,
            real_token_reserves: BONDING_CURVE_SUPPLY,
            total_supply: TOTAL_SUPPLY,
            is_graduated: false,
            created_at: ctx.created_at,
            name,
            symbol,
            uri,
            bump: ctx.bump,
            vault_bump: ctx.vault_bump,
        },
    )
}

} // verus!
