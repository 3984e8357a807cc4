//! Properties of whole trades, stated over the reserve model that `buy` and
//! `sell` are specified by.
use vstd::prelude::*;
use vstd::arithmetic::div_mod::lemma_fundamental_div_mod;

use crate::constants::GRADUATION_THRESHOLD;
use crate::error::ErrorCode;
use crate::instructions::{
    buy_net, buy_quote, buy_result, sell_gross, sell_quote, sell_result,
};
use crate::pricing::{
    ceil_div, fee_of, lemma_fee_bounds, lemma_floor_div_bounds, lemma_sol_out_bounds,
    lemma_tokens_out_bounds, product, tokens_out_of,
};
use crate::state::Reserves;

verus! {

/// A buy never raises the product of the virtual reserves. The token reserve is
/// rounded down, so the product after the buy is at most the product before and
/// falls short of it by less than the new virtual base reserve; where that
/// reserve divides the product before, the product is unchanged.
pub proof fn law_buy_product(s: Reserves, sol_amount: nat, min_tokens_out: nat)
    requires
        buy_result(s, sol_amount, min_tokens_out) is Ok,
    ensures
        ({
            let after = buy_result(s, sol_amount, min_tokens_out)->Ok_0.0;
            let k = product(s.virtual_sol as int, s.virtual_token as int);
            let k2 = product(after.virtual_sol as int, after.virtual_token as int);
            &&& k2 <= k
            &&& k < k2 + after.virtual_sol
            &&& k % (after.virtual_sol as int) == 0 ==> k2 == k
        }),
{
    let net = buy_net(sol_amount);
    lemma_fee_bounds(sol_amount as int);
    let k = product(s.virtual_sol as int, s.virtual_token as int);
    let d = s.virtual_sol + net;
    lemma_tokens_out_bounds(net, s.virtual_sol as int, s.virtual_token as int);
    lemma_floor_div_bounds(k, d);
    lemma_fundamental_div_mod(k, d);
    let after = buy_result(s, sol_amount, min_tokens_out)->Ok_0.0;
    assert(after.virtual_sol == d);
    assert(after.virtual_token == k / d);
}

/// A sell never lowers the product of the virtual reserves. The base reserve is
/// rounded up, so the product after the sell is at least the product before and
/// exceeds it by less than the new virtual token reserve.
pub proof fn law_sell_product(s: Reserves, token_amount: nat, min_sol_out: nat)
    requires
        sell_result(s, token_amount, min_sol_out) is Ok,
    ensures
        ({
            let after = sell_result(s, token_amount, min_sol_out)->Ok_0.0;
            let k = product(s.virtual_sol as int, s.virtual_token as int);
            let k2 = product(after.virtual_sol as int, after.virtual_token as int);
            &&& k <= k2
            &&& k2 < k + after.virtual_token
        }),
{
    let k = product(s.virtual_sol as int, s.virtual_token as int);
    let d = (s.virtual_token + token_amount) as int;
    lemma_sol_out_bounds(token_amount as int, s.virtual_sol as int, s.virtual_token as int);
    lemma_floor_div_bounds(k + d - 1, d);
    let after = sell_result(s, token_amount, min_sol_out)->Ok_0.0;
    let c = ceil_div(k, d);
    assert(after.virtual_sol == c);
    assert(after.virtual_token == d);
    assert(k <= c * d < k + d) by (nonlinear_arith)
        requires
            d * c <= k + d - 1,
            k + d - 1 < d * c + d,
    {
    }
}

/// A buy keeps the real reserves within the virtual ones.
pub proof fn law_buy_keeps_real_within_virtual(
    s: Reserves,
    sol_amount: nat,
    min_tokens_out: nat,
)
    requires
        s.real_token <= s.virtual_token,
        s.real_sol <= s.virtual_sol,
        buy_result(s, sol_amount, min_tokens_out) is Ok,
    ensures
        ({
            let after = buy_result(s, sol_amount, min_tokens_out)->Ok_0.0;
            after.real_token <= after.virtual_token && after.real_sol <= after.virtual_sol
        }),
{
    lemma_fee_bounds(sol_amount as int);
    lemma_tokens_out_bounds(buy_net(sol_amount), s.virtual_sol as int, s.virtual_token as int);
}

/// A sell keeps the real token reserve within the virtual one, and the real base
/// reserve within the virtual one wherever the fee it keeps back is no more than
/// the margin between the two base reserves.
pub proof fn law_sell_keeps_real_within_virtual(
    s: Reserves,
    token_amount: nat,
    min_sol_out: nat,
)
    requires
        s.real_token <= s.virtual_token,
        s.real_sol <= s.virtual_sol,
        sell_result(s, token_amount, min_sol_out) is Ok,
    ensures
        ({
            let after = sell_result(s, token_amount, min_sol_out)->Ok_0.0;
            &&& after.real_token <= after.virtual_token
            &&& fee_of(sell_gross(s, token_amount)) <= s.virtual_sol - s.real_sol
                ==> after.real_sol <= after.virtual_sol
        }),
{
    lemma_sol_out_bounds(token_amount as int, s.virtual_sol as int, s.virtual_token as int);
    lemma_fee_bounds(sell_gross(s, token_amount));
}

/// Buying with `sol_amount` base units and at once selling every token bought
/// returns less than `sol_amount`, wherever the buy pays a fee and the virtual
/// base reserve with `sol_amount` added stays within the virtual token reserve.
pub proof fn law_buy_then_sell_loses(s: Reserves, sol_amount: nat)
    requires
        buy_result(s, sol_amount, 0) is Ok,
        fee_of(sol_amount as int) > 0,
        s.virtual_sol + sol_amount <= s.virtual_token,
    ensures
        ({
            let (mid, tokens) = buy_result(s, sol_amount, 0)->Ok_0;
            sell_result(mid, tokens, 0) matches Ok((_, back)) ==> back < sol_amount
        }),
{
    let (mid, tokens) = buy_result(s, sol_amount, 0)->Ok_0;
    let vs = s.virtual_sol as int;
    let vt = s.virtual_token as int;
    let net = buy_net(sol_amount);
    lemma_fee_bounds(sol_amount as int);
    let k = product(vs, vt);
    let d1 = vs + net;
    lemma_tokens_out_bounds(net, vs, vt);
    lemma_floor_div_bounds(k, d1);
    let q1 = k / d1;
    assert(mid.virtual_sol == d1);
    assert(mid.virtual_token == q1);
    assert(tokens == vt - q1);
    if sell_result(mid, tokens, 0) is Ok {
        let k1 = product(d1, q1);
        lemma_floor_div_bounds(k1 + vt - 1, vt);
        let c = (k1 + vt - 1) / vt;
        assert(c >= vs) by (nonlinear_arith)
            requires
                vt * c + vt > k1 + vt - 1,
                k1 == d1 * q1,
                k < d1 * q1 + d1,
                k == vs * vt,
                d1 <= vt,
                vt > 0,
        {
        }
        lemma_sol_out_bounds(tokens as int, d1, q1);
        let gross = sell_gross(mid, tokens);
        assert(gross == d1 - c);
        lemma_fee_bounds(gross);
    }
}

/// A buy of a single base unit on a trading curve either succeeds, paying at least
/// the minimum asked, or fails on slippage with a positive minimum; this holds
/// wherever neither base reserve is at the top of the `u64` range and the curve
/// really holds the tokens such a buy pays out.
pub proof fn law_smallest_buy(s: Reserves, min_tokens_out: nat)
    requires
        !s.graduated,
        s.virtual_sol < u64::MAX,
        s.real_sol < u64::MAX,
        tokens_out_of(1, s.virtual_sol as int, s.virtual_token as int) <= s.real_token,
    ensures
        match buy_result(s, 1, min_tokens_out) {
            Ok((_, out)) => out >= min_tokens_out,
            Err(e) => e == ErrorCode::SlippageExceeded && min_tokens_out > 0,
        },
{
    assert(fee_of(1) == 0);
    assert(buy_net(1) == 1);
    lemma_tokens_out_bounds(1, s.virtual_sol as int, s.virtual_token as int);
}

/// Graduation is one-way and happens on a buy: a successful buy starts from a
/// trading curve and leaves it graduated exactly when its real base reserve has
/// reached the threshold, a sell never graduates a curve, and on a graduated
/// curve every trade and quote fails with `AlreadyGraduated`.
pub proof fn law_graduation(
    s: Reserves,
    sol_amount: nat,
    min_tokens_out: nat,
    token_amount: nat,
    min_sol_out: nat,
)
    ensures
        buy_result(s, sol_amount, min_tokens_out) matches Ok((after, _)) ==> {
            &&& !s.graduated
            &&& after.graduated <==> after.real_sol >= GRADUATION_THRESHOLD
        },
        sell_result(s, token_amount, min_sol_out) matches Ok((after, _)) ==> !after.graduated,
        s.graduated ==> {
            &&& buy_result(s, sol_amount, min_tokens_out) == Err::<(Reserves, nat), ErrorCode>(
                ErrorCode::AlreadyGraduated,
            )
            &&& sell_result(s, token_amount, min_sol_out) == Err::<(Reserves, nat), ErrorCode>(
                ErrorCode::AlreadyGraduated,
            )
            &&& buy_quote(s, sol_amount) == Err::<nat, ErrorCode>(ErrorCode::AlreadyGraduated)
            &&& sell_quote(s, token_amount) == Err::<nat, ErrorCode>(ErrorCode::AlreadyGraduated)
        },
{
}

} // verus!
