use bonding_curve::{
    buy, calculate_sol_out, calculate_tokens_out, create_token, get_buy_quote, get_sell_quote,
    platform_fee, sell, BondingCurve, CreateToken, ErrorCode, Key, BONDING_CURVE_SUPPLY,
    GRADUATION_THRESHOLD, INITIAL_VIRTUAL_SOL_RESERVES, TOTAL_SUPPLY,
};

fn ctx(curve_exists: bool) -> CreateToken {
    CreateToken {
        mint: Key { bytes: [7u8; 32] },
        creator: Key { bytes: [9u8; 32] },
        curve_exists,
        created_at: 1_700_000_000,
        bump: 254,
        vault_bump: 253,
    }
}

fn new_curve() -> BondingCurve {
    create_token(&ctx(false), "Launch".to_string(), "LNCH".to_string(), "https://x.io/m.json".to_string())
        .unwrap()
}

fn product(c: &BondingCurve) -> u128 {
    c.virtual_sol_reserves as u128 * c.virtual_token_reserves as u128
}

#[test]
fn create_token_sets_starting_point() {
    let c = new_curve();
    assert_eq!(c.mint, Key { bytes: [7u8; 32] });
    assert_eq!(c.creator, Key { bytes: [9u8; 32] });
    assert_eq!(c.virtual_sol_reserves, 30_000_000_000);
    assert_eq!(c.virtual_sol_reserves, INITIAL_VIRTUAL_SOL_RESERVES);
    assert_eq!(c.virtual_token_reserves, BONDING_CURVE_SUPPLY);
    assert_eq!(c.real_sol_reserves, 0);
    assert_eq!(c.real_token_reserves, BONDING_CURVE_SUPPLY);
    assert_eq!(c.total_supply, TOTAL_SUPPLY);
    assert!(!c.is_graduated);
    assert_eq!(c.created_at, 1_700_000_000);
    assert_eq!(c.name, "Launch");
    assert_eq!(c.symbol, "LNCH");
    assert_eq!(c.uri, "https://x.io/m.json");
    assert_eq!(c.bump, 254);
    assert_eq!(c.vault_bump, 253);
}

#[test]
fn create_token_twice_fails() {
    let r = create_token(&ctx(true), "A".to_string(), "A".to_string(), "u".to_string());
    assert_eq!(r, Err(ErrorCode::AlreadyExists));
}

#[test]
fn create_token_bounds_metadata_in_bytes() {
    let ok = create_token(&ctx(false), "n".repeat(32), "s".repeat(10), "u".repeat(200));
    assert!(ok.is_ok());
    let long_name = create_token(&ctx(false), "n".repeat(33), "S".to_string(), "u".to_string());
    assert_eq!(long_name, Err(ErrorCode::MetadataTooLong));
    let long_symbol = create_token(&ctx(false), "n".to_string(), "s".repeat(11), "u".to_string());
    assert_eq!(long_symbol, Err(ErrorCode::MetadataTooLong));
    let long_uri = create_token(&ctx(false), "n".to_string(), "S".to_string(), "u".repeat(201));
    assert_eq!(long_uri, Err(ErrorCode::MetadataTooLong));
    // 17 characters, 34 bytes.
    let wide = create_token(&ctx(false), "\u{e9}".repeat(17), "S".to_string(), "u".to_string());
    assert_eq!(wide, Err(ErrorCode::MetadataTooLong));
}

#[test]
fn platform_fee_rounds_down() {
    assert_eq!(platform_fee(1_000_000_000), 10_000_000);
    assert_eq!(platform_fee(99), 0);
    assert_eq!(platform_fee(100), 1);
    assert_eq!(platform_fee(u64::MAX), u64::MAX / 100);
}

#[test]
fn tokens_out_matches_formula() {
    let k: u128 = 30_000_000_000u128 * 800_000_000_000_000u128;
    let expected = 800_000_000_000_000u64 - (k / 30_990_000_000u128) as u64;
    assert_eq!(expected, 25_556_631_171_346);
    assert_eq!(
        calculate_tokens_out(990_000_000, 30_000_000_000, 800_000_000_000_000),
        Ok(25_556_631_171_346)
    );
}

#[test]
fn sol_out_rounds_toward_curve() {
    assert_eq!(calculate_sol_out(1_000_000_000_000, 30_000_000_000, 800_000_000_000_000), Ok(37_453_183));
    // After the scenario buy, selling the tokens back returns exactly the net input.
    assert_eq!(
        calculate_sol_out(25_556_631_171_346, 30_990_000_000, 774_443_368_828_654),
        Ok(990_000_000)
    );
}

#[test]
fn pricing_rejects_out_of_range_reserves() {
    assert_eq!(calculate_tokens_out(1, u64::MAX, 5), Err(ErrorCode::ArithmeticError));
    assert_eq!(calculate_tokens_out(0, 0, 5), Err(ErrorCode::ArithmeticError));
    assert_eq!(calculate_sol_out(1, 5, u64::MAX), Err(ErrorCode::ArithmeticError));
    assert_eq!(calculate_sol_out(0, 5, 0), Err(ErrorCode::ArithmeticError));
    assert_eq!(calculate_tokens_out(5, 0, 100), Ok(100));
    assert_eq!(calculate_sol_out(5, 100, 0), Ok(100));
}

#[test]
fn buy_scenario_exact() {
    let mut c = new_curve();
    let fee = platform_fee(1_000_000_000);
    assert_eq!(fee, 10_000_000);
    assert_eq!(1_000_000_000 - fee, 990_000_000);
    let out = buy(&mut c, 1_000_000_000, 0).unwrap();
    assert_eq!(out, 25_556_631_171_346);
    assert_eq!(c.virtual_sol_reserves, 30_990_000_000);
    assert_eq!(c.virtual_token_reserves, 800_000_000_000_000 - 25_556_631_171_346);
    assert_eq!(c.real_sol_reserves, 990_000_000);
    assert_eq!(c.real_token_reserves, 800_000_000_000_000 - 25_556_631_171_346);
    assert!(!c.is_graduated);
    assert_eq!(c.name, "Launch");
}

#[test]
fn buy_zero_is_invalid() {
    let mut c = new_curve();
    let before = c.clone();
    assert_eq!(buy(&mut c, 0, 0), Err(ErrorCode::InvalidAmount));
    assert_eq!(c, before);
}

#[test]
fn buy_below_minimum_is_slippage() {
    let mut c = new_curve();
    let before = c.clone();
    assert_eq!(buy(&mut c, 1_000_000_000, 25_556_631_171_347), Err(ErrorCode::SlippageExceeded));
    assert_eq!(c, before);
    assert_eq!(buy(&mut c, 1_000_000_000, 25_556_631_171_346), Ok(25_556_631_171_346));
}

#[test]
fn buy_beyond_real_tokens_is_insufficient_liquidity() {
    let mut c = new_curve();
    c.real_token_reserves = 1_000;
    let before = c.clone();
    assert_eq!(buy(&mut c, 1_000_000_000, 0), Err(ErrorCode::InsufficientLiquidity));
    assert_eq!(c, before);
}

#[test]
fn buy_overflowing_reserve_is_arithmetic_error() {
    let mut c = new_curve();
    c.virtual_sol_reserves = u64::MAX - 5;
    let before = c.clone();
    assert_eq!(buy(&mut c, 1_000_000_000, 0), Err(ErrorCode::ArithmeticError));
    assert_eq!(c, before);
    let mut c = new_curve();
    c.real_sol_reserves = u64::MAX - 10;
    assert_eq!(buy(&mut c, 1_000_000_000, 0), Err(ErrorCode::ArithmeticError));
}

#[test]
fn buy_one_unit_never_underflows() {
    let mut c = new_curve();
    assert_eq!(buy(&mut c, 1, 0), Ok(26_667));
    let mut d = new_curve();
    let before = d.clone();
    assert_eq!(buy(&mut d, 1, 26_668), Err(ErrorCode::SlippageExceeded));
    assert_eq!(d, before);
}

#[test]
fn sell_after_buy_returns_less() {
    let mut c = new_curve();
    let tokens = buy(&mut c, 1_000_000_000, 0).unwrap();
    let back = sell(&mut c, tokens, 0).unwrap();
    assert_eq!(back, 980_100_000);
    assert!(back < 1_000_000_000);
    assert_eq!(c.virtual_sol_reserves, 30_000_000_000);
    assert_eq!(c.virtual_token_reserves, 800_000_000_000_000);
    assert_eq!(c.real_sol_reserves, 9_900_000);
    assert_eq!(c.real_token_reserves, 800_000_000_000_000);
}

#[test]
fn sell_errors_leave_record_unchanged() {
    let mut c = new_curve();
    let before = c.clone();
    assert_eq!(sell(&mut c, 0, 0), Err(ErrorCode::InvalidAmount));
    assert_eq!(sell(&mut c, 1_000_000_000_000, 0), Err(ErrorCode::InsufficientLiquidity));
    assert_eq!(sell(&mut c, u64::MAX, 0), Err(ErrorCode::ArithmeticError));
    assert_eq!(c, before);
    let tokens = buy(&mut c, 1_000_000_000, 0).unwrap();
    let mid = c.clone();
    assert_eq!(sell(&mut c, tokens, 980_100_001), Err(ErrorCode::SlippageExceeded));
    assert_eq!(c, mid);
}

#[test]
fn product_moves_as_rounding_directs() {
    let mut c = new_curve();
    let k0 = product(&c);
    let tokens = buy(&mut c, 1_000_000_000, 0).unwrap();
    let k1 = product(&c);
    assert!(k1 <= k0);
    assert!(k0 < k1 + c.virtual_sol_reserves as u128);
    sell(&mut c, tokens / 2, 0).unwrap();
    let k2 = product(&c);
    assert!(k1 <= k2);
    assert!(k2 < k1 + c.virtual_token_reserves as u128);
}

#[test]
fn real_reserves_stay_within_virtual() {
    let mut c = new_curve();
    let t1 = buy(&mut c, 5_000_000_000, 0).unwrap();
    assert!(c.real_token_reserves <= c.virtual_token_reserves);
    assert!(c.real_sol_reserves <= c.virtual_sol_reserves);
    buy(&mut c, 2_000_000_000, 0).unwrap();
    sell(&mut c, t1, 0).unwrap();
    assert!(c.real_token_reserves <= c.virtual_token_reserves);
    assert!(c.real_sol_reserves <= c.virtual_sol_reserves);
}

#[test]
fn quotes_repeat_and_change_nothing() {
    let c = new_curve();
    let before = c.clone();
    let q1 = get_buy_quote(&c, 1_000_000_000);
    let q2 = get_buy_quote(&c, 1_000_000_000);
    assert_eq!(q1, Ok(25_556_631_171_346));
    assert_eq!(q1, q2);
    let s1 = get_sell_quote(&c, 1_000_000_000_000);
    let s2 = get_sell_quote(&c, 1_000_000_000_000);
    assert_eq!(s1, Ok(37_078_652));
    assert_eq!(s1, s2);
    assert_eq!(c, before);
}

#[test]
fn quote_matches_trade() {
    let mut c = new_curve();
    let q = get_buy_quote(&c, 3_000_000_000).unwrap();
    assert_eq!(buy(&mut c, 3_000_000_000, 0), Ok(q));
    let s = get_sell_quote(&c, q / 3).unwrap();
    assert_eq!(sell(&mut c, q / 3, 0), Ok(s));
}

#[test]
fn graduates_on_the_crossing_buy() {
    let mut c = new_curve();
    for i in 1..=8u64 {
        buy(&mut c, 10_000_000_000, 0).unwrap();
        assert_eq!(c.real_sol_reserves, i * 9_900_000_000);
        assert!(!c.is_graduated);
    }
    assert!(c.real_sol_reserves < GRADUATION_THRESHOLD);
    assert_eq!(buy(&mut c, 10_000_000_000, 0), Ok(18_268_884_767_626));
    assert_eq!(c.real_sol_reserves, 89_100_000_000);
    assert!(c.is_graduated);
}

#[test]
fn graduated_curve_rejects_trades() {
    let mut c = new_curve();
    for _ in 0..9 {
        buy(&mut c, 10_000_000_000, 0).unwrap();
    }
    assert!(c.is_graduated);
    let before = c.clone();
    assert_eq!(buy(&mut c, 1_000_000_000, 0), Err(ErrorCode::AlreadyGraduated));
    assert_eq!(sell(&mut c, 1_000_000, 0), Err(ErrorCode::AlreadyGraduated));
    assert_eq!(buy(&mut c, 0, 0), Err(ErrorCode::AlreadyGraduated));
    assert_eq!(get_buy_quote(&c, 1_000_000_000), Err(ErrorCode::AlreadyGraduated));
    assert_eq!(get_sell_quote(&c, 1_000_000), Err(ErrorCode::AlreadyGraduated));
    assert_eq!(c, before);
}

#[test]
fn error_messages() {
    assert_eq!(ErrorCode::AlreadyGraduated.message(), "Token has already graduated to DEX");
    assert_eq!(ErrorCode::InvalidAmount.message(), "Invalid amount");
    assert_eq!(ErrorCode::SlippageExceeded.message(), "Slippage exceeded");
    assert_eq!(ErrorCode::InsufficientLiquidity.message(), "Insufficient liquidity");
}
