use meme_chain::errors::ErrorCode;
use meme_chain::pricing::{buy_quote, calculate_tokens_out, sell_quote};

#[test]
fn buy_quote_concrete_curve_point() {
    // virtual_sol = 30_000_000_000, virtual_tokens = 10^15, buy 10^9:
    // tokens_out = virtual_tokens - floor(k / (virtual_sol + 10^9)).
    let q = buy_quote(30_000_000_000, 1_000_000_000_000_000, 1_000_000_000, 0, 0).unwrap();
    assert_eq!(q.tokens_out, 32_258_064_516_130);
    assert_eq!(q.new_virtual_sol_reserves, 31_000_000_000);
    assert_eq!(q.new_virtual_token_reserves, 967_741_935_483_870);
    assert_eq!(q.protocol_fee, 0);
    assert_eq!(q.creator_fee, 0);
    assert_eq!(q.net_sol, 1_000_000_000);
}

#[test]
fn buy_quote_fee_split_is_exact() {
    let amount = 1_000_000_000;
    let q = buy_quote(30_000_000_000, 1_000_000_000_000_000, amount, 500, 250).unwrap();
    assert_eq!(q.protocol_fee, 50_000_000);
    assert_eq!(q.creator_fee, 25_000_000);
    assert_eq!(q.net_sol, amount - 50_000_000 - 25_000_000);
    assert!(q.protocol_fee + q.creator_fee <= amount);
    assert_eq!(q.net_sol + q.protocol_fee + q.creator_fee, amount);
}

#[test]
fn buy_quote_rejects_empty_token_reserves() {
    assert_eq!(
        buy_quote(30_000_000_000, 0, 1_000_000_000, 0, 0),
        Err(ErrorCode::InvalidAmount)
    );
}

#[test]
fn buy_quote_rejects_sol_reserve_overflow() {
    assert_eq!(
        buy_quote(u64::MAX, 1_000_000, 1, 0, 0),
        Err(ErrorCode::Overflow)
    );
}

#[test]
fn buy_quote_rejects_fees_exceeding_payment() {
    // 10% + 95% of the payment cannot be taken from it.
    assert_eq!(
        buy_quote(30_000_000_000, 1_000_000_000_000_000, 10_000, 1_000, 9_500),
        Err(ErrorCode::InsufficientFunds)
    );
}

#[test]
fn sell_quote_concrete_curve_point() {
    // Selling back the tokens of the concrete buy: flooring during the buy
    // shrank the constant product, so the payout exceeds the payment by one.
    let q = sell_quote(31_000_000_000, 967_741_935_483_870, 32_258_064_516_130, 0, 0).unwrap();
    assert_eq!(q.sol_out, 1_000_000_001);
    assert_eq!(q.new_virtual_sol_reserves, 29_999_999_999);
    assert_eq!(q.new_virtual_token_reserves, 1_000_000_000_000_000);
}

#[test]
fn sell_quote_fee_split_is_exact() {
    let q = sell_quote(31_000_000_000, 967_741_935_483_870, 32_258_064_516_130, 500, 250).unwrap();
    assert_eq!(q.sol_out, 1_000_000_001);
    assert_eq!(q.protocol_fee, 1_000_000_001 * 500 / 10_000);
    assert_eq!(q.creator_fee, 1_000_000_001 * 250 / 10_000);
    assert_eq!(
        q.net_sol + q.protocol_fee + q.creator_fee,
        q.sol_out
    );
}

#[test]
fn sell_quote_rejects_zero_payout() {
    // With no sol reserves the curve can pay nothing out.
    assert_eq!(
        sell_quote(0, 1_000_000, 1_000, 0, 0),
        Err(ErrorCode::InvalidAmount)
    );
}

#[test]
fn sell_quote_rejects_token_reserve_overflow() {
    assert_eq!(
        sell_quote(30_000_000_000, u64::MAX, 1, 0, 0),
        Err(ErrorCode::Overflow)
    );
}

#[test]
fn exact_division_round_trip_returns_reserves() {
    // k = 1000 divides evenly by the grown reserves 20: the buy takes 50
    // tokens, and selling the 50 back restores (10, 100) and repays exactly
    // the 10 lamports paid.
    let b = buy_quote(10, 100, 10, 0, 0).unwrap();
    assert_eq!(b.tokens_out, 50);
    assert_eq!(b.new_virtual_sol_reserves, 20);
    assert_eq!(b.new_virtual_token_reserves, 50);
    let s = sell_quote(20, 50, 50, 0, 0).unwrap();
    assert_eq!(s.sol_out, 10);
    assert_eq!(s.new_virtual_sol_reserves, 10);
    assert_eq!(s.new_virtual_token_reserves, 100);
}

#[test]
fn calculate_tokens_out_matches_buy_quote() {
    let t = calculate_tokens_out(30_000_000_000, 1_000_000_000_000_000, 1_000_000_000).unwrap();
    assert_eq!(t, 32_258_064_516_130);
    assert_eq!(
        calculate_tokens_out(u64::MAX, 1_000_000, 1),
        Err(ErrorCode::Overflow)
    );
}
