use meme_chain::errors::ErrorCode;
use meme_chain::guard::{
    check_first_block_buy, check_launch_cooldown, check_priority_gate, check_trade_cooldown,
    check_wallet_cap,
};
use meme_chain::state::{bytes32_eq, hash_is_zero};
use solana_program::pubkey::Pubkey;

#[test]
fn trade_cooldown_boundary() {
    assert_eq!(check_trade_cooldown(100, 99), Ok(()));
    assert_eq!(check_trade_cooldown(100, 100), Err(ErrorCode::TradeTooFast));
    assert_eq!(check_trade_cooldown(100, 150), Err(ErrorCode::TradeTooFast));
}

#[test]
fn launch_cooldown_boundary() {
    assert_eq!(check_launch_cooldown(1_060, 1_000), Ok(()));
    assert_eq!(
        check_launch_cooldown(1_059, 1_000),
        Err(ErrorCode::LaunchCooldownActive)
    );
}

#[test]
fn wallet_cap_is_half_percent_during_launch_window() {
    let total = 1_000_000_000_000_000;
    let cap = total / 10_000 * 50;
    assert_eq!(check_wallet_cap(0, cap, total, 1_899, 1_000), Ok(()));
    assert_eq!(
        check_wallet_cap(0, cap + 1, total, 1_899, 1_000),
        Err(ErrorCode::MaxWalletExceeded)
    );
}

#[test]
fn wallet_cap_is_two_percent_after_launch_window() {
    let total = 1_000_000_000_000_000;
    let cap = total / 10_000 * 200;
    assert_eq!(check_wallet_cap(cap - 5, 5, total, 1_900, 1_000), Ok(()));
    assert_eq!(
        check_wallet_cap(cap - 5, 6, total, 1_900, 1_000),
        Err(ErrorCode::MaxWalletExceeded)
    );
}

#[test]
fn wallet_cap_balance_overflow() {
    assert_eq!(
        check_wallet_cap(u64::MAX, 1, 1_000_000, 1_900, 1_000),
        Err(ErrorCode::Overflow)
    );
}

#[test]
fn priority_gate_ignores_low_priority_trades() {
    let buyer = [7u8; 32];
    let program = [9u8; 32];
    let anything = [0u8; 32];
    assert_eq!(
        check_priority_gate(10_000_000, &buyer, &program, &anything),
        Ok(())
    );
}

#[test]
fn priority_gate_accepts_the_derived_credential() {
    let buyer = [7u8; 32];
    let program_id = [9u8; 32];
    let program = Pubkey::new_from_array(program_id);
    let (expected, _bump) =
        Pubkey::find_program_address(&[b"verified", buyer.as_slice()], &program);
    assert_eq!(
        check_priority_gate(10_000_001, &buyer, &program_id, &expected.to_bytes()),
        Ok(())
    );
}

#[test]
fn priority_gate_rejects_an_unverified_credential() {
    // Presenting the buyer's own address must fail: the credential is a
    // derived address, never the owner's.
    let buyer = [7u8; 32];
    let program_id = [9u8; 32];
    assert_eq!(
        check_priority_gate(10_000_001, &buyer, &program_id, &buyer),
        Err(ErrorCode::UnverifiedWallet)
    );
}

#[test]
fn first_block_breaker_trips_above_fifteen_percent() {
    // Same slot, output exactly at the threshold: allowed; one over: frozen.
    assert_eq!(check_first_block_buy(5, 5, 1_500, 10_000), Ok(()));
    assert_eq!(
        check_first_block_buy(5, 5, 1_501, 10_000),
        Err(ErrorCode::LargeBuyDetected)
    );
}

#[test]
fn first_block_breaker_only_watches_the_creation_slot() {
    assert_eq!(check_first_block_buy(6, 5, 10_000, 10_000), Ok(()));
}

#[test]
fn zero_hash_and_address_comparison() {
    assert!(hash_is_zero(&[0u8; 32]));
    let mut h = [0u8; 32];
    h[31] = 1;
    assert!(!hash_is_zero(&h));
    assert!(bytes32_eq(&h, &h));
    assert!(!bytes32_eq(&h, &[0u8; 32]));
}
