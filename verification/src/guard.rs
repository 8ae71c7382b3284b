use vstd::prelude::*;

use crate::errors::ErrorCode;
use crate::pricing::{fee_of, BASIS_POINTS};
use crate::state::bytes32_eq;

verus! {

/// Minimum seconds between two trades on one launch.
pub const TRADE_COOLDOWN_SECONDS: i64 = 1;

/// Seconds after creation during which buying is disabled.
pub const LAUNCH_COOLDOWN_SECONDS: i64 = 60;

/// Length of the launch window with the tighter wallet cap.
pub const LAUNCH_PERIOD_SECONDS: i64 = 900;

/// Wallet cap during the launch window: 0.5% of total supply.
pub const MAX_WALLET_LAUNCH_BPS: u64 = 50;

/// Wallet cap after the launch window: 2% of total supply.
pub const MAX_WALLET_NORMAL_BPS: u64 = 200;

/// A first-block buy above 15% of the virtual token reserves trips the
/// circuit breaker.
pub const LARGE_BUY_THRESHOLD_BPS: u64 = 1_500;

/// A declared priority fee above 0.01 native units demands a verified
/// identity.
pub const PRIORITY_FEE_VERIFICATION_THRESHOLD: u64 = 10_000_000;

/// Refuse a trade less than one second after the launch's previous trade.
pub fn check_trade_cooldown(now: i64, last_trade_timestamp: i64) -> (r: Result<(), ErrorCode>)
    requires
        0 <= now,
        0 <= last_trade_timestamp,
    ensures
        r is Ok <==> now - last_trade_timestamp >= TRADE_COOLDOWN_SECONDS,
        (r matches Err(e) ==> e == ErrorCode::TradeTooFast),
{
    if now - last_trade_timestamp >= TRADE_COOLDOWN_SECONDS {
        Ok(())
    } else {
        Err(ErrorCode::TradeTooFast)
    }
}

/// Refuse a buy less than sixty seconds after the launch was created.
pub fn check_launch_cooldown(now: i64, created_at: i64) -> (r: Result<(), ErrorCode>)
    requires
        0 <= now,
        0 <= created_at,
    ensures
        r is Ok <==> now - created_at >= LAUNCH_COOLDOWN_SECONDS,
        (r matches Err(e) ==> e == ErrorCode::LaunchCooldownActive),
{
    if now - created_at >= LAUNCH_COOLDOWN_SECONDS {
        Ok(())
    } else {
        Err(ErrorCode::LaunchCooldownActive)
    }
}

/// The wallet cap in force at instant `now`: tight during the launch window,
/// looser afterwards.
pub open spec fn wallet_cap_bps(now: int, created_at: int) -> int {
    if now - created_at < LAUNCH_PERIOD_SECONDS {
        MAX_WALLET_LAUNCH_BPS as int
    } else {
        MAX_WALLET_NORMAL_BPS as int
    }
}

/// The largest post-trade balance one wallet may hold at instant `now`.
pub open spec fn max_wallet_amount(total_supply: int, now: int, created_at: int) -> int {
    fee_of(total_supply, wallet_cap_bps(now, created_at))
}

/// Refuse a buy that would push the buyer's balance over the progressive
/// wallet cap.
pub fn check_wallet_cap(
    buyer_token_balance: u64,
    tokens_out: u64,
    total_supply: u64,
    now: i64,
    created_at: i64,
) -> (r: Result<(), ErrorCode>)
    requires
        0 <= now,
        0 <= created_at,
    ensures
        r is Ok <==> buyer_token_balance + tokens_out
            <= max_wallet_amount(total_supply as int, now as int, created_at as int),
        r is Ok ==> buyer_token_balance + tokens_out <= u64::MAX,
        (r matches Err(e) ==> e == (
            if buyer_token_balance + tokens_out > u64::MAX {
                ErrorCode::Overflow
            } else {
                ErrorCode::MaxWalletExceeded
            }
        )),
{
    let new_balance = match buyer_token_balance.checked_add(tokens_out) {
        Some(b) => b,
        None => {
            proof {
                crate::pricing::lemma_fee_at_most_amount(
                    total_supply as int,
                    wallet_cap_bps(now as int, created_at as int),
                );
            }
            return Err(ErrorCode::Overflow);
        },
    };
    let cap_bps: u64 = if now - created_at < LAUNCH_PERIOD_SECONDS {
        MAX_WALLET_LAUNCH_BPS
    } else {
        MAX_WALLET_NORMAL_BPS
    };
    proof {
        crate::pricing::lemma_fee_at_most_amount(total_supply as int, cap_bps as int);
    }
    let cap: u64 = ((total_supply as u128) * (cap_bps as u128) / (BASIS_POINTS as u128)) as u64;
    if new_balance <= cap {
        Ok(())
    } else {
        Err(ErrorCode::MaxWalletExceeded)
    }
}

/// The verified-identity address bound to an owner under a program, as
/// `derive_verified_address` computes it, or `None` where no such address
/// exists.
pub uninterp spec fn verified_address_of(owner: Seq<u8>, program: Seq<u8>) -> Option<Seq<u8>>;

/// Relies on solana_pubkey's `Pubkey::try_find_program_address` (reached
/// through solana_program), over the seed `b"verified"` beside the owner's
/// bytes: the derived address is a deterministic function of the owner and
/// program ids alone, `None` exactly in the improbable case that no bump
/// seed yields a valid derived address.
#[verifier::external_body]
fn derive_verified_address(owner: &[u8; 32], program_id: &[u8; 32]) -> (r: Option<[u8; 32]>)
    ensures
        (match r {
            Some(a) => verified_address_of(owner@, program_id@) == Some(a@),
            None => verified_address_of(owner@, program_id@) is None,
        }),
{
    let program = solana_program::pubkey::Pubkey::new_from_array(*program_id);
    let seeds: &[&[u8]] = &[b"verified", owner.as_slice()];
    match solana_program::pubkey::Pubkey::try_find_program_address(seeds, &program) {
        Some((address, _bump)) => Some(address.to_bytes()),
        None => None,
    }
}

/// Whether a trade passes the priority gate: either its declared priority fee
/// is at or below the threshold, or the presented credential is exactly the
/// verified-identity address derived for the trader.
pub open spec fn priority_gate_ok(
    priority_fee: int,
    buyer: Seq<u8>,
    program: Seq<u8>,
    presented_wallet: Seq<u8>,
) -> bool {
    ||| priority_fee <= PRIORITY_FEE_VERIFICATION_THRESHOLD
    ||| verified_address_of(buyer, program) == Some(presented_wallet)
}

/// Refuse a high-priority trade whose presented credential is not the
/// derived verified-identity address of the trader.
pub fn check_priority_gate(
    priority_fee: u64,
    buyer: &[u8; 32],
    program_id: &[u8; 32],
    presented_wallet: &[u8; 32],
) -> (r: Result<(), ErrorCode>)
    ensures
        r is Ok <==> priority_gate_ok(priority_fee as int, buyer@, program_id@, presented_wallet@),
        (r matches Err(e) ==> e == ErrorCode::UnverifiedWallet),
{
    if priority_fee <= PRIORITY_FEE_VERIFICATION_THRESHOLD {
        return Ok(());
    }
    match derive_verified_address(buyer, program_id) {
        Some(expected) => {
            if bytes32_eq(presented_wallet, &expected) {
                Ok(())
            } else {
                Err(ErrorCode::UnverifiedWallet)
            }
        },
        None => Err(ErrorCode::UnverifiedWallet),
    }
}

/// Whether a buy's output is over the circuit-breaker threshold: more than
/// 15% of the pre-trade virtual token reserves.
pub open spec fn is_large_buy(tokens_out: int, virtual_token_reserves: int) -> bool {
    if virtual_token_reserves <= 0 {
        false
    } else {
        tokens_out * (BASIS_POINTS as int) / virtual_token_reserves > LARGE_BUY_THRESHOLD_BPS as int
    }
}

/// Refuse a buy made in the launch's creation slot whose output trips the
/// circuit breaker. A caller seeing this error must also freeze the buyer's
/// token holding: the sanction that accompanies the rejection.
pub fn check_first_block_buy(
    slot: u64,
    created_slot: u64,
    tokens_out: u64,
    virtual_token_reserves: u64,
) -> (r: Result<(), ErrorCode>)
    ensures
        r is Ok <==> !(slot == created_slot
            && is_large_buy(tokens_out as int, virtual_token_reserves as int)),
        (r matches Err(e) ==> e == ErrorCode::LargeBuyDetected),
{
    if slot != created_slot {
        return Ok(());
    }
    if virtual_token_reserves == 0 {
        return Ok(());
    }
    proof {
        assert((u64::MAX as int) * (BASIS_POINTS as int) <= u128::MAX as int) by (nonlinear_arith);
        vstd::arithmetic::mul::lemma_mul_upper_bound(
            tokens_out as int,
            u64::MAX as int,
            BASIS_POINTS as int,
            BASIS_POINTS as int,
        );
    }
    let share_bps: u128 =
        (tokens_out as u128) * (BASIS_POINTS as u128) / (virtual_token_reserves as u128);
    if share_bps > LARGE_BUY_THRESHOLD_BPS as u128 {
        Err(ErrorCode::LargeBuyDetected)
    } else {
        Ok(())
    }
}

} // verus!
