use vstd::prelude::*;

use crate::errors::ErrorCode;
use crate::guard::{
    check_first_block_buy, check_launch_cooldown, check_priority_gate, check_trade_cooldown,
    check_wallet_cap, is_large_buy, max_wallet_amount, priority_gate_ok,
    LAUNCH_COOLDOWN_SECONDS, TRADE_COOLDOWN_SECONDS,
};
use crate::pricing::{
    buy_new_token_reserves, buy_quote, buy_quote_error, buy_quote_ok, buy_tokens_out, fee_of,
    pool_k, sell_new_sol_reserves, sell_quote, sell_quote_error, sell_quote_ok, sell_sol_out,
};
use crate::state::{
    DevBurnEvent, hash_is_zero, is_zero_hash, AmmType, MemeToken, Protocol,
    METADATA_REVEAL_DELAY_SECONDS, TOTAL_SUPPLY,
};
use vstd::string::StrSliceExecFns;

verus! {

/// The per-trade facts the host supplies from its environment: the clock, the
/// current ordinal slot, and the trader's identity, holdings and presented
/// credential.
#[derive(Clone, Copy)]
pub struct TradeContext {
    pub now: i64,
    pub slot: u64,
    pub buyer: [u8; 32],
    pub buyer_token_balance: u64,
    pub priority_fee: u64,
    pub presented_wallet: [u8; 32],
    pub program_id: [u8; 32],
}

/// What an accepted buy tells the host to execute: mint `tokens_out` to the
/// buyer, move `net_sol` to the vault, and pay the two fees.
#[derive(Clone, Copy, Debug, PartialEq, Eq, Structural)]
pub struct BuyOutcome {
    pub tokens_out: u64,
    pub protocol_fee: u64,
    pub creator_fee: u64,
    pub net_sol: u64,
    pub graduated: bool,
}

/// Why `buy_tokens` refuses a trade, if it does: the first failing check of
/// the guard's fixed order, then the quote's own failure, then any
/// commit-time counter overflow.
pub open spec fn buy_rejection(
    meme: MemeToken,
    protocol: Protocol,
    ctx: TradeContext,
    sol_amount: u64,
    min_tokens_out: u64,
    max_slippage_bps: u16,
) -> Option<ErrorCode> {
    let vs = meme.virtual_sol_reserves as int;
    let vt = meme.virtual_token_reserves as int;
    let x = sol_amount as int;
    let pbps = protocol.protocol_fee_bps as int;
    let cbps = meme.creator_fee_bps as int;
    let t = buy_tokens_out(vs, vt, x);
    if meme.is_graduated {
        Some(ErrorCode::AlreadyGraduated)
    } else if sol_amount == 0 {
        Some(ErrorCode::InvalidAmount)
    } else if max_slippage_bps > 5000 {
        Some(ErrorCode::SlippageTooHigh)
    } else if ctx.now - meme.last_trade_timestamp < TRADE_COOLDOWN_SECONDS {
        Some(ErrorCode::TradeTooFast)
    } else if ctx.now - meme.created_at < LAUNCH_COOLDOWN_SECONDS {
        Some(ErrorCode::LaunchCooldownActive)
    } else if !buy_quote_ok(vs, vt, x, pbps, cbps) {
        Some(buy_quote_error(vs, vt, x, pbps, cbps))
    } else if ctx.buyer_token_balance + t > u64::MAX {
        Some(ErrorCode::Overflow)
    } else if ctx.buyer_token_balance + t
        > max_wallet_amount(meme.total_supply as int, ctx.now as int, meme.created_at as int) {
        Some(ErrorCode::MaxWalletExceeded)
    } else if !priority_gate_ok(
        ctx.priority_fee as int, ctx.buyer@, ctx.program_id@, ctx.presented_wallet@,
    ) {
        Some(ErrorCode::UnverifiedWallet)
    } else if ctx.slot == meme.created_slot && is_large_buy(t, vt) {
        Some(ErrorCode::LargeBuyDetected)
    } else if t < min_tokens_out {
        Some(ErrorCode::SlippageExceeded)
    } else if t > meme.bonding_curve_supply {
        Some(ErrorCode::InsufficientFunds)
    } else if meme.real_sol_reserves + x > u64::MAX
        || meme.real_token_reserves + t > u64::MAX
        || meme.total_volume + x > u64::MAX
        || meme.trade_count == u64::MAX
        || meme.creator_fees_earned + fee_of(x, cbps) > u64::MAX
        || protocol.total_volume + fee_of(x, pbps) > u64::MAX {
        Some(ErrorCode::Overflow)
    } else {
        None
    }
}

/// Buy tokens off the curve for `sol_amount` lamports. Every guard check runs
/// before any mutation: a rejection returns its error with the launch and the
/// registry untouched (`LargeBuyDetected` additionally obliges the host to
/// freeze the buyer's holding). An accepted buy moves the virtual reserves
/// along the curve, accumulates the real reserves and counters, splits the
/// payment into the two fees and the net amount, and graduates the launch the
/// moment its real sol reserves reach the registry's threshold.
pub fn buy_tokens(
    meme: &mut MemeToken,
    protocol: &mut Protocol,
    ctx: TradeContext,
    sol_amount: u64,
    min_tokens_out: u64,
    max_slippage_bps: u16,
) -> (r: Result<BuyOutcome, ErrorCode>)
    requires
        old(meme).well_formed(),
        old(protocol).well_formed(),
        0 <= ctx.now,
    ensures
        final(meme).well_formed(),
        final(protocol).well_formed(),
        r is Ok <==> buy_rejection(
            *old(meme), *old(protocol), ctx, sol_amount, min_tokens_out, max_slippage_bps,
        ) is None,
        (r matches Err(e) ==> {
            &&& Some(e) == buy_rejection(
                *old(meme), *old(protocol), ctx, sol_amount, min_tokens_out, max_slippage_bps,
            )
            &&& *final(meme) == *old(meme)
            &&& *final(protocol) == *old(protocol)
        }),
        (r matches Ok(out) ==> {
            let vs = old(meme).virtual_sol_reserves as int;
            let vt = old(meme).virtual_token_reserves as int;
            let x = sol_amount as int;
            let t = buy_tokens_out(vs, vt, x);
            let pf = fee_of(x, old(protocol).protocol_fee_bps as int);
            let cf = fee_of(x, old(meme).creator_fee_bps as int);
            &&& out.tokens_out == t
            &&& out.protocol_fee == pf
            &&& out.creator_fee == cf
            &&& out.net_sol == x - pf - cf
            &&& pf + cf <= x
            &&& out.graduated == final(meme).is_graduated
            &&& final(meme).virtual_sol_reserves == vs + x
            &&& final(meme).virtual_token_reserves == buy_new_token_reserves(vs, vt, x)
            &&& final(meme).real_sol_reserves == old(meme).real_sol_reserves + x
            &&& final(meme).real_token_reserves == old(meme).real_token_reserves + t
            &&& final(meme).circulating_supply == old(meme).circulating_supply + t
            &&& final(meme).bonding_curve_supply == old(meme).bonding_curve_supply - t
            &&& final(meme).circulating_supply + final(meme).bonding_curve_supply
                == final(meme).total_supply
            &&& final(meme).total_volume == old(meme).total_volume + x
            &&& final(meme).holders_count
                == if old(meme).holders_count == 0 { 1u64 } else { old(meme).holders_count }
            &&& final(meme).last_trade_timestamp == ctx.now
            &&& final(meme).trade_count == old(meme).trade_count + 1
            &&& final(meme).creator_fees_earned == old(meme).creator_fees_earned + cf
            &&& final(meme).is_graduated
                == (old(meme).real_sol_reserves + x >= old(protocol).graduation_threshold)
            &&& ctx.buyer_token_balance + t <= max_wallet_amount(
                old(meme).total_supply as int, ctx.now as int, old(meme).created_at as int,
            )
            &&& final(meme).creator == old(meme).creator
            &&& final(meme).mint == old(meme).mint
            &&& final(meme).name@ == old(meme).name@
            &&& final(meme).symbol@ == old(meme).symbol@
            &&& final(meme).uri@ == old(meme).uri@
            &&& final(meme).image_hash == old(meme).image_hash
            &&& final(meme).created_at == old(meme).created_at
            &&& final(meme).reveal_time == old(meme).reveal_time
            &&& final(meme).created_slot == old(meme).created_slot
            &&& final(meme).total_supply == old(meme).total_supply
            &&& final(meme).amm_migrated == old(meme).amm_migrated
            &&& final(meme).amm_type == old(meme).amm_type
            &&& final(meme).creator_allocation == old(meme).creator_allocation
            &&& final(meme).creator_fee_bps == old(meme).creator_fee_bps
            &&& final(protocol).total_volume == old(protocol).total_volume + pf
            &&& final(protocol).authority == old(protocol).authority
            &&& final(protocol).fee_recipient == old(protocol).fee_recipient
            &&& final(protocol).protocol_fee_bps == old(protocol).protocol_fee_bps
            &&& final(protocol).creation_fee_lamports == old(protocol).creation_fee_lamports
            &&& final(protocol).graduation_threshold == old(protocol).graduation_threshold
            &&& final(protocol).total_memes_created == old(protocol).total_memes_created
        }),
{
    if meme.is_graduated {
        return Err(ErrorCode::AlreadyGraduated);
    }
    if sol_amount == 0 {
        return Err(ErrorCode::InvalidAmount);
    }
    if max_slippage_bps > 5000 {
        return Err(ErrorCode::SlippageTooHigh);
    }
    match check_trade_cooldown(ctx.now, meme.last_trade_timestamp) {
        Ok(()) => {},
        Err(e) => {
            return Err(e);
        },
    }
    match check_launch_cooldown(ctx.now, meme.created_at) {
        Ok(()) => {},
        Err(e) => {
            return Err(e);
        },
    }
    let quote = match buy_quote(
        meme.virtual_sol_reserves,
        meme.virtual_token_reserves,
        sol_amount,
        protocol.protocol_fee_bps,
        meme.creator_fee_bps,
    ) {
        Ok(q) => q,
        Err(e) => {
            return Err(e);
        },
    };
    match check_wallet_cap(
        ctx.buyer_token_balance,
        quote.tokens_out,
        meme.total_supply,
        ctx.now,
        meme.created_at,
    ) {
        Ok(()) => {},
        Err(e) => {
            return Err(e);
        },
    }
    match check_priority_gate(ctx.priority_fee, &ctx.buyer, &ctx.program_id, &ctx.presented_wallet) {
        Ok(()) => {},
        Err(e) => {
            return Err(e);
        },
    }
    match check_first_block_buy(
        ctx.slot,
        meme.created_slot,
        quote.tokens_out,
        meme.virtual_token_reserves,
    ) {
        Ok(()) => {},
        Err(e) => {
            return Err(e);
        },
    }
    if quote.tokens_out < min_tokens_out {
        return Err(ErrorCode::SlippageExceeded);
    }
    if quote.tokens_out > meme.bonding_curve_supply {
        return Err(ErrorCode::InsufficientFunds);
    }
    let new_real_sol = match meme.real_sol_reserves.checked_add(sol_amount) {
        Some(v) => v,
        None => {
            return Err(ErrorCode::Overflow);
        },
    };
    let new_real_tokens = match meme.real_token_reserves.checked_add(quote.tokens_out) {
        Some(v) => v,
        None => {
            return Err(ErrorCode::Overflow);
        },
    };
    let new_volume = match meme.total_volume.checked_add(sol_amount) {
        Some(v) => v,
        None => {
            return Err(ErrorCode::Overflow);
        },
    };
    let new_trade_count = match meme.trade_count.checked_add(1) {
        Some(v) => v,
        None => {
            return Err(ErrorCode::Overflow);
        },
    };
    let new_creator_fees = match meme.creator_fees_earned.checked_add(quote.creator_fee) {
        Some(v) => v,
        None => {
            return Err(ErrorCode::Overflow);
        },
    };
    let new_protocol_volume = match protocol.total_volume.checked_add(quote.protocol_fee) {
        Some(v) => v,
        None => {
            return Err(ErrorCode::Overflow);
        },
    };
    meme.virtual_sol_reserves = quote.new_virtual_sol_reserves;
    meme.virtual_token_reserves = quote.new_virtual_token_reserves;
    meme.real_sol_reserves = new_real_sol;
    meme.real_token_reserves = new_real_tokens;
    meme.circulating_supply = meme.circulating_supply + quote.tokens_out;
    meme.bonding_curve_supply = meme.bonding_curve_supply - quote.tokens_out;
    meme.total_volume = new_volume;
    if meme.holders_count == 0 {
        meme.holders_count = 1;
    }
    meme.last_trade_timestamp = ctx.now;
    meme.trade_count = new_trade_count;
    meme.creator_fees_earned = new_creator_fees;
    if new_real_sol >= protocol.graduation_threshold {
        meme.is_graduated = true;
    }
    protocol.total_volume = new_protocol_volume;
    Ok(BuyOutcome {
        tokens_out: quote.tokens_out,
        protocol_fee: quote.protocol_fee,
        creator_fee: quote.creator_fee,
        net_sol: quote.net_sol,
        graduated: meme.is_graduated,
    })
}

/// Why `initialize_protocol` refuses a configuration, if it does.
pub open spec fn init_protocol_rejection(protocol_fee_bps: u16) -> Option<ErrorCode> {
    if protocol_fee_bps > 1000 {
        Some(ErrorCode::FeeTooHigh)
    } else {
        None
    }
}

/// Create the singleton protocol registry. Refused only when the protocol fee
/// is above 10%; the counters start at zero.
pub fn initialize_protocol(
    authority: [u8; 32],
    fee_recipient: [u8; 32],
    protocol_fee_bps: u16,
    creation_fee_lamports: u64,
    graduation_threshold: u64,
) -> (r: Result<Protocol, ErrorCode>)
    ensures
        r is Ok <==> init_protocol_rejection(protocol_fee_bps) is None,
        (r matches Ok(p) ==> {
            &&& p.well_formed()
            &&& p.authority == authority
            &&& p.fee_recipient == fee_recipient
            &&& p.protocol_fee_bps == protocol_fee_bps
            &&& p.creation_fee_lamports == creation_fee_lamports
            &&& p.graduation_threshold == graduation_threshold
            &&& p.total_memes_created == 0
            &&& p.total_volume == 0
        }),
        (r matches Err(e) ==> Some(e) == init_protocol_rejection(protocol_fee_bps)),
{
    if protocol_fee_bps > 1000 {
        return Err(ErrorCode::FeeTooHigh);
    }
    Ok(Protocol {
        authority,
        fee_recipient,
        protocol_fee_bps,
        creation_fee_lamports,
        graduation_threshold,
        total_memes_created: 0,
        total_volume: 0,
    })
}

/// Why `create_meme_token` refuses a launch, if it does: the first failing
/// validation, in a fixed order.
pub open spec fn create_rejection(
    protocol: Protocol,
    name: Seq<char>,
    symbol: Seq<char>,
    uri: Seq<char>,
    image_hash: Seq<u8>,
    initial_virtual_sol_reserves: u64,
    initial_virtual_token_reserves: u64,
) -> Option<ErrorCode> {
    if name.len() > 32 {
        Some(ErrorCode::NameTooLong)
    } else if name.len() < 1 {
        Some(ErrorCode::NameTooShort)
    } else if symbol.len() > 10 {
        Some(ErrorCode::SymbolTooLong)
    } else if symbol.len() < 1 {
        Some(ErrorCode::SymbolTooShort)
    } else if uri.len() > 200 {
        Some(ErrorCode::UriTooLong)
    } else if initial_virtual_sol_reserves == 0 {
        Some(ErrorCode::InvalidReserves)
    } else if initial_virtual_token_reserves == 0 {
        Some(ErrorCode::InvalidReserves)
    } else if is_zero_hash(image_hash) {
        Some(ErrorCode::InvalidImageHash)
    } else if protocol.total_memes_created == u64::MAX {
        Some(ErrorCode::Overflow)
    } else {
        None
    }
}

/// Open a launch: validate the bounded metadata, the content hash and the
/// initial virtual reserves, then return the launch record with the fixed
/// total supply entirely on the curve and count it in the registry. The
/// host stores the record keyed by (creator, symbol) and rejects a
/// collision itself. Descriptive metadata is published only once
/// `metadata_revealed` holds, ten seconds after creation.
pub fn create_meme_token(
    protocol: &mut Protocol,
    creator: [u8; 32],
    mint: [u8; 32],
    name: String,
    symbol: String,
    uri: String,
    image_hash: [u8; 32],
    now: i64,
    slot: u64,
    initial_virtual_sol_reserves: u64,
    initial_virtual_token_reserves: u64,
) -> (r: Result<MemeToken, ErrorCode>)
    requires
        old(protocol).well_formed(),
        0 <= now <= i64::MAX - METADATA_REVEAL_DELAY_SECONDS,
    ensures
        final(protocol).well_formed(),
        r is Ok <==> create_rejection(
            *old(protocol), name@, symbol@, uri@, image_hash@,
            initial_virtual_sol_reserves, initial_virtual_token_reserves,
        ) is None,
        (r matches Err(e) ==> {
            &&& Some(e) == create_rejection(
                *old(protocol), name@, symbol@, uri@, image_hash@,
                initial_virtual_sol_reserves, initial_virtual_token_reserves,
            )
            &&& *final(protocol) == *old(protocol)
        }),
        (r matches Ok(m) ==> {
            &&& m.well_formed()
            &&& m.creator == creator
            &&& m.mint == mint
            &&& m.name@ == name@
            &&& m.symbol@ == symbol@
            &&& m.uri@ == uri@
            &&& m.image_hash == image_hash
            &&& m.created_at == now
            &&& m.reveal_time == now + METADATA_REVEAL_DELAY_SECONDS
            &&& m.created_slot == slot
            &&& m.total_supply == TOTAL_SUPPLY
            &&& m.circulating_supply == 0
            &&& m.bonding_curve_supply == TOTAL_SUPPLY
            &&& m.virtual_sol_reserves == initial_virtual_sol_reserves
            &&& m.virtual_token_reserves == initial_virtual_token_reserves
            &&& m.real_sol_reserves == 0
            &&& m.real_token_reserves == 0
            &&& !m.is_graduated
            &&& !m.amm_migrated
            &&& m.amm_type is None
            &&& m.total_volume == 0
            &&& m.holders_count == 0
            &&& m.creator_allocation == 0
            &&& m.creator_fee_bps == 0
            &&& m.creator_fees_earned == 0
            &&& m.last_trade_timestamp == now
            &&& m.trade_count == 0
            &&& final(protocol).total_memes_created == old(protocol).total_memes_created + 1
            &&& final(protocol).authority == old(protocol).authority
            &&& final(protocol).fee_recipient == old(protocol).fee_recipient
            &&& final(protocol).protocol_fee_bps == old(protocol).protocol_fee_bps
            &&& final(protocol).creation_fee_lamports == old(protocol).creation_fee_lamports
            &&& final(protocol).graduation_threshold == old(protocol).graduation_threshold
            &&& final(protocol).total_volume == old(protocol).total_volume
        }),
{
    let name_len = name.as_str().unicode_len();
    if name_len > 32 {
        return Err(ErrorCode::NameTooLong);
    }
    if name_len < 1 {
        return Err(ErrorCode::NameTooShort);
    }
    let symbol_len = symbol.as_str().unicode_len();
    if symbol_len > 10 {
        return Err(ErrorCode::SymbolTooLong);
    }
    if symbol_len < 1 {
        return Err(ErrorCode::SymbolTooShort);
    }
    if uri.as_str().unicode_len() > 200 {
        return Err(ErrorCode::UriTooLong);
    }
    if initial_virtual_sol_reserves == 0 {
        return Err(ErrorCode::InvalidReserves);
    }
    if initial_virtual_token_reserves == 0 {
        return Err(ErrorCode::InvalidReserves);
    }
    if hash_is_zero(&image_hash) {
        return Err(ErrorCode::InvalidImageHash);
    }
    let counted = match protocol.total_memes_created.checked_add(1) {
        Some(c) => c,
        None => {
            return Err(ErrorCode::Overflow);
        },
    };
    protocol.total_memes_created = counted;
    Ok(MemeToken {
        creator,
        mint,
        name,
        symbol,
        uri,
        image_hash,
        created_at: now,
        reveal_time: now + METADATA_REVEAL_DELAY_SECONDS,
        created_slot: slot,
        total_supply: TOTAL_SUPPLY,
        circulating_supply: 0,
        bonding_curve_supply: TOTAL_SUPPLY,
        virtual_sol_reserves: initial_virtual_sol_reserves,
        virtual_token_reserves: initial_virtual_token_reserves,
        real_sol_reserves: 0,
        real_token_reserves: 0,
        is_graduated: false,
        amm_migrated: false,
        amm_type: None,
        total_volume: 0,
        holders_count: 0,
        creator_allocation: 0,
        creator_fee_bps: 0,
        creator_fees_earned: 0,
        last_trade_timestamp: now,
        trade_count: 0,
    })
}

/// What an accepted sell tells the host to execute: burn the seller's tokens,
/// pay `net_sol` from the vault, and pay the two fees.
#[derive(Clone, Copy, Debug, PartialEq, Eq, Structural)]
pub struct SellOutcome {
    pub sol_out: u64,
    pub protocol_fee: u64,
    pub creator_fee: u64,
    pub net_sol: u64,
}

/// Why `sell_tokens` refuses a trade, if it does: the guard checks that apply
/// to a sell, then the quote's own failure, then a withdrawal a reserve
/// cannot cover, then any commit-time counter overflow.
pub open spec fn sell_rejection(
    meme: MemeToken,
    protocol: Protocol,
    now: i64,
    token_amount: u64,
    min_sol_out: u64,
    max_slippage_bps: u16,
) -> Option<ErrorCode> {
    let vs = meme.virtual_sol_reserves as int;
    let vt = meme.virtual_token_reserves as int;
    let y = token_amount as int;
    let pbps = protocol.protocol_fee_bps as int;
    let cbps = meme.creator_fee_bps as int;
    let s = sell_sol_out(vs, vt, y);
    if meme.is_graduated {
        Some(ErrorCode::AlreadyGraduated)
    } else if token_amount == 0 {
        Some(ErrorCode::InvalidAmount)
    } else if max_slippage_bps > 5000 {
        Some(ErrorCode::SlippageTooHigh)
    } else if now - meme.last_trade_timestamp < TRADE_COOLDOWN_SECONDS {
        Some(ErrorCode::TradeTooFast)
    } else if !sell_quote_ok(vs, vt, y, pbps, cbps) {
        Some(sell_quote_error(vs, vt, y, pbps, cbps))
    } else if s < min_sol_out {
        Some(ErrorCode::SlippageExceeded)
    } else if meme.real_sol_reserves < s
        || meme.real_token_reserves < y
        || meme.circulating_supply < y {
        Some(ErrorCode::InsufficientFunds)
    } else if meme.total_volume + s > u64::MAX || meme.trade_count == u64::MAX {
        Some(ErrorCode::Overflow)
    } else {
        None
    }
}

/// Sell `token_amount` tokens back to the curve. Every check runs before any
/// mutation: a rejection returns its error with the launch untouched. An
/// accepted sell moves the virtual reserves back along the curve, draws the
/// payout and the tokens out of the real reserves and circulation, and splits
/// the proceeds into the two fees and the net payout. A sell never graduates
/// a launch: real sol reserves only fall.
pub fn sell_tokens(
    meme: &mut MemeToken,
    protocol: &Protocol,
    now: i64,
    token_amount: u64,
    min_sol_out: u64,
    max_slippage_bps: u16,
) -> (r: Result<SellOutcome, ErrorCode>)
    requires
        old(meme).well_formed(),
        protocol.well_formed(),
        0 <= now,
    ensures
        final(meme).well_formed(),
        r is Ok <==> sell_rejection(
            *old(meme), *protocol, now, token_amount, min_sol_out, max_slippage_bps,
        ) is None,
        (r matches Err(e) ==> {
            &&& Some(e) == sell_rejection(
                *old(meme), *protocol, now, token_amount, min_sol_out, max_slippage_bps,
            )
            &&& *final(meme) == *old(meme)
        }),
        (r matches Ok(out) ==> {
            let vs = old(meme).virtual_sol_reserves as int;
            let vt = old(meme).virtual_token_reserves as int;
            let y = token_amount as int;
            let s = sell_sol_out(vs, vt, y);
            let pf = fee_of(s, protocol.protocol_fee_bps as int);
            let cf = fee_of(s, old(meme).creator_fee_bps as int);
            &&& out.sol_out == s
            &&& out.protocol_fee == pf
            &&& out.creator_fee == cf
            &&& out.net_sol == s - pf - cf
            &&& pf + cf <= s
            &&& final(meme).virtual_sol_reserves == sell_new_sol_reserves(vs, vt, y)
            &&& final(meme).virtual_token_reserves == vt + y
            &&& final(meme).real_sol_reserves == old(meme).real_sol_reserves - s
            &&& final(meme).real_token_reserves == old(meme).real_token_reserves - y
            &&& final(meme).circulating_supply == old(meme).circulating_supply - y
            &&& final(meme).bonding_curve_supply == old(meme).bonding_curve_supply + y
            &&& final(meme).circulating_supply + final(meme).bonding_curve_supply
                == final(meme).total_supply
            &&& final(meme).total_volume == old(meme).total_volume + s
            &&& final(meme).last_trade_timestamp == now
            &&& final(meme).trade_count == old(meme).trade_count + 1
            &&& final(meme).is_graduated == old(meme).is_graduated
            &&& final(meme).creator == old(meme).creator
            &&& final(meme).mint == old(meme).mint
            &&& final(meme).name@ == old(meme).name@
            &&& final(meme).symbol@ == old(meme).symbol@
            &&& final(meme).uri@ == old(meme).uri@
            &&& final(meme).image_hash == old(meme).image_hash
            &&& final(meme).created_at == old(meme).created_at
            &&& final(meme).reveal_time == old(meme).reveal_time
            &&& final(meme).created_slot == old(meme).created_slot
            &&& final(meme).total_supply == old(meme).total_supply
            &&& final(meme).amm_migrated == old(meme).amm_migrated
            &&& final(meme).amm_type == old(meme).amm_type
            &&& final(meme).holders_count == old(meme).holders_count
            &&& final(meme).creator_allocation == old(meme).creator_allocation
            &&& final(meme).creator_fee_bps == old(meme).creator_fee_bps
            &&& final(meme).creator_fees_earned == old(meme).creator_fees_earned
        }),
{
    if meme.is_graduated {
        return Err(ErrorCode::AlreadyGraduated);
    }
    if token_amount == 0 {
        return Err(ErrorCode::InvalidAmount);
    }
    if max_slippage_bps > 5000 {
        return Err(ErrorCode::SlippageTooHigh);
    }
    match check_trade_cooldown(now, meme.last_trade_timestamp) {
        Ok(()) => {},
        Err(e) => {
            return Err(e);
        },
    }
    let quote = match sell_quote(
        meme.virtual_sol_reserves,
        meme.virtual_token_reserves,
        token_amount,
        protocol.protocol_fee_bps,
        meme.creator_fee_bps,
    ) {
        Ok(q) => q,
        Err(e) => {
            return Err(e);
        },
    };
    if quote.sol_out < min_sol_out {
        return Err(ErrorCode::SlippageExceeded);
    }
    if meme.real_sol_reserves < quote.sol_out {
        return Err(ErrorCode::InsufficientFunds);
    }
    if meme.real_token_reserves < token_amount {
        return Err(ErrorCode::InsufficientFunds);
    }
    if meme.circulating_supply < token_amount {
        return Err(ErrorCode::InsufficientFunds);
    }
    let new_volume = match meme.total_volume.checked_add(quote.sol_out) {
        Some(v) => v,
        None => {
            return Err(ErrorCode::Overflow);
        },
    };
    let new_trade_count = match meme.trade_count.checked_add(1) {
        Some(v) => v,
        None => {
            return Err(ErrorCode::Overflow);
        },
    };
    meme.virtual_sol_reserves = quote.new_virtual_sol_reserves;
    meme.virtual_token_reserves = quote.new_virtual_token_reserves;
    meme.real_sol_reserves = meme.real_sol_reserves - quote.sol_out;
    meme.real_token_reserves = meme.real_token_reserves - token_amount;
    meme.circulating_supply = meme.circulating_supply - token_amount;
    meme.bonding_curve_supply = meme.bonding_curve_supply + token_amount;
    meme.total_volume = new_volume;
    meme.last_trade_timestamp = now;
    meme.trade_count = new_trade_count;
    Ok(SellOutcome {
        sol_out: quote.sol_out,
        protocol_fee: quote.protocol_fee,
        creator_fee: quote.creator_fee,
        net_sol: quote.net_sol,
    })
}

/// The fixed slice of the virtual token reserves a dev buy-and-burn takes:
/// five percent, floored.
pub open spec fn dev_tokens_of(vt: int) -> int {
    vt / 20
}

/// The sol reserves the curve moves to when the dev slice is taken off it.
pub open spec fn dev_new_sol_reserves(vs: int, vt: int) -> int {
    pool_k(vs, vt) / (vt - dev_tokens_of(vt))
}

/// What the creator must have escrowed to cover the dev slice.
pub open spec fn dev_sol_cost(vs: int, vt: int) -> int {
    dev_new_sol_reserves(vs, vt) - vs
}

/// What an accepted dev buy-and-burn reports: the auditable burn record and
/// the lamports the host draws from the creator's escrow.
#[derive(Clone, Copy, Debug, PartialEq, Eq, Structural)]
pub struct DevBurnOutcome {
    pub event: DevBurnEvent,
    pub sol_cost: u64,
}

/// Why `dev_buy_and_burn` refuses, if it does: authorization, then the
/// lifecycle state, then a slice or cost the arithmetic cannot express, then
/// an escrow below the cost, then any commit-time counter overflow.
pub open spec fn dev_buy_rejection(
    meme: MemeToken,
    caller: Seq<u8>,
    sol_amount: u64,
) -> Option<ErrorCode> {
    let vs = meme.virtual_sol_reserves as int;
    let vt = meme.virtual_token_reserves as int;
    let burned = dev_tokens_of(vt);
    let cost = dev_sol_cost(vs, vt);
    if caller != meme.creator@ {
        Some(ErrorCode::Unauthorized)
    } else if meme.is_graduated {
        Some(ErrorCode::AlreadyGraduated)
    } else if burned == 0 {
        Some(ErrorCode::InvalidAmount)
    } else if dev_new_sol_reserves(vs, vt) > u64::MAX {
        Some(ErrorCode::Overflow)
    } else if sol_amount < cost {
        Some(ErrorCode::InsufficientFunds)
    } else if meme.real_sol_reserves + cost > u64::MAX
        || meme.real_token_reserves + burned > u64::MAX
        || meme.total_volume + cost > u64::MAX {
        Some(ErrorCode::Overflow)
    } else {
        None
    }
}

/// A creator-only, pre-graduation operation: synthesize a buy of a fixed five
/// percent of the current virtual token reserves, to be minted and
/// immediately burned by the host. The escrowed `sol_amount` must cover the
/// computed cost. Reserves and volume move exactly as a real buy of that
/// size, but the burn leaves both supply counters untouched, and neither the
/// trade counters nor the cooldown clock advance: the operation is not a
/// trade. The returned record is the auditable burn event.
pub fn dev_buy_and_burn(
    meme: &mut MemeToken,
    caller: &[u8; 32],
    sol_amount: u64,
    now: i64,
) -> (r: Result<DevBurnOutcome, ErrorCode>)
    requires
        old(meme).well_formed(),
    ensures
        final(meme).well_formed(),
        r is Ok <==> dev_buy_rejection(*old(meme), caller@, sol_amount) is None,
        (r matches Err(e) ==> {
            &&& Some(e) == dev_buy_rejection(*old(meme), caller@, sol_amount)
            &&& *final(meme) == *old(meme)
        }),
        (r matches Ok(out) ==> {
            let vs = old(meme).virtual_sol_reserves as int;
            let vt = old(meme).virtual_token_reserves as int;
            let burned = dev_tokens_of(vt);
            let cost = dev_sol_cost(vs, vt);
            &&& out.event.amount_burned == burned
            &&& out.event.timestamp == now
            &&& out.sol_cost == cost
            &&& sol_amount >= cost
            &&& final(meme).virtual_sol_reserves == dev_new_sol_reserves(vs, vt)
            &&& final(meme).virtual_token_reserves == vt - burned
            &&& final(meme).real_sol_reserves == old(meme).real_sol_reserves + cost
            &&& final(meme).real_token_reserves == old(meme).real_token_reserves + burned
            &&& final(meme).total_volume == old(meme).total_volume + cost
            &&& final(meme).circulating_supply == old(meme).circulating_supply
            &&& final(meme).bonding_curve_supply == old(meme).bonding_curve_supply
            &&& final(meme).total_supply == old(meme).total_supply
            &&& final(meme).is_graduated == old(meme).is_graduated
            &&& final(meme).last_trade_timestamp == old(meme).last_trade_timestamp
            &&& final(meme).trade_count == old(meme).trade_count
            &&& *final(meme) == MemeToken {
                virtual_sol_reserves: final(meme).virtual_sol_reserves,
                virtual_token_reserves: final(meme).virtual_token_reserves,
                real_sol_reserves: final(meme).real_sol_reserves,
                real_token_reserves: final(meme).real_token_reserves,
                total_volume: final(meme).total_volume,
                ..*old(meme)
            }
        }),
{
    if !crate::state::bytes32_eq(caller, &meme.creator) {
        return Err(ErrorCode::Unauthorized);
    }
    if meme.is_graduated {
        return Err(ErrorCode::AlreadyGraduated);
    }
    let dev_tokens = meme.virtual_token_reserves / 20;
    if dev_tokens == 0 {
        return Err(ErrorCode::InvalidAmount);
    }
    let new_token_reserves = meme.virtual_token_reserves - dev_tokens;
    proof {
        assert((u64::MAX as int) * (u64::MAX as int) <= u128::MAX as int) by (nonlinear_arith);
        vstd::arithmetic::mul::lemma_mul_upper_bound(
            meme.virtual_sol_reserves as int,
            u64::MAX as int,
            meme.virtual_token_reserves as int,
            u64::MAX as int,
        );
        vstd::arithmetic::mul::lemma_mul_nonnegative(
            meme.virtual_sol_reserves as int,
            meme.virtual_token_reserves as int,
        );
        vstd::arithmetic::div_mod::lemma_div_is_ordered_by_denominator(
            meme.virtual_sol_reserves as int * meme.virtual_token_reserves as int,
            new_token_reserves as int,
            meme.virtual_token_reserves as int,
        );
        vstd::arithmetic::mul::lemma_mul_is_commutative(
            meme.virtual_sol_reserves as int,
            meme.virtual_token_reserves as int,
        );
        vstd::arithmetic::div_mod::lemma_div_multiples_vanish(
            meme.virtual_sol_reserves as int,
            meme.virtual_token_reserves as int,
        );
    }
    let k: u128 = (meme.virtual_sol_reserves as u128) * (meme.virtual_token_reserves as u128);
    let new_sol_wide: u128 = k / (new_token_reserves as u128);
    if new_sol_wide > u64::MAX as u128 {
        return Err(ErrorCode::Overflow);
    }
    let new_sol_reserves: u64 = new_sol_wide as u64;
    let estimated_sol: u64 = new_sol_reserves - meme.virtual_sol_reserves;
    if sol_amount < estimated_sol {
        return Err(ErrorCode::InsufficientFunds);
    }
    let new_real_sol = match meme.real_sol_reserves.checked_add(estimated_sol) {
        Some(v) => v,
        None => {
            return Err(ErrorCode::Overflow);
        },
    };
    let new_real_tokens = match meme.real_token_reserves.checked_add(dev_tokens) {
        Some(v) => v,
        None => {
            return Err(ErrorCode::Overflow);
        },
    };
    let new_volume = match meme.total_volume.checked_add(estimated_sol) {
        Some(v) => v,
        None => {
            return Err(ErrorCode::Overflow);
        },
    };
    meme.virtual_sol_reserves = new_sol_reserves;
    meme.virtual_token_reserves = new_token_reserves;
    meme.real_sol_reserves = new_real_sol;
    meme.real_token_reserves = new_real_tokens;
    meme.total_volume = new_volume;
    Ok(DevBurnOutcome {
        event: DevBurnEvent { amount_burned: dev_tokens, timestamp: now },
        sol_cost: estimated_sol,
    })
}

/// Why `migrate` refuses, if it does: authorization first, then the
/// lifecycle state.
pub open spec fn migrate_rejection(meme: MemeToken, caller: Seq<u8>) -> Option<ErrorCode> {
    if caller != meme.creator@ {
        Some(ErrorCode::Unauthorized)
    } else if !meme.is_graduated {
        Some(ErrorCode::NotGraduated)
    } else if meme.amm_migrated {
        Some(ErrorCode::AlreadyMigrated)
    } else {
        None
    }
}

/// Hand a graduated launch to an external venue. Only the creator may do it,
/// only after graduation, and only once: a second call fails with
/// `AlreadyMigrated` and changes nothing.
pub fn migrate(meme: &mut MemeToken, caller: &[u8; 32], target_venue: AmmType)
    -> (r: Result<(), ErrorCode>)
    requires
        old(meme).well_formed(),
    ensures
        final(meme).well_formed(),
        r is Ok <==> migrate_rejection(*old(meme), caller@) is None,
        (r matches Err(e) ==> {
            &&& Some(e) == migrate_rejection(*old(meme), caller@)
            &&& *final(meme) == *old(meme)
        }),
        (r is Ok ==> {
            &&& final(meme).amm_migrated
            &&& final(meme).amm_type == Some(target_venue)
            &&& *final(meme) == MemeToken { amm_migrated: true, amm_type: Some(target_venue), ..*old(meme) }
        }),
{
    if !crate::state::bytes32_eq(caller, &meme.creator) {
        return Err(ErrorCode::Unauthorized);
    }
    if !meme.is_graduated {
        return Err(ErrorCode::NotGraduated);
    }
    if meme.amm_migrated {
        return Err(ErrorCode::AlreadyMigrated);
    }
    meme.amm_migrated = true;
    meme.amm_type = Some(target_venue);
    Ok(())
}

} // verus!
