use vstd::prelude::*;

use crate::errors::ErrorCode;
use vstd::arithmetic::div_mod::{lemma_div_is_ordered, lemma_div_multiples_vanish};
use vstd::arithmetic::mul::lemma_mul_inequality;

verus! {

/// One basis point is 1/10000; 10_000 basis points is 100%.
pub const BASIS_POINTS: u64 = 10_000;

/// The constant product of the two virtual reserves, the curve's invariant
/// quantity. It is always computed in double-width arithmetic.
pub open spec fn pool_k(vs: int, vt: int) -> int {
    vs * vt
}

/// Token reserves left on the curve after a buy that pays `sol_in` lamports:
/// the constant product divided by the grown sol reserves, floored.
pub open spec fn buy_new_token_reserves(vs: int, vt: int, sol_in: int) -> int {
    pool_k(vs, vt) / (vs + sol_in)
}

/// Tokens a buy of `sol_in` lamports takes off the curve.
pub open spec fn buy_tokens_out(vs: int, vt: int, sol_in: int) -> int {
    vt - buy_new_token_reserves(vs, vt, sol_in)
}

/// Sol reserves left on the curve after a sell that returns `tokens_in`
/// tokens: the constant product divided by the grown token reserves, floored.
pub open spec fn sell_new_sol_reserves(vs: int, vt: int, tokens_in: int) -> int {
    pool_k(vs, vt) / (vt + tokens_in)
}

/// Lamports a sell of `tokens_in` tokens takes off the curve.
pub open spec fn sell_sol_out(vs: int, vt: int, tokens_in: int) -> int {
    vs - sell_new_sol_reserves(vs, vt, tokens_in)
}

/// The fee taken from `amount` at `bps` basis points, floored.
pub open spec fn fee_of(amount: int, bps: int) -> int {
    (amount * bps) / (BASIS_POINTS as int)
}

/// Flooring the quotient keeps it at or below the token reserves whenever the
/// sol reserves do not shrink: the curve never hands out more tokens than it
/// holds.
pub proof fn lemma_quotient_at_most_reserves(vs: int, vt: int, new_sol: int)
    requires
        0 <= vs <= new_sol,
        0 <= vt,
        0 < new_sol,
    ensures
        0 <= pool_k(vs, vt) / new_sol <= vt,
{
    lemma_mul_inequality(vs, new_sol, vt);
    lemma_div_is_ordered(vs * vt, new_sol * vt, new_sol);
    lemma_div_multiples_vanish(vt, new_sol);
    vstd::arithmetic::div_mod::lemma_div_pos_is_pos(vs * vt, new_sol);
    vstd::arithmetic::mul::lemma_mul_nonnegative(vs, vt);
}

/// A fee at no more than 10_000 basis points never exceeds the amount it is
/// taken from.
pub proof fn lemma_fee_at_most_amount(amount: int, bps: int)
    requires
        0 <= amount,
        0 <= bps <= BASIS_POINTS,
    ensures
        0 <= fee_of(amount, bps) <= amount,
{
    lemma_mul_inequality(bps, BASIS_POINTS as int, amount);
    vstd::arithmetic::mul::lemma_mul_is_commutative(bps, amount);
    vstd::arithmetic::mul::lemma_mul_is_commutative(BASIS_POINTS as int, amount);
    lemma_div_is_ordered(amount * bps, amount * (BASIS_POINTS as int), BASIS_POINTS as int);
    lemma_div_multiples_vanish(amount, BASIS_POINTS as int);
    vstd::arithmetic::mul::lemma_mul_nonnegative(amount, bps);
    vstd::arithmetic::div_mod::lemma_div_pos_is_pos(amount * bps, BASIS_POINTS as int);
}

/// Two fee rates whose sum stays within 10_000 basis points together never
/// exceed the amount they are taken from: quoting such a pair cannot fail for
/// want of funds.
pub proof fn lemma_fee_split_within_amount(amount: int, pbps: int, cbps: int)
    requires
        0 <= amount,
        0 <= pbps,
        0 <= cbps,
        pbps + cbps <= BASIS_POINTS,
    ensures
        fee_of(amount, pbps) + fee_of(amount, cbps) <= amount,
{
    let d = BASIS_POINTS as int;
    let q1 = fee_of(amount, pbps);
    let q2 = fee_of(amount, cbps);
    vstd::arithmetic::mul::lemma_mul_nonnegative(amount, pbps);
    vstd::arithmetic::mul::lemma_mul_nonnegative(amount, cbps);
    vstd::arithmetic::div_mod::lemma_fundamental_div_mod(amount * pbps, d);
    vstd::arithmetic::div_mod::lemma_fundamental_div_mod(amount * cbps, d);
    vstd::arithmetic::div_mod::lemma_mod_division_less_than_divisor(amount * pbps, d);
    vstd::arithmetic::div_mod::lemma_mod_division_less_than_divisor(amount * cbps, d);
    assert((q1 + q2) * d <= amount * pbps + amount * cbps) by (nonlinear_arith)
        requires
            amount * pbps == d * q1 + (amount * pbps) % d,
            amount * cbps == d * q2 + (amount * cbps) % d,
            (amount * pbps) % d >= 0,
            (amount * cbps) % d >= 0,
            d > 0,
    {}
    assert(amount * pbps + amount * cbps <= amount * d) by (nonlinear_arith)
        requires
            0 <= amount,
            pbps + cbps <= d,
    {}
    assert(q1 + q2 <= amount) by (nonlinear_arith)
        requires
            (q1 + q2) * d <= amount * d,
            d > 0,
    {}
}

/// The round-trip law: a buy whose division is exact, followed by a sell of
/// exactly the tokens received, returns the virtual reserves to their pre-buy
/// values and pays back exactly the lamports paid — the round trip never
/// favors the trader. (A buy whose division rounds can instead favor the
/// trader, because flooring the post-buy token reserves shrinks the constant
/// product; the law is stated of the exact case.)
pub proof fn lemma_buy_sell_round_trip(vs: u64, vt: u64, sol_in: u64)
    requires
        1 <= sol_in,
        vs + sol_in <= u64::MAX,
        pool_k(vs as int, vt as int) % (vs as int + sol_in as int) == 0,
        buy_tokens_out(vs as int, vt as int, sol_in as int) >= 1,
    ensures
        ({
            let b = vs as int + sol_in as int;
            let q = buy_new_token_reserves(vs as int, vt as int, sol_in as int);
            let t = buy_tokens_out(vs as int, vt as int, sol_in as int);
            &&& q + t == vt
            &&& sell_new_sol_reserves(b, q, t) == vs
            &&& sell_sol_out(b, q, t) == sol_in
        }),
{
    let a = pool_k(vs as int, vt as int);
    let b = vs as int + sol_in as int;
    let q = buy_new_token_reserves(vs as int, vt as int, sol_in as int);
    let t = buy_tokens_out(vs as int, vt as int, sol_in as int);
    vstd::arithmetic::mul::lemma_mul_nonnegative(vs as int, vt as int);
    vstd::arithmetic::div_mod::lemma_fundamental_div_mod(a, b);
    assert(a == b * q);
    assert(q + t == vt);
    vstd::arithmetic::div_mod::lemma_div_pos_is_pos(a, b);
    assert(vt >= 1);
    assert(pool_k(b, q) == b * q);
    vstd::arithmetic::mul::lemma_mul_is_commutative(vs as int, vt as int);
    vstd::arithmetic::div_mod::lemma_div_multiples_vanish(vs as int, vt as int);
    assert((vt as int) * (vs as int) / (vt as int) == vs as int);
    assert(sell_new_sol_reserves(b, q, t) == vs);
}

/// The error a buy quote reports: overflow of the sol reserves first, then a
/// zero output, then fees that would exceed the payment.
pub open spec fn buy_quote_error(vs: int, vt: int, sol_in: int, pbps: int, cbps: int) -> ErrorCode {
    if vs + sol_in > u64::MAX {
        ErrorCode::Overflow
    } else if buy_tokens_out(vs, vt, sol_in) <= 0 {
        ErrorCode::InvalidAmount
    } else {
        ErrorCode::InsufficientFunds
    }
}

/// When a buy quote succeeds: the grown sol reserves fit the working width,
/// the curve pays out at least one token, and the two fees leave a
/// non-negative net payment.
pub open spec fn buy_quote_ok(vs: int, vt: int, sol_in: int, pbps: int, cbps: int) -> bool {
    &&& vs + sol_in <= u64::MAX
    &&& buy_tokens_out(vs, vt, sol_in) > 0
    &&& fee_of(sol_in, pbps) + fee_of(sol_in, cbps) <= sol_in
}

/// A priced buy: the tokens the curve pays out, the fee split, and the
/// reserves the curve moves to.
#[derive(Clone, Copy, Debug, PartialEq, Eq, Structural)]
pub struct BuyQuote {
    pub tokens_out: u64,
    pub protocol_fee: u64,
    pub creator_fee: u64,
    pub net_sol: u64,
    pub new_virtual_sol_reserves: u64,
    pub new_virtual_token_reserves: u64,
}

/// Price a buy of `sol_in` lamports against virtual reserves `(vs, vt)`,
/// splitting the payment three ways: protocol fee, creator fee, net to the
/// curve's vault. Pure: no state is read or written.
pub fn buy_quote(vs: u64, vt: u64, sol_in: u64, protocol_fee_bps: u16, creator_fee_bps: u16)
    -> (r: Result<BuyQuote, ErrorCode>)
    requires
        sol_in >= 1,
    ensures
        r is Ok <==> buy_quote_ok(vs as int, vt as int, sol_in as int, protocol_fee_bps as int, creator_fee_bps as int),
        (r matches Ok(q) ==> {
            &&& q.tokens_out == buy_tokens_out(vs as int, vt as int, sol_in as int)
            &&& q.new_virtual_sol_reserves == vs + sol_in
            &&& q.new_virtual_token_reserves == buy_new_token_reserves(vs as int, vt as int, sol_in as int)
            &&& q.protocol_fee == fee_of(sol_in as int, protocol_fee_bps as int)
            &&& q.creator_fee == fee_of(sol_in as int, creator_fee_bps as int)
            &&& q.protocol_fee + q.creator_fee <= sol_in
            &&& q.net_sol == sol_in - q.protocol_fee - q.creator_fee
            &&& q.net_sol + q.protocol_fee + q.creator_fee == sol_in
        }),
        (r matches Err(e) ==> e == buy_quote_error(vs as int, vt as int, sol_in as int, protocol_fee_bps as int, creator_fee_bps as int)),
{
    let new_sol = match vs.checked_add(sol_in) {
        Some(s) => s,
        None => {
            return Err(ErrorCode::Overflow);
        },
    };
    proof {
        assert((u64::MAX as int) * (u64::MAX as int) <= u128::MAX as int) by (nonlinear_arith);
        vstd::arithmetic::mul::lemma_mul_upper_bound(vs as int, u64::MAX as int, vt as int, u64::MAX as int);
        lemma_quotient_at_most_reserves(vs as int, vt as int, new_sol as int);
    }
    let k: u128 = (vs as u128) * (vt as u128);
    let new_tokens_wide: u128 = k / (new_sol as u128);
    let new_tokens: u64 = new_tokens_wide as u64;
    let tokens_out: u64 = vt - new_tokens;
    if tokens_out == 0 {
        return Err(ErrorCode::InvalidAmount);
    }
    proof {
        assert((u64::MAX as int) * (u16::MAX as int) <= u128::MAX as int) by (nonlinear_arith);
        vstd::arithmetic::mul::lemma_mul_upper_bound(sol_in as int, u64::MAX as int, protocol_fee_bps as int, u16::MAX as int);
        vstd::arithmetic::mul::lemma_mul_upper_bound(sol_in as int, u64::MAX as int, creator_fee_bps as int, u16::MAX as int);
        vstd::arithmetic::mul::lemma_mul_nonnegative(sol_in as int, protocol_fee_bps as int);
        vstd::arithmetic::mul::lemma_mul_nonnegative(sol_in as int, creator_fee_bps as int);
        vstd::arithmetic::div_mod::lemma_div_pos_is_pos(sol_in as int * protocol_fee_bps as int, BASIS_POINTS as int);
        vstd::arithmetic::div_mod::lemma_div_pos_is_pos(sol_in as int * creator_fee_bps as int, BASIS_POINTS as int);
    }
    let protocol_fee_wide: u128 = (sol_in as u128) * (protocol_fee_bps as u128) / (BASIS_POINTS as u128);
    let creator_fee_wide: u128 = (sol_in as u128) * (creator_fee_bps as u128) / (BASIS_POINTS as u128);
    if protocol_fee_wide + creator_fee_wide > sol_in as u128 {
        return Err(ErrorCode::InsufficientFunds);
    }
    let protocol_fee: u64 = protocol_fee_wide as u64;
    let creator_fee: u64 = creator_fee_wide as u64;
    let net_sol: u64 = sol_in - protocol_fee - creator_fee;
    Ok(BuyQuote {
        tokens_out,
        protocol_fee,
        creator_fee,
        net_sol,
        new_virtual_sol_reserves: new_sol,
        new_virtual_token_reserves: new_tokens,
    })
}

/// Tokens a buy of `sol_amount` lamports would take off the curve, without
/// pricing the fees: the quantity the first-block circuit breaker inspects.
pub fn calculate_tokens_out(virtual_sol_reserves: u64, virtual_token_reserves: u64, sol_amount: u64)
    -> (r: Result<u64, ErrorCode>)
    requires
        sol_amount >= 1,
    ensures
        r is Ok <==> virtual_sol_reserves + sol_amount <= u64::MAX,
        (r matches Ok(t) ==> t == buy_tokens_out(virtual_sol_reserves as int, virtual_token_reserves as int, sol_amount as int)),
        (r matches Err(e) ==> e == ErrorCode::Overflow),
{
    let new_sol = match virtual_sol_reserves.checked_add(sol_amount) {
        Some(s) => s,
        None => {
            return Err(ErrorCode::Overflow);
        },
    };
    proof {
        assert((u64::MAX as int) * (u64::MAX as int) <= u128::MAX as int) by (nonlinear_arith);
        vstd::arithmetic::mul::lemma_mul_upper_bound(virtual_sol_reserves as int, u64::MAX as int, virtual_token_reserves as int, u64::MAX as int);
        lemma_quotient_at_most_reserves(virtual_sol_reserves as int, virtual_token_reserves as int, new_sol as int);
    }
    let k: u128 = (virtual_sol_reserves as u128) * (virtual_token_reserves as u128);
    let new_tokens: u64 = (k / (new_sol as u128)) as u64;
    Ok(virtual_token_reserves - new_tokens)
}

/// The error a sell quote reports: overflow of the token reserves first, then
/// a zero output, then fees that would exceed the proceeds.
pub open spec fn sell_quote_error(vs: int, vt: int, tokens_in: int, pbps: int, cbps: int) -> ErrorCode {
    if vt + tokens_in > u64::MAX {
        ErrorCode::Overflow
    } else if sell_sol_out(vs, vt, tokens_in) <= 0 {
        ErrorCode::InvalidAmount
    } else {
        ErrorCode::InsufficientFunds
    }
}

/// When a sell quote succeeds: the grown token reserves fit the working
/// width, the curve pays out at least one lamport, and the two fees leave a
/// non-negative net payout.
pub open spec fn sell_quote_ok(vs: int, vt: int, tokens_in: int, pbps: int, cbps: int) -> bool {
    &&& vt + tokens_in <= u64::MAX
    &&& sell_sol_out(vs, vt, tokens_in) > 0
    &&& fee_of(sell_sol_out(vs, vt, tokens_in), pbps) + fee_of(sell_sol_out(vs, vt, tokens_in), cbps)
        <= sell_sol_out(vs, vt, tokens_in)
}

/// A priced sell: the lamports the curve pays out, the fee split, and the
/// reserves the curve moves to.
#[derive(Clone, Copy, Debug, PartialEq, Eq, Structural)]
pub struct SellQuote {
    pub sol_out: u64,
    pub protocol_fee: u64,
    pub creator_fee: u64,
    pub net_sol: u64,
    pub new_virtual_sol_reserves: u64,
    pub new_virtual_token_reserves: u64,
}

/// Price a sell of `tokens_in` tokens against virtual reserves `(vs, vt)`,
/// splitting the proceeds three ways exactly as a buy splits its payment.
/// Pure: no state is read or written.
pub fn sell_quote(vs: u64, vt: u64, tokens_in: u64, protocol_fee_bps: u16, creator_fee_bps: u16)
    -> (r: Result<SellQuote, ErrorCode>)
    requires
        tokens_in >= 1,
    ensures
        r is Ok <==> sell_quote_ok(vs as int, vt as int, tokens_in as int, protocol_fee_bps as int, creator_fee_bps as int),
        (r matches Ok(q) ==> {
            &&& q.sol_out == sell_sol_out(vs as int, vt as int, tokens_in as int)
            &&& q.new_virtual_sol_reserves == sell_new_sol_reserves(vs as int, vt as int, tokens_in as int)
            &&& q.new_virtual_token_reserves == vt + tokens_in
            &&& q.protocol_fee == fee_of(q.sol_out as int, protocol_fee_bps as int)
            &&& q.creator_fee == fee_of(q.sol_out as int, creator_fee_bps as int)
            &&& q.protocol_fee + q.creator_fee <= q.sol_out
            &&& q.net_sol == q.sol_out - q.protocol_fee - q.creator_fee
            &&& q.net_sol + q.protocol_fee + q.creator_fee == q.sol_out
        }),
        (r matches Err(e) ==> e == sell_quote_error(vs as int, vt as int, tokens_in as int, protocol_fee_bps as int, creator_fee_bps as int)),
{
    let new_tokens = match vt.checked_add(tokens_in) {
        Some(t) => t,
        None => {
            return Err(ErrorCode::Overflow);
        },
    };
    proof {
        assert((u64::MAX as int) * (u64::MAX as int) <= u128::MAX as int) by (nonlinear_arith);
        vstd::arithmetic::mul::lemma_mul_upper_bound(vs as int, u64::MAX as int, vt as int, u64::MAX as int);
        vstd::arithmetic::mul::lemma_mul_is_commutative(vs as int, vt as int);
        lemma_quotient_at_most_reserves(vt as int, vs as int, new_tokens as int);
    }
    let k: u128 = (vs as u128) * (vt as u128);
    let new_sol_wide: u128 = k / (new_tokens as u128);
    let new_sol: u64 = new_sol_wide as u64;
    let sol_out: u64 = vs - new_sol;
    if sol_out == 0 {
        return Err(ErrorCode::InvalidAmount);
    }
    proof {
        assert((u64::MAX as int) * (u16::MAX as int) <= u128::MAX as int) by (nonlinear_arith);
        vstd::arithmetic::mul::lemma_mul_upper_bound(sol_out as int, u64::MAX as int, protocol_fee_bps as int, u16::MAX as int);
        vstd::arithmetic::mul::lemma_mul_upper_bound(sol_out as int, u64::MAX as int, creator_fee_bps as int, u16::MAX as int);
        vstd::arithmetic::mul::lemma_mul_nonnegative(sol_out as int, protocol_fee_bps as int);
        vstd::arithmetic::mul::lemma_mul_nonnegative(sol_out as int, creator_fee_bps as int);
        vstd::arithmetic::div_mod::lemma_div_pos_is_pos(sol_out as int * protocol_fee_bps as int, BASIS_POINTS as int);
        vstd::arithmetic::div_mod::lemma_div_pos_is_pos(sol_out as int * creator_fee_bps as int, BASIS_POINTS as int);
    }
    let protocol_fee_wide: u128 = (sol_out as u128) * (protocol_fee_bps as u128) / (BASIS_POINTS as u128);
    let creator_fee_wide: u128 = (sol_out as u128) * (creator_fee_bps as u128) / (BASIS_POINTS as u128);
    if protocol_fee_wide + creator_fee_wide > sol_out as u128 {
        return Err(ErrorCode::InsufficientFunds);
    }
    let protocol_fee: u64 = protocol_fee_wide as u64;
    let creator_fee: u64 = creator_fee_wide as u64;
    let net_sol: u64 = sol_out - protocol_fee - creator_fee;
    Ok(SellQuote {
        sol_out,
        protocol_fee,
        creator_fee,
        net_sol,
        new_virtual_sol_reserves: new_sol,
        new_virtual_token_reserves: new_tokens,
    })
}

} // verus!
