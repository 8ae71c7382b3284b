use vstd::prelude::*;

verus! {

/// Ten to the power of the token's six decimals.
pub const TOKEN_MULTIPLIER: u64 = 1_000_000;

/// Every launch mints the same fixed supply: one billion whole tokens.
pub const TOTAL_SUPPLY: u64 = 1_000_000_000 * TOKEN_MULTIPLIER;

/// Descriptive metadata is held back this many seconds after creation.
pub const METADATA_REVEAL_DELAY_SECONDS: i64 = 10;

/// The external venues a graduated launch can migrate to.
#[derive(Clone, Copy, Debug, PartialEq, Eq, Structural)]
pub enum AmmType {
    Raydium,
    Orca,
}

/// The singleton protocol registry: fee terms, the graduation threshold, and
/// aggregate counters. Created once, mutated by every launch and buy.
#[derive(Debug)]
pub struct Protocol {
    pub authority: [u8; 32],
    pub fee_recipient: [u8; 32],
    pub protocol_fee_bps: u16,
    pub creation_fee_lamports: u64,
    pub graduation_threshold: u64,
    pub total_memes_created: u64,
    pub total_volume: u64,
}

impl Protocol {
    /// The registry's invariant: the protocol fee never exceeds 10%.
    pub open spec fn well_formed(self) -> bool {
        self.protocol_fee_bps <= 1000
    }
}

/// One token launch: its identity, bounded metadata, supply accounting, the
/// bonding curve's reserves, anti-manipulation timers and lifecycle flags.
#[derive(Debug)]
pub struct MemeToken {
    pub creator: [u8; 32],
    pub mint: [u8; 32],
    pub name: String,
    pub symbol: String,
    pub uri: String,
    pub image_hash: [u8; 32],
    pub created_at: i64,
    pub reveal_time: i64,
    pub created_slot: u64,
    pub total_supply: u64,
    pub circulating_supply: u64,
    pub bonding_curve_supply: u64,
    pub virtual_sol_reserves: u64,
    pub virtual_token_reserves: u64,
    pub real_sol_reserves: u64,
    pub real_token_reserves: u64,
    pub is_graduated: bool,
    pub amm_migrated: bool,
    pub amm_type: Option<AmmType>,
    pub total_volume: u64,
    pub holders_count: u64,
    pub creator_allocation: u64,
    pub creator_fee_bps: u16,
    pub creator_fees_earned: u64,
    pub last_trade_timestamp: i64,
    pub trade_count: u64,
}

impl MemeToken {
    /// The launch's invariant. Creation establishes it and every operation
    /// preserves it: tokens in circulation and tokens still on the curve
    /// always partition the fixed total supply; the creation timestamp is a
    /// non-negative instant that no later trade precedes; the reveal instant
    /// never moves; migration implies graduation and is what records a venue.
    pub open spec fn well_formed(self) -> bool {
        &&& self.circulating_supply + self.bonding_curve_supply == self.total_supply
        &&& 0 <= self.created_at
        &&& self.created_at <= self.last_trade_timestamp
        &&& self.reveal_time == self.created_at + METADATA_REVEAL_DELAY_SECONDS
        &&& (self.amm_migrated ==> self.is_graduated)
        &&& (self.amm_migrated <==> self.amm_type is Some)
        &&& 1 <= self.name@.len() <= 32
        &&& 1 <= self.symbol@.len() <= 10
        &&& self.uri@.len() <= 200
    }

    /// Whether the launch's descriptive metadata may be published at instant
    /// `now`: the anti-sniping delay has passed.
    pub fn metadata_revealed(&self, now: i64) -> (r: bool)
        ensures
            r == (now >= self.reveal_time),
    {
        now >= self.reveal_time
    }
}

/// The auditable record a dev buy-and-burn emits.
#[derive(Clone, Copy, Debug, PartialEq, Eq, Structural)]
pub struct DevBurnEvent {
    pub amount_burned: u64,
    pub timestamp: i64,
}

/// A zero content hash, which creation rejects: the hash deduplicates
/// launches, so it must carry information.
pub open spec fn is_zero_hash(h: Seq<u8>) -> bool {
    forall|i: int| 0 <= i < h.len() ==> h[i] == 0
}

/// Whether every byte of the content hash is zero.
pub fn hash_is_zero(h: &[u8; 32]) -> (r: bool)
    ensures
        r == is_zero_hash(h@),
{
    let mut i: usize = 0;
    while i < 32
        invariant
            0 <= i <= 32,
            forall|j: int| 0 <= j < i ==> h@[j] == 0,
        decreases 32 - i,
    {
        if h[i] != 0 {
            return false;
        }
        i += 1;
    }
    true
}

/// Whether two 32-byte identifiers are the same address.
pub fn bytes32_eq(a: &[u8; 32], b: &[u8; 32]) -> (r: bool)
    ensures
        r == (a@ == b@),
{
    let mut i: usize = 0;
    while i < 32
        invariant
            0 <= i <= 32,
            forall|j: int| 0 <= j < i ==> a@[j] == b@[j],
        decreases 32 - i,
    {
        if a[i] != b[i] {
            return false;
        }
        i += 1;
    }
    proof {
        assert(a@ =~= b@);
    }
    true
}

} // verus!
