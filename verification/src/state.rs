//! The persistent records of one campaign: the proposed configuration, the
//! singleton sale aggregate, the allow-list record, and the per-participant
//! position, together with their well-formedness predicates.

use vstd::prelude::*;

use crate::bytes32::all_zero;
use crate::bytes32::is_zero32;

verus! {

/// A 32-byte account identity, as the host chain presents it.
pub type Address = [u8; 32];

/// The denominator of basis-point fractions: `tge_bps` is a share of this.
pub const BPS_DENOMINATOR: u64 = 10_000;

/// A proposed campaign configuration, validated before it is committed.
#[derive(Debug, Clone, Copy)]
pub struct PresaleConfig {
    pub price_numerator: u64,
    pub price_denominator: u64,
    pub soft_cap: u64,
    pub hard_cap: u64,
    pub wallet_min: u64,
    pub wallet_max: u64,
    pub start_ts: i64,
    pub end_ts: i64,
    pub tge_bps: u16,
    pub cliff_seconds: i64,
    pub vesting_seconds: i64,
    pub whitelist_enabled: bool,
    pub whitelist_root: [u8; 32],
    pub buy_cooldown_seconds: i64,
    pub guard_authority: Option<Address>,
}

/// The singleton aggregate governing one campaign.
#[derive(Debug, Clone, Copy)]
pub struct PresaleState {
    pub admin: Address,
    pub tdl_mint: Address,
    pub tdl_vault: Address,
    pub pay_mint: Address,
    pub pay_vault: Address,
    pub pay_mint_decimals: u8,
    pub price_numerator: u64,
    pub price_denominator: u64,
    pub soft_cap: u64,
    pub hard_cap: u64,
    pub wallet_min: u64,
    pub wallet_max: u64,
    pub start_ts: i64,
    pub end_ts: i64,
    pub tge_bps: u16,
    pub cliff_seconds: i64,
    pub vesting_seconds: i64,
    pub buy_cooldown_seconds: i64,
    pub collected: u64,
    pub total_allocated: u64,
    pub total_claimed: u64,
    pub total_refunded: u64,
    pub funds_withdrawn: u64,
    pub whitelist_enabled: bool,
    pub guard_authority: Address,
    pub guard_enabled: bool,
    pub is_paused: bool,
}

/// One participant's ledger record, created lazily on first purchase.
#[derive(Debug, Clone, Copy)]
pub struct BuyerPosition {
    pub buyer: Address,
    pub contributed: u64,
    pub purchased: u64,
    pub claimed: u64,
    pub last_purchase_ts: i64,
    pub refunded: bool,
}

/// The published allow-list record: an accumulator root plus bookkeeping.
#[derive(Debug, Clone, Copy)]
pub struct Whitelist {
    pub root: [u8; 32],
    pub enabled: bool,
    pub version: u64,
    pub last_updated: i64,
}

/// A purchase request: the payment offered, the slippage floor, and the
/// allow-list membership proof.
#[derive(Debug, Clone)]
pub struct BuyArgs {
    pub pay_amount: u64,
    pub min_expected_tdl: u64,
    pub merkle_proof: Vec<[u8; 32]>,
}

/// The identities and custody addresses fixed once at campaign creation.
#[derive(Debug, Clone, Copy)]
pub struct InitializeParams {
    pub admin: Address,
    pub tdl_mint: Address,
    pub pay_mint: Option<Address>,
    pub tdl_vault: Address,
    pub pay_vault: Option<Address>,
    pub pay_mint_decimals: u8,
}

impl PresaleState {
    /// The schedule, pricing and cap fields pass the configuration rules.
    /// Established at initialization, re-established by `set_config`, and
    /// untouched by every buyer operation.
    pub open spec fn config_wf(self) -> bool {
        &&& self.price_numerator > 0
        &&& self.price_denominator > 0
        &&& self.hard_cap >= self.soft_cap
        &&& (self.wallet_max > 0 ==> self.wallet_max >= self.wallet_min)
        &&& self.start_ts < self.end_ts
        &&& self.tge_bps <= BPS_DENOMINATOR
        &&& self.cliff_seconds >= 0
        &&& self.vesting_seconds >= 0
    }

    /// The running totals stand in their designed relations: collections
    /// respect the hard cap, claims never outrun allocations, and no more
    /// leaves the payment escrow than remains in it.
    pub open spec fn totals_wf(self) -> bool {
        &&& self.collected <= self.hard_cap
        &&& self.total_claimed <= self.total_allocated
        &&& self.total_refunded + self.funds_withdrawn <= self.collected
    }

    /// The schedule, pricing, cap and vesting fields of `self` are exactly
    /// those of `c`, and the whitelist/guard switches follow `c`.
    pub open spec fn has_config(self, c: PresaleConfig) -> bool {
        &&& self.price_numerator == c.price_numerator
        &&& self.price_denominator == c.price_denominator
        &&& self.soft_cap == c.soft_cap
        &&& self.hard_cap == c.hard_cap
        &&& self.wallet_min == c.wallet_min
        &&& self.wallet_max == c.wallet_max
        &&& self.start_ts == c.start_ts
        &&& self.end_ts == c.end_ts
        &&& self.tge_bps == c.tge_bps
        &&& self.cliff_seconds == c.cliff_seconds
        &&& self.vesting_seconds == c.vesting_seconds
        &&& self.buy_cooldown_seconds == c.buy_cooldown_seconds
        &&& self.whitelist_enabled == c.whitelist_enabled
        &&& self.guard_enabled == (c.guard_authority is Some)
        &&& (c.guard_authority matches Some(g) ==> self.guard_authority == g)
        &&& (c.guard_authority is None ==> all_zero(self.guard_authority@))
    }

    /// The identities and custody addresses fixed at creation agree.
    pub open spec fn same_identities(self, other: PresaleState) -> bool {
        &&& self.admin == other.admin
        &&& self.tdl_mint == other.tdl_mint
        &&& self.tdl_vault == other.tdl_vault
        &&& self.pay_mint == other.pay_mint
        &&& self.pay_vault == other.pay_vault
        &&& self.pay_mint_decimals == other.pay_mint_decimals
    }

    /// The running totals agree.
    pub open spec fn same_totals(self, other: PresaleState) -> bool {
        &&& self.collected == other.collected
        &&& self.total_allocated == other.total_allocated
        &&& self.total_claimed == other.total_claimed
        &&& self.total_refunded == other.total_refunded
        &&& self.funds_withdrawn == other.funds_withdrawn
    }
}

impl BuyerPosition {
    /// A position fresh from the host's zeroed storage: no buyer recorded yet.
    pub open spec fn spec_is_uninitialized(self) -> bool {
        all_zero(self.buyer@)
    }

    /// True before the first purchase writes the buyer's identity.
    pub fn is_uninitialized(&self) -> (r: bool)
        ensures
            r == self.spec_is_uninitialized(),
    {
        is_zero32(&self.buyer)
    }
}

} // verus!
