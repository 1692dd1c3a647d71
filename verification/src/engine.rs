//! The sale engine: the state-changing operations of one campaign.
//!
//! Each operation is a single atomic step: it validates its preconditions in
//! a fixed order against one consistent snapshot, and either applies every
//! state change and returns the event describing the transfer owed, or
//! returns the first violated rule and leaves every record unchanged. Times
//! and vault balances are injected by the caller; the engine owns no clock
//! and never moves balances itself.

use vstd::prelude::*;

use crate::allowlist::branch_view;
use crate::allowlist::keccak256;
use crate::allowlist::keccak_leaf;
use crate::allowlist::merkle_verifies;
use crate::allowlist::verify_merkle;
use crate::bytes32::all_zero;
use crate::bytes32::bytes32_eq;
use crate::config::spec_validate_config;
use crate::config::validate_config;
use crate::errors::PresaleError;
use crate::events::ConfigUpdated;
use crate::events::FundsWithdrawn;
use crate::events::RefundIssued;
use crate::events::SalePaused;
use crate::events::SaleResumed;
use crate::events::TokensClaimed;
use crate::events::TokensPurchased;
use crate::events::UnallocatedWithdrawn;
use crate::pricing::calculate_token_amount;
use crate::pricing::spec_token_amount;
use crate::state::Address;
use crate::state::BuyArgs;
use crate::state::BuyerPosition;
use crate::state::InitializeParams;
use crate::state::PresaleConfig;
use crate::state::PresaleState;
use crate::state::Whitelist;
use crate::vesting::calculate_claimable;
use crate::vesting::lemma_unlocked_bounds;
use crate::vesting::spec_claimable;
use crate::vesting::spec_claimable_fits;

verus! {

/// Creates the campaign: validates the configuration, fixes the identities
/// and custody addresses, zeroes every running total and publishes the
/// allow-list root at version 1. Callable exactly once per campaign; the
/// host's storage provisioning rejects re-invocation.
pub fn initialize_token(params: &InitializeParams, config: &PresaleConfig, now: i64) -> (r: Result<
    (PresaleState, Whitelist),
    PresaleError,
>)
    ensures
        r is Ok <==> spec_validate_config(*config) is None,
        r matches Err(e) ==> Some(e) == spec_validate_config(*config),
        r matches Ok(sw) ==> ({
            &&& sw.0.has_config(*config)
            &&& sw.0.config_wf()
            &&& sw.0.totals_wf()
            &&& sw.0.admin == params.admin
            &&& sw.0.tdl_mint == params.tdl_mint
            &&& sw.0.tdl_vault == params.tdl_vault
            &&& (params.pay_mint matches Some(m) ==> sw.0.pay_mint == m)
            &&& (params.pay_mint is None ==> all_zero(sw.0.pay_mint@))
            &&& (params.pay_vault matches Some(v) ==> sw.0.pay_vault == v)
            &&& (params.pay_vault is None ==> all_zero(sw.0.pay_vault@))
            &&& sw.0.pay_mint_decimals == params.pay_mint_decimals
            &&& sw.0.collected == 0
            &&& sw.0.total_allocated == 0
            &&& sw.0.total_claimed == 0
            &&& sw.0.total_refunded == 0
            &&& sw.0.funds_withdrawn == 0
            &&& !sw.0.is_paused
            &&& sw.1.root == config.whitelist_root
            &&& sw.1.enabled == config.whitelist_enabled
            &&& sw.1.version == 1
            &&& sw.1.last_updated == now
        }),
{
    validate_config(config)?;
    let zero: Address = [0u8; 32];
    let state = PresaleState {
        admin: params.admin,
        tdl_mint: params.tdl_mint,
        tdl_vault: params.tdl_vault,
        pay_mint: match params.pay_mint {
            Some(m) => m,
            None => zero,
        },
        pay_vault: match params.pay_vault {
            Some(v) => v,
            None => zero,
        },
        pay_mint_decimals: params.pay_mint_decimals,
        price_numerator: config.price_numerator,
        price_denominator: config.price_denominator,
        soft_cap: config.soft_cap,
        hard_cap: config.hard_cap,
        wallet_min: config.wallet_min,
        wallet_max: config.wallet_max,
        start_ts: config.start_ts,
        end_ts: config.end_ts,
        tge_bps: config.tge_bps,
        cliff_seconds: config.cliff_seconds,
        vesting_seconds: config.vesting_seconds,
        buy_cooldown_seconds: config.buy_cooldown_seconds,
        collected: 0,
        total_allocated: 0,
        total_claimed: 0,
        total_refunded: 0,
        funds_withdrawn: 0,
        whitelist_enabled: config.whitelist_enabled,
        guard_authority: match config.guard_authority {
            Some(g) => g,
            None => zero,
        },
        guard_enabled: config.guard_authority.is_some(),
        is_paused: false,
    };
    let whitelist = Whitelist {
        root: config.whitelist_root,
        enabled: config.whitelist_enabled,
        version: 1,
        last_updated: now,
    };
    Ok((state, whitelist))
}

/// The first rule that a reconfiguration violates, or `None`.
pub open spec fn spec_set_config_err(
    s: PresaleState,
    w: Whitelist,
    caller: Address,
    c: PresaleConfig,
    now: i64,
) -> Option<PresaleError> {
    if s.admin@ != caller@ {
        Some(PresaleError::Unauthorized)
    } else if now > s.start_ts && !s.is_paused {
        Some(PresaleError::SaleInProgress)
    } else if spec_validate_config(c) is Some {
        spec_validate_config(c)
    } else if w.version == u64::MAX {
        Some(PresaleError::MathOverflow)
    } else {
        None
    }
}

/// Replaces the mutable campaign parameters. Admin-only, and only while the
/// sale has not started or stands paused. Bumps the allow-list version and
/// re-publishes the root.
pub fn set_config(
    state: &mut PresaleState,
    whitelist: &mut Whitelist,
    caller: &Address,
    config: &PresaleConfig,
    now: i64,
) -> (r: Result<ConfigUpdated, PresaleError>)
    ensures
        r is Ok <==> spec_set_config_err(*old(state), *old(whitelist), *caller, *config, now)
            is None,
        r matches Err(e) ==> Some(e) == spec_set_config_err(
            *old(state),
            *old(whitelist),
            *caller,
            *config,
            now,
        ) && *final(state) == *old(state) && *final(whitelist) == *old(whitelist),
        r matches Ok(ev) ==> ({
            &&& final(state).has_config(*config)
            &&& final(state).config_wf()
            &&& final(state).same_identities(*old(state))
            &&& final(state).same_totals(*old(state))
            &&& final(state).is_paused == old(state).is_paused
            &&& *final(whitelist) == (Whitelist {
                root: config.whitelist_root,
                enabled: config.whitelist_enabled,
                version: (old(whitelist).version + 1) as u64,
                last_updated: now,
            })
            &&& ev.admin@ == caller@
            &&& ev.timestamp == now
        }),
{
    if !bytes32_eq(&state.admin, caller) {
        return Err(PresaleError::Unauthorized);
    }
    if now > state.start_ts && !state.is_paused {
        return Err(PresaleError::SaleInProgress);
    }
    validate_config(config)?;
    let new_version = match whitelist.version.checked_add(1) {
        Some(v) => v,
        None => {
            return Err(PresaleError::MathOverflow);
        },
    };
    let zero: Address = [0u8; 32];
    state.price_numerator = config.price_numerator;
    state.price_denominator = config.price_denominator;
    state.soft_cap = config.soft_cap;
    state.hard_cap = config.hard_cap;
    state.wallet_min = config.wallet_min;
    state.wallet_max = config.wallet_max;
    state.start_ts = config.start_ts;
    state.end_ts = config.end_ts;
    state.tge_bps = config.tge_bps;
    state.cliff_seconds = config.cliff_seconds;
    state.vesting_seconds = config.vesting_seconds;
    state.buy_cooldown_seconds = config.buy_cooldown_seconds;
    state.whitelist_enabled = config.whitelist_enabled;
    state.guard_enabled = config.guard_authority.is_some();
    state.guard_authority = match config.guard_authority {
        Some(g) => g,
        None => zero,
    };
    whitelist.root = config.whitelist_root;
    whitelist.enabled = config.whitelist_enabled;
    whitelist.version = new_version;
    whitelist.last_updated = now;
    Ok(ConfigUpdated { admin: *caller, timestamp: now })
}

/// The first rule that pausing violates, or `None`.
pub open spec fn spec_pause_err(s: PresaleState, caller: Address) -> Option<PresaleError> {
    if s.admin@ != caller@ {
        Some(PresaleError::Unauthorized)
    } else if s.is_paused {
        Some(PresaleError::AlreadyPaused)
    } else {
        None
    }
}

/// Pauses the sale. Admin-only; fails when already paused. With `unpause`,
/// the only transition that touches `is_paused`.
pub fn pause(state: &mut PresaleState, caller: &Address, now: i64) -> (r: Result<
    SalePaused,
    PresaleError,
>)
    ensures
        r is Ok <==> spec_pause_err(*old(state), *caller) is None,
        r matches Err(e) ==> Some(e) == spec_pause_err(*old(state), *caller) && *final(state)
            == *old(state),
        r matches Ok(ev) ==> *final(state) == (PresaleState { is_paused: true, ..*old(state) })
            && ev.admin@ == caller@ && ev.timestamp == now,
{
    if !bytes32_eq(&state.admin, caller) {
        return Err(PresaleError::Unauthorized);
    }
    if state.is_paused {
        return Err(PresaleError::AlreadyPaused);
    }
    state.is_paused = true;
    Ok(SalePaused { admin: *caller, timestamp: now })
}

/// The first rule that resuming violates, or `None`.
pub open spec fn spec_unpause_err(s: PresaleState, caller: Address) -> Option<PresaleError> {
    if s.admin@ != caller@ {
        Some(PresaleError::Unauthorized)
    } else if !s.is_paused {
        Some(PresaleError::NotPaused)
    } else {
        None
    }
}

/// Resumes the sale. Admin-only; fails when not paused.
pub fn unpause(state: &mut PresaleState, caller: &Address, now: i64) -> (r: Result<
    SaleResumed,
    PresaleError,
>)
    ensures
        r is Ok <==> spec_unpause_err(*old(state), *caller) is None,
        r matches Err(e) ==> Some(e) == spec_unpause_err(*old(state), *caller) && *final(state)
            == *old(state),
        r matches Ok(ev) ==> *final(state) == (PresaleState { is_paused: false, ..*old(state) })
            && ev.admin@ == caller@ && ev.timestamp == now,
{
    if !bytes32_eq(&state.admin, caller) {
        return Err(PresaleError::Unauthorized);
    }
    if !state.is_paused {
        return Err(PresaleError::NotPaused);
    }
    state.is_paused = false;
    Ok(SaleResumed { admin: *caller, timestamp: now })
}

/// The first rule that a purchase violates, or `None`. The rules stand in the
/// order the engine checks them; each names its own error.
pub open spec fn spec_buy_err(
    s: PresaleState,
    w: Whitelist,
    p: BuyerPosition,
    buyer: Address,
    args: BuyArgs,
    guard_signer: Option<Address>,
    tdl_vault_balance: u64,
    now: i64,
) -> Option<PresaleError> {
    let tokens = spec_token_amount(args.pay_amount, s.price_numerator, s.price_denominator);
    if s.is_paused {
        Some(PresaleError::SalePaused)
    } else if now < s.start_ts {
        Some(PresaleError::SaleNotStarted)
    } else if now > s.end_ts {
        Some(PresaleError::SaleEnded)
    } else if s.guard_enabled && !(guard_signer matches Some(g) && g@ == s.guard_authority@) {
        Some(PresaleError::MissingGuard)
    } else if s.whitelist_enabled && !w.enabled {
        Some(PresaleError::WhitelistDisabled)
    } else if s.whitelist_enabled && !merkle_verifies(
        w.root@,
        keccak256(buyer@),
        branch_view(args.merkle_proof@),
    ) {
        Some(PresaleError::NotWhitelisted)
    } else if p.refunded {
        Some(PresaleError::AlreadyRefunded)
    } else if s.buy_cooldown_seconds > 0 && p.last_purchase_ts > 0 && p.last_purchase_ts
        + s.buy_cooldown_seconds > i64::MAX {
        Some(PresaleError::MathOverflow)
    } else if s.buy_cooldown_seconds > 0 && p.last_purchase_ts > 0 && now < p.last_purchase_ts
        + s.buy_cooldown_seconds {
        Some(PresaleError::CooldownActive)
    } else if args.pay_amount == 0 {
        Some(PresaleError::InvalidAmount)
    } else if p.contributed + args.pay_amount > u64::MAX {
        Some(PresaleError::MathOverflow)
    } else if s.wallet_min > 0 && p.contributed == 0 && args.pay_amount < s.wallet_min {
        Some(PresaleError::WalletMinNotReached)
    } else if s.wallet_max > 0 && p.contributed + args.pay_amount > s.wallet_max {
        Some(PresaleError::WalletCapExceeded)
    } else if s.collected + args.pay_amount > u64::MAX {
        Some(PresaleError::MathOverflow)
    } else if s.collected + args.pay_amount > s.hard_cap {
        Some(PresaleError::HardCapExceeded)
    } else if (args.pay_amount as int) * (s.price_denominator as int) > u64::MAX {
        Some(PresaleError::MathOverflow)
    } else if tokens == 0 {
        Some(PresaleError::InvalidPriceConfiguration)
    } else if tokens < args.min_expected_tdl {
        Some(PresaleError::SlippageExceeded)
    } else if s.total_allocated + tokens > u64::MAX {
        Some(PresaleError::MathOverflow)
    } else if s.total_claimed > s.total_allocated + tokens {
        Some(PresaleError::MathOverflow)
    } else if tdl_vault_balance < s.total_allocated + tokens - s.total_claimed {
        Some(PresaleError::InsufficientVaultBalance)
    } else if p.purchased + tokens > u64::MAX {
        Some(PresaleError::MathOverflow)
    } else {
        None
    }
}

/// A purchase. Validates phase, guard co-signature, allow-list membership,
/// cooldown, wallet and campaign caps, computes the allocation under the
/// price ratio with a slippage floor, and re-checks that the sale-asset
/// custody balance covers every outstanding allocation. On success the
/// engine owes the payment-vault a transfer of `pay_amount` from the buyer,
/// described by the returned event.
pub fn buy(
    state: &mut PresaleState,
    whitelist: &Whitelist,
    position: &mut BuyerPosition,
    buyer: &Address,
    args: &BuyArgs,
    guard_signer: &Option<Address>,
    tdl_vault_balance: u64,
    now: i64,
) -> (r: Result<TokensPurchased, PresaleError>)
    requires
        old(state).config_wf(),
    ensures
        r is Ok <==> spec_buy_err(
            *old(state),
            *whitelist,
            *old(position),
            *buyer,
            *args,
            *guard_signer,
            tdl_vault_balance,
            now,
        ) is None,
        r matches Err(e) ==> Some(e) == spec_buy_err(
            *old(state),
            *whitelist,
            *old(position),
            *buyer,
            *args,
            *guard_signer,
            tdl_vault_balance,
            now,
        ) && *final(state) == *old(state) && *final(position) == *old(position),
        r matches Ok(ev) ==> ({
            let tokens = spec_token_amount(
                args.pay_amount,
                old(state).price_numerator,
                old(state).price_denominator,
            );
            &&& *final(state) == (PresaleState {
                collected: (old(state).collected + args.pay_amount) as u64,
                total_allocated: (old(state).total_allocated + tokens) as u64,
                ..*old(state)
            })
            &&& *final(position) == (BuyerPosition {
                buyer: if old(position).spec_is_uninitialized() {
                    *buyer
                } else {
                    old(position).buyer
                },
                contributed: (old(position).contributed + args.pay_amount) as u64,
                purchased: (old(position).purchased + tokens) as u64,
                last_purchase_ts: now,
                ..*old(position)
            })
            &&& ev == (TokensPurchased {
                buyer: *buyer,
                pay_amount: args.pay_amount,
                tdl_amount: tokens as u64,
                timestamp: now,
            })
            &&& tokens >= args.min_expected_tdl
            &&& tdl_vault_balance >= final(state).total_allocated - final(state).total_claimed
            &&& final(state).collected <= final(state).hard_cap
            &&& (old(state).totals_wf() ==> final(state).totals_wf())
        }),
{
    if state.is_paused {
        return Err(PresaleError::SalePaused);
    }
    if now < state.start_ts {
        return Err(PresaleError::SaleNotStarted);
    }
    if now > state.end_ts {
        return Err(PresaleError::SaleEnded);
    }
    if state.guard_enabled {
        let guard_ok = match guard_signer {
            Some(g) => bytes32_eq(g, &state.guard_authority),
            None => false,
        };
        if !guard_ok {
            return Err(PresaleError::MissingGuard);
        }
    }
    if state.whitelist_enabled {
        if !whitelist.enabled {
            return Err(PresaleError::WhitelistDisabled);
        }
        let leaf = keccak_leaf(buyer);
        if !verify_merkle(&whitelist.root, &leaf, &args.merkle_proof) {
            return Err(PresaleError::NotWhitelisted);
        }
    }
    if position.refunded {
        return Err(PresaleError::AlreadyRefunded);
    }
    if state.buy_cooldown_seconds > 0 && position.last_purchase_ts > 0 {
        let cooldown_done = match position.last_purchase_ts.checked_add(
            state.buy_cooldown_seconds,
        ) {
            Some(v) => v,
            None => {
                return Err(PresaleError::MathOverflow);
            },
        };
        if now < cooldown_done {
            return Err(PresaleError::CooldownActive);
        }
    }
    if args.pay_amount == 0 {
        return Err(PresaleError::InvalidAmount);
    }
    let new_total = match position.contributed.checked_add(args.pay_amount) {
        Some(v) => v,
        None => {
            return Err(PresaleError::MathOverflow);
        },
    };
    if state.wallet_min > 0 && position.contributed == 0 && args.pay_amount < state.wallet_min {
        return Err(PresaleError::WalletMinNotReached);
    }
    if state.wallet_max > 0 && new_total > state.wallet_max {
        return Err(PresaleError::WalletCapExceeded);
    }
    let new_collected = match state.collected.checked_add(args.pay_amount) {
        Some(v) => v,
        None => {
            return Err(PresaleError::MathOverflow);
        },
    };
    if new_collected > state.hard_cap {
        return Err(PresaleError::HardCapExceeded);
    }
    let tokens_purchased = match calculate_token_amount(
        args.pay_amount,
        state.price_numerator,
        state.price_denominator,
    ) {
        Ok(v) => v,
        Err(e) => {
            return Err(e);
        },
    };
    if tokens_purchased == 0 {
        return Err(PresaleError::InvalidPriceConfiguration);
    }
    if tokens_purchased < args.min_expected_tdl {
        return Err(PresaleError::SlippageExceeded);
    }
    let pending_after = match state.total_allocated.checked_add(tokens_purchased) {
        Some(v) => v,
        None => {
            return Err(PresaleError::MathOverflow);
        },
    };
    let still_owed = match pending_after.checked_sub(state.total_claimed) {
        Some(v) => v,
        None => {
            return Err(PresaleError::MathOverflow);
        },
    };
    if tdl_vault_balance < still_owed {
        return Err(PresaleError::InsufficientVaultBalance);
    }
    let new_purchased = match position.purchased.checked_add(tokens_purchased) {
        Some(v) => v,
        None => {
            return Err(PresaleError::MathOverflow);
        },
    };
    if position.is_uninitialized() {
        position.buyer = *buyer;
    }
    state.collected = new_collected;
    state.total_allocated = pending_after;
    position.contributed = new_total;
    position.purchased = new_purchased;
    position.last_purchase_ts = now;
    Ok(
        TokensPurchased {
            buyer: *buyer,
            pay_amount: args.pay_amount,
            tdl_amount: tokens_purchased,
            timestamp: now,
        },
    )
}

/// The first rule that a refund violates, or `None`.
pub open spec fn spec_refund_err(s: PresaleState, p: BuyerPosition, now: i64) -> Option<
    PresaleError,
> {
    if now <= s.end_ts {
        Some(PresaleError::SaleNotEnded)
    } else if s.collected >= s.soft_cap {
        Some(PresaleError::SoftCapMet)
    } else if p.refunded {
        Some(PresaleError::AlreadyRefunded)
    } else if p.contributed == 0 {
        Some(PresaleError::NothingToRefund)
    } else if p.purchased > s.total_allocated {
        Some(PresaleError::MathOverflow)
    } else if s.total_refunded + p.contributed > u64::MAX {
        Some(PresaleError::MathOverflow)
    } else {
        None
    }
}

/// A refund: available only after the sale ended below its soft cap. Returns
/// the participant's full contribution, releases the reserved allocation,
/// zeroes the position and marks it refunded — a one-shot, terminal
/// transition per position.
pub fn refund(state: &mut PresaleState, position: &mut BuyerPosition, now: i64) -> (r: Result<
    RefundIssued,
    PresaleError,
>)
    ensures
        r is Ok <==> spec_refund_err(*old(state), *old(position), now) is None,
        r matches Err(e) ==> Some(e) == spec_refund_err(*old(state), *old(position), now)
            && *final(state) == *old(state) && *final(position) == *old(position),
        r matches Ok(ev) ==> ({
            &&& *final(state) == (PresaleState {
                total_allocated: (old(state).total_allocated - old(position).purchased) as u64,
                total_refunded: (old(state).total_refunded + old(position).contributed) as u64,
                ..*old(state)
            })
            &&& *final(position) == (BuyerPosition {
                contributed: 0,
                purchased: 0,
                claimed: 0,
                refunded: true,
                ..*old(position)
            })
            &&& ev == (RefundIssued {
                buyer: old(position).buyer,
                pay_amount: old(position).contributed,
                timestamp: now,
            })
        }),
{
    if now <= state.end_ts {
        return Err(PresaleError::SaleNotEnded);
    }
    if state.collected >= state.soft_cap {
        return Err(PresaleError::SoftCapMet);
    }
    if position.refunded {
        return Err(PresaleError::AlreadyRefunded);
    }
    if position.contributed == 0 {
        return Err(PresaleError::NothingToRefund);
    }
    let amount = position.contributed;
    let new_allocated = match state.total_allocated.checked_sub(position.purchased) {
        Some(v) => v,
        None => {
            return Err(PresaleError::MathOverflow);
        },
    };
    let new_refunded = match state.total_refunded.checked_add(amount) {
        Some(v) => v,
        None => {
            return Err(PresaleError::MathOverflow);
        },
    };
    state.total_allocated = new_allocated;
    state.total_refunded = new_refunded;
    let buyer = position.buyer;
    position.refunded = true;
    position.contributed = 0;
    position.purchased = 0;
    position.claimed = 0;
    Ok(RefundIssued { buyer, pay_amount: amount, timestamp: now })
}

/// The first rule that a claim violates, or `None`. An empty position —
/// which a refund leaves behind, since it zeroes what it terminates — has
/// nothing to claim; `AlreadyRefunded` is reserved for a repeated refund.
pub open spec fn spec_claim_err(s: PresaleState, p: BuyerPosition, now: i64) -> Option<
    PresaleError,
> {
    if p.purchased == 0 {
        Some(PresaleError::NothingToClaim)
    } else if p.refunded {
        Some(PresaleError::AlreadyRefunded)
    } else if s.collected < s.soft_cap {
        Some(PresaleError::SoftCapNotMet)
    } else if now < s.end_ts {
        Some(PresaleError::SaleNotEnded)
    } else if !spec_claimable_fits(s, p, now) {
        Some(PresaleError::MathOverflow)
    } else if spec_claimable(s, p, now) == 0 {
        Some(PresaleError::NothingToClaim)
    } else if s.total_claimed + spec_claimable(s, p, now) > u64::MAX {
        Some(PresaleError::MathOverflow)
    } else {
        None
    }
}

/// A claim of the vested share. Available once the sale ended at or above
/// its soft cap; pays out exactly the newly unlocked amount, so a repeated
/// call before further vesting elapses fails with `NothingToClaim` rather
/// than transfer twice.
pub fn claim(state: &mut PresaleState, position: &mut BuyerPosition, now: i64) -> (r: Result<
    TokensClaimed,
    PresaleError,
>)
    requires
        old(state).config_wf(),
    ensures
        r is Ok <==> spec_claim_err(*old(state), *old(position), now) is None,
        r matches Err(e) ==> Some(e) == spec_claim_err(*old(state), *old(position), now)
            && *final(state) == *old(state) && *final(position) == *old(position),
        r matches Ok(ev) ==> ({
            let c = spec_claimable(*old(state), *old(position), now);
            &&& c > 0
            &&& *final(state) == (PresaleState {
                total_claimed: (old(state).total_claimed + c) as u64,
                ..*old(state)
            })
            &&& *final(position) == (BuyerPosition {
                claimed: (old(position).claimed + c) as u64,
                ..*old(position)
            })
            &&& final(position).claimed <= final(position).purchased
            &&& ev == (TokensClaimed { buyer: old(position).buyer, amount: c as u64, timestamp: now })
        }),
{
    if position.purchased == 0 {
        return Err(PresaleError::NothingToClaim);
    }
    if position.refunded {
        return Err(PresaleError::AlreadyRefunded);
    }
    if state.collected < state.soft_cap {
        return Err(PresaleError::SoftCapNotMet);
    }
    if now < state.end_ts {
        return Err(PresaleError::SaleNotEnded);
    }
    let claimable = match calculate_claimable(state, position, now) {
        Ok(v) => v,
        Err(e) => {
            return Err(e);
        },
    };
    if claimable == 0 {
        return Err(PresaleError::NothingToClaim);
    }
    proof {
        lemma_unlocked_bounds(*state, position.purchased, now);
    }
    let new_claimed = position.claimed + claimable;
    let new_total_claimed = match state.total_claimed.checked_add(claimable) {
        Some(v) => v,
        None => {
            return Err(PresaleError::MathOverflow);
        },
    };
    position.claimed = new_claimed;
    state.total_claimed = new_total_claimed;
    Ok(TokensClaimed { buyer: position.buyer, amount: claimable, timestamp: now })
}

/// The first rule that a funds withdrawal violates, or `None`.
pub open spec fn spec_withdraw_funds_err(
    s: PresaleState,
    caller: Address,
    amount: u64,
    now: i64,
) -> Option<PresaleError> {
    if s.admin@ != caller@ {
        Some(PresaleError::Unauthorized)
    } else if amount == 0 {
        Some(PresaleError::InvalidAmount)
    } else if now <= s.end_ts {
        Some(PresaleError::SaleNotEnded)
    } else if s.collected < s.soft_cap {
        Some(PresaleError::SoftCapNotMet)
    } else if s.total_refunded > s.collected {
        Some(PresaleError::MathOverflow)
    } else if s.funds_withdrawn > s.collected - s.total_refunded {
        Some(PresaleError::MathOverflow)
    } else if amount > s.collected - s.total_refunded - s.funds_withdrawn {
        Some(PresaleError::InsufficientEscrowBalance)
    } else {
        None
    }
}

/// Withdraws collected payment funds. Admin-only, after a sale that met its
/// soft cap; never more than what remains escrowed after refunds and earlier
/// withdrawals.
pub fn withdraw_funds(state: &mut PresaleState, caller: &Address, amount: u64, now: i64) -> (r:
    Result<FundsWithdrawn, PresaleError>)
    ensures
        r is Ok <==> spec_withdraw_funds_err(*old(state), *caller, amount, now) is None,
        r matches Err(e) ==> Some(e) == spec_withdraw_funds_err(*old(state), *caller, amount, now)
            && *final(state) == *old(state),
        r matches Ok(ev) ==> ({
            &&& *final(state) == (PresaleState {
                funds_withdrawn: (old(state).funds_withdrawn + amount) as u64,
                ..*old(state)
            })
            &&& final(state).total_refunded + final(state).funds_withdrawn <= final(state).collected
            &&& ev == (FundsWithdrawn { admin: *caller, amount, timestamp: now })
        }),
{
    if !bytes32_eq(&state.admin, caller) {
        return Err(PresaleError::Unauthorized);
    }
    if amount == 0 {
        return Err(PresaleError::InvalidAmount);
    }
    if now <= state.end_ts {
        return Err(PresaleError::SaleNotEnded);
    }
    if state.collected < state.soft_cap {
        return Err(PresaleError::SoftCapNotMet);
    }
    let after_refunds = match state.collected.checked_sub(state.total_refunded) {
        Some(v) => v,
        None => {
            return Err(PresaleError::MathOverflow);
        },
    };
    let withdrawable = match after_refunds.checked_sub(state.funds_withdrawn) {
        Some(v) => v,
        None => {
            return Err(PresaleError::MathOverflow);
        },
    };
    if amount > withdrawable {
        return Err(PresaleError::InsufficientEscrowBalance);
    }
    state.funds_withdrawn = state.funds_withdrawn + amount;
    Ok(FundsWithdrawn { admin: *caller, amount, timestamp: now })
}

/// The first rule that a sale-asset withdrawal violates, or `None`.
pub open spec fn spec_withdraw_unallocated_err(
    s: PresaleState,
    caller: Address,
    amount: u64,
    tdl_vault_balance: u64,
    now: i64,
) -> Option<PresaleError> {
    if s.admin@ != caller@ {
        Some(PresaleError::Unauthorized)
    } else if amount == 0 {
        Some(PresaleError::InvalidAmount)
    } else if now <= s.end_ts {
        Some(PresaleError::SaleNotEnded)
    } else if s.total_claimed > s.total_allocated {
        Some(PresaleError::MathOverflow)
    } else if tdl_vault_balance < s.total_allocated - s.total_claimed {
        Some(PresaleError::MathOverflow)
    } else if amount > tdl_vault_balance - (s.total_allocated - s.total_claimed) {
        Some(PresaleError::InsufficientVaultBalance)
    } else {
        None
    }
}

/// Withdraws the part of the sale-asset vault that exceeds what unclaimed
/// allocations still need. Admin-only, after the sale has ended; the running
/// totals themselves do not change.
pub fn withdraw_unallocated_tdl(
    state: &mut PresaleState,
    caller: &Address,
    amount: u64,
    tdl_vault_balance: u64,
    now: i64,
) -> (r: Result<UnallocatedWithdrawn, PresaleError>)
    ensures
        r is Ok <==> spec_withdraw_unallocated_err(
            *old(state),
            *caller,
            amount,
            tdl_vault_balance,
            now,
        ) is None,
        r matches Err(e) ==> Some(e) == spec_withdraw_unallocated_err(
            *old(state),
            *caller,
            amount,
            tdl_vault_balance,
            now,
        ),
        *final(state) == *old(state),
        r matches Ok(ev) ==> ({
            &&& tdl_vault_balance - amount >= final(state).total_allocated
                - final(state).total_claimed
            &&& ev == (UnallocatedWithdrawn { admin: *caller, amount, timestamp: now })
        }),
{
    if !bytes32_eq(&state.admin, caller) {
        return Err(PresaleError::Unauthorized);
    }
    if amount == 0 {
        return Err(PresaleError::InvalidAmount);
    }
    if now <= state.end_ts {
        return Err(PresaleError::SaleNotEnded);
    }
    let remaining_to_claim = match state.total_allocated.checked_sub(state.total_claimed) {
        Some(v) => v,
        None => {
            return Err(PresaleError::MathOverflow);
        },
    };
    if tdl_vault_balance < remaining_to_claim {
        return Err(PresaleError::MathOverflow);
    }
    let available = tdl_vault_balance - remaining_to_claim;
    if amount > available {
        return Err(PresaleError::InsufficientVaultBalance);
    }
    Ok(UnallocatedWithdrawn { admin: *caller, amount, timestamp: now })
}

} // verus!
