use sha3::Digest;
use sha3::Keccak256;
use tdl_presale::engine::buy;
use tdl_presale::engine::claim;
use tdl_presale::engine::initialize_token;
use tdl_presale::engine::pause;
use tdl_presale::engine::refund;
use tdl_presale::engine::set_config;
use tdl_presale::engine::unpause;
use tdl_presale::engine::withdraw_funds;
use tdl_presale::engine::withdraw_unallocated_tdl;
use tdl_presale::errors::PresaleError;
use tdl_presale::state::Address;
use tdl_presale::state::BuyArgs;
use tdl_presale::state::BuyerPosition;
use tdl_presale::state::PresaleConfig;
use tdl_presale::state::PresaleState;
use tdl_presale::state::InitializeParams;
use tdl_presale::state::Whitelist;

const ADMIN: Address = [9u8; 32];
const BUYER: Address = [7u8; 32];
const VAULT_BALANCE: u64 = 10_000;

fn base_config() -> PresaleConfig {
    PresaleConfig {
        price_numerator: 2,
        price_denominator: 1,
        soft_cap: 500,
        hard_cap: 1000,
        wallet_min: 0,
        wallet_max: 0,
        start_ts: 100,
        end_ts: 1000,
        tge_bps: 1000,
        cliff_seconds: 0,
        vesting_seconds: 1000,
        whitelist_enabled: false,
        whitelist_root: [0u8; 32],
        buy_cooldown_seconds: 0,
        guard_authority: None,
    }
}

fn params() -> InitializeParams {
    InitializeParams {
        admin: ADMIN,
        tdl_mint: [1u8; 32],
        pay_mint: Some([2u8; 32]),
        tdl_vault: [3u8; 32],
        pay_vault: Some([4u8; 32]),
        pay_mint_decimals: 6,
    }
}

fn setup(config: PresaleConfig) -> (PresaleState, Whitelist) {
    initialize_token(&params(), &config, 50).unwrap()
}

fn fresh_position() -> BuyerPosition {
    BuyerPosition {
        buyer: [0u8; 32],
        contributed: 0,
        purchased: 0,
        claimed: 0,
        last_purchase_ts: 0,
        refunded: false,
    }
}

fn args(pay_amount: u64) -> BuyArgs {
    BuyArgs { pay_amount, min_expected_tdl: 0, merkle_proof: vec![] }
}

fn keccak_of(parts: &[&[u8]]) -> [u8; 32] {
    let mut hasher = Keccak256::new();
    for part in parts {
        hasher.update(part);
    }
    hasher.finalize().into()
}

#[test]
fn a_position_is_uninitialized_until_a_buyer_is_recorded() {
    let mut position = fresh_position();
    assert!(position.is_uninitialized());
    position.buyer = BUYER;
    assert!(!position.is_uninitialized());
}

#[test]
fn initialize_zeroes_totals_and_publishes_the_allowlist() {
    let (state, whitelist) = setup(base_config());
    assert_eq!(state.admin, ADMIN);
    assert_eq!(state.collected, 0);
    assert_eq!(state.total_allocated, 0);
    assert_eq!(state.total_claimed, 0);
    assert_eq!(state.total_refunded, 0);
    assert_eq!(state.funds_withdrawn, 0);
    assert!(!state.is_paused);
    assert_eq!(whitelist.version, 1);
    assert_eq!(whitelist.last_updated, 50);
    assert_eq!(whitelist.root, [0u8; 32]);
}

#[test]
fn initialize_rejects_an_invalid_config() {
    let mut c = base_config();
    c.hard_cap = 1;
    assert_eq!(
        initialize_token(&params(), &c, 50).err(),
        Some(PresaleError::InvalidCapConfiguration)
    );
}

#[test]
fn buy_computes_the_allocation_from_the_price_ratio() {
    let (mut state, _w) = setup(base_config());
    let (_, whitelist) = setup(base_config());
    let mut position = fresh_position();
    let ev = buy(&mut state, &whitelist, &mut position, &BUYER, &args(100), &None, VAULT_BALANCE, 500)
        .unwrap();
    assert_eq!(ev.tdl_amount, 50);
    assert_eq!(ev.pay_amount, 100);
    assert_eq!(ev.buyer, BUYER);
    assert_eq!(ev.timestamp, 500);
    assert_eq!(state.collected, 100);
    assert_eq!(state.total_allocated, 50);
    assert_eq!(position.contributed, 100);
    assert_eq!(position.purchased, 50);
    assert_eq!(position.last_purchase_ts, 500);
    assert_eq!(position.buyer, BUYER);
}

#[test]
fn buy_fails_when_paused() {
    let (mut state, whitelist) = setup(base_config());
    state.is_paused = true;
    let before = state;
    let mut position = fresh_position();
    let r = buy(&mut state, &whitelist, &mut position, &BUYER, &args(100), &None, VAULT_BALANCE, 500);
    assert_eq!(r.err(), Some(PresaleError::SalePaused));
    assert_eq!(state.collected, before.collected);
}

#[test]
fn buy_fails_before_start_and_after_end() {
    let (mut state, whitelist) = setup(base_config());
    let mut position = fresh_position();
    let early = buy(&mut state, &whitelist, &mut position, &BUYER, &args(100), &None, VAULT_BALANCE, 99);
    assert_eq!(early.err(), Some(PresaleError::SaleNotStarted));
    let late = buy(&mut state, &whitelist, &mut position, &BUYER, &args(100), &None, VAULT_BALANCE, 1001);
    assert_eq!(late.err(), Some(PresaleError::SaleEnded));
}

#[test]
fn buy_requires_the_guard_cosigner_when_enabled() {
    let guard: Address = [8u8; 32];
    let mut c = base_config();
    c.guard_authority = Some(guard);
    let (mut state, whitelist) = setup(c);
    let mut position = fresh_position();
    let missing = buy(&mut state, &whitelist, &mut position, &BUYER, &args(100), &None, VAULT_BALANCE, 500);
    assert_eq!(missing.err(), Some(PresaleError::MissingGuard));
    let wrong = buy(
        &mut state,
        &whitelist,
        &mut position,
        &BUYER,
        &args(100),
        &Some([1u8; 32]),
        VAULT_BALANCE,
        500,
    );
    assert_eq!(wrong.err(), Some(PresaleError::MissingGuard));
    let right = buy(
        &mut state,
        &whitelist,
        &mut position,
        &BUYER,
        &args(100),
        &Some(guard),
        VAULT_BALANCE,
        500,
    );
    assert!(right.is_ok());
}

#[test]
fn buy_fails_when_the_allowlist_record_is_disabled() {
    let mut c = base_config();
    c.whitelist_enabled = true;
    c.whitelist_root = [1u8; 32];
    let (mut state, mut whitelist) = setup(c);
    whitelist.enabled = false;
    let mut position = fresh_position();
    let r = buy(&mut state, &whitelist, &mut position, &BUYER, &args(100), &None, VAULT_BALANCE, 500);
    assert_eq!(r.err(), Some(PresaleError::WhitelistDisabled));
}

#[test]
fn buy_checks_the_membership_proof_against_the_root() {
    let sibling = [2u8; 32];
    let leaf = keccak_of(&[&BUYER]);
    let root = if leaf <= sibling {
        keccak_of(&[&leaf, &sibling])
    } else {
        keccak_of(&[&sibling, &leaf])
    };
    let mut c = base_config();
    c.whitelist_enabled = true;
    c.whitelist_root = root;
    let (mut state, whitelist) = setup(c);
    let mut position = fresh_position();
    let mut request = args(100);
    request.merkle_proof = vec![[3u8; 32]];
    let bad = buy(&mut state, &whitelist, &mut position, &BUYER, &request, &None, VAULT_BALANCE, 500);
    assert_eq!(bad.err(), Some(PresaleError::NotWhitelisted));
    request.merkle_proof = vec![sibling];
    let good = buy(&mut state, &whitelist, &mut position, &BUYER, &request, &None, VAULT_BALANCE, 500);
    assert!(good.is_ok());
}

#[test]
fn buy_respects_the_cooldown() {
    let mut c = base_config();
    c.buy_cooldown_seconds = 100;
    let (mut state, whitelist) = setup(c);
    let mut position = fresh_position();
    assert!(buy(&mut state, &whitelist, &mut position, &BUYER, &args(10), &None, VAULT_BALANCE, 500)
        .is_ok());
    let again = buy(&mut state, &whitelist, &mut position, &BUYER, &args(10), &None, VAULT_BALANCE, 550);
    assert_eq!(again.err(), Some(PresaleError::CooldownActive));
    assert!(buy(&mut state, &whitelist, &mut position, &BUYER, &args(10), &None, VAULT_BALANCE, 600)
        .is_ok());
}

#[test]
fn buy_rejects_a_zero_payment() {
    let (mut state, whitelist) = setup(base_config());
    let mut position = fresh_position();
    let r = buy(&mut state, &whitelist, &mut position, &BUYER, &args(0), &None, VAULT_BALANCE, 500);
    assert_eq!(r.err(), Some(PresaleError::InvalidAmount));
}

#[test]
fn buy_enforces_the_wallet_minimum_on_the_first_purchase_only() {
    let mut c = base_config();
    c.wallet_min = 50;
    let (mut state, whitelist) = setup(c);
    let mut position = fresh_position();
    let small = buy(&mut state, &whitelist, &mut position, &BUYER, &args(49), &None, VAULT_BALANCE, 500);
    assert_eq!(small.err(), Some(PresaleError::WalletMinNotReached));
    assert!(buy(&mut state, &whitelist, &mut position, &BUYER, &args(50), &None, VAULT_BALANCE, 500)
        .is_ok());
    assert!(buy(&mut state, &whitelist, &mut position, &BUYER, &args(10), &None, VAULT_BALANCE, 500)
        .is_ok());
}

#[test]
fn buy_enforces_the_wallet_cap_on_the_running_total() {
    let mut c = base_config();
    c.wallet_max = 150;
    let (mut state, whitelist) = setup(c);
    let mut position = fresh_position();
    assert!(buy(&mut state, &whitelist, &mut position, &BUYER, &args(100), &None, VAULT_BALANCE, 500)
        .is_ok());
    let over = buy(&mut state, &whitelist, &mut position, &BUYER, &args(51), &None, VAULT_BALANCE, 500);
    assert_eq!(over.err(), Some(PresaleError::WalletCapExceeded));
    assert!(buy(&mut state, &whitelist, &mut position, &BUYER, &args(50), &None, VAULT_BALANCE, 500)
        .is_ok());
}

#[test]
fn two_buys_cannot_both_pass_the_hard_cap() {
    let (mut state, whitelist) = setup(base_config());
    let mut first = fresh_position();
    let mut second = fresh_position();
    let a = buy(&mut state, &whitelist, &mut first, &[11u8; 32], &args(600), &None, VAULT_BALANCE, 500);
    assert!(a.is_ok());
    let before = state;
    let b = buy(&mut state, &whitelist, &mut second, &[12u8; 32], &args(600), &None, VAULT_BALANCE, 500);
    assert_eq!(b.err(), Some(PresaleError::HardCapExceeded));
    assert_eq!(state.collected, before.collected);
    assert_eq!(state.total_allocated, before.total_allocated);
    assert_eq!(second.contributed, 0);
}

#[test]
fn buy_rejects_a_payment_too_small_to_buy_anything() {
    let (mut state, whitelist) = setup(base_config());
    let mut position = fresh_position();
    let r = buy(&mut state, &whitelist, &mut position, &BUYER, &args(1), &None, VAULT_BALANCE, 500);
    assert_eq!(r.err(), Some(PresaleError::InvalidPriceConfiguration));
}

#[test]
fn buy_enforces_the_slippage_floor() {
    let (mut state, whitelist) = setup(base_config());
    let mut position = fresh_position();
    let mut request = args(100);
    request.min_expected_tdl = 51;
    let r = buy(&mut state, &whitelist, &mut position, &BUYER, &request, &None, VAULT_BALANCE, 500);
    assert_eq!(r.err(), Some(PresaleError::SlippageExceeded));
    request.min_expected_tdl = 50;
    assert!(buy(&mut state, &whitelist, &mut position, &BUYER, &request, &None, VAULT_BALANCE, 500)
        .is_ok());
}

#[test]
fn buy_rechecks_the_sale_asset_custody_balance() {
    let (mut state, whitelist) = setup(base_config());
    let mut position = fresh_position();
    let r = buy(&mut state, &whitelist, &mut position, &BUYER, &args(100), &None, 49, 500);
    assert_eq!(r.err(), Some(PresaleError::InsufficientVaultBalance));
    assert!(buy(&mut state, &whitelist, &mut position, &BUYER, &args(100), &None, 50, 500).is_ok());
}

#[test]
fn buy_then_claim_before_end_fails_sale_not_ended() {
    let (mut state, whitelist) = setup(base_config());
    let mut position = fresh_position();
    assert!(buy(&mut state, &whitelist, &mut position, &BUYER, &args(600), &None, VAULT_BALANCE, 500)
        .is_ok());
    assert!(state.collected >= state.soft_cap);
    let r = claim(&mut state, &mut position, 500);
    assert_eq!(r.err(), Some(PresaleError::SaleNotEnded));
    assert_eq!(position.claimed, 0);
    assert_eq!(state.total_claimed, 0);
}

#[test]
fn claim_pays_the_vested_share_and_only_once() {
    let (mut state, whitelist) = setup(base_config());
    let mut position = fresh_position();
    assert!(buy(&mut state, &whitelist, &mut position, &BUYER, &args(600), &None, VAULT_BALANCE, 500)
        .is_ok());
    assert_eq!(position.purchased, 300);
    let first = claim(&mut state, &mut position, 1000).unwrap();
    assert_eq!(first.amount, 30);
    assert_eq!(first.buyer, BUYER);
    assert_eq!(position.claimed, 30);
    assert_eq!(state.total_claimed, 30);
    let again = claim(&mut state, &mut position, 1000);
    assert_eq!(again.err(), Some(PresaleError::NothingToClaim));
    assert_eq!(position.claimed, 30);
    assert_eq!(state.total_claimed, 30);
    let later = claim(&mut state, &mut position, 1500).unwrap();
    assert_eq!(later.amount, 135);
    assert_eq!(position.claimed, 165);
    assert_eq!(state.total_claimed, 165);
}

#[test]
fn claim_fails_below_the_soft_cap_and_refund_is_terminal() {
    let (mut state, whitelist) = setup(base_config());
    let mut position = fresh_position();
    assert!(buy(&mut state, &whitelist, &mut position, &BUYER, &args(100), &None, VAULT_BALANCE, 500)
        .is_ok());
    let denied = claim(&mut state, &mut position, 1001);
    assert_eq!(denied.err(), Some(PresaleError::SoftCapNotMet));
    let refunded = refund(&mut state, &mut position, 1001).unwrap();
    assert_eq!(refunded.pay_amount, 100);
    assert_eq!(refunded.buyer, BUYER);
    assert_eq!(position.contributed, 0);
    assert_eq!(position.purchased, 0);
    assert_eq!(position.claimed, 0);
    assert!(position.refunded);
    assert_eq!(state.total_refunded, 100);
    assert_eq!(state.total_allocated, 0);
    let state_before = state;
    let position_before = position;
    let second = refund(&mut state, &mut position, 1002);
    assert_eq!(second.err(), Some(PresaleError::AlreadyRefunded));
    assert_eq!(state.total_refunded, state_before.total_refunded);
    assert_eq!(state.total_allocated, state_before.total_allocated);
    assert_eq!(position.refunded, position_before.refunded);
    let claim_after = claim(&mut state, &mut position, 1002);
    assert_eq!(claim_after.err(), Some(PresaleError::NothingToClaim));
}

#[test]
fn refund_fails_while_the_sale_runs_or_after_a_met_soft_cap() {
    let (mut state, whitelist) = setup(base_config());
    let mut position = fresh_position();
    assert!(buy(&mut state, &whitelist, &mut position, &BUYER, &args(100), &None, VAULT_BALANCE, 500)
        .is_ok());
    let early = refund(&mut state, &mut position, 1000);
    assert_eq!(early.err(), Some(PresaleError::SaleNotEnded));
    state.collected = state.soft_cap;
    let met = refund(&mut state, &mut position, 1001);
    assert_eq!(met.err(), Some(PresaleError::SoftCapMet));
}

#[test]
fn refund_of_an_empty_position_fails() {
    let (mut state, _whitelist) = setup(base_config());
    let mut position = fresh_position();
    let r = refund(&mut state, &mut position, 1001);
    assert_eq!(r.err(), Some(PresaleError::NothingToRefund));
}

#[test]
fn buy_after_refund_fails() {
    let (mut state, whitelist) = setup(base_config());
    let mut position = fresh_position();
    assert!(buy(&mut state, &whitelist, &mut position, &BUYER, &args(100), &None, VAULT_BALANCE, 500)
        .is_ok());
    assert!(refund(&mut state, &mut position, 1001).is_ok());
    state.end_ts = 2000;
    let r = buy(&mut state, &whitelist, &mut position, &BUYER, &args(100), &None, VAULT_BALANCE, 1500);
    assert_eq!(r.err(), Some(PresaleError::AlreadyRefunded));
}

#[test]
fn pause_and_unpause_toggle_once_each() {
    let (mut state, _w) = setup(base_config());
    let not_admin = [1u8; 32];
    assert_eq!(pause(&mut state, &not_admin, 200).err(), Some(PresaleError::Unauthorized));
    let ev = pause(&mut state, &ADMIN, 200).unwrap();
    assert!(state.is_paused);
    assert_eq!(ev.admin, ADMIN);
    assert_eq!(ev.timestamp, 200);
    assert_eq!(pause(&mut state, &ADMIN, 201).err(), Some(PresaleError::AlreadyPaused));
    let ev2 = unpause(&mut state, &ADMIN, 202).unwrap();
    assert!(!state.is_paused);
    assert_eq!(ev2.timestamp, 202);
    assert_eq!(unpause(&mut state, &ADMIN, 203).err(), Some(PresaleError::NotPaused));
}

#[test]
fn set_config_is_admin_only_and_closed_during_the_sale() {
    let (mut state, mut whitelist) = setup(base_config());
    let other = [1u8; 32];
    let r = set_config(&mut state, &mut whitelist, &other, &base_config(), 60);
    assert_eq!(r.err(), Some(PresaleError::Unauthorized));
    let running = set_config(&mut state, &mut whitelist, &ADMIN, &base_config(), 500);
    assert_eq!(running.err(), Some(PresaleError::SaleInProgress));
    assert!(pause(&mut state, &ADMIN, 500).is_ok());
    let paused = set_config(&mut state, &mut whitelist, &ADMIN, &base_config(), 500);
    assert!(paused.is_ok());
}

#[test]
fn set_config_replaces_parameters_and_bumps_the_allowlist_version() {
    let (mut state, mut whitelist) = setup(base_config());
    let mut c = base_config();
    c.price_numerator = 5;
    c.whitelist_root = [6u8; 32];
    c.whitelist_enabled = true;
    let ev = set_config(&mut state, &mut whitelist, &ADMIN, &c, 60).unwrap();
    assert_eq!(ev.admin, ADMIN);
    assert_eq!(ev.timestamp, 60);
    assert_eq!(state.price_numerator, 5);
    assert!(state.whitelist_enabled);
    assert_eq!(whitelist.root, [6u8; 32]);
    assert!(whitelist.enabled);
    assert_eq!(whitelist.version, 2);
    assert_eq!(whitelist.last_updated, 60);
    assert_eq!(state.collected, 0);
    assert_eq!(state.admin, ADMIN);
}

#[test]
fn set_config_rejects_an_invalid_replacement() {
    let (mut state, mut whitelist) = setup(base_config());
    let mut c = base_config();
    c.tge_bps = 10_001;
    let r = set_config(&mut state, &mut whitelist, &ADMIN, &c, 60);
    assert_eq!(r.err(), Some(PresaleError::InvalidTgeBps));
    assert_eq!(whitelist.version, 1);
}

#[test]
fn withdraw_funds_takes_only_what_remains_escrowed() {
    let (mut state, whitelist) = setup(base_config());
    let mut position = fresh_position();
    assert!(buy(&mut state, &whitelist, &mut position, &BUYER, &args(600), &None, VAULT_BALANCE, 500)
        .is_ok());
    let other = [1u8; 32];
    assert_eq!(
        withdraw_funds(&mut state, &other, 600, 1001).err(),
        Some(PresaleError::Unauthorized)
    );
    assert_eq!(
        withdraw_funds(&mut state, &ADMIN, 0, 1001).err(),
        Some(PresaleError::InvalidAmount)
    );
    assert_eq!(
        withdraw_funds(&mut state, &ADMIN, 600, 1000).err(),
        Some(PresaleError::SaleNotEnded)
    );
    assert_eq!(
        withdraw_funds(&mut state, &ADMIN, 601, 1001).err(),
        Some(PresaleError::InsufficientEscrowBalance)
    );
    let ev = withdraw_funds(&mut state, &ADMIN, 500, 1001).unwrap();
    assert_eq!(ev.amount, 500);
    assert_eq!(state.funds_withdrawn, 500);
    assert_eq!(
        withdraw_funds(&mut state, &ADMIN, 101, 1002).err(),
        Some(PresaleError::InsufficientEscrowBalance)
    );
    assert!(withdraw_funds(&mut state, &ADMIN, 100, 1002).is_ok());
    assert_eq!(state.funds_withdrawn, 600);
}

#[test]
fn withdraw_funds_needs_the_soft_cap_met() {
    let (mut state, whitelist) = setup(base_config());
    let mut position = fresh_position();
    assert!(buy(&mut state, &whitelist, &mut position, &BUYER, &args(100), &None, VAULT_BALANCE, 500)
        .is_ok());
    let r = withdraw_funds(&mut state, &ADMIN, 100, 1001);
    assert_eq!(r.err(), Some(PresaleError::SoftCapNotMet));
}

#[test]
fn withdraw_unallocated_leaves_the_claim_cover_intact() {
    let (mut state, whitelist) = setup(base_config());
    let mut position = fresh_position();
    assert!(buy(&mut state, &whitelist, &mut position, &BUYER, &args(600), &None, VAULT_BALANCE, 500)
        .is_ok());
    assert_eq!(state.total_allocated, 300);
    let other = [1u8; 32];
    assert_eq!(
        withdraw_unallocated_tdl(&mut state, &other, 1, 1000, 1001).err(),
        Some(PresaleError::Unauthorized)
    );
    assert_eq!(
        withdraw_unallocated_tdl(&mut state, &ADMIN, 0, 1000, 1001).err(),
        Some(PresaleError::InvalidAmount)
    );
    assert_eq!(
        withdraw_unallocated_tdl(&mut state, &ADMIN, 1, 1000, 1000).err(),
        Some(PresaleError::SaleNotEnded)
    );
    assert_eq!(
        withdraw_unallocated_tdl(&mut state, &ADMIN, 1, 299, 1001).err(),
        Some(PresaleError::MathOverflow)
    );
    assert_eq!(
        withdraw_unallocated_tdl(&mut state, &ADMIN, 701, 1000, 1001).err(),
        Some(PresaleError::InsufficientVaultBalance)
    );
    let ev = withdraw_unallocated_tdl(&mut state, &ADMIN, 700, 1000, 1001).unwrap();
    assert_eq!(ev.amount, 700);
    assert_eq!(state.total_allocated, 300);
    assert_eq!(state.total_claimed, 0);
}

#[test]
fn buy_reports_cooldown_clock_overflow() {
    let mut c = base_config();
    c.buy_cooldown_seconds = 100;
    let (mut state, whitelist) = setup(c);
    let mut position = fresh_position();
    position.buyer = BUYER;
    position.last_purchase_ts = i64::MAX - 10;
    let r = buy(&mut state, &whitelist, &mut position, &BUYER, &args(10), &None, VAULT_BALANCE, 500);
    assert_eq!(r.err(), Some(PresaleError::MathOverflow));
}

#[test]
fn buy_reports_contribution_overflow() {
    let (mut state, whitelist) = setup(base_config());
    let mut position = fresh_position();
    position.buyer = BUYER;
    position.contributed = u64::MAX;
    let r = buy(&mut state, &whitelist, &mut position, &BUYER, &args(10), &None, VAULT_BALANCE, 500);
    assert_eq!(r.err(), Some(PresaleError::MathOverflow));
}

#[test]
fn set_config_reports_allowlist_version_overflow() {
    let (mut state, mut whitelist) = setup(base_config());
    whitelist.version = u64::MAX;
    let r = set_config(&mut state, &mut whitelist, &ADMIN, &base_config(), 60);
    assert_eq!(r.err(), Some(PresaleError::MathOverflow));
    assert_eq!(whitelist.version, u64::MAX);
}

#[test]
fn contributions_equal_collected_minus_refunds_across_a_campaign() {
    let (mut state, whitelist) = setup(base_config());
    let mut alice = fresh_position();
    let mut bob = fresh_position();
    assert!(buy(&mut state, &whitelist, &mut alice, &[11u8; 32], &args(100), &None, VAULT_BALANCE, 500)
        .is_ok());
    assert!(buy(&mut state, &whitelist, &mut bob, &[12u8; 32], &args(150), &None, VAULT_BALANCE, 500)
        .is_ok());
    assert!(buy(&mut state, &whitelist, &mut alice, &[11u8; 32], &args(50), &None, VAULT_BALANCE, 600)
        .is_ok());
    assert_eq!(
        alice.contributed + bob.contributed,
        state.collected - state.total_refunded
    );
    assert!(refund(&mut state, &mut alice, 1001).is_ok());
    assert_eq!(
        alice.contributed + bob.contributed,
        state.collected - state.total_refunded
    );
}
