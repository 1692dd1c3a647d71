use tdl_presale::errors::PresaleError;
use tdl_presale::state::BuyerPosition;
use tdl_presale::state::PresaleState;
use tdl_presale::vesting::calculate_claimable;

fn schedule_state(tge_bps: u16, cliff_seconds: i64, vesting_seconds: i64) -> PresaleState {
    PresaleState {
        admin: [9u8; 32],
        tdl_mint: [1u8; 32],
        tdl_vault: [3u8; 32],
        pay_mint: [2u8; 32],
        pay_vault: [4u8; 32],
        pay_mint_decimals: 6,
        price_numerator: 1,
        price_denominator: 1,
        soft_cap: 0,
        hard_cap: 1000,
        wallet_min: 0,
        wallet_max: 0,
        start_ts: 0,
        end_ts: 1000,
        tge_bps,
        cliff_seconds,
        vesting_seconds,
        buy_cooldown_seconds: 0,
        collected: 0,
        total_allocated: 0,
        total_claimed: 0,
        total_refunded: 0,
        funds_withdrawn: 0,
        whitelist_enabled: false,
        guard_authority: [0u8; 32],
        guard_enabled: false,
        is_paused: false,
    }
}

fn position_with(purchased: u64, claimed: u64) -> BuyerPosition {
    BuyerPosition {
        buyer: [7u8; 32],
        contributed: purchased,
        purchased,
        claimed,
        last_purchase_ts: 0,
        refunded: false,
    }
}

#[test]
fn tge_share_at_end_of_sale() {
    let s = schedule_state(1000, 0, 1000);
    let p = position_with(100, 0);
    assert_eq!(calculate_claimable(&s, &p, 1000), Ok(10));
}

#[test]
fn linear_release_halfway() {
    let s = schedule_state(1000, 0, 1000);
    let p = position_with(100, 0);
    assert_eq!(calculate_claimable(&s, &p, 1500), Ok(55));
}

#[test]
fn full_release_at_schedule_end() {
    let s = schedule_state(1000, 0, 1000);
    let p = position_with(100, 0);
    assert_eq!(calculate_claimable(&s, &p, 2000), Ok(100));
}

#[test]
fn full_release_stays_after_schedule_end() {
    let s = schedule_state(1000, 0, 1000);
    let p = position_with(100, 0);
    assert_eq!(calculate_claimable(&s, &p, 50_000), Ok(100));
}

#[test]
fn empty_position_claims_nothing() {
    let s = schedule_state(1000, 0, 1000);
    let p = position_with(0, 0);
    assert_eq!(calculate_claimable(&s, &p, 2000), Ok(0));
}

#[test]
fn no_linear_phase_unlocks_everything() {
    let s = schedule_state(1000, 0, 0);
    let p = position_with(100, 0);
    assert_eq!(calculate_claimable(&s, &p, 0), Ok(100));
}

#[test]
fn cliff_delays_the_linear_phase() {
    let s = schedule_state(1000, 500, 1000);
    let p = position_with(100, 0);
    assert_eq!(calculate_claimable(&s, &p, 1500), Ok(10));
    assert_eq!(calculate_claimable(&s, &p, 1501), Ok(10));
    assert_eq!(calculate_claimable(&s, &p, 2000), Ok(55));
    assert_eq!(calculate_claimable(&s, &p, 2500), Ok(100));
}

#[test]
fn already_claimed_share_is_subtracted() {
    let s = schedule_state(1000, 0, 1000);
    let p = position_with(100, 10);
    assert_eq!(calculate_claimable(&s, &p, 1500), Ok(45));
}

#[test]
fn claimed_beyond_unlocked_is_math_overflow() {
    let s = schedule_state(1000, 0, 1000);
    let p = position_with(100, 50);
    assert_eq!(calculate_claimable(&s, &p, 1000), Err(PresaleError::MathOverflow));
}

#[test]
fn tge_product_overflow_is_math_overflow() {
    let s = schedule_state(10_000, 0, 1000);
    let p = position_with(u64::MAX, 0);
    assert_eq!(calculate_claimable(&s, &p, 1000), Err(PresaleError::MathOverflow));
}

#[test]
fn cliff_end_overflow_is_math_overflow() {
    let mut s = schedule_state(1000, i64::MAX, 1000);
    s.end_ts = 1000;
    let p = position_with(100, 0);
    assert_eq!(calculate_claimable(&s, &p, 1000), Err(PresaleError::MathOverflow));
}

#[test]
fn claimable_is_monotone_in_time() {
    let s = schedule_state(2500, 300, 700);
    let p = position_with(997, 0);
    let mut previous = 0u64;
    let mut t = 900i64;
    while t <= 2600 {
        let c = calculate_claimable(&s, &p, t).unwrap();
        assert!(c >= previous);
        previous = c;
        t += 1;
    }
    assert_eq!(previous, 997);
}
