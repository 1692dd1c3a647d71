//! The vesting calculator: the unlocked share of a buyer's allocation at a
//! given time, and how much of it is still unclaimed.
//!
//! A `tge_bps` share of the allocation unlocks at the end of the sale; after
//! a cliff the remainder releases linearly over `vesting_seconds`. The
//! calculator is pure: the claimable amount is re-derivable from the campaign
//! schedule, the position and the caller-supplied time alone.

use vstd::prelude::*;

use vstd::arithmetic::div_mod::lemma_div_is_ordered;
use vstd::arithmetic::div_mod::lemma_div_multiples_vanish;
use vstd::arithmetic::div_mod::lemma_div_pos_is_pos;
use vstd::arithmetic::mul::lemma_mul_inequality;
use vstd::arithmetic::mul::lemma_mul_is_commutative;
use vstd::arithmetic::mul::lemma_mul_left_inequality;
use vstd::arithmetic::mul::lemma_mul_nonnegative;
use vstd::math::min;

use crate::errors::PresaleError;
use crate::state::BPS_DENOMINATOR;
use crate::state::BuyerPosition;
use crate::state::PresaleState;

verus! {

/// The share of `purchased` that unlocks immediately at the end of the sale:
/// `floor(purchased * tge_bps / 10000)`.
pub open spec fn spec_tge_unlocked(purchased: u64, tge_bps: u16) -> int {
    (purchased as int) * (tge_bps as int) / (BPS_DENOMINATOR as int)
}

/// The instant the cliff ends and linear vesting may begin.
pub open spec fn spec_cliff_end(s: PresaleState) -> int {
    s.end_ts + s.cliff_seconds
}

/// Seconds of linear vesting elapsed at `now`, capped at the schedule length.
pub open spec fn spec_elapsed(s: PresaleState, now: i64) -> int {
    min(now - spec_cliff_end(s), s.vesting_seconds as int)
}

/// The unlocked part of `purchased` at `now`: everything when there is no
/// linear phase; otherwise the immediate share, plus — once the cliff has
/// passed — the elapsed fraction of the remainder, rounded down.
pub open spec fn spec_unlocked(s: PresaleState, purchased: u64, now: i64) -> int {
    let tge = spec_tge_unlocked(purchased, s.tge_bps);
    if s.vesting_seconds == 0 {
        purchased as int
    } else if now > spec_cliff_end(s) {
        tge + ((purchased as int) - tge) * spec_elapsed(s, now) / (s.vesting_seconds as int)
    } else {
        tge
    }
}

/// How much the position may claim at `now`: the unlocked part less what was
/// already claimed; zero for an empty position.
pub open spec fn spec_claimable(s: PresaleState, p: BuyerPosition, now: i64) -> int {
    if p.purchased == 0 {
        0
    } else {
        spec_unlocked(s, p.purchased, now) - p.claimed
    }
}

/// The checked arithmetic of the calculator succeeds: every intermediate fits
/// in its machine word, and the claimed total has not outrun the unlocked part.
pub open spec fn spec_claimable_fits(s: PresaleState, p: BuyerPosition, now: i64) -> bool {
    p.purchased == 0 || {
        let tge = spec_tge_unlocked(p.purchased, s.tge_bps);
        &&& (p.purchased as int) * (s.tge_bps as int) <= u64::MAX
        &&& s.end_ts + s.cliff_seconds <= i64::MAX
        &&& (s.vesting_seconds != 0 && now > spec_cliff_end(s) ==> ((p.purchased as int) - tge)
            * spec_elapsed(s, now) <= u64::MAX)
        &&& p.claimed <= spec_unlocked(s, p.purchased, now)
    }
}

/// The immediate share is between zero and the whole allocation.
pub proof fn lemma_tge_bounds(purchased: u64, tge_bps: u16)
    requires
        tge_bps <= BPS_DENOMINATOR,
    ensures
        0 <= spec_tge_unlocked(purchased, tge_bps) <= purchased,
{
    let p = purchased as int;
    let t = tge_bps as int;
    let d = BPS_DENOMINATOR as int;
    lemma_mul_nonnegative(p, t);
    lemma_div_pos_is_pos(p * t, d);
    lemma_mul_left_inequality(d, 0, p);
    if p > 0 {
        lemma_mul_left_inequality(p, t, d);
    }
    assert(p * t <= p * d);
    lemma_div_is_ordered(p * t, p * d, d);
    lemma_mul_is_commutative(p, d);
    lemma_div_multiples_vanish(p, d);
    assert((p * d) / d == p);
}

/// The linear release never exceeds the post-immediate remainder: with
/// `0 <= e <= v`, `r * e / v <= r`.
pub proof fn lemma_linear_le_remaining(r: int, e: int, v: int)
    requires
        0 <= r,
        0 <= e <= v,
        0 < v,
    ensures
        0 <= r * e / v <= r,
{
    lemma_mul_nonnegative(r, e);
    lemma_div_pos_is_pos(r * e, v);
    lemma_mul_left_inequality(v, 0, r);
    if r > 0 {
        lemma_mul_left_inequality(r, e, v);
    }
    assert(r * e <= r * v);
    lemma_div_is_ordered(r * e, r * v, v);
    lemma_mul_is_commutative(r, v);
    lemma_div_multiples_vanish(r, v);
}

/// The unlocked amount stays within the allocation.
pub proof fn lemma_unlocked_bounds(s: PresaleState, purchased: u64, now: i64)
    requires
        s.config_wf(),
    ensures
        0 <= spec_unlocked(s, purchased, now) <= purchased,
{
    lemma_tge_bounds(purchased, s.tge_bps);
    if s.vesting_seconds != 0 && now > spec_cliff_end(s) {
        let tge = spec_tge_unlocked(purchased, s.tge_bps);
        lemma_linear_le_remaining(
            (purchased as int) - tge,
            spec_elapsed(s, now),
            s.vesting_seconds as int,
        );
    }
}

/// The unlocked amount is non-decreasing in `now` for a fixed schedule and
/// allocation.
pub proof fn lemma_unlocked_monotonic(s: PresaleState, purchased: u64, n1: i64, n2: i64)
    requires
        s.config_wf(),
        n1 <= n2,
    ensures
        spec_unlocked(s, purchased, n1) <= spec_unlocked(s, purchased, n2),
{
    lemma_tge_bounds(purchased, s.tge_bps);
    let tge = spec_tge_unlocked(purchased, s.tge_bps);
    let r = (purchased as int) - tge;
    let v = s.vesting_seconds as int;
    if s.vesting_seconds != 0 {
        if n1 > spec_cliff_end(s) {
            let e1 = spec_elapsed(s, n1);
            let e2 = spec_elapsed(s, n2);
            assert(0 < e1 <= e2 <= v);
            lemma_mul_left_inequality(r + 1, e1, e2);
            lemma_mul_inequality(e1, e2, r);
            lemma_mul_is_commutative(e1, r);
            lemma_mul_is_commutative(e2, r);
            assert(r * e1 <= r * e2);
            lemma_div_is_ordered(r * e1, r * e2, v);
        } else if n2 > spec_cliff_end(s) {
            lemma_linear_le_remaining(r, spec_elapsed(s, n2), v);
        }
    }
}

/// The claimable amount is non-decreasing in `now` for a fixed campaign
/// schedule and position.
pub proof fn lemma_claimable_monotonic(s: PresaleState, p: BuyerPosition, n1: i64, n2: i64)
    requires
        s.config_wf(),
        n1 <= n2,
    ensures
        spec_claimable(s, p, n1) <= spec_claimable(s, p, n2),
{
    if p.purchased != 0 {
        lemma_unlocked_monotonic(s, p.purchased, n1, n2);
    }
}

/// Computes the claimable amount at `now`. Pure: no state is read beyond the
/// arguments and none is written.
pub fn calculate_claimable(s: &PresaleState, p: &BuyerPosition, now: i64) -> (r: Result<
    u64,
    PresaleError,
>)
    requires
        s.config_wf(),
    ensures
        r is Ok <==> spec_claimable_fits(*s, *p, now),
        r matches Ok(v) ==> v == spec_claimable(*s, *p, now),
        r is Err ==> r == Err::<u64, PresaleError>(PresaleError::MathOverflow),
{
    let total = p.purchased;
    if total == 0 {
        return Ok(0);
    }
    let scaled = match total.checked_mul(s.tge_bps as u64) {
        Some(v) => v,
        None => {
            return Err(PresaleError::MathOverflow);
        },
    };
    let tge: u64 = scaled / BPS_DENOMINATOR;
    proof {
        lemma_tge_bounds(total, s.tge_bps);
    }
    let mut unlocked: u64 = tge;
    let cliff_end = match s.end_ts.checked_add(s.cliff_seconds) {
        Some(v) => v,
        None => {
            return Err(PresaleError::MathOverflow);
        },
    };
    if s.vesting_seconds == 0 {
        unlocked = total;
    } else if now > cliff_end {
        let elapsed: i64 = match now.checked_sub(cliff_end) {
            Some(d) => if d < s.vesting_seconds {
                d
            } else {
                s.vesting_seconds
            },
            None => s.vesting_seconds,
        };
        proof {
            assert(elapsed == spec_elapsed(*s, now));
            assert(elapsed > 0);
        }
        let remaining = total - tge;
        let product = match remaining.checked_mul(elapsed as u64) {
            Some(v) => v,
            None => {
                return Err(PresaleError::MathOverflow);
            },
        };
        let linear = product / (s.vesting_seconds as u64);
        proof {
            lemma_linear_le_remaining(
                remaining as int,
                elapsed as int,
                s.vesting_seconds as int,
            );
        }
        unlocked = tge + linear;
    }
    proof {
        assert(unlocked == spec_unlocked(*s, total, now));
    }
    match unlocked.checked_sub(p.claimed) {
        Some(c) => Ok(c),
        None => Err(PresaleError::MathOverflow),
    }
}

} // verus!
