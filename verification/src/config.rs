//! Validation of a proposed campaign configuration. All rules must pass
//! atomically; the first violated rule names the error.

use vstd::prelude::*;

use crate::errors::PresaleError;
use crate::state::BPS_DENOMINATOR;
use crate::state::PresaleConfig;

verus! {

/// The first rule that `c` violates, or `None` when `c` is acceptable:
/// positive price ratio, `hard_cap >= soft_cap`, a set `wallet_max` at least
/// `wallet_min`, a forward schedule, `tge_bps` within basis points, and
/// non-negative cliff and vesting lengths.
pub open spec fn spec_validate_config(c: PresaleConfig) -> Option<PresaleError> {
    if c.price_numerator == 0 {
        Some(PresaleError::InvalidPriceConfiguration)
    } else if c.price_denominator == 0 {
        Some(PresaleError::InvalidPriceConfiguration)
    } else if c.hard_cap < c.soft_cap {
        Some(PresaleError::InvalidCapConfiguration)
    } else if c.wallet_max > 0 && c.wallet_max < c.wallet_min {
        Some(PresaleError::InvalidCapConfiguration)
    } else if c.start_ts >= c.end_ts {
        Some(PresaleError::InvalidSchedule)
    } else if c.tge_bps > BPS_DENOMINATOR {
        Some(PresaleError::InvalidTgeBps)
    } else if c.cliff_seconds < 0 {
        Some(PresaleError::InvalidSchedule)
    } else if c.vesting_seconds < 0 {
        Some(PresaleError::InvalidSchedule)
    } else {
        None
    }
}

/// Checks a candidate configuration; no side effects.
pub fn validate_config(c: &PresaleConfig) -> (r: Result<(), PresaleError>)
    ensures
        r is Ok <==> spec_validate_config(*c) is None,
        r matches Err(e) ==> Some(e) == spec_validate_config(*c),
{
    if c.price_numerator == 0 {
        return Err(PresaleError::InvalidPriceConfiguration);
    }
    if c.price_denominator == 0 {
        return Err(PresaleError::InvalidPriceConfiguration);
    }
    if c.hard_cap < c.soft_cap {
        return Err(PresaleError::InvalidCapConfiguration);
    }
    if c.wallet_max > 0 && c.wallet_max < c.wallet_min {
        return Err(PresaleError::InvalidCapConfiguration);
    }
    if c.start_ts >= c.end_ts {
        return Err(PresaleError::InvalidSchedule);
    }
    if c.tge_bps as u64 > BPS_DENOMINATOR {
        return Err(PresaleError::InvalidTgeBps);
    }
    if c.cliff_seconds < 0 {
        return Err(PresaleError::InvalidSchedule);
    }
    if c.vesting_seconds < 0 {
        return Err(PresaleError::InvalidSchedule);
    }
    Ok(())
}

} // verus!
