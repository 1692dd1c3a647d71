//! Conversion of a payment amount into sale-asset units under the campaign's
//! price ratio, with overflow-checked scaled arithmetic.

use vstd::prelude::*;

use vstd::arithmetic::div_mod::lemma_div_nonincreasing;

use crate::errors::PresaleError;

verus! {

/// The sale-asset units bought by `amount` payment units at the ratio
/// `num / denom`: `floor(amount * denom / num)`.
pub open spec fn spec_token_amount(amount: u64, num: u64, denom: u64) -> int {
    (amount as int) * (denom as int) / (num as int)
}

/// What the conversion returns: the scaled product must fit in 64 bits and
/// the numerator must be positive, else the matching error.
pub open spec fn spec_calculate_token_amount(amount: u64, num: u64, denom: u64) -> Result<
    u64,
    PresaleError,
> {
    if (amount as int) * (denom as int) > u64::MAX {
        Err(PresaleError::MathOverflow)
    } else if num == 0 {
        Err(PresaleError::InvalidPriceConfiguration)
    } else {
        Ok(spec_token_amount(amount, num, denom) as u64)
    }
}

/// Converts a payment amount into sale-asset units at the ratio
/// `num / denom`, rounding down.
pub fn calculate_token_amount(amount: u64, num: u64, denom: u64) -> (r: Result<u64, PresaleError>)
    ensures
        r == spec_calculate_token_amount(amount, num, denom),
{
    let scaled = match amount.checked_mul(denom) {
        Some(v) => v,
        None => {
            return Err(PresaleError::MathOverflow);
        },
    };
    match scaled.checked_div(num) {
        Some(v) => {
            proof {
                lemma_div_nonincreasing(scaled as int, num as int);
            }
            Ok(v)
        },
        None => Err(PresaleError::InvalidPriceConfiguration),
    }
}

} // verus!
