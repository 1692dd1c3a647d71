//! The structured events that successful operations emit: an append-only
//! side channel carrying the relevant identities, amounts and a timestamp,
//! observable output rather than control flow.

use vstd::prelude::*;

use crate::state::Address;

verus! {

/// A successful purchase.
#[derive(Debug, Clone, Copy)]
pub struct TokensPurchased {
    pub buyer: Address,
    pub pay_amount: u64,
    pub tdl_amount: u64,
    pub timestamp: i64,
}

/// A successful release of vested sale-asset units.
#[derive(Debug, Clone, Copy)]
pub struct TokensClaimed {
    pub buyer: Address,
    pub amount: u64,
    pub timestamp: i64,
}

/// A successful refund of a participant's full contribution.
#[derive(Debug, Clone, Copy)]
pub struct RefundIssued {
    pub buyer: Address,
    pub pay_amount: u64,
    pub timestamp: i64,
}

/// A successful withdrawal of escrowed payment funds by the admin.
#[derive(Debug, Clone, Copy)]
pub struct FundsWithdrawn {
    pub admin: Address,
    pub amount: u64,
    pub timestamp: i64,
}

/// A successful withdrawal of unallocated sale-asset units by the admin.
#[derive(Debug, Clone, Copy)]
pub struct UnallocatedWithdrawn {
    pub admin: Address,
    pub amount: u64,
    pub timestamp: i64,
}

/// The sale was paused.
#[derive(Debug, Clone, Copy)]
pub struct SalePaused {
    pub admin: Address,
    pub timestamp: i64,
}

/// The sale was resumed.
#[derive(Debug, Clone, Copy)]
pub struct SaleResumed {
    pub admin: Address,
    pub timestamp: i64,
}

/// The configuration was replaced.
#[derive(Debug, Clone, Copy)]
pub struct ConfigUpdated {
    pub admin: Address,
    pub timestamp: i64,
}

} // verus!
