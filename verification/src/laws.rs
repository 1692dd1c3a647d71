//! Campaign-wide laws: how the per-operation contracts compose into the
//! global invariants — conservation of contributions, custody coverage of
//! outstanding allocations, and the one-shot character of refund and claim.
//!
//! Each law is stated over the same spec functions the operations' own
//! contracts use, so a caller can instantiate it directly from an
//! operation's postcondition.

use vstd::prelude::*;

use crate::engine::spec_buy_err;
use crate::engine::spec_claim_err;
use crate::engine::spec_refund_err;
use crate::errors::PresaleError;
use crate::pricing::spec_token_amount;
use crate::state::Address;
use crate::state::BuyArgs;
use crate::state::BuyerPosition;
use crate::state::PresaleState;
use crate::state::Whitelist;
use crate::vesting::lemma_unlocked_bounds;
use crate::vesting::spec_claimable;
use crate::vesting::spec_claimable_fits;
use crate::vesting::spec_unlocked;

verus! {

/// The sum of `contributed` over a campaign's positions.
pub open spec fn contributed_sum(positions: Seq<BuyerPosition>) -> int
    decreases positions.len(),
{
    if positions.len() == 0 {
        0
    } else {
        positions[0].contributed + contributed_sum(positions.skip(1))
    }
}

/// Replacing one position changes the sum by the difference of that
/// position's contribution.
pub proof fn lemma_contributed_sum_update(s: Seq<BuyerPosition>, i: int, p: BuyerPosition)
    requires
        0 <= i < s.len(),
    ensures
        contributed_sum(s.update(i, p)) == contributed_sum(s) - s[i].contributed + p.contributed,
    decreases s.len(),
{
    if i == 0 {
        assert(s.update(0, p)[0] == p);
        assert(s.update(0, p).skip(1) =~= s.skip(1));
    } else {
        lemma_contributed_sum_update(s.skip(1), i - 1, p);
        assert(s.update(i, p)[0] == s[0]);
        assert(s.update(i, p).skip(1) =~= s.skip(1).update(i - 1, p));
    }
}

/// The campaign-wide sum of contributions is never negative.
pub proof fn lemma_contributed_sum_nonneg(s: Seq<BuyerPosition>)
    ensures
        contributed_sum(s) >= 0,
    decreases s.len(),
{
    if s.len() > 0 {
        lemma_contributed_sum_nonneg(s.skip(1));
    }
}

/// Each position's contribution is at most the campaign-wide sum.
pub proof fn lemma_contributed_le_sum(s: Seq<BuyerPosition>, i: int)
    requires
        0 <= i < s.len(),
    ensures
        s[i].contributed <= contributed_sum(s),
    decreases s.len(),
{
    if i == 0 {
        lemma_contributed_sum_nonneg(s.skip(1));
    } else {
        lemma_contributed_le_sum(s.skip(1), i - 1);
    }
}

/// Law: a successful purchase adds the same amount to the buyer's
/// contribution and to `collected` and leaves `total_refunded` alone, so
/// `sum(contributed) == collected - total_refunded` is preserved.
pub proof fn lemma_buy_preserves_conservation(
    positions: Seq<BuyerPosition>,
    i: int,
    pre: PresaleState,
    post: PresaleState,
    pos_post: BuyerPosition,
    pay_amount: u64,
)
    requires
        0 <= i < positions.len(),
        contributed_sum(positions) == pre.collected - pre.total_refunded,
        post.collected == pre.collected + pay_amount,
        post.total_refunded == pre.total_refunded,
        pos_post.contributed == positions[i].contributed + pay_amount,
    ensures
        contributed_sum(positions.update(i, pos_post)) == post.collected - post.total_refunded,
{
    lemma_contributed_sum_update(positions, i, pos_post);
}

/// Law: a successful refund moves the position's whole contribution from
/// the position into `total_refunded` and leaves `collected` alone, so
/// `sum(contributed) == collected - total_refunded` is preserved.
pub proof fn lemma_refund_preserves_conservation(
    positions: Seq<BuyerPosition>,
    i: int,
    pre: PresaleState,
    post: PresaleState,
    pos_post: BuyerPosition,
)
    requires
        0 <= i < positions.len(),
        contributed_sum(positions) == pre.collected - pre.total_refunded,
        post.collected == pre.collected,
        post.total_refunded == pre.total_refunded + positions[i].contributed,
        pos_post.contributed == 0,
    ensures
        contributed_sum(positions.update(i, pos_post)) == post.collected - post.total_refunded,
{
    lemma_contributed_sum_update(positions, i, pos_post);
}

/// Law: an operation that changes no position's contribution, `collected`
/// or `total_refunded` — claim, pause, unpause, `set_config` and both
/// withdrawals, by their contracts — preserves the conservation equation.
pub proof fn lemma_untouched_preserves_conservation(
    positions: Seq<BuyerPosition>,
    pre: PresaleState,
    post: PresaleState,
)
    requires
        contributed_sum(positions) == pre.collected - pre.total_refunded,
        post.collected == pre.collected,
        post.total_refunded == pre.total_refunded,
    ensures
        contributed_sum(positions) == post.collected - post.total_refunded,
{
}

/// Law: a claim pays out of the sale-asset custody exactly what it adds to
/// `total_claimed`, so outstanding allocations never exceed the custody
/// balance.
pub proof fn lemma_claim_preserves_vault_cover(
    pre: PresaleState,
    post: PresaleState,
    vault_pre: int,
    vault_post: int,
    amount: int,
)
    requires
        pre.total_allocated - pre.total_claimed <= vault_pre,
        post.total_allocated == pre.total_allocated,
        post.total_claimed == pre.total_claimed + amount,
        vault_post == vault_pre - amount,
    ensures
        post.total_allocated - post.total_claimed <= vault_post,
{
}

/// Law: a refund releases the position's reserved allocation without
/// touching the sale-asset custody, so outstanding allocations never exceed
/// the custody balance.
pub proof fn lemma_refund_preserves_vault_cover(
    pre: PresaleState,
    post: PresaleState,
    vault_balance: int,
    released: int,
)
    requires
        pre.total_allocated - pre.total_claimed <= vault_balance,
        released >= 0,
        post.total_allocated == pre.total_allocated - released,
        post.total_claimed == pre.total_claimed,
    ensures
        post.total_allocated - post.total_claimed <= vault_balance,
{
}

/// Law: a refund pays out of escrow no more than what is still there — if
/// the position's contribution fits under the un-withdrawn escrow remainder
/// (which conservation guarantees, by `lemma_contributed_le_sum`), the
/// refund keeps `total_refunded + funds_withdrawn <= collected`.
pub proof fn lemma_refund_preserves_escrow_bound(
    pre: PresaleState,
    post: PresaleState,
    contributed: u64,
)
    requires
        pre.total_refunded + pre.funds_withdrawn + contributed <= pre.collected,
        post.collected == pre.collected,
        post.funds_withdrawn == pre.funds_withdrawn,
        post.total_refunded == pre.total_refunded + contributed,
    ensures
        post.total_refunded + post.funds_withdrawn <= post.collected,
{
}

/// Law: refund is a one-shot, terminal transition — after a successful
/// refund, a second attempt at any later instant fails with
/// `AlreadyRefunded` (and, by the refund contract, mutates nothing).
pub proof fn lemma_refund_idempotent(s: PresaleState, p: BuyerPosition, now1: i64, now2: i64)
    requires
        spec_refund_err(s, p, now1) is None,
        now2 >= now1,
    ensures
        ({
            let s_post = PresaleState {
                total_allocated: (s.total_allocated - p.purchased) as u64,
                total_refunded: (s.total_refunded + p.contributed) as u64,
                ..s
            };
            let p_post = BuyerPosition {
                contributed: 0,
                purchased: 0,
                claimed: 0,
                refunded: true,
                ..p
            };
            spec_refund_err(s_post, p_post, now2) == Some(PresaleError::AlreadyRefunded)
        }),
{
}

/// Law: claim pays out exactly the newly unlocked amount — after a
/// successful claim, a second claim at the same instant fails with
/// `NothingToClaim` (and, by the claim contract, mutates nothing).
pub proof fn lemma_claim_idempotent(s: PresaleState, p: BuyerPosition, now: i64)
    requires
        s.config_wf(),
        spec_claim_err(s, p, now) is None,
    ensures
        ({
            let c = spec_claimable(s, p, now);
            let s_post = PresaleState { total_claimed: (s.total_claimed + c) as u64, ..s };
            let p_post = BuyerPosition { claimed: (p.claimed + c) as u64, ..p };
            spec_claim_err(s_post, p_post, now) == Some(PresaleError::NothingToClaim)
        }),
{
    lemma_unlocked_bounds(s, p.purchased, now);
    let c = spec_claimable(s, p, now);
    let s_post = PresaleState { total_claimed: (s.total_claimed + c) as u64, ..s };
    let p_post = BuyerPosition { claimed: (p.claimed + c) as u64, ..p };
    assert(p_post.claimed == spec_unlocked(s, p.purchased, now));
    assert(spec_unlocked(s_post, p_post.purchased, now) == spec_unlocked(s, p.purchased, now));
    assert(spec_claimable(s_post, p_post, now) == 0);
    assert(spec_claimable_fits(s_post, p_post, now));
}

/// Law: a purchase can only succeed while the sale is open, so a claim at
/// the same instant — strictly before `end_ts` — fails with `SaleNotEnded`,
/// whatever the vesting parameters. The one proviso: the collected total
/// must stand at or above the soft cap after the purchase, since below it
/// the claim already fails with `SoftCapNotMet`.
pub proof fn lemma_buy_then_claim_before_end(
    s: PresaleState,
    w: Whitelist,
    p: BuyerPosition,
    buyer: Address,
    args: BuyArgs,
    guard_signer: Option<Address>,
    tdl_vault_balance: u64,
    now: i64,
)
    requires
        s.config_wf(),
        spec_buy_err(s, w, p, buyer, args, guard_signer, tdl_vault_balance, now) is None,
        now < s.end_ts,
        s.collected + args.pay_amount >= s.soft_cap,
    ensures
        ({
            let tokens = spec_token_amount(args.pay_amount, s.price_numerator, s.price_denominator);
            let s_post = PresaleState {
                collected: (s.collected + args.pay_amount) as u64,
                total_allocated: (s.total_allocated + tokens) as u64,
                ..s
            };
            let p_post = BuyerPosition {
                buyer: if p.spec_is_uninitialized() {
                    buyer
                } else {
                    p.buyer
                },
                contributed: (p.contributed + args.pay_amount) as u64,
                purchased: (p.purchased + tokens) as u64,
                last_purchase_ts: now,
                ..p
            };
            spec_claim_err(s_post, p_post, now) == Some(PresaleError::SaleNotEnded)
        }),
{
}

} // verus!
