//! The fee on a donation.
//!
//! A fee has two parts. The base fee is 2.00% of the amount. The variable fee is 0.50% of the
//! amount, scaled by how far the campaign has come towards its goal. Every division rounds
//! down, and each product is divided before the next is formed, so the order of the steps is
//! part of the definition.

use vstd::prelude::*;
use vstd::arithmetic::div_mod::{lemma_div_is_ordered, lemma_div_multiples_vanish};
use vstd::arithmetic::mul::lemma_mul_inequality;
use crate::campaign::Campaign;
use crate::error::ErrorCode;

verus! {

/// The base fee is this many parts ...
pub const BASE_FEE_RATE_NUMERATOR: u64 = 200;

/// ... out of this many.
pub const BASE_FEE_RATE_DENOMINATOR: u64 = 10_000;

/// At a progress of exactly one, the variable fee is this many parts ...
pub const VARIABLE_FEE_RATE_NUMERATOR: u64 = 50;

/// ... out of this many.
pub const VARIABLE_FEE_RATE_DENOMINATOR: u64 = 10_000;

/// Progress is counted in parts of this many: a campaign that has raised its goal exactly
/// has this progress.
pub const PROGRESS_SCALE: u64 = 10_000;

/// 2.00% of `amount`, rounded down.
pub open spec fn base_fee(amount: nat) -> nat {
    amount * BASE_FEE_RATE_NUMERATOR as nat / BASE_FEE_RATE_DENOMINATOR as nat
}

/// How far a campaign has come, in parts of [`PROGRESS_SCALE`], rounded down. A campaign
/// without a goal has come nowhere; one that has raised more than its goal has a progress
/// above the scale, which is not cut off.
pub open spec fn progress(goal: nat, raised_amount: nat) -> nat {
    if goal == 0 {
        0
    } else {
        raised_amount * PROGRESS_SCALE as nat / goal
    }
}

/// 0.50% of `amount`, rounded down.
pub open spec fn fee_step(amount: nat) -> nat {
    amount * VARIABLE_FEE_RATE_NUMERATOR as nat / VARIABLE_FEE_RATE_DENOMINATOR as nat
}

/// The step scaled by the campaign's progress, rounded down.
pub open spec fn variable_fee(amount: nat, goal: nat, raised_amount: nat) -> nat {
    fee_step(amount) * progress(goal, raised_amount) / PROGRESS_SCALE as nat
}

/// The whole fee.
pub open spec fn total_fee(amount: nat, goal: nat, raised_amount: nat) -> nat {
    base_fee(amount) + variable_fee(amount, goal, raised_amount)
}

/// Whether every product and sum on the way to the fee fits in sixty-four bits.
pub open spec fn fee_fits(amount: nat, goal: nat, raised_amount: nat) -> bool {
    &&& amount * BASE_FEE_RATE_NUMERATOR as nat <= u64::MAX
    &&& goal != 0 ==> raised_amount * PROGRESS_SCALE as nat <= u64::MAX
    &&& amount * VARIABLE_FEE_RATE_NUMERATOR as nat <= u64::MAX
    &&& fee_step(amount) * progress(goal, raised_amount) <= u64::MAX
    &&& total_fee(amount, goal, raised_amount) <= u64::MAX
}

/// The fee on a donation of `amount` to a campaign with this goal that has raised this much,
/// or the refusal to compute it.
pub open spec fn fee_of(amount: nat, goal: nat, raised_amount: nat) -> Result<nat, ErrorCode> {
    if fee_fits(amount, goal, raised_amount) {
        Ok(total_fee(amount, goal, raised_amount))
    } else {
        Err(ErrorCode::MathOverflow)
    }
}

/// Computes the fee on a donation of `amount` to `campaign`.
///
/// The result depends on the amount, the campaign's goal and the amount it has raised, and
/// on nothing else.
pub fn compute_fee(amount: u64, campaign: &Campaign) -> (r: Result<u64, ErrorCode>)
    ensures
        match fee_of(amount as nat, campaign@.goal, campaign@.raised_amount) {
            Ok(fee) => r == Ok::<u64, ErrorCode>(fee as u64) && fee <= u64::MAX,
            Err(e) => r == Err::<u64, ErrorCode>(e),
        },
{
    let base_fee = match amount.checked_mul(BASE_FEE_RATE_NUMERATOR) {
        Some(product) => product / BASE_FEE_RATE_DENOMINATOR,
        None => return Err(ErrorCode::MathOverflow),
    };
    let ratio = if campaign.goal == 0 {
        0
    } else {
        match campaign.raised_amount.checked_mul(PROGRESS_SCALE) {
            Some(product) => product / campaign.goal,
            None => return Err(ErrorCode::MathOverflow),
        }
    };
    let step = match amount.checked_mul(VARIABLE_FEE_RATE_NUMERATOR) {
        Some(product) => product / VARIABLE_FEE_RATE_DENOMINATOR,
        None => return Err(ErrorCode::MathOverflow),
    };
    let variable_fee = match step.checked_mul(ratio) {
        Some(product) => product / PROGRESS_SCALE,
        None => return Err(ErrorCode::MathOverflow),
    };
    match base_fee.checked_add(variable_fee) {
        Some(fee) => Ok(fee),
        None => Err(ErrorCode::MathOverflow),
    }
}

/// A campaign that has raised no more than its goal has a progress of at most the scale.
pub proof fn lemma_progress_within_the_goal(goal: nat, raised_amount: nat)
    requires
        raised_amount <= goal,
    ensures
        progress(goal, raised_amount) <= PROGRESS_SCALE,
{
    if goal != 0 {
        let scale = PROGRESS_SCALE as int;
        lemma_mul_inequality(raised_amount as int, goal as int, scale);
        lemma_div_is_ordered(raised_amount * scale, goal * scale, goal as int);
        lemma_div_multiples_vanish(scale, goal as int);
    }
}

/// The more a campaign has raised, the further it has come.
pub proof fn lemma_progress_grows_with_raised(goal: nat, less: nat, more: nat)
    requires
        less <= more,
    ensures
        progress(goal, less) <= progress(goal, more),
{
    if goal != 0 {
        let scale = PROGRESS_SCALE as int;
        lemma_mul_inequality(less as int, more as int, scale);
        lemma_div_is_ordered(less * scale, more * scale, goal as int);
    }
}

/// The fee is never less than the base fee, and it is the base fee for a campaign without a
/// goal and for one that has raised nothing.
pub proof fn lemma_fee_is_at_least_the_base_fee(amount: nat, goal: nat, raised_amount: nat)
    ensures
        base_fee(amount) <= total_fee(amount, goal, raised_amount),
        goal == 0 || raised_amount == 0 ==> total_fee(amount, goal, raised_amount) == base_fee(
            amount,
        ),
{
    if goal == 0 || raised_amount == 0 {
        assert(progress(goal, raised_amount) == 0) by {
            if goal != 0 {
                assert(0int / (goal as int) == 0) by (nonlinear_arith)
                    requires
                        goal > 0,
                ;
            }
        }
        assert(fee_step(amount) * 0 == 0);
    }
}

/// The more a campaign has raised, the higher the fee on the same amount.
pub proof fn lemma_fee_grows_with_raised(amount: nat, goal: nat, less: nat, more: nat)
    requires
        less <= more,
    ensures
        total_fee(amount, goal, less) <= total_fee(amount, goal, more),
{
    lemma_progress_grows_with_raised(goal, less, more);
    let step = fee_step(amount) as int;
    assert(step * progress(goal, less) <= step * progress(goal, more)) by (nonlinear_arith)
        requires
            progress(goal, less) <= progress(goal, more),
            step >= 0,
    ;
    lemma_div_is_ordered(
        step * progress(goal, less),
        step * progress(goal, more),
        PROGRESS_SCALE as int,
    );
}

/// Until a campaign has raised more than its goal, the fee is at most 2.50% of the amount:
/// the base fee and, at most, the whole step.
pub proof fn lemma_fee_within_the_goal(amount: nat, goal: nat, raised_amount: nat)
    requires
        raised_amount <= goal,
    ensures
        total_fee(amount, goal, raised_amount) <= base_fee(amount) + fee_step(amount),
        total_fee(amount, goal, raised_amount) * 40 <= amount,
        amount > 0 ==> total_fee(amount, goal, raised_amount) < amount,
{
    lemma_progress_within_the_goal(goal, raised_amount);
    let step = fee_step(amount) as int;
    let scale = PROGRESS_SCALE as int;
    assert(step * progress(goal, raised_amount) <= scale * step) by (nonlinear_arith)
        requires
            progress(goal, raised_amount) <= scale,
            step >= 0,
    ;
    lemma_div_is_ordered(step * progress(goal, raised_amount), scale * step, scale);
    lemma_div_multiples_vanish(step, scale);
}

/// Where the products on the way to the fee fit in sixty-four bits, so does the fee: the
/// last sum cannot be what makes [`fee_of`] refuse.
pub proof fn lemma_fee_fits_where_its_products_fit(amount: nat, goal: nat, raised_amount: nat)
    requires
        amount * BASE_FEE_RATE_NUMERATOR as nat <= u64::MAX,
        fee_step(amount) * progress(goal, raised_amount) <= u64::MAX,
    ensures
        total_fee(amount, goal, raised_amount) <= u64::MAX,
        amount * VARIABLE_FEE_RATE_NUMERATOR as nat <= u64::MAX,
{
}

} // verus!
