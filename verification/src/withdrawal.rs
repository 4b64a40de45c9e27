//! Releasing what a campaign holds to its creator.
//!
//! A withdrawal moves the whole balance that the campaign holds in custody, not the amount
//! that its books say was raised: the two may differ. The balances are kept by the ledger
//! that hosts the records; it hands them in, and stores them as [`withdraw`] leaves them.

use vstd::prelude::*;
use crate::admin::{authorize, Admin, AdminView};
use crate::campaign::{Campaign, CampaignView};
use crate::error::ErrorCode;
use crate::identity::Identity;

verus! {

/// What a withdrawal works on.
#[derive(Clone, Debug, PartialEq, Eq)]
pub struct Withdraw {
    /// The campaign that is withdrawn from.
    pub campaign: Campaign,
    /// What the campaign holds in custody.
    pub campaign_balance: u64,
    /// The caller, who must be the campaign's creator.
    pub creator: Identity,
    /// What the caller holds.
    pub creator_balance: u64,
    /// The registry whose pause switch gates the withdrawal.
    pub admin: Admin,
}

/// The two balances that a withdrawal moves value between.
pub struct Balances {
    /// What the campaign holds in custody.
    pub campaign: nat,
    /// What the caller holds.
    pub creator: nat,
}

/// The outcome of a withdrawal by `caller` at time `now`: the balances after it, or the
/// reason for which it is refused.
///
/// The conditions are tested in this order, and the first that fails is the outcome: the
/// contract is not paused; the deadline is past; the goal is reached; the caller is the
/// creator; the caller's balance, with the campaign's added, fits in sixty-four bits.
pub open spec fn withdrawal_of(
    admin: AdminView,
    campaign: CampaignView,
    caller: Seq<u8>,
    now: int,
    before: Balances,
) -> Result<Balances, ErrorCode> {
    if admin.paused {
        Err(ErrorCode::ContractPaused)
    } else if now <= campaign.deadline {
        Err(ErrorCode::CampaignNotEnded)
    } else if campaign.raised_amount < campaign.goal {
        Err(ErrorCode::GoalNotReached)
    } else if campaign.creator != caller {
        Err(ErrorCode::Unauthorized)
    } else if before.creator + before.campaign > u64::MAX {
        Err(ErrorCode::MathOverflow)
    } else {
        Ok(Balances { campaign: 0, creator: before.creator + before.campaign })
    }
}

impl Withdraw {
    /// The two balances of this withdrawal.
    pub open spec fn balances(&self) -> Balances {
        Balances {
            campaign: self.campaign_balance as nat,
            creator: self.creator_balance as nat,
        }
    }
}

/// Withdraws, at time `now`, all that the campaign of `ctx` holds to the caller.
///
/// After a withdrawal the campaign holds nothing and the caller holds what both held. The
/// campaign's record stays as it is: the amount raised remains on the books. A refused
/// withdrawal changes nothing.
pub fn withdraw(ctx: &mut Withdraw, now: i64) -> (r: Result<(), ErrorCode>)
    ensures
        match withdrawal_of(
            old(ctx).admin@,
            old(ctx).campaign@,
            old(ctx).creator@,
            now as int,
            old(ctx).balances(),
        ) {
            Ok(after) => r is Ok && final(ctx).balances() == after,
            Err(e) => r == Err::<(), ErrorCode>(e) && final(ctx).balances() == old(ctx).balances(),
        },
        final(ctx).campaign@ == old(ctx).campaign@,
        final(ctx).creator == old(ctx).creator,
        final(ctx).admin == old(ctx).admin,
{
    ctx.admin.require_active()?;
    if now <= ctx.campaign.deadline {
        return Err(ErrorCode::CampaignNotEnded);
    }
    if ctx.campaign.raised_amount < ctx.campaign.goal {
        return Err(ErrorCode::GoalNotReached);
    }
    authorize(&ctx.creator, &ctx.campaign.creator)?;
    match ctx.creator_balance.checked_add(ctx.campaign_balance) {
        Some(total) => {
            ctx.creator_balance = total;
            ctx.campaign_balance = 0;
            Ok(())
        },
        None => Err(ErrorCode::MathOverflow),
    }
}

} // verus!
