//! Donating to a campaign.
//!
//! A donation is split in two: the fee, which goes to the administrator's custody, and the
//! rest, which goes to the campaign's custody and is added to what the campaign has raised.
//! This crate decides the split and keeps the campaign's books. The value itself is moved by
//! the ledger that hosts the records: [`donate`] returns the two transfers as a [`Donation`],
//! and the host carries them out in the same all-or-nothing operation in which it stores the
//! campaign that [`donate`] left behind. If a transfer fails, the host stores nothing.

use vstd::prelude::*;
use crate::admin::{Admin, AdminView};
use crate::campaign::{Campaign, CampaignView};
use crate::error::ErrorCode;
use crate::fee::{compute_fee, fee_of};
use crate::identity::Identity;

verus! {

/// What a donation works on.
#[derive(Clone, Debug, PartialEq, Eq)]
pub struct Donate {
    /// The campaign that is donated to.
    pub campaign: Campaign,
    /// The principal that pays.
    pub donor: Identity,
    /// The registry whose pause switch gates the donation.
    pub admin: Admin,
}

/// The two transfers that make up an accepted donation. Both are paid by `donor`.
#[derive(Clone, Copy, Debug, PartialEq, Eq)]
pub struct Donation {
    /// The principal that pays.
    pub donor: Identity,
    /// What goes to the administrator's custody.
    pub fee: u64,
    /// What goes to the campaign's custody.
    pub net_amount: u64,
}

/// What a donation is, as plain mathematics.
pub struct DonationView {
    pub donor: Seq<u8>,
    pub fee: nat,
    pub net_amount: nat,
}

impl View for Donation {
    type V = DonationView;

    open spec fn view(&self) -> DonationView {
        DonationView {
            donor: self.donor@,
            fee: self.fee as nat,
            net_amount: self.net_amount as nat,
        }
    }
}

/// The outcome of donating `amount` at time `now`.
///
/// The conditions are tested in this order, and the first that fails is the outcome: the
/// contract is not paused; the deadline has not come; the fee can be computed; the fee
/// leaves something of the amount; what the campaign has raised, with the rest added, fits
/// in sixty-four bits.
pub open spec fn donation_of(
    admin: AdminView,
    campaign: CampaignView,
    donor: Seq<u8>,
    amount: nat,
    now: int,
) -> Result<DonationView, ErrorCode> {
    if admin.paused {
        Err(ErrorCode::ContractPaused)
    } else if now >= campaign.deadline {
        Err(ErrorCode::CampaignEnded)
    } else {
        match fee_of(amount, campaign.goal, campaign.raised_amount) {
            Err(e) => Err(e),
            Ok(fee) => {
                if amount <= fee {
                    Err(ErrorCode::InvalidDonationAmount)
                } else if campaign.raised_amount + (amount - fee) > u64::MAX {
                    Err(ErrorCode::MathOverflow)
                } else {
                    Ok(DonationView { donor, fee, net_amount: (amount - fee) as nat })
                }
            },
        }
    }
}

/// The campaign after an accepted donation: the net amount is added to what it has raised,
/// and nothing else changes.
pub open spec fn credited(campaign: CampaignView, donation: DonationView) -> CampaignView {
    campaign.with_raised(campaign.raised_amount + donation.net_amount)
}

/// Donates `amount` to the campaign of `ctx` at time `now`.
///
/// An accepted donation is entered in the campaign's books and returned, for the host to
/// move the value. A refused one changes nothing.
pub fn donate(ctx: &mut Donate, amount: u64, now: i64) -> (r: Result<Donation, ErrorCode>)
    ensures
        match donation_of(
            old(ctx).admin@,
            old(ctx).campaign@,
            old(ctx).donor@,
            amount as nat,
            now as int,
        ) {
            Ok(donation) => {
                &&& r matches Ok(accepted)
                &&& accepted@ == donation
                &&& final(ctx).campaign@ == credited(old(ctx).campaign@, donation)
            },
            Err(e) => {
                &&& r matches Err(refusal)
                &&& refusal == e
                &&& final(ctx).campaign@ == old(ctx).campaign@
            },
        },
        old(ctx).campaign@.raised_amount <= final(ctx).campaign@.raised_amount,
        old(ctx).campaign@.well_formed() ==> final(ctx).campaign@.well_formed(),
        final(ctx).admin == old(ctx).admin,
        final(ctx).donor == old(ctx).donor,
{
    ctx.admin.require_active()?;
    if now >= ctx.campaign.deadline {
        return Err(ErrorCode::CampaignEnded);
    }
    let fee = compute_fee(amount, &ctx.campaign)?;
    if amount <= fee {
        return Err(ErrorCode::InvalidDonationAmount);
    }
    let net_amount = amount - fee;
    match ctx.campaign.raised_amount.checked_add(net_amount) {
        Some(raised_amount) => {
            ctx.campaign.raised_amount = raised_amount;
            Ok(Donation { donor: ctx.donor, fee, net_amount })
        },
        None => Err(ErrorCode::MathOverflow),
    }
}

} // verus!
