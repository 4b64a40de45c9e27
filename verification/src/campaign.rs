//! The record of one fundraising campaign.

use vstd::prelude::*;
use crate::admin::{Admin, AdminView};
use crate::error::ErrorCode;
use crate::identity::{blank, Identity};

verus! {

/// Longest title, in bytes.
pub const MAX_TITLE_LENGTH: usize = 100;

/// Longest description, in bytes.
pub const MAX_DESCRIPTION_LENGTH: usize = 500;

/// Shortest time, in seconds, between a campaign's creation and its deadline: one hour.
pub const MIN_CAMPAIGN_DURATION: i64 = 3600;

/// Longest time, in seconds, between a campaign's creation and its deadline: thirty days.
pub const MAX_CAMPAIGN_DURATION: i64 = 2_592_000;

/// One fundraising effort.
///
/// What the campaign holds in custody is not a field of the record: the ledger that hosts the
/// record keeps that balance, and it may differ from `raised_amount`.
#[derive(Clone, Debug, PartialEq, Eq)]
pub struct Campaign {
    /// The principal that created the campaign and may withdraw from it.
    pub creator: Identity,
    pub title: String,
    pub description: String,
    /// The amount to raise. It may be zero.
    pub goal: u64,
    /// The sum of the net amounts of all donations so far.
    pub raised_amount: u64,
    /// The time, in seconds, at which donations stop; withdrawal is open after it.
    pub deadline: i64,
}

/// What a campaign is, as plain mathematics.
pub struct CampaignView {
    pub creator: Seq<u8>,
    pub title: Seq<char>,
    pub description: Seq<char>,
    pub goal: nat,
    pub raised_amount: nat,
    pub deadline: int,
}

impl View for Campaign {
    type V = CampaignView;

    open spec fn view(&self) -> CampaignView {
        CampaignView {
            creator: self.creator@,
            title: self.title@,
            description: self.description@,
            goal: self.goal as nat,
            raised_amount: self.raised_amount as nat,
            deadline: self.deadline as int,
        }
    }
}

/// The number of bytes that a text takes.
pub open spec fn byte_len(text: Seq<char>) -> nat {
    vstd::utf8::encode_utf8(text).len()
}

impl CampaignView {
    /// The limits that creation enforces on the two texts. No later operation tests them
    /// again, and none changes the texts.
    pub open spec fn well_formed(self) -> bool {
        &&& byte_len(self.title) <= MAX_TITLE_LENGTH
        &&& byte_len(self.description) <= MAX_DESCRIPTION_LENGTH
    }

    /// The room, in bytes, that the record takes where it is stored: a tag of eight bytes,
    /// the creator's identity, each text behind four bytes that hold its length, and eight
    /// bytes for each of the three numbers.
    pub open spec fn stored_size(self) -> nat {
        8 + 32 + (4 + byte_len(self.title)) + (4 + byte_len(self.description)) + 8 + 8 + 8
    }

    /// This campaign with another amount raised.
    pub open spec fn with_raised(self, raised_amount: nat) -> CampaignView {
        CampaignView { raised_amount, ..self }
    }
}

impl Default for Campaign {
    /// A record that is not yet filled in: see [`create_campaign`].
    fn default() -> (campaign: Campaign)
        ensures
            campaign@ == created(blank(), Seq::empty(), Seq::empty(), 0, 0),
    {
        Campaign {
            creator: Identity::default(),
            title: String::new(),
            description: String::new(),
            goal: 0,
            raised_amount: 0,
            deadline: 0,
        }
    }
}

impl Campaign {
    /// The room, in bytes, to set aside for a campaign: as much as one with the longest
    /// title and the longest description takes, and so enough for every campaign that keeps
    /// to the limits.
    pub fn max_size() -> (size: usize)
        ensures
            size == 8 + 32 + (4 + MAX_TITLE_LENGTH) + (4 + MAX_DESCRIPTION_LENGTH) + 8 + 8 + 8,
            forall|campaign: CampaignView|
                campaign.well_formed() ==> #[trigger] campaign.stored_size() <= size,
    {
        8 + 32 + (4 + MAX_TITLE_LENGTH) + (4 + MAX_DESCRIPTION_LENGTH) + 8 + 8 + 8
    }
}

/// What the creation of a campaign works on.
#[derive(Clone, Debug, PartialEq, Eq)]
pub struct CreateCampaign {
    /// The record that creation fills in.
    pub campaign: Campaign,
    /// The caller, who becomes the campaign's creator.
    pub creator: Identity,
    /// The registry whose pause switch gates the creation.
    pub admin: Admin,
}

/// Why a campaign with these texts and this deadline cannot be created at time `now`, if it
/// cannot.
///
/// The conditions are tested in this order, and the first that fails is the outcome: the
/// contract is not paused; the deadline is at least [`MIN_CAMPAIGN_DURATION`] seconds away;
/// it is at most [`MAX_CAMPAIGN_DURATION`] seconds away; the title takes at most
/// [`MAX_TITLE_LENGTH`] bytes; the description takes at most [`MAX_DESCRIPTION_LENGTH`].
pub open spec fn creation_refused(
    admin: AdminView,
    title: Seq<char>,
    description: Seq<char>,
    deadline: int,
    now: int,
) -> Option<ErrorCode> {
    if admin.paused {
        Some(ErrorCode::ContractPaused)
    } else if deadline - now < MIN_CAMPAIGN_DURATION {
        Some(ErrorCode::CampaignTooShort)
    } else if deadline - now > MAX_CAMPAIGN_DURATION {
        Some(ErrorCode::CampaignTooLong)
    } else if byte_len(title) > MAX_TITLE_LENGTH {
        Some(ErrorCode::TitleTooLong)
    } else if byte_len(description) > MAX_DESCRIPTION_LENGTH {
        Some(ErrorCode::DescriptionTooLong)
    } else {
        None
    }
}

/// The campaign that creation makes: nothing raised yet, and the rest as given.
pub open spec fn created(
    creator: Seq<u8>,
    title: Seq<char>,
    description: Seq<char>,
    goal: nat,
    deadline: int,
) -> CampaignView {
    CampaignView { creator, title, description, goal, raised_amount: 0, deadline }
}

/// Creates, at time `now`, the campaign of `ctx` for its caller.
///
/// A refused creation leaves the record of `ctx` as it was.
pub fn create_campaign(
    ctx: &mut CreateCampaign,
    title: String,
    description: String,
    goal: u64,
    deadline: i64,
    now: i64,
) -> (r: Result<(), ErrorCode>)
    ensures
        match creation_refused(old(ctx).admin@, title@, description@, deadline as int, now as int) {
            None => {
                &&& r is Ok
                &&& final(ctx).campaign@ == created(
                    old(ctx).creator@,
                    title@,
                    description@,
                    goal as nat,
                    deadline as int,
                )
                &&& final(ctx).campaign@.well_formed()
            },
            Some(e) => {
                &&& r == Err::<(), ErrorCode>(e)
                &&& final(ctx).campaign@ == old(ctx).campaign@
            },
        },
        final(ctx).creator == old(ctx).creator,
        final(ctx).admin == old(ctx).admin,
{
    ctx.admin.require_active()?;
    let duration: i128 = deadline as i128 - now as i128;
    if duration < MIN_CAMPAIGN_DURATION as i128 {
        return Err(ErrorCode::CampaignTooShort);
    }
    if duration > MAX_CAMPAIGN_DURATION as i128 {
        return Err(ErrorCode::CampaignTooLong);
    }
    if title.as_str().as_bytes().len() > MAX_TITLE_LENGTH {
        return Err(ErrorCode::TitleTooLong);
    }
    if description.as_str().as_bytes().len() > MAX_DESCRIPTION_LENGTH {
        return Err(ErrorCode::DescriptionTooLong);
    }
    ctx.campaign = Campaign {
        creator: ctx.creator,
        title,
        description,
        goal,
        raised_amount: 0,
        deadline,
    };
    Ok(())
}

} // verus!
