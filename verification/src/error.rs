//! The reasons for which an operation is refused.

use vstd::prelude::*;

verus! {

/// Why an operation was refused.
///
/// An operation tests its conditions in a fixed order and reports the first one that fails;
/// a refused operation changes nothing.
#[derive(Clone, Copy, Debug, PartialEq, Eq, Structural)]
pub enum ErrorCode {
    /// A donation arrived at or after the campaign's deadline.
    CampaignEnded,
    /// A withdrawal was asked for at or before the campaign's deadline.
    CampaignNotEnded,
    /// A withdrawal was asked for while less than the goal had been raised.
    GoalNotReached,
    /// The caller is not the principal that the record names.
    Unauthorized,
    /// An amount does not fit in sixty-four bits.
    MathOverflow,
    /// The title is longer than [`crate::campaign::MAX_TITLE_LENGTH`] bytes.
    TitleTooLong,
    /// The description is longer than [`crate::campaign::MAX_DESCRIPTION_LENGTH`] bytes.
    DescriptionTooLong,
    /// The deadline is less than [`crate::campaign::MIN_CAMPAIGN_DURATION`] seconds away.
    CampaignTooShort,
    /// The deadline is more than [`crate::campaign::MAX_CAMPAIGN_DURATION`] seconds away.
    CampaignTooLong,
    /// The administrator has paused the contract.
    ContractPaused,
    /// The fee takes up the whole donation.
    InvalidDonationAmount,
}

} // verus!
