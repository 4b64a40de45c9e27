//! What holds of the operations taken together.
//!
//! Each theorem is stated over the functions that the operations' own contracts speak of,
//! so it holds of every run of the operations themselves.

use vstd::prelude::*;
use crate::admin::{toggled, AdminView};
use crate::campaign::{
    created, creation_refused, CampaignView, MAX_CAMPAIGN_DURATION, MIN_CAMPAIGN_DURATION,
};
use crate::donation::{credited, donation_of, DonationView};
use crate::error::ErrorCode;
use crate::fee::{
    fee_of, fee_step, lemma_fee_within_the_goal, lemma_progress_within_the_goal, progress,
    BASE_FEE_RATE_NUMERATOR, PROGRESS_SCALE,
};
use crate::withdrawal::{withdrawal_of, Balances};

verus! {

/// One request to donate: who asks, how much, when, and how the registry stood then.
pub struct Request {
    pub admin: AdminView,
    pub donor: Seq<u8>,
    pub amount: nat,
    pub now: int,
}

/// The campaign after the requests were donated one after the other, if every one of them
/// was accepted.
pub open spec fn after_donations(campaign: CampaignView, requests: Seq<Request>) -> Option<
    CampaignView,
>
    decreases requests.len(),
{
    if requests.len() == 0 {
        Some(campaign)
    } else {
        let request = requests.last();
        match after_donations(campaign, requests.drop_last()) {
            None => None,
            Some(before) => match donation_of(
                request.admin,
                before,
                request.donor,
                request.amount,
                request.now,
            ) {
                Ok(donation) => Some(credited(before, donation)),
                Err(_) => None,
            },
        }
    }
}

/// The net amounts of the donations that [`after_donations`] makes, in their order.
pub open spec fn net_amounts(campaign: CampaignView, requests: Seq<Request>) -> Seq<nat>
    decreases requests.len(),
{
    if requests.len() == 0 {
        Seq::empty()
    } else {
        let request = requests.last();
        let earlier = net_amounts(campaign, requests.drop_last());
        match after_donations(campaign, requests.drop_last()) {
            None => earlier,
            Some(before) => match donation_of(
                request.admin,
                before,
                request.donor,
                request.amount,
                request.now,
            ) {
                Ok(donation) => earlier.push(donation.net_amount),
                Err(_) => earlier,
            },
        }
    }
}

/// The sum of the amounts.
pub open spec fn total(amounts: Seq<nat>) -> nat
    decreases amounts.len(),
{
    if amounts.len() == 0 {
        0
    } else {
        total(amounts.drop_last()) + amounts.last()
    }
}

/// After any run of accepted donations, a campaign has raised what it had raised before plus
/// the sum of the net amounts of these donations, and nothing else of it has changed. A
/// campaign starts with nothing raised, so what it has raised is the sum of the net amounts
/// of all its donations.
pub proof fn lemma_raised_is_sum_of_net_amounts(campaign: CampaignView, requests: Seq<Request>)
    requires
        after_donations(campaign, requests) is Some,
    ensures
        net_amounts(campaign, requests).len() == requests.len(),
        after_donations(campaign, requests).unwrap() == campaign.with_raised(
            campaign.raised_amount + total(net_amounts(campaign, requests)),
        ),
        campaign.raised_amount == 0 ==> after_donations(campaign, requests).unwrap().raised_amount
            == total(net_amounts(campaign, requests)),
    decreases requests.len(),
{
    if requests.len() > 0 {
        lemma_raised_is_sum_of_net_amounts(campaign, requests.drop_last());
        let nets = net_amounts(campaign, requests);
        assert(nets.drop_last() =~= net_amounts(campaign, requests.drop_last()));
    }
}

/// What a campaign has raised never goes down: in a run of accepted donations, it has raised
/// at least as much after the whole run as after any number of its first donations, and
/// at least as much then as at the start.
pub proof fn lemma_raised_never_decreases(campaign: CampaignView, requests: Seq<Request>, k: int)
    requires
        after_donations(campaign, requests) is Some,
        0 <= k <= requests.len(),
    ensures
        after_donations(campaign, requests.take(k)) is Some,
        campaign.raised_amount <= after_donations(campaign, requests.take(k)).unwrap().raised_amount
            <= after_donations(campaign, requests).unwrap().raised_amount,
    decreases requests.len(),
{
    if k == requests.len() {
        assert(requests.take(k) =~= requests);
        lemma_raised_is_sum_of_net_amounts(campaign, requests);
    } else {
        lemma_raised_never_decreases(campaign, requests.drop_last(), k);
        assert(requests.drop_last().take(k) =~= requests.take(k));
    }
}

/// A campaign that is created keeps to the limits: its deadline lies between the shortest
/// and the longest duration after the time of creation, both included, its texts are no
/// longer than allowed, and it has raised nothing.
pub proof fn lemma_creation_keeps_the_limits(
    admin: AdminView,
    creator: Seq<u8>,
    title: Seq<char>,
    description: Seq<char>,
    goal: nat,
    deadline: int,
    now: int,
)
    requires
        creation_refused(admin, title, description, deadline, now) is None,
    ensures
        !admin.paused,
        now + MIN_CAMPAIGN_DURATION <= deadline <= now + MAX_CAMPAIGN_DURATION,
        created(creator, title, description, goal, deadline).well_formed(),
        created(creator, title, description, goal, deadline).raised_amount == 0,
        created(creator, title, description, goal, deadline).creator == creator,
{
}

/// A donation changes nothing of a campaign but what it has raised: the creator, the texts,
/// the goal and the deadline stay, and with the texts the limits on them.
pub proof fn lemma_donation_keeps_the_record(
    admin: AdminView,
    campaign: CampaignView,
    donor: Seq<u8>,
    amount: nat,
    now: int,
)
    requires
        donation_of(admin, campaign, donor, amount, now) is Ok,
    ensures
        ({
            let after = credited(campaign, donation_of(admin, campaign, donor, amount, now).unwrap());
            &&& after.creator == campaign.creator
            &&& after.title == campaign.title
            &&& after.description == campaign.description
            &&& after.goal == campaign.goal
            &&& after.deadline == campaign.deadline
            &&& after.raised_amount > campaign.raised_amount
            &&& after.well_formed() == campaign.well_formed()
        }),
{
}

/// A campaign takes donations before its deadline and gives out its balance after it, and
/// never both: no time admits a donation and a withdrawal, and every accepted donation is
/// earlier than every accepted withdrawal.
pub proof fn lemma_donations_end_before_withdrawals_begin(
    admin: AdminView,
    campaign: CampaignView,
    donor: Seq<u8>,
    amount: nat,
    donated_at: int,
    caller: Seq<u8>,
    balances: Balances,
    withdrawn_at: int,
)
    requires
        donation_of(admin, campaign, donor, amount, donated_at) is Ok,
        withdrawal_of(admin, campaign, caller, withdrawn_at, balances) is Ok,
    ensures
        donated_at < campaign.deadline < withdrawn_at,
{
}

/// A campaign that reaches its deadline without its goal is closed for good: from then on
/// every donation is refused, so that it never reaches the goal, and every withdrawal is
/// refused, so that what it holds stays where it is.
pub proof fn lemma_missed_goal_closes_the_campaign(
    admin: AdminView,
    campaign: CampaignView,
    caller: Seq<u8>,
    amount: nat,
    balances: Balances,
    now: int,
)
    requires
        campaign.deadline <= now,
        campaign.raised_amount < campaign.goal,
    ensures
        donation_of(admin, campaign, caller, amount, now) is Err,
        withdrawal_of(admin, campaign, caller, now, balances) is Err,
{
}

/// A campaign without a goal has reached it from the start: after its deadline its creator
/// can withdraw, whether or not anything was raised.
pub proof fn lemma_no_goal_is_always_reached(
    admin: AdminView,
    campaign: CampaignView,
    now: int,
    balances: Balances,
)
    requires
        campaign.goal == 0,
        !admin.paused,
        campaign.deadline < now,
        balances.creator + balances.campaign <= u64::MAX,
    ensures
        withdrawal_of(admin, campaign, campaign.creator, now, balances) is Ok,
{
}

/// An accepted donation is split without loss: the fee and the net amount make up the
/// amount, the net amount is not zero, and the fee is the one that [`fee_of`] gives.
pub proof fn lemma_donation_splits_amount(
    admin: AdminView,
    campaign: CampaignView,
    donor: Seq<u8>,
    amount: nat,
    now: int,
)
    requires
        donation_of(admin, campaign, donor, amount, now) is Ok,
    ensures
        ({
            let donation = donation_of(admin, campaign, donor, amount, now).unwrap();
            &&& donation.fee + donation.net_amount == amount
            &&& donation.net_amount > 0
            &&& donation.donor == donor
            &&& fee_of(amount, campaign.goal, campaign.raised_amount) == Ok::<nat, ErrorCode>(
                donation.fee,
            )
        }),
{
}

/// Until a campaign has raised more than its goal, a donation that comes in time is accepted
/// and costs the donor at most 2.50% in fees, as long as the amounts are not so large that
/// sixty-four bits cannot hold them.
pub proof fn lemma_donation_within_the_goal_is_accepted(
    admin: AdminView,
    campaign: CampaignView,
    donor: Seq<u8>,
    amount: nat,
    now: int,
)
    requires
        !admin.paused,
        now < campaign.deadline,
        0 < amount,
        campaign.raised_amount <= campaign.goal,
        amount * BASE_FEE_RATE_NUMERATOR as nat <= u64::MAX,
        campaign.raised_amount * PROGRESS_SCALE as nat <= u64::MAX,
        campaign.raised_amount + amount <= u64::MAX,
    ensures
        donation_of(admin, campaign, donor, amount, now) is Ok,
        donation_of(admin, campaign, donor, amount, now).unwrap().fee * 40 <= amount,
{
    lemma_progress_within_the_goal(campaign.goal, campaign.raised_amount);
    lemma_fee_within_the_goal(amount, campaign.goal, campaign.raised_amount);
    let step = fee_step(amount) as int;
    let reached = progress(campaign.goal, campaign.raised_amount) as int;
    assert(step * reached <= step * PROGRESS_SCALE) by (nonlinear_arith)
        requires
            0 <= reached <= PROGRESS_SCALE,
            0 <= step,
    ;
}

/// A donation whose fee takes up the whole amount is refused as invalid, when the contract
/// is not paused, the deadline has not come and the fee can be computed.
pub proof fn lemma_fee_not_covered_is_refused(
    admin: AdminView,
    campaign: CampaignView,
    donor: Seq<u8>,
    amount: nat,
    now: int,
)
    requires
        !admin.paused,
        now < campaign.deadline,
        fee_of(amount, campaign.goal, campaign.raised_amount) matches Ok(fee) && fee >= amount,
    ensures
        donation_of(admin, campaign, donor, amount, now) == Err::<DonationView, ErrorCode>(
            ErrorCode::InvalidDonationAmount,
        ),
{
}

/// While the contract is not paused: a withdrawal at or before the deadline is refused as
/// too early; one after the deadline from a campaign that has not raised its goal is refused
/// for that; one after the deadline from a campaign that has raised its goal, by another
/// than its creator, is refused as unauthorized.
pub proof fn lemma_withdrawal_refusals(
    admin: AdminView,
    campaign: CampaignView,
    caller: Seq<u8>,
    now: int,
    before: Balances,
)
    requires
        !admin.paused,
    ensures
        now <= campaign.deadline ==> withdrawal_of(admin, campaign, caller, now, before) == Err::<
            Balances,
            ErrorCode,
        >(ErrorCode::CampaignNotEnded),
        now > campaign.deadline && campaign.raised_amount < campaign.goal ==> withdrawal_of(
            admin,
            campaign,
            caller,
            now,
            before,
        ) == Err::<Balances, ErrorCode>(ErrorCode::GoalNotReached),
        now > campaign.deadline && campaign.raised_amount >= campaign.goal && caller
            != campaign.creator ==> withdrawal_of(admin, campaign, caller, now, before) == Err::<
            Balances,
            ErrorCode,
        >(ErrorCode::Unauthorized),
{
}

/// A withdrawal moves value without loss and leaves the campaign with nothing in custody.
/// Withdrawing again at any later time, while the contract is not paused, is accepted and
/// moves nothing.
pub proof fn lemma_withdrawal_empties_custody(
    admin: AdminView,
    campaign: CampaignView,
    caller: Seq<u8>,
    now: int,
    before: Balances,
    later: int,
)
    requires
        withdrawal_of(admin, campaign, caller, now, before) is Ok,
        now <= later,
    ensures
        ({
            let after = withdrawal_of(admin, campaign, caller, now, before).unwrap();
            &&& after.campaign == 0
            &&& after.creator == before.creator + before.campaign
            &&& withdrawal_of(admin, campaign, caller, later, after) == Ok::<Balances, ErrorCode>(
                after,
            )
        }),
{
}

/// The pause switch answers to the authority and to nobody else. A flip changes the pause
/// flag and nothing more, and a second flip restores the registry.
pub proof fn lemma_switch_answers_to_the_authority(admin: AdminView, caller: Seq<u8>)
    ensures
        caller != admin.authority ==> toggled(admin, caller) == Err::<AdminView, ErrorCode>(
            ErrorCode::Unauthorized,
        ),
        caller == admin.authority ==> toggled(admin, caller) == Ok::<AdminView, ErrorCode>(
            AdminView { paused: !admin.paused, ..admin },
        ),
        caller == admin.authority ==> toggled(toggled(admin, caller).unwrap(), caller) == Ok::<
            AdminView,
            ErrorCode,
        >(admin),
{
}

/// While the contract is paused, no campaign is created, donated to or withdrawn from,
/// whatever else holds of the request; the switch itself still answers to the authority.
pub proof fn lemma_pause_gates_everything(
    admin: AdminView,
    campaign: CampaignView,
    caller: Seq<u8>,
    title: Seq<char>,
    description: Seq<char>,
    deadline: int,
    amount: nat,
    now: int,
    balances: Balances,
)
    requires
        admin.paused,
    ensures
        creation_refused(admin, title, description, deadline, now) == Some(
            ErrorCode::ContractPaused,
        ),
        donation_of(admin, campaign, caller, amount, now) == Err::<DonationView, ErrorCode>(
            ErrorCode::ContractPaused,
        ),
        withdrawal_of(admin, campaign, caller, now, balances) == Err::<Balances, ErrorCode>(
            ErrorCode::ContractPaused,
        ),
        toggled(admin, admin.authority) == Ok::<AdminView, ErrorCode>(
            AdminView { paused: false, ..admin },
        ),
{
}

} // verus!
