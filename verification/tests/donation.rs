use crowdfunding::{donate, Admin, Campaign, Donate, Donation, ErrorCode, Identity};

const DEADLINE: i64 = 10_000;

fn donor() -> Identity {
    Identity::new([5u8; 32])
}

fn context(goal: u64, raised_amount: u64, paused: bool) -> Donate {
    Donate {
        campaign: Campaign {
            creator: Identity::new([3u8; 32]),
            title: String::from("well"),
            description: String::from("a well for the village"),
            goal,
            raised_amount,
            deadline: DEADLINE,
        },
        donor: donor(),
        admin: Admin { authority: Identity::new([1u8; 32]), paused },
    }
}

#[test]
fn first_donation_pays_the_base_fee() {
    let mut ctx = context(1000, 0, false);
    let r = donate(&mut ctx, 1000, 5000);
    assert_eq!(r, Ok(Donation { donor: donor(), fee: 20, net_amount: 980 }));
    assert_eq!(ctx.campaign.raised_amount, 980);
    let mut expected = context(1000, 0, false);
    expected.campaign.raised_amount = 980;
    assert_eq!(ctx, expected);
}

#[test]
fn second_donation_pays_for_the_progress() {
    let mut ctx = context(1000, 0, false);
    assert_eq!(donate(&mut ctx, 1000, 5000).map(|d| d.net_amount), Ok(980));
    let r = donate(&mut ctx, 1000, 5001);
    assert_eq!(r, Ok(Donation { donor: donor(), fee: 24, net_amount: 976 }));
    assert_eq!(ctx.campaign.raised_amount, 1956);
}

#[test]
fn raised_amount_is_the_sum_of_the_net_amounts() {
    let mut ctx = context(50_000, 0, false);
    let amounts = [1000u64, 20_000, 333, 50, 40_000, 1];
    let mut sum = 0u64;
    let mut now = 0;
    for amount in amounts {
        let before = ctx.campaign.raised_amount;
        let donation = donate(&mut ctx, amount, now).unwrap();
        assert_eq!(donation.fee + donation.net_amount, amount);
        assert!(ctx.campaign.raised_amount >= before);
        sum += donation.net_amount;
        assert_eq!(ctx.campaign.raised_amount, sum);
        now += 1000;
    }
    // fees: 20; 401 (progress 196, step 100, variable fee 1); 6; 1;
    // 883 (progress 4191, step 200, variable fee 83); 0
    assert_eq!(ctx.campaign.raised_amount, 980 + 19_599 + 327 + 49 + 39_117 + 1);
}

#[test]
fn donation_at_the_deadline_is_too_late() {
    let mut ctx = context(1000, 0, false);
    assert_eq!(donate(&mut ctx, 1000, DEADLINE), Err(ErrorCode::CampaignEnded));
    assert_eq!(donate(&mut ctx, 1000, DEADLINE + 1), Err(ErrorCode::CampaignEnded));
    assert_eq!(donate(&mut ctx, 1000, i64::MAX), Err(ErrorCode::CampaignEnded));
    assert_eq!(ctx, context(1000, 0, false));
    assert!(donate(&mut ctx, 1000, DEADLINE - 1).is_ok());
    assert!(donate(&mut ctx, 1000, i64::MIN).is_ok());
}

#[test]
fn no_donation_while_paused() {
    let mut ctx = context(1000, 0, true);
    assert_eq!(donate(&mut ctx, 1000, 5000), Err(ErrorCode::ContractPaused));
    assert_eq!(ctx, context(1000, 0, true));
}

#[test]
fn fee_that_takes_everything_is_refused() {
    // progress 18446744073709550000, step 1: the fee is 1844674407370959
    let raised = u64::MAX / 10_000;
    let mut ctx = context(1, raised, false);
    assert_eq!(donate(&mut ctx, 200, 5000), Err(ErrorCode::InvalidDonationAmount));
    assert_eq!(ctx.campaign.raised_amount, raised);
    assert_eq!(ctx, context(1, raised, false));
}

#[test]
fn fee_equal_to_the_amount_is_refused() {
    // progress 490000: on 200, base 4, step 1, variable fee 49; on 10000, base 200,
    // step 50, variable fee 2450
    let mut ctx = context(100, 4900, false);
    assert_eq!(donate(&mut ctx, 53, 5000), Ok(Donation { donor: donor(), fee: 1, net_amount: 52 }));
    let mut ctx = context(1, 200, false);
    // progress 2000000: base 4, step 1, variable fee 200: fee 204 on 200
    assert_eq!(donate(&mut ctx, 200, 5000), Err(ErrorCode::InvalidDonationAmount));
    // progress 1960000: base 4, step 1, variable fee 196: fee 200 on 200
    let mut ctx = context(1, 196, false);
    assert_eq!(donate(&mut ctx, 200, 5000), Err(ErrorCode::InvalidDonationAmount));
    assert_eq!(ctx, context(1, 196, false));
    // progress 1950000: base 4, step 1, variable fee 195: fee 199 on 200
    let mut ctx = context(1, 195, false);
    assert_eq!(donate(&mut ctx, 200, 5000), Ok(Donation { donor: donor(), fee: 199, net_amount: 1 }));
    assert_eq!(ctx.campaign.raised_amount, 196);
}

#[test]
fn donation_of_nothing_is_refused() {
    let mut ctx = context(1000, 0, false);
    assert_eq!(donate(&mut ctx, 0, 5000), Err(ErrorCode::InvalidDonationAmount));
    assert_eq!(ctx, context(1000, 0, false));
}

#[test]
fn smallest_donation_pays_no_fee() {
    let mut ctx = context(1000, 0, false);
    assert_eq!(donate(&mut ctx, 1, 5000), Ok(Donation { donor: donor(), fee: 0, net_amount: 1 }));
    assert_eq!(ctx.campaign.raised_amount, 1);
}

#[test]
fn fee_that_cannot_be_computed_refuses_the_donation() {
    let mut ctx = context(1000, 0, false);
    assert_eq!(donate(&mut ctx, u64::MAX, 5000), Err(ErrorCode::MathOverflow));
    assert_eq!(ctx, context(1000, 0, false));
}

#[test]
fn raised_amount_that_would_not_fit_refuses_the_donation() {
    let mut ctx = context(0, u64::MAX - 979, false);
    assert_eq!(donate(&mut ctx, 1000, 5000), Err(ErrorCode::MathOverflow));
    assert_eq!(ctx, context(0, u64::MAX - 979, false));
    let mut ctx = context(0, u64::MAX - 980, false);
    assert_eq!(donate(&mut ctx, 1000, 5000), Ok(Donation { donor: donor(), fee: 20, net_amount: 980 }));
    assert_eq!(ctx.campaign.raised_amount, u64::MAX);
}

#[test]
fn first_failed_condition_of_a_donation_is_reported() {
    let mut ctx = context(1000, 0, true);
    assert_eq!(donate(&mut ctx, 0, DEADLINE), Err(ErrorCode::ContractPaused));
    assert_eq!(donate(&mut ctx, u64::MAX, DEADLINE), Err(ErrorCode::ContractPaused));
    let mut ctx = context(1000, 0, false);
    assert_eq!(donate(&mut ctx, 0, DEADLINE), Err(ErrorCode::CampaignEnded));
    assert_eq!(donate(&mut ctx, u64::MAX, DEADLINE), Err(ErrorCode::CampaignEnded));
    assert_eq!(donate(&mut ctx, u64::MAX, 0), Err(ErrorCode::MathOverflow));
    assert_eq!(donate(&mut ctx, 0, 0), Err(ErrorCode::InvalidDonationAmount));
}

#[test]
fn donation_names_its_donor() {
    let mut ctx = context(1000, 0, false);
    ctx.donor = Identity::new([42u8; 32]);
    let donation = donate(&mut ctx, 500, 1).unwrap();
    assert_eq!(donation.donor, Identity::new([42u8; 32]));
    assert_eq!(ctx.donor, Identity::new([42u8; 32]));
}
