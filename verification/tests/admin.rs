use crowdfunding::{
    authorize, create_campaign, donate, initialize, toggle_pause, withdraw, Admin, Campaign,
    CreateCampaign, Donate, ErrorCode, Identity, Initialize, TogglePause, Withdraw,
};

fn authority() -> Identity {
    Identity::new([1u8; 32])
}

fn campaign() -> Campaign {
    Campaign {
        creator: Identity::new([3u8; 32]),
        title: String::from("well"),
        description: String::from("a well for the village"),
        goal: 1000,
        raised_amount: 1956,
        deadline: 10_000,
    }
}

#[test]
fn registry_starts_unpaused_in_the_callers_hand() {
    let mut ctx = Initialize {
        admin: Admin { authority: Identity::new([0u8; 32]), paused: true },
        authority: authority(),
    };
    assert_eq!(initialize(&mut ctx), Ok(()));
    assert_eq!(ctx.admin, Admin { authority: authority(), paused: false });
    assert_eq!(ctx.authority, authority());
}

#[test]
fn authority_flips_the_switch() {
    let mut ctx = TogglePause {
        admin: Admin { authority: authority(), paused: false },
        authority: authority(),
    };
    assert_eq!(toggle_pause(&mut ctx), Ok(()));
    assert_eq!(ctx.admin, Admin { authority: authority(), paused: true });
    assert_eq!(toggle_pause(&mut ctx), Ok(()));
    assert_eq!(ctx.admin, Admin { authority: authority(), paused: false });
}

#[test]
fn nobody_else_flips_the_switch() {
    for paused in [false, true] {
        let mut ctx = TogglePause {
            admin: Admin { authority: authority(), paused },
            authority: Identity::new([2u8; 32]),
        };
        assert_eq!(toggle_pause(&mut ctx), Err(ErrorCode::Unauthorized));
        assert_eq!(ctx.admin, Admin { authority: authority(), paused });
    }
}

#[test]
fn guard_passes_the_principal_alone() {
    let mut other = [1u8; 32];
    other[31] = 0;
    assert_eq!(authorize(&authority(), &authority()), Ok(()));
    assert_eq!(authorize(&Identity::new(other), &authority()), Err(ErrorCode::Unauthorized));
    assert_eq!(authorize(&authority(), &Identity::new(other)), Err(ErrorCode::Unauthorized));
}

#[test]
fn admin_guard_follows_the_switch() {
    assert_eq!(Admin { authority: authority(), paused: false }.require_active(), Ok(()));
    assert_eq!(
        Admin { authority: authority(), paused: true }.require_active(),
        Err(ErrorCode::ContractPaused)
    );
}

#[test]
fn identity_keeps_its_bytes() {
    let mut bytes = [0u8; 32];
    for i in 0..32 {
        bytes[i] = i as u8;
    }
    let id = Identity::new(bytes);
    assert_eq!(id.to_bytes(), bytes);
    assert_eq!(id, Identity::new(bytes));
    bytes[17] = 0;
    assert_ne!(id, Identity::new(bytes));
}

#[test]
fn pause_gates_every_operation_and_resuming_opens_them() {
    let mut switch = TogglePause {
        admin: Admin { authority: authority(), paused: false },
        authority: authority(),
    };
    assert_eq!(toggle_pause(&mut switch), Ok(()));
    let paused = switch.admin;
    assert!(paused.paused);

    let mut creation = CreateCampaign {
        campaign: campaign(),
        creator: Identity::new([3u8; 32]),
        admin: paused,
    };
    let r = create_campaign(&mut creation, String::from("t"), String::from("d"), 1, 4000, 0);
    assert_eq!(r, Err(ErrorCode::ContractPaused));
    assert_eq!(creation.campaign, campaign());

    let mut donation = Donate { campaign: campaign(), donor: Identity::new([5u8; 32]), admin: paused };
    assert_eq!(donate(&mut donation, 1000, 5000), Err(ErrorCode::ContractPaused));
    assert_eq!(donation.campaign, campaign());

    let mut withdrawal = Withdraw {
        campaign: campaign(),
        campaign_balance: 2500,
        creator: Identity::new([3u8; 32]),
        creator_balance: 100,
        admin: paused,
    };
    assert_eq!(withdraw(&mut withdrawal, 10_001), Err(ErrorCode::ContractPaused));
    assert_eq!(withdrawal.campaign_balance, 2500);
    assert_eq!(withdrawal.creator_balance, 100);

    // the switch still answers while the contract is paused
    assert_eq!(toggle_pause(&mut switch), Ok(()));
    assert!(!switch.admin.paused);
    creation.admin = switch.admin;
    donation.admin = switch.admin;
    withdrawal.admin = switch.admin;
    // progress 19560, step 5, variable fee 9
    assert_eq!(donate(&mut donation, 1000, 5000).map(|d| d.fee), Ok(29));
    assert_eq!(withdraw(&mut withdrawal, 10_001), Ok(()));
    let r = create_campaign(&mut creation, String::from("t"), String::from("d"), 1, 4000, 0);
    assert_eq!(r, Ok(()));
}

#[test]
fn blank_records_are_empty() {
    assert_eq!(Identity::default(), Identity::new([0u8; 32]));
    assert_eq!(Admin::default(), Admin { authority: Identity::new([0u8; 32]), paused: false });
    assert_eq!(
        Campaign::default(),
        Campaign {
            creator: Identity::new([0u8; 32]),
            title: String::new(),
            description: String::new(),
            goal: 0,
            raised_amount: 0,
            deadline: 0,
        }
    );
}

#[test]
fn creation_fills_in_a_blank_record() {
    let mut registry = Initialize { admin: Admin::default(), authority: authority() };
    assert_eq!(initialize(&mut registry), Ok(()));
    let mut creation = CreateCampaign {
        campaign: Campaign::default(),
        creator: Identity::new([3u8; 32]),
        admin: registry.admin,
    };
    let r = create_campaign(
        &mut creation,
        String::from("well"),
        String::from("a well for the village"),
        1000,
        10_000,
        0,
    );
    assert_eq!(r, Ok(()));
    let mut expected = campaign();
    expected.raised_amount = 0;
    assert_eq!(creation.campaign, expected);
}
