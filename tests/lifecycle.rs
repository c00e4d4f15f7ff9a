use salina_hive::constants::{DESC_MAX_LEN, TITLE_MAX_LEN, URL_MAX_LEN};
use salina_hive::create_campaign::{create_campaign_handler, validate_text, CreateCampaign};
use salina_hive::delete_campaign::{delete_campaign_handler, DeleteCampaign};
use salina_hive::donate::{compute_split, handler as donate_handler, Donate, DonationSplit};
use salina_hive::errors::ErrorCode;
use salina_hive::initialize_platform::{initialize_platform_handler, InitializePlatform};
use salina_hive::state::{Campaign, Platform, Pubkey};
use salina_hive::update_campaign::{handler as update_handler, UpdateCampaign};
use salina_hive::update_platform_settings::{update_platform_settings_handler, UpdatePlatformSettings};
use salina_hive::withdraw::{evaluate_withdrawal, withdraw_handler, Withdraw};

const NOW: i64 = 1_700_000_000;

fn key(b: u8) -> Pubkey {
    Pubkey::new_from_array([b; 32])
}

fn blank_platform() -> Platform {
    Platform { authority: key(0), fee_bps: 0, treasury: key(0), campaign_count: 0, bump: 0 }
}

fn blank_campaign() -> Campaign {
    Campaign {
        platform: key(0),
        creator: key(0),
        cid: 0,
        title: String::new(),
        description: String::new(),
        image_url: String::new(),
        goal_lamports: 0,
        raised_lamports: 0,
        deadline_ts: 0,
        donation_count: 0,
        is_deleted: false,
        bump: 0,
    }
}

fn platform_with_fee(fee_bps: u16) -> Platform {
    let mut ctx = InitializePlatform { payer: key(9), platform_key: key(7), platform: blank_platform(), platform_bump: 254 };
    initialize_platform_handler(&mut ctx, fee_bps, 0);
    ctx.platform
}

fn create(platform: Platform, creator: Pubkey, goal: u64, deadline: i64) -> (Platform, Campaign) {
    let mut ctx = CreateCampaign {
        payer: creator,
        platform_key: key(7),
        platform,
        campaign: blank_campaign(),
        campaign_bump: 253,
    };
    let r = create_campaign_handler(
        &mut ctx,
        "Clean water".to_string(),
        "Wells for the village".to_string(),
        goal,
        deadline,
        "https://example.org/w.png".to_string(),
        NOW,
    );
    assert_eq!(r, Ok(()));
    (ctx.platform, ctx.campaign)
}

fn donate(platform: Platform, campaign: Campaign, amount: u64) -> (Campaign, Result<DonationSplit, ErrorCode>) {
    let mut ctx = Donate { donor: key(3), platform, campaign, treasury: platform.treasury };
    let r = donate_handler(&mut ctx, amount);
    (ctx.campaign, r)
}

#[test]
fn initialize_sets_authority_and_self_treasury() {
    let p = platform_with_fee(250);
    assert_eq!(p.authority.bytes, [9; 32]);
    assert_eq!(p.treasury.bytes, [7; 32]);
    assert_eq!(p.fee_bps, 250);
    assert_eq!(p.campaign_count, 0);
    assert_eq!(p.bump, 254);
}

#[test]
fn scenario_small_donation_not_withdrawable() {
    let (p, c) = create(platform_with_fee(250), key(1), 1000, NOW + 100);
    let (c, r) = donate(p, c, 500);
    assert_eq!(r, Ok(DonationSplit { net: 488, fee: 12 }));
    assert_eq!(c.raised_lamports, 488);
    assert_eq!(c.donation_count, 1);
    assert!(!evaluate_withdrawal(&c, NOW));
}

#[test]
fn scenario_goal_reached_then_withdraw() {
    let (p, c) = create(platform_with_fee(250), key(1), 1000, NOW + 100);
    let (c, _) = donate(p, c, 500);
    let (c, r) = donate(p, c, 600);
    assert_eq!(r, Ok(DonationSplit { net: 585, fee: 15 }));
    assert_eq!(c.raised_lamports, 1073);
    assert_eq!(c.donation_count, 2);
    assert!(evaluate_withdrawal(&c, NOW));
    let mut w = Withdraw { creator: key(1), creator_lamports: 50, campaign: c, campaign_lamports: 2000 + 1073 };
    assert_eq!(withdraw_handler(&mut w, NOW, 2000), Ok(()));
    assert_eq!(w.campaign_lamports, 2000);
    assert_eq!(w.creator_lamports, 1123);
    assert_eq!(w.campaign.raised_lamports, 1073);
    assert!(!w.campaign.is_deleted);
}

#[test]
fn scenario_delete_before_donation() {
    let (_, c) = create(platform_with_fee(250), key(1), 1000, NOW + 100);
    let mut d = DeleteCampaign { creator: key(1), campaign: c };
    assert_eq!(delete_campaign_handler(&mut d), Ok(()));
    assert!(d.campaign.is_deleted);
}

#[test]
fn scenario_delete_after_donation_refused() {
    let (p, c) = create(platform_with_fee(250), key(1), 1000, NOW + 100);
    let (c, _) = donate(p, c, 500);
    let mut d = DeleteCampaign { creator: key(1), campaign: c };
    assert_eq!(delete_campaign_handler(&mut d), Err(ErrorCode::WithdrawNotAllowed));
    assert!(!d.campaign.is_deleted);
}

#[test]
fn scenario_update_title_too_long() {
    let (_, c) = create(platform_with_fee(250), key(1), 1000, NOW + 100);
    let mut u = UpdateCampaign { creator: key(1), campaign: c };
    let long = "t".repeat(TITLE_MAX_LEN + 1);
    let r = update_handler(&mut u, long, "new".to_string(), "new".to_string());
    assert_eq!(r, Err(ErrorCode::TitleTooLong));
    assert_eq!(u.campaign.title, "Clean water");
    assert_eq!(u.campaign.description, "Wells for the village");
    assert_eq!(u.campaign.image_url, "https://example.org/w.png");
}

#[test]
fn creation_ids_follow_counter() {
    let mut p = platform_with_fee(0);
    for expected in 1..=5u64 {
        let (np, c) = create(p, key(1), 10, NOW + 1);
        assert_eq!(c.cid, expected);
        assert_eq!(np.campaign_count, expected);
        p = np;
    }
}

#[test]
fn creation_sets_fields() {
    let (p, c) = create(platform_with_fee(100), key(4), 77, NOW + 5);
    assert_eq!(p.campaign_count, 1);
    assert_eq!(c.creator.bytes, [4; 32]);
    assert_eq!(c.platform.bytes, [7; 32]);
    assert_eq!(c.title, "Clean water");
    assert_eq!(c.goal_lamports, 77);
    assert_eq!(c.deadline_ts, NOW + 5);
    assert_eq!(c.raised_lamports, 0);
    assert_eq!(c.donation_count, 0);
    assert!(!c.is_deleted);
    assert_eq!(c.bump, 253);
}

fn create_with(title: String, description: String, url: String, goal: u64, deadline: i64) -> (Result<(), ErrorCode>, CreateCampaign) {
    let mut ctx = CreateCampaign {
        payer: key(1),
        platform_key: key(7),
        platform: platform_with_fee(0),
        campaign: blank_campaign(),
        campaign_bump: 1,
    };
    let r = create_campaign_handler(&mut ctx, title, description, goal, deadline, url, NOW);
    (r, ctx)
}

#[test]
fn creation_errors() {
    let ok = || "x".to_string();
    let (r, ctx) = create_with("t".repeat(TITLE_MAX_LEN + 1), ok(), ok(), 1, NOW + 1);
    assert_eq!(r, Err(ErrorCode::TitleTooLong));
    assert_eq!(ctx.platform.campaign_count, 0);
    let (r, _) = create_with(ok(), "d".repeat(DESC_MAX_LEN + 1), ok(), 1, NOW + 1);
    assert_eq!(r, Err(ErrorCode::DescriptionTooLong));
    let (r, _) = create_with(ok(), ok(), "u".repeat(URL_MAX_LEN + 1), 1, NOW + 1);
    assert_eq!(r, Err(ErrorCode::UrlTooLong));
    let (r, _) = create_with(ok(), ok(), ok(), 0, NOW + 1);
    assert_eq!(r, Err(ErrorCode::InvalidAmount));
    let (r, ctx) = create_with(ok(), ok(), ok(), 1, NOW);
    assert_eq!(r, Err(ErrorCode::DeadlineInPast));
    assert_eq!(ctx.platform.campaign_count, 0);
    assert_eq!(ctx.campaign.cid, 0);
    // the first failing bound is reported
    let (r, _) = create_with("t".repeat(TITLE_MAX_LEN + 1), ok(), ok(), 0, NOW - 1);
    assert_eq!(r, Err(ErrorCode::TitleTooLong));
}

#[test]
fn text_bounds_count_bytes() {
    let at_limit = "t".repeat(TITLE_MAX_LEN);
    assert_eq!(validate_text(&at_limit, &String::new(), &String::new()), Ok(()));
    // each 'é' takes two bytes in UTF-8
    let wide = "é".repeat(TITLE_MAX_LEN / 2 + 1);
    assert!(wide.chars().count() <= TITLE_MAX_LEN);
    assert_eq!(validate_text(&wide, &String::new(), &String::new()), Err(ErrorCode::TitleTooLong));
}

#[test]
fn donation_zero_amount_rejected() {
    let (p, c) = create(platform_with_fee(250), key(1), 1000, NOW + 100);
    let (c, r) = donate(p, c, 0);
    assert_eq!(r, Err(ErrorCode::InvalidAmount));
    assert_eq!(c.raised_lamports, 0);
    assert_eq!(c.donation_count, 0);
}

#[test]
fn fee_split_values() {
    assert_eq!(compute_split(500, 250), DonationSplit { net: 488, fee: 12 });
    assert_eq!(compute_split(1, 0), DonationSplit { net: 1, fee: 0 });
    assert_eq!(compute_split(777, 10000), DonationSplit { net: 0, fee: 777 });
    assert_eq!(compute_split(u64::MAX, 10000), DonationSplit { net: 0, fee: u64::MAX });
    assert_eq!(compute_split(10000, 20000), DonationSplit { net: 0, fee: 20000 });
    // a fee wider than 64 bits keeps its low 64 bits
    let wide = (u64::MAX as u128) * 65535 / 10000;
    assert_eq!(compute_split(u64::MAX, 65535), DonationSplit { net: u64::MAX - (wide as u64), fee: wide as u64 });
    for fee_bps in [0u16, 1, 250, 9999, 10000] {
        for amount in [1u64, 3, 999, 123_456_789, u64::MAX] {
            let s = compute_split(amount, fee_bps);
            assert!(s.fee <= amount);
            assert_eq!(s.fee + s.net, amount);
        }
    }
}

#[test]
fn donations_add_up_and_saturate() {
    let (p, c) = create(platform_with_fee(0), key(1), 1000, NOW + 100);
    let (c, _) = donate(p, c, 10);
    let (c, _) = donate(p, c, 20);
    let (c, _) = donate(p, c, 30);
    assert_eq!(c.raised_lamports, 60);
    assert_eq!(c.donation_count, 3);
    let (c, _) = donate(p, c, u64::MAX);
    assert_eq!(c.raised_lamports, u64::MAX);
    assert_eq!(c.donation_count, 4);
    let full = Campaign { donation_count: u64::MAX, ..c };
    let (c, _) = donate(p, full, 1);
    assert_eq!(c.donation_count, u64::MAX);
}

#[test]
fn full_fee_leaves_campaign_deletable() {
    let (p, c) = create(platform_with_fee(10000), key(1), 1000, NOW + 100);
    let (c, r) = donate(p, c, 500);
    assert_eq!(r, Ok(DonationSplit { net: 0, fee: 500 }));
    assert_eq!(c.raised_lamports, 0);
    let mut d = DeleteCampaign { creator: key(1), campaign: c };
    assert_eq!(delete_campaign_handler(&mut d), Ok(()));
}

#[test]
fn withdrawal_eligibility_in_time() {
    let (_, c) = create(platform_with_fee(0), key(1), 1000, NOW + 100);
    assert!(!evaluate_withdrawal(&c, NOW + 99));
    assert!(evaluate_withdrawal(&c, NOW + 100));
    assert!(evaluate_withdrawal(&c, NOW + 1000));
    assert!(evaluate_withdrawal(&c, i64::MAX));
}

#[test]
fn withdraw_refusals_and_floor() {
    let (p, c) = create(platform_with_fee(0), key(1), 1000, NOW + 100);
    let (c, _) = donate(p, c, 10);
    let mut w = Withdraw { creator: key(1), creator_lamports: 5, campaign: c.clone(), campaign_lamports: 500 };
    assert_eq!(withdraw_handler(&mut w, NOW, 100), Err(ErrorCode::WithdrawNotAllowed));
    assert_eq!(w.campaign_lamports, 500);
    let mut w = Withdraw { creator: key(2), creator_lamports: 5, campaign: c.clone(), campaign_lamports: 500 };
    assert_eq!(withdraw_handler(&mut w, NOW + 100, 100), Err(ErrorCode::Unauthorized));
    assert_eq!(w.creator_lamports, 5);
    // past the deadline, at or below the floor nothing moves
    let mut w = Withdraw { creator: key(1), creator_lamports: 5, campaign: c.clone(), campaign_lamports: 100 };
    assert_eq!(withdraw_handler(&mut w, NOW + 100, 100), Ok(()));
    assert_eq!((w.campaign_lamports, w.creator_lamports), (100, 5));
    let mut w = Withdraw { creator: key(1), creator_lamports: 5, campaign: c, campaign_lamports: 130 };
    assert_eq!(withdraw_handler(&mut w, NOW + 100, 100), Ok(()));
    assert_eq!((w.campaign_lamports, w.creator_lamports), (100, 35));
    // a second call moves only what came since
    assert_eq!(withdraw_handler(&mut w, NOW + 100, 100), Ok(()));
    assert_eq!((w.campaign_lamports, w.creator_lamports), (100, 35));
}

#[test]
fn non_creator_is_unauthorized() {
    let (p, c) = create(platform_with_fee(0), key(1), 1, NOW + 100);
    let (c, _) = donate(p, c, 5);
    let mut u = UpdateCampaign { creator: key(2), campaign: c.clone() };
    assert_eq!(update_handler(&mut u, "a".to_string(), "b".to_string(), "c".to_string()), Err(ErrorCode::Unauthorized));
    let mut w = Withdraw { creator: key(2), creator_lamports: 0, campaign: c.clone(), campaign_lamports: 100 };
    assert_eq!(withdraw_handler(&mut w, NOW + 1000, 0), Err(ErrorCode::Unauthorized));
    let fresh = Campaign { raised_lamports: 0, ..c };
    let mut d = DeleteCampaign { creator: key(2), campaign: fresh };
    assert_eq!(delete_campaign_handler(&mut d), Err(ErrorCode::Unauthorized));
    assert!(!d.campaign.is_deleted);
}

#[test]
fn update_replaces_texts_only() {
    let (p, c) = create(platform_with_fee(0), key(1), 1000, NOW + 100);
    let (c, _) = donate(p, c, 40);
    let mut u = UpdateCampaign { creator: key(1), campaign: c };
    let r = update_handler(&mut u, "Title".to_string(), "Desc".to_string(), "Url".to_string());
    assert_eq!(r, Ok(()));
    assert_eq!(u.campaign.title, "Title");
    assert_eq!(u.campaign.description, "Desc");
    assert_eq!(u.campaign.image_url, "Url");
    assert_eq!(u.campaign.raised_lamports, 40);
    assert_eq!(u.campaign.donation_count, 1);
    assert_eq!(u.campaign.goal_lamports, 1000);
    assert_eq!(u.campaign.cid, 1);
}

#[test]
fn update_of_deleted_campaign_refused() {
    let (_, c) = create(platform_with_fee(0), key(1), 1000, NOW + 100);
    let mut d = DeleteCampaign { creator: key(1), campaign: c };
    assert_eq!(delete_campaign_handler(&mut d), Ok(()));
    let mut u = UpdateCampaign { creator: key(1), campaign: d.campaign };
    let r = update_handler(&mut u, "Title".to_string(), "Desc".to_string(), "Url".to_string());
    assert_eq!(r, Err(ErrorCode::CampaignDeleted));
    assert_eq!(u.campaign.title, "Clean water");
}

#[test]
fn fee_update_needs_authority() {
    let p = platform_with_fee(250);
    let mut s = UpdatePlatformSettings { authority: key(2), platform: p };
    assert_eq!(update_platform_settings_handler(&mut s, 500), Err(ErrorCode::Unauthorized));
    assert_eq!(s.platform.fee_bps, 250);
    let mut s = UpdatePlatformSettings { authority: key(9), platform: p };
    assert_eq!(update_platform_settings_handler(&mut s, 20000), Ok(()));
    assert_eq!(s.platform.fee_bps, 20000);
    assert_eq!(s.platform.campaign_count, 0);
    assert_eq!(s.platform.treasury.bytes, [7; 32]);
}

#[test]
fn keys_compare_by_bytes() {
    let mut b = [1u8; 32];
    assert!(key(1).same_as(&Pubkey::new_from_array(b)));
    b[31] = 2;
    assert!(!key(1).same_as(&Pubkey::new_from_array(b)));
}
