use vstd::prelude::*;
use crate::create_campaign::{self as create, counted, create_check, CreateCampaign};
use crate::delete_campaign::{self as delete, delete_check, marked_deleted, DeleteCampaign};
use crate::donate::{self as donation, credited, fee_of, net_of, Donate, DonationSplit};
use crate::errors::ErrorCode;
use crate::initialize_platform::{self as init, InitializePlatform};
use crate::state::Platform;
use crate::update_campaign::{self as update, update_check, UpdateCampaign};
use crate::update_platform_settings::{self as settings, UpdatePlatformSettings};
use crate::withdraw::{self as withdrawal, withdraw_check, withdrawable, Withdraw};

verus! {

/// Creates the platform registry; see `initialize_platform_handler`.
pub fn initialize_platform(ctx: &mut InitializePlatform, fee_bps: u16, treasury_bump: u8) -> (r: ())
    ensures
        final(ctx).platform == (Platform {
            authority: old(ctx).payer,
            fee_bps,
            treasury: old(ctx).platform_key,
            campaign_count: 0,
            bump: old(ctx).platform_bump,
        }),
        final(ctx).payer == old(ctx).payer,
        final(ctx).platform_key == old(ctx).platform_key,
        final(ctx).platform_bump == old(ctx).platform_bump,
{
    init::initialize_platform_handler(ctx, fee_bps, treasury_bump)
}

/// Creates a campaign at time `now`; see `create_campaign_handler`.
pub fn create_campaign(
    ctx: &mut CreateCampaign,
    title: String,
    description: String,
    goal_lamports: u64,
    deadline_ts: i64,
    image_url: String,
    now: i64,
) -> (r: Result<(), ErrorCode>)
    requires
        old(ctx).platform.campaign_count < u64::MAX,
    ensures
        r == create_check(title@, description@, image_url@, goal_lamports, deadline_ts, now),
        r is Err ==> *final(ctx) == *old(ctx),
        r is Ok ==> final(ctx).platform == counted(old(ctx).platform),
        r is Ok ==> final(ctx).campaign.cid == final(ctx).platform.campaign_count,
        r is Ok ==> final(ctx).campaign.platform == old(ctx).platform_key,
        r is Ok ==> final(ctx).campaign.creator == old(ctx).payer,
        r is Ok ==> final(ctx).campaign.title@ == title@,
        r is Ok ==> final(ctx).campaign.description@ == description@,
        r is Ok ==> final(ctx).campaign.image_url@ == image_url@,
        r is Ok ==> final(ctx).campaign.goal_lamports == goal_lamports,
        r is Ok ==> final(ctx).campaign.raised_lamports == 0,
        r is Ok ==> final(ctx).campaign.deadline_ts == deadline_ts,
        r is Ok ==> final(ctx).campaign.donation_count == 0,
        r is Ok ==> !final(ctx).campaign.is_deleted,
        r is Ok ==> final(ctx).campaign.bump == old(ctx).campaign_bump,
        final(ctx).payer == old(ctx).payer,
        final(ctx).platform_key == old(ctx).platform_key,
        final(ctx).campaign_bump == old(ctx).campaign_bump,
{
    create::create_campaign_handler(ctx, title, description, goal_lamports, deadline_ts, image_url, now)
}

/// Records a donation; see `donate::handler`.
pub fn donate(ctx: &mut Donate, amount: u64) -> (r: Result<DonationSplit, ErrorCode>)
    ensures
        amount == 0 <==> r == Err::<DonationSplit, ErrorCode>(ErrorCode::InvalidAmount),
        amount == 0 ==> *final(ctx) == *old(ctx),
        amount > 0 ==> r == Ok::<DonationSplit, ErrorCode>(
            (DonationSplit {
                net: net_of(amount, old(ctx).platform.fee_bps),
                fee: fee_of(amount, old(ctx).platform.fee_bps),
            }),
        ),
        amount > 0 ==> final(ctx).campaign == credited(
            old(ctx).campaign,
            net_of(amount, old(ctx).platform.fee_bps),
        ),
        final(ctx).donor == old(ctx).donor,
        final(ctx).platform == old(ctx).platform,
        final(ctx).treasury == old(ctx).treasury,
{
    donation::handler(ctx, amount)
}

/// Withdraws at time `now` what the campaign holds above `min_balance`; see
/// `withdraw_handler`.
pub fn withdraw(ctx: &mut Withdraw, now: i64, min_balance: u64) -> (r: Result<(), ErrorCode>)
    requires
        old(ctx).creator_lamports + old(ctx).campaign_lamports <= u64::MAX,
    ensures
        r == withdraw_check(old(ctx).creator, old(ctx).campaign, now),
        r is Err ==> *final(ctx) == *old(ctx),
        r is Ok ==> final(ctx).campaign_lamports == old(ctx).campaign_lamports - withdrawable(
            old(ctx).campaign_lamports,
            min_balance,
        ),
        r is Ok ==> final(ctx).creator_lamports == old(ctx).creator_lamports + withdrawable(
            old(ctx).campaign_lamports,
            min_balance,
        ),
        final(ctx).creator == old(ctx).creator,
        final(ctx).campaign == old(ctx).campaign,
{
    withdrawal::withdraw_handler(ctx, now, min_balance)
}

/// Replaces a campaign's texts; see `update_campaign::handler`.
pub fn update_campaign(ctx: &mut UpdateCampaign, title: String, description: String, image_url: String) -> (r: Result<(), ErrorCode>)
    ensures
        r == update_check(old(ctx).creator, old(ctx).campaign, title@, description@, image_url@),
        r is Err ==> *final(ctx) == *old(ctx),
        r is Ok ==> final(ctx).campaign.title@ == title@,
        r is Ok ==> final(ctx).campaign.description@ == description@,
        r is Ok ==> final(ctx).campaign.image_url@ == image_url@,
        r is Ok ==> final(ctx).campaign.platform == old(ctx).campaign.platform,
        r is Ok ==> final(ctx).campaign.creator == old(ctx).campaign.creator,
        r is Ok ==> final(ctx).campaign.cid == old(ctx).campaign.cid,
        r is Ok ==> final(ctx).campaign.goal_lamports == old(ctx).campaign.goal_lamports,
        r is Ok ==> final(ctx).campaign.raised_lamports == old(ctx).campaign.raised_lamports,
        r is Ok ==> final(ctx).campaign.deadline_ts == old(ctx).campaign.deadline_ts,
        r is Ok ==> final(ctx).campaign.donation_count == old(ctx).campaign.donation_count,
        r is Ok ==> final(ctx).campaign.is_deleted == old(ctx).campaign.is_deleted,
        r is Ok ==> final(ctx).campaign.bump == old(ctx).campaign.bump,
        final(ctx).creator == old(ctx).creator,
{
    update::handler(ctx, title, description, image_url)
}

/// Soft-deletes a never-funded campaign; see `delete_campaign_handler`.
pub fn delete_campaign(ctx: &mut DeleteCampaign) -> (r: Result<(), ErrorCode>)
    ensures
        r == delete_check(old(ctx).creator, old(ctx).campaign),
        r is Err ==> *final(ctx) == *old(ctx),
        r is Ok ==> final(ctx).campaign == marked_deleted(old(ctx).campaign),
        final(ctx).creator == old(ctx).creator,
{
    delete::delete_campaign_handler(ctx)
}

/// Sets the fee rate; see `update_platform_settings_handler`.
pub fn update_platform_settings(ctx: &mut UpdatePlatformSettings, fee_bps: u16) -> (r: Result<(), ErrorCode>)
    ensures
        old(ctx).authority@ == old(ctx).platform.authority@ <==> r is Ok,
        r is Err ==> r == Err::<(), ErrorCode>(ErrorCode::Unauthorized) && *final(ctx) == *old(ctx),
        r is Ok ==> final(ctx).platform == (Platform { fee_bps, ..old(ctx).platform }),
        final(ctx).authority == old(ctx).authority,
{
    settings::update_platform_settings_handler(ctx, fee_bps)
}

} // verus!
