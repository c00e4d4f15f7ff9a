use vstd::prelude::*;
use crate::constants::{DESC_MAX_LEN, TITLE_MAX_LEN, URL_MAX_LEN};
use crate::errors::ErrorCode;
use crate::state::{byte_len, Campaign, Platform, Pubkey};

verus! {

/// The accounts a campaign creation reads and writes.
pub struct CreateCampaign {
    /// The signer who creates the campaign and becomes its creator.
    pub payer: Pubkey,
    /// The address of the platform registry.
    pub platform_key: Pubkey,
    /// The registry whose counter gives the new id.
    pub platform: Platform,
    /// The new campaign record, written on success.
    pub campaign: Campaign,
    /// Bump seed of the new campaign's address.
    pub campaign_bump: u8,
}

/// The verdict on the three text fields of a campaign: the first bound that is
/// exceeded, in the order title, description, image URL.
pub open spec fn text_check(title: Seq<char>, description: Seq<char>, image_url: Seq<char>) -> Result<(), ErrorCode> {
    if byte_len(title) > TITLE_MAX_LEN {
        Err(ErrorCode::TitleTooLong)
    } else if byte_len(description) > DESC_MAX_LEN {
        Err(ErrorCode::DescriptionTooLong)
    } else if byte_len(image_url) > URL_MAX_LEN {
        Err(ErrorCode::UrlTooLong)
    } else {
        Ok(())
    }
}

/// The verdict on the arguments of a campaign creation at time `now`.
pub open spec fn create_check(
    title: Seq<char>,
    description: Seq<char>,
    image_url: Seq<char>,
    goal_lamports: u64,
    deadline_ts: i64,
    now: i64,
) -> Result<(), ErrorCode> {
    if text_check(title, description, image_url) is Err {
        text_check(title, description, image_url)
    } else if goal_lamports == 0 {
        Err(ErrorCode::InvalidAmount)
    } else if deadline_ts <= now {
        Err(ErrorCode::DeadlineInPast)
    } else {
        Ok(())
    }
}

/// The registry once a campaign has been created under it.
pub open spec fn counted(p: Platform) -> Platform {
    Platform { campaign_count: (p.campaign_count + 1) as u64, ..p }
}

/// Checks the byte lengths of a campaign's text fields against their bounds.
pub fn validate_text(title: &String, description: &String, image_url: &String) -> (r: Result<(), ErrorCode>)
    ensures
        r == text_check(title@, description@, image_url@),
{
    if title.as_str().as_bytes().len() > TITLE_MAX_LEN {
        return Err(ErrorCode::TitleTooLong);
    }
    if description.as_str().as_bytes().len() > DESC_MAX_LEN {
        return Err(ErrorCode::DescriptionTooLong);
    }
    if image_url.as_str().as_bytes().len() > URL_MAX_LEN {
        return Err(ErrorCode::UrlTooLong);
    }
    Ok(())
}

/// Creates a campaign at time `now`.
///
/// On success the campaign gets the id `campaign_count + 1`, which the registry
/// then holds as its count; the payer becomes the creator, and the raised total,
/// the donation count and the deletion flag start cleared. On an error, given by
/// `create_check`, nothing changes.
pub fn create_campaign_handler(
    ctx: &mut CreateCampaign,
    title: String,
    description: String,
    goal_lamports: u64,
    deadline_ts: i64,
    image_url: String,
    now: i64,
) -> (r: Result<(), ErrorCode>)
    requires
        old(ctx).platform.campaign_count < u64::MAX,
    ensures
        r == create_check(title@, description@, image_url@, goal_lamports, deadline_ts, now),
        r is Err ==> *final(ctx) == *old(ctx),
        r is Ok ==> final(ctx).platform == counted(old(ctx).platform),
        r is Ok ==> final(ctx).campaign.cid == final(ctx).platform.campaign_count,
        r is Ok ==> final(ctx).campaign.platform == old(ctx).platform_key,
        r is Ok ==> final(ctx).campaign.creator == old(ctx).payer,
        r is Ok ==> final(ctx).campaign.title@ == title@,
        r is Ok ==> final(ctx).campaign.description@ == description@,
        r is Ok ==> final(ctx).campaign.image_url@ == image_url@,
        r is Ok ==> final(ctx).campaign.goal_lamports == goal_lamports,
        r is Ok ==> final(ctx).campaign.raised_lamports == 0,
        r is Ok ==> final(ctx).campaign.deadline_ts == deadline_ts,
        r is Ok ==> final(ctx).campaign.donation_count == 0,
        r is Ok ==> !final(ctx).campaign.is_deleted,
        r is Ok ==> final(ctx).campaign.bump == old(ctx).campaign_bump,
        final(ctx).payer == old(ctx).payer,
        final(ctx).platform_key == old(ctx).platform_key,
        final(ctx).campaign_bump == old(ctx).campaign_bump,
{
    let checked = validate_text(&title, &description, &image_url);
    if checked.is_err() {
        return checked;
    }
    if goal_lamports == 0 {
        return Err(ErrorCode::InvalidAmount);
    }
    if deadline_ts <= now {
        return Err(ErrorCode::DeadlineInPast);
    }
    let next_id: u64 = ctx.platform.campaign_count + 1;
    ctx.campaign = Campaign {
        platform: ctx.platform_key,
        creator: ctx.payer,
        cid: next_id,
        title,
        description,
        image_url,
        goal_lamports,
        raised_lamports: 0,
        deadline_ts,
        donation_count: 0,
        is_deleted: false,
        bump: ctx.campaign_bump,
    };
    ctx.platform.campaign_count = next_id;
    Ok(())
}

} // verus!
