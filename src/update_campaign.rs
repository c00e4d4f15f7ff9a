use vstd::prelude::*;
use crate::create_campaign::{text_check, validate_text};
use crate::errors::ErrorCode;
use crate::state::{Campaign, Pubkey};

verus! {

/// The accounts a campaign update reads and writes.
pub struct UpdateCampaign {
    /// The signer who asks for the update.
    pub creator: Pubkey,
    /// The campaign to update.
    pub campaign: Campaign,
}

/// The verdict on an update asked by `caller` with the given texts.
pub open spec fn update_check(
    caller: Pubkey,
    c: Campaign,
    title: Seq<char>,
    description: Seq<char>,
    image_url: Seq<char>,
) -> Result<(), ErrorCode> {
    if caller@ != c.creator@ {
        Err(ErrorCode::Unauthorized)
    } else if c.is_deleted {
        Err(ErrorCode::CampaignDeleted)
    } else {
        text_check(title, description, image_url)
    }
}

/// Replaces the three text fields of a campaign.
///
/// Fails with `Unauthorized` when the signer is not the creator, then with
/// `CampaignDeleted` on a deleted campaign, then as `text_check` says on a text
/// over its bound. On success every other field is kept.
pub fn handler(ctx: &mut UpdateCampaign, title: String, description: String, image_url: String) -> (r: Result<(), ErrorCode>)
    ensures
        r == update_check(old(ctx).creator, old(ctx).campaign, title@, description@, image_url@),
        r is Err ==> *final(ctx) == *old(ctx),
        r is Ok ==> final(ctx).campaign.title@ == title@,
        r is Ok ==> final(ctx).campaign.description@ == description@,
        r is Ok ==> final(ctx).campaign.image_url@ == image_url@,
        r is Ok ==> final(ctx).campaign.platform == old(ctx).campaign.platform,
        r is Ok ==> final(ctx).campaign.creator == old(ctx).campaign.creator,
        r is Ok ==> final(ctx).campaign.cid == old(ctx).campaign.cid,
        r is Ok ==> final(ctx).campaign.goal_lamports == old(ctx).campaign.goal_lamports,
        r is Ok ==> final(ctx).campaign.raised_lamports == old(ctx).campaign.raised_lamports,
        r is Ok ==> final(ctx).campaign.deadline_ts == old(ctx).campaign.deadline_ts,
        r is Ok ==> final(ctx).campaign.donation_count == old(ctx).campaign.donation_count,
        r is Ok ==> final(ctx).campaign.is_deleted == old(ctx).campaign.is_deleted,
        r is Ok ==> final(ctx).campaign.bump == old(ctx).campaign.bump,
        final(ctx).creator == old(ctx).creator,
{
    if !ctx.creator.same_as(&ctx.campaign.creator) {
        return Err(ErrorCode::Unauthorized);
    }
    if ctx.campaign.is_deleted {
        return Err(ErrorCode::CampaignDeleted);
    }
    let checked = validate_text(&title, &description, &image_url);
    if checked.is_err() {
        return checked;
    }
    ctx.campaign.title = title;
    ctx.campaign.description = description;
    ctx.campaign.image_url = image_url;
    Ok(())
}

} // verus!
