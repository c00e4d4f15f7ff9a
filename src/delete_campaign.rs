use vstd::prelude::*;
use crate::errors::ErrorCode;
use crate::state::{Campaign, Pubkey};

verus! {

/// The accounts a campaign deletion reads and writes.
pub struct DeleteCampaign {
    /// The signer who asks for the deletion.
    pub creator: Pubkey,
    /// The campaign to delete.
    pub campaign: Campaign,
}

/// The verdict on a deletion asked by `caller`.
pub open spec fn delete_check(caller: Pubkey, c: Campaign) -> Result<(), ErrorCode> {
    if caller@ != c.creator@ {
        Err(ErrorCode::Unauthorized)
    } else if c.raised_lamports != 0 {
        Err(ErrorCode::WithdrawNotAllowed)
    } else {
        Ok(())
    }
}

/// The campaign once marked deleted.
pub open spec fn marked_deleted(c: Campaign) -> Campaign {
    Campaign { is_deleted: true, ..c }
}

/// Soft-deletes a campaign that never raised anything.
///
/// Fails with `Unauthorized` when the signer is not the creator, then with
/// `WithdrawNotAllowed` when anything has been raised. Otherwise only the
/// deletion flag changes.
pub fn delete_campaign_handler(ctx: &mut DeleteCampaign) -> (r: Result<(), ErrorCode>)
    ensures
        r == delete_check(old(ctx).creator, old(ctx).campaign),
        r is Err ==> *final(ctx) == *old(ctx),
        r is Ok ==> final(ctx).campaign == marked_deleted(old(ctx).campaign),
        final(ctx).creator == old(ctx).creator,
{
    if !ctx.creator.same_as(&ctx.campaign.creator) {
        return Err(ErrorCode::Unauthorized);
    }
    if ctx.campaign.raised_lamports != 0 {
        return Err(ErrorCode::WithdrawNotAllowed);
    }
    ctx.campaign.is_deleted = true;
    Ok(())
}

} // verus!
