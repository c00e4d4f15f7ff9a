use vstd::prelude::*;
use crate::errors::ErrorCode;
use crate::state::{Platform, Pubkey};

verus! {

/// The accounts a fee update reads and writes.
pub struct UpdatePlatformSettings {
    /// The signer who asks for the change.
    pub authority: Pubkey,
    /// The registry to change.
    pub platform: Platform,
}

/// Sets the platform's fee rate, as given, when the signer is its authority;
/// fails with `Unauthorized` otherwise, changing nothing. A rate above 10000
/// basis points is kept as given; a donation's fee may then exceed its amount,
/// and its net amount is zero (see `donate::fee_of` and `donate::net_of`).
pub fn update_platform_settings_handler(ctx: &mut UpdatePlatformSettings, fee_bps: u16) -> (r: Result<(), ErrorCode>)
    ensures
        old(ctx).authority@ == old(ctx).platform.authority@ <==> r is Ok,
        r is Err ==> r == Err::<(), ErrorCode>(ErrorCode::Unauthorized) && *final(ctx) == *old(ctx),
        r is Ok ==> final(ctx).platform == (Platform { fee_bps, ..old(ctx).platform }),
        final(ctx).authority == old(ctx).authority,
{
    if !ctx.authority.same_as(&ctx.platform.authority) {
        return Err(ErrorCode::Unauthorized);
    }
    ctx.platform.fee_bps = fee_bps;
    Ok(())
}

} // verus!
