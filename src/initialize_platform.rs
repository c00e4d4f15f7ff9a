use vstd::prelude::*;
use crate::state::{Platform, Pubkey};

verus! {

/// The accounts a platform initialization reads and writes.
pub struct InitializePlatform {
    /// The signer who pays for the registry and becomes its authority.
    pub payer: Pubkey,
    /// The address of the new registry.
    pub platform_key: Pubkey,
    /// The new registry, written by the call.
    pub platform: Platform,
    /// Bump seed of the registry's address.
    pub platform_bump: u8,
}

/// Fills in the new registry: the payer is its authority, fees go to the
/// registry's own address, and no campaign has been created yet.
pub fn initialize_platform_handler(ctx: &mut InitializePlatform, fee_bps: u16, _treasury_bump: u8) -> (r: ())
    ensures
        final(ctx).platform == (Platform {
            authority: old(ctx).payer,
            fee_bps,
            treasury: old(ctx).platform_key,
            campaign_count: 0,
            bump: old(ctx).platform_bump,
        }),
        final(ctx).payer == old(ctx).payer,
        final(ctx).platform_key == old(ctx).platform_key,
        final(ctx).platform_bump == old(ctx).platform_bump,
{
    ctx.platform = Platform {
        authority: ctx.payer,
        fee_bps,
        treasury: ctx.platform_key,
        campaign_count: 0,
        bump: ctx.platform_bump,
    };
}

} // verus!
