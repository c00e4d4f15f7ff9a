use vstd::prelude::*;
use crate::constants::BPS_DENOMINATOR;
use crate::errors::ErrorCode;
use crate::state::{Campaign, Platform, Pubkey};

verus! {

/// The accounts a donation reads and writes.
///
/// Nothing ties `campaign` to `platform`: the registry is consulted only for its
/// fee rate and treasury, so a caller who pairs a campaign with another registry
/// sends the fee where that registry says.
pub struct Donate {
    /// The signer who pays the donation.
    pub donor: Pubkey,
    /// The registry whose fee rate and treasury apply.
    pub platform: Platform,
    /// The campaign that receives the net amount.
    pub campaign: Campaign,
    /// The account that receives the fee.
    pub treasury: Pubkey,
}

/// The two balance moves of a donation: `net` to the campaign and `fee` to the
/// treasury, both paid by the donor.
#[derive(Debug, Clone, Copy, PartialEq, Eq, Structural)]
pub struct DonationSplit {
    pub net: u64,
    pub fee: u64,
}

/// `a + b`, clamped at the largest `u64`.
pub open spec fn sat_add(a: u64, b: u64) -> u64 {
    if a + b > u64::MAX {
        u64::MAX
    } else {
        (a + b) as u64
    }
}

/// The fee on `amount`: `floor(amount * fee_bps / 10000)`, narrowed to 64 bits.
pub open spec fn fee_of(amount: u64, fee_bps: u16) -> u64 {
    (((amount as int * fee_bps as int) / BPS_DENOMINATOR as int) % 0x1_0000_0000_0000_0000) as u64
}

/// What the campaign receives of `amount` once the fee is taken.
pub open spec fn net_of(amount: u64, fee_bps: u16) -> u64 {
    if fee_of(amount, fee_bps) <= amount {
        (amount - fee_of(amount, fee_bps)) as u64
    } else {
        0
    }
}

/// The campaign once a donation of net amount `net` has been recorded.
pub open spec fn credited(c: Campaign, net: u64) -> Campaign {
    Campaign {
        raised_lamports: sat_add(c.raised_lamports, net),
        donation_count: sat_add(c.donation_count, 1),
        ..c
    }
}

/// Splits `amount` between the campaign and the treasury at `fee_bps`.
pub fn compute_split(amount: u64, fee_bps: u16) -> (r: DonationSplit)
    ensures
        r.fee == fee_of(amount, fee_bps),
        r.net == net_of(amount, fee_bps),
{
    let wide: u128 = amount as u128;
    let rate: u128 = fee_bps as u128;
    assert(wide * rate <= 0xffff_ffff_ffff_ffff * 0xffff) by (nonlinear_arith)
        requires
            wide <= 0xffff_ffff_ffff_ffff,
            rate <= 0xffff,
    ;
    let quotient: u128 = (wide * rate) / (BPS_DENOMINATOR as u128);
    let fee: u64 = (quotient % 0x1_0000_0000_0000_0000u128) as u64;
    let net: u64 = amount.saturating_sub(fee);
    DonationSplit { net, fee }
}

/// Records a donation of `amount` to the campaign.
///
/// Rejects a zero amount with `InvalidAmount`. Otherwise the fee is taken at
/// the platform's rate, the campaign's raised total grows by the net amount and
/// its donation count by one, both saturating, and the split is returned for
/// the ledger to move: `net` to the campaign, and `fee` to the treasury when it
/// is positive. On an error nothing changes.
pub fn handler(ctx: &mut Donate, amount: u64) -> (r: Result<DonationSplit, ErrorCode>)
    ensures
        amount == 0 <==> r == Err::<DonationSplit, ErrorCode>(ErrorCode::InvalidAmount),
        amount == 0 ==> *final(ctx) == *old(ctx),
        amount > 0 ==> r == Ok::<DonationSplit, ErrorCode>(
            (DonationSplit {
                net: net_of(amount, old(ctx).platform.fee_bps),
                fee: fee_of(amount, old(ctx).platform.fee_bps),
            }),
        ),
        amount > 0 ==> final(ctx).campaign == credited(
            old(ctx).campaign,
            net_of(amount, old(ctx).platform.fee_bps),
        ),
        final(ctx).donor == old(ctx).donor,
        final(ctx).platform == old(ctx).platform,
        final(ctx).treasury == old(ctx).treasury,
{
    if amount == 0 {
        return Err(ErrorCode::InvalidAmount);
    }
    let split = compute_split(amount, ctx.platform.fee_bps);
    ctx.campaign.raised_lamports = ctx.campaign.raised_lamports.saturating_add(split.net);
    ctx.campaign.donation_count = ctx.campaign.donation_count.saturating_add(1);
    Ok(split)
}

} // verus!
