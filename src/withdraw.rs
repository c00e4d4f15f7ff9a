use vstd::prelude::*;
use crate::errors::ErrorCode;
use crate::state::{Campaign, Pubkey};

verus! {

/// The accounts a withdrawal reads and writes, with their balances.
pub struct Withdraw {
    /// The signer who asks for the funds.
    pub creator: Pubkey,
    /// The signer's balance.
    pub creator_lamports: u64,
    /// The campaign whose funds are withdrawn.
    pub campaign: Campaign,
    /// The balance held by the campaign's record.
    pub campaign_lamports: u64,
}

/// Whether the campaign's funds may be withdrawn at time `now`: the goal has
/// been reached or the deadline has come.
pub open spec fn can_withdraw(c: Campaign, now: i64) -> bool {
    c.raised_lamports >= c.goal_lamports || now >= c.deadline_ts
}

/// The verdict on a withdrawal asked by `caller` at time `now`.
pub open spec fn withdraw_check(caller: Pubkey, c: Campaign, now: i64) -> Result<(), ErrorCode> {
    if caller@ != c.creator@ {
        Err(ErrorCode::Unauthorized)
    } else if !can_withdraw(c, now) {
        Err(ErrorCode::WithdrawNotAllowed)
    } else {
        Ok(())
    }
}

/// What a record holding `balance` can give up while keeping `floor`.
pub open spec fn withdrawable(balance: u64, floor: u64) -> u64 {
    if balance > floor {
        (balance - floor) as u64
    } else {
        0
    }
}

/// Whether the campaign's funds may be withdrawn at time `now`.
pub fn evaluate_withdrawal(campaign: &Campaign, now: i64) -> (r: bool)
    ensures
        r == can_withdraw(*campaign, now),
{
    campaign.raised_lamports >= campaign.goal_lamports || now >= campaign.deadline_ts
}

/// Moves to the creator, at time `now`, all that the campaign's record holds
/// above `min_balance`, the floor that keeps the record stored.
///
/// Fails with `Unauthorized` when the signer is not the creator, then with
/// `WithdrawNotAllowed` when the goal is not reached and the deadline has not
/// come. A balance at or below the floor moves nothing. The campaign record
/// itself is left as it is, so the call can be repeated.
pub fn withdraw_handler(ctx: &mut Withdraw, now: i64, min_balance: u64) -> (r: Result<(), ErrorCode>)
    requires
        old(ctx).creator_lamports + old(ctx).campaign_lamports <= u64::MAX,
    ensures
        r == withdraw_check(old(ctx).creator, old(ctx).campaign, now),
        r is Err ==> *final(ctx) == *old(ctx),
        r is Ok ==> final(ctx).campaign_lamports == old(ctx).campaign_lamports - withdrawable(
            old(ctx).campaign_lamports,
            min_balance,
        ),
        r is Ok ==> final(ctx).creator_lamports == old(ctx).creator_lamports + withdrawable(
            old(ctx).campaign_lamports,
            min_balance,
        ),
        final(ctx).creator == old(ctx).creator,
        final(ctx).campaign == old(ctx).campaign,
{
    if !ctx.creator.same_as(&ctx.campaign.creator) {
        return Err(ErrorCode::Unauthorized);
    }
    if !evaluate_withdrawal(&ctx.campaign, now) {
        return Err(ErrorCode::WithdrawNotAllowed);
    }
    let current: u64 = ctx.campaign_lamports;
    if current > min_balance {
        let amount: u64 = current - min_balance;
        ctx.campaign_lamports = ctx.campaign_lamports - amount;
        ctx.creator_lamports = ctx.creator_lamports + amount;
    }
    Ok(())
}

} // verus!
