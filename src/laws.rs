use vstd::prelude::*;
use vstd::arithmetic::div_mod::lemma_small_mod;
use crate::create_campaign::counted;
use crate::delete_campaign::delete_check;
use crate::donate::{credited, fee_of, net_of, sat_add};
use crate::errors::ErrorCode;
use crate::state::{Campaign, Platform, Pubkey};
use crate::update_campaign::update_check;
use crate::withdraw::{can_withdraw, withdraw_check};

verus! {

/// Sum of a sequence of amounts.
pub open spec fn total(amounts: Seq<u64>) -> nat
    decreases amounts.len(),
{
    if amounts.len() == 0 {
        0
    } else {
        total(amounts.drop_last()) + amounts.last() as nat
    }
}

/// The campaign once donations of the given net amounts have been recorded in
/// order.
pub open spec fn after_donations(c: Campaign, nets: Seq<u64>) -> Campaign
    decreases nets.len(),
{
    if nets.len() == 0 {
        c
    } else {
        credited(after_donations(c, nets.drop_last()), nets.last())
    }
}

/// The registry once `n` campaigns have been created under it.
pub open spec fn after_creations(p: Platform, n: nat) -> Platform
    decreases n,
{
    if n == 0 {
        p
    } else {
        counted(after_creations(p, (n - 1) as nat))
    }
}

/// With a fee rate of at most 10000 basis points, a positive amount splits
/// exactly into fee and net amount, and the fee is at most the amount.
pub proof fn fee_split_conserves(amount: u64, fee_bps: u16)
    requires
        fee_bps <= 10000,
        amount > 0,
    ensures
        fee_of(amount, fee_bps) + net_of(amount, fee_bps) == amount,
        fee_of(amount, fee_bps) <= amount,
{
    let q: int = (amount as int * fee_bps as int) / 10000;
    assert(0 <= q <= amount) by (nonlinear_arith)
        requires
            q == (amount as int * fee_bps as int) / 10000,
            0 <= fee_bps <= 10000,
            amount > 0,
    ;
    lemma_small_mod(q as nat, 0x1_0000_0000_0000_0000nat);
}

/// Donations add up: starting from a campaign with nothing raised and no
/// donation, recording net amounts one after another leaves the raised total at
/// their sum, clamped at the largest `u64`, and the donation count at their
/// number.
pub proof fn donations_accumulate(c: Campaign, nets: Seq<u64>)
    requires
        c.raised_lamports == 0,
        c.donation_count == 0,
        nets.len() <= u64::MAX,
    ensures
        after_donations(c, nets).raised_lamports == if total(nets) > u64::MAX {
            u64::MAX as nat
        } else {
            total(nets)
        },
        after_donations(c, nets).donation_count == nets.len(),
    decreases nets.len(),
{
    if nets.len() > 0 {
        donations_accumulate(c, nets.drop_last());
    }
}

/// Creation numbers campaigns 1, 2, 3, ... : after `n` creations on a fresh
/// registry its count is `n`, the `i`-th creation (from 0) assigns the id
/// `i + 1`, and ids grow strictly from one creation to the next.
pub proof fn campaign_ids_sequential(p: Platform, n: nat)
    requires
        p.campaign_count == 0,
        n <= u64::MAX,
    ensures
        after_creations(p, n).campaign_count == n,
        forall|i: nat| i < n ==> #[trigger] counted(after_creations(p, i)).campaign_count == i + 1,
        forall|i: nat, j: nat|
            i < j < n ==> #[trigger] counted(after_creations(p, i)).campaign_count < #[trigger] counted(
                after_creations(p, j),
            ).campaign_count,
{
    assert forall|i: nat| i <= n implies #[trigger] after_creations(p, i).campaign_count == i by {
        creations_count(p, i);
    }
    assert forall|i: nat| i < n implies #[trigger] counted(after_creations(p, i)).campaign_count == i + 1 by {
        creations_count(p, i);
    }
}

proof fn creations_count(p: Platform, n: nat)
    requires
        p.campaign_count == 0,
        n <= u64::MAX,
    ensures
        after_creations(p, n).campaign_count == n,
    decreases n,
{
    if n > 0 {
        creations_count(p, (n - 1) as nat);
    }
}

/// Withdrawal eligibility, once granted, is kept: at any later time, with any
/// larger raised total, and after any further donation.
pub proof fn withdrawal_stays_allowed(c: Campaign, now: i64, later: i64, raised: u64, net: u64)
    requires
        can_withdraw(c, now),
        now <= later,
        c.raised_lamports <= raised,
    ensures
        can_withdraw(c, later),
        can_withdraw((Campaign { raised_lamports: raised, ..c }), later),
        can_withdraw(credited(c, net), later),
{
}

/// Deletion is granted only to a campaign that raised nothing, and once a
/// donation at a fee rate below 10000 basis points has been recorded, the
/// creator's deletion fails with `WithdrawNotAllowed`.
pub proof fn deletion_needs_nothing_raised(caller: Pubkey, c: Campaign, amount: u64, fee_bps: u16)
    requires
        amount > 0,
        fee_bps < 10000,
    ensures
        delete_check(caller, c) is Ok ==> c.raised_lamports == 0,
        caller@ == c.creator@ ==> delete_check(caller, credited(c, net_of(amount, fee_bps)))
            == Err::<(), ErrorCode>(ErrorCode::WithdrawNotAllowed),
{
    let q: int = (amount as int * fee_bps as int) / 10000;
    assert(0 <= q < amount) by (nonlinear_arith)
        requires
            q == (amount as int * fee_bps as int) / 10000,
            0 <= fee_bps < 10000,
            amount > 0,
    ;
    lemma_small_mod(q as nat, 0x1_0000_0000_0000_0000nat);
    assert(net_of(amount, fee_bps) > 0);
    assert(sat_add(c.raised_lamports, net_of(amount, fee_bps)) > 0);
}

/// Whoever is not the creator is refused an update, a withdrawal and a
/// deletion with `Unauthorized`, whatever else holds.
pub proof fn only_creator_acts(
    caller: Pubkey,
    c: Campaign,
    now: i64,
    title: Seq<char>,
    description: Seq<char>,
    image_url: Seq<char>,
)
    requires
        caller@ != c.creator@,
    ensures
        update_check(caller, c, title, description, image_url) == Err::<(), ErrorCode>(ErrorCode::Unauthorized),
        withdraw_check(caller, c, now) == Err::<(), ErrorCode>(ErrorCode::Unauthorized),
        delete_check(caller, c) == Err::<(), ErrorCode>(ErrorCode::Unauthorized),
{
}

} // verus!
