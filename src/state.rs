use vstd::prelude::*;
use vstd::utf8::encode_utf8;

verus! {

/// A 32-byte public key: the identity of a record or of a signer.
#[derive(Debug, Clone, Copy)]
pub struct Pubkey {
    pub bytes: [u8; 32],
}

impl View for Pubkey {
    type V = Seq<u8>;

    open spec fn view(&self) -> Seq<u8> {
        self.bytes@
    }
}

impl Pubkey {
    /// The key made of the given bytes.
    pub fn new_from_array(bytes: [u8; 32]) -> (r: Pubkey)
        ensures
            r@ == bytes@,
    {
        Pubkey { bytes }
    }

    /// Whether two keys hold the same bytes.
    pub fn same_as(&self, other: &Pubkey) -> (r: bool)
        ensures
            r == (self@ == other@),
    {
        let mut i: usize = 0;
        while i < 32
            invariant
                0 <= i <= 32,
                self@.len() == 32,
                other@.len() == 32,
                forall|j: int| 0 <= j < i ==> self@[j] == other@[j],
            decreases 32 - i,
        {
            if self.bytes[i] != other.bytes[i] {
                return false;
            }
            i = i + 1;
        }
        assert(self@ =~= other@);
        true
    }
}

/// Length of a text in UTF-8 bytes.
pub open spec fn byte_len(s: Seq<char>) -> nat {
    encode_utf8(s).len()
}

/// The singleton configuration record.
#[derive(Debug, Clone, Copy)]
pub struct Platform {
    /// The identity permitted to change the fee rate.
    pub authority: Pubkey,
    /// Fee rate in basis points, taken from every donation.
    pub fee_bps: u16,
    /// Destination of collected fees.
    pub treasury: Pubkey,
    /// Number of campaigns created so far; the source of campaign ids.
    pub campaign_count: u64,
    pub bump: u8,
}

/// One fundraising campaign.
#[derive(Debug, Clone)]
pub struct Campaign {
    /// The platform that the campaign was created under.
    pub platform: Pubkey,
    /// The sole identity allowed to update, delete or withdraw.
    pub creator: Pubkey,
    /// Sequential identifier, assigned from the platform's counter.
    pub cid: u64,
    pub title: String,
    pub description: String,
    pub image_url: String,
    /// Funding target, positive.
    pub goal_lamports: u64,
    /// Cumulative net donations received.
    pub raised_lamports: u64,
    /// Time from which withdrawal is allowed whatever was raised.
    pub deadline_ts: i64,
    /// Number of successful donations.
    pub donation_count: u64,
    /// Soft-delete flag.
    pub is_deleted: bool,
    pub bump: u8,
}

/// A record of one donation. No operation of the ledger produces one yet.
#[derive(Debug, Clone, Copy)]
pub struct DonationReceipt {
    pub campaign: Pubkey,
    pub donor: Pubkey,
    pub amount: u64,
    pub donated_at: i64,
}

} // verus!
