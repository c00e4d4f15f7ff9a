use vstd::prelude::*;

verus! {

/// Every way an operation of the ledger can be rejected.
#[derive(Debug, Clone, Copy, PartialEq, Eq, Structural)]
pub enum ErrorCode {
    TitleTooLong,
    DescriptionTooLong,
    UrlTooLong,
    DeadlineInPast,
    Unauthorized,
    CampaignDeleted,
    WithdrawNotAllowed,
    InvalidAmount,
}

} // verus!
