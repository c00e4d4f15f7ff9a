use vstd::prelude::*;

verus! {

/// Largest accepted campaign title, in UTF-8 bytes.
pub const TITLE_MAX_LEN: usize = 64;

/// Largest accepted campaign description, in UTF-8 bytes.
pub const DESC_MAX_LEN: usize = 512;

/// Largest accepted campaign image URL, in UTF-8 bytes.
pub const URL_MAX_LEN: usize = 200;

/// Basis points in one whole: a fee rate of this many takes the full amount.
pub const BPS_DENOMINATOR: u64 = 10000;

} // verus!
