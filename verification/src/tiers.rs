//! The score bands and the largest loan each band allows.

use vstd::prelude::*;

verus! {

/// Largest loan for scores 50 to 59.
pub const TIER_1_MAX_LOAN: u64 = 5_000_000;

/// Largest loan for scores 60 to 74.
pub const TIER_2_MAX_LOAN: u64 = 20_000_000;

/// Largest loan for scores 75 to 89.
pub const TIER_3_MAX_LOAN: u64 = 50_000_000;

/// Largest loan for scores 90 to 100.
pub const TIER_4_MAX_LOAN: u64 = 100_000_000;

/// The loan limit of a score: a step function over the five bands, and 0
/// for any score above 100.
pub open spec fn tier_limit(score: int) -> int {
    if 50 <= score <= 59 {
        TIER_1_MAX_LOAN as int
    } else if 60 <= score <= 74 {
        TIER_2_MAX_LOAN as int
    } else if 75 <= score <= 89 {
        TIER_3_MAX_LOAN as int
    } else if 90 <= score <= 100 {
        TIER_4_MAX_LOAN as int
    } else {
        0
    }
}

/// The largest amount that a borrower with `reputation_score` may take.
pub fn calculate_max_loan_amount(reputation_score: u32) -> (limit: u64)
    ensures
        limit == tier_limit(reputation_score as int),
{
    if reputation_score < 50 {
        0
    } else if reputation_score < 60 {
        TIER_1_MAX_LOAN
    } else if reputation_score < 75 {
        TIER_2_MAX_LOAN
    } else if reputation_score < 90 {
        TIER_3_MAX_LOAN
    } else if reputation_score <= 100 {
        TIER_4_MAX_LOAN
    } else {
        0
    }
}

} // verus!
