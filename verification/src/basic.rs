//! The elementary scoring circuits: a two-value sum and the two one-field
//! tier cascades that assess a response for a loan officer and a survey's
//! metadata for an analyst. Each tier cascade evaluates every branch and
//! folds the results through oblivious selects.
use crate::select::select_u8;
use vstd::prelude::*;

verus! {

/// A pair of small secret values whose sum a caller wants.
pub struct InputValues {
    pub v1: u8,
    pub v2: u8,
}

/// The eligibility tier a response value is mapped to: a monotone step
/// function from the response to one of four tiers.
pub open spec fn eligibility_tier(v: u64) -> u8 {
    if v > 1000 {
        8
    } else if v > 500 {
        6
    } else if v > 100 {
        4
    } else {
        2
    }
}

/// The quality tier survey metadata is mapped to: a monotone step function
/// from the metadata value to one of four tiers.
pub open spec fn metadata_quality_tier(m: u64) -> u8 {
    if m > 1000 {
        9
    } else if m > 500 {
        7
    } else if m > 100 {
        5
    } else {
        3
    }
}

/// Sums the two secret values into a wider word, so the sum never overflows.
pub fn add_together(input: &InputValues) -> (sum: u16)
    ensures
        sum == input.v1 + input.v2,
{
    input.v1 as u16 + input.v2 as u16
}

/// Scores a secret response value for two recipients: the owner gets the
/// value back, the loan officer gets only the eligibility tier.
pub fn submit_response(response: u64) -> (r: (u64, u8))
    ensures
        r.0 == response,
        r.1 == eligibility_tier(response),
{
    let eligibility_score = select_u8(
        response > 1000,
        8,
        select_u8(response > 500, 6, select_u8(response > 100, 4, 2)),
    );
    (response, eligibility_score)
}

/// Scores secret survey metadata for two recipients: the creator gets the
/// metadata back, the analyst gets only the quality tier.
pub fn create_survey(metadata: u64) -> (r: (u64, u8))
    ensures
        r.0 == metadata,
        r.1 == metadata_quality_tier(metadata),
{
    let quality_score = select_u8(
        metadata > 1000,
        9,
        select_u8(metadata > 500, 7, select_u8(metadata > 100, 5, 3)),
    );
    (metadata, quality_score)
}

/// Raising the response value never lowers the eligibility tier.
pub proof fn lemma_eligibility_tier_monotone(a: u64, b: u64)
    requires
        a <= b,
    ensures
        eligibility_tier(a) <= eligibility_tier(b),
{
}

/// Raising the metadata value never lowers the quality tier.
pub proof fn lemma_metadata_quality_tier_monotone(a: u64, b: u64)
    requires
        a <= b,
    ensures
        metadata_quality_tier(a) <= metadata_quality_tier(b),
{
}

} // verus!
