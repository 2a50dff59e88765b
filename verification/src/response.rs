//! The response-submission circuit: one secret response record goes in; the
//! owner's processed score and, sealed separately, the loan officer's
//! eligibility assessment come out. The timestamp distance is computed as a
//! branch-free absolute difference, and every tier is a select cascade.
use crate::select::select_u64;
use crate::select::select_u8;
use vstd::prelude::*;

verus! {

/// The reference moment responses are timed against.
pub const CURRENT_TIME: u64 = 1704067200;

/// One secret response record.
pub struct InputValues {
    pub response: u64,
    pub rating: u8,
    pub feedback_length: u16,
    pub category: u8,
    pub timestamp: u64,
}

/// The owner's view of the computation: the processed score breakdown.
#[verifier::ext_equal]
pub struct ProcessedResponse {
    pub score: u64,
    pub category_score: u64,
    pub time_bonus: u64,
    pub total: u64,
}

/// The loan officer's view of the computation: eligibility only, never the
/// owner's raw response.
#[verifier::ext_equal]
pub struct LoanEligibility {
    pub is_eligible: bool,
    pub risk_score: u8,
    pub recommended_limit: u64,
}

/// The response score before any bonus: the doubled response plus ten points
/// per rating unit.
pub open spec fn base_score(input: InputValues) -> int {
    input.response * 2 + input.rating * 10
}

/// The category bonus tier.
pub open spec fn category_bonus(category: u8) -> u64 {
    if category > 3 {
        50
    } else if category > 1 {
        25
    } else {
        10
    }
}

/// The feedback-length bonus tier.
pub open spec fn feedback_bonus(feedback_length: u16) -> u64 {
    if feedback_length > 100 {
        30
    } else if feedback_length > 50 {
        20
    } else {
        10
    }
}

/// The distance between a response's timestamp and the reference moment.
pub open spec fn time_diff(timestamp: u64) -> int {
    if timestamp > CURRENT_TIME {
        timestamp - CURRENT_TIME
    } else {
        CURRENT_TIME - timestamp
    }
}

/// The freshness bonus: responses within a day of the reference moment earn
/// more.
pub open spec fn time_bonus(timestamp: u64) -> u64 {
    if time_diff(timestamp) < 86400 {
        20
    } else {
        5
    }
}

/// The whole score a response earns.
pub open spec fn total_score(input: InputValues) -> int {
    base_score(input) + category_bonus(input.category) + feedback_bonus(input.feedback_length)
        + time_bonus(input.timestamp)
}

/// Whether the total score clears the eligibility threshold.
pub open spec fn is_eligible(input: InputValues) -> bool {
    total_score(input) >= 1000
}

/// The loan officer's risk tier: high ratings on fresh responses are low
/// risk.
pub open spec fn risk_score(input: InputValues) -> u8 {
    if input.rating >= 8 && time_diff(input.timestamp) < 86400 {
        2
    } else if input.rating >= 6 && time_diff(input.timestamp) < 172800 {
        5
    } else {
        8
    }
}

/// The recommended loan limit: a monotone step function of the total score.
pub open spec fn recommended_limit(total: int) -> u64 {
    if total > 200 {
        10000
    } else if total > 150 {
        5000
    } else if total > 100 {
        2000
    } else {
        500
    }
}

/// The whole processed record the owner receives.
pub open spec fn processed_response_of(input: InputValues) -> ProcessedResponse {
    ProcessedResponse {
        score: base_score(input) as u64,
        category_score: category_bonus(input.category),
        time_bonus: time_bonus(input.timestamp),
        total: total_score(input) as u64,
    }
}

/// The whole eligibility record the loan officer receives.
pub open spec fn loan_eligibility_of(input: InputValues) -> LoanEligibility {
    LoanEligibility {
        is_eligible: is_eligible(input),
        risk_score: risk_score(input),
        recommended_limit: recommended_limit(total_score(input)),
    }
}

/// Runs the response-submission circuit on one secret record and yields the
/// owner's processed response and the loan officer's eligibility, each
/// destined for its own recipient. The caller keeps the response value small
/// enough that the doubled score fits its word; the circuit does not
/// validate the range.
pub fn submit_response(input: &InputValues) -> (r: (ProcessedResponse, LoanEligibility))
    requires
        input.response * 2 + 2650 <= u64::MAX,
    ensures
        r.0.score == base_score(*input),
        r.0.category_score == category_bonus(input.category),
        r.0.time_bonus == time_bonus(input.timestamp),
        r.0.total == total_score(*input),
        r.1.is_eligible == is_eligible(*input),
        r.1.risk_score == risk_score(*input),
        r.1.recommended_limit == recommended_limit(total_score(*input)),
        r.0 == processed_response_of(*input),
        r.1 == loan_eligibility_of(*input),
{
    let weighted_response = input.response * 2;
    let rating_bonus = (input.rating as u64) * 10;
    let base = weighted_response + rating_bonus;

    let category = select_u64(input.category > 3, 50, select_u64(input.category > 1, 25, 10));
    let feedback = select_u64(
        input.feedback_length > 100,
        30,
        select_u64(input.feedback_length > 50, 20, 10),
    );

    let later = select_u64(input.timestamp > CURRENT_TIME, input.timestamp, CURRENT_TIME);
    let earlier = select_u64(input.timestamp > CURRENT_TIME, CURRENT_TIME, input.timestamp);
    let diff = later - earlier;
    let time = select_u64(diff < 86400, 20, 5);

    let total = base + category + feedback + time;

    let owner_output = ProcessedResponse {
        score: base,
        category_score: category,
        time_bonus: time,
        total,
    };

    let eligible = total >= 1000;
    let risk = select_u8(
        input.rating >= 8 && diff < 86400,
        2,
        select_u8(input.rating >= 6 && diff < 172800, 5, 8),
    );
    let limit = select_u64(
        total > 200,
        10000,
        select_u64(total > 150, 5000, select_u64(total > 100, 2000, 500)),
    );

    let loan_officer_output = LoanEligibility {
        is_eligible: eligible,
        risk_score: risk,
        recommended_limit: limit,
    };

    proof {
        assert(owner_output =~= processed_response_of(*input));
        assert(loan_officer_output =~= loan_eligibility_of(*input));
    }
    (owner_output, loan_officer_output)
}

/// Raising the total score never lowers the recommended limit.
pub proof fn lemma_recommended_limit_monotone(a: int, b: int)
    requires
        a <= b,
    ensures
        recommended_limit(a) <= recommended_limit(b),
{
}

/// Raising the category never lowers the category bonus.
pub proof fn lemma_category_bonus_monotone(a: u8, b: u8)
    requires
        a <= b,
    ensures
        category_bonus(a) <= category_bonus(b),
{
}

/// Lengthening the feedback never lowers the feedback bonus.
pub proof fn lemma_feedback_bonus_monotone(a: u16, b: u16)
    requires
        a <= b,
    ensures
        feedback_bonus(a) <= feedback_bonus(b),
{
}

} // verus!
