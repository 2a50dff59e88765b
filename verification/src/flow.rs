//! The sealed runs of the scoring circuits: each runs a circuit on one
//! secret record, groups every field destined for one recipient into a
//! single record, and seals each record once under that recipient's key —
//! one envelope per recipient, and no record ever under another recipient's
//! key.
use crate::advanced::SurveyAnalytics;
use crate::advanced::UserSurveyInput;
use crate::advanced::data_insights_of;
use crate::advanced::process_survey_response;
use crate::advanced::survey_result_of;
use crate::advanced::updated_analytics_of;
use crate::codec::data_insights_bytes;
use crate::codec::encode_data_insights;
use crate::codec::encode_loan_eligibility;
use crate::codec::encode_processed_response;
use crate::codec::encode_survey_analysis;
use crate::codec::encode_survey_analytics;
use crate::codec::encode_survey_metrics;
use crate::codec::encode_survey_result;
use crate::codec::loan_eligibility_bytes;
use crate::codec::processed_response_bytes;
use crate::codec::survey_analysis_bytes;
use crate::codec::survey_analytics_bytes;
use crate::codec::survey_metrics_bytes;
use crate::codec::survey_result_bytes;
use crate::response::InputValues;
use crate::response::loan_eligibility_of;
use crate::response::processed_response_of;
use crate::response::submit_response;
use crate::sealing::Envelope;
use crate::sealing::RecipientKey;
use crate::sealing::seal;
use crate::sealing::seal_model;
use crate::survey::SurveyData;
use crate::survey::create_survey;
use crate::survey::survey_analysis_of;
use crate::survey::survey_metrics_of;
use vstd::prelude::*;

verus! {

/// Scores one response and seals the owner's processed record under the
/// owner's key and the loan officer's eligibility record under the loan
/// officer's key, each exactly once.
pub fn submit_response_sealed(
    input: &InputValues,
    owner: &RecipientKey,
    loan_officer: &RecipientKey,
    nonce: u128,
) -> (r: (Envelope, Envelope))
    requires
        input.response * 2 + 2650 <= u64::MAX,
    ensures
        r.0@ == seal_model(
            processed_response_bytes(processed_response_of(*input)),
            owner@,
            nonce,
        ),
        r.1@ == seal_model(
            loan_eligibility_bytes(loan_eligibility_of(*input)),
            loan_officer@,
            nonce,
        ),
{
    let (processed, eligibility) = submit_response(input);
    let processed_bytes = encode_processed_response(&processed);
    let eligibility_bytes = encode_loan_eligibility(&eligibility);
    let owner_result = seal(&processed_bytes, owner, nonce);
    let loan_officer_result = seal(&eligibility_bytes, loan_officer, nonce);
    (owner_result, loan_officer_result)
}

/// Scores one survey description and seals the creator's metrics record
/// under the creator's key and the analyst's assessment record under the
/// analyst's key, each exactly once.
pub fn create_survey_sealed(
    input: &SurveyData,
    creator: &RecipientKey,
    survey_analyst: &RecipientKey,
    nonce: u128,
) -> (r: (Envelope, Envelope))
    ensures
        r.0@ == seal_model(survey_metrics_bytes(survey_metrics_of(*input)), creator@, nonce),
        r.1@ == seal_model(
            survey_analysis_bytes(survey_analysis_of(*input)),
            survey_analyst@,
            nonce,
        ),
{
    let (metrics, analysis) = create_survey(input);
    let metrics_bytes = encode_survey_metrics(&metrics);
    let analysis_bytes = encode_survey_analysis(&analysis);
    let creator_result = seal(&metrics_bytes, creator, nonce);
    let analyst_result = seal(&analysis_bytes, survey_analyst, nonce);
    (creator_result, analyst_result)
}

/// Processes one response against the running aggregate and seals three
/// records: the updated aggregate back under the authority's key that
/// supplied it, the respondent's score record under the respondent's key,
/// and the insight record under the data scientist's key.
pub fn process_survey_response_sealed(
    user_input: &UserSurveyInput,
    analytics: &SurveyAnalytics,
    authority: &RecipientKey,
    respondent: &RecipientKey,
    data_scientist: &RecipientKey,
    nonce: u128,
) -> (r: (Envelope, Envelope, Envelope))
    requires
        analytics.total_responses + 1 <= u64::MAX,
        analytics.total_completion_time + user_input.completion_time <= u64::MAX,
    ensures
        r.0@ == seal_model(
            survey_analytics_bytes(updated_analytics_of(*analytics, *user_input)),
            authority@,
            nonce,
        ),
        r.1@ == seal_model(survey_result_bytes(survey_result_of(*user_input)), respondent@, nonce),
        r.2@ == seal_model(
            data_insights_bytes(data_insights_of(*user_input)),
            data_scientist@,
            nonce,
        ),
{
    let (updated, result, insights) = process_survey_response(user_input, analytics);
    let updated_bytes = encode_survey_analytics(&updated);
    let result_bytes = encode_survey_result(&result);
    let insight_bytes = encode_data_insights(&insights);
    let authority_result = seal(&updated_bytes, authority, nonce);
    let respondent_result = seal(&result_bytes, respondent, nonce);
    let scientist_result = seal(&insight_bytes, data_scientist, nonce);
    (authority_result, respondent_result, scientist_result)
}

} // verus!
