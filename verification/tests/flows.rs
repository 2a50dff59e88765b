use survey_x::advanced::SurveyAnalytics;
use survey_x::advanced::UserSurveyInput;
use survey_x::flow::create_survey_sealed;
use survey_x::flow::process_survey_response_sealed;
use survey_x::flow::submit_response_sealed;
use survey_x::response::InputValues;
use survey_x::response::CURRENT_TIME;
use survey_x::sealing::RecipientKey;
use survey_x::sealing::open;
use survey_x::survey::SurveyData;

fn key(fill: u8) -> RecipientKey {
    let mut bytes = [0u8; 32];
    for (i, b) in bytes.iter_mut().enumerate() {
        *b = fill.wrapping_add(i as u8).wrapping_mul(37);
    }
    RecipientKey { bytes }
}

#[test]
fn two_recipients_get_two_isolated_envelopes() {
    let owner = key(1);
    let officer = key(2);
    let input = InputValues {
        response: 100,
        rating: 5,
        feedback_length: 60,
        category: 2,
        timestamp: CURRENT_TIME,
    };
    let (owner_env, officer_env) = submit_response_sealed(&input, &owner, &officer, 42);

    // Each recipient opens exactly its own envelope.
    let owner_bytes = open(&owner_env, &owner).unwrap();
    let officer_bytes = open(&officer_env, &officer).unwrap();
    assert_eq!(open(&owner_env, &officer), None);
    assert_eq!(open(&officer_env, &owner), None);

    // The owner's record carries the full breakdown: score 250, category
    // bonus 25, time bonus 20, total 315, each a little-endian word.
    assert_eq!(owner_bytes.len(), 32);
    assert_eq!(&owner_bytes[0..8], &250u64.to_le_bytes());
    assert_eq!(&owner_bytes[8..16], &25u64.to_le_bytes());
    assert_eq!(&owner_bytes[16..24], &20u64.to_le_bytes());
    assert_eq!(&owner_bytes[24..32], &315u64.to_le_bytes());

    // The officer's record carries only eligibility, risk and limit.
    assert_eq!(officer_bytes.len(), 10);
    assert_eq!(officer_bytes[0], 0);
    assert_eq!(officer_bytes[1], 8);
    assert_eq!(&officer_bytes[2..10], &10000u64.to_le_bytes());
}

#[test]
fn survey_creation_seals_metrics_and_analysis_apart() {
    let creator = key(3);
    let analyst = key(4);
    let input = SurveyData {
        title_length: 20,
        description_length: 30,
        question_count: 10,
        complexity_score: 8,
        target_audience: 4,
        estimated_duration: 35,
    };
    let (creator_env, analyst_env) = create_survey_sealed(&input, &creator, &analyst, 7);
    let metrics = open(&creator_env, &creator).unwrap();
    let analysis = open(&analyst_env, &analyst).unwrap();
    assert_eq!(open(&creator_env, &analyst), None);
    assert_eq!(open(&analyst_env, &creator), None);

    assert_eq!(metrics.len(), 41);
    assert_eq!(&metrics[0..8], &230u64.to_le_bytes());
    assert_eq!(&metrics[32..40], &350u64.to_le_bytes());
    assert_eq!(metrics[40], 5);

    assert_eq!(analysis, vec![9, 5, 40, 5]);
}

#[test]
fn three_recipients_three_envelopes() {
    let authority = key(5);
    let respondent = key(6);
    let scientist = key(7);
    let input = UserSurveyInput {
        user_id: 1,
        response_quality: 8,
        completion_time: 250,
        satisfaction_score: 4,
    };
    let analytics = SurveyAnalytics {
        total_responses: 2,
        average_quality: 5,
        total_completion_time: 600,
        quality_threshold: 5,
    };
    let (env_a, env_r, env_s) =
        process_survey_response_sealed(&input, &analytics, &authority, &respondent, &scientist, 8);

    let aggregate = open(&env_a, &authority).unwrap();
    let result = open(&env_r, &respondent).unwrap();
    let insights = open(&env_s, &scientist).unwrap();

    // Nothing crosses recipients.
    assert_eq!(open(&env_a, &respondent), None);
    assert_eq!(open(&env_a, &scientist), None);
    assert_eq!(open(&env_r, &authority), None);
    assert_eq!(open(&env_r, &scientist), None);
    assert_eq!(open(&env_s, &authority), None);
    assert_eq!(open(&env_s, &respondent), None);

    // The aggregate re-sealed for the authority carries the update.
    assert_eq!(&aggregate[0..8], &3u64.to_le_bytes());
    assert_eq!(&aggregate[16..24], &850u64.to_le_bytes());

    // The respondent's record: score 130, percentile 95, bonuses 80 and 50.
    assert_eq!(&result[0..8], &130u64.to_le_bytes());
    assert_eq!(result[8], 95);
    assert_eq!(&result[9..17], &80u64.to_le_bytes());
    assert_eq!(&result[17..25], &50u64.to_le_bytes());
    assert_eq!(&result[25..33], &130u64.to_le_bytes());

    // The data scientist's record: trend, anomaly, prediction, optimization.
    assert_eq!(insights, vec![8, 3, 9, 3]);
}
