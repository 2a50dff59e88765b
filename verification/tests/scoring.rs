use survey_x::advanced::SurveyAnalytics;
use survey_x::advanced::UserSurveyInput;
use survey_x::advanced::process_survey_response;
use survey_x::basic::InputValues as BasicInputValues;
use survey_x::basic::add_together;
use survey_x::basic::create_survey as create_survey_basic;
use survey_x::basic::submit_response as submit_response_basic;
use survey_x::response::CURRENT_TIME;
use survey_x::response::InputValues;
use survey_x::response::submit_response;
use survey_x::survey::SurveyData;
use survey_x::survey::create_survey;

fn analytics_zero() -> SurveyAnalytics {
    SurveyAnalytics {
        total_responses: 0,
        average_quality: 0,
        total_completion_time: 0,
        quality_threshold: 5,
    }
}

fn user_input(quality: u8, time: u64, satisfaction: u8) -> UserSurveyInput {
    UserSurveyInput {
        user_id: 42,
        response_quality: quality,
        completion_time: time,
        satisfaction_score: satisfaction,
    }
}

#[test]
fn add_together_sums() {
    assert_eq!(add_together(&BasicInputValues { v1: 3, v2: 4 }), 7);
    assert_eq!(add_together(&BasicInputValues { v1: 255, v2: 255 }), 510);
    assert_eq!(add_together(&BasicInputValues { v1: 0, v2: 0 }), 0);
}

#[test]
fn basic_eligibility_tiers() {
    assert_eq!(submit_response_basic(0), (0, 2));
    assert_eq!(submit_response_basic(100), (100, 2));
    assert_eq!(submit_response_basic(101), (101, 4));
    assert_eq!(submit_response_basic(500), (500, 4));
    assert_eq!(submit_response_basic(501), (501, 6));
    assert_eq!(submit_response_basic(1000), (1000, 6));
    assert_eq!(submit_response_basic(1001), (1001, 8));
    assert_eq!(submit_response_basic(u64::MAX), (u64::MAX, 8));
}

#[test]
fn basic_metadata_quality_tiers() {
    assert_eq!(create_survey_basic(0), (0, 3));
    assert_eq!(create_survey_basic(100), (100, 3));
    assert_eq!(create_survey_basic(101), (101, 5));
    assert_eq!(create_survey_basic(500), (500, 5));
    assert_eq!(create_survey_basic(501), (501, 7));
    assert_eq!(create_survey_basic(1000), (1000, 7));
    assert_eq!(create_survey_basic(1001), (1001, 9));
}

#[test]
fn basic_tiers_are_monotone_spot_checks() {
    let mut previous = 0u8;
    for v in [0u64, 50, 100, 101, 300, 500, 501, 900, 1000, 1001, 5000] {
        let (_, tier) = submit_response_basic(v);
        assert!(tier >= previous);
        previous = tier;
    }
}

#[test]
fn high_quality_fast_response_scores_high_band() {
    let input = user_input(8, 250, 4);
    let (analytics, result, insights) = process_survey_response(&input, &analytics_zero());
    assert_eq!(result.quality_bonus, 80);
    assert_eq!(result.time_bonus, 50);
    assert_eq!(result.user_score, 130);
    assert_eq!(result.total_bonus, 130);
    assert_eq!(result.percentile_rank, 95);
    assert_eq!(analytics.total_responses, 1);
    assert_eq!(analytics.total_completion_time, 250);
    assert_eq!(insights.trend_analysis, 8);
    assert_eq!(insights.anomaly_detection, 3);
    assert_eq!(insights.predictive_score, 9);
    assert_eq!(insights.optimization_suggestions, 3);
}

#[test]
fn low_quality_slow_response_scores_low_band() {
    let input = user_input(1, 1500, 1);
    let (analytics, result, insights) = process_survey_response(&input, &analytics_zero());
    assert_eq!(result.quality_bonus, 10);
    assert_eq!(result.time_bonus, 10);
    assert_eq!(result.user_score, 20);
    assert_eq!(result.percentile_rank, 15);
    assert_eq!(analytics.total_responses, 1);
    assert_eq!(analytics.total_completion_time, 1500);
    assert_eq!(insights.trend_analysis, 2);
    assert_eq!(insights.anomaly_detection, 8);
    assert_eq!(insights.predictive_score, 3);
    assert_eq!(insights.optimization_suggestions, 9);
}

#[test]
fn percentile_bands_cover_every_branch() {
    // user_score = quality * 10 + time bonus; time = 1000 gives bonus 10.
    let expected = [
        (1u8, 15u8),  // 20
        (3, 30),      // 40
        (5, 50),      // 60
        (7, 70),      // 80
        (9, 85),      // 100
        (10, 95),     // 110
    ];
    for (quality, band) in expected {
        let (_, result, _) = process_survey_response(&user_input(quality, 1000, 3), &analytics_zero());
        assert_eq!(result.percentile_rank, band, "quality {quality}");
    }
}

#[test]
fn time_bonus_tiers_cover_every_branch() {
    let (_, fast, _) = process_survey_response(&user_input(5, 299, 3), &analytics_zero());
    assert_eq!(fast.time_bonus, 50);
    let (_, mid, _) = process_survey_response(&user_input(5, 300, 3), &analytics_zero());
    assert_eq!(mid.time_bonus, 25);
    let (_, mid_hi, _) = process_survey_response(&user_input(5, 599, 3), &analytics_zero());
    assert_eq!(mid_hi.time_bonus, 25);
    let (_, slow, _) = process_survey_response(&user_input(5, 600, 3), &analytics_zero());
    assert_eq!(slow.time_bonus, 10);
}

#[test]
fn insight_tiers_cover_every_branch() {
    // Middle trend and prediction bands.
    let (_, _, mid) = process_survey_response(&user_input(6, 500, 3), &analytics_zero());
    assert_eq!(mid.trend_analysis, 6);
    assert_eq!(mid.anomaly_detection, 5);
    assert_eq!(mid.predictive_score, 7);
    assert_eq!(mid.optimization_suggestions, 5);

    let (_, _, moderate) = process_survey_response(&user_input(4, 700, 2), &analytics_zero());
    assert_eq!(moderate.trend_analysis, 5);
    assert_eq!(moderate.anomaly_detection, 5);
    assert_eq!(moderate.predictive_score, 5);
    assert_eq!(moderate.optimization_suggestions, 7);

    // A perfect score delivered suspiciously fast is a high anomaly.
    let (_, _, suspicious) = process_survey_response(&user_input(10, 50, 5), &analytics_zero());
    assert_eq!(suspicious.trend_analysis, 8);
    assert_eq!(suspicious.anomaly_detection, 9);
    assert_eq!(suspicious.predictive_score, 9);
    assert_eq!(suspicious.optimization_suggestions, 3);

    // A weak but not glacial response lands in the slight-negative band.
    let (_, _, weak) = process_survey_response(&user_input(2, 950, 1), &analytics_zero());
    assert_eq!(weak.trend_analysis, 4);
    assert_eq!(weak.anomaly_detection, 5);
    assert_eq!(weak.predictive_score, 3);
    assert_eq!(weak.optimization_suggestions, 9);
}

#[test]
fn create_survey_top_competitive_band() {
    // Complexity 8, audience 4, duration 15: the top advantage band.
    let (_, analysis) = create_survey(&survey_data(5, 5, 5, 8, 4, 15));
    assert_eq!(analysis.competitive_advantage, 9);
    assert_eq!(analysis.estimated_response_rate, 70);
}

#[test]
fn analytics_update_accumulates() {
    let base = SurveyAnalytics {
        total_responses: 7,
        average_quality: 3,
        total_completion_time: 1000,
        quality_threshold: 6,
    };
    let (updated, _, _) = process_survey_response(&user_input(5, 400, 3), &base);
    assert_eq!(updated.total_responses, 8);
    assert_eq!(updated.total_completion_time, 1400);
    assert_eq!(updated.average_quality, 3);
    assert_eq!(updated.quality_threshold, 6);
}

fn survey_data(
    title: u8,
    description: u8,
    questions: u8,
    complexity: u8,
    audience: u8,
    duration: u16,
) -> SurveyData {
    SurveyData {
        title_length: title,
        description_length: description,
        question_count: questions,
        complexity_score: complexity,
        target_audience: audience,
        estimated_duration: duration,
    }
}

#[test]
fn create_survey_premium_band() {
    // base = 20*2 + 30*3 + 10*10 = 230; bonuses 50 + 40 + 30; total 350.
    let (metrics, analysis) = create_survey(&survey_data(20, 30, 10, 8, 4, 35));
    assert_eq!(metrics.base_score, 230);
    assert_eq!(metrics.complexity_bonus, 50);
    assert_eq!(metrics.audience_bonus, 40);
    assert_eq!(metrics.duration_bonus, 30);
    assert_eq!(metrics.total_score, 350);
    assert_eq!(metrics.quality_tier, 5);
    assert_eq!(analysis.market_fit_score, 9);
    assert_eq!(analysis.target_demographic, 5);
    assert_eq!(analysis.estimated_response_rate, 40);
    assert_eq!(analysis.competitive_advantage, 5);
}

#[test]
fn create_survey_simple_band() {
    // base = 1*2 + 1*3 + 1*10 = 15; bonuses 10 + 5 + 10; total 40.
    let (metrics, analysis) = create_survey(&survey_data(1, 1, 1, 1, 1, 5));
    assert_eq!(metrics.base_score, 15);
    assert_eq!(metrics.complexity_bonus, 10);
    assert_eq!(metrics.audience_bonus, 5);
    assert_eq!(metrics.duration_bonus, 10);
    assert_eq!(metrics.total_score, 40);
    assert_eq!(metrics.quality_tier, 1);
    assert_eq!(analysis.market_fit_score, 3);
    assert_eq!(analysis.target_demographic, 1);
    assert_eq!(analysis.estimated_response_rate, 85);
    assert_eq!(analysis.competitive_advantage, 3);
}

#[test]
fn create_survey_middle_bands() {
    // base = 5*2 + 10*3 + 5*10 = 90; bonuses 25 + 20 + 20; total 155 -> tier 4.
    let (metrics, analysis) = create_survey(&survey_data(5, 10, 5, 6, 3, 20));
    assert_eq!(metrics.total_score, 155);
    assert_eq!(metrics.quality_tier, 4);
    assert_eq!(analysis.market_fit_score, 7);
    assert_eq!(analysis.target_demographic, 4);
    assert_eq!(analysis.estimated_response_rate, 55);
    assert_eq!(analysis.competitive_advantage, 7);
    // base = 2*2 + 2*3 + 3*10 = 40; bonuses 10 + 20 + 10; total 80 -> tier 2.
    let (metrics2, analysis2) = create_survey(&survey_data(2, 2, 3, 4, 2, 10));
    assert_eq!(metrics2.total_score, 80);
    assert_eq!(metrics2.quality_tier, 2);
    assert_eq!(analysis2.market_fit_score, 5);
    assert_eq!(analysis2.target_demographic, 3);
    assert_eq!(analysis2.estimated_response_rate, 70);
    assert_eq!(analysis2.competitive_advantage, 5);
    // base = 10*2 + 10*3 + 6*10 = 110; bonuses 10 + 5 + 10; total 135 -> tier 3.
    let (metrics3, _) = create_survey(&survey_data(10, 10, 6, 2, 1, 8));
    assert_eq!(metrics3.total_score, 135);
    assert_eq!(metrics3.quality_tier, 3);
}

#[test]
fn submit_response_full_breakdown() {
    // base = 100*2 + 5*10 = 250; category 25; feedback 20; fresh time 20.
    let input = InputValues {
        response: 100,
        rating: 5,
        feedback_length: 60,
        category: 2,
        timestamp: CURRENT_TIME,
    };
    let (processed, eligibility) = submit_response(&input);
    assert_eq!(processed.score, 250);
    assert_eq!(processed.category_score, 25);
    assert_eq!(processed.time_bonus, 20);
    assert_eq!(processed.total, 315);
    assert!(!eligibility.is_eligible);
    assert_eq!(eligibility.risk_score, 8);
    assert_eq!(eligibility.recommended_limit, 10000);
}

#[test]
fn submit_response_eligible_low_risk() {
    // base = 500*2 + 9*10 = 1090; category 50; feedback 30; fresh time 20.
    let input = InputValues {
        response: 500,
        rating: 9,
        feedback_length: 150,
        category: 5,
        timestamp: CURRENT_TIME + 1000,
    };
    let (processed, eligibility) = submit_response(&input);
    assert_eq!(processed.total, 1190);
    assert!(eligibility.is_eligible);
    assert_eq!(eligibility.risk_score, 2);
    assert_eq!(eligibility.recommended_limit, 10000);
}

#[test]
fn submit_response_stale_timestamp_loses_freshness() {
    // Two days past the reference moment: time bonus 5, medium risk band gone.
    let input = InputValues {
        response: 10,
        rating: 7,
        feedback_length: 10,
        category: 1,
        timestamp: CURRENT_TIME + 200000,
    };
    let (processed, eligibility) = submit_response(&input);
    assert_eq!(processed.score, 90);
    assert_eq!(processed.category_score, 10);
    assert_eq!(processed.time_bonus, 5);
    assert_eq!(processed.total, 115);
    assert_eq!(eligibility.risk_score, 8);
    assert_eq!(eligibility.recommended_limit, 2000);
}

#[test]
fn submit_response_medium_risk_band() {
    // A day and a half out with rating 6: medium risk.
    let input = InputValues {
        response: 10,
        rating: 6,
        feedback_length: 55,
        category: 4,
        timestamp: CURRENT_TIME + 100000,
    };
    let (processed, eligibility) = submit_response(&input);
    assert_eq!(processed.category_score, 50);
    assert_eq!(processed.time_bonus, 5);
    assert_eq!(eligibility.risk_score, 5);
    assert_eq!(processed.total, 155);
    assert_eq!(eligibility.recommended_limit, 5000);
}

#[test]
fn recommended_limit_covers_every_branch() {
    // Totals land in each band: 500-limit needs total <= 100.
    let tiny = InputValues {
        response: 1,
        rating: 0,
        feedback_length: 0,
        category: 1,
        timestamp: CURRENT_TIME,
    };
    let (processed, eligibility) = submit_response(&tiny);
    assert_eq!(processed.total, 42);
    assert_eq!(eligibility.recommended_limit, 500);
}
