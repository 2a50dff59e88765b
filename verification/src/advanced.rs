//! The multi-party survey-response circuit: one secret response plus the
//! running analytics aggregate go in; the updated aggregate (re-sealed for
//! the authority that supplied it), the respondent's score breakdown and the
//! data scientist's insights come out, each destined for its own recipient.
//! All tiers are select cascades: every branch executes for every input.
use crate::select::select_u64;
use crate::select::select_u8;
use vstd::prelude::*;

verus! {

/// One secret survey response.
pub struct UserSurveyInput {
    pub user_id: u128,
    pub response_quality: u8,
    pub completion_time: u64,
    pub satisfaction_score: u8,
}

/// The running aggregate over all responses, held only by the computation
/// authority and never emitted in cleartext.
#[verifier::ext_equal]
pub struct SurveyAnalytics {
    pub total_responses: u64,
    pub average_quality: u64,
    pub total_completion_time: u64,
    pub quality_threshold: u8,
}

/// The respondent's view of the computation: the score breakdown.
#[verifier::ext_equal]
pub struct SurveyResult {
    pub user_score: u64,
    pub percentile_rank: u8,
    pub quality_bonus: u64,
    pub time_bonus: u64,
    pub total_bonus: u64,
}

/// The data scientist's view of the computation: pattern insights only,
/// never the respondent's raw values.
#[verifier::ext_equal]
pub struct DataInsights {
    pub trend_analysis: u8,
    pub anomaly_detection: u8,
    pub predictive_score: u8,
    pub optimization_suggestions: u8,
}

/// The quality bonus: ten points per quality unit.
pub open spec fn quality_bonus(quality: u8) -> int {
    quality * 10
}

/// The completion-time bonus tier: quicker completion earns more.
pub open spec fn time_bonus(completion_time: u64) -> u64 {
    if completion_time < 300 {
        50
    } else if completion_time < 600 {
        25
    } else {
        10
    }
}

/// The whole score a response earns.
pub open spec fn user_score(input: UserSurveyInput) -> int {
    quality_bonus(input.response_quality) + time_bonus(input.completion_time)
}

/// The percentile tier of a score: a monotone step function onto six bands.
pub open spec fn percentile_rank(score: int) -> u8 {
    if score > 100 {
        95
    } else if score > 80 {
        85
    } else if score > 60 {
        70
    } else if score > 40 {
        50
    } else if score > 20 {
        30
    } else {
        15
    }
}

/// The trend tier the data scientist sees.
pub open spec fn trend_analysis(input: UserSurveyInput) -> u8 {
    if input.response_quality >= 8 && input.completion_time < 400 {
        8
    } else if input.response_quality >= 6 && input.completion_time < 600 {
        6
    } else if input.response_quality >= 4 && input.completion_time < 800 {
        5
    } else if input.response_quality >= 2 && input.completion_time < 1000 {
        4
    } else {
        2
    }
}

/// The anomaly tier the data scientist sees.
pub open spec fn anomaly_detection(input: UserSurveyInput) -> u8 {
    if input.response_quality == 10 && input.completion_time < 100 {
        9
    } else if input.response_quality <= 2 && input.completion_time > 1200 {
        8
    } else if input.response_quality >= 8 && input.completion_time < 300 {
        3
    } else {
        5
    }
}

/// The prediction-confidence tier the data scientist sees.
pub open spec fn predictive_score(input: UserSurveyInput) -> u8 {
    if input.response_quality >= 8 && input.satisfaction_score >= 4 {
        9
    } else if input.response_quality >= 6 && input.satisfaction_score >= 3 {
        7
    } else if input.response_quality >= 4 && input.satisfaction_score >= 2 {
        5
    } else {
        3
    }
}

/// The optimization-potential tier the data scientist sees.
pub open spec fn optimization_suggestions(input: UserSurveyInput) -> u8 {
    if input.completion_time > 900 && input.response_quality <= 5 {
        9
    } else if input.completion_time > 600 && input.response_quality <= 7 {
        7
    } else if input.completion_time > 400 && input.response_quality <= 8 {
        5
    } else {
        3
    }
}

/// The whole aggregate record after folding in one response.
pub open spec fn updated_analytics_of(
    analytics: SurveyAnalytics,
    input: UserSurveyInput,
) -> SurveyAnalytics {
    SurveyAnalytics {
        total_responses: (analytics.total_responses + 1) as u64,
        average_quality: analytics.average_quality,
        total_completion_time: (analytics.total_completion_time + input.completion_time) as u64,
        quality_threshold: analytics.quality_threshold,
    }
}

/// The whole score record the respondent receives.
pub open spec fn survey_result_of(input: UserSurveyInput) -> SurveyResult {
    SurveyResult {
        user_score: user_score(input) as u64,
        percentile_rank: percentile_rank(user_score(input)),
        quality_bonus: quality_bonus(input.response_quality) as u64,
        time_bonus: time_bonus(input.completion_time),
        total_bonus: user_score(input) as u64,
    }
}

/// The whole insight record the data scientist receives.
pub open spec fn data_insights_of(input: UserSurveyInput) -> DataInsights {
    DataInsights {
        trend_analysis: trend_analysis(input),
        anomaly_detection: anomaly_detection(input),
        predictive_score: predictive_score(input),
        optimization_suggestions: optimization_suggestions(input),
    }
}

/// Runs the survey-response circuit: updates the aggregate as a pure
/// function of (old aggregate, new response), scores the response for the
/// respondent, and derives the data scientist's insights. The caller keeps
/// the aggregate counters within their documented ranges; the circuit does
/// not validate them.
pub fn process_survey_response(
    user_input: &UserSurveyInput,
    analytics: &SurveyAnalytics,
) -> (r: (SurveyAnalytics, SurveyResult, DataInsights))
    requires
        analytics.total_responses + 1 <= u64::MAX,
        analytics.total_completion_time + user_input.completion_time <= u64::MAX,
    ensures
        r.0.total_responses == analytics.total_responses + 1,
        r.0.total_completion_time == analytics.total_completion_time
            + user_input.completion_time,
        r.0.average_quality == analytics.average_quality,
        r.0.quality_threshold == analytics.quality_threshold,
        r.1.quality_bonus == quality_bonus(user_input.response_quality),
        r.1.time_bonus == time_bonus(user_input.completion_time),
        r.1.user_score == user_score(*user_input),
        r.1.total_bonus == user_score(*user_input),
        r.1.percentile_rank == percentile_rank(user_score(*user_input)),
        r.2.trend_analysis == trend_analysis(*user_input),
        r.2.anomaly_detection == anomaly_detection(*user_input),
        r.2.predictive_score == predictive_score(*user_input),
        r.2.optimization_suggestions == optimization_suggestions(*user_input),
        r.0 == updated_analytics_of(*analytics, *user_input),
        r.1 == survey_result_of(*user_input),
        r.2 == data_insights_of(*user_input),
{
    let quality = (user_input.response_quality as u64) * 10;
    let time = select_u64(
        user_input.completion_time < 300,
        50,
        select_u64(user_input.completion_time < 600, 25, 10),
    );

    let updated_analytics = SurveyAnalytics {
        total_responses: analytics.total_responses + 1,
        average_quality: analytics.average_quality,
        total_completion_time: analytics.total_completion_time + user_input.completion_time,
        quality_threshold: analytics.quality_threshold,
    };

    let score = quality + time;
    let percentile = select_u8(
        score > 100,
        95,
        select_u8(
            score > 80,
            85,
            select_u8(score > 60, 70, select_u8(score > 40, 50, select_u8(score > 20, 30, 15))),
        ),
    );

    let user_result = SurveyResult {
        user_score: score,
        percentile_rank: percentile,
        quality_bonus: quality,
        time_bonus: time,
        total_bonus: score,
    };

    let trend = select_u8(
        user_input.response_quality >= 8 && user_input.completion_time < 400,
        8,
        select_u8(
            user_input.response_quality >= 6 && user_input.completion_time < 600,
            6,
            select_u8(
                user_input.response_quality >= 4 && user_input.completion_time < 800,
                5,
                select_u8(
                    user_input.response_quality >= 2 && user_input.completion_time < 1000,
                    4,
                    2,
                ),
            ),
        ),
    );

    let anomaly = select_u8(
        user_input.response_quality == 10 && user_input.completion_time < 100,
        9,
        select_u8(
            user_input.response_quality <= 2 && user_input.completion_time > 1200,
            8,
            select_u8(
                user_input.response_quality >= 8 && user_input.completion_time < 300,
                3,
                5,
            ),
        ),
    );

    let predictive = select_u8(
        user_input.response_quality >= 8 && user_input.satisfaction_score >= 4,
        9,
        select_u8(
            user_input.response_quality >= 6 && user_input.satisfaction_score >= 3,
            7,
            select_u8(
                user_input.response_quality >= 4 && user_input.satisfaction_score >= 2,
                5,
                3,
            ),
        ),
    );

    let optimization = select_u8(
        user_input.completion_time > 900 && user_input.response_quality <= 5,
        9,
        select_u8(
            user_input.completion_time > 600 && user_input.response_quality <= 7,
            7,
            select_u8(
                user_input.completion_time > 400 && user_input.response_quality <= 8,
                5,
                3,
            ),
        ),
    );

    let data_insights = DataInsights {
        trend_analysis: trend,
        anomaly_detection: anomaly,
        predictive_score: predictive,
        optimization_suggestions: optimization,
    };

    proof {
        assert(updated_analytics =~= updated_analytics_of(*analytics, *user_input));
        assert(user_result =~= survey_result_of(*user_input));
        assert(data_insights =~= data_insights_of(*user_input));
    }
    (updated_analytics, user_result, data_insights)
}

/// Raising a score never lowers the percentile band.
pub proof fn lemma_percentile_rank_monotone(a: int, b: int)
    requires
        a <= b,
    ensures
        percentile_rank(a) <= percentile_rank(b),
{
}

/// Raising the response quality never lowers the quality bonus.
pub proof fn lemma_quality_bonus_monotone(a: u8, b: u8)
    requires
        a <= b,
    ensures
        quality_bonus(a) <= quality_bonus(b),
{
}

/// Shortening the completion time never lowers the time bonus.
pub proof fn lemma_time_bonus_antitone(a: u64, b: u64)
    requires
        a <= b,
    ensures
        time_bonus(a) >= time_bonus(b),
{
}

} // verus!
