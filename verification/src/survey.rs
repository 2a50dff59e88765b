//! The survey-creation circuit: from one secret description of a survey it
//! derives the creator's full score breakdown and, sealed separately, the
//! analyst's market assessment. Every bonus and tier is a fixed cascade of
//! comparisons folded through oblivious selects, so all branches execute for
//! every input.
use crate::select::select_u64;
use crate::select::select_u8;
use vstd::prelude::*;

verus! {

/// One secret survey description. All fields are bounded, fixed-width
/// values; the structure has no variable-length part.
pub struct SurveyData {
    pub title_length: u8,
    pub description_length: u8,
    pub question_count: u8,
    pub complexity_score: u8,
    pub target_audience: u8,
    pub estimated_duration: u16,
}

/// The creator's view of the computation: the full score breakdown.
#[verifier::ext_equal]
pub struct SurveyMetrics {
    pub base_score: u64,
    pub complexity_bonus: u64,
    pub audience_bonus: u64,
    pub duration_bonus: u64,
    pub total_score: u64,
    pub quality_tier: u8,
}

/// The analyst's view of the computation: market insights only, never the
/// creator's raw scores.
#[verifier::ext_equal]
pub struct SurveyAnalysis {
    pub market_fit_score: u8,
    pub target_demographic: u8,
    pub estimated_response_rate: u8,
    pub competitive_advantage: u8,
}

/// The length-weighted base score of a survey.
pub open spec fn base_score(d: SurveyData) -> int {
    d.title_length * 2 + d.description_length * 3 + d.question_count * 10
}

/// The complexity bonus tier.
pub open spec fn complexity_bonus(complexity: u8) -> u64 {
    if complexity > 7 {
        50
    } else if complexity > 4 {
        25
    } else {
        10
    }
}

/// The audience-targeting bonus tier.
pub open spec fn audience_bonus(audience: u8) -> u64 {
    if audience > 3 {
        40
    } else if audience > 1 {
        20
    } else {
        5
    }
}

/// The duration bonus tier.
pub open spec fn duration_bonus(duration: u16) -> u64 {
    if duration > 30 {
        30
    } else if duration > 15 {
        20
    } else {
        10
    }
}

/// The total survey score: base score plus every bonus.
pub open spec fn total_score(d: SurveyData) -> int {
    base_score(d) + complexity_bonus(d.complexity_score) + audience_bonus(d.target_audience)
        + duration_bonus(d.estimated_duration)
}

/// The quality tier of a total score: a monotone step function onto five
/// tiers.
pub open spec fn quality_tier(total: int) -> u8 {
    if total > 200 {
        5
    } else if total > 150 {
        4
    } else if total > 100 {
        3
    } else if total > 50 {
        2
    } else {
        1
    }
}

/// The analyst's market-fit tier.
pub open spec fn market_fit_score(d: SurveyData) -> u8 {
    if d.complexity_score >= 7 && d.target_audience >= 4 {
        9
    } else if d.complexity_score >= 5 && d.target_audience >= 3 {
        7
    } else if d.complexity_score >= 3 && d.target_audience >= 2 {
        5
    } else {
        3
    }
}

/// The analyst's demographic tier, a monotone step function of complexity.
pub open spec fn target_demographic(complexity: u8) -> u8 {
    if complexity >= 8 {
        5
    } else if complexity >= 6 {
        4
    } else if complexity >= 4 {
        3
    } else if complexity >= 2 {
        2
    } else {
        1
    }
}

/// The analyst's expected response rate tier.
pub open spec fn estimated_response_rate(d: SurveyData) -> u8 {
    if d.estimated_duration <= 5 && d.question_count <= 5 {
        85
    } else if d.estimated_duration <= 15 && d.question_count <= 10 {
        70
    } else if d.estimated_duration <= 30 && d.question_count <= 20 {
        55
    } else {
        40
    }
}

/// The analyst's competitive-advantage tier.
pub open spec fn competitive_advantage(d: SurveyData) -> u8 {
    if d.complexity_score >= 8 && d.target_audience >= 4 && d.estimated_duration <= 20 {
        9
    } else if d.complexity_score >= 6 && d.target_audience >= 3 && d.estimated_duration <= 30 {
        7
    } else if d.complexity_score >= 4 && d.target_audience >= 2 {
        5
    } else {
        3
    }
}

/// The whole metrics record the creator receives.
pub open spec fn survey_metrics_of(d: SurveyData) -> SurveyMetrics {
    SurveyMetrics {
        base_score: base_score(d) as u64,
        complexity_bonus: complexity_bonus(d.complexity_score),
        audience_bonus: audience_bonus(d.target_audience),
        duration_bonus: duration_bonus(d.estimated_duration),
        total_score: total_score(d) as u64,
        quality_tier: quality_tier(total_score(d)),
    }
}

/// The whole analysis record the analyst receives.
pub open spec fn survey_analysis_of(d: SurveyData) -> SurveyAnalysis {
    SurveyAnalysis {
        market_fit_score: market_fit_score(d),
        target_demographic: target_demographic(d.complexity_score),
        estimated_response_rate: estimated_response_rate(d),
        competitive_advantage: competitive_advantage(d),
    }
}

/// Runs the survey-creation circuit on one secret survey description and
/// yields the creator's metrics and the analyst's assessment, each destined
/// for its own recipient.
pub fn create_survey(input: &SurveyData) -> (r: (SurveyMetrics, SurveyAnalysis))
    ensures
        r.0.base_score == base_score(*input),
        r.0.complexity_bonus == complexity_bonus(input.complexity_score),
        r.0.audience_bonus == audience_bonus(input.target_audience),
        r.0.duration_bonus == duration_bonus(input.estimated_duration),
        r.0.total_score == total_score(*input),
        r.0.quality_tier == quality_tier(total_score(*input)),
        r.1.market_fit_score == market_fit_score(*input),
        r.1.target_demographic == target_demographic(input.complexity_score),
        r.1.estimated_response_rate == estimated_response_rate(*input),
        r.1.competitive_advantage == competitive_advantage(*input),
        r.0 == survey_metrics_of(*input),
        r.1 == survey_analysis_of(*input),
{
    let title_weight = (input.title_length as u64) * 2;
    let desc_weight = (input.description_length as u64) * 3;
    let question_weight = (input.question_count as u64) * 10;
    let base = title_weight + desc_weight + question_weight;

    let complexity = select_u64(
        input.complexity_score > 7,
        50,
        select_u64(input.complexity_score > 4, 25, 10),
    );
    let audience = select_u64(
        input.target_audience > 3,
        40,
        select_u64(input.target_audience > 1, 20, 5),
    );
    let duration = select_u64(
        input.estimated_duration > 30,
        30,
        select_u64(input.estimated_duration > 15, 20, 10),
    );

    let total = base + complexity + audience + duration;

    let tier = select_u8(
        total > 200,
        5,
        select_u8(total > 150, 4, select_u8(total > 100, 3, select_u8(total > 50, 2, 1))),
    );

    let creator_output = SurveyMetrics {
        base_score: base,
        complexity_bonus: complexity,
        audience_bonus: audience,
        duration_bonus: duration,
        total_score: total,
        quality_tier: tier,
    };

    let market_fit = select_u8(
        input.complexity_score >= 7 && input.target_audience >= 4,
        9,
        select_u8(
            input.complexity_score >= 5 && input.target_audience >= 3,
            7,
            select_u8(input.complexity_score >= 3 && input.target_audience >= 2, 5, 3),
        ),
    );

    let demographic = select_u8(
        input.complexity_score >= 8,
        5,
        select_u8(
            input.complexity_score >= 6,
            4,
            select_u8(input.complexity_score >= 4, 3, select_u8(input.complexity_score >= 2, 2, 1)),
        ),
    );

    let response_rate = select_u8(
        input.estimated_duration <= 5 && input.question_count <= 5,
        85,
        select_u8(
            input.estimated_duration <= 15 && input.question_count <= 10,
            70,
            select_u8(input.estimated_duration <= 30 && input.question_count <= 20, 55, 40),
        ),
    );

    let advantage = select_u8(
        input.complexity_score >= 8 && input.target_audience >= 4 && input.estimated_duration
            <= 20,
        9,
        select_u8(
            input.complexity_score >= 6 && input.target_audience >= 3 && input.estimated_duration
                <= 30,
            7,
            select_u8(input.complexity_score >= 4 && input.target_audience >= 2, 5, 3),
        ),
    );

    let analyst_output = SurveyAnalysis {
        market_fit_score: market_fit,
        target_demographic: demographic,
        estimated_response_rate: response_rate,
        competitive_advantage: advantage,
    };

    proof {
        assert(creator_output =~= survey_metrics_of(*input));
        assert(analyst_output =~= survey_analysis_of(*input));
    }
    (creator_output, analyst_output)
}

/// Raising the total score never lowers the quality tier.
pub proof fn lemma_quality_tier_monotone(a: int, b: int)
    requires
        a <= b,
    ensures
        quality_tier(a) <= quality_tier(b),
{
}

/// Raising the complexity never lowers the demographic tier.
pub proof fn lemma_target_demographic_monotone(a: u8, b: u8)
    requires
        a <= b,
    ensures
        target_demographic(a) <= target_demographic(b),
{
}

/// Raising the complexity never lowers the complexity bonus.
pub proof fn lemma_complexity_bonus_monotone(a: u8, b: u8)
    requires
        a <= b,
    ensures
        complexity_bonus(a) <= complexity_bonus(b),
{
}

/// Raising the audience rating never lowers the audience bonus.
pub proof fn lemma_audience_bonus_monotone(a: u8, b: u8)
    requires
        a <= b,
    ensures
        audience_bonus(a) <= audience_bonus(b),
{
}

/// Lengthening the duration never lowers the duration bonus.
pub proof fn lemma_duration_bonus_monotone(a: u16, b: u16)
    requires
        a <= b,
    ensures
        duration_bonus(a) <= duration_bonus(b),
{
}

} // verus!
