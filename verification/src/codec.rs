//! Byte layouts of the secret records. Every record has a fixed layout —
//! field count, field widths and order are static — so a record always
//! encodes to the same number of bytes and decoding rejects exactly the
//! inputs of the wrong length. Integers are laid out least significant byte
//! first.
use crate::advanced::DataInsights;
use crate::advanced::SurveyAnalytics;
use crate::advanced::SurveyResult;
use crate::response::InputValues;
use crate::response::LoanEligibility;
use crate::response::ProcessedResponse;
use crate::survey::SurveyAnalysis;
use crate::survey::SurveyMetrics;
use vstd::prelude::*;

verus! {

/// The encoded width of one response input record.
pub const INPUT_VALUES_LEN: usize = 20;

/// A word's eight bytes, least significant first.
pub open spec fn u64_le(n: u64) -> Seq<u8> {
    seq![
        (n & 0xff) as u8,
        ((n >> 8) & 0xff) as u8,
        ((n >> 16) & 0xff) as u8,
        ((n >> 24) & 0xff) as u8,
        ((n >> 32) & 0xff) as u8,
        ((n >> 40) & 0xff) as u8,
        ((n >> 48) & 0xff) as u8,
        ((n >> 56) & 0xff) as u8,
    ]
}

/// A halfword's two bytes, least significant first.
pub open spec fn u16_le(n: u16) -> Seq<u8> {
    seq![(n & 0xff) as u8, ((n >> 8) & 0xff) as u8]
}

/// The word eight little-endian bytes recompose to.
pub open spec fn u64_from_le(
    b0: u8,
    b1: u8,
    b2: u8,
    b3: u8,
    b4: u8,
    b5: u8,
    b6: u8,
    b7: u8,
) -> u64 {
    (b0 as u64) | ((b1 as u64) << 8) | ((b2 as u64) << 16) | ((b3 as u64) << 24) | ((b4 as u64)
        << 32) | ((b5 as u64) << 40) | ((b6 as u64) << 48) | ((b7 as u64) << 56)
}

/// The halfword two little-endian bytes recompose to.
pub open spec fn u16_from_le(b0: u8, b1: u8) -> u16 {
    (b0 as u16) | ((b1 as u16) << 8)
}

/// Recomposing a word's little-endian bytes yields the word back.
pub proof fn lemma_u64_le_round(n: u64)
    ensures
        u64_from_le(
            (n & 0xff) as u8,
            ((n >> 8) & 0xff) as u8,
            ((n >> 16) & 0xff) as u8,
            ((n >> 24) & 0xff) as u8,
            ((n >> 32) & 0xff) as u8,
            ((n >> 40) & 0xff) as u8,
            ((n >> 48) & 0xff) as u8,
            ((n >> 56) & 0xff) as u8,
        ) == n,
{
    assert((((n & 0xff) as u8) as u64) | ((((n >> 8) & 0xff) as u8) as u64) << 8 | ((((n >> 16)
        & 0xff) as u8) as u64) << 16 | ((((n >> 24) & 0xff) as u8) as u64) << 24 | ((((n >> 32)
        & 0xff) as u8) as u64) << 32 | ((((n >> 40) & 0xff) as u8) as u64) << 40 | ((((n >> 48)
        & 0xff) as u8) as u64) << 48 | ((((n >> 56) & 0xff) as u8) as u64) << 56 == n)
        by (bit_vector);
}

/// Recomposing a halfword's little-endian bytes yields the halfword back.
pub proof fn lemma_u16_le_round(n: u16)
    ensures
        u16_from_le((n & 0xff) as u8, ((n >> 8) & 0xff) as u8) == n,
{
    assert((((n & 0xff) as u8) as u16) | ((((n >> 8) & 0xff) as u8) as u16) << 8 == n)
        by (bit_vector);
}

/// The byte layout of one response input record.
pub open spec fn input_values_bytes(v: InputValues) -> Seq<u8> {
    u64_le(v.response) + seq![v.rating] + u16_le(v.feedback_length) + seq![v.category] + u64_le(
        v.timestamp,
    )
}

/// The byte layout of one processed-response record.
pub open spec fn processed_response_bytes(p: ProcessedResponse) -> Seq<u8> {
    u64_le(p.score) + u64_le(p.category_score) + u64_le(p.time_bonus) + u64_le(p.total)
}

/// The byte layout of one loan-eligibility record.
pub open spec fn loan_eligibility_bytes(l: LoanEligibility) -> Seq<u8> {
    seq![
        if l.is_eligible {
            1u8
        } else {
            0u8
        },
        l.risk_score,
    ] + u64_le(l.recommended_limit)
}

/// Appends a word's little-endian bytes.
fn push_u64_le(out: &mut Vec<u8>, n: u64)
    ensures
        final(out)@ == old(out)@ + u64_le(n),
{
    proof {
        assert((n & 0xff) < 256 && ((n >> 8) & 0xff) < 256 && ((n >> 16) & 0xff) < 256 && ((n
            >> 24) & 0xff) < 256 && ((n >> 32) & 0xff) < 256 && ((n >> 40) & 0xff) < 256 && ((n
            >> 48) & 0xff) < 256 && ((n >> 56) & 0xff) < 256) by (bit_vector);
    }
    out.push((n & 0xff) as u8);
    out.push(((n >> 8) & 0xff) as u8);
    out.push(((n >> 16) & 0xff) as u8);
    out.push(((n >> 24) & 0xff) as u8);
    out.push(((n >> 32) & 0xff) as u8);
    out.push(((n >> 40) & 0xff) as u8);
    out.push(((n >> 48) & 0xff) as u8);
    out.push(((n >> 56) & 0xff) as u8);
    proof {
        assert(out@ =~= old(out)@ + u64_le(n));
    }
}

/// Reads the word at a position, least significant byte first.
fn read_u64_le(bytes: &Vec<u8>, at: usize) -> (n: u64)
    requires
        at + 8 <= bytes@.len(),
    ensures
        n == u64_from_le(
            bytes@[at as int],
            bytes@[at + 1],
            bytes@[at + 2],
            bytes@[at + 3],
            bytes@[at + 4],
            bytes@[at + 5],
            bytes@[at + 6],
            bytes@[at + 7],
        ),
{
    let len = bytes.len();
    proof {
        assert(at + 7 < len);
    }
    (bytes[at] as u64) | ((bytes[at + 1] as u64) << 8) | ((bytes[at + 2] as u64) << 16) | ((
    bytes[at + 3] as u64) << 24) | ((bytes[at + 4] as u64) << 32) | ((bytes[at + 5] as u64) << 40)
        | ((bytes[at + 6] as u64) << 48) | ((bytes[at + 7] as u64) << 56)
}

/// Encodes one response input record into its fixed twenty-byte layout.
pub fn encode_input_values(v: &InputValues) -> (r: Vec<u8>)
    ensures
        r@ == input_values_bytes(*v),
        r@.len() == INPUT_VALUES_LEN,
{
    let mut out: Vec<u8> = Vec::new();
    push_u64_le(&mut out, v.response);
    out.push(v.rating);
    proof {
        let fl = v.feedback_length;
        assert((fl & 0xff) < 256 && ((fl >> 8) & 0xff) < 256) by (bit_vector);
    }
    out.push((v.feedback_length & 0xff) as u8);
    out.push(((v.feedback_length >> 8) & 0xff) as u8);
    out.push(v.category);
    push_u64_le(&mut out, v.timestamp);
    proof {
        assert(out@ =~= input_values_bytes(*v));
    }
    out
}

/// Decodes a response input record from its fixed twenty-byte layout;
/// exactly the inputs of another length are rejected. A decoded record
/// encodes back to the given bytes.
pub fn decode_input_values(bytes: &Vec<u8>) -> (r: Option<InputValues>)
    ensures
        r is Some <==> bytes@.len() == INPUT_VALUES_LEN,
        match r {
            Some(v) => input_values_bytes(v) == bytes@,
            None => true,
        },
{
    if bytes.len() != INPUT_VALUES_LEN {
        return None;
    }
    let response = read_u64_le(bytes, 0);
    let rating = bytes[8];
    let feedback_length = (bytes[9] as u16) | ((bytes[10] as u16) << 8);
    let category = bytes[11];
    let timestamp = read_u64_le(bytes, 12);
    let v = InputValues { response, rating, feedback_length, category, timestamp };
    proof {
        let b9 = bytes@[9];
        let b10 = bytes@[10];
        assert(((b9 as u16) | ((b10 as u16) << 8)) & 0xff == b9 && (((b9 as u16) | ((b10 as u16)
            << 8)) >> 8) & 0xff == b10) by (bit_vector);
        lemma_u64_from_le_round(
            bytes@[0],
            bytes@[1],
            bytes@[2],
            bytes@[3],
            bytes@[4],
            bytes@[5],
            bytes@[6],
            bytes@[7],
        );
        lemma_u64_from_le_round(
            bytes@[12],
            bytes@[13],
            bytes@[14],
            bytes@[15],
            bytes@[16],
            bytes@[17],
            bytes@[18],
            bytes@[19],
        );
        assert(input_values_bytes(v) =~= bytes@);
    }
    Some(v)
}

/// Splitting a recomposed word back into little-endian bytes yields the
/// bytes back.
pub proof fn lemma_u64_from_le_round(
    b0: u8,
    b1: u8,
    b2: u8,
    b3: u8,
    b4: u8,
    b5: u8,
    b6: u8,
    b7: u8,
)
    ensures
        u64_le(u64_from_le(b0, b1, b2, b3, b4, b5, b6, b7)) == seq![b0, b1, b2, b3, b4, b5, b6, b7],
{
    let n = u64_from_le(b0, b1, b2, b3, b4, b5, b6, b7);
    assert({
        let m = (b0 as u64) | ((b1 as u64) << 8) | ((b2 as u64) << 16) | ((b3 as u64) << 24) | ((
        b4 as u64) << 32) | ((b5 as u64) << 40) | ((b6 as u64) << 48) | ((b7 as u64) << 56);
        (m & 0xff) as u8 == b0 && ((m >> 8) & 0xff) as u8 == b1 && ((m >> 16) & 0xff) as u8 == b2
            && ((m >> 24) & 0xff) as u8 == b3 && ((m >> 32) & 0xff) as u8 == b4 && ((m >> 40)
            & 0xff) as u8 == b5 && ((m >> 48) & 0xff) as u8 == b6 && ((m >> 56) & 0xff) as u8 == b7
    }) by (bit_vector);
    assert(u64_le(n) =~= seq![b0, b1, b2, b3, b4, b5, b6, b7]);
}

/// The byte layout pins the record down: two records with the same bytes
/// are the same record, so decoding what a record encodes to yields that
/// record and nothing else.
pub proof fn lemma_input_values_bytes_injective(v: InputValues)
    ensures
        forall|w: InputValues| input_values_bytes(w) == input_values_bytes(v) ==> w == v,
{
    assert forall|w: InputValues| input_values_bytes(w) == input_values_bytes(v) implies w
        == v by {
        let bv = input_values_bytes(v);
        let bw = input_values_bytes(w);
        lemma_u64_le_round(v.response);
        lemma_u64_le_round(w.response);
        lemma_u64_le_round(v.timestamp);
        lemma_u64_le_round(w.timestamp);
        lemma_u16_le_round(v.feedback_length);
        lemma_u16_le_round(w.feedback_length);
        assert(bw[0] == bv[0] && bw[1] == bv[1] && bw[2] == bv[2] && bw[3] == bv[3] && bw[4]
            == bv[4] && bw[5] == bv[5] && bw[6] == bv[6] && bw[7] == bv[7] && bw[8] == bv[8]
            && bw[9] == bv[9] && bw[10] == bv[10] && bw[11] == bv[11] && bw[12] == bv[12] && bw[13]
            == bv[13] && bw[14] == bv[14] && bw[15] == bv[15] && bw[16] == bv[16] && bw[17]
            == bv[17] && bw[18] == bv[18] && bw[19] == bv[19]);
    }
}

/// The byte layout of one survey-metrics record.
pub open spec fn survey_metrics_bytes(m: SurveyMetrics) -> Seq<u8> {
    u64_le(m.base_score) + u64_le(m.complexity_bonus) + u64_le(m.audience_bonus) + u64_le(
        m.duration_bonus,
    ) + u64_le(m.total_score) + seq![m.quality_tier]
}

/// The byte layout of one survey-analysis record.
pub open spec fn survey_analysis_bytes(a: SurveyAnalysis) -> Seq<u8> {
    seq![
        a.market_fit_score,
        a.target_demographic,
        a.estimated_response_rate,
        a.competitive_advantage,
    ]
}

/// The byte layout of one analytics aggregate record.
pub open spec fn survey_analytics_bytes(a: SurveyAnalytics) -> Seq<u8> {
    u64_le(a.total_responses) + u64_le(a.average_quality) + u64_le(a.total_completion_time)
        + seq![a.quality_threshold]
}

/// The byte layout of one survey-result record.
pub open spec fn survey_result_bytes(s: SurveyResult) -> Seq<u8> {
    u64_le(s.user_score) + seq![s.percentile_rank] + u64_le(s.quality_bonus) + u64_le(s.time_bonus)
        + u64_le(s.total_bonus)
}

/// The byte layout of one data-insight record.
pub open spec fn data_insights_bytes(d: DataInsights) -> Seq<u8> {
    seq![d.trend_analysis, d.anomaly_detection, d.predictive_score, d.optimization_suggestions]
}

/// Encodes one survey-metrics record into its fixed layout.
pub fn encode_survey_metrics(m: &SurveyMetrics) -> (r: Vec<u8>)
    ensures
        r@ == survey_metrics_bytes(*m),
{
    let mut out: Vec<u8> = Vec::new();
    push_u64_le(&mut out, m.base_score);
    push_u64_le(&mut out, m.complexity_bonus);
    push_u64_le(&mut out, m.audience_bonus);
    push_u64_le(&mut out, m.duration_bonus);
    push_u64_le(&mut out, m.total_score);
    out.push(m.quality_tier);
    proof {
        assert(out@ =~= survey_metrics_bytes(*m));
    }
    out
}

/// Encodes one survey-analysis record into its fixed layout.
pub fn encode_survey_analysis(a: &SurveyAnalysis) -> (r: Vec<u8>)
    ensures
        r@ == survey_analysis_bytes(*a),
{
    let mut out: Vec<u8> = Vec::new();
    out.push(a.market_fit_score);
    out.push(a.target_demographic);
    out.push(a.estimated_response_rate);
    out.push(a.competitive_advantage);
    proof {
        assert(out@ =~= survey_analysis_bytes(*a));
    }
    out
}

/// Encodes one analytics aggregate record into its fixed layout.
pub fn encode_survey_analytics(a: &SurveyAnalytics) -> (r: Vec<u8>)
    ensures
        r@ == survey_analytics_bytes(*a),
{
    let mut out: Vec<u8> = Vec::new();
    push_u64_le(&mut out, a.total_responses);
    push_u64_le(&mut out, a.average_quality);
    push_u64_le(&mut out, a.total_completion_time);
    out.push(a.quality_threshold);
    proof {
        assert(out@ =~= survey_analytics_bytes(*a));
    }
    out
}

/// Encodes one survey-result record into its fixed layout.
pub fn encode_survey_result(s: &SurveyResult) -> (r: Vec<u8>)
    ensures
        r@ == survey_result_bytes(*s),
{
    let mut out: Vec<u8> = Vec::new();
    push_u64_le(&mut out, s.user_score);
    out.push(s.percentile_rank);
    push_u64_le(&mut out, s.quality_bonus);
    push_u64_le(&mut out, s.time_bonus);
    push_u64_le(&mut out, s.total_bonus);
    proof {
        assert(out@ =~= survey_result_bytes(*s));
    }
    out
}

/// Encodes one data-insight record into its fixed layout.
pub fn encode_data_insights(d: &DataInsights) -> (r: Vec<u8>)
    ensures
        r@ == data_insights_bytes(*d),
{
    let mut out: Vec<u8> = Vec::new();
    out.push(d.trend_analysis);
    out.push(d.anomaly_detection);
    out.push(d.predictive_score);
    out.push(d.optimization_suggestions);
    proof {
        assert(out@ =~= data_insights_bytes(*d));
    }
    out
}

/// Encodes one processed-response record into its fixed layout.
pub fn encode_processed_response(p: &ProcessedResponse) -> (r: Vec<u8>)
    ensures
        r@ == processed_response_bytes(*p),
{
    let mut out: Vec<u8> = Vec::new();
    push_u64_le(&mut out, p.score);
    push_u64_le(&mut out, p.category_score);
    push_u64_le(&mut out, p.time_bonus);
    push_u64_le(&mut out, p.total);
    proof {
        assert(out@ =~= processed_response_bytes(*p));
    }
    out
}

/// Encodes one loan-eligibility record into its fixed layout.
pub fn encode_loan_eligibility(l: &LoanEligibility) -> (r: Vec<u8>)
    ensures
        r@ == loan_eligibility_bytes(*l),
{
    let mut out: Vec<u8> = Vec::new();
    if l.is_eligible {
        out.push(1);
    } else {
        out.push(0);
    }
    out.push(l.risk_score);
    push_u64_le(&mut out, l.recommended_limit);
    proof {
        assert(out@ =~= loan_eligibility_bytes(*l));
    }
    out
}

} // verus!
