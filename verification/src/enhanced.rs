//! The integer cores of the type-exercise circuits. The original exercises
//! also carry fixed-precision floating fields; those live outside the
//! verified library, which computes every fixed-width integer part here and
//! hands the values back as plain records. All clamps and sign decisions go
//! through oblivious selects in the wide type before a single narrowing
//! cast, so no select arm ever truncates.
use crate::select::select_u64;
use crate::select::select_u8;
use vstd::prelude::*;

verus! {

/// The integer fields of one type-exercise record.
pub struct EnhancedIntInput {
    pub value1: u64,
    pub value2: u8,
    pub value3: u16,
    pub value4: u32,
    pub value5: u128,
    pub value6: usize,
    pub sentiment: i8,
    pub mood_change: i16,
    pub trend_direction: i32,
    pub financial_impact: i64,
    pub flag: bool,
    pub daily_scores: [u32; 7],
    pub monthly_totals: [u64; 12],
}

/// The integer fields of the exercise's outcome.
pub struct EnhancedIntOutput {
    pub result: u64,
    pub processed: u8,
    pub calculated: u16,
    pub sentiment_analysis: i8,
    pub array_index: usize,
    pub weekly_summary: [u32; 7],
    pub annual_stats: [u64; 12],
    pub daily_sum: u32,
    pub monthly_avg: u64,
    pub total_paths: u64,
}

/// The sum of one week of scores.
pub open spec fn weekly_sum(s: Seq<u32>) -> int {
    s[0] + s[1] + s[2] + s[3] + s[4] + s[5] + s[6]
}

/// The sum of one year of totals.
pub open spec fn annual_sum(s: Seq<u64>) -> int {
    s[0] + s[1] + s[2] + s[3] + s[4] + s[5] + s[6] + s[7] + s[8] + s[9] + s[10] + s[11]
}

/// How many of the four positivity paths hold; every path is evaluated.
pub open spec fn enhanced_paths(input: EnhancedIntInput) -> int {
    (if input.value1 > 0 {
        1int
    } else {
        0
    }) + (if input.sentiment > 0 {
        1int
    } else {
        0
    }) + (if input.value3 > 0 {
        1int
    } else {
        0
    }) + (if input.flag {
        1int
    } else {
        0
    })
}

/// The second value clamped below 128.
pub open spec fn small_score(value2: u8) -> u8 {
    if value2 < 128 {
        value2
    } else {
        127
    }
}

/// The fourth value clamped into a 16-bit word.
pub open spec fn medium_score(value4: u32) -> u32 {
    if value4 < 65536 {
        value4
    } else {
        65535
    }
}

/// Runs the integer half of the type exercise over one secret record. The
/// caller keeps the sentiment small and nonnegative and the score arrays
/// within their words, as the exercise's documented ranges say; the circuit
/// does not validate them.
pub fn test_enhanced_types(input: &EnhancedIntInput) -> (r: EnhancedIntOutput)
    requires
        input.value1 + 104 <= u64::MAX,
        0 <= input.sentiment <= 12,
        weekly_sum(input.daily_scores@) <= u32::MAX,
        forall|i: int| 0 <= i < 7 ==> input.daily_scores@[i] + 70 <= u32::MAX,
        annual_sum(input.monthly_totals@) <= u64::MAX,
    ensures
        r.result == input.value1 + 100 + enhanced_paths(*input),
        r.processed == small_score(input.value2),
        r.calculated == medium_score(input.value4),
        r.sentiment_analysis == input.sentiment * 10,
        r.array_index == input.value6,
        r.weekly_summary@.len() == 7,
        forall|i: int| 0 <= i < 7 ==> r.weekly_summary@[i] == input.daily_scores@[i] + 10 * (i
            + 1),
        r.annual_stats@ == input.monthly_totals@,
        r.daily_sum == weekly_sum(input.daily_scores@),
        r.monthly_avg == annual_sum(input.monthly_totals@) / 12,
        r.total_paths == enhanced_paths(*input),
{
    let sum_u64 = input.value1 + 100;

    let small = select_u8(input.value2 < 128, input.value2, 127);
    let medium_wide = select_u64(
        input.value4 < 65536,
        input.value4 as u64,
        65535,
    );
    let medium = medium_wide as u16;

    let sentiment_score = (input.sentiment as u8) * 10;
    let sentiment_analysis = sentiment_score as i8;

    let d = &input.daily_scores;
    let daily_sum = d[0] + d[1] + d[2] + d[3] + d[4] + d[5] + d[6];

    let m = &input.monthly_totals;
    let monthly_sum = m[0] + m[1] + m[2] + m[3] + m[4] + m[5] + m[6] + m[7] + m[8] + m[9] + m[10]
        + m[11];
    let monthly_avg = monthly_sum / 12;

    let enhanced_daily = [
        d[0] + 10,
        d[1] + 20,
        d[2] + 30,
        d[3] + 40,
        d[4] + 50,
        d[5] + 60,
        d[6] + 70,
    ];

    let path1 = select_u64(input.value1 > 0, 1, 0);
    let path2 = select_u64(input.sentiment > 0, 1, 0);
    let path3 = select_u64(input.value3 > 0, 1, 0);
    let path4 = select_u64(input.flag, 1, 0);
    let paths = path1 + path2 + path3 + path4;

    EnhancedIntOutput {
        result: sum_u64 + paths,
        processed: small,
        calculated: medium,
        sentiment_analysis,
        array_index: input.value6,
        weekly_summary: enhanced_daily,
        annual_stats: input.monthly_totals,
        daily_sum,
        monthly_avg,
        total_paths: paths,
    }
}

/// The integer fields of the value-classification exercise.
pub struct TypeSpecificInts {
    pub u8_value: u8,
    pub u16_value: u16,
    pub u32_value: u32,
    pub signed_value: i32,
    pub array_sum: u64,
    pub int_sum: u64,
}

/// The value clamped below the given ceiling.
pub open spec fn clamped(value: u64, ceiling: u64) -> u64 {
    if value < ceiling {
        value
    } else {
        ceiling
    }
}

/// The value folded into the nonnegative signed range.
pub open spec fn signed_fold(value: u64) -> int {
    if value > 2147483647 {
        value - 2147483647
    } else {
        value as int
    }
}

/// The sum of the value's four clampings.
pub open spec fn clamp_sum(value: u64) -> int {
    clamped(value, 255) + clamped(value, 65535) + clamped(value, 4294967295) + value
}

/// Classifies one secret value into every narrower width and sums the
/// clampings. The caller keeps the value inside twice the signed range, as
/// the exercise's documented ranges say; the circuit does not validate it.
pub fn test_type_specific_operations(value: u64) -> (r: TypeSpecificInts)
    requires
        value <= 4294967294,
    ensures
        r.u8_value == clamped(value, 255),
        r.u16_value == clamped(value, 65535),
        r.u32_value == clamped(value, 4294967295),
        r.signed_value == signed_fold(value),
        r.array_sum == clamp_sum(value),
        r.int_sum == clamped(value, 255) + signed_fold(value) + clamp_sum(value),
{
    let u32_wide = select_u64(value < 4294967295, value, 4294967295);
    let u16_wide = select_u64(value < 65535, value, 65535);
    let u8_wide = select_u64(value < 255, value, 255);

    let u32_value = u32_wide as u32;
    let u16_value = u16_wide as u16;
    let u8_value = u8_wide as u8;

    let fold_amount = select_u64(value > 2147483647, 2147483647, 0);
    let signed_wide = value - fold_amount;
    let signed_value = signed_wide as i32;

    let type_array = [u8_wide, u16_wide, u32_wide, value];
    let array_sum = type_array[0] + type_array[1] + type_array[2] + type_array[3];

    let int_sum = u8_wide + signed_wide + array_sum;

    TypeSpecificInts { u8_value, u16_value, u32_value, signed_value, array_sum, int_sum }
}

} // verus!
