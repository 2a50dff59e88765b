//! The operations-exercise circuits: one that drives every arithmetic,
//! comparison and aggregation form the secret domain supports over a small
//! record, and one that chains tier, upgrade and risk decisions over a
//! single value. Both choose every data-dependent result through oblivious
//! selects, so each branch's value is computed for every input; the
//! preconditions therefore have to keep both arms of every select inside the
//! machine word.
use crate::select::select_bool;
use crate::select::select_u64;
use crate::select::select_u8;
use vstd::prelude::*;

verus! {

/// One secret test record.
pub struct TestInput {
    pub value1: u64,
    pub value2: u8,
    pub value3: u16,
    pub flag: bool,
}

/// The owner's view of the exercise.
pub struct TestOutput {
    pub result: u64,
    pub processed: u8,
    pub calculated: u16,
    pub status: bool,
}

/// The first value raised by a hundred.
pub open spec fn sum_value(v1: u64) -> int {
    v1 + 100
}

/// The first value lowered by fifty.
pub open spec fn diff_value(v1: u64) -> int {
    v1 - 50
}

/// The bonus tier of the first value.
pub open spec fn bonus_score(v1: u64) -> u64 {
    if v1 > 500 {
        100
    } else if v1 > 200 {
        50
    } else {
        25
    }
}

/// The risk tier derived from the second and third values.
pub open spec fn risk_level(v2: u8, v3: u16) -> u8 {
    if v2 >= 8 && v3 > 150 {
        1
    } else if v2 >= 6 && v3 > 100 {
        3
    } else if v2 >= 4 && v3 > 50 {
        5
    } else {
        7
    }
}

/// The mixed product-and-quotient calculation over the first two values.
pub open spec fn complex_calc(v1: u64, v2: u8) -> int {
    (sum_value(v1) + diff_value(v1)) * ((v2 * 2) / (v1 as int / 2)) + v1 % 3
}

/// The complex calculation raised or lowered by the bonus, by the flag.
pub open spec fn conditional_result(input: TestInput) -> int {
    if input.flag {
        complex_calc(input.value1, input.value2) + bonus_score(input.value1)
    } else {
        complex_calc(input.value1, input.value2) - bonus_score(input.value1)
    }
}

/// Whether the record clears every eligibility bar at once.
pub open spec fn eligibility(input: TestInput) -> bool {
    input.value1 >= 500 && input.value2 >= 6 && input.value3 >= 100 && input.flag
}

/// Whether any warning bar is crossed.
pub open spec fn warning(input: TestInput) -> bool {
    input.value1 < 100 || input.value2 < 3 || input.value3 < 50 || !input.flag
}

/// How many of the four positivity paths hold; every path is evaluated.
pub open spec fn total_paths(input: TestInput) -> int {
    (if input.value1 > 0 {
        1int
    } else {
        0
    }) + (if input.value2 > 0 {
        1int
    } else {
        0
    }) + (if input.value3 > 0 {
        1int
    } else {
        0
    }) + (if input.flag {
        1int
    } else {
        0
    })
}

/// The sum of the three staggered scores of the first value.
pub open spec fn cheap_calc(v1: u64) -> int {
    v1 + (v1 + 100) + (v1 + 200)
}

/// The grouped products over all three values.
pub open spec fn expensive_calc(input: TestInput) -> int {
    input.value2 * input.value3 * input.value1 + sum_value(input.value1) * diff_value(
        input.value1,
    )
}

/// The recipient's summary of the exercise.
pub open spec fn summary(input: TestInput) -> int {
    cheap_calc(input.value1) + expensive_calc(input) + bonus_score(input.value1)
}

/// Exercises every supported operation over one secret record and yields the
/// owner's output and the recipient's summary. The preconditions are exactly
/// what keeps each arithmetic step, including both arms of each select,
/// inside a 64-bit word; the caller is responsible for them.
pub fn test_all_operations(input: &TestInput) -> (r: (TestOutput, u64))
    requires
        input.value1 >= 50,
        2 * input.value1 + 50 <= u64::MAX,
        complex_calc(input.value1, input.value2) + 104 <= u64::MAX,
        !input.flag ==> complex_calc(input.value1, input.value2) >= bonus_score(input.value1),
        summary(*input) <= u64::MAX,
    ensures
        r.0.result == conditional_result(*input) + total_paths(*input),
        r.0.processed == risk_level(input.value2, input.value3),
        r.0.calculated == input.value3,
        r.0.status == (eligibility(*input) && !warning(*input)),
        r.1 == summary(*input),
{
    let sum = input.value1 + 100;
    let diff = input.value1 - 50;
    let product = (input.value2 as u64) * 2;
    let quotient = input.value1 / 2;
    let remainder = input.value1 % 3;

    let bonus = select_u64(
        input.value1 > 500,
        100,
        select_u64(input.value1 > 200, 50, 25),
    );

    let risk = select_u8(
        input.value2 >= 8 && input.value3 > 150,
        1,
        select_u8(
            input.value2 >= 6 && input.value3 > 100,
            3,
            select_u8(input.value2 >= 4 && input.value3 > 50, 5, 7),
        ),
    );

    proof {
        assert((sum + diff) * ((product / quotient) as int) + remainder == complex_calc(
            input.value1,
            input.value2,
        ));
    }
    let complex = (sum + diff) * (product / quotient) + remainder;
    let raise = select_u64(input.flag, bonus, 0);
    let lower = select_u64(input.flag, 0, bonus);
    let conditional = complex + raise - lower;

    let scores = [input.value1, input.value1 + 100, input.value1 + 200];
    let coordinates = (input.value2 as u64, input.value3 as u64, input.value1);

    let first_score = scores[0];
    let second_score = scores[1];
    let third_score = scores[2];

    let x_coord = coordinates.0;
    let y_coord = coordinates.1;
    let z_coord = coordinates.2;

    let eligible = input.value1 >= 500 && input.value2 >= 6 && input.value3 >= 100 && input.flag;
    let warned = input.value1 < 100 || input.value2 < 3 || input.value3 < 50 || !input.flag;

    let cheap = first_score + second_score + third_score;
    proof {
        assert(x_coord * y_coord <= 255 * 65535) by (nonlinear_arith)
            requires
                x_coord <= 255 && y_coord <= 65535 && x_coord >= 0 && y_coord >= 0,
        ;
    }
    let grouped = x_coord * y_coord;
    proof {
        assert(sum * diff >= 0 && grouped * z_coord >= 0) by (nonlinear_arith)
            requires
                sum >= 0 && diff >= 0 && grouped >= 0 && z_coord >= 0,
        ;
        assert(grouped * z_coord + sum * diff == expensive_calc(*input));
        assert(cheap_calc(input.value1) >= 0 && bonus_score(input.value1) >= 0);
        assert(expensive_calc(*input) <= u64::MAX);
    }
    let expensive = grouped * z_coord + sum * diff;

    let path1 = select_u64(input.value1 > 0, 1, 0);
    let path2 = select_u64(input.value2 > 0, 1, 0);
    let path3 = select_u64(input.value3 > 0, 1, 0);
    let path4 = select_u64(input.flag, 1, 0);
    let paths = path1 + path2 + path3 + path4;

    let status = select_bool(eligible, !warned, false);

    let final_output = TestOutput {
        result: conditional + paths,
        processed: risk,
        calculated: input.value3,
        status,
    };

    let recipient_summary = cheap + expensive + bonus;

    (final_output, recipient_summary)
}

/// The category tier of a value.
pub open spec fn category(value: u64) -> u8 {
    if value > 1000 {
        5
    } else if value > 500 {
        4
    } else if value > 200 {
        3
    } else if value > 100 {
        2
    } else {
        1
    }
}

/// The doubled value raised by the category's increment.
pub open spec fn adjusted_value(value: u64) -> int {
    if category(value) >= 4 {
        value * 2 + 100
    } else if category(value) >= 2 {
        value * 2 + 50
    } else {
        value * 2 + 25
    }
}

/// Whether the adjusted value earns the premium upgrade.
pub open spec fn should_upgrade(value: u64) -> bool {
    category(value) >= 4 && !(category(value) <= 2) && adjusted_value(value) > 1000
}

/// The final score: the adjusted value, doubled on an upgrade.
pub open spec fn final_score(value: u64) -> int {
    if should_upgrade(value) {
        adjusted_value(value) * 2
    } else {
        adjusted_value(value)
    }
}

/// The risk tier of a final score: higher scores are lower risk.
pub open spec fn advanced_risk(score: int) -> u8 {
    if score > 2000 {
        1
    } else if score > 1000 {
        3
    } else if score > 500 {
        5
    } else if score > 200 {
        7
    } else {
        9
    }
}

/// Chains category, upgrade and risk decisions over one secret value and
/// yields the owner's final score and the analyst's risk tier. The caller
/// keeps the value small enough that the doubled upgrade path fits; the
/// circuit does not validate the range.
pub fn test_advanced_operations(value: u64) -> (r: (u64, u8))
    requires
        4 * value + 200 <= u64::MAX,
    ensures
        r.0 == final_score(value),
        r.1 == advanced_risk(final_score(value)),
{
    let doubled = value * 2;

    let cat = select_u8(
        value > 1000,
        5,
        select_u8(value > 500, 4, select_u8(value > 200, 3, select_u8(value > 100, 2, 1))),
    );

    let adjusted = select_u64(
        cat >= 4,
        doubled + 100,
        select_u64(cat >= 2, doubled + 50, doubled + 25),
    );

    let is_premium = cat >= 4;
    let is_basic = cat <= 2;
    let upgrade = is_premium && !is_basic && adjusted > 1000;

    let score = select_u64(upgrade, adjusted * 2, adjusted);

    let risk = select_u8(
        score > 2000,
        1,
        select_u8(
            score > 1000,
            3,
            select_u8(score > 500, 5, select_u8(score > 200, 7, 9)),
        ),
    );

    (score, risk)
}

/// Raising the value never lowers the category tier.
pub proof fn lemma_category_monotone(a: u64, b: u64)
    requires
        a <= b,
    ensures
        category(a) <= category(b),
{
}

/// Raising the final score never raises the risk tier.
pub proof fn lemma_advanced_risk_antitone(a: int, b: int)
    requires
        a <= b,
    ensures
        advanced_risk(a) >= advanced_risk(b),
{
}

/// Raising the first value never lowers its bonus tier.
pub proof fn lemma_bonus_score_monotone(a: u64, b: u64)
    requires
        a <= b,
    ensures
        bonus_score(a) <= bonus_score(b),
{
}

} // verus!
