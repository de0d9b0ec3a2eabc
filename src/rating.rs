use vstd::prelude::*;
use vstd::arithmetic::div_mod::lemma_div_is_ordered;
use vstd::arithmetic::mul::lemma_mul_inequality;
use crate::entities::{Chart, Difficulty};

verus! {

/// `a / d` rounded toward zero.
pub open spec fn trunc_div(a: int, d: int) -> int {
    if a >= 0 {
        a / d
    } else {
        -((-a) / d)
    }
}

/// A score held to the range of `u32`: negative values become 0.
pub open spec fn clamp_score(x: int) -> u32 {
    if x < 0 {
        0
    } else if x > u32::MAX {
        u32::MAX
    } else {
        x as u32
    }
}

/// The linear model before clamping. With the rating `rating` and the
/// spread-of-spread in thousandths, it is
/// `slope * (rating + k * spread_of_spread * 0.001 - reference) + 1_000_000`,
/// the product rounded toward zero.
pub open spec fn raw_prediction(rating: int, slope: int, reference: int, spread_of_spread: int, k: int) -> int {
    trunc_div(slope * (rating * 1000 + k * spread_of_spread - reference * 1_000_000), 1_000_000)
        + 1_000_000
}

/// The predicted score for a rating (in thousandths) at `k` standard
/// deviations of rating uncertainty; unknown without a rating, or without the
/// chart's slope, reference or spread-of-spread (the mean spread is not used).
pub open spec fn spec_predicted_score(rating: Option<i64>, chart: Chart, k: i32) -> Option<u32> {
    match (rating, chart.score_slope, chart.score_miyabi, chart.sd_sd) {
        (Some(r), Some(slope), Some(reference), Some(s)) => Some(
            clamp_score(raw_prediction(r as int, slope as int, reference as int, s as int, k as int)),
        ),
        _ => None,
    }
}

/// A z-value as an exact fraction with a positive denominator.
#[derive(Copy, Clone, Debug, PartialEq, Eq, Structural)]
pub struct ZValue {
    pub numerator: i128,
    pub denominator: i128,
}

impl ZValue {
    /// A positive denominator, and a numerator no larger than a score
    /// difference in thousandths can be.
    pub open spec fn wf(&self) -> bool {
        &&& self.denominator > 0
        &&& -0x1_0000_0000_0000 <= self.numerator <= 0x1_0000_0000_0000
    }

    /// Well formed, with a denominator small enough that two such values can
    /// be compared by cross-multiplication in 128 bits.
    pub open spec fn comparable(&self) -> bool {
        &&& self.wf()
        &&& self.denominator <= 0x100_0000_0000_0000_0000
    }

    /// The value in thousandths, rounded toward zero.
    pub open spec fn spec_thousandths(&self) -> int {
        trunc_div(self.numerator * 1000, self.denominator as int)
    }

    /// The value in thousandths, rounded toward zero.
    pub fn thousandths(&self) -> (r: i128)
        requires
            self.wf(),
        ensures
            r == self.spec_thousandths(),
            -0x1_0000_0000_0000 * 1000 <= r <= 0x1_0000_0000_0000 * 1000,
    {
        let n = self.numerator * 1000;
        let d = self.denominator;
        if n >= 0 {
            proof {
                vstd::arithmetic::div_mod::lemma_div_is_ordered(0, n as int, d as int);
                lemma_div_at_most(n as int, d as int);
            }
            n / d
        } else {
            proof {
                vstd::arithmetic::div_mod::lemma_div_is_ordered(0, -n as int, d as int);
                lemma_div_at_most(-n as int, d as int);
            }
            -((-n) / d)
        }
    }
}

proof fn lemma_div_at_most(n: int, d: int)
    requires
        n >= 0,
        d >= 1,
    ensures
        n / d <= n,
{
    vstd::arithmetic::div_mod::lemma_div_is_ordered_by_denominator(n, 1, d);
}

/// The spread, in thousandths, that a z-value at `k` deviations divides by.
pub open spec fn spread_at(d: Difficulty, k: int) -> int {
    d.mean_spread + k * d.spread_of_spread
}

/// `(actual - predicted) / spread`, the spread taken in whole points; unknown
/// where the prediction is unknown or the spread is zero.
pub open spec fn spec_z_value(actual: u32, rating: Option<i64>, chart: Chart, k: i32) -> Option<ZValue> {
    match (spec_predicted_score(rating, chart, k), chart.spec_difficulty()) {
        (Some(p), Some(d)) => {
            let spread = spread_at(d, k as int);
            let diff = (actual - p) * 1000;
            if spread > 0 {
                Some(ZValue { numerator: diff as i128, denominator: spread as i128 })
            } else if spread < 0 {
                Some(ZValue { numerator: (-diff) as i128, denominator: (-spread) as i128 })
            } else {
                None
            }
        },
        _ => None,
    }
}

fn predict(rating: i64, slope: i32, reference: i32, spread_of_spread: i64, k: i32) -> (r: u32)
    ensures
        r == clamp_score(
            raw_prediction(rating as int, slope as int, reference as int, spread_of_spread as int, k as int),
        ),
{
    let r = rating as i128;
    let s = spread_of_spread as i128;
    let kk = k as i128;
    assert(-0x8000_0000_0000_0000 * 1000 <= r * 1000 <= 0x7fff_ffff_ffff_ffff * 1000) by (nonlinear_arith)
        requires
            -0x8000_0000_0000_0000 <= r <= 0x7fff_ffff_ffff_ffff,
    ;
    assert(-0x8000_0000 * 0x8000_0000_0000_0000 <= kk * s <= 0x8000_0000 * 0x8000_0000_0000_0000) by (nonlinear_arith)
        requires
            -0x8000_0000 <= kk <= 0x7fff_ffff,
            -0x8000_0000_0000_0000 <= s <= 0x7fff_ffff_ffff_ffff,
    ;
    let inner: i128 = r * 1000 + kk * s - (reference as i128) * 1_000_000;
    let slope = slope as i128;
    assert(-0x4000_0000_0000_0000_0000_0000_0000_0000 <= slope * inner
        <= 0x4000_0000_0000_0000_0000_0000_0000_0000) by (nonlinear_arith)
        requires
            -0x8000_0000 <= slope <= 0x7fff_ffff,
            -0x8000_0000_0000_0000_0000_0000 <= inner <= 0x8000_0000_0000_0000_0000_0000,
    ;
    let product: i128 = slope * inner;
    let scaled: i128 = if product >= 0 {
        product / 1_000_000
    } else {
        -((-product) / 1_000_000)
    };
    let score: i128 = scaled + 1_000_000;
    if score < 0 {
        0
    } else if score > u32::MAX as i128 {
        u32::MAX
    } else {
        score as u32
    }
}

/// The predicted score: `slope * (rating + k * spread_of_spread * 0.001 -
/// reference) + 1_000_000`, the product rounded toward zero, floored at 0
/// (and held at `u32::MAX`). Ratings and spreads are in thousandths. Unknown
/// without a rating, or without the slope, reference or spread-of-spread.
pub fn get_predicted_score(elo: Option<i64>, chart: &Chart, elo_sd_z: i32) -> (r: Option<u32>)
    ensures
        r == spec_predicted_score(elo, *chart, elo_sd_z),
{
    match (elo, chart.score_slope, chart.score_miyabi, chart.sd_sd) {
        (Some(rating), Some(slope), Some(reference), Some(s)) => Some(
            predict(rating, slope, reference, s, elo_sd_z),
        ),
        _ => None,
    }
}

/// How far `actual_score` lies from the prediction, in units of the chart's
/// score spread `mean_spread + sd_z * spread_of_spread`: an exact fraction.
/// Unknown where the prediction is, or where that spread is zero.
pub fn get_z_value(actual_score: u32, elo: Option<i64>, chart: &Chart, sd_z: i32) -> (r: Option<ZValue>)
    ensures
        r == spec_z_value(actual_score, elo, *chart, sd_z),
        r matches Some(z) ==> z.wf(),
        -1 <= sd_z <= 1 ==> (r matches Some(z) ==> z.comparable()),
{
    match (get_predicted_score(elo, chart, sd_z), chart.difficulty()) {
        (Some(p), Some(d)) => {
            let kk = sd_z as i128;
            let s = d.spread_of_spread as i128;
            assert(-0x8000_0000 * 0x8000_0000_0000_0000 <= kk * s <= 0x8000_0000 * 0x8000_0000_0000_0000)
                by (nonlinear_arith)
                requires
                    -0x8000_0000 <= kk <= 0x7fff_ffff,
                    -0x8000_0000_0000_0000 <= s <= 0x7fff_ffff_ffff_ffff,
            ;
            if -1 <= sd_z && sd_z <= 1 {
                assert(-0x8000_0000_0000_0000 <= kk * s <= 0x8000_0000_0000_0000) by (nonlinear_arith)
                    requires
                        -1 <= kk <= 1,
                        -0x8000_0000_0000_0000 <= s <= 0x7fff_ffff_ffff_ffff,
                ;
            }
            let spread: i128 = d.mean_spread as i128 + kk * s;
            let diff: i128 = (actual_score as i128 - p as i128) * 1000;
            if spread > 0 {
                Some(ZValue { numerator: diff, denominator: spread })
            } else if spread < 0 {
                Some(ZValue { numerator: -diff, denominator: -spread })
            } else {
                None
            }
        },
        _ => None,
    }
}

proof fn lemma_trunc_div_ordered(a: int, b: int, d: int)
    requires
        a <= b,
        d > 0,
    ensures
        trunc_div(a, d) <= trunc_div(b, d),
{
    if a >= 0 {
        lemma_div_is_ordered(a, b, d);
    } else if b >= 0 {
        lemma_div_is_ordered(0, -a, d);
        lemma_div_is_ordered(0, b, d);
    } else {
        lemma_div_is_ordered(-b, -a, d);
    }
}

/// With a positive slope, a higher rating never predicts a lower score.
pub proof fn lemma_prediction_monotonic(r1: i64, r2: i64, chart: Chart, k: i32)
    requires
        r1 <= r2,
        chart.score_slope matches Some(slope) && slope > 0,
        chart.score_miyabi is Some,
        chart.sd_sd is Some,
    ensures
        spec_predicted_score(Some(r1), chart, k) is Some,
        spec_predicted_score(Some(r1), chart, k)->0 <= spec_predicted_score(Some(r2), chart, k)->0,
{
    let slope = chart.score_slope->0 as int;
    let reference = chart.score_miyabi->0 as int;
    let s = chart.sd_sd->0 as int;
    let i1 = r1 * 1000 + k * s - reference * 1_000_000;
    let i2 = r2 * 1000 + k * s - reference * 1_000_000;
    lemma_mul_inequality(i1, i2, slope);
    assert(i1 * slope == slope * i1) by (nonlinear_arith);
    assert(i2 * slope == slope * i2) by (nonlinear_arith);
    lemma_trunc_div_ordered(slope * i1, slope * i2, 1_000_000);
}

/// A score equal to the prediction (at zero deviations) has a z-value of zero,
/// wherever the chart's mean spread is not zero.
pub proof fn lemma_exact_prediction_zero(actual: u32, rating: Option<i64>, chart: Chart)
    requires
        spec_predicted_score(rating, chart, 0) == Some(actual),
        chart.sd_mean matches Some(m) && m != 0,
    ensures
        spec_z_value(actual, rating, chart, 0) matches Some(z) && z.numerator == 0 && z.denominator > 0,
{
}

} // verus!
