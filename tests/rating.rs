use elodon::entities::Chart;
use elodon::rating::{get_predicted_score, get_z_value, ZValue};

fn chart() -> Chart {
    Chart {
        id: 1,
        level: 4,
        score_slope: Some(10),
        score_miyabi: Some(100),
        sd_mean: Some(50_000),
        sd_sd: Some(10_000),
    }
}

#[test]
fn prediction_and_z_value_scenario() {
    let c = chart();
    assert_eq!(get_predicted_score(Some(150_000), &c, 0), Some(1_000_500));
    assert_eq!(
        get_z_value(1_000_550, Some(150_000), &c, 0),
        Some(ZValue { numerator: 50_000, denominator: 50_000 })
    );
}

#[test]
fn prediction_at_deviations() {
    let c = chart();
    // 10 * (150 + 1 * 10 * 0.001 - 100) = 500.1, rounded toward zero
    assert_eq!(get_predicted_score(Some(150_000), &c, 1), Some(1_000_500));
    // 10 * (150 - 1 * 10 * 0.001 - 100) = 499.9
    assert_eq!(get_predicted_score(Some(150_000), &c, -1), Some(1_000_499));
    // 10 * (150.05 - 100) = 500.5
    assert_eq!(get_predicted_score(Some(150_050), &c, 0), Some(1_000_500));
}

#[test]
fn prediction_is_floored_at_zero() {
    let c = chart();
    assert_eq!(get_predicted_score(Some(-1_000_000_000), &c, 0), Some(0));
}

#[test]
fn prediction_grows_with_rating() {
    let c = chart();
    let mut last = 0;
    for r in [-50_000i64, 0, 99_999, 100_000, 150_000, 2_000_000] {
        let p = get_predicted_score(Some(r), &c, 0).unwrap();
        assert!(p >= last);
        last = p;
    }
}

#[test]
fn exact_prediction_has_zero_z() {
    let c = chart();
    let p = get_predicted_score(Some(123_456), &c, 0).unwrap();
    let z = get_z_value(p, Some(123_456), &c, 0).unwrap();
    assert_eq!(z.numerator, 0);
    assert!(z.denominator > 0);
}

#[test]
fn unknown_without_rating_or_difficulty() {
    let c = chart();
    assert_eq!(get_predicted_score(None, &c, 0), None);
    assert_eq!(get_z_value(1, None, &c, 0), None);
    let unmeasured = Chart { sd_sd: None, ..chart() };
    assert_eq!(get_predicted_score(Some(150_000), &unmeasured, 0), None);
    assert_eq!(get_z_value(1, Some(150_000), &unmeasured, 0), None);
}

#[test]
fn z_value_with_negative_or_zero_spread() {
    // spread = 50 - 5 * 10 = 0 points: unknown
    let c = chart();
    assert_eq!(get_z_value(1_000_000, Some(150_000), &c, -5), None);
    // spread = 50 - 6 * 10 = -10 points: sign moves to the numerator
    let p = get_predicted_score(Some(150_000), &c, -6).unwrap();
    assert_eq!(p, 1_000_499);
    assert_eq!(
        get_z_value(1_000_509, Some(150_000), &c, -6),
        Some(ZValue { numerator: -10_000, denominator: 10_000 })
    );
}

#[test]
fn prediction_does_not_need_mean_spread() {
    let c = Chart { sd_mean: None, ..chart() };
    assert_eq!(get_predicted_score(Some(150_000), &c, 0), Some(1_000_500));
    // the z-value divides by the mean spread, so it stays unknown
    assert_eq!(get_z_value(1_000_550, Some(150_000), &c, 0), None);
    let no_reference = Chart { score_miyabi: None, ..chart() };
    assert_eq!(get_predicted_score(Some(150_000), &no_reference, 0), None);
}
