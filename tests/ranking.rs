use elodon::entities::{Chart, Level, Play, User};
use elodon::ranking::{
    estimated_plays, fallback_level, notable_order, order_by_score, rank_plays, stable_order, suggest_charts,
};
use elodon::rating::ZValue;

fn play(user: i64, score: u32) -> Play {
    Play {
        user,
        song: 1,
        level: 4,
        score,
        rank: 0,
        crown: 0,
        good_cnt: 0,
        ok_cnt: 0,
        bad_cnt: 0,
        combo_cnt: 0,
        roll_cnt: 0,
    }
}

#[test]
fn stable_order_keeps_ties() {
    assert_eq!(stable_order(&vec![3, 1, 2, 1, 3]), vec![1, 3, 2, 0, 4]);
    assert_eq!(stable_order(&vec![]), Vec::<usize>::new());
}

#[test]
fn scoreboard_best_first() {
    let plays = vec![play(1, 900_000), play(2, 1_000_000), play(3, 900_000), play(4, 950_000)];
    let ranked = rank_plays(&plays);
    let users: Vec<(Option<u32>, i64)> = ranked.iter().map(|(i, p)| (*i, p.user)).collect();
    assert_eq!(users, vec![(Some(0), 2), (Some(1), 4), (Some(2), 1), (Some(3), 3)]);
}

#[test]
fn estimates_join_the_scoreboard() {
    let estimates = estimated_plays(950_000, 20_000_000, 1, Level::Oni);
    let scores: Vec<u32> = estimates.iter().map(|p| p.score).collect();
    assert_eq!(scores, vec![930_000, 950_000, 970_000, 990_000]);
    assert!(estimates.iter().all(|p| p.user == 0 && p.level == 4 && p.song == 1));
    let mut entries = rank_plays(&vec![play(1, 1_000_000), play(2, 940_000)]);
    for e in estimates {
        entries.push((None, e));
    }
    let ordered = order_by_score(&entries);
    let scores: Vec<(Option<u32>, u32)> = ordered.iter().map(|(i, p)| (*i, p.score)).collect();
    assert_eq!(
        scores,
        vec![
            (Some(0), 1_000_000),
            (None, 990_000),
            (None, 970_000),
            (None, 950_000),
            (Some(1), 940_000),
            (None, 930_000),
        ]
    );
}

#[test]
fn estimates_floor_at_zero() {
    let estimates = estimated_plays(1_000, 5_000_000, 1, Level::Easy);
    assert_eq!(estimates[0].score, 0);
    assert_eq!(estimates[3].score, 11_000);
}

#[test]
fn empty_scoreboard_falls_back_one_level() {
    assert_eq!(fallback_level(Level::Ura, false), Some(Level::Oni));
    assert_eq!(fallback_level(Level::Easy, false), None);
    assert_eq!(fallback_level(Level::Hard, true), None);
}

#[test]
fn estimated_user_is_marked() {
    let user = User {
        id: 3,
        discord: 4,
        name: "don".to_string(),
        elo1: None,
        elo2: None,
        elo3: None,
        elo4: Some(5),
    };
    let e = user.estimated();
    assert_eq!(e.name, "don (estimated)");
    assert_eq!(e.id, 3);
    assert_eq!(e.elo4, Some(5));
}

fn chart(id: u32, slope: i32, reference: i32) -> Chart {
    Chart {
        id,
        level: 4,
        score_slope: Some(slope),
        score_miyabi: Some(reference),
        sd_mean: Some(10_000),
        sd_sd: Some(0),
    }
}

#[test]
fn suggestions_closest_first() {
    // rating 100 points; each chart predicts 1_000_000 + slope * (100 - reference)
    let charts = vec![
        chart(1, 100, 100), // predicts 1_000_000: z = 0
        chart(2, 100, 99),  // predicts 1_000_100: z = -10
        chart(3, -1, 100),  // negative slope: never suggested
        chart(4, 100, 101), // predicts   999_900: z = 10
        Chart { sd_mean: None, ..chart(5, 100, 100) },
    ];
    let s = suggest_charts(&charts, 1_000_000, Some(100_000), 9_000, 8);
    let ids: Vec<u32> = s.iter().map(|x| x.chart.id).collect();
    assert_eq!(ids, vec![4, 1, 2]);
    assert_eq!(s[0].z_lower, ZValue { numerator: 100_000, denominator: 10_000 });
    let top = suggest_charts(&charts, 1_000_000, Some(100_000), 0, 1);
    assert_eq!(top.len(), 1);
    assert_eq!(top[0].chart.id, 1);
    assert!(suggest_charts(&charts, 1_000_000, None, 0, 8).is_empty());
}

#[test]
fn suggestion_range_is_ordered() {
    let c = Chart { sd_sd: Some(5_000), ..chart(1, 100, 100) };
    // at +1 deviation the spread is 15 points, at -1 it is 5 points
    let s = suggest_charts(&vec![c], 1_000_300, Some(100_000), 0, 8);
    assert_eq!(s.len(), 1);
    assert_eq!(s[0].z_lower, ZValue { numerator: 300_000, denominator: 15_000 });
    assert_eq!(s[0].z_upper, ZValue { numerator: 300_000, denominator: 5_000 });
}

#[test]
fn notable_highest_first() {
    let zs = vec![
        ZValue { numerator: 1, denominator: 2 },
        ZValue { numerator: 3, denominator: 1 },
        ZValue { numerator: -4, denominator: 1 },
        ZValue { numerator: 2, denominator: 4 },
    ];
    assert_eq!(notable_order(&zs), vec![1, 0, 3, 2]);
}

#[test]
fn notable_order_is_exact() {
    let zs = vec![
        ZValue { numerator: 1, denominator: 10_000 },
        ZValue { numerator: 9, denominator: 10_000 },
        ZValue { numerator: 1, denominator: 3 },
        ZValue { numerator: 333_333, denominator: 1_000_000 },
    ];
    assert_eq!(notable_order(&zs), vec![2, 3, 1, 0]);
}

#[test]
fn board_estimates_need_caller_and_measured_chart() {
    let caller = User {
        id: 3,
        discord: 4,
        name: "don".to_string(),
        elo1: None,
        elo2: None,
        elo3: None,
        elo4: Some(100_000),
    };
    let c = Chart { sd_mean: Some(10_000_000), ..chart(9, 100, 100) };
    let estimates = elodon::ranking::board_estimates(&Some(caller.clone()), &c, Level::Ura, 9);
    let scores: Vec<u32> = estimates.iter().map(|p| p.score).collect();
    assert_eq!(scores, vec![990_000, 1_000_000, 1_010_000, 1_020_000]);
    assert!(elodon::ranking::board_estimates(&None, &c, Level::Ura, 9).is_empty());
    let unmeasured = Chart { sd_mean: None, ..c };
    assert!(elodon::ranking::board_estimates(&Some(caller.clone()), &unmeasured, Level::Ura, 9).is_empty());
    // no rating for the Easy band
    assert!(elodon::ranking::board_estimates(&Some(caller), &c, Level::Easy, 9).is_empty());
}
