use vstd::prelude::*;
use crate::entities::{Chart, DisplayLevel, Level, Play, User};
use crate::rating::{clamp_score, get_predicted_score, get_z_value, spec_predicted_score, spec_z_value, trunc_div, ZValue};

verus! {

/// Position `a` comes before position `b` when ordered by key, ties broken by
/// position: the order a stable sort by key leaves.
pub open spec fn key_before(keys: Seq<i128>, a: int, b: int) -> bool {
    keys[a] < keys[b] || (keys[a] == keys[b] && a < b)
}

/// `order` lists every position of `keys` once, in stable key order.
pub open spec fn is_stable_order(keys: Seq<i128>, order: Seq<usize>) -> bool {
    &&& order.len() == keys.len()
    &&& forall|i: int| 0 <= i < order.len() ==> (#[trigger] order[i]) < keys.len()
    &&& forall|j: usize| j < keys.len() ==> #[trigger] order.contains(j)
    &&& forall|i: int, j: int|
        0 <= i < j < order.len() ==> key_before(keys, #[trigger] order[i] as int, #[trigger] order[j] as int)
}

/// The positions of `keys` in stable ascending key order: smaller keys first,
/// equal keys in their original order.
pub fn stable_order(keys: &Vec<i128>) -> (r: Vec<usize>)
    ensures
        is_stable_order(keys@, r@),
{
    let mut out: Vec<usize> = Vec::new();
    let mut i: usize = 0;
    while i < keys.len()
        invariant
            i <= keys@.len(),
            out@.len() == i,
            forall|q: int| 0 <= q < out@.len() ==> (#[trigger] out@[q]) < i,
            forall|j: usize| j < i ==> #[trigger] out@.contains(j),
            forall|a: int, b: int|
                0 <= a < b < out@.len() ==> key_before(keys@, #[trigger] out@[a] as int, #[trigger] out@[b] as int),
        decreases keys.len() - i,
    {
        let k = keys[i];
        let mut p: usize = 0;
        while p < out.len() && keys[out[p]] <= k
            invariant
                p <= out@.len(),
                out@.len() == i,
                i < keys@.len(),
                k == keys@[i as int],
                forall|q: int| 0 <= q < out@.len() ==> (#[trigger] out@[q]) < i,
                forall|q: int| 0 <= q < p ==> keys@[(#[trigger] out@[q]) as int] <= k,
            decreases out@.len() - p,
        {
            p = p + 1;
        }
        let ghost old_out = out@;
        proof {
            // every element after `p` has a key above `k`, since keys rise along `out`
            assert forall|q: int| p <= q < old_out.len() implies keys@[(#[trigger] old_out[q]) as int] > k by {
                if q > p {
                    assert(key_before(keys@, old_out[p as int] as int, old_out[q] as int));
                }
            }
        }
        out.insert(p, i);
        proof {
            assert(out@ == old_out.insert(p as int, i));
            assert forall|j: usize| j < i + 1 implies #[trigger] out@.contains(j) by {
                if j == i {
                    assert(out@[p as int] == i);
                } else {
                    assert(old_out.contains(j));
                    let q = choose|q: int| 0 <= q < old_out.len() && old_out[q] == j;
                    if q < p {
                        assert(out@[q] == j);
                    } else {
                        assert(out@[q + 1] == j);
                    }
                }
            }
            assert forall|a: int, b: int|
                0 <= a < b < out@.len() implies key_before(keys@, #[trigger] out@[a] as int, #[trigger] out@[b] as int) by {
                if b < p {
                    assert(out@[a] == old_out[a] && out@[b] == old_out[b]);
                } else if b == p {
                    assert(out@[a] == old_out[a]);
                } else if a < p {
                    assert(out@[a] == old_out[a] && out@[b] == old_out[b - 1]);
                } else if a == p {
                    assert(out@[b] == old_out[b - 1]);
                } else {
                    assert(out@[a] == old_out[a - 1] && out@[b] == old_out[b - 1]);
                }
            }
        }
        i = i + 1;
    }
    out
}

/// Scoreboard keys: the negated score, so that higher scores come first.
pub open spec fn score_keys(plays: Seq<Play>) -> Seq<i128> {
    plays.map_values(|p: Play| (-(p.score as int)) as i128)
}

fn score_key_vec(plays: &Vec<Play>) -> (r: Vec<i128>)
    ensures
        r@ == score_keys(plays@),
{
    let mut keys: Vec<i128> = Vec::new();
    let mut i: usize = 0;
    while i < plays.len()
        invariant
            i <= plays@.len(),
            keys@ == score_keys(plays@.take(i as int)),
        decreases plays.len() - i,
    {
        keys.push(-(plays[i].score as i128));
        assert(keys@ =~= score_keys(plays@.take(i + 1)));
        i = i + 1;
    }
    assert(plays@.take(i as int) =~= plays@);
    keys
}

/// The recorded plays of a scoreboard, best score first (equal scores keep
/// their order), each with its place counted from 0.
pub fn rank_plays(plays: &Vec<Play>) -> (r: Vec<(Option<u32>, Play)>)
    requires
        plays@.len() <= u32::MAX,
    ensures
        r@.len() == plays@.len(),
        exists|order: Seq<usize>|
            #![trigger is_stable_order(score_keys(plays@), order)]
            is_stable_order(score_keys(plays@), order) && forall|i: int|
                0 <= i < r@.len() ==> #[trigger] r@[i] == (Some(i as u32), plays@[order[i] as int]),
{
    let keys = score_key_vec(plays);
    let order = stable_order(&keys);
    let mut out: Vec<(Option<u32>, Play)> = Vec::new();
    let mut i: usize = 0;
    while i < order.len()
        invariant
            i <= order@.len(),
            is_stable_order(score_keys(plays@), order@),
            plays@.len() <= u32::MAX,
            out@.len() == i,
            forall|q: int| 0 <= q < i ==> #[trigger] out@[q] == (Some(q as u32), plays@[order@[q] as int]),
        decreases order.len() - i,
    {
        out.push((Some(i as u32), plays[order[i]]));
        i = i + 1;
    }
    out
}

/// Scoreboard keys of ranked entries: the negated score.
pub open spec fn entry_keys(entries: Seq<(Option<u32>, Play)>) -> Seq<i128> {
    entries.map_values(|e: (Option<u32>, Play)| (-(e.1.score as int)) as i128)
}

/// Scoreboard entries, recorded and estimated together, best score first;
/// equal scores keep their order.
pub fn order_by_score(entries: &Vec<(Option<u32>, Play)>) -> (r: Vec<(Option<u32>, Play)>)
    ensures
        r@.len() == entries@.len(),
        exists|order: Seq<usize>|
            #![trigger is_stable_order(entry_keys(entries@), order)]
            is_stable_order(entry_keys(entries@), order) && forall|i: int|
                0 <= i < r@.len() ==> #[trigger] r@[i] == entries@[order[i] as int],
{
    let mut keys: Vec<i128> = Vec::new();
    let mut i: usize = 0;
    while i < entries.len()
        invariant
            i <= entries@.len(),
            keys@ == entry_keys(entries@.take(i as int)),
        decreases entries.len() - i,
    {
        keys.push(-(entries[i].1.score as i128));
        assert(keys@ =~= entry_keys(entries@.take(i + 1)));
        i = i + 1;
    }
    assert(entries@.take(i as int) =~= entries@);
    let order = stable_order(&keys);
    let mut out: Vec<(Option<u32>, Play)> = Vec::new();
    let mut j: usize = 0;
    while j < order.len()
        invariant
            j <= order@.len(),
            is_stable_order(entry_keys(entries@), order@),
            out@.len() == j,
            forall|q: int| 0 <= q < j ==> #[trigger] out@[q] == entries@[order@[q] as int],
        decreases order.len() - j,
    {
        out.push(entries[order[j]]);
        j = j + 1;
    }
    out
}

/// A placeholder score `z` spreads (in thousandths) away from `average`,
/// rounded toward zero and floored at 0.
pub open spec fn estimate_score(average: u32, spread: i64, z: int) -> u32 {
    clamp_score(trunc_div(average * 1000 + spread * z, 1000))
}

/// A placeholder play: only the chart and the score are set.
pub open spec fn placeholder_play(song: u32, level: Level, score: u32) -> Play {
    Play {
        user: 0,
        song,
        level: level.spec_id(),
        score,
        rank: 0,
        crown: 0,
        good_cnt: 0,
        ok_cnt: 0,
        bad_cnt: 0,
        combo_cnt: 0,
        roll_cnt: 0,
    }
}

fn estimate(average: u32, spread: i64, z: i64) -> (r: u32)
    requires
        -1 <= z <= 2,
    ensures
        r == estimate_score(average, spread, z as int),
{
    let sp = spread as i128;
    let zz = z as i128;
    assert(-0x2_0000_0000_0000_0000 <= sp * zz <= 0x2_0000_0000_0000_0000) by (nonlinear_arith)
        requires
            -0x8000_0000_0000_0000 <= sp <= 0x7fff_ffff_ffff_ffff,
            -1 <= zz <= 2,
    ;
    let x: i128 = average as i128 * 1000 + sp * zz;
    let t: i128 = if x >= 0 {
        x / 1000
    } else {
        -((-x) / 1000)
    };
    if t < 0 {
        0
    } else if t > u32::MAX as i128 {
        u32::MAX
    } else {
        t as u32
    }
}

/// Placeholder plays at -1, 0, 1 and 2 score spreads around a predicted
/// score, so that a player sees where they would stand.
pub fn estimated_plays(average: u32, spread: i64, song: u32, level: Level) -> (r: Vec<Play>)
    ensures
        r@.len() == 4,
        forall|i: int| 0 <= i < 4 ==> #[trigger] r@[i] == placeholder_play(song, level, estimate_score(average, spread, i - 1)),
{
    let mut out: Vec<Play> = Vec::new();
    let mut z: i64 = -1;
    while z <= 2
        invariant
            -1 <= z <= 3,
            out@.len() == z + 1,
            forall|i: int| 0 <= i < z + 1 ==> #[trigger] out@[i] == placeholder_play(song, level, estimate_score(average, spread, i - 1)),
        decreases 3 - z,
    {
        let score = estimate(average, spread, z);
        out.push(Play {
            user: 0,
            song,
            level: level.id(),
            score,
            rank: 0,
            crown: 0,
            good_cnt: 0,
            ok_cnt: 0,
            bad_cnt: 0,
            combo_cnt: 0,
            roll_cnt: 0,
        });
        z = z + 1;
    }
    out
}

/// The placeholder plays at -1, 0, 1 and 2 spreads around `average`.
pub open spec fn spec_estimates(average: u32, spread: i64, song: u32, level: Level) -> Seq<Play> {
    Seq::new(4, |i: int| placeholder_play(song, level, estimate_score(average, spread, i - 1)))
}

/// What estimates rest on: the caller's predicted score on the chart and the
/// chart's mean spread, when both are known.
pub open spec fn estimate_basis(caller: Option<User>, chart: Chart, level: Level) -> Option<(u32, i64)> {
    match caller {
        Some(u) => match (spec_predicted_score(u.spec_elo(DisplayLevel::spec_of_level(level)), chart, 0), chart.sd_mean) {
            (Some(average), Some(spread)) => Some((average, spread)),
            _ => None,
        },
        None => None,
    }
}

/// The estimated plays that join a scoreboard: those of `estimated_plays`
/// around the caller's prediction, when there is a caller with a rating for
/// the level's band and the chart's parameters are measured; else none.
pub fn board_estimates(caller: &Option<User>, chart: &Chart, level: Level, song: u32) -> (r: Vec<Play>)
    ensures
        estimate_basis(*caller, *chart, level) matches Some((average, spread)) ==> r@ == spec_estimates(
            average,
            spread,
            song,
            level,
        ),
        estimate_basis(*caller, *chart, level) is None ==> r@.len() == 0,
{
    match caller {
        Some(u) => match (get_predicted_score(u.elo(DisplayLevel::from(level)), chart, 0), chart.sd_mean) {
            (Some(average), Some(spread)) => {
                let r = estimated_plays(average, spread, song, level);
                assert(r@ =~= spec_estimates(average, spread, song, level));
                r
            },
            _ => Vec::new(),
        },
        None => Vec::new(),
    }
}

/// The level to try next when a scoreboard came back empty: one lower,
/// unless the lowest was tried or plays were found.
pub fn fallback_level(level: Level, found_plays: bool) -> (r: Option<Level>)
    ensures
        found_plays ==> r is None,
        !found_plays ==> r == Level::spec_from_id((level.spec_id() - 1) as u32),
{
    if found_plays {
        None
    } else {
        level.decrease()
    }
}

/// `a` is at most `b`, as fractions with positive denominators.
pub open spec fn z_le(a: ZValue, b: ZValue) -> bool {
    a.numerator * b.denominator <= b.numerator * a.denominator
}

/// A chart suggested for a target score: the range of z-values between one
/// rating deviation below and one above.
#[derive(Copy, Clone, Debug, PartialEq, Eq, Structural)]
pub struct Suggestion {
    pub z_lower: ZValue,
    pub z_upper: ZValue,
    pub chart: Chart,
}

/// The suggestion for one chart: none for a negative or missing slope, or
/// where either z-value is unknown.
pub open spec fn suggestion_for(chart: Chart, score: u32, elo: Option<i64>) -> Option<Suggestion> {
    let up = spec_z_value(score, elo, chart, 1i32);
    let down = spec_z_value(score, elo, chart, -1i32);
    if chart.score_slope matches Some(s) && s >= 0 && up is Some && down is Some {
        let a = up->0;
        let b = down->0;
        if z_le(a, b) {
            Some(Suggestion { z_lower: a, z_upper: b, chart })
        } else {
            Some(Suggestion { z_lower: b, z_upper: a, chart })
        }
    } else {
        None
    }
}

/// The suggestions of the charts that have one, in chart order.
pub open spec fn candidates(charts: Seq<Chart>, score: u32, elo: Option<i64>) -> Seq<Suggestion>
    decreases charts.len(),
{
    if charts.len() == 0 {
        Seq::empty()
    } else {
        match suggestion_for(charts.last(), score, elo) {
            Some(x) => candidates(charts.drop_last(), score, elo).push(x),
            None => candidates(charts.drop_last(), score, elo),
        }
    }
}

pub open spec fn abs(x: int) -> int {
    if x < 0 {
        -x
    } else {
        x
    }
}

/// How far a suggestion's range lies from the wanted z-value `desired` (in
/// thousandths): `|z_lower - desired| + |z_upper - desired|`, each z-value
/// first rounded toward zero to a thousandth. Exact fractions would not fit in
/// 128-bit arithmetic, so charts whose ranges differ by less than that rounding
/// count as equally close and keep their chart order.
pub open spec fn distance(s: Suggestion, desired: i64) -> int {
    abs(s.z_lower.spec_thousandths() - desired) + abs(s.z_upper.spec_thousandths() - desired)
}

pub open spec fn distance_keys(cands: Seq<Suggestion>, desired: i64) -> Seq<i128> {
    cands.map_values(|s: Suggestion| distance(s, desired) as i128)
}

/// The suggestions whose z-values come from this module: both well formed,
/// with denominators a spread at one deviation can have.
pub open spec fn suggestion_wf(s: Suggestion) -> bool {
    &&& s.z_lower.wf()
    &&& s.z_upper.wf()
    &&& s.z_lower.denominator <= 0x1_0000_0000_0000_0000
    &&& s.z_upper.denominator <= 0x1_0000_0000_0000_0000
}

fn suggestion(chart: &Chart, score: u32, elo: Option<i64>) -> (r: Option<Suggestion>)
    ensures
        r == suggestion_for(*chart, score, elo),
        r matches Some(s) ==> suggestion_wf(s),
{
    match chart.score_slope {
        Some(s) => {
            if s < 0 {
                return None;
            }
        },
        None => {
            return None;
        },
    }
    match (get_z_value(score, elo, chart, 1), get_z_value(score, elo, chart, -1)) {
        (Some(a), Some(b)) => {
            assert(-0x1_0000_0000_0000 * 0x1_0000_0000_0000_0000 <= a.numerator * b.denominator
                <= 0x1_0000_0000_0000 * 0x1_0000_0000_0000_0000) by (nonlinear_arith)
                requires
                    -0x1_0000_0000_0000 <= a.numerator <= 0x1_0000_0000_0000,
                    0 < b.denominator <= 0x1_0000_0000_0000_0000,
            ;
            assert(-0x1_0000_0000_0000 * 0x1_0000_0000_0000_0000 <= b.numerator * a.denominator
                <= 0x1_0000_0000_0000 * 0x1_0000_0000_0000_0000) by (nonlinear_arith)
                requires
                    -0x1_0000_0000_0000 <= b.numerator <= 0x1_0000_0000_0000,
                    0 < a.denominator <= 0x1_0000_0000_0000_0000,
            ;
            if a.numerator * b.denominator <= b.numerator * a.denominator {
                Some(Suggestion { z_lower: a, z_upper: b, chart: *chart })
            } else {
                Some(Suggestion { z_lower: b, z_upper: a, chart: *chart })
            }
        },
        _ => None,
    }
}

/// Charts to suggest for reaching `score`: those with a known, non-negative
/// slope and known z-values, ordered by `distance` from `desired_z` (in
/// thousandths; z-values rounded toward zero to a thousandth), the closest
/// first and ties in chart order, at most `limit` of them. No chart left out
/// is closer than one listed.
pub fn suggest_charts(charts: &Vec<Chart>, score: u32, elo: Option<i64>, desired_z: i64, limit: usize) -> (r: Vec<Suggestion>)
    ensures
        exists|order: Seq<usize>|
            #![trigger is_stable_order(distance_keys(candidates(charts@, score, elo), desired_z), order)]
            is_stable_order(distance_keys(candidates(charts@, score, elo), desired_z), order)
            && r@.len() == (if limit < order.len() { limit as int } else { order.len() as int })
            && forall|i: int| 0 <= i < r@.len() ==> #[trigger] r@[i] == candidates(charts@, score, elo)[order[i] as int],
        forall|i: int, j: int|
            0 <= i < j < r@.len() ==> distance(#[trigger] r@[i], desired_z) <= distance(#[trigger] r@[j], desired_z),
        forall|c: int, i: int|
            0 <= c < candidates(charts@, score, elo).len() && 0 <= i < r@.len() && (forall|k: int|
                0 <= k < r@.len() ==> r@[k] != #[trigger] candidates(charts@, score, elo)[c]) ==> distance(
                #[trigger] r@[i],
                desired_z,
            ) <= distance(candidates(charts@, score, elo)[c], desired_z),
{
    let mut cands: Vec<Suggestion> = Vec::new();
    let mut i: usize = 0;
    while i < charts.len()
        invariant
            i <= charts@.len(),
            cands@ == candidates(charts@.take(i as int), score, elo),
            forall|q: int| 0 <= q < cands@.len() ==> suggestion_wf(#[trigger] cands@[q]),
        decreases charts.len() - i,
    {
        assert(charts@.take(i + 1).drop_last() =~= charts@.take(i as int));
        match suggestion(&charts[i], score, elo) {
            Some(s) => cands.push(s),
            None => {},
        }
        i = i + 1;
    }
    assert(charts@.take(i as int) =~= charts@);
    let ghost all = cands@;
    let mut keys: Vec<i128> = Vec::new();
    let mut j: usize = 0;
    while j < cands.len()
        invariant
            j <= cands@.len(),
            cands@ == all,
            forall|q: int| 0 <= q < cands@.len() ==> suggestion_wf(#[trigger] cands@[q]),
            keys@ == distance_keys(all.take(j as int), desired_z),
            keys@.len() == j,
            forall|q: int| 0 <= q < j ==> #[trigger] keys@[q] as int == distance(all[q], desired_z),
        decreases cands.len() - j,
    {
        let c = &cands[j];
        let lo = c.z_lower.thousandths();
        let hi = c.z_upper.thousandths();
        let d = desired_z as i128;
        let a = if lo >= d { lo - d } else { d - lo };
        let b = if hi >= d { hi - d } else { d - hi };
        keys.push(a + b);
        assert(keys@ =~= distance_keys(all.take(j + 1), desired_z));
        j = j + 1;
    }
    assert(all.take(j as int) =~= all);
    assert(keys@ == distance_keys(all, desired_z));
    let order = stable_order(&keys);
    let mut out: Vec<Suggestion> = Vec::new();
    let mut k: usize = 0;
    while k < order.len() && k < limit
        invariant
            k <= order@.len(),
            k <= limit,
            is_stable_order(distance_keys(all, desired_z), order@),
            keys@ == distance_keys(all, desired_z),
            forall|q: int| 0 <= q < all.len() ==> #[trigger] keys@[q] as int == distance(all[q], desired_z),
            cands@ == all,
            out@.len() == k,
            forall|q: int| 0 <= q < k ==> #[trigger] out@[q] == all[order@[q] as int],
        decreases order.len() - k,
    {
        out.push(cands[order[k]]);
        k = k + 1;
    }
    proof {
        assert forall|i: int, j: int| 0 <= i < j < out@.len() implies distance(#[trigger] out@[i], desired_z)
            <= distance(#[trigger] out@[j], desired_z) by {
            assert(key_before(keys@, order@[i] as int, order@[j] as int));
            assert(keys@[order@[i] as int] as int == distance(all[order@[i] as int], desired_z));
            assert(keys@[order@[j] as int] as int == distance(all[order@[j] as int], desired_z));
        }
        assert forall|c: int, i: int|
            0 <= c < all.len() && 0 <= i < out@.len() && (forall|m: int|
                0 <= m < out@.len() ==> out@[m] != #[trigger] all[c]) implies distance(#[trigger] out@[i], desired_z)
            <= distance(all[c], desired_z) by {
            assert(order@.contains(c as usize));
            let m = choose|m: int| 0 <= m < order@.len() && order@[m] == c as usize;
            if m < out@.len() {
                assert(out@[m] == all[c]);
            } else {
                assert(key_before(keys@, order@[i] as int, order@[m] as int));
                assert(keys@[order@[i] as int] as int == distance(all[order@[i] as int], desired_z));
                assert(keys@[c] as int == distance(all[c], desired_z));
            }
        }
    }
    out
}

/// `a` is below `b`, as fractions with positive denominators.
pub open spec fn z_lt(a: ZValue, b: ZValue) -> bool {
    a.numerator * b.denominator < b.numerator * a.denominator
}

proof fn lemma_z_le_transitive(a: ZValue, b: ZValue, c: ZValue)
    requires
        a.denominator > 0,
        b.denominator > 0,
        c.denominator > 0,
        z_le(a, b),
        z_le(b, c),
    ensures
        z_le(a, c),
{
    let (an, ad, bn, bd, cn, cd) = (
        a.numerator as int,
        a.denominator as int,
        b.numerator as int,
        b.denominator as int,
        c.numerator as int,
        c.denominator as int,
    );
    assert(an * cd <= cn * ad) by (nonlinear_arith)
        requires
            ad > 0,
            bd > 0,
            cd > 0,
            an * bd <= bn * ad,
            bn * cd <= cn * bd,
    {
        assert(an * bd * cd <= bn * ad * cd);
        assert(bn * cd * ad <= cn * bd * ad);
        assert(an * cd * bd <= cn * ad * bd);
    }
}

fn z_le_exec(a: &ZValue, b: &ZValue) -> (r: bool)
    requires
        a.comparable(),
        b.comparable(),
    ensures
        r == z_le(*a, *b),
{
    assert(-0x1_0000_0000_0000 * 0x100_0000_0000_0000_0000 <= a.numerator * b.denominator
        <= 0x1_0000_0000_0000 * 0x100_0000_0000_0000_0000) by (nonlinear_arith)
        requires
            -0x1_0000_0000_0000 <= a.numerator <= 0x1_0000_0000_0000,
            0 < b.denominator <= 0x100_0000_0000_0000_0000,
    ;
    assert(-0x1_0000_0000_0000 * 0x100_0000_0000_0000_0000 <= b.numerator * a.denominator
        <= 0x1_0000_0000_0000 * 0x100_0000_0000_0000_0000) by (nonlinear_arith)
        requires
            -0x1_0000_0000_0000 <= b.numerator <= 0x1_0000_0000_0000,
            0 < a.denominator <= 0x100_0000_0000_0000_0000,
    ;
    a.numerator * b.denominator <= b.numerator * a.denominator
}

/// Position `x` comes before position `y` when its z-value is higher, equal
/// values keeping their order.
pub open spec fn notable_before(zs: Seq<ZValue>, x: int, y: int) -> bool {
    &&& z_le(zs[y], zs[x])
    &&& (z_le(zs[x], zs[y]) ==> x < y)
}

/// `order` lists every position of `zs` once, from the highest exact z-value
/// down, equal values in their original order.
pub open spec fn is_notable_order(zs: Seq<ZValue>, order: Seq<usize>) -> bool {
    &&& order.len() == zs.len()
    &&& forall|i: int| 0 <= i < order.len() ==> (#[trigger] order[i]) < zs.len()
    &&& forall|j: usize| j < zs.len() ==> #[trigger] order.contains(j)
    &&& forall|i: int, j: int|
        0 <= i < j < order.len() ==> notable_before(zs, #[trigger] order[i] as int, #[trigger] order[j] as int)
}

/// The positions of `zs` from the highest z-value down, compared exactly;
/// equal values keep their order.
pub fn notable_order(zs: &Vec<ZValue>) -> (r: Vec<usize>)
    requires
        forall|i: int| 0 <= i < zs@.len() ==> (#[trigger] zs@[i]).comparable(),
    ensures
        is_notable_order(zs@, r@),
        forall|i: int, j: int| 0 <= i < j < r@.len() ==> z_le(zs@[r@[j] as int], zs@[r@[i] as int]),
{
    let mut out: Vec<usize> = Vec::new();
    let mut i: usize = 0;
    while i < zs.len()
        invariant
            i <= zs@.len(),
            forall|q: int| 0 <= q < zs@.len() ==> (#[trigger] zs@[q]).comparable(),
            out@.len() == i,
            forall|q: int| 0 <= q < out@.len() ==> (#[trigger] out@[q]) < i,
            forall|j: usize| j < i ==> #[trigger] out@.contains(j),
            forall|a: int, b: int|
                0 <= a < b < out@.len() ==> notable_before(zs@, #[trigger] out@[a] as int, #[trigger] out@[b] as int),
        decreases zs.len() - i,
    {
        let z = &zs[i];
        let mut p: usize = 0;
        while p < out.len() && z_le_exec(z, &zs[out[p]])
            invariant
                p <= out@.len(),
                out@.len() == i,
                i < zs@.len(),
                *z == zs@[i as int],
                forall|q: int| 0 <= q < zs@.len() ==> (#[trigger] zs@[q]).comparable(),
                forall|q: int| 0 <= q < out@.len() ==> (#[trigger] out@[q]) < i,
                forall|q: int| 0 <= q < p ==> z_le(*z, zs@[(#[trigger] out@[q]) as int]),
            decreases out@.len() - p,
        {
            p = p + 1;
        }
        let ghost old_out = out@;
        proof {
            assert forall|q: int| p <= q < old_out.len() implies !z_le(*z, zs@[(#[trigger] old_out[q]) as int]) by {
                if q > p {
                    assert(notable_before(zs@, old_out[p as int] as int, old_out[q] as int));
                    if z_le(*z, zs@[old_out[q] as int]) {
                        lemma_z_le_transitive(*z, zs@[old_out[q] as int], zs@[old_out[p as int] as int]);
                    }
                }
            }
        }
        out.insert(p, i);
        proof {
            assert(out@ == old_out.insert(p as int, i));
            assert forall|j: usize| j < i + 1 implies #[trigger] out@.contains(j) by {
                if j == i {
                    assert(out@[p as int] == i);
                } else {
                    assert(old_out.contains(j));
                    let q = choose|q: int| 0 <= q < old_out.len() && old_out[q] == j;
                    if q < p {
                        assert(out@[q] == j);
                    } else {
                        assert(out@[q + 1] == j);
                    }
                }
            }
            assert forall|a: int, b: int|
                0 <= a < b < out@.len() implies notable_before(zs@, #[trigger] out@[a] as int, #[trigger] out@[b] as int) by {
                if b < p {
                    assert(out@[a] == old_out[a] && out@[b] == old_out[b]);
                } else if b == p {
                    assert(out@[a] == old_out[a]);
                } else if a < p {
                    assert(out@[a] == old_out[a] && out@[b] == old_out[b - 1]);
                } else if a == p {
                    assert(out@[b] == old_out[b - 1]);
                } else {
                    assert(out@[a] == old_out[a - 1] && out@[b] == old_out[b - 1]);
                }
            }
        }
        i = i + 1;
    }
    out
}

} // verus!
