use elodon::display::{ElodonDisplay, ElodonDisplayList};
use elodon::entities::{Chart, Play, Song, User};

fn play(crown: u32, rank: u32) -> Play {
    Play {
        user: 42,
        song: 7,
        level: 4,
        score: 1_000_000,
        rank,
        crown,
        good_cnt: 500,
        ok_cnt: 20,
        bad_cnt: 1,
        combo_cnt: 300,
        roll_cnt: 12,
    }
}

#[test]
fn song_text() {
    let song = Song::new(12, "太鼓".to_string(), "Drum".to_string(), 4).unwrap();
    assert_eq!(song.get_display_text(), "`#12    Vocaloid > Drum | 太鼓`");
}

#[test]
fn user_text() {
    let user = User {
        id: 123,
        discord: 555,
        name: "ab".to_string(),
        elo1: None,
        elo2: None,
        elo3: None,
        elo4: None,
    };
    assert_eq!(user.get_display_text(), "`#123            ab       `<@555>");
}

#[test]
fn chart_text() {
    let measured = Chart {
        id: 5,
        level: 4,
        score_slope: Some(12),
        score_miyabi: Some(-3),
        sd_mean: Some(30_499),
        sd_sd: Some(2_500),
    };
    assert_eq!(
        measured.get_display_text(),
        "#5   .4:\n`Score/ELO=  12 Miyabi ELO=  -3\nsd=      30 (   3)`"
    );
    let unmeasured = Chart {
        id: 5,
        level: 4,
        score_slope: None,
        score_miyabi: None,
        sd_mean: None,
        sd_sd: None,
    };
    assert_eq!(
        unmeasured.get_display_text(),
        "#5   .4:\n`Score/ELO= ??  Miyabi ELO= ?? \nsd=   ???   ( ?? )`"
    );
}

#[test]
fn play_text() {
    assert_eq!(
        play(3, 8).get_display_text(),
        "   7.4 1000000            42 <:crown_3:1213187548902457434> \
         <:rank_8:1213187566220742656>\n`  500 |  20 | 1   c300  r12  `"
    );
    assert_eq!(
        play(0, 1).get_display_text(),
        "   7.4 1000000            42 <:crown_0:1213187539750486046> \n`  500 |  20 | 1   c300  r12  `"
    );
}

#[test]
fn list_text() {
    let empty: Vec<Play> = vec![];
    assert_eq!(empty.get_display_text(), "No results");
    let two = vec![
        Song::new(1, "a".to_string(), "".to_string(), 1).unwrap(),
        Song::new(2, "b".to_string(), "b".to_string(), 2).unwrap(),
    ];
    assert_eq!(two.get_display_text(), "`#1     Pop > a`\n`#2     Anime > b`");
}
