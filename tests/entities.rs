use elodon::entities::{Chart, ChartId, DisplayLevel, Genre, Level, Play, Song, User};
use elodon::error::ElodonError;
use elodon::input::extract_song_id;

#[test]
fn level_ids_and_steps() {
    assert_eq!(Level::Easy.id(), 1);
    assert_eq!(Level::Ura.id(), 5);
    assert_eq!(Level::Ura.decrease(), Some(Level::Oni));
    assert_eq!(Level::Med.decrease(), Some(Level::Easy));
    assert_eq!(Level::Easy.decrease(), None);
    assert_eq!(Level::from_id(3).unwrap(), Level::Hard);
    assert!(matches!(Level::from_id(0), Err(ElodonError::WrongLevelId(0))));
    assert!(matches!(Level::from_id(6), Err(ElodonError::WrongLevelId(6))));
    assert_eq!(Level::Oni.name(), "Oni");
}

#[test]
fn display_levels_band_levels() {
    assert_eq!(DisplayLevel::from(Level::Oni), DisplayLevel::OniPlus);
    assert_eq!(DisplayLevel::from(Level::Ura), DisplayLevel::OniPlus);
    assert_eq!(DisplayLevel::from(Level::Med), DisplayLevel::Med);
    assert_eq!(DisplayLevel::OniPlus.min_value(), 4);
    assert_eq!(DisplayLevel::OniPlus.max_value(), 5);
    assert_eq!(DisplayLevel::Easy.min_value(), 1);
    assert_eq!(DisplayLevel::Easy.max_value(), 1);
    assert_eq!(DisplayLevel::OniPlus.name(), "Oni+");
}

#[test]
fn genre_ids() {
    assert_eq!(Genre::Pop.id(), 1);
    assert_eq!(Genre::Classical.id(), 8);
    assert_eq!(Genre::from_id(5).unwrap(), Genre::GameMusic);
    assert_eq!(Genre::GameMusic.name(), "Game Music");
    assert!(matches!(Genre::from_id(9), Err(ElodonError::WrongGenreId(9))));
    assert!(matches!(Genre::from_id(0), Err(ElodonError::WrongGenreId(0))));
}

#[test]
fn song_names() {
    let only_jap = Song::new(1, "太鼓".to_string(), "".to_string(), 1).unwrap();
    assert_eq!(only_jap.get_name(), "太鼓");
    let same = Song::new(2, "Drum".to_string(), "Drum".to_string(), 2).unwrap();
    assert_eq!(same.get_name(), "Drum");
    let both = Song::new(3, "太鼓".to_string(), "Drum".to_string(), 3).unwrap();
    assert_eq!(both.get_name(), "Drum | 太鼓");
    assert_eq!(both.genre(), Genre::Kids);
}

#[test]
fn song_with_unknown_genre_is_refused() {
    let r = Song::new(1, "a".to_string(), "b".to_string(), 9);
    assert!(matches!(r, Err(ElodonError::WrongGenreId(9))));
}

#[test]
fn chart_and_play_levels() {
    let chart = Chart {
        id: 7,
        level: 5,
        score_slope: Some(1),
        score_miyabi: None,
        sd_mean: None,
        sd_sd: None,
    };
    assert_eq!(chart.level(), Level::Ura);
    assert_eq!(chart.id(), ChartId(7, Level::Ura));
    assert_eq!(chart.id().song_id(), 7);
    assert_eq!(chart.id().level(), Level::Ura);
    assert_eq!(chart.difficulty(), None);
    let play = Play {
        user: 1,
        song: 7,
        level: 2,
        score: 5,
        rank: 0,
        crown: 0,
        good_cnt: 0,
        ok_cnt: 0,
        bad_cnt: 0,
        combo_cnt: 0,
        roll_cnt: 0,
    };
    assert_eq!(play.level(), Level::Med);
}

#[test]
fn user_ratings_by_band() {
    let user = User {
        id: 1,
        discord: 2,
        name: "p".to_string(),
        elo1: Some(1),
        elo2: None,
        elo3: Some(3),
        elo4: Some(4),
    };
    assert_eq!(user.elo(DisplayLevel::Easy), Some(1));
    assert_eq!(user.elo(DisplayLevel::Med), None);
    assert_eq!(user.elo(DisplayLevel::OniPlus), Some(4));
    assert_eq!(user.discord_id(), 2);
}

#[test]
fn song_ids_from_choices() {
    assert_eq!(extract_song_id("42: Pop > Song".to_string()).unwrap(), 42);
    assert_eq!(extract_song_id("7".to_string()).unwrap(), 7);
    assert_eq!(extract_song_id("+7:x".to_string()).unwrap(), 7);
    assert_eq!(extract_song_id("4294967295".to_string()).unwrap(), u32::MAX);
    for bad in ["", ":1", "x1", "-1", "+", "4294967296", "12 : x", "1a:2"] {
        match extract_song_id(bad.to_string()) {
            Err(ElodonError::ParseError(s)) => assert_eq!(s, bad),
            other => panic!("expected ParseError for {:?}, got {:?}", bad, other),
        }
    }
}

#[test]
fn checked_chart_and_play_records() {
    let c = Chart::new(3, 4, Some(1), None, None, None).unwrap();
    assert_eq!(c.level(), Level::Oni);
    assert!(matches!(Chart::new(3, 6, None, None, None, None), Err(ElodonError::WrongLevelId(6))));
    let p = Play::new(1, 2, 5, 900_000, 0, 1, 2, 3, 4, 5, 6).unwrap();
    assert_eq!(p.level(), Level::Ura);
    assert_eq!(p.roll_cnt, 6);
    assert!(matches!(Play::new(1, 2, 0, 0, 0, 0, 0, 0, 0, 0, 0), Err(ElodonError::WrongLevelId(0))));
}

#[test]
fn plays_in_bands() {
    let oni = Play::new(1, 2, 4, 0, 0, 0, 0, 0, 0, 0, 0).unwrap();
    let ura = Play::new(1, 2, 5, 0, 0, 0, 0, 0, 0, 0, 0).unwrap();
    assert!(oni.in_band(Some(DisplayLevel::OniPlus)));
    assert!(ura.in_band(Some(DisplayLevel::OniPlus)));
    assert!(!ura.in_band(Some(DisplayLevel::Hard)));
    assert!(ura.in_band(None));
}
