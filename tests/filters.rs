use elodon::entities::{Chart, DisplayLevel, Genre, Level, Play, Song, User};
use elodon::filters::{ChartFilter, Filter, FilterField, GeneralFilter, PlayFilter, SongFilter, UserFilter};

#[test]
fn builder_order_does_not_change_predicate() {
    let a = GeneralFilter::new()
        .song_id(Some(5))
        .level(Some(Level::Oni))
        .user_id(Some(9));
    let b = GeneralFilter::new()
        .user_id(Some(9))
        .level(Some(Level::Oni))
        .song_id(Some(5));
    assert_eq!(a, b);
    assert_eq!(a.render_predicate(), b.render_predicate());
    assert_eq!(
        a.render_predicate(),
        Some("user_id = 9 AND song_id = 5 AND level_id = 4".to_string())
    );
}

#[test]
fn later_setting_of_a_field_wins() {
    let a = GeneralFilter::new().song_id(Some(1)).genre(Some(Genre::Pop)).song_id(Some(2));
    let b = GeneralFilter::new().genre(Some(Genre::Pop)).song_id(Some(2));
    assert_eq!(a.render_predicate(), b.render_predicate());
    let c = GeneralFilter::new()
        .with_field(FilterField::SongId(Some(2)))
        .with_field(FilterField::Genre(Some(Genre::Pop)));
    assert_eq!(c, b);
}

#[test]
fn cleared_field_renders_nothing() {
    let f = GeneralFilter::new().user_id(Some(3)).user_id(None);
    assert_eq!(f.render_predicate(), None);
    let mut g = GeneralFilter::new();
    g.set_user_id(Some(3));
    g.set_user_id(None);
    assert_eq!(g, GeneralFilter::new());
}

#[test]
fn empty_filter_matches_everything() {
    let g = GeneralFilter::new();
    assert_eq!(g.render_predicate(), None);
    assert_eq!(g.render_description(), "");
    let u = UserFilter::new();
    assert_eq!(u.render_predicate(), None);
    assert_eq!(u.render_description(), "");
    assert_eq!(
        u.select_query(),
        "SELECT user_id, discord_id, user_name, elo1, elo2, elo3, elo4 FROM users"
    );
    assert_eq!(
        SongFilter::new().select_query(),
        "SELECT song_id, song_name_eng, song_name_jap, genre_id FROM songs"
    );
}

#[test]
fn every_field_renders_its_clause() {
    let g = GeneralFilter::new()
        .user_id(Some(-12))
        .discord_id(Some(18446744073709551615))
        .song_id(Some(0))
        .level(Some(Level::Ura))
        .display_level(Some(DisplayLevel::OniPlus))
        .genre(Some(Genre::Classical));
    assert_eq!(
        g.render_predicate(),
        Some(
            "user_id = -12 AND discord_id = 18446744073709551615 AND song_id = 0 AND level_id = 5 \
             AND level_id BETWEEN 4 AND 5 AND genre_id = 8"
                .to_string()
        )
    );
    assert_eq!(
        g.render_description(),
        " where [user ids hidden] and discord <@18446744073709551615> and song_id is 0 and \
         level_id is 5 and level is Oni+ and genre is Classical"
    );
}

#[test]
fn minimum_user_id_renders() {
    let g = GeneralFilter::new().user_id(Some(i64::MIN));
    assert_eq!(g.render_predicate(), Some("user_id = -9223372036854775808".to_string()));
}

#[test]
fn display_level_is_a_range() {
    let c = ChartFilter::new().display_level(Some(DisplayLevel::Hard));
    assert_eq!(c.render_predicate(), Some("level_id BETWEEN 3 AND 3".to_string()));
    assert_eq!(c.render_description(), " where level is Hard");
    assert_eq!(
        c.select_query(),
        "SELECT song_id, level_id, score_slope, score_miyabi, sd_mean, sd_sd FROM charts \
         WHERE level_id BETWEEN 3 AND 3"
    );
}

#[test]
fn play_filter_query() {
    let p = PlayFilter::new().user_id(Some(7)).song_id(Some(100)).level(Some(Level::Med));
    assert_eq!(
        p.select_query(),
        "SELECT user_id, song_id, level_id, score, rank, crown, good_cnt, ok_cnt, bad_cnt, \
         combo_cnt, roll_cnt FROM top_plays WHERE user_id = 7 AND song_id = 100 AND level_id = 2"
    );
    assert_eq!(p.render_description(), " where [user ids hidden] and song_id is 100 and level_id is 2");
}

#[test]
fn specific_filters_round_trip() {
    let u = UserFilter::new().user_id(Some(4)).discord_id(Some(99));
    assert_eq!(UserFilter::from_general(&u.to_general()), u);
    let s = SongFilter::new().song_id(Some(3)).genre(Some(Genre::Anime));
    assert_eq!(SongFilter::from(GeneralFilter::from(s)), s);
    let c = ChartFilter::new()
        .song_id(Some(3))
        .level(Some(Level::Hard))
        .display_level(Some(DisplayLevel::Med));
    assert_eq!(ChartFilter::from_general(&c.to_general()), c);
    let p = PlayFilter::new().user_id(Some(-1)).display_level(Some(DisplayLevel::Easy));
    assert_eq!(PlayFilter::from_general(&p.to_general()), p);
}

#[test]
fn general_to_specific_keeps_declared_fields_only() {
    let g = GeneralFilter::new()
        .user_id(Some(1))
        .discord_id(Some(2))
        .song_id(Some(3))
        .genre(Some(Genre::Kids));
    let s = SongFilter::from_general(&g);
    assert_eq!(s.song_id, Some(3));
    assert_eq!(s.genre, Some(Genre::Kids));
    assert_eq!(
        s.to_general(),
        GeneralFilter::new().song_id(Some(3)).genre(Some(Genre::Kids))
    );
    let u = UserFilter::from(g);
    assert_eq!(u.to_general(), GeneralFilter::new().user_id(Some(1)).discord_id(Some(2)));
}

#[test]
fn entities_project_to_filters() {
    let play = Play {
        user: 11,
        song: 22,
        level: 5,
        score: 1_000_000,
        rank: 0,
        crown: 0,
        good_cnt: 0,
        ok_cnt: 0,
        bad_cnt: 0,
        combo_cnt: 0,
        roll_cnt: 0,
    };
    assert_eq!(
        GeneralFilter::from(play),
        GeneralFilter::new().user_id(Some(11)).song_id(Some(22)).level(Some(Level::Ura))
    );
    let chart = Chart {
        id: 22,
        level: 4,
        score_slope: None,
        score_miyabi: None,
        sd_mean: None,
        sd_sd: None,
    };
    assert_eq!(
        ChartFilter::from(GeneralFilter::from(chart)).render_predicate(),
        Some("song_id = 22 AND level_id = 4".to_string())
    );
    let song = Song::new(22, "a".to_string(), "b".to_string(), 6).unwrap();
    assert_eq!(
        GeneralFilter::from(song),
        GeneralFilter::new().song_id(Some(22)).genre(Some(Genre::NamcoOriginal))
    );
    let user = User {
        id: 5,
        discord: 77,
        name: "x".to_string(),
        elo1: None,
        elo2: None,
        elo3: None,
        elo4: None,
    };
    assert_eq!(
        PlayFilter::from(GeneralFilter::from(user)).render_predicate(),
        Some("user_id = 5".to_string())
    );
}
