use elodon::choices::{contains_ignoring_case, Data};
use elodon::entities::Song;

#[test]
fn choices_from_songs() {
    let songs = vec![
        Song::new(12, "太鼓".to_string(), "Drum Song".to_string(), 1).unwrap(),
        Song::new(3, "Same".to_string(), "Same".to_string(), 5).unwrap(),
    ];
    let data = Data::from_songs(&songs);
    assert_eq!(
        data.songs_autocomplete,
        vec!["12: Pop > Drum Song | 太鼓".to_string(), "3: Game Music > Same".to_string()]
    );
}

#[test]
fn autocomplete_ignores_ascii_case() {
    let data = Data {
        songs_autocomplete: vec![
            "1: Pop > Hello World".to_string(),
            "2: Anime > Other".to_string(),
            "3: Kids > WORLDS".to_string(),
        ],
    };
    assert_eq!(
        data.autocomplete_song("world"),
        vec!["1: Pop > Hello World".to_string(), "3: Kids > WORLDS".to_string()]
    );
    assert_eq!(data.autocomplete_song("").len(), 3);
    assert!(data.autocomplete_song("zzz").is_empty());
}

#[test]
fn containment() {
    assert!(contains_ignoring_case("abcDEF", "cde"));
    assert!(contains_ignoring_case("abc", ""));
    assert!(!contains_ignoring_case("ab", "abc"));
    assert!(!contains_ignoring_case("Straße", "SS"));
}
