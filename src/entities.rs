use vstd::prelude::*;
use crate::error::ElodonError;
use crate::text::{decimal, unsigned_text};

verus! {

/// Ordinal difficulty of a chart within a song, lowest first.
#[derive(Copy, Clone, Debug, Hash, PartialEq, Eq, Structural)]
pub enum Level {
    Easy,
    Med,
    Hard,
    Oni,
    Ura,
}

impl Level {
    /// Numeric id of the level as stored (1 for `Easy` up to 5 for `Ura`).
    pub open spec fn spec_id(self) -> u32 {
        match self {
            Level::Easy => 1,
            Level::Med => 2,
            Level::Hard => 3,
            Level::Oni => 4,
            Level::Ura => 5,
        }
    }

    /// The level whose id is `id`, if any.
    pub open spec fn spec_from_id(id: u32) -> Option<Level> {
        if id == 1 {
            Some(Level::Easy)
        } else if id == 2 {
            Some(Level::Med)
        } else if id == 3 {
            Some(Level::Hard)
        } else if id == 4 {
            Some(Level::Oni)
        } else if id == 5 {
            Some(Level::Ura)
        } else {
            None
        }
    }

    pub fn id(&self) -> (r: u32)
        ensures
            r == self.spec_id(),
            1 <= r <= 5,
    {
        match self {
            Level::Easy => 1,
            Level::Med => 2,
            Level::Hard => 3,
            Level::Oni => 4,
            Level::Ura => 5,
        }
    }

    /// The level with the given numeric id.
    pub fn from_id(id: u32) -> (r: Result<Level, ElodonError>)
        ensures
            match Level::spec_from_id(id) {
                Some(l) => r == Ok::<Level, ElodonError>(l),
                None => r == Err::<Level, ElodonError>(ElodonError::WrongLevelId(id)),
            },
    {
        if id == 1 {
            Ok(Level::Easy)
        } else if id == 2 {
            Ok(Level::Med)
        } else if id == 3 {
            Ok(Level::Hard)
        } else if id == 4 {
            Ok(Level::Oni)
        } else if id == 5 {
            Ok(Level::Ura)
        } else {
            Err(ElodonError::WrongLevelId(id))
        }
    }

    /// The next lower level; `None` at the lowest.
    pub fn decrease(&self) -> (r: Option<Level>)
        ensures
            r == Level::spec_from_id((self.spec_id() - 1) as u32),
            r is None <==> *self == Level::Easy,
    {
        match Level::from_id(self.id() - 1) {
            Ok(l) => Some(l),
            Err(_) => None,
        }
    }

    pub open spec fn spec_name(self) -> Seq<char> {
        match self {
            Level::Easy => "Easy"@,
            Level::Med => "Med"@,
            Level::Hard => "Hard"@,
            Level::Oni => "Oni"@,
            Level::Ura => "Ura"@,
        }
    }

    /// The name shown to users.
    pub fn name(&self) -> (r: &'static str)
        ensures
            r@ == self.spec_name(),
    {
        match self {
            Level::Easy => "Easy",
            Level::Med => "Med",
            Level::Hard => "Hard",
            Level::Oni => "Oni",
            Level::Ura => "Ura",
        }
    }
}

/// Coarse difficulty band used for filtering and for ratings; `Oni` and
/// `Ura` share the top band.
#[derive(Copy, Clone, Debug, Hash, PartialEq, Eq, Structural)]
pub enum DisplayLevel {
    Easy,
    Med,
    Hard,
    OniPlus,
}

impl DisplayLevel {
    pub open spec fn spec_min_value(self) -> u32 {
        match self {
            DisplayLevel::Easy => 1,
            DisplayLevel::Med => 2,
            DisplayLevel::Hard => 3,
            DisplayLevel::OniPlus => 4,
        }
    }

    pub open spec fn spec_max_value(self) -> u32 {
        match self {
            DisplayLevel::Easy => 1,
            DisplayLevel::Med => 2,
            DisplayLevel::Hard => 3,
            DisplayLevel::OniPlus => 5,
        }
    }

    /// The band that a level falls in.
    pub open spec fn spec_of_level(l: Level) -> DisplayLevel {
        match l {
            Level::Easy => DisplayLevel::Easy,
            Level::Med => DisplayLevel::Med,
            Level::Hard => DisplayLevel::Hard,
            Level::Oni => DisplayLevel::OniPlus,
            Level::Ura => DisplayLevel::OniPlus,
        }
    }

    /// Lowest level id in the band.
    pub fn min_value(&self) -> (r: u32)
        ensures
            r == self.spec_min_value(),
    {
        match self {
            DisplayLevel::Easy => 1,
            DisplayLevel::Med => 2,
            DisplayLevel::Hard => 3,
            DisplayLevel::OniPlus => 4,
        }
    }

    /// Highest level id in the band.
    pub fn max_value(&self) -> (r: u32)
        ensures
            r == self.spec_max_value(),
    {
        match self {
            DisplayLevel::Easy => 1,
            DisplayLevel::Med => 2,
            DisplayLevel::Hard => 3,
            DisplayLevel::OniPlus => 5,
        }
    }

    pub open spec fn spec_name(self) -> Seq<char> {
        match self {
            DisplayLevel::Easy => "Easy"@,
            DisplayLevel::Med => "Med"@,
            DisplayLevel::Hard => "Hard"@,
            DisplayLevel::OniPlus => "Oni+"@,
        }
    }

    /// The name shown to users.
    pub fn name(&self) -> (r: &'static str)
        ensures
            r@ == self.spec_name(),
    {
        match self {
            DisplayLevel::Easy => "Easy",
            DisplayLevel::Med => "Med",
            DisplayLevel::Hard => "Hard",
            DisplayLevel::OniPlus => "Oni+",
        }
    }
}

impl From<Level> for DisplayLevel {
    fn from(value: Level) -> DisplayLevel {
        match value {
            Level::Easy => DisplayLevel::Easy,
            Level::Med => DisplayLevel::Med,
            Level::Hard => DisplayLevel::Hard,
            Level::Oni => DisplayLevel::OniPlus,
            Level::Ura => DisplayLevel::OniPlus,
        }
    }
}

impl vstd::std_specs::convert::FromSpecImpl<Level> for DisplayLevel {
    open spec fn obeys_from_spec() -> bool {
        true
    }

    open spec fn from_spec(v: Level) -> DisplayLevel {
        DisplayLevel::spec_of_level(v)
    }
}

/// Musical genre of a song.
#[derive(Copy, Clone, Debug, Hash, PartialEq, Eq, Structural)]
pub enum Genre {
    Pop,
    Anime,
    Kids,
    Vocaloid,
    GameMusic,
    NamcoOriginal,
    Variety,
    Classical,
}

impl Genre {
    /// Numeric id of the genre as stored (1 to 8).
    pub open spec fn spec_id(self) -> u32 {
        match self {
            Genre::Pop => 1,
            Genre::Anime => 2,
            Genre::Kids => 3,
            Genre::Vocaloid => 4,
            Genre::GameMusic => 5,
            Genre::NamcoOriginal => 6,
            Genre::Variety => 7,
            Genre::Classical => 8,
        }
    }

    /// The genre whose id is `id`, if any.
    pub open spec fn spec_from_id(id: u32) -> Option<Genre> {
        if id == 1 { Some(Genre::Pop) }
        else if id == 2 { Some(Genre::Anime) }
        else if id == 3 { Some(Genre::Kids) }
        else if id == 4 { Some(Genre::Vocaloid) }
        else if id == 5 { Some(Genre::GameMusic) }
        else if id == 6 { Some(Genre::NamcoOriginal) }
        else if id == 7 { Some(Genre::Variety) }
        else if id == 8 { Some(Genre::Classical) }
        else { None }
    }

    pub fn id(&self) -> (r: u32)
        ensures
            r == self.spec_id(),
            1 <= r <= 8,
    {
        match self {
            Genre::Pop => 1,
            Genre::Anime => 2,
            Genre::Kids => 3,
            Genre::Vocaloid => 4,
            Genre::GameMusic => 5,
            Genre::NamcoOriginal => 6,
            Genre::Variety => 7,
            Genre::Classical => 8,
        }
    }

    /// The genre with the given numeric id.
    pub fn from_id(id: u32) -> (r: Result<Genre, ElodonError>)
        ensures
            match Genre::spec_from_id(id) {
                Some(g) => r == Ok::<Genre, ElodonError>(g),
                None => r == Err::<Genre, ElodonError>(ElodonError::WrongGenreId(id)),
            },
    {
        if id == 1 { Ok(Genre::Pop) }
        else if id == 2 { Ok(Genre::Anime) }
        else if id == 3 { Ok(Genre::Kids) }
        else if id == 4 { Ok(Genre::Vocaloid) }
        else if id == 5 { Ok(Genre::GameMusic) }
        else if id == 6 { Ok(Genre::NamcoOriginal) }
        else if id == 7 { Ok(Genre::Variety) }
        else if id == 8 { Ok(Genre::Classical) }
        else { Err(ElodonError::WrongGenreId(id)) }
    }

    pub open spec fn spec_name(self) -> Seq<char> {
        match self {
            Genre::Pop => "Pop"@,
            Genre::Anime => "Anime"@,
            Genre::Kids => "Kids"@,
            Genre::Vocaloid => "Vocaloid"@,
            Genre::GameMusic => "Game Music"@,
            Genre::NamcoOriginal => "Namco Original"@,
            Genre::Variety => "Variety"@,
            Genre::Classical => "Classical"@,
        }
    }

    /// The name shown to users.
    pub fn name(&self) -> (r: &'static str)
        ensures
            r@ == self.spec_name(),
    {
        match self {
            Genre::Pop => "Pop",
            Genre::Anime => "Anime",
            Genre::Kids => "Kids",
            Genre::Vocaloid => "Vocaloid",
            Genre::GameMusic => "Game Music",
            Genre::NamcoOriginal => "Namco Original",
            Genre::Variety => "Variety",
            Genre::Classical => "Classical",
        }
    }
}


/// Key of a chart: the song and the level within it.
#[derive(Copy, Clone, Debug, Hash, PartialEq, Eq, Structural)]
pub struct ChartId(pub u32, pub Level);

impl ChartId {
    pub fn song_id(&self) -> (r: u32)
        ensures
            r == self.0,
    {
        self.0
    }

    pub fn level(&self) -> (r: Level)
        ensures
            r == self.1,
    {
        self.1
    }
}

/// Name of a song as shown to users: the Japanese name when there is no
/// English one, a single name when both agree, else `"<English> | <Japanese>"`.
pub open spec fn song_display_name(name_jap: Seq<char>, name_eng: Seq<char>) -> Seq<char> {
    if name_eng.len() == 0 {
        name_jap
    } else if name_eng == name_jap {
        name_eng
    } else {
        name_eng + " | "@ + name_jap
    }
}

/// A song, with its two localized names and its genre id.
#[derive(Clone, Debug)]
pub struct Song {
    pub id: u32,
    pub name_jap: String,
    pub name_eng: String,
    pub genre: u32,
}

impl Song {
    /// The genre id names a known genre.
    pub open spec fn wf(&self) -> bool {
        Genre::spec_from_id(self.genre) is Some
    }

    /// A song record; fails when the genre id names no genre.
    pub fn new(id: u32, name_jap: String, name_eng: String, genre: u32) -> (r: Result<Song, ElodonError>)
        ensures
            Genre::spec_from_id(genre) is Some ==> (r matches Ok(song) && song.wf() && song.id == id
                && song.name_jap == name_jap && song.name_eng == name_eng && song.genre == genre),
            Genre::spec_from_id(genre) is None ==> r == Err::<Song, ElodonError>(ElodonError::WrongGenreId(genre)),
    {
        match Genre::from_id(genre) {
            Ok(_) => Ok(Song { id, name_jap, name_eng, genre }),
            Err(e) => Err(e),
        }
    }

    /// The name shown to users (see `song_display_name`).
    pub fn get_name(&self) -> (r: String)
        ensures
            r@ == song_display_name(self.name_jap@, self.name_eng@),
    {
        if self.name_eng.as_str().unicode_len() == 0 {
            self.name_jap.clone()
        } else if self.name_eng == self.name_jap {
            self.name_eng.clone()
        } else {
            proof {
                reveal_strlit(" | ");
            }
            self.name_eng.clone().concat(" | ").concat(self.name_jap.as_str())
        }
    }

    pub fn genre(&self) -> (r: Genre)
        requires
            self.wf(),
        ensures
            Genre::spec_from_id(self.genre) == Some(r),
    {
        match Genre::from_id(self.genre) {
            Ok(g) => g,
            Err(_) => Genre::Pop,
        }
    }
}

/// A chart's difficulty model, present only once every part has been measured.
/// Ratings and spreads are held in thousandths of a point.
#[derive(Copy, Clone, Debug, PartialEq, Eq, Structural)]
pub struct Difficulty {
    /// Score gained per rating point.
    pub slope: i32,
    /// Rating at which the predicted score is exactly one million.
    pub reference: i32,
    /// Spread of scores around the prediction, in thousandths.
    pub mean_spread: i64,
    /// Spread of that spread, in thousandths.
    pub spread_of_spread: i64,
}

/// A chart: a song at a level, with its difficulty parameters where measured.
/// The two spreads are held in thousandths of a point.
#[derive(Copy, Clone, Debug, PartialEq, Eq, Structural)]
pub struct Chart {
    pub id: u32,
    pub level: u32,
    pub score_slope: Option<i32>,
    pub score_miyabi: Option<i32>,
    pub sd_mean: Option<i64>,
    pub sd_sd: Option<i64>,
}

impl Chart {
    /// The level id names a known level.
    pub open spec fn wf(&self) -> bool {
        Level::spec_from_id(self.level) is Some
    }

    /// A chart record; fails when the level id names no level.
    pub fn new(
        id: u32,
        level: u32,
        score_slope: Option<i32>,
        score_miyabi: Option<i32>,
        sd_mean: Option<i64>,
        sd_sd: Option<i64>,
    ) -> (r: Result<Chart, ElodonError>)
        ensures
            Level::spec_from_id(level) is Some ==> r == Ok::<Chart, ElodonError>(
                Chart { id, level, score_slope, score_miyabi, sd_mean, sd_sd },
            ),
            Level::spec_from_id(level) is None ==> r == Err::<Chart, ElodonError>(ElodonError::WrongLevelId(level)),
    {
        match Level::from_id(level) {
            Ok(_) => Ok(Chart { id, level, score_slope, score_miyabi, sd_mean, sd_sd }),
            Err(e) => Err(e),
        }
    }

    /// The measured difficulty, if every parameter is present.
    pub open spec fn spec_difficulty(&self) -> Option<Difficulty> {
        if self.score_slope is Some && self.score_miyabi is Some && self.sd_mean is Some
            && self.sd_sd is Some {
            Some(Difficulty {
                slope: self.score_slope->0,
                reference: self.score_miyabi->0,
                mean_spread: self.sd_mean->0,
                spread_of_spread: self.sd_sd->0,
            })
        } else {
            None
        }
    }

    pub fn id(&self) -> (r: ChartId)
        requires
            self.wf(),
        ensures
            r.0 == self.id,
            Level::spec_from_id(self.level) == Some(r.1),
    {
        ChartId(self.id, self.level())
    }

    pub fn level(&self) -> (r: Level)
        requires
            self.wf(),
        ensures
            Level::spec_from_id(self.level) == Some(r),
    {
        match Level::from_id(self.level) {
            Ok(l) => l,
            Err(_) => Level::Easy,
        }
    }

    /// The measured difficulty: `None` while any parameter is missing.
    pub fn difficulty(&self) -> (r: Option<Difficulty>)
        ensures
            r == self.spec_difficulty(),
    {
        match (self.score_slope, self.score_miyabi, self.sd_mean, self.sd_sd) {
            (Some(slope), Some(reference), Some(mean_spread), Some(spread_of_spread)) => Some(
                Difficulty { slope, reference, mean_spread, spread_of_spread },
            ),
            _ => None,
        }
    }
}

/// A player, with one optional rating per difficulty band, in thousandths.
#[derive(Clone, Debug)]
pub struct User {
    pub id: i64,
    pub discord: u64,
    pub name: String,
    pub elo1: Option<i64>,
    pub elo2: Option<i64>,
    pub elo3: Option<i64>,
    pub elo4: Option<i64>,
}

impl User {
    pub open spec fn spec_elo(&self, level: DisplayLevel) -> Option<i64> {
        match level {
            DisplayLevel::Easy => self.elo1,
            DisplayLevel::Med => self.elo2,
            DisplayLevel::Hard => self.elo3,
            DisplayLevel::OniPlus => self.elo4,
        }
    }

    /// The player's account id on the chat platform.
    pub fn discord_id(&self) -> (r: u64)
        ensures
            r == self.discord,
    {
        self.discord
    }

    /// A stand-in for the player beside their estimated plays: the same
    /// record, its name marked as estimated.
    pub fn estimated(&self) -> (r: User)
        ensures
            r.name@ == self.name@ + " (estimated)"@,
            r.id == self.id,
            r.discord == self.discord,
            r.elo1 == self.elo1,
            r.elo2 == self.elo2,
            r.elo3 == self.elo3,
            r.elo4 == self.elo4,
    {
        User {
            id: self.id,
            discord: self.discord,
            name: self.name.clone().concat(" (estimated)"),
            elo1: self.elo1,
            elo2: self.elo2,
            elo3: self.elo3,
            elo4: self.elo4,
        }
    }

    /// The rating for a band, if the player has one.
    pub fn elo(&self, level: DisplayLevel) -> (r: Option<i64>)
        ensures
            r == self.spec_elo(level),
    {
        match level {
            DisplayLevel::Easy => self.elo1,
            DisplayLevel::Med => self.elo2,
            DisplayLevel::Hard => self.elo3,
            DisplayLevel::OniPlus => self.elo4,
        }
    }
}

/// A recorded score of a player on a chart, with its judgement counters.
#[derive(Copy, Clone, Debug, Hash, PartialEq, Eq, Structural)]
pub struct Play {
    pub user: i64,
    pub song: u32,
    pub level: u32,
    pub score: u32,
    pub rank: u32,
    pub crown: u32,
    pub good_cnt: u32,
    pub ok_cnt: u32,
    pub bad_cnt: u32,
    pub combo_cnt: u32,
    pub roll_cnt: u32,
}

impl Play {
    /// The level id names a known level.
    pub open spec fn wf(&self) -> bool {
        Level::spec_from_id(self.level) is Some
    }

    /// A play record; fails when the level id names no level.
    pub fn new(
        user: i64,
        song: u32,
        level: u32,
        score: u32,
        rank: u32,
        crown: u32,
        good_cnt: u32,
        ok_cnt: u32,
        bad_cnt: u32,
        combo_cnt: u32,
        roll_cnt: u32,
    ) -> (r: Result<Play, ElodonError>)
        ensures
            Level::spec_from_id(level) is Some ==> r == Ok::<Play, ElodonError>(
                Play { user, song, level, score, rank, crown, good_cnt, ok_cnt, bad_cnt, combo_cnt, roll_cnt },
            ),
            Level::spec_from_id(level) is None ==> r == Err::<Play, ElodonError>(ElodonError::WrongLevelId(level)),
    {
        match Level::from_id(level) {
            Ok(_) => Ok(Play { user, song, level, score, rank, crown, good_cnt, ok_cnt, bad_cnt, combo_cnt, roll_cnt }),
            Err(e) => Err(e),
        }
    }

    /// Whether the play's level lies in `band`; every play does when no band
    /// is given.
    pub fn in_band(&self, band: Option<DisplayLevel>) -> (r: bool)
        requires
            self.wf(),
        ensures
            r == match band {
                None => true,
                Some(b) => b == DisplayLevel::spec_of_level(Level::spec_from_id(self.level)->0),
            },
    {
        match band {
            None => true,
            Some(b) => b == DisplayLevel::from(self.level()),
        }
    }

    pub fn level(&self) -> (r: Level)
        requires
            self.wf(),
        ensures
            Level::spec_from_id(self.level) == Some(r),
    {
        match Level::from_id(self.level) {
            Ok(l) => l,
            Err(_) => Level::Easy,
        }
    }
}

} // verus!
