use vstd::prelude::*;
use crate::entities::{Chart, DisplayLevel, Genre, Level, Play, Song, User};
use crate::text::{decimal, join, join_text, signed_decimal, signed_text, unsigned_text, views};

verus! {

/// The view of an optional string.
pub open spec fn opt_view(o: Option<String>) -> Option<Seq<char>> {
    match o {
        Some(s) => Some(s@),
        None => None,
    }
}

/// One clause as a list of zero or one element.
pub open spec fn present(c: Option<Seq<char>>) -> Seq<Seq<char>> {
    match c {
        Some(x) => seq![x],
        None => Seq::empty(),
    }
}

// Predicate clause of each field.
pub open spec fn user_id_clause(v: i64) -> Seq<char> {
    "user_id = "@ + signed_decimal(v as int)
}

pub open spec fn discord_id_clause(v: u64) -> Seq<char> {
    "discord_id = "@ + decimal(v as nat)
}

pub open spec fn song_id_clause(v: u32) -> Seq<char> {
    "song_id = "@ + decimal(v as nat)
}

pub open spec fn level_clause(l: Level) -> Seq<char> {
    "level_id = "@ + decimal(l.spec_id() as nat)
}

pub open spec fn display_level_clause(d: DisplayLevel) -> Seq<char> {
    "level_id BETWEEN "@ + decimal(d.spec_min_value() as nat) + " AND "@ + decimal(
        d.spec_max_value() as nat,
    )
}

pub open spec fn genre_clause(g: Genre) -> Seq<char> {
    "genre_id = "@ + decimal(g.spec_id() as nat)
}

// Description of each field; raw user ids are never shown.
pub open spec fn user_id_note(v: i64) -> Seq<char> {
    "[user ids hidden]"@
}

pub open spec fn discord_id_note(v: u64) -> Seq<char> {
    "discord <@"@ + decimal(v as nat) + ">"@
}

pub open spec fn song_id_note(v: u32) -> Seq<char> {
    "song_id is "@ + decimal(v as nat)
}

pub open spec fn level_note(l: Level) -> Seq<char> {
    "level_id is "@ + decimal(l.spec_id() as nat)
}

pub open spec fn display_level_note(d: DisplayLevel) -> Seq<char> {
    "level is "@ + d.spec_name()
}

pub open spec fn genre_note(g: Genre) -> Seq<char> {
    "genre is "@ + g.spec_name()
}

/// The predicate for a list of clauses: `None` (no WHERE clause) when the
/// list is empty, else the clauses joined by ` AND `.
pub open spec fn predicate_of(clauses: Seq<Seq<char>>) -> Option<Seq<char>> {
    if clauses.len() == 0 {
        None
    } else {
        Some(join(clauses, " AND "@))
    }
}

/// The description for a list of notes: empty when the list is empty, else
/// ` where ` followed by the notes joined by ` and `.
pub open spec fn description_of(notes: Seq<Seq<char>>) -> Seq<char> {
    if notes.len() == 0 {
        Seq::empty()
    } else {
        " where "@ + join(notes, " and "@)
    }
}

/// The query that selects `columns` of `table` under a predicate.
pub open spec fn select_text(columns: Seq<char>, table: Seq<char>, predicate: Option<Seq<char>>) -> Seq<char> {
    match predicate {
        None => "SELECT "@ + columns + " FROM "@ + table,
        Some(p) => "SELECT "@ + columns + " FROM "@ + table + " WHERE "@ + p,
    }
}

/// A filter over every field that any entity can be searched by; each field
/// is either a constraint or absent.
#[derive(Copy, Clone, Debug, Hash, PartialEq, Eq, Structural)]
pub struct GeneralFilter {
    pub user_id: Option<i64>,
    pub discord_id: Option<u64>,
    pub song_id: Option<u32>,
    pub level: Option<Level>,
    pub display_level: Option<DisplayLevel>,
    pub genre: Option<Genre>,
}

/// Setting (or clearing, with `None`) one field of a filter.
#[derive(Copy, Clone, Debug, PartialEq, Eq, Structural)]
pub enum FilterField {
    UserId(Option<i64>),
    DiscordId(Option<u64>),
    SongId(Option<u32>),
    Level(Option<Level>),
    DisplayLevel(Option<DisplayLevel>),
    Genre(Option<Genre>),
}

impl FilterField {
    /// Which field is set: 0 to 5, in declaration order of `GeneralFilter`.
    pub open spec fn slot(self) -> nat {
        match self {
            FilterField::UserId(_) => 0,
            FilterField::DiscordId(_) => 1,
            FilterField::SongId(_) => 2,
            FilterField::Level(_) => 3,
            FilterField::DisplayLevel(_) => 4,
            FilterField::Genre(_) => 5,
        }
    }
}

/// The filter with no constraint.
pub open spec fn empty_filter() -> GeneralFilter {
    GeneralFilter {
        user_id: None,
        discord_id: None,
        song_id: None,
        level: None,
        display_level: None,
        genre: None,
    }
}

impl GeneralFilter {
    pub open spec fn predicate_clauses(self) -> Seq<Seq<char>> {
        present(
            match self.user_id {
                Some(v) => Some(user_id_clause(v)),
                None => None,
            },
        ) + present(
            match self.discord_id {
                Some(v) => Some(discord_id_clause(v)),
                None => None,
            },
        ) + present(
            match self.song_id {
                Some(v) => Some(song_id_clause(v)),
                None => None,
            },
        ) + present(
            match self.level {
                Some(v) => Some(level_clause(v)),
                None => None,
            },
        ) + present(
            match self.display_level {
                Some(v) => Some(display_level_clause(v)),
                None => None,
            },
        ) + present(
            match self.genre {
                Some(v) => Some(genre_clause(v)),
                None => None,
            },
        )
    }

    pub open spec fn description_notes(self) -> Seq<Seq<char>> {
        present(
            match self.user_id {
                Some(v) => Some(user_id_note(v)),
                None => None,
            },
        ) + present(
            match self.discord_id {
                Some(v) => Some(discord_id_note(v)),
                None => None,
            },
        ) + present(
            match self.song_id {
                Some(v) => Some(song_id_note(v)),
                None => None,
            },
        ) + present(
            match self.level {
                Some(v) => Some(level_note(v)),
                None => None,
            },
        ) + present(
            match self.display_level {
                Some(v) => Some(display_level_note(v)),
                None => None,
            },
        ) + present(
            match self.genre {
                Some(v) => Some(genre_note(v)),
                None => None,
            },
        )
    }

    /// The store predicate: present fields joined by ` AND `, or `None`.
    pub open spec fn spec_predicate(self) -> Option<Seq<char>> {
        predicate_of(self.predicate_clauses())
    }

    /// The description shown to users.
    pub open spec fn spec_description(self) -> Seq<char> {
        description_of(self.description_notes())
    }

    /// The filter with one field replaced.
    pub open spec fn apply(self, f: FilterField) -> GeneralFilter {
        match f {
            FilterField::UserId(v) => GeneralFilter { user_id: v, ..self },
            FilterField::DiscordId(v) => GeneralFilter { discord_id: v, ..self },
            FilterField::SongId(v) => GeneralFilter { song_id: v, ..self },
            FilterField::Level(v) => GeneralFilter { level: v, ..self },
            FilterField::DisplayLevel(v) => GeneralFilter { display_level: v, ..self },
            FilterField::Genre(v) => GeneralFilter { genre: v, ..self },
        }
    }

    /// The filter after a chain of field settings, first to last.
    pub open spec fn apply_all(self, s: Seq<FilterField>) -> GeneralFilter
        decreases s.len(),
    {
        if s.len() == 0 {
            self
        } else {
            self.apply_all(s.drop_last()).apply(s.last())
        }
    }

    pub fn new() -> (r: GeneralFilter)
        ensures
            r == empty_filter(),
    {
        GeneralFilter {
            user_id: None,
            discord_id: None,
            song_id: None,
            level: None,
            display_level: None,
            genre: None,
        }
    }

    /// The filter with one field set or cleared.
    pub fn with_field(&self, f: FilterField) -> (r: GeneralFilter)
        ensures
            r == self.apply(f),
    {
        match f {
            FilterField::UserId(v) => GeneralFilter { user_id: v, ..*self },
            FilterField::DiscordId(v) => GeneralFilter { discord_id: v, ..*self },
            FilterField::SongId(v) => GeneralFilter { song_id: v, ..*self },
            FilterField::Level(v) => GeneralFilter { level: v, ..*self },
            FilterField::DisplayLevel(v) => GeneralFilter { display_level: v, ..*self },
            FilterField::Genre(v) => GeneralFilter { genre: v, ..*self },
        }
    }

    fn predicate_parts(&self) -> (r: Vec<String>)
        ensures
            views(r@) == self.predicate_clauses(),
    {
        let mut parts: Vec<String> = Vec::new();
        let ghost user_part = present(
            match self.user_id {
                Some(v) => Some(user_id_clause(v)),
                None => None,
            },
        );
        let ghost discord_part = present(
            match self.discord_id {
                Some(v) => Some(discord_id_clause(v)),
                None => None,
            },
        );
        let ghost song_part = present(
            match self.song_id {
                Some(v) => Some(song_id_clause(v)),
                None => None,
            },
        );
        let ghost level_part = present(
            match self.level {
                Some(v) => Some(level_clause(v)),
                None => None,
            },
        );
        let ghost band_part = present(
            match self.display_level {
                Some(v) => Some(display_level_clause(v)),
                None => None,
            },
        );
        let ghost genre_part = present(
            match self.genre {
                Some(v) => Some(genre_clause(v)),
                None => None,
            },
        );
        if let Some(v) = self.user_id {
            parts.push(String::from_str("user_id = ").concat(signed_text(v).as_str()));
        }
        assert(views(parts@) =~= user_part);
        if let Some(v) = self.discord_id {
            parts.push(String::from_str("discord_id = ").concat(unsigned_text(v).as_str()));
        }
        assert(views(parts@) =~= user_part + discord_part);
        if let Some(v) = self.song_id {
            parts.push(String::from_str("song_id = ").concat(unsigned_text(v as u64).as_str()));
        }
        assert(views(parts@) =~= user_part + discord_part + song_part);
        if let Some(v) = self.level {
            parts.push(String::from_str("level_id = ").concat(unsigned_text(v.id() as u64).as_str()));
        }
        assert(views(parts@) =~= user_part + discord_part + song_part + level_part);
        if let Some(v) = self.display_level {
            parts.push(
                String::from_str("level_id BETWEEN ").concat(
                    unsigned_text(v.min_value() as u64).as_str(),
                ).concat(" AND ").concat(unsigned_text(v.max_value() as u64).as_str()),
            );
        }
        assert(views(parts@) =~= user_part + discord_part + song_part + level_part + band_part);
        if let Some(v) = self.genre {
            parts.push(String::from_str("genre_id = ").concat(unsigned_text(v.id() as u64).as_str()));
        }
        assert(views(parts@) =~= user_part + discord_part + song_part + level_part + band_part + genre_part);
        parts
    }

    /// The store predicate: each present field's clause, joined by ` AND `;
    /// `None` when no field is present, so that everything matches.
    pub fn render_predicate(&self) -> (r: Option<String>)
        ensures
            opt_view(r) == self.spec_predicate(),
    {
        let parts = self.predicate_parts();
        if parts.len() == 0 {
            None
        } else {
            Some(join_text(&parts, " AND "))
        }
    }

    fn description_parts(&self) -> (r: Vec<String>)
        ensures
            views(r@) == self.description_notes(),
    {
        let mut parts: Vec<String> = Vec::new();
        let ghost user_part = present(
            match self.user_id {
                Some(v) => Some(user_id_note(v)),
                None => None,
            },
        );
        let ghost discord_part = present(
            match self.discord_id {
                Some(v) => Some(discord_id_note(v)),
                None => None,
            },
        );
        let ghost song_part = present(
            match self.song_id {
                Some(v) => Some(song_id_note(v)),
                None => None,
            },
        );
        let ghost level_part = present(
            match self.level {
                Some(v) => Some(level_note(v)),
                None => None,
            },
        );
        let ghost band_part = present(
            match self.display_level {
                Some(v) => Some(display_level_note(v)),
                None => None,
            },
        );
        let ghost genre_part = present(
            match self.genre {
                Some(v) => Some(genre_note(v)),
                None => None,
            },
        );
        if let Some(_) = self.user_id {
            parts.push(String::from_str("[user ids hidden]"));
        }
        assert(views(parts@) =~= user_part);
        if let Some(v) = self.discord_id {
            parts.push(
                String::from_str("discord <@").concat(unsigned_text(v).as_str()).concat(">"),
            );
        }
        assert(views(parts@) =~= user_part + discord_part);
        if let Some(v) = self.song_id {
            parts.push(String::from_str("song_id is ").concat(unsigned_text(v as u64).as_str()));
        }
        assert(views(parts@) =~= user_part + discord_part + song_part);
        if let Some(v) = self.level {
            parts.push(String::from_str("level_id is ").concat(unsigned_text(v.id() as u64).as_str()));
        }
        assert(views(parts@) =~= user_part + discord_part + song_part + level_part);
        if let Some(v) = self.display_level {
            parts.push(String::from_str("level is ").concat(v.name()));
        }
        assert(views(parts@) =~= user_part + discord_part + song_part + level_part + band_part);
        if let Some(v) = self.genre {
            parts.push(String::from_str("genre is ").concat(v.name()));
        }
        assert(views(parts@) =~= user_part + discord_part + song_part + level_part + band_part + genre_part);
        parts
    }

    /// The description shown to users: ` where ` and each present field's
    /// note, joined by ` and `; empty when no field is present.
    pub fn render_description(&self) -> (r: String)
        ensures
            r@ == self.spec_description(),
    {
        let parts = self.description_parts();
        if parts.len() == 0 {
            String::new()
        } else {
            String::from_str(" where ").concat(join_text(&parts, " and ").as_str())
        }
    }

    pub fn user_id(&self, user_id: Option<i64>) -> (r: GeneralFilter)
        ensures
            r == self.apply(FilterField::UserId(user_id)),
    {
        GeneralFilter { user_id, ..*self }
    }

    pub fn discord_id(&self, discord_id: Option<u64>) -> (r: GeneralFilter)
        ensures
            r == self.apply(FilterField::DiscordId(discord_id)),
    {
        GeneralFilter { discord_id, ..*self }
    }

    pub fn song_id(&self, song_id: Option<u32>) -> (r: GeneralFilter)
        ensures
            r == self.apply(FilterField::SongId(song_id)),
    {
        GeneralFilter { song_id, ..*self }
    }

    pub fn level(&self, level: Option<Level>) -> (r: GeneralFilter)
        ensures
            r == self.apply(FilterField::Level(level)),
    {
        GeneralFilter { level, ..*self }
    }

    pub fn display_level(&self, display_level: Option<DisplayLevel>) -> (r: GeneralFilter)
        ensures
            r == self.apply(FilterField::DisplayLevel(display_level)),
    {
        GeneralFilter { display_level, ..*self }
    }

    pub fn genre(&self, genre: Option<Genre>) -> (r: GeneralFilter)
        ensures
            r == self.apply(FilterField::Genre(genre)),
    {
        GeneralFilter { genre, ..*self }
    }

    pub fn set_user_id(&mut self, user_id: Option<i64>)
        ensures
            *final(self) == old(self).apply(FilterField::UserId(user_id)),
    {
        self.user_id = user_id;
    }

    pub fn set_discord_id(&mut self, discord_id: Option<u64>)
        ensures
            *final(self) == old(self).apply(FilterField::DiscordId(discord_id)),
    {
        self.discord_id = discord_id;
    }

    pub fn set_song_id(&mut self, song_id: Option<u32>)
        ensures
            *final(self) == old(self).apply(FilterField::SongId(song_id)),
    {
        self.song_id = song_id;
    }

    pub fn set_level(&mut self, level: Option<Level>)
        ensures
            *final(self) == old(self).apply(FilterField::Level(level)),
    {
        self.level = level;
    }

    pub fn set_display_level(&mut self, display_level: Option<DisplayLevel>)
        ensures
            *final(self) == old(self).apply(FilterField::DisplayLevel(display_level)),
    {
        self.display_level = display_level;
    }

    pub fn set_genre(&mut self, genre: Option<Genre>)
        ensures
            *final(self) == old(self).apply(FilterField::Genre(genre)),
    {
        self.genre = genre;
    }
}

/// The last setting of field `k` in a chain, if any.
pub open spec fn last_set(s: Seq<FilterField>, k: nat) -> Option<FilterField>
    decreases s.len(),
{
    if s.len() == 0 {
        None
    } else if s.last().slot() == k {
        Some(s.last())
    } else {
        last_set(s.drop_last(), k)
    }
}

/// The filter that a chain ends with: each field holds its last setting, or
/// the starting value where the chain never sets it.
pub open spec fn settled(f: GeneralFilter, s: Seq<FilterField>) -> GeneralFilter {
    GeneralFilter {
        user_id: match last_set(s, 0) {
            Some(FilterField::UserId(v)) => v,
            _ => f.user_id,
        },
        discord_id: match last_set(s, 1) {
            Some(FilterField::DiscordId(v)) => v,
            _ => f.discord_id,
        },
        song_id: match last_set(s, 2) {
            Some(FilterField::SongId(v)) => v,
            _ => f.song_id,
        },
        level: match last_set(s, 3) {
            Some(FilterField::Level(v)) => v,
            _ => f.level,
        },
        display_level: match last_set(s, 4) {
            Some(FilterField::DisplayLevel(v)) => v,
            _ => f.display_level,
        },
        genre: match last_set(s, 5) {
            Some(FilterField::Genre(v)) => v,
            _ => f.genre,
        },
    }
}

proof fn lemma_last_set_slot(s: Seq<FilterField>, k: nat)
    ensures
        last_set(s, k) matches Some(x) ==> x.slot() == k,
    decreases s.len(),
{
    if s.len() > 0 && s.last().slot() != k {
        lemma_last_set_slot(s.drop_last(), k);
    }
}

/// The columns of a stored row that filters constrain.
pub struct StoreRow {
    pub user_id: int,
    pub discord_id: int,
    pub song_id: int,
    pub level_id: int,
    pub genre_id: int,
}

impl GeneralFilter {
    /// The row meets every present constraint: equality for ids, the band's
    /// id range for a display level.
    pub open spec fn admits(self, row: StoreRow) -> bool {
        &&& (self.user_id matches Some(v) ==> row.user_id == v)
        &&& (self.discord_id matches Some(v) ==> row.discord_id == v)
        &&& (self.song_id matches Some(v) ==> row.song_id == v)
        &&& (self.level matches Some(l) ==> row.level_id == l.spec_id())
        &&& (self.display_level matches Some(d) ==> d.spec_min_value() <= row.level_id
            <= d.spec_max_value())
        &&& (self.genre matches Some(g) ==> row.genre_id == g.spec_id())
    }
}

/// A filter renders no predicate (no WHERE clause) exactly when it admits
/// every row; in particular the empty filter matches every row of any table.
pub proof fn lemma_no_predicate_iff_admits_all(g: GeneralFilter)
    ensures
        g.spec_predicate() is None <==> forall|row: StoreRow| g.admits(row),
        forall|row: StoreRow| empty_filter().admits(row),
{
    let witness = StoreRow {
        user_id: match g.user_id {
            Some(v) => v + 1,
            None => 0,
        },
        discord_id: match g.discord_id {
            Some(v) => v + 1,
            None => 0,
        },
        song_id: match g.song_id {
            Some(v) => v + 1,
            None => 0,
        },
        level_id: match (g.level, g.display_level) {
            (Some(l), _) => l.spec_id() + 1,
            (None, Some(d)) => d.spec_max_value() + 1,
            (None, None) => 0,
        },
        genre_id: match g.genre {
            Some(x) => x.spec_id() + 1,
            None => 0,
        },
    };
    if g.spec_predicate() is None {
        assert(g.predicate_clauses().len() == 0);
    } else {
        assert(!g.admits(witness));
    }
}

/// A chain of settings ends with each field at its last setting.
pub proof fn lemma_apply_all_settled(f: GeneralFilter, s: Seq<FilterField>)
    ensures
        f.apply_all(s) == settled(f, s),
    decreases s.len(),
{
    if s.len() > 0 {
        lemma_apply_all_settled(f, s.drop_last());
        lemma_last_set_slot(s.drop_last(), 0);
        lemma_last_set_slot(s.drop_last(), 1);
        lemma_last_set_slot(s.drop_last(), 2);
        lemma_last_set_slot(s.drop_last(), 3);
        lemma_last_set_slot(s.drop_last(), 4);
        lemma_last_set_slot(s.drop_last(), 5);
    }
}

/// Chains of field settings that end with the same value in every field,
/// whatever their order, give the same filter, and so the same predicate and
/// the same description.
pub proof fn lemma_setting_order_irrelevant(f: GeneralFilter, s1: Seq<FilterField>, s2: Seq<FilterField>)
    requires
        forall|k: nat| k < 6 ==> #[trigger] last_set(s1, k) == last_set(s2, k),
    ensures
        f.apply_all(s1) == f.apply_all(s2),
        f.apply_all(s1).spec_predicate() == f.apply_all(s2).spec_predicate(),
        f.apply_all(s1).spec_description() == f.apply_all(s2).spec_description(),
{
    lemma_apply_all_settled(f, s1);
    lemma_apply_all_settled(f, s2);
    assert(last_set(s1, 0) == last_set(s2, 0));
    assert(last_set(s1, 1) == last_set(s2, 1));
    assert(last_set(s1, 2) == last_set(s2, 2));
    assert(last_set(s1, 3) == last_set(s2, 3));
    assert(last_set(s1, 4) == last_set(s2, 4));
    assert(last_set(s1, 5) == last_set(s2, 5));
}

/// Settings of two different fields commute.
pub proof fn lemma_settings_commute(f: GeneralFilter, a: FilterField, b: FilterField)
    requires
        a.slot() != b.slot(),
    ensures
        f.apply(a).apply(b) == f.apply(b).apply(a),
{
}

/// The filter with no constraint renders no predicate (so every row matches)
/// and an empty description.
pub proof fn lemma_empty_filter_renders_nothing()
    ensures
        empty_filter().spec_predicate() is None,
        empty_filter().spec_description() == Seq::<char>::empty(),
{
    assert(empty_filter().predicate_clauses() =~= Seq::<Seq<char>>::empty());
    assert(empty_filter().description_notes() =~= Seq::<Seq<char>>::empty());
}

/// The field in slot `k` of a filter, as a setting.
pub open spec fn field_of(g: GeneralFilter, k: nat) -> FilterField {
    if k == 0 {
        FilterField::UserId(g.user_id)
    } else if k == 1 {
        FilterField::DiscordId(g.discord_id)
    } else if k == 2 {
        FilterField::SongId(g.song_id)
    } else if k == 3 {
        FilterField::Level(g.level)
    } else if k == 4 {
        FilterField::DisplayLevel(g.display_level)
    } else {
        FilterField::Genre(g.genre)
    }
}

/// A filter over the fields by which one kind of entity is searched. Each kind
/// converts to and from the general filter, and renders through it.
pub trait Filter: Sized {
    /// This filter as a general one: its own fields, every other one absent.
    spec fn spec_general(&self) -> GeneralFilter;

    /// The filter holding those fields of `g` that this kind declares.
    spec fn spec_from_general(g: GeneralFilter) -> Self;

    /// Whether this kind declares the field in slot `k`.
    spec fn declares(k: nat) -> bool;

    /// The table that holds the entities.
    spec fn spec_table() -> Seq<char>;

    /// The columns that make up one entity.
    spec fn spec_columns() -> Seq<char>;

    fn to_general(&self) -> (r: GeneralFilter)
        ensures
            r == self.spec_general(),
    ;

    fn from_general(g: &GeneralFilter) -> (r: Self)
        ensures
            r == Self::spec_from_general(*g),
    ;

    fn table_name() -> (r: &'static str)
        ensures
            r@ == Self::spec_table(),
    ;

    fn columns() -> (r: &'static str)
        ensures
            r@ == Self::spec_columns(),
    ;

    /// Going to the general filter and back gives the same filter.
    proof fn lemma_round_trip(f: Self)
        ensures
            Self::spec_from_general(f.spec_general()) == f,
    ;

    /// Going from the general filter and back keeps the declared fields and
    /// leaves every other field absent.
    proof fn lemma_keeps_declared(g: GeneralFilter)
        ensures
            forall|k: nat|
                k < 6 ==> #[trigger] field_of(Self::spec_from_general(g).spec_general(), k) == if Self::declares(k) {
                    field_of(g, k)
                } else {
                    field_of(empty_filter(), k)
                },
    ;

    /// The store predicate of the filter (see `GeneralFilter::render_predicate`).
    fn render_predicate(&self) -> (r: Option<String>)
        ensures
            opt_view(r) == self.spec_general().spec_predicate(),
    {
        self.to_general().render_predicate()
    }

    /// The description of the filter (see `GeneralFilter::render_description`).
    fn render_description(&self) -> (r: String)
        ensures
            r@ == self.spec_general().spec_description(),
    {
        self.to_general().render_description()
    }

    /// The query that selects the matching entities: every row of the table
    /// when no field is present.
    fn select_query(&self) -> (r: String)
        ensures
            r@ == select_text(Self::spec_columns(), Self::spec_table(), self.spec_general().spec_predicate()),
    {
        let query = String::from_str("SELECT ").concat(Self::columns()).concat(" FROM ").concat(
            Self::table_name(),
        );
        match self.render_predicate() {
            None => query,
            Some(p) => query.concat(" WHERE ").concat(p.as_str()),
        }
    }
}

/// For every kind of filter, the general filter made from it converts back
/// to the same filter, and converting a general filter keeps exactly the
/// fields that the kind declares.
pub proof fn lemma_filter_round_trip<F: Filter>(f: F, g: GeneralFilter)
    ensures
        F::spec_from_general(f.spec_general()) == f,
        forall|k: nat|
            k < 6 ==> #[trigger] field_of(F::spec_from_general(g).spec_general(), k) == if F::declares(k) {
                field_of(g, k)
            } else {
                field_of(empty_filter(), k)
            },
{
    F::lemma_round_trip(f);
    F::lemma_keeps_declared(g);
}

/// A filter over players: by internal id and by chat-platform account.
#[derive(Copy, Clone, Debug, Hash, PartialEq, Eq, Structural)]
pub struct UserFilter {
    pub user_id: Option<i64>,
    pub discord_id: Option<u64>,
}

impl UserFilter {
    pub fn new() -> (r: UserFilter)
        ensures
            r.user_id is None,
            r.discord_id is None,
    {
        UserFilter { user_id: None, discord_id: None }
    }

    pub fn user_id(&self, user_id: Option<i64>) -> (r: UserFilter)
        ensures
            r.user_id == user_id,
            r.discord_id == self.discord_id,
    {
        UserFilter { user_id, ..*self }
    }

    pub fn discord_id(&self, discord_id: Option<u64>) -> (r: UserFilter)
        ensures
            r.discord_id == discord_id,
            r.user_id == self.user_id,
    {
        UserFilter { discord_id, ..*self }
    }
}

impl Filter for UserFilter {
    open spec fn spec_general(&self) -> GeneralFilter {
        GeneralFilter {
            user_id: self.user_id,
            discord_id: self.discord_id,
            song_id: None,
            level: None,
            display_level: None,
            genre: None,
        }
    }

    open spec fn spec_from_general(g: GeneralFilter) -> UserFilter {
        UserFilter {
            user_id: g.user_id,
            discord_id: g.discord_id,
        }
    }

    open spec fn declares(k: nat) -> bool {
        k == 0 || k == 1
    }

    open spec fn spec_table() -> Seq<char> {
        "users"@
    }

    open spec fn spec_columns() -> Seq<char> {
        "user_id, discord_id, user_name, elo1, elo2, elo3, elo4"@
    }

    fn to_general(&self) -> (r: GeneralFilter) {
        GeneralFilter {
            user_id: self.user_id,
            discord_id: self.discord_id,
            song_id: None,
            level: None,
            display_level: None,
            genre: None,
        }
    }

    fn from_general(g: &GeneralFilter) -> (r: UserFilter) {
        UserFilter {
            user_id: g.user_id,
            discord_id: g.discord_id,
        }
    }

    fn table_name() -> (r: &'static str) {
        "users"
    }

    fn columns() -> (r: &'static str) {
        "user_id, discord_id, user_name, elo1, elo2, elo3, elo4"
    }

    proof fn lemma_round_trip(f: UserFilter) {
    }

    proof fn lemma_keeps_declared(g: GeneralFilter) {
    }
}

impl From<UserFilter> for GeneralFilter {
    fn from(value: UserFilter) -> GeneralFilter {
        value.to_general()
    }
}

impl vstd::std_specs::convert::FromSpecImpl<UserFilter> for GeneralFilter {
    open spec fn obeys_from_spec() -> bool {
        true
    }

    open spec fn from_spec(v: UserFilter) -> GeneralFilter {
        v.spec_general()
    }
}

impl From<GeneralFilter> for UserFilter {
    fn from(value: GeneralFilter) -> UserFilter {
        UserFilter::from_general(&value)
    }
}

impl vstd::std_specs::convert::FromSpecImpl<GeneralFilter> for UserFilter {
    open spec fn obeys_from_spec() -> bool {
        true
    }

    open spec fn from_spec(v: GeneralFilter) -> UserFilter {
        UserFilter::spec_from_general(v)
    }
}

/// A filter over songs: by id and by genre.
#[derive(Copy, Clone, Debug, Hash, PartialEq, Eq, Structural)]
pub struct SongFilter {
    pub song_id: Option<u32>,
    pub genre: Option<Genre>,
}

impl SongFilter {
    pub fn new() -> (r: SongFilter)
        ensures
            r.song_id is None,
            r.genre is None,
    {
        SongFilter { song_id: None, genre: None }
    }

    pub fn song_id(&self, song_id: Option<u32>) -> (r: SongFilter)
        ensures
            r.song_id == song_id,
            r.genre == self.genre,
    {
        SongFilter { song_id, ..*self }
    }

    pub fn genre(&self, genre: Option<Genre>) -> (r: SongFilter)
        ensures
            r.genre == genre,
            r.song_id == self.song_id,
    {
        SongFilter { genre, ..*self }
    }
}

impl Filter for SongFilter {
    open spec fn spec_general(&self) -> GeneralFilter {
        GeneralFilter {
            user_id: None,
            discord_id: None,
            song_id: self.song_id,
            level: None,
            display_level: None,
            genre: self.genre,
        }
    }

    open spec fn spec_from_general(g: GeneralFilter) -> SongFilter {
        SongFilter {
            song_id: g.song_id,
            genre: g.genre,
        }
    }

    open spec fn declares(k: nat) -> bool {
        k == 2 || k == 5
    }

    open spec fn spec_table() -> Seq<char> {
        "songs"@
    }

    open spec fn spec_columns() -> Seq<char> {
        "song_id, song_name_eng, song_name_jap, genre_id"@
    }

    fn to_general(&self) -> (r: GeneralFilter) {
        GeneralFilter {
            user_id: None,
            discord_id: None,
            song_id: self.song_id,
            level: None,
            display_level: None,
            genre: self.genre,
        }
    }

    fn from_general(g: &GeneralFilter) -> (r: SongFilter) {
        SongFilter {
            song_id: g.song_id,
            genre: g.genre,
        }
    }

    fn table_name() -> (r: &'static str) {
        "songs"
    }

    fn columns() -> (r: &'static str) {
        "song_id, song_name_eng, song_name_jap, genre_id"
    }

    proof fn lemma_round_trip(f: SongFilter) {
    }

    proof fn lemma_keeps_declared(g: GeneralFilter) {
    }
}

impl From<SongFilter> for GeneralFilter {
    fn from(value: SongFilter) -> GeneralFilter {
        value.to_general()
    }
}

impl vstd::std_specs::convert::FromSpecImpl<SongFilter> for GeneralFilter {
    open spec fn obeys_from_spec() -> bool {
        true
    }

    open spec fn from_spec(v: SongFilter) -> GeneralFilter {
        v.spec_general()
    }
}

impl From<GeneralFilter> for SongFilter {
    fn from(value: GeneralFilter) -> SongFilter {
        SongFilter::from_general(&value)
    }
}

impl vstd::std_specs::convert::FromSpecImpl<GeneralFilter> for SongFilter {
    open spec fn obeys_from_spec() -> bool {
        true
    }

    open spec fn from_spec(v: GeneralFilter) -> SongFilter {
        SongFilter::spec_from_general(v)
    }
}

/// A filter over charts: by song, by level and by difficulty band.
#[derive(Copy, Clone, Debug, Hash, PartialEq, Eq, Structural)]
pub struct ChartFilter {
    pub song_id: Option<u32>,
    pub level: Option<Level>,
    pub display_level: Option<DisplayLevel>,
}

impl ChartFilter {
    pub fn new() -> (r: ChartFilter)
        ensures
            r.song_id is None,
            r.level is None,
            r.display_level is None,
    {
        ChartFilter { song_id: None, level: None, display_level: None }
    }

    pub fn song_id(&self, song_id: Option<u32>) -> (r: ChartFilter)
        ensures
            r.song_id == song_id,
            r.level == self.level,
            r.display_level == self.display_level,
    {
        ChartFilter { song_id, ..*self }
    }

    pub fn level(&self, level: Option<Level>) -> (r: ChartFilter)
        ensures
            r.level == level,
            r.song_id == self.song_id,
            r.display_level == self.display_level,
    {
        ChartFilter { level, ..*self }
    }

    pub fn display_level(&self, display_level: Option<DisplayLevel>) -> (r: ChartFilter)
        ensures
            r.display_level == display_level,
            r.song_id == self.song_id,
            r.level == self.level,
    {
        ChartFilter { display_level, ..*self }
    }
}

impl Filter for ChartFilter {
    open spec fn spec_general(&self) -> GeneralFilter {
        GeneralFilter {
            user_id: None,
            discord_id: None,
            song_id: self.song_id,
            level: self.level,
            display_level: self.display_level,
            genre: None,
        }
    }

    open spec fn spec_from_general(g: GeneralFilter) -> ChartFilter {
        ChartFilter {
            song_id: g.song_id,
            level: g.level,
            display_level: g.display_level,
        }
    }

    open spec fn declares(k: nat) -> bool {
        k == 2 || k == 3 || k == 4
    }

    open spec fn spec_table() -> Seq<char> {
        "charts"@
    }

    open spec fn spec_columns() -> Seq<char> {
        "song_id, level_id, score_slope, score_miyabi, sd_mean, sd_sd"@
    }

    fn to_general(&self) -> (r: GeneralFilter) {
        GeneralFilter {
            user_id: None,
            discord_id: None,
            song_id: self.song_id,
            level: self.level,
            display_level: self.display_level,
            genre: None,
        }
    }

    fn from_general(g: &GeneralFilter) -> (r: ChartFilter) {
        ChartFilter {
            song_id: g.song_id,
            level: g.level,
            display_level: g.display_level,
        }
    }

    fn table_name() -> (r: &'static str) {
        "charts"
    }

    fn columns() -> (r: &'static str) {
        "song_id, level_id, score_slope, score_miyabi, sd_mean, sd_sd"
    }

    proof fn lemma_round_trip(f: ChartFilter) {
    }

    proof fn lemma_keeps_declared(g: GeneralFilter) {
    }
}

impl From<ChartFilter> for GeneralFilter {
    fn from(value: ChartFilter) -> GeneralFilter {
        value.to_general()
    }
}

impl vstd::std_specs::convert::FromSpecImpl<ChartFilter> for GeneralFilter {
    open spec fn obeys_from_spec() -> bool {
        true
    }

    open spec fn from_spec(v: ChartFilter) -> GeneralFilter {
        v.spec_general()
    }
}

impl From<GeneralFilter> for ChartFilter {
    fn from(value: GeneralFilter) -> ChartFilter {
        ChartFilter::from_general(&value)
    }
}

impl vstd::std_specs::convert::FromSpecImpl<GeneralFilter> for ChartFilter {
    open spec fn obeys_from_spec() -> bool {
        true
    }

    open spec fn from_spec(v: GeneralFilter) -> ChartFilter {
        ChartFilter::spec_from_general(v)
    }
}

/// A filter over recorded plays: by player, song, level and band.
#[derive(Copy, Clone, Debug, Hash, PartialEq, Eq, Structural)]
pub struct PlayFilter {
    pub user_id: Option<i64>,
    pub song_id: Option<u32>,
    pub level: Option<Level>,
    pub display_level: Option<DisplayLevel>,
}

impl PlayFilter {
    pub fn new() -> (r: PlayFilter)
        ensures
            r.user_id is None,
            r.song_id is None,
            r.level is None,
            r.display_level is None,
    {
        PlayFilter { user_id: None, song_id: None, level: None, display_level: None }
    }

    pub fn user_id(&self, user_id: Option<i64>) -> (r: PlayFilter)
        ensures
            r.user_id == user_id,
            r.song_id == self.song_id,
            r.level == self.level,
            r.display_level == self.display_level,
    {
        PlayFilter { user_id, ..*self }
    }

    pub fn song_id(&self, song_id: Option<u32>) -> (r: PlayFilter)
        ensures
            r.song_id == song_id,
            r.user_id == self.user_id,
            r.level == self.level,
            r.display_level == self.display_level,
    {
        PlayFilter { song_id, ..*self }
    }

    pub fn level(&self, level: Option<Level>) -> (r: PlayFilter)
        ensures
            r.level == level,
            r.user_id == self.user_id,
            r.song_id == self.song_id,
            r.display_level == self.display_level,
    {
        PlayFilter { level, ..*self }
    }

    pub fn display_level(&self, display_level: Option<DisplayLevel>) -> (r: PlayFilter)
        ensures
            r.display_level == display_level,
            r.user_id == self.user_id,
            r.song_id == self.song_id,
            r.level == self.level,
    {
        PlayFilter { display_level, ..*self }
    }
}

impl Filter for PlayFilter {
    open spec fn spec_general(&self) -> GeneralFilter {
        GeneralFilter {
            user_id: self.user_id,
            discord_id: None,
            song_id: self.song_id,
            level: self.level,
            display_level: self.display_level,
            genre: None,
        }
    }

    open spec fn spec_from_general(g: GeneralFilter) -> PlayFilter {
        PlayFilter {
            user_id: g.user_id,
            song_id: g.song_id,
            level: g.level,
            display_level: g.display_level,
        }
    }

    open spec fn declares(k: nat) -> bool {
        k == 0 || k == 2 || k == 3 || k == 4
    }

    open spec fn spec_table() -> Seq<char> {
        "top_plays"@
    }

    open spec fn spec_columns() -> Seq<char> {
        "user_id, song_id, level_id, score, rank, crown, good_cnt, ok_cnt, bad_cnt, combo_cnt, roll_cnt"@
    }

    fn to_general(&self) -> (r: GeneralFilter) {
        GeneralFilter {
            user_id: self.user_id,
            discord_id: None,
            song_id: self.song_id,
            level: self.level,
            display_level: self.display_level,
            genre: None,
        }
    }

    fn from_general(g: &GeneralFilter) -> (r: PlayFilter) {
        PlayFilter {
            user_id: g.user_id,
            song_id: g.song_id,
            level: g.level,
            display_level: g.display_level,
        }
    }

    fn table_name() -> (r: &'static str) {
        "top_plays"
    }

    fn columns() -> (r: &'static str) {
        "user_id, song_id, level_id, score, rank, crown, good_cnt, ok_cnt, bad_cnt, combo_cnt, roll_cnt"
    }

    proof fn lemma_round_trip(f: PlayFilter) {
    }

    proof fn lemma_keeps_declared(g: GeneralFilter) {
    }
}

impl From<PlayFilter> for GeneralFilter {
    fn from(value: PlayFilter) -> GeneralFilter {
        value.to_general()
    }
}

impl vstd::std_specs::convert::FromSpecImpl<PlayFilter> for GeneralFilter {
    open spec fn obeys_from_spec() -> bool {
        true
    }

    open spec fn from_spec(v: PlayFilter) -> GeneralFilter {
        v.spec_general()
    }
}

impl From<GeneralFilter> for PlayFilter {
    fn from(value: GeneralFilter) -> PlayFilter {
        PlayFilter::from_general(&value)
    }
}

impl vstd::std_specs::convert::FromSpecImpl<GeneralFilter> for PlayFilter {
    open spec fn obeys_from_spec() -> bool {
        true
    }

    open spec fn from_spec(v: GeneralFilter) -> PlayFilter {
        PlayFilter::spec_from_general(v)
    }
}

/// The fields that identify a player, for looking up related entities.
pub open spec fn general_of_user(v: User) -> GeneralFilter {
    GeneralFilter {
            user_id: Some(v.id),
            discord_id: Some(v.discord),
            song_id: None,
            level: None,
            display_level: None,
            genre: None,
        }
}

impl From<User> for GeneralFilter {
    fn from(v: User) -> GeneralFilter {
        GeneralFilter {
            user_id: Some(v.id),
            discord_id: Some(v.discord),
            song_id: None,
            level: None,
            display_level: None,
            genre: None,
        }
    }
}

impl vstd::std_specs::convert::FromSpecImpl<User> for GeneralFilter {
    open spec fn obeys_from_spec() -> bool {
        true
    }

    open spec fn from_spec(v: User) -> GeneralFilter {
        general_of_user(v)
    }
}

/// The fields that identify a song, for looking up related entities.
pub open spec fn general_of_song(v: Song) -> GeneralFilter {
    GeneralFilter {
            user_id: None,
            discord_id: None,
            song_id: Some(v.id),
            level: None,
            display_level: None,
            genre: Genre::spec_from_id(v.genre),
        }
}

impl From<Song> for GeneralFilter {
    fn from(v: Song) -> GeneralFilter {
        let genre = match Genre::from_id(v.genre) {
            Ok(x) => Some(x),
            Err(_) => None,
        };
        GeneralFilter {
            user_id: None,
            discord_id: None,
            song_id: Some(v.id),
            level: None,
            display_level: None,
            genre,
        }
    }
}

impl vstd::std_specs::convert::FromSpecImpl<Song> for GeneralFilter {
    open spec fn obeys_from_spec() -> bool {
        true
    }

    open spec fn from_spec(v: Song) -> GeneralFilter {
        general_of_song(v)
    }
}

/// The fields that identify a chart, for looking up related entities.
pub open spec fn general_of_chart(v: Chart) -> GeneralFilter {
    GeneralFilter {
            user_id: None,
            discord_id: None,
            song_id: Some(v.id),
            level: Level::spec_from_id(v.level),
            display_level: None,
            genre: None,
        }
}

impl From<Chart> for GeneralFilter {
    fn from(v: Chart) -> GeneralFilter {
        let level = match Level::from_id(v.level) {
            Ok(x) => Some(x),
            Err(_) => None,
        };
        GeneralFilter {
            user_id: None,
            discord_id: None,
            song_id: Some(v.id),
            level,
            display_level: None,
            genre: None,
        }
    }
}

impl vstd::std_specs::convert::FromSpecImpl<Chart> for GeneralFilter {
    open spec fn obeys_from_spec() -> bool {
        true
    }

    open spec fn from_spec(v: Chart) -> GeneralFilter {
        general_of_chart(v)
    }
}

/// The fields that identify a play, for looking up related entities.
pub open spec fn general_of_play(v: Play) -> GeneralFilter {
    GeneralFilter {
            user_id: Some(v.user),
            discord_id: None,
            song_id: Some(v.song),
            level: Level::spec_from_id(v.level),
            display_level: None,
            genre: None,
        }
}

impl From<Play> for GeneralFilter {
    fn from(v: Play) -> GeneralFilter {
        let level = match Level::from_id(v.level) {
            Ok(x) => Some(x),
            Err(_) => None,
        };
        GeneralFilter {
            user_id: Some(v.user),
            discord_id: None,
            song_id: Some(v.song),
            level,
            display_level: None,
            genre: None,
        }
    }
}

impl vstd::std_specs::convert::FromSpecImpl<Play> for GeneralFilter {
    open spec fn obeys_from_spec() -> bool {
        true
    }

    open spec fn from_spec(v: Play) -> GeneralFilter {
        general_of_play(v)
    }
}

} // verus!
