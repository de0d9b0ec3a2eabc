use vstd::prelude::*;
use crate::entities::{song_display_name, Chart, Genre, Play, Song, User};
use crate::rating::trunc_div;
use crate::text::{decimal, join, join_text, signed_decimal, signed_text, unsigned_text, views};

verus! {

pub open spec fn spaces(n: nat) -> Seq<char> {
    Seq::new(n, |i: int| ' ')
}

/// `s` followed by spaces up to `w` characters (never cut).
pub open spec fn pad_right(s: Seq<char>, w: nat) -> Seq<char> {
    if s.len() >= w {
        s
    } else {
        s + spaces((w - s.len()) as nat)
    }
}

/// `s` preceded by spaces up to `w` characters (never cut).
pub open spec fn pad_left(s: Seq<char>, w: nat) -> Seq<char> {
    if s.len() >= w {
        s
    } else {
        spaces((w - s.len()) as nat) + s
    }
}

/// A value in thousandths, to the nearest whole point (halves away from zero).
pub open spec fn nearest_point(m: int) -> int {
    if m >= 0 {
        trunc_div(m + 500, 1000)
    } else {
        trunc_div(m - 500, 1000)
    }
}

fn space_run(n: usize) -> (r: String)
    ensures
        r@ == spaces(n as nat),
{
    let mut r = String::new();
    let mut i: usize = 0;
    while i < n
        invariant
            i <= n,
            r@ == spaces(i as nat),
        decreases n - i,
    {
        proof {
            reveal_strlit(" ");
        }
        r.append(" ");
        assert(r@ =~= spaces((i + 1) as nat));
        i = i + 1;
    }
    r
}

fn padded_right(s: String, w: usize) -> (r: String)
    ensures
        r@ == pad_right(s@, w as nat),
{
    let n = s.as_str().unicode_len();
    if n >= w {
        s
    } else {
        s.concat(space_run(w - n).as_str())
    }
}

fn padded_left(s: String, w: usize) -> (r: String)
    ensures
        r@ == pad_left(s@, w as nat),
{
    let n = s.as_str().unicode_len();
    if n >= w {
        s
    } else {
        space_run(w - n).concat(s.as_str())
    }
}

fn nearest_point_text(m: i64) -> (r: String)
    ensures
        r@ == signed_decimal(nearest_point(m as int)),
{
    let x = m as i128;
    let shifted: i128 = if x >= 0 {
        x + 500
    } else {
        x - 500
    };
    let p: i128 = if shifted >= 0 {
        shifted / 1000
    } else {
        -((-shifted) / 1000)
    };
    signed_text(p as i64)
}

/// Emoji id of each crown tier.
pub open spec fn spec_crown_id(i: u32) -> u64 {
    if i == 0 {
        1213187539750486046
    } else if i == 1 {
        1213187542263009351
    } else if i == 2 {
        1213187545383575593
    } else {
        1213187548902457434
    }
}

/// Emoji id of each rank tier.
pub open spec fn spec_rank_id(i: u32) -> u64 {
    if i <= 1 {
        1213187552673144903
    } else if i == 2 {
        1213187554837536788
    } else if i == 3 {
        1213187556884353075
    } else if i == 4 {
        1213187558922784768
    } else if i == 5 {
        1213187560894111835
    } else if i == 6 {
        1213187562559111248
    } else if i == 7 {
        1213187564442226688
    } else {
        1213187566220742656
    }
}

fn crown_id(i: u32) -> (r: u64)
    requires
        i < 4,
    ensures
        r == spec_crown_id(i),
{
    if i == 0 {
        1213187539750486046
    } else if i == 1 {
        1213187542263009351
    } else if i == 2 {
        1213187545383575593
    } else {
        1213187548902457434
    }
}

fn rank_id(i: u32) -> (r: u64)
    requires
        i < 9,
    ensures
        r == spec_rank_id(i),
{
    if i <= 1 {
        1213187552673144903
    } else if i == 2 {
        1213187554837536788
    } else if i == 3 {
        1213187556884353075
    } else if i == 4 {
        1213187558922784768
    } else if i == 5 {
        1213187560894111835
    } else if i == 6 {
        1213187562559111248
    } else if i == 7 {
        1213187564442226688
    } else {
        1213187566220742656
    }
}

/// A record shown to users as one block of text.
pub trait ElodonDisplay {
    /// Whether every id the text shows names something known.
    spec fn displayable(&self) -> bool;

    spec fn spec_display_text(&self) -> Seq<char>;

    fn get_display_text(&self) -> (r: String)
        requires
            self.displayable(),
        ensures
            r@ == self.spec_display_text(),
    ;
}

/// A list of records shown to users.
pub trait ElodonDisplayList<E: ElodonDisplay> {
    spec fn all_displayable(&self) -> bool;

    spec fn spec_list_text(&self) -> Seq<char>;

    fn get_display_text(&self) -> (r: String)
        requires
            self.all_displayable(),
        ensures
            r@ == self.spec_list_text(),
    ;
}

/// The texts of the records, in order.
pub open spec fn display_texts<E: ElodonDisplay>(items: Seq<E>) -> Seq<Seq<char>> {
    items.map_values(|e: E| e.spec_display_text())
}

impl<E: ElodonDisplay> ElodonDisplayList<E> for Vec<E> {
    open spec fn all_displayable(&self) -> bool {
        forall|i: int| 0 <= i < self@.len() ==> (#[trigger] self@[i]).displayable()
    }

    /// `No results` for an empty list, else one record per line.
    open spec fn spec_list_text(&self) -> Seq<char> {
        if self@.len() == 0 {
            "No results"@
        } else {
            join(display_texts(self@), "\n"@)
        }
    }

    fn get_display_text(&self) -> (r: String) {
        if self.len() == 0 {
            return String::from_str("No results");
        }
        let mut lines: Vec<String> = Vec::new();
        let mut i: usize = 0;
        while i < self.len()
            invariant
                i <= self@.len(),
                forall|k: int| 0 <= k < self@.len() ==> (#[trigger] self@[k]).displayable(),
                views(lines@) == display_texts(self@.take(i as int)),
            decreases self.len() - i,
        {
            let line = self[i].get_display_text();
            let ghost before = lines@;
            lines.push(line);
            proof {
                assert(views(lines@) =~= views(before).push(line@));
                assert(self@.take(i + 1) =~= self@.take(i as int).push(self@[i as int]));
                assert(display_texts(self@.take(i + 1)) =~= display_texts(self@.take(i as int)).push(
                    self@[i as int].spec_display_text(),
                ));
            }
            i = i + 1;
        }
        assert(self@.take(i as int) =~= self@);
        join_text(&lines, "\n")
    }
}

impl ElodonDisplay for User {
    open spec fn displayable(&self) -> bool {
        true
    }

    /// `` `#<id, 13 wide>  <name, 9 wide>`<@<discord id>> ``
    open spec fn spec_display_text(&self) -> Seq<char> {
        "`#"@ + pad_right(signed_decimal(self.id as int), 13) + "  "@ + pad_right(self.name@, 9) + "`<@"@
            + decimal(self.discord as nat) + ">"@
    }

    fn get_display_text(&self) -> (r: String) {
        String::from_str("`#").concat(padded_right(signed_text(self.id), 13).as_str()).concat("  ").concat(
            padded_right(self.name.clone(), 9).as_str(),
        ).concat("`<@").concat(unsigned_text(self.discord).as_str()).concat(">")
    }
}

impl ElodonDisplay for Song {
    open spec fn displayable(&self) -> bool {
        self.wf()
    }

    /// `` `#<id, 4 wide>  <genre> > <name>` ``
    open spec fn spec_display_text(&self) -> Seq<char> {
        "`#"@ + pad_right(decimal(self.id as nat), 4) + "  "@ + Genre::spec_from_id(self.genre)->0.spec_name()
            + " > "@ + song_display_name(self.name_jap@, self.name_eng@) + "`"@
    }

    fn get_display_text(&self) -> (r: String) {
        String::from_str("`#").concat(padded_right(unsigned_text(self.id as u64), 4).as_str()).concat(
            "  ",
        ).concat(self.genre().name()).concat(" > ").concat(self.get_name().as_str()).concat("`")
    }
}

/// An optional whole number right-aligned to `w`, or `missing` when absent.
pub open spec fn optional_number(v: Option<int>, w: nat, missing: Seq<char>) -> Seq<char> {
    match v {
        Some(x) => pad_left(signed_decimal(x), w),
        None => missing,
    }
}

impl ElodonDisplay for Chart {
    open spec fn displayable(&self) -> bool {
        true
    }

    /// The chart key, then its slope and reference, then its two spreads to
    /// the nearest point; `??` for what is not measured.
    open spec fn spec_display_text(&self) -> Seq<char> {
        "#"@ + pad_right(decimal(self.id as nat), 4) + "."@ + decimal(self.level as nat) + ":\n`Score/ELO="@
            + optional_number(
            match self.score_slope {
                Some(x) => Some(x as int),
                None => None,
            },
            4,
            " ?? "@,
        ) + " Miyabi ELO="@ + optional_number(
            match self.score_miyabi {
                Some(x) => Some(x as int),
                None => None,
            },
            4,
            " ?? "@,
        ) + "\nsd= "@ + optional_number(
            match self.sd_mean {
                Some(x) => Some(nearest_point(x as int)),
                None => None,
            },
            7,
            "  ???  "@,
        ) + " ("@ + optional_number(
            match self.sd_sd {
                Some(x) => Some(nearest_point(x as int)),
                None => None,
            },
            4,
            " ?? "@,
        ) + ")`"@
    }

    fn get_display_text(&self) -> (r: String) {
        let slope = match self.score_slope {
            Some(x) => padded_left(signed_text(x as i64), 4),
            None => String::from_str(" ?? "),
        };
        let miyabi = match self.score_miyabi {
            Some(x) => padded_left(signed_text(x as i64), 4),
            None => String::from_str(" ?? "),
        };
        let mean = match self.sd_mean {
            Some(x) => padded_left(nearest_point_text(x), 7),
            None => String::from_str("  ???  "),
        };
        let spread = match self.sd_sd {
            Some(x) => padded_left(nearest_point_text(x), 4),
            None => String::from_str(" ?? "),
        };
        String::from_str("#").concat(padded_right(unsigned_text(self.id as u64), 4).as_str()).concat(
            ".",
        ).concat(unsigned_text(self.level as u64).as_str()).concat(":\n`Score/ELO=").concat(
            slope.as_str(),
        ).concat(" Miyabi ELO=").concat(miyabi.as_str()).concat("\nsd= ").concat(mean.as_str()).concat(
            " (",
        ).concat(spread.as_str()).concat(")`")
    }
}

/// The emoji of a play's crown tier.
pub open spec fn crown_emoji(crown: u32) -> Seq<char> {
    "<:crown_"@ + decimal(crown as nat) + ":"@ + decimal(spec_crown_id(crown) as nat) + ">"@
}

/// The emoji of a play's rank tier; none below tier 2.
pub open spec fn rank_emoji(rank: u32) -> Seq<char> {
    if rank < 2 {
        Seq::empty()
    } else {
        "<:rank_"@ + decimal(rank as nat) + ":"@ + decimal(spec_rank_id(rank) as nat) + ">"@
    }
}

impl ElodonDisplay for Play {
    /// Crown tiers run from 0 to 3, rank tiers from 0 to 8.
    open spec fn displayable(&self) -> bool {
        self.crown < 4 && self.rank < 9
    }

    /// The chart, score, player and badges, then the judgement counters.
    open spec fn spec_display_text(&self) -> Seq<char> {
        pad_left(decimal(self.song as nat), 4) + "."@ + decimal(self.level as nat) + " "@ + pad_right(
            decimal(self.score as nat),
            13,
        ) + " "@ + pad_left(signed_decimal(self.user as int), 7) + " "@ + crown_emoji(self.crown) + " "@
            + rank_emoji(self.rank) + "\n` "@ + pad_left(decimal(self.good_cnt as nat), 4) + " | "@
            + pad_left(decimal(self.ok_cnt as nat), 3) + " | "@ + pad_right(decimal(self.bad_cnt as nat), 3)
            + " c"@ + pad_right(decimal(self.combo_cnt as nat), 4) + " r"@ + pad_right(
            decimal(self.roll_cnt as nat),
            4,
        ) + "`"@
    }

    fn get_display_text(&self) -> (r: String) {
        let crown = String::from_str("<:crown_").concat(unsigned_text(self.crown as u64).as_str()).concat(
            ":",
        ).concat(unsigned_text(crown_id(self.crown)).as_str()).concat(">");
        let rank = if self.rank < 2 {
            String::new()
        } else {
            String::from_str("<:rank_").concat(unsigned_text(self.rank as u64).as_str()).concat(":").concat(
                unsigned_text(rank_id(self.rank)).as_str(),
            ).concat(">")
        };
        padded_left(unsigned_text(self.song as u64), 4).concat(".").concat(
            unsigned_text(self.level as u64).as_str(),
        ).concat(" ").concat(padded_right(unsigned_text(self.score as u64), 13).as_str()).concat(" ").concat(
            padded_left(signed_text(self.user), 7).as_str(),
        ).concat(" ").concat(crown.as_str()).concat(" ").concat(rank.as_str()).concat("\n` ").concat(
            padded_left(unsigned_text(self.good_cnt as u64), 4).as_str(),
        ).concat(" | ").concat(padded_left(unsigned_text(self.ok_cnt as u64), 3).as_str()).concat(
            " | ",
        ).concat(padded_right(unsigned_text(self.bad_cnt as u64), 3).as_str()).concat(" c").concat(
            padded_right(unsigned_text(self.combo_cnt as u64), 4).as_str(),
        ).concat(" r").concat(padded_right(unsigned_text(self.roll_cnt as u64), 4).as_str()).concat("`")
    }
}

} // verus!
