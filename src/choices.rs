use vstd::prelude::*;
use crate::entities::{song_display_name, Genre, Song};
use crate::text::{decimal, unsigned_text, views};

verus! {

/// A character with ASCII upper case folded to lower case, as a code point.
pub open spec fn folded(c: char) -> int {
    if 'A' <= c && c <= 'Z' {
        (c as u32) + 32
    } else {
        c as u32 as int
    }
}

/// `needle` occurs in `hay` at position `i`, ignoring ASCII case.
pub open spec fn occurs_at(hay: Seq<char>, needle: Seq<char>, i: int) -> bool {
    0 <= i && i + needle.len() <= hay.len() && forall|j: int|
        0 <= j < needle.len() ==> folded(#[trigger] hay[i + j]) == folded(needle[j])
}

/// `needle` occurs somewhere in `hay`, ignoring ASCII case.
pub open spec fn contains_folded(hay: Seq<char>, needle: Seq<char>) -> bool {
    exists|i: int| occurs_at(hay, needle, i)
}

/// The names that contain `partial`, ignoring ASCII case, in order.
pub open spec fn matching_names(names: Seq<Seq<char>>, partial: Seq<char>) -> Seq<Seq<char>>
    decreases names.len(),
{
    if names.len() == 0 {
        Seq::empty()
    } else if contains_folded(names.last(), partial) {
        matching_names(names.drop_last(), partial).push(names.last())
    } else {
        matching_names(names.drop_last(), partial)
    }
}

/// How a song is offered as a choice: `"<id>: <genre> > <name>"`.
pub open spec fn choice_text(song: Song) -> Seq<char> {
    decimal(song.id as nat) + ": "@ + Genre::spec_from_id(song.genre)->0.spec_name() + " > "@
        + song_display_name(song.name_jap@, song.name_eng@)
}

fn fold_char(c: char) -> (r: u32)
    ensures
        r as int == folded(c),
{
    if 'A' <= c && c <= 'Z' {
        (c as u32) + 32
    } else {
        c as u32
    }
}

fn occurs_here(hay: &str, needle: &str, i: usize) -> (r: bool)
    requires
        i + needle@.len() <= hay@.len(),
    ensures
        r == occurs_at(hay@, needle@, i as int),
{
    let n = hay.unicode_len();
    let m = needle.unicode_len();
    let mut j: usize = 0;
    while j < m
        invariant
            n == hay@.len(),
            m == needle@.len(),
            i + m <= hay@.len(),
            j <= m,
            forall|k: int| 0 <= k < j ==> folded(#[trigger] hay@[i + k]) == folded(needle@[k]),
        decreases m - j,
    {
        if fold_char(hay.get_char(i + j)) != fold_char(needle.get_char(j)) {
            return false;
        }
        j = j + 1;
    }
    true
}

/// Whether `needle` occurs in `hay`, ignoring ASCII case.
pub fn contains_ignoring_case(hay: &str, needle: &str) -> (r: bool)
    ensures
        r == contains_folded(hay@, needle@),
{
    let n = hay.unicode_len();
    let m = needle.unicode_len();
    if m > n {
        assert forall|i: int| !occurs_at(hay@, needle@, i) by {}
        return false;
    }
    let mut i: usize = 0;
    while i <= n - m
        invariant
            n == hay@.len(),
            m == needle@.len(),
            m <= n,
            i <= n - m + 1,
            forall|k: int| 0 <= k < i ==> !occurs_at(hay@, needle@, k),
        decreases n - m + 1 - i,
    {
        if occurs_here(hay, needle, i) {
            return true;
        }
        i = i + 1;
    }
    assert forall|k: int| !occurs_at(hay@, needle@, k) by {
        if 0 <= k < i {
        }
    }
    false
}

/// What every command can see: the song choices offered while typing.
pub struct Data {
    pub songs_autocomplete: Vec<String>,
}

impl Data {
    /// One choice per song, in order (see `choice_text`).
    pub fn from_songs(songs: &Vec<Song>) -> (r: Data)
        requires
            forall|i: int| 0 <= i < songs@.len() ==> (#[trigger] songs@[i]).wf(),
        ensures
            r.songs_autocomplete@.len() == songs@.len(),
            forall|i: int|
                0 <= i < songs@.len() ==> #[trigger] r.songs_autocomplete@[i]@ == choice_text(songs@[i]),
    {
        let mut names: Vec<String> = Vec::new();
        let mut i: usize = 0;
        while i < songs.len()
            invariant
                i <= songs@.len(),
                names@.len() == i,
                forall|k: int| 0 <= k < songs@.len() ==> (#[trigger] songs@[k]).wf(),
                forall|k: int| 0 <= k < i ==> #[trigger] names@[k]@ == choice_text(songs@[k]),
            decreases songs.len() - i,
        {
            let song = &songs[i];
            let genre = song.genre();
            let name = unsigned_text(song.id as u64).concat(": ").concat(genre.name()).concat(" > ").concat(
                song.get_name().as_str(),
            );
            names.push(name);
            i = i + 1;
        }
        Data { songs_autocomplete: names }
    }

    /// The choices that contain `partial`, ignoring ASCII case, in order.
    pub fn autocomplete_song(&self, partial: &str) -> (r: Vec<String>)
        ensures
            views(r@) == matching_names(views(self.songs_autocomplete@), partial@),
    {
        let mut out: Vec<String> = Vec::new();
        let mut i: usize = 0;
        while i < self.songs_autocomplete.len()
            invariant
                i <= self.songs_autocomplete@.len(),
                views(out@) == matching_names(views(self.songs_autocomplete@.take(i as int)), partial@),
            decreases self.songs_autocomplete.len() - i,
        {
            let name = &self.songs_autocomplete[i];
            proof {
                let before = views(self.songs_autocomplete@.take(i as int));
                let after = views(self.songs_autocomplete@.take(i + 1));
                assert(after.drop_last() =~= before);
                assert(after.last() == name@);
            }
            if contains_ignoring_case(name.as_str(), partial) {
                out.push(name.clone());
                proof {
                    assert(views(out@) =~= views(out@.drop_last()).push(name@));
                }
            }
            i = i + 1;
        }
        assert(self.songs_autocomplete@.take(i as int) =~= self.songs_autocomplete@);
        out
    }
}

} // verus!
