use vstd::prelude::*;
use crate::error::ElodonError;

verus! {

pub open spec fn is_digit(c: char) -> bool {
    '0' <= c && c <= '9'
}

pub open spec fn digit_value(c: char) -> nat {
    ((c as u32) - ('0' as u32)) as nat
}

/// The number that a string of decimal digits denotes.
pub open spec fn digits_value(s: Seq<char>) -> nat
    decreases s.len(),
{
    if s.len() == 0 {
        0
    } else {
        digits_value(s.drop_last()) * 10 + digit_value(s.last())
    }
}

pub open spec fn all_digits(d: Seq<char>) -> bool {
    forall|i: int| 0 <= i < d.len() ==> is_digit(#[trigger] d[i])
}

/// A `u32` in decimal, as the standard library reads one: an optional `+`,
/// then one or more ASCII digits, the value within range.
pub open spec fn parse_u32(s: Seq<char>) -> Option<u32> {
    let d = if s.len() > 0 && s[0] == '+' {
        s.drop_first()
    } else {
        s
    };
    if d.len() > 0 && all_digits(d) && digits_value(d) <= u32::MAX {
        Some(digits_value(d) as u32)
    } else {
        None
    }
}

/// Position of the first `:`, or the length when there is none.
pub open spec fn first_colon(s: Seq<char>) -> nat
    decreases s.len(),
{
    if s.len() == 0 {
        0
    } else if s[0] == ':' {
        0
    } else {
        1 + first_colon(s.drop_first())
    }
}

/// The id of a song choice such as `"42: Pop > Name"`: the text before the
/// first `:`, read as a `u32`.
pub open spec fn spec_song_id(s: Seq<char>) -> Option<u32> {
    parse_u32(s.take(first_colon(s) as int))
}

proof fn lemma_first_colon(s: Seq<char>, j: int)
    requires
        0 <= j <= s.len(),
        forall|i: int| 0 <= i < j ==> s[i] != ':',
        j == s.len() || s[j] == ':',
    ensures
        first_colon(s) == j,
    decreases j,
{
    if j > 0 {
        let t = s.drop_first();
        assert forall|i: int| 0 <= i < j - 1 implies t[i] != ':' by {
            assert(t[i] == s[i + 1]);
        }
        if j < s.len() {
            assert(t[j - 1] == s[j]);
        }
        lemma_first_colon(t, j - 1);
    }
}

proof fn lemma_digits_value_grows(s: Seq<char>, m: int, n: int)
    requires
        0 <= m <= n <= s.len(),
    ensures
        digits_value(s.take(m)) <= digits_value(s.take(n)),
    decreases n - m,
{
    if m < n {
        lemma_digits_value_grows(s, m, n - 1);
        assert(s.take(n).drop_last() =~= s.take(n - 1));
    }
}

/// Reads the song id at the start of a song choice (see `spec_song_id`); the
/// whole text comes back in a `ParseError` when it holds none.
pub fn extract_song_id(song: String) -> (r: Result<u32, ElodonError>)
    ensures
        spec_song_id(song@) matches Some(v) ==> r == Ok::<u32, ElodonError>(v),
        spec_song_id(song@) is None ==> r == Err::<u32, ElodonError>(ElodonError::ParseError(song)),
{
    let text = song.as_str();
    let n = text.unicode_len();
    let mut end: usize = 0;
    while end < n && text.get_char(end) != ':'
        invariant
            n == song@.len(),
            text@ == song@,
            end <= n,
            forall|i: int| 0 <= i < end ==> song@[i] != ':',
        decreases n - end,
    {
        end = end + 1;
    }
    proof {
        lemma_first_colon(song@, end as int);
    }
    let ghost piece = song@.take(end as int);
    let start: usize = if end > 0 && text.get_char(0) == '+' {
        1
    } else {
        0
    };
    let ghost d = if piece.len() > 0 && piece[0] == '+' {
        piece.drop_first()
    } else {
        piece
    };
    assert(d =~= song@.subrange(start as int, end as int));
    assert(spec_song_id(song@) == parse_u32(piece));
    if start == end {
        return Err(ElodonError::ParseError(song));
    }
    let mut value: u64 = 0;
    let mut i: usize = start;
    while i < end
        invariant
            text@ == song@,
            n == song@.len(),
            start <= i <= end <= n,
            d == song@.subrange(start as int, end as int),
            piece == song@.take(end as int),
            d == (if piece.len() > 0 && piece[0] == '+' {
                piece.drop_first()
            } else {
                piece
            }),
            spec_song_id(song@) == parse_u32(piece),
            forall|j: int| 0 <= j < i - start ==> is_digit(#[trigger] d[j]),
            value == digits_value(d.take(i - start)),
            value <= u32::MAX,
        decreases end - i,
    {
        let c = text.get_char(i);
        if !('0' <= c && c <= '9') {
            assert(d[i - start] == c);
            assert(!is_digit(d[i - start]));
            return Err(ElodonError::ParseError(song));
        }
        let next: u64 = value * 10 + (c as u32 - '0' as u32) as u64;
        proof {
            assert(d.take(i - start + 1).drop_last() =~= d.take(i - start));
            assert(d.take(i - start + 1).last() == c);
        }
        if next > u32::MAX as u64 {
            proof {
                lemma_digits_value_grows(d, i - start + 1, d.len() as int);
                assert(d.take(d.len() as int) =~= d);
                assert(digits_value(d.take(i - start + 1)) == next);
                assert(digits_value(d) > u32::MAX);
                assert(parse_u32(piece) is None);
            }
            return Err(ElodonError::ParseError(song));
        }
        value = next;
        i = i + 1;
    }
    assert(d.take(i - start) =~= d);
    Ok(value as u32)
}

} // verus!
