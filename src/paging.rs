use vstd::prelude::*;
use crate::text::{join, join_text, views};

verus! {

/// The lines of a text, split at each `\n`: `k` newlines make `k + 1` lines.
pub open spec fn split_lines(s: Seq<char>) -> Seq<Seq<char>>
    decreases s.len(),
{
    if s.len() == 0 {
        seq![Seq::empty()]
    } else if s.last() == '\n' {
        split_lines(s.drop_last()).push(Seq::empty())
    } else {
        let l = split_lines(s.drop_last());
        l.drop_last().push(l.last().push(s.last()))
    }
}

/// Pages of at most `n` lines each, joined by `\n`; pages left empty are
/// dropped.
pub open spec fn paged(lines: Seq<Seq<char>>, n: nat) -> Seq<Seq<char>>
    decreases lines.len(),
{
    if lines.len() == 0 || n == 0 {
        Seq::empty()
    } else {
        let k = if n < lines.len() {
            n as int
        } else {
            lines.len() as int
        };
        let page = join(lines.take(k), "\n"@);
        if page.len() == 0 {
            paged(lines.skip(k), n)
        } else {
            seq![page] + paged(lines.skip(k), n)
        }
    }
}

proof fn lemma_split_lines_nonempty(s: Seq<char>)
    ensures
        split_lines(s).len() >= 1,
    decreases s.len(),
{
    if s.len() > 0 {
        lemma_split_lines_nonempty(s.drop_last());
    }
}

/// The lines of `text` (see `split_lines`).
pub fn lines_of(text: &str) -> (r: Vec<String>)
    ensures
        views(r@) == split_lines(text@),
{
    let n = text.unicode_len();
    let mut lines: Vec<String> = Vec::new();
    let mut start: usize = 0;
    let mut i: usize = 0;
    assert(text@.take(0) =~= Seq::<char>::empty());
    assert(views(lines@).push(text@.subrange(0, 0)) =~= seq![Seq::<char>::empty()]);
    while i < n
        invariant
            n == text@.len(),
            start <= i <= n,
            split_lines(text@.take(i as int)) == views(lines@).push(text@.subrange(start as int, i as int)),
        decreases n - i,
    {
        let c = text.get_char(i);
        proof {
            assert(text@.take(i + 1).drop_last() =~= text@.take(i as int));
            assert(text@.take(i + 1).last() == c);
            lemma_split_lines_nonempty(text@.take(i as int));
        }
        if c == '\n' {
            let line = String::from_str(text.substring_char(start, i));
            let ghost before = lines@;
            lines.push(line);
            proof {
                assert(views(lines@) =~= views(before).push(text@.subrange(start as int, i as int)));
                assert(text@.subrange((i + 1) as int, (i + 1) as int) =~= Seq::<char>::empty());
            }
            start = i + 1;
        } else {
            proof {
                let l = split_lines(text@.take(i as int));
                assert(l.drop_last() =~= views(lines@));
                assert(text@.subrange(start as int, i + 1) =~= text@.subrange(start as int, i as int).push(c));
                assert(l.drop_last().push(l.last().push(c)) =~= views(lines@).push(
                    text@.subrange(start as int, i + 1),
                ));
            }
        }
        i = i + 1;
    }
    assert(text@.take(n as int) =~= text@);
    let last = String::from_str(text.substring_char(start, n));
    let ghost before = lines@;
    lines.push(last);
    assert(views(lines@) =~= views(before).push(text@.subrange(start as int, n as int)));
    lines
}

/// Splits a long reply into pages of at most `lines_per_page` lines; pages
/// that would be empty are left out.
pub fn split_pages(text: &str, lines_per_page: usize) -> (r: Vec<String>)
    requires
        lines_per_page > 0,
    ensures
        views(r@) == paged(split_lines(text@), lines_per_page as nat),
{
    let lines = lines_of(text);
    let ghost all = views(lines@);
    let mut pages: Vec<String> = Vec::new();
    let mut pos: usize = 0;
    assert(all.skip(0) =~= all);
    assert(views(pages@) + paged(all, lines_per_page as nat) =~= paged(all, lines_per_page as nat));
    while pos < lines.len()
        invariant
            pos <= lines@.len(),
            all == views(lines@),
            lines_per_page > 0,
            paged(all, lines_per_page as nat) == views(pages@) + paged(all.skip(pos as int), lines_per_page as nat),
        decreases lines.len() - pos,
    {
        let end: usize = if lines.len() - pos > lines_per_page {
            pos + lines_per_page
        } else {
            lines.len()
        };
        let mut chunk: Vec<String> = Vec::new();
        let mut q: usize = pos;
        while q < end
            invariant
                pos <= q <= end <= lines@.len(),
                all == views(lines@),
                views(chunk@) == all.subrange(pos as int, q as int),
            decreases end - q,
        {
            let ghost before = chunk@;
            let line = lines[q].clone();
            chunk.push(line);
            assert(views(chunk@) =~= views(before).push(line@));
            assert(views(chunk@) =~= all.subrange(pos as int, q + 1));
            q = q + 1;
        }
        let page = join_text(&chunk, "\n");
        proof {
            let rest = all.skip(pos as int);
            let k = (end - pos) as int;
            assert(rest.take(k) =~= all.subrange(pos as int, end as int));
            assert(rest.skip(k) =~= all.skip(end as int));
        }
        if page.as_str().unicode_len() > 0 {
            let ghost before = pages@;
            pages.push(page);
            proof {
                assert(views(pages@) =~= views(before).push(page@));
                assert(views(pages@) + paged(all.skip(end as int), lines_per_page as nat) =~= views(before)
                    + (seq![page@] + paged(all.skip(end as int), lines_per_page as nat)));
            }
        }
        pos = end;
    }
    assert(all.skip(pos as int) =~= Seq::<Seq<char>>::empty());
    assert(views(pages@) + Seq::<Seq<char>>::empty() =~= views(pages@));
    pages
}

/// A navigation button under a paged reply.
#[derive(Copy, Clone, Debug, PartialEq, Eq, Structural)]
pub enum PageButton {
    Previous,
    Next,
    Other,
}

/// The page shown after a button press: only the author turns pages; `Next`
/// wraps from the last page to the first, `Previous` from the first to the last.
pub open spec fn spec_turn_page(current: nat, page_count: nat, button: PageButton, by_author: bool) -> nat {
    if !by_author {
        current
    } else {
        match button {
            PageButton::Next => ((current + 1) as int % (page_count as int)) as nat,
            PageButton::Previous => if current == 0 {
                (page_count - 1) as nat
            } else {
                (current - 1) as nat
            },
            PageButton::Other => current,
        }
    }
}

pub fn turn_page(current: usize, page_count: usize, button: PageButton, by_author: bool) -> (r: usize)
    requires
        current < page_count,
    ensures
        r == spec_turn_page(current as nat, page_count as nat, button, by_author),
        r < page_count,
{
    if !by_author {
        return current;
    }
    match button {
        PageButton::Next => (current + 1) % page_count,
        PageButton::Previous => if current == 0 {
            page_count - 1
        } else {
            current - 1
        },
        PageButton::Other => current,
    }
}

} // verus!
