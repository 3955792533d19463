use vstd::prelude::*;

use crate::lint::Severity;
use crate::text::{chars_of, lower, lower_chars, occurs_at, occurs_at_chars};

verus! {

/// Sort rank of a severity: errors come before warnings.
pub fn severity_rank(severity: &Severity) -> (rank: usize)
    ensures
        rank == severity.rank(),
{
    match severity {
        Severity::Error => 0,
        Severity::Warning => 1,
    }
}

/// The pieces of `t[last..]` that a search for `q` (non-empty) from `pos`
/// on yields: the text before each match, then the match itself (marked),
/// matches taken left to right without overlap, and the tail after the last.
pub open spec fn pieces_from(t: Seq<char>, q: Seq<char>, last: int, pos: int) -> Seq<(int, int, bool)>
    decreases t.len() - pos,
{
    if q.len() == 0 || pos < 0 || pos + q.len() > t.len() {
        if last < t.len() {
            seq![(last, t.len() as int, false)]
        } else {
            Seq::empty()
        }
    } else if occurs_at(t, q, pos) {
        let before: Seq<(int, int, bool)> = if pos > last {
            seq![(last, pos, false)]
        } else {
            Seq::empty()
        };
        before + seq![(pos, pos + q.len(), true)] + pieces_from(t, q, pos + q.len(), pos + q.len())
    } else {
        pieces_from(t, q, last, pos + 1)
    }
}

/// How a text is shown with a search query marked: with an empty query the
/// whole text is one plain piece; otherwise the matches of the query, ASCII
/// case ignored, are marked and the text between them is plain. A text with
/// no pieces (the empty text) is shown as one plain piece.
pub open spec fn highlight_spec(text: Seq<char>, query: Seq<char>) -> Seq<(int, int, bool)> {
    if query.len() == 0 {
        seq![(0, text.len() as int, false)]
    } else {
        let p = pieces_from(lower(text), lower(query), 0, 0);
        if p.len() == 0 {
            seq![(0, text.len() as int, false)]
        } else {
            p
        }
    }
}

/// Splits `text` into character ranges `(start, end, marked)` for display
/// with the matches of `query` marked.
pub fn highlight_ranges(text: &str, query: &str) -> (r: Vec<(usize, usize, bool)>)
    ensures
        r@.map_values(|x: (usize, usize, bool)| (x.0 as int, x.1 as int, x.2)) == highlight_spec(text@, query@),
{
    let t0 = chars_of(text);
    let q0 = chars_of(query);
    let mut out: Vec<(usize, usize, bool)> = Vec::new();
    if q0.len() == 0 {
        out.push((0, t0.len(), false));
        proof {
            assert(out@.map_values(|x: (usize, usize, bool)| (x.0 as int, x.1 as int, x.2)) =~= highlight_spec(text@, query@));
        }
        return out;
    }
    let t = lower_chars(&t0);
    let q = lower_chars(&q0);
    let n = t.len();
    let m = q.len();
    let mut last: usize = 0;
    let mut pos: usize = 0;
    while pos <= n && m <= n - pos
        invariant
            t@ == lower(text@),
            q@ == lower(query@),
            n == t@.len(),
            m == q@.len(),
            m > 0,
            last <= pos <= n,
            out@.map_values(|x: (usize, usize, bool)| (x.0 as int, x.1 as int, x.2)) + pieces_from(t@, q@, last as int, pos as int)
                == pieces_from(t@, q@, 0, 0),
        decreases n - pos,
    {
        let ghost before = out@.map_values(|x: (usize, usize, bool)| (x.0 as int, x.1 as int, x.2));
        let ghost (l0, p0) = (last as int, pos as int);
        if occurs_at_chars(&t, &q, pos) {
            if pos > last {
                out.push((last, pos, false));
            }
            out.push((pos, pos + m, true));
            pos = pos + m;
            last = pos;
        } else {
            pos = pos + 1;
        }
        proof {
            let after = out@.map_values(|x: (usize, usize, bool)| (x.0 as int, x.1 as int, x.2));
            if occurs_at(t@, q@, p0) {
                let pre: Seq<(int, int, bool)> = if p0 > l0 { seq![(l0, p0, false)] } else { Seq::empty() };
                assert(after =~= before + pre + seq![(p0, p0 + m, true)]);
            } else {
                assert(after =~= before);
            }
        }
    }
    if last < n {
        out.push((last, n, false));
    }
    proof {
        assert(out@.map_values(|x: (usize, usize, bool)| (x.0 as int, x.1 as int, x.2)) =~= pieces_from(t@, q@, 0, 0));
    }
    if out.len() == 0 {
        out.push((0, t0.len(), false));
        proof {
            assert(out@.map_values(|x: (usize, usize, bool)| (x.0 as int, x.1 as int, x.2)) =~= highlight_spec(text@, query@));
        }
    }
    out
}

} // verus!
