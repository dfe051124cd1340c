//! Content measurement: breaking a multi-line text into its lines and taking
//! the bounding box — widest line and line count — that drives the avatar
//! panel's sizing.
//!
//! A line break is a `'\n'`; a `'\r'` directly before it belongs to the break
//! and not to the line. Text after the last break forms a final line, so a
//! trailing break adds no empty line, and the empty text has no lines.

use vstd::prelude::*;
use crate::backend::display_width;
use crate::backend::measure_width;
use crate::backend::to_upper;
use crate::backend::upper_of;
use crate::content::TableItem;

verus! {

/// A line with its trailing carriage return, if any, removed.
pub open spec fn strip_cr(l: Seq<char>) -> Seq<char> {
    if l.len() > 0 && l.last() == '\r' {
        l.drop_last()
    } else {
        l
    }
}

/// True when the text still holds a line break.
pub open spec fn has_newline(s: Seq<char>) -> bool {
    exists|i: int| 0 <= i < s.len() && s[i] == '\n'
}

/// The index of the first line break, or the text's length when it has none.
pub open spec fn first_newline(s: Seq<char>) -> int
    decreases s.len(),
{
    if s.len() == 0 {
        0
    } else if s[0] == '\n' {
        0
    } else {
        1 + first_newline(s.drop_first())
    }
}

pub proof fn lemma_first_newline(s: Seq<char>)
    ensures
        0 <= first_newline(s) <= s.len(),
        has_newline(s) ==> first_newline(s) < s.len() && s[first_newline(s)] == '\n',
        !has_newline(s) ==> first_newline(s) == s.len(),
        forall|j: int| 0 <= j < first_newline(s) ==> s[j] != '\n',
    decreases s.len(),
{
    if s.len() == 0 {
    } else if s[0] == '\n' {
        assert(has_newline(s));
    } else {
        let t = s.drop_first();
        lemma_first_newline(t);
        assert forall|j: int| 0 <= j < first_newline(s) implies s[j] != '\n' by {
            if j > 0 {
                assert(s[j] == t[j - 1]);
            }
        }
        if has_newline(s) {
            let w = choose|i: int| 0 <= i < s.len() && s[i] == '\n';
            assert(t[w - 1] == '\n');
            assert(has_newline(t));
            assert(s[first_newline(s)] == t[first_newline(t)]);
        } else {
            if has_newline(t) {
                let w = choose|i: int| 0 <= i < t.len() && t[i] == '\n';
                assert(s[w + 1] == '\n');
            }
        }
    }
}

/// The lines of a text, in order, each with its part of the break removed.
pub open spec fn split_lines_spec(s: Seq<char>) -> Seq<Seq<char>>
    decreases s.len(),
    via split_lines_spec_decreases
{
    if s.len() == 0 {
        Seq::empty()
    } else if has_newline(s) {
        seq![strip_cr(s.subrange(0, first_newline(s)))] + split_lines_spec(
            s.subrange(first_newline(s) + 1, s.len() as int),
        )
    } else {
        seq![s]
    }
}

#[via_fn]
proof fn split_lines_spec_decreases(s: Seq<char>) {
    lemma_first_newline(s);
}

/// Splitting peels off the first line: if the first break of `s` stands at
/// `i`, the lines of `s` are `s[..i]` (stripped) followed by the lines of
/// `s[i + 1..]`.
pub proof fn lemma_split_lines_step(s: Seq<char>, i: int)
    requires
        0 <= i < s.len(),
        s[i] == '\n',
        forall|j: int| 0 <= j < i ==> s[j] != '\n',
    ensures
        split_lines_spec(s) == seq![strip_cr(s.subrange(0, i))] + split_lines_spec(
            s.subrange(i + 1, s.len() as int),
        ),
{
    assert(has_newline(s));
    lemma_first_newline(s);
    let f = first_newline(s);
    if f < i {
        assert(s[f] != '\n');
    }
    if f > i {
        assert(s[i] != '\n');
    }
    assert(f == i);
}

/// A non-empty text without a line break is one single line.
pub proof fn lemma_split_lines_whole(s: Seq<char>)
    requires
        s.len() > 0,
        forall|j: int| 0 <= j < s.len() ==> s[j] != '\n',
    ensures
        split_lines_spec(s) == seq![s],
{
    assert(!has_newline(s));
}

/// Splits a text into its lines.
pub fn split_lines(s: &str) -> (r: Vec<String>)
    ensures
        r.deep_view() == split_lines_spec(s@),
{
    let n = s.unicode_len();
    let mut out: Vec<String> = Vec::new();
    let mut start: usize = 0;
    let mut i: usize = 0;
    proof {
        assert(s@.subrange(0, n as int) =~= s@);
        assert(out.deep_view() + split_lines_spec(s@) =~= split_lines_spec(s@));
    }
    while i < n
        invariant
            start <= i <= n,
            n == s@.len(),
            out.deep_view() + split_lines_spec(s@.subrange(start as int, n as int))
                =~= split_lines_spec(s@),
            forall|j: int| start <= j < i ==> s@[j] != '\n',
        decreases n - i,
    {
        let c = s.get_char(i);
        if c == '\n' {
            let end = if i > start && s.get_char(i - 1) == '\r' {
                i - 1
            } else {
                i
            };
            let piece = String::from_str(s.substring_char(start, end));
            proof {
                let ghost tail = s@.subrange(start as int, n as int);
                lemma_split_lines_step(tail, i - start);
                assert(tail.subrange(0, i - start) =~= s@.subrange(start as int, i as int));
                assert(tail.subrange(i - start + 1, tail.len() as int) =~= s@.subrange(
                    i + 1,
                    n as int,
                ));
                if i > start && s@[i - 1] == '\r' {
                    assert(strip_cr(s@.subrange(start as int, i as int)) =~= piece@);
                } else {
                    assert(strip_cr(s@.subrange(start as int, i as int)) =~= piece@);
                }
            }
            let ghost old_dv = out.deep_view();
            out.push(piece);
            proof {
                assert(out.deep_view() =~= old_dv + seq![piece@]);
                assert(out.deep_view() + split_lines_spec(s@.subrange(i + 1, n as int))
                    =~= split_lines_spec(s@));
            }
            start = i + 1;
        }
        i = i + 1;
    }
    if start < n {
        let piece = String::from_str(s.substring_char(start, n));
        proof {
            lemma_split_lines_whole(s@.subrange(start as int, n as int));
        }
        let ghost old_dv = out.deep_view();
        out.push(piece);
        proof {
            assert(out.deep_view() =~= old_dv + seq![piece@]);
            assert(out.deep_view() =~= split_lines_spec(s@));
        }
    } else {
        proof {
            assert(s@.subrange(start as int, n as int).len() == 0);
            assert(out.deep_view() =~= split_lines_spec(s@));
        }
    }
    out
}

/// The widest line's display width; zero when there is no line.
pub open spec fn max_line_width(lines: Seq<Seq<char>>) -> nat
    decreases lines.len(),
{
    if lines.len() == 0 {
        0
    } else {
        let rest = max_line_width(lines.drop_last());
        if display_width(lines.last()) > rest {
            display_width(lines.last())
        } else {
            rest
        }
    }
}

/// Measures a block of lines: the widest line's display width and the line
/// count.
pub fn measure_lines(lines: &Vec<String>) -> (r: (usize, usize))
    ensures
        r.0 == max_line_width(lines.deep_view()),
        r.1 == lines.len(),
{
    let mut w: usize = 0;
    let mut i: usize = 0;
    while i < lines.len()
        invariant
            i <= lines.len(),
            w == max_line_width(lines.deep_view().take(i as int)),
        decreases lines.len() - i,
    {
        let lw = measure_width(lines[i].as_str());
        proof {
            let ghost dv = lines.deep_view();
            assert(dv.take(i + 1).drop_last() =~= dv.take(i as int));
            assert(dv.take(i + 1).last() == dv[i as int]);
        }
        if lw > w {
            w = lw;
        }
        i = i + 1;
    }
    proof {
        assert(lines.deep_view().take(lines.len() as int) =~= lines.deep_view());
    }
    (w, lines.len())
}

/// A size capped at what a machine word can hold.
pub open spec fn cap_usize(n: nat) -> nat {
    if n > usize::MAX as nat {
        usize::MAX as nat
    } else {
        n
    }
}

/// The rendered width of one table row: its label and its upper-cased
/// value side by side.
pub open spec fn spec_row_width(row: (Seq<char>, Seq<char>)) -> nat {
    display_width(row.0) + display_width(upper_of(row.1))
}

/// The table's intrinsic width: the widest row's rendered width plus a
/// two-column pad, and zero when there is no row.
pub open spec fn spec_table_intrinsic_width(rows: Seq<(Seq<char>, Seq<char>)>) -> nat
    decreases rows.len(),
{
    if rows.len() == 0 {
        0
    } else {
        let rest = spec_table_intrinsic_width(rows.drop_last());
        let w = spec_row_width(rows.last()) + 2;
        if w > rest {
            w
        } else {
            rest
        }
    }
}

/// Measures the table's intrinsic size: the widest row's rendered width
/// plus the two-column pad (capped at a machine word), and the row count.
/// The width informs the caller only — the table's column split stays
/// proportional — while the row count drives the table region's height.
pub fn table_intrinsic_size(rows: &Vec<TableItem>) -> (r: (usize, usize))
    ensures
        r.0 == cap_usize(spec_table_intrinsic_width(rows@.map_values(|t: TableItem| t@))),
        r.1 == rows.len(),
{
    let mut m: usize = 0;
    let mut i: usize = 0;
    proof {
        assert(rows@.map_values(|t: TableItem| t@).take(0) =~= Seq::empty());
    }
    while i < rows.len()
        invariant
            i <= rows.len(),
            m == cap_usize(
                spec_table_intrinsic_width(rows@.map_values(|t: TableItem| t@).take(i as int)),
            ),
        decreases rows.len() - i,
    {
        let wl = measure_width(rows[i].left.as_str());
        let upper = to_upper(rows[i].right.as_str());
        let wv = measure_width(upper.as_str());
        let sum: usize = if wl > usize::MAX - wv {
            usize::MAX
        } else {
            wl + wv
        };
        let padded: usize = if sum > usize::MAX - 2 {
            usize::MAX
        } else {
            sum + 2
        };
        proof {
            let tv = rows@.map_values(|t: TableItem| t@);
            assert(tv.take(i + 1).drop_last() =~= tv.take(i as int));
            assert(tv.take(i + 1).last() == tv[i as int]);
            assert(padded == cap_usize(spec_row_width(tv[i as int]) + 2));
        }
        if padded > m {
            m = padded;
        }
        i = i + 1;
    }
    proof {
        assert(rows@.map_values(|t: TableItem| t@).take(rows.len() as int) =~= rows@.map_values(
            |t: TableItem| t@,
        ));
    }
    (m, rows.len())
}

} // verus!
