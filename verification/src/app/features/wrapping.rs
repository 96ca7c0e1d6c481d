//! Wrapping response lines to the pane width, and cutting a selection out of the
//! wrapped rows.

use vstd::prelude::*;

use crate::text::{chars_of, join_lines, joined, lines, lines_of, string_from};

verus! {

/// A line cut into rows of `width` characters; an empty line stays one empty row.
pub open spec fn chunks(line: Seq<char>, width: nat) -> Seq<Seq<char>>
    decreases line.len(),
{
    if width == 0 || line.len() <= width {
        seq![line]
    } else {
        seq![line.subrange(0, width as int)] + chunks(
            line.subrange(width as int, line.len() as int),
            width,
        )
    }
}

/// All lines cut into rows, in order.
pub open spec fn wrap_all(lines: Seq<Seq<char>>, width: nat) -> Seq<Seq<char>>
    decreases lines.len(),
{
    if lines.len() == 0 {
        Seq::empty()
    } else {
        wrap_all(lines.drop_last(), width) + chunks(lines.last(), width)
    }
}

/// The rows of a text wrapped at `width` characters; with width zero the lines as
/// they are.
pub open spec fn wrapped_text(text: Seq<char>, width: nat) -> Seq<Seq<char>> {
    if width == 0 {
        lines_of(text)
    } else {
        wrap_all(lines_of(text), width)
    }
}

/// Number of rows a line takes when wrapped: one for an empty line.
pub open spec fn row_count(len: nat, width: nat) -> nat {
    if len == 0 {
        1
    } else {
        ((len + width - 1) / (width as int)) as nat
    }
}

/// Number of rows all lines take when wrapped.
pub open spec fn total_rows(lines: Seq<Seq<char>>, width: nat) -> nat
    decreases lines.len(),
{
    if lines.len() == 0 {
        0
    } else {
        total_rows(lines.drop_last(), width) + row_count(lines.last().len(), width)
    }
}

/// The characters at positions `start..end` of a line, clipped to the line.
pub open spec fn clip(line: Seq<char>, start: int, end: int) -> Seq<char> {
    let lo = if start < line.len() {
        start
    } else {
        line.len() as int
    };
    let hi = if end < lo {
        lo
    } else if end < line.len() {
        end
    } else {
        line.len() as int
    };
    line.subrange(lo, hi)
}

/// The selected part of wrapped row `row`, for a selection from `(r0, c0)` to
/// `(r1, c1)`, as a list of zero or one piece.
pub open spec fn selected_piece(
    rows: Seq<Seq<char>>,
    row: int,
    r0: int,
    c0: int,
    r1: int,
    c1: int,
) -> Seq<Seq<char>> {
    if row < 0 || row >= rows.len() {
        Seq::empty()
    } else {
        let line = rows[row];
        let n = line.len() as int;
        let start_col = if row == r0 {
            if c0 < n {
                c0
            } else {
                n
            }
        } else {
            0
        };
        let end_col = if row == r1 {
            if c1 < n {
                c1
            } else {
                n
            }
        } else {
            n
        };
        if end_col <= start_col {
            Seq::empty()
        } else {
            seq![line.subrange(start_col, end_col)]
        }
    }
}

/// The selected pieces of rows `r0..upto`, in order.
pub open spec fn selected_pieces(
    rows: Seq<Seq<char>>,
    upto: int,
    r0: int,
    c0: int,
    r1: int,
    c1: int,
) -> Seq<Seq<char>>
    decreases upto - r0,
{
    if upto <= r0 {
        Seq::empty()
    } else {
        selected_pieces(rows, upto - 1, r0, c0, r1, c1) + selected_piece(
            rows,
            upto - 1,
            r0,
            c0,
            r1,
            c1,
        )
    }
}

/// The selected text of the rows for a selection from `(r0, c0)` to `(r1, c1)`: the
/// pieces joined with `\n`, none when no row holds a selected character.
pub open spec fn selected_text(rows: Seq<Seq<char>>, r0: int, c0: int, r1: int, c1: int) -> Option<
    Seq<char>,
> {
    let last = if r1 < rows.len() {
        r1 + 1
    } else {
        rows.len() as int
    };
    let pieces = selected_pieces(rows, last, r0, c0, r1, c1);
    if rows.len() == 0 || pieces.len() == 0 {
        None
    } else {
        Some(joined(pieces))
    }
}

/// A row strictly inside a selection is taken whole: a selection from row `r0`
/// to row `r1` copies every non-empty row `r` with `r0 < r < r1` as one whole line
/// of the copied text, after the pieces of the rows before it.
pub proof fn lemma_middle_rows_whole(rows: Seq<Seq<char>>, r0: int, c0: int, r1: int, c1: int, r: int)
    requires
        0 <= r0 < r < r1,
        r < rows.len(),
        rows[r].len() > 0,
    ensures
        selected_piece(rows, r, r0, c0, r1, c1) == seq![rows[r]],
        exists|rest: Seq<Seq<char>>|
            selected_text(rows, r0, c0, r1, c1) == Some(
                joined(selected_pieces(rows, r, r0, c0, r1, c1).push(rows[r]) + rest),
            ),
{
    assert(rows[r].subrange(0, rows[r].len() as int) =~= rows[r]);
    let last = if r1 < rows.len() {
        r1 + 1
    } else {
        rows.len() as int
    };
    lemma_pieces_split(rows, r0, c0, r1, c1, r + 1, last);
    let head = selected_pieces(rows, r + 1, r0, c0, r1, c1);
    assert(head == selected_pieces(rows, r, r0, c0, r1, c1).push(rows[r]));
    let rest = choose|rest: Seq<Seq<char>>| selected_pieces(rows, last, r0, c0, r1, c1) == head + rest;
    assert(selected_pieces(rows, last, r0, c0, r1, c1).len() > 0);
}

/// The pieces up to `upto` extend the pieces up to any earlier `mid` past `r0`.
proof fn lemma_pieces_split(rows: Seq<Seq<char>>, r0: int, c0: int, r1: int, c1: int, mid: int, upto: int)
    requires
        r0 <= mid <= upto,
    ensures
        exists|rest: Seq<Seq<char>>|
            selected_pieces(rows, upto, r0, c0, r1, c1) == selected_pieces(rows, mid, r0, c0, r1, c1)
                + rest,
    decreases upto - mid,
{
    if upto == mid {
        assert(selected_pieces(rows, upto, r0, c0, r1, c1) == selected_pieces(rows, mid, r0, c0, r1, c1)
            + Seq::<Seq<char>>::empty());
    } else {
        lemma_pieces_split(rows, r0, c0, r1, c1, mid, upto - 1);
        let rest = choose|rest: Seq<Seq<char>>|
            selected_pieces(rows, upto - 1, r0, c0, r1, c1) == selected_pieces(rows, mid, r0, c0, r1, c1)
                + rest;
        let p = selected_piece(rows, upto - 1, r0, c0, r1, c1);
        assert(selected_pieces(rows, upto, r0, c0, r1, c1) =~= selected_pieces(rows, mid, r0, c0, r1, c1)
            + (rest + p));
    }
}

/// The rows of a line cut at `width`.
proof fn lemma_chunks_len(line: Seq<char>, width: nat)
    requires
        width > 0,
    ensures
        chunks(line, width).len() == row_count(line.len(), width),
    decreases line.len(),
{
    if line.len() <= width {
        if line.len() > 0 {
            assert((line.len() + width - 1) / (width as int) == 1) by (nonlinear_arith)
                requires
                    0 < line.len() <= width,
            ;
        }
    } else {
        let rest = line.subrange(width as int, line.len() as int);
        lemma_chunks_len(rest, width);
        let l = line.len() as int;
        assert((l + width - 1) / (width as int) == (l - width + width - 1) / (width as int) + 1)
            by (nonlinear_arith)
            requires
                width > 0,
                l > width,
        {
            assert(l + width - 1 == (l - width + width - 1) + width);
        }
    }
}

/// The number of wrapped rows is the total of the rows of each line.
pub proof fn lemma_wrap_rows(lines: Seq<Seq<char>>, width: nat)
    requires
        width > 0,
    ensures
        wrap_all(lines, width).len() == total_rows(lines, width),
    decreases lines.len(),
{
    if lines.len() > 0 {
        lemma_wrap_rows(lines.drop_last(), width);
        lemma_chunks_len(lines.last(), width);
    }
}

/// Cuts a line into rows of `width` characters.
fn chunk_line(line: &str, width: usize, out: &mut Vec<String>)
    requires
        width > 0,
    ensures
        final(out).deep_view() == old(out).deep_view() + chunks(line@, width as nat),
{
    let cs = chars_of(line);
    if cs.len() == 0 {
        let ghost before = out.deep_view();
        let empty = String::new();
        assert(line@ =~= empty@);
        out.push(empty);
        assert(out.deep_view() =~= before.push(empty@));
        assert(chunks(line@, width as nat) == seq![line@]);
        assert(out.deep_view() =~= before + chunks(line@, width as nat));
        return;
    }
    assert(cs@.subrange(0, cs.len() as int) =~= cs@);
    let mut start: usize = 0;
    while start < cs.len()
        invariant
            cs@ == line@,
            cs.len() > 0,
            width > 0,
            0 <= start <= cs.len(),
            start < cs.len() ==> out.deep_view() + chunks(
                cs@.subrange(start as int, cs.len() as int),
                width as nat,
            ) == old(out).deep_view() + chunks(line@, width as nat),
            start == cs.len() ==> out.deep_view() == old(out).deep_view() + chunks(
                line@,
                width as nat,
            ),
        decreases cs.len() - start,
    {
        let rest_len = cs.len() - start;
        let end = if rest_len > width {
            start + width
        } else {
            cs.len()
        };
        let ghost rest = cs@.subrange(start as int, cs.len() as int);
        let piece = string_from(&cs, start, end);
        let ghost before = out.deep_view();
        out.push(piece);
        proof {
            assert(out.deep_view() =~= before.push(piece@));
            if rest_len > width {
                assert(rest.subrange(0, width as int) =~= piece@);
                assert(rest.subrange(width as int, rest.len() as int) =~= cs@.subrange(
                    end as int,
                    cs.len() as int,
                ));
                assert(before + chunks(rest, width as nat) =~= before.push(piece@) + chunks(
                    cs@.subrange(end as int, cs.len() as int),
                    width as nat,
                ));
            } else {
                assert(rest =~= piece@);
                assert(before + chunks(rest, width as nat) =~= before.push(piece@));
            }
        }
        start = end;
    }
}

/// The rows of a text wrapped at `width` characters.
pub fn wrap_text_lines(text: &str, width: usize) -> (out: Vec<String>)
    ensures
        out.deep_view() == wrapped_text(text@, width as nat),
{
    let ls = lines(text);
    if width == 0 {
        return ls;
    }
    let ghost lv = ls.deep_view();
    let mut wrapped: Vec<String> = Vec::new();
    let mut i: usize = 0;
    while i < ls.len()
        invariant
            lv == ls.deep_view(),
            lv == lines_of(text@),
            width > 0,
            0 <= i <= ls.len(),
            wrapped.deep_view() == wrap_all(lv.subrange(0, i as int), width as nat),
        decreases ls.len() - i,
    {
        chunk_line(ls[i].as_str(), width, &mut wrapped);
        assert(lv.subrange(0, i + 1).drop_last() =~= lv.subrange(0, i as int));
        i += 1;
    }
    assert(lv.subrange(0, ls.len() as int) =~= lv);
    wrapped
}

/// The characters at positions `start..end` of a text, clipped to the text.
pub fn substring_chars(text: &str, start: usize, end: usize) -> (out: String)
    ensures
        out@ == clip(text@, start as int, end as int),
{
    let cs = chars_of(text);
    let lo = if start < cs.len() {
        start
    } else {
        cs.len()
    };
    let hi = if end < lo {
        lo
    } else if end < cs.len() {
        end
    } else {
        cs.len()
    };
    string_from(&cs, lo, hi)
}

/// The text selected from `(r0, c0)` to `(r1, c1)` among wrapped rows.
pub fn selection_text(rows: &Vec<String>, r0: usize, c0: usize, r1: usize, c1: usize) -> (r: Option<
    String,
>)
    ensures
        match r {
            Some(t) => selected_text(rows.deep_view(), r0 as int, c0 as int, r1 as int, c1 as int)
                == Some(t@),
            None => selected_text(rows.deep_view(), r0 as int, c0 as int, r1 as int, c1 as int)
                is None,
        },
{
    let ghost rv = rows.deep_view();
    if rows.len() == 0 {
        return None;
    }
    let last: usize = if r1 < rows.len() {
        r1 + 1
    } else {
        rows.len()
    };
    let mut out: Vec<String> = Vec::new();
    let mut row = r0;
    if row > last {
        row = last;
    }
    proof {
        if r0 > last {
            assert(selected_pieces(rv, last as int, r0 as int, c0 as int, r1 as int, c1 as int)
                == Seq::<Seq<char>>::empty());
        }
    }
    while row < last
        invariant
            rv == rows.deep_view(),
            last <= rows.len(),
            row <= last,
            row < last ==> r0 <= row,
            out.deep_view() == selected_pieces(rv, row as int, r0 as int, c0 as int, r1 as int, c1 as int),
        decreases last - row,
    {
        let line = chars_of(rows[row].as_str());
        let n = line.len();
        let start_col = if row == r0 {
            if c0 < n {
                c0
            } else {
                n
            }
        } else {
            0
        };
        let end_col = if row == r1 {
            if c1 < n {
                c1
            } else {
                n
            }
        } else {
            n
        };
        let ghost before = out.deep_view();
        if end_col > start_col {
            let piece = string_from(&line, start_col, end_col);
            out.push(piece);
            assert(out.deep_view() =~= before + selected_piece(
                rv,
                row as int,
                r0 as int,
                c0 as int,
                r1 as int,
                c1 as int,
            ));
        } else {
            assert(out.deep_view() =~= before + selected_piece(
                rv,
                row as int,
                r0 as int,
                c0 as int,
                r1 as int,
                c1 as int,
            ));
        }
        row += 1;
    }
    if out.len() == 0 {
        None
    } else {
        assert(out.deep_view().subrange(0, out.len() as int) =~= out.deep_view());
        Some(join_lines(&out, 0, out.len()))
    }
}

} // verus!
