//! Pipe tables, with cells that may span columns and rows.
//!
//! A cell that ends with an attribute block, as in `| A {colspan=2} |`,
//! spans that many columns; `rowspan` does the same for rows. The cells
//! that lie under a span stay in their rows, marked as removed.

use vstd::prelude::*;
use crate::ast::{Alignment, Block, Inline, Table, TableCell};
use crate::ast::model::{
    cell_model, inlines_model, row_model, rows_model, BlockModel, TableCellModel,
};
use crate::parser::chars::{
    range_is, run_end, run_start, skip_run, skip_run_back, slice_chars, CharClass,
};
use crate::parser::blocks::nest::{number_of, read_number};
use crate::parser::inline::{inlines_of, parse_inlines};
use crate::parser::inline::image::attribute_at;
use crate::parser::lines::{blank, is_blank, lines_model};

verus! {

/// From and to where the cells of a row stand in its line: between the
/// blanks at both ends, and between the `|` at both ends if they are there.
/// A `|` behind a backslash does not end the row.
pub open spec fn row_span(l: Seq<char>) -> (int, int) {
    let len = l.len() as int;
    let a0 = run_end(l, 0, len, CharClass::Blank);
    let e0 = run_start(l, a0, len, CharClass::Blank);
    let a1 = if a0 < e0 && l[a0] == '|' {
        a0 + 1
    } else {
        a0
    };
    let e1 = if a1 < e0 && l[e0 - 1] == '|' && !(a1 < e0 - 1 && l[e0 - 2] == '\\') {
        e0 - 1
    } else {
        e0
    };
    (a1, e1)
}

/// Where the cell that starts at `k` ends: at the next `|` that no
/// backslash precedes, or at `e`.
pub open spec fn cell_end(l: Seq<char>, k: int, e: int) -> int
    decreases e - k,
{
    if k < 0 || k >= e || e > l.len() {
        e
    } else if l[k] == '|' && !(k > 0 && l[k - 1] == '\\') {
        k
    } else {
        cell_end(l, k + 1, e)
    }
}

/// From and to where each cell of the row runs, from `k` on.
pub open spec fn cells_from(l: Seq<char>, k: int, e: int) -> Seq<(int, int)>
    decreases e - k,
{
    let c = cell_end(l, k, e);
    if k <= c < e {
        seq![(k, c)] + cells_from(l, c + 1, e)
    } else {
        seq![(k, e)]
    }
}

/// From and to where each cell of the line runs.
pub open spec fn cells_of(l: Seq<char>) -> Seq<(int, int)> {
    let (a, e) = row_span(l);
    cells_from(l, a, e)
}

fn find_cell_end(l: &Vec<char>, start: usize, e: usize) -> (k: usize)
    requires
        start <= e <= l.len(),
    ensures
        k == cell_end(l@, start as int, e as int),
        start <= k <= e,
{
    let mut k = start;
    while k < e
        invariant
            start <= k <= e <= l.len(),
            cell_end(l@, start as int, e as int) == cell_end(l@, k as int, e as int),
        decreases e - k,
    {
        if l[k] == '|' && !(k > 0 && l[k - 1] == '\\') {
            return k;
        }
        k += 1;
    }
    k
}

/// The ranges of a vector of ranges, as integers.
pub open spec fn ranges_model(v: Seq<(usize, usize)>) -> Seq<(int, int)> {
    Seq::new(v.len(), |k: int| (v[k].0 as int, v[k].1 as int))
}

/// Cuts a line into the ranges of its cells.
pub fn split_cells(l: &Vec<char>) -> (r: Vec<(usize, usize)>)
    ensures
        ranges_model(r@) == cells_of(l@),
        r.len() >= 1,
        forall|k: int| 0 <= k < r.len() ==> (#[trigger] r@[k]).0 <= r@[k].1 <= l.len(),
{
    let len = l.len();
    let a0 = skip_run(l, 0, len, CharClass::Blank);
    let e0 = skip_run_back(l, a0, len, CharClass::Blank);
    let a1 = if a0 < e0 && l[a0] == '|' {
        a0 + 1
    } else {
        a0
    };
    let e1 = if a1 < e0 && l[e0 - 1] == '|' && !(a1 < e0 - 1 && l[e0 - 2] == '\\') {
        e0 - 1
    } else {
        e0
    };
    let mut out: Vec<(usize, usize)> = Vec::new();
    let mut k = a1;
    assert(ranges_model(out@) =~= Seq::empty());
    loop
        invariant
            a1 <= k <= e1 <= l.len(),
            (a1 as int, e1 as int) == row_span(l@),
            cells_of(l@) == ranges_model(out@) + cells_from(l@, k as int, e1 as int),
            forall|m: int| 0 <= m < out.len() ==> (#[trigger] out@[m]).0 <= out@[m].1 <= l.len(),
        decreases e1 - k,
    {
        let c = find_cell_end(l, k, e1);
        let ghost before = out@;
        if c < e1 {
            out.push((k, c));
            assert(ranges_model(out@) =~= ranges_model(before).push((k as int, c as int)));
            assert(ranges_model(out@) + cells_from(l@, c + 1, e1 as int) =~= ranges_model(before)
                + (seq![(k as int, c as int)] + cells_from(l@, c + 1, e1 as int)));
            k = c + 1;
        } else {
            out.push((k, e1));
            assert(ranges_model(out@) =~= ranges_model(before) + seq![(k as int, e1 as int)]);
            return out;
        }
    }
}

/// From and to where the text of a cell runs, without the blanks around
/// it.
pub open spec fn trimmed(l: Seq<char>, a: int, b: int) -> (int, int) {
    let s = run_end(l, a, b, CharClass::Blank);
    (s, run_start(l, s, b, CharClass::Blank))
}

fn trim(l: &Vec<char>, a: usize, b: usize) -> (r: (usize, usize))
    requires
        a <= b <= l.len(),
    ensures
        (r.0 as int, r.1 as int) == trimmed(l@, a as int, b as int),
        a <= r.0 <= r.1 <= b,
{
    let s = skip_run(l, a, b, CharClass::Blank);
    (s, skip_run_back(l, s, b, CharClass::Blank))
}

/// The alignment that a cell of the delimiter row asks for: the cell is
/// one or more `-`, with a `:` before them for left, behind them for right,
/// and at both ends for center.
pub open spec fn alignment_of(l: Seq<char>, a: int, b: int) -> Option<Alignment> {
    let (s, e) = trimmed(l, a, b);
    let left = s < e && l[s] == ':';
    let s2 = if left {
        s + 1
    } else {
        s
    };
    let right = s2 < e && l[e - 1] == ':';
    let e2 = if right {
        e - 1
    } else {
        e
    };
    if s2 < e2 && run_end(l, s2, e2, CharClass::Is('-')) == e2 {
        Some(
            if left && right {
                Alignment::Center
            } else if left {
                Alignment::Left
            } else if right {
                Alignment::Right
            } else {
                Alignment::Unset
            },
        )
    } else {
        None
    }
}

fn read_alignment(l: &Vec<char>, a: usize, b: usize) -> (r: Option<Alignment>)
    requires
        a <= b <= l.len(),
    ensures
        r == alignment_of(l@, a as int, b as int),
{
    let (s, e) = trim(l, a, b);
    let left = s < e && l[s] == ':';
    let s2 = if left {
        s + 1
    } else {
        s
    };
    let right = s2 < e && l[e - 1] == ':';
    let e2 = if right {
        e - 1
    } else {
        e
    };
    if s2 < e2 && skip_run(l, s2, e2, CharClass::Is('-')) == e2 {
        Some(
            if left && right {
                Alignment::Center
            } else if left {
                Alignment::Left
            } else if right {
                Alignment::Right
            } else {
                Alignment::Unset
            },
        )
    } else {
        None
    }
}

/// The alignments that the delimiter row gives, one for each of its cells;
/// `None` if a cell is no delimiter.
pub open spec fn alignments_of(l: Seq<char>) -> Option<Seq<Alignment>> {
    let cells = cells_of(l);
    if forall|k: int| 0 <= k < cells.len() ==> (#[trigger] alignment_of(l, cells[k].0, cells[k].1))
        is Some {
        Some(Seq::new(cells.len(), |k: int| alignment_of(l, cells[k].0, cells[k].1)->0))
    } else {
        None
    }
}

fn read_alignments(l: &Vec<char>) -> (r: Option<Vec<Alignment>>)
    ensures
        match r {
            Some(v) => alignments_of(l@) == Some(v@) && v.len() == cells_of(l@).len(),
            None => alignments_of(l@) is None,
        },
{
    let cells = split_cells(l);
    let mut out: Vec<Alignment> = Vec::new();
    let mut k: usize = 0;
    while k < cells.len()
        invariant
            k <= cells.len(),
            out.len() == k,
            ranges_model(cells@) == cells_of(l@),
            forall|m: int| 0 <= m < cells.len() ==> (#[trigger] cells@[m]).0 <= cells@[m].1
                <= l.len(),
            forall|m: int|
                0 <= m < k ==> alignment_of(l@, cells_of(l@)[m].0, cells_of(l@)[m].1) == Some(
                    #[trigger] out@[m],
                ),
        decreases cells.len() - k,
    {
        let (a, b) = cells[k];
        assert(ranges_model(cells@)[k as int] == (a as int, b as int));
        match read_alignment(l, a, b) {
            Some(al) => {
                out.push(al);
            },
            None => {
                assert(alignment_of(l@, cells_of(l@)[k as int].0, cells_of(l@)[k as int].1)
                    is None);
                return None;
            },
        }
        k += 1;
    }
    assert(ranges_model(cells@).len() == cells.len());
    assert forall|m: int| 0 <= m < cells_of(l@).len() implies (#[trigger] alignment_of(
        l@,
        cells_of(l@)[m].0,
        cells_of(l@)[m].1,
    )) is Some by {
        assert(alignment_of(l@, cells_of(l@)[m].0, cells_of(l@)[m].1) == Some(out@[m]));
    }
    assert(out@ =~= Seq::new(
        cells_of(l@).len(),
        |k: int| alignment_of(l@, cells_of(l@)[k].0, cells_of(l@)[k].1)->0,
    ));
    Some(out)
}

pub open spec fn colspan_key() -> Seq<char> {
    seq!['c', 'o', 'l', 's', 'p', 'a', 'n']
}

pub open spec fn rowspan_key() -> Seq<char> {
    seq!['r', 'o', 'w', 's', 'p', 'a', 'n']
}

/// The number that a span is given as: one to four digits.
pub open spec fn span_value(l: Seq<char>, a: int, b: int) -> Option<usize> {
    if 1 <= b - a <= 4 && run_end(l, a, b, CharClass::Digit) == b {
        Some(number_of(l, a, b) as usize)
    } else {
        None
    }
}

/// The spans after `key=value` is read: `colspan` and `rowspan` with a
/// number are kept, the last of each winning; anything else is passed
/// over.
pub open spec fn with_span(
    acc: (Option<usize>, Option<usize>),
    l: Seq<char>,
    ka: int,
    kb: int,
    va: int,
    vb: int,
) -> (Option<usize>, Option<usize>) {
    match span_value(l, va, vb) {
        Some(n) => if l.subrange(ka, kb) == colspan_key() {
            (Some(n), acc.1)
        } else if l.subrange(ka, kb) == rowspan_key() {
            (acc.0, Some(n))
        } else {
            acc
        },
        None => acc,
    }
}

/// The spans read from `p` on, and where the list of pairs ends. The
/// pairs are separated by whitespace.
pub open spec fn spans_from(l: Seq<char>, p: int, first: bool, acc: (Option<usize>, Option<usize>)) -> (
    (Option<usize>, Option<usize>),
    int,
)
    decreases l.len() - p,
{
    if p < 0 || p > l.len() {
        (acc, p)
    } else {
        let sep = run_end(l, p, l.len() as int, CharClass::MultiSpace);
        if !first && sep == p {
            (acc, p)
        } else {
            match attribute_at(l, p) {
                Some((ka, kb, va, vb, e)) => if p < e <= l.len() {
                    spans_from(l, e, false, with_span(acc, l, ka, kb, va, vb))
                } else {
                    (acc, p)
                },
                None => (acc, p),
            }
        }
    }
}

/// Model of what a cell says of itself.
pub struct CellShape {
    /// From where its text runs.
    pub from: int,
    /// To where its text runs.
    pub to: int,
    pub colspan: Option<usize>,
    pub rowspan: Option<usize>,
}

/// What the cell between `a` and `b` says of itself. Where its text ends
/// with an attribute block, a `{`, pairs and a `}` with nothing behind it,
/// the block gives the spans and the text ends before it.
pub open spec fn cell_shape(l: Seq<char>, a: int, b: int) -> CellShape {
    let (s, e) = trimmed(l, a, b);
    let open = run_start(l, s, e, CharClass::IsNot('{')) - 1;
    let inner = run_end(l, open + 1, l.len() as int, CharClass::MultiSpace);
    let (spans, end) = spans_from(l, inner, true, (None, None));
    let close = run_end(l, end, l.len() as int, CharClass::MultiSpace);
    if s <= open && open < e && l[e - 1] == '}' && close == e - 1 {
        CellShape {
            from: s,
            to: run_start(l, s, open, CharClass::Blank),
            colspan: spans.0,
            rowspan: spans.1,
        }
    } else {
        CellShape { from: s, to: e, colspan: None, rowspan: None }
    }
}

/// The cell between `a` and `b`, not yet marked.
pub open spec fn cell_of(l: Seq<char>, a: int, b: int, depth: nat) -> TableCellModel {
    let shape = cell_shape(l, a, b);
    TableCellModel {
        content: inlines_of(l.subrange(shape.from, shape.to), depth),
        colspan: shape.colspan,
        rowspan: shape.rowspan,
        removed_by_extended_table: false,
    }
}

/// A cell that holds nothing.
pub open spec fn empty_cell() -> TableCellModel {
    TableCellModel {
        content: Seq::empty(),
        colspan: None,
        rowspan: None,
        removed_by_extended_table: false,
    }
}

/// The row that the line holds, brought to `columns` cells: cells beyond
/// that are dropped, cells that are missing are empty.
pub open spec fn row_of(l: Seq<char>, columns: int, depth: nat) -> Seq<TableCellModel> {
    let cells = cells_of(l);
    Seq::new(
        columns as nat,
        |c: int|
            if c < cells.len() {
                cell_of(l, cells[c].0, cells[c].1, depth)
            } else {
                empty_cell()
            },
    )
}

fn read_span_value(l: &Vec<char>, a: usize, b: usize) -> (r: Option<usize>)
    requires
        a <= b <= l.len(),
    ensures
        r == span_value(l@, a as int, b as int),
{
    if 1 <= b - a && b - a <= 4 && skip_run(l, a, b, CharClass::Digit) == b {
        let n = read_number(l, a, b);
        Some(n as usize)
    } else {
        None
    }
}

fn read_spans(l: &Vec<char>, start: usize) -> (r: ((Option<usize>, Option<usize>), usize))
    requires
        start <= l.len(),
    ensures
        (r.0, r.1 as int) == spans_from(l@, start as int, true, (None, None)),
        start <= r.1 <= l.len(),
{
    let len = l.len();
    let mut acc: (Option<usize>, Option<usize>) = (None, None);
    let mut p = start;
    let mut first = true;
    let colspan = vec!['c', 'o', 'l', 's', 'p', 'a', 'n'];
    let rowspan = vec!['r', 'o', 'w', 's', 'p', 'a', 'n'];
    assert(colspan@ =~= colspan_key());
    assert(rowspan@ =~= rowspan_key());
    loop
        invariant
            start <= p <= l.len(),
            len == l.len(),
            colspan@ == colspan_key(),
            rowspan@ == rowspan_key(),
            spans_from(l@, start as int, true, (None, None)) == spans_from(
                l@,
                p as int,
                first,
                acc,
            ),
        decreases l.len() - p,
    {
        let sep = skip_run(l, p, len, CharClass::MultiSpace);
        if !first && sep == p {
            return (acc, p);
        }
        match crate::parser::inline::image::key_value_parser(l, p) {
            None => {
                return (acc, p);
            },
            Some((ka, kb, va, vb, e)) => {
                match read_span_value(l, va, vb) {
                    Some(n) => {
                        if range_is(l, ka, kb, &colspan) {
                            acc = (Some(n), acc.1);
                        } else if range_is(l, ka, kb, &rowspan) {
                            acc = (acc.0, Some(n));
                        }
                    },
                    None => {},
                }
                p = e;
                first = false;
            },
        }
    }
}

fn read_cell(l: &Vec<char>, a: usize, b: usize, depth: usize) -> (r: TableCell)
    requires
        a <= b <= l.len(),
    ensures
        cell_model(r) == cell_of(l@, a as int, b as int, depth as nat),
{
    let len = l.len();
    let (s, e) = trim(l, a, b);
    let after_open = skip_run_back(l, s, e, CharClass::IsNot('{'));
    if after_open > s && l[e - 1] == '}' {
        let open = after_open - 1;
        let inner = skip_run(l, open + 1, len, CharClass::MultiSpace);
        let (spans, end) = read_spans(l, inner);
        let close = skip_run(l, end, len, CharClass::MultiSpace);
        if close == e - 1 {
            let to = skip_run_back(l, s, open, CharClass::Blank);
            let text = slice_chars(l, s, to);
            return TableCell {
                content: parse_inlines(&text, depth),
                colspan: spans.0,
                rowspan: spans.1,
                removed_by_extended_table: false,
            };
        }
    }
    let text = slice_chars(l, s, e);
    TableCell {
        content: parse_inlines(&text, depth),
        colspan: None,
        rowspan: None,
        removed_by_extended_table: false,
    }
}

fn read_row(l: &Vec<char>, columns: usize, depth: usize) -> (r: Vec<TableCell>)
    ensures
        row_model(r@) == row_of(l@, columns as int, depth as nat),
        r.len() == columns,
{
    let cells = split_cells(l);
    let mut out: Vec<TableCell> = Vec::new();
    let mut c: usize = 0;
    while c < columns
        invariant
            c <= columns,
            out.len() == c,
            ranges_model(cells@) == cells_of(l@),
            forall|m: int| 0 <= m < cells.len() ==> (#[trigger] cells@[m]).0 <= cells@[m].1
                <= l.len(),
            forall|m: int|
                0 <= m < c ==> cell_model(#[trigger] out@[m]) == row_of(
                    l@,
                    columns as int,
                    depth as nat,
                )[m],
        decreases columns - c,
    {
        assert(ranges_model(cells@).len() == cells.len());
        if c < cells.len() {
            let (a, b) = cells[c];
            assert(ranges_model(cells@)[c as int] == (a as int, b as int));
            out.push(read_cell(l, a, b, depth));
        } else {
            let content: Vec<Inline> = Vec::new();
            assert(inlines_model(content@) =~= Seq::empty());
            out.push(
                TableCell {
                    content,
                    colspan: None,
                    rowspan: None,
                    removed_by_extended_table: false,
                },
            );
        }
        c += 1;
    }
    assert(row_model(out@) =~= row_of(l@, columns as int, depth as nat));
    out
}

/// How many columns or rows a span takes: what it says, and at least one.
pub open spec fn span(o: Option<usize>) -> int {
    match o {
        Some(n) => if n >= 1 {
            n as int
        } else {
            1
        },
        None => 1,
    }
}

/// Whether the cell at row `r0` and column `c0` reaches over the cell at
/// row `r` and column `c`, which is another cell, to its right or below.
pub open spec fn covers(rows: Seq<Seq<TableCellModel>>, r0: int, c0: int, r: int, c: int) -> bool {
    0 <= r0 <= r && 0 <= c0 <= c && (r0 != r || c0 != c) && r0 < rows.len() && c0
        < rows[r0].len() && r < r0 + span(rows[r0][c0].rowspan) && c < c0 + span(
        rows[r0][c0].colspan,
    )
}

/// Whether some cell reaches over the cell at row `r` and column `c`.
pub open spec fn is_covered(rows: Seq<Seq<TableCellModel>>, r: int, c: int) -> bool {
    exists|r0: int, c0: int| covers(rows, r0, c0, r, c)
}

/// The rows with every cell marked that lies under the span of another.
pub open spec fn with_removed(rows: Seq<Seq<TableCellModel>>) -> Seq<Seq<TableCellModel>> {
    Seq::new(
        rows.len(),
        |r: int|
            Seq::new(
                rows[r].len(),
                |c: int|
                    TableCellModel {
                        content: rows[r][c].content,
                        colspan: rows[r][c].colspan,
                        rowspan: rows[r][c].rowspan,
                        removed_by_extended_table: is_covered(rows, r, c),
                    },
            ),
    )
}

fn span_of(o: Option<usize>) -> (n: usize)
    ensures
        n == span(o),
{
    match o {
        Some(n) => if n >= 1 {
            n
        } else {
            1
        },
        None => 1,
    }
}

fn covered(rows: &Vec<Vec<TableCell>>, r: usize, c: usize) -> (b: bool)
    requires
        r < rows.len(),
        c < rows@[r as int].len(),
    ensures
        b == is_covered(rows_model(rows@), r as int, c as int),
{
    let ghost rm = rows_model(rows@);
    let mut r0: usize = 0;
    while r0 <= r
        invariant
            r0 <= r + 1,
            r < rows.len(),
            rm == rows_model(rows@),
            forall|x: int, y: int| 0 <= x < r0 ==> !covers(rm, x, y, r as int, c as int),
        decreases r + 1 - r0,
    {
        let row = &rows[r0];
        let mut c0: usize = 0;
        while c0 <= c && c0 < row.len()
            invariant
                c0 <= c + 1,
                c0 <= row.len(),
                r0 <= r < rows.len(),
                row == rows@[r0 as int],
                rm == rows_model(rows@),
                forall|y: int| 0 <= y < c0 ==> !covers(rm, r0 as int, y, r as int, c as int),
            decreases c + 1 - c0,
        {
            assert(rm[r0 as int][c0 as int] == cell_model(row@[c0 as int]));
            let rs = span_of(row[c0].rowspan);
            let cs = span_of(row[c0].colspan);
            if (r0 != r || c0 != c) && r - r0 < rs && c - c0 < cs {
                assert(covers(rm, r0 as int, c0 as int, r as int, c as int));
                return true;
            }
            c0 += 1;
        }
        r0 += 1;
    }
    false
}

/// Marks every cell that lies under the span of another.
pub fn mark_removed(rows: Vec<Vec<TableCell>>) -> (r: Vec<Vec<TableCell>>)
    ensures
        rows_model(r@) == with_removed(rows_model(rows@)),
{
    let mut flags: Vec<Vec<bool>> = Vec::new();
    let mut i: usize = 0;
    while i < rows.len()
        invariant
            i <= rows.len(),
            flags.len() == i,
            forall|x: int|
                0 <= x < i ==> (#[trigger] flags@[x]).len() == rows@[x].len() && forall|y: int|
                    0 <= y < rows@[x].len() ==> flags@[x]@[y] == is_covered(
                        rows_model(rows@),
                        x,
                        y,
                    ),
        decreases rows.len() - i,
    {
        let mut row_flags: Vec<bool> = Vec::new();
        let mut j: usize = 0;
        while j < rows[i].len()
            invariant
                i < rows.len(),
                j <= rows@[i as int].len(),
                row_flags.len() == j,
                forall|y: int|
                    0 <= y < j ==> row_flags@[y] == is_covered(rows_model(rows@), i as int, y),
            decreases rows@[i as int].len() - j,
        {
            row_flags.push(covered(&rows, i, j));
            j += 1;
        }
        flags.push(row_flags);
        i += 1;
    }
    let ghost before = rows@;
    let ghost target = with_removed(rows_model(before));
    let mut out: Vec<Vec<TableCell>> = Vec::new();
    let mut ri: usize = 0;
    for row in it: rows.into_iter()
        invariant
            it.seq() == before,
            ri == it.index(),
            out.len() == it.index(),
            flags.len() == before.len(),
            target == with_removed(rows_model(before)),
            forall|x: int|
                0 <= x < before.len() ==> (#[trigger] flags@[x]).len() == before[x].len()
                    && forall|y: int|
                    0 <= y < before[x].len() ==> flags@[x]@[y] == is_covered(
                        rows_model(before),
                        x,
                        y,
                    ),
            forall|x: int| 0 <= x < it.index() ==> row_model(#[trigger] out@[x]@) == target[x],
    {
        let ghost x = it.index();
        let ghost cells = row@;
        assert(row == before[x]);
        let mut marked: Vec<TableCell> = Vec::new();
        let mut ci: usize = 0;
        for cell in jt: row.into_iter()
            invariant
                jt.seq() == cells,
                ci == jt.index(),
                ri == x,
                cells == before[x]@,
                0 <= x < before.len(),
                marked.len() == jt.index(),
                flags@[x].len() == cells.len(),
                x < flags.len(),
                rows_model(before)[x] == row_model(cells),
                target == with_removed(rows_model(before)),
                forall|y: int|
                    0 <= y < cells.len() ==> flags@[x]@[y] == is_covered(rows_model(before), x, y),
                forall|y: int| 0 <= y < jt.index() ==> cell_model(#[trigger] marked@[y]) == target[x][y],
        {
            let ghost y = jt.index();
            assert(cell == cells[y]);
            let TableCell { content, colspan, rowspan, removed_by_extended_table } = cell;
            let flag = flags[ri][ci];
            assert(rows_model(before)[x][y] == cell_model(cell));
            marked.push(TableCell { content, colspan, rowspan, removed_by_extended_table: flag });
            ci += 1;
        }
        assert(row_model(marked@) =~= target[x]);
        out.push(marked);
        ri += 1;
    }
    assert(rows_model(out@) =~= target);
    out
}

/// A cell that spans two columns or more has a cell to its right that is
/// marked as removed, if the row has a cell there.
pub proof fn lemma_colspan_removes_next(rows: Seq<Seq<TableCellModel>>, r: int, c: int)
    requires
        0 <= r < rows.len(),
        0 <= c,
        c + 1 < rows[r].len(),
        span(rows[r][c].colspan) >= 2,
    ensures
        with_removed(rows)[r][c + 1].removed_by_extended_table,
{
    assert(covers(rows, r, c, r, c + 1));
}

/// A cell that spans two rows or more has a cell below it that is marked
/// as removed, if the next row has a cell there.
pub proof fn lemma_rowspan_removes_below(rows: Seq<Seq<TableCellModel>>, r: int, c: int)
    requires
        0 <= r,
        r + 1 < rows.len(),
        0 <= c < rows[r].len(),
        c < rows[r + 1].len(),
        span(rows[r][c].rowspan) >= 2,
    ensures
        with_removed(rows)[r + 1][c].removed_by_extended_table,
{
    assert(covers(rows, r, c, r + 1, c));
}

/// Without spans no cell is marked as removed.
pub proof fn lemma_no_span_removes_nothing(rows: Seq<Seq<TableCellModel>>, r: int, c: int)
    requires
        0 <= r < rows.len(),
        0 <= c < rows[r].len(),
        forall|x: int, y: int|
            0 <= x < rows.len() && 0 <= y < rows[x].len() ==> span(
                (#[trigger] rows[x][y]).colspan,
            ) == 1 && span(rows[x][y].rowspan) == 1,
    ensures
        !with_removed(rows)[r][c].removed_by_extended_table,
{
    assert forall|r0: int, c0: int| !covers(rows, r0, c0, r, c) by {
        if 0 <= r0 < rows.len() && 0 <= c0 < rows[r0].len() {
            assert(span(rows[r0][c0].colspan) == 1);
        }
    }
}

/// Whether the line holds a `|`.
pub open spec fn has_pipe(l: Seq<char>) -> bool {
    run_end(l, 0, l.len() as int, CharClass::IsNot('|')) < l.len()
}

fn holds_pipe(l: &Vec<char>) -> (r: bool)
    ensures
        r == has_pipe(l@),
{
    skip_run(l, 0, l.len(), CharClass::IsNot('|')) < l.len()
}

/// The first line from `k` on that is no row of the table: a blank line
/// or a line without `|`; or the number of lines.
pub open spec fn table_end(lines: Seq<Seq<char>>, k: int) -> int
    decreases lines.len() - k,
{
    if 0 <= k < lines.len() && !is_blank(lines[k]) && has_pipe(lines[k]) {
        table_end(lines, k + 1)
    } else {
        k
    }
}

/// The rows of the table body, from line `k` up to line `e`.
pub open spec fn body_rows(lines: Seq<Seq<char>>, k: int, e: int, columns: int, depth: nat) -> Seq<
    Seq<TableCellModel>,
> {
    Seq::new((e - k) as nat, |r: int| row_of(lines[k + r], columns, depth))
}

/// The table that starts at line `i`, and the line after it. Its first
/// line, which holds a `|`, is the header row; its second line is the
/// delimiter row, with as many cells as the header row. The rows that
/// follow, up to a blank line or a line without `|`, are brought to that
/// number of cells, so that every row has as many cells as there are
/// alignments. Row 0 of the table is the header row.
pub open spec fn table_at(lines: Seq<Seq<char>>, i: int, depth: nat) -> Option<(BlockModel, int)> {
    if 0 <= i && i + 1 < lines.len() && has_pipe(lines[i]) {
        match alignments_of(lines[i + 1]) {
            Some(alignments) => {
                let columns = cells_of(lines[i]).len() as int;
                let e = table_end(lines, i + 2);
                if alignments.len() == columns {
                    Some(
                        (
                            BlockModel::Table {
                                rows: with_removed(
                                    seq![row_of(lines[i], columns, depth)] + body_rows(
                                        lines,
                                        i + 2,
                                        e,
                                        columns,
                                        depth,
                                    ),
                                ),
                                alignments,
                            },
                            e,
                        ),
                    )
                } else {
                    None
                }
            },
            None => None,
        }
    } else {
        None
    }
}

/// Every row of a table that the parser makes has as many cells as the
/// table has alignments, spans or no spans.
pub proof fn lemma_table_is_rectangular(lines: Seq<Seq<char>>, i: int, depth: nat, r: int)
    requires
        table_at(lines, i, depth) is Some,
    ensures
        match table_at(lines, i, depth) {
            Some((BlockModel::Table { rows, alignments }, next)) => 0 <= r < rows.len()
                ==> rows[r].len() == alignments.len(),
            _ => false,
        },
{
    let columns = cells_of(lines[i]).len() as int;
    let e = table_end(lines, i + 2);
    let plain = seq![row_of(lines[i], columns, depth)] + body_rows(lines, i + 2, e, columns, depth);
    if 0 <= r < plain.len() {
        if r > 0 {
            assert(plain[r] == body_rows(lines, i + 2, e, columns, depth)[r - 1]);
        }
        assert(with_removed(plain)[r].len() == plain[r].len());
    }
}

/// Reads the table that starts at line `i`.
pub fn table(lines: &Vec<Vec<char>>, i: usize, depth: usize) -> (r: Option<(Block, usize)>)
    requires
        i < lines.len(),
    ensures
        crate::parser::blocks::leaf::same_block(
            r,
            table_at(lines_model(lines@), i as int, depth as nat),
        ),
        r matches Some((b, n)) ==> i < n <= lines.len(),
{
    if lines.len() - i < 2 || !holds_pipe(&lines[i]) {
        return None;
    }
    match read_alignments(&lines[i + 1]) {
        None => None,
        Some(alignments) => {
            let header_cells = split_cells(&lines[i]);
            let columns = header_cells.len();
            assert(ranges_model(header_cells@).len() == header_cells.len());
            if alignments.len() != columns {
                return None;
            }
            let ghost lm = lines_model(lines@);
            let mut rows: Vec<Vec<TableCell>> = Vec::new();
            rows.push(read_row(&lines[i], columns, depth));
            let mut k = i + 2;
            while k < lines.len() && !blank(&lines[k]) && holds_pipe(&lines[k])
                invariant
                    i + 2 <= k <= lines.len(),
                    lm == lines_model(lines@),
                    table_end(lm, i + 2) == table_end(lm, k as int),
                    rows.len() == k - i - 1,
                    row_model(rows@[0]@) == row_of(lm[i as int], columns as int, depth as nat),
                    forall|m: int|
                        1 <= m < rows.len() ==> row_model(#[trigger] rows@[m]@) == row_of(
                            lm[i + 1 + m],
                            columns as int,
                            depth as nat,
                        ),
                decreases lines.len() - k,
            {
                rows.push(read_row(&lines[k], columns, depth));
                k += 1;
            }
            assert(rows_model(rows@) =~= seq![row_of(lm[i as int], columns as int, depth as nat)]
                + body_rows(lm, i + 2, k as int, columns as int, depth as nat));
            let marked = mark_removed(rows);
            Some((Block::Table(Table { rows: marked, alignments }), k))
        },
    }
}

} // verus!
