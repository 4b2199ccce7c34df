//! Tables in Typst.

use vstd::prelude::*;
use vstd::string::StringExecFns;
use crate::ast::{Alignment, Table, TableCell};
use crate::ast::model::{cell_model, row_model, rows_model, TableCellModel};
use crate::doc::{all_tokens, append, concat, lemma_all_push, nil, text, Doc, Token};
use crate::typst_printer::index::IndexModel;
use crate::typst_printer::inline::{inlines_to_doc, inlines_tokens};
use crate::typst_printer::util::{decimal, text3, word, write_decimal};
use crate::typst_printer::State;

verus! {

/// How an alignment is written.
pub open spec fn alignment_name(a: Alignment) -> Seq<char> {
    match a {
        Alignment::Left => "left + horizon"@,
        Alignment::Center => "center + horizon"@,
        Alignment::Right => "right + horizon"@,
        Alignment::Unset => "auto"@,
    }
}

/// The alignments from `i` on, with `, ` between every two.
pub open spec fn alignment_list(alignments: Seq<Alignment>, i: int) -> Seq<char>
    decreases alignments.len() - i,
{
    if i < 0 || i >= alignments.len() {
        Seq::empty()
    } else {
        (if i > 0 {
            ", "@
        } else {
            Seq::empty()
        }) + alignment_name(alignments[i]) + alignment_list(alignments, i + 1)
    }
}

/// What is written before the brackets of a cell: nothing for a cell
/// without spans, and else `table.cell(..)` with the spans.
pub open spec fn cell_head(colspan: Option<usize>, rowspan: Option<usize>) -> Seq<Token> {
    match (colspan, rowspan) {
        (Some(c), Some(r)) => word(
            "table.cell(colspan: "@ + decimal(c as nat) + ", rowspan: "@ + decimal(r as nat) + ")"@,
        ),
        (Some(c), None) => word("table.cell(colspan: "@ + decimal(c as nat) + ")"@),
        (None, Some(r)) => word("table.cell(rowspan: "@ + decimal(r as nat) + ")"@),
        (None, None) => Seq::empty(),
    }
}

/// The tokens of a cell: its head, and its inlines between brackets, with
/// a comma behind them.
pub open spec fn cell_tokens(cell: TableCellModel, idx: IndexModel, fuel: nat) -> Seq<Token>
    decreases fuel, 1nat, cell, 0nat,
{
    cell_head(cell.colspan, cell.rowspan) + word("["@) + inlines_tokens(
        cell.content,
        0,
        idx,
        fuel,
    ) + word("],"@)
}

/// The tokens of the cells of a row from `c` on, with two spaces between
/// every two. Cells that lie under the span of another are passed over.
/// `first` says that no cell of the row was written yet.
pub open spec fn cells_tokens(
    row: Seq<TableCellModel>,
    c: int,
    first: bool,
    idx: IndexModel,
    fuel: nat,
) -> Seq<Token>
    decreases fuel, 1nat, row, row.len() - c,
{
    if c < 0 || c >= row.len() {
        Seq::empty()
    } else if row[c].removed_by_extended_table {
        cells_tokens(row, c + 1, first, idx, fuel)
    } else {
        (if first {
            Seq::empty()
        } else {
            word("  "@)
        }) + cell_tokens(row[c], idx, fuel) + cells_tokens(row, c + 1, false, idx, fuel)
    }
}

/// The tokens of the rows from `r` on: each row indented by two spaces, on
/// a line of its own.
pub open spec fn rows_tokens(rows: Seq<Seq<TableCellModel>>, r: int, idx: IndexModel, fuel: nat) -> Seq<
    Token,
>
    decreases fuel, 2nat, rows, rows.len() - r,
{
    if r < 0 || r >= rows.len() {
        Seq::empty()
    } else {
        word("  "@) + cells_tokens(rows[r], 0, true, idx, fuel) + word("\n"@) + rows_tokens(
            rows,
            r + 1,
            idx,
            fuel,
        )
    }
}

/// The tokens that a table is written with: a figure that holds a table,
/// with the number of columns, the alignments, and the rows. A table
/// without rows gives nothing.
pub open spec fn table_tokens(
    rows: Seq<Seq<TableCellModel>>,
    alignments: Seq<Alignment>,
    idx: IndexModel,
    fuel: nat,
) -> Seq<Token>
    decreases fuel, 2nat, rows, rows.len() + 1,
{
    if rows.len() == 0 {
        Seq::empty()
    } else {
        word("#figure(table(\n"@) + word(
            "  columns: ("@ + decimal(alignments.len()) + "),\n"@,
        ) + word("  align: ("@ + alignment_list(alignments, 0) + "),\n"@) + rows_tokens(
            rows,
            0,
            idx,
            fuel,
        ) + word("))"@)
    }
}

fn alignment_names(alignments: &Vec<Alignment>) -> (r: String)
    ensures
        r@ == alignment_list(alignments@, 0),
{
    let mut out = String::new();
    let mut i: usize = 0;
    assert(out@ + alignment_list(alignments@, 0) =~= alignment_list(alignments@, 0));
    while i < alignments.len()
        invariant
            i <= alignments.len(),
            out@ + alignment_list(alignments@, i as int) == alignment_list(alignments@, 0),
        decreases alignments.len() - i,
    {
        let ghost before = out@;
        let ghost rest = alignment_list(alignments@, i + 1);
        if i > 0 {
            out.append(", ");
        }
        let ghost gap = if i > 0 {
            ", "@
        } else {
            Seq::<char>::empty()
        };
        assert(out@ =~= before + gap);
        match alignments[i] {
            Alignment::Left => out.append("left + horizon"),
            Alignment::Center => out.append("center + horizon"),
            Alignment::Right => out.append("right + horizon"),
            Alignment::Unset => out.append("auto"),
        }
        assert(out@ + rest =~= before + (gap + alignment_name(alignments@[i as int]) + rest));
        i += 1;
    }
    assert(out@ + Seq::<char>::empty() =~= out@);
    out
}

fn cell_head_doc(colspan: Option<usize>, rowspan: Option<usize>) -> (r: Doc)
    ensures
        r.tokens() == cell_head(colspan, rowspan),
{
    match (colspan, rowspan) {
        (Some(c), Some(r)) => {
            let mut s = String::from_str("table.cell(colspan: ");
            s.append(write_decimal(c).as_str());
            s.append(", rowspan: ");
            s.append(write_decimal(r).as_str());
            s.append(")");
            text(s)
        },
        (Some(c), None) => text3("table.cell(colspan: ", write_decimal(c).as_str(), ")"),
        (None, Some(r)) => text3("table.cell(rowspan: ", write_decimal(r).as_str(), ")"),
        (None, None) => nil(),
    }
}

fn cell_to_doc(cell: &TableCell, state: &State, fuel: usize) -> (r: Doc)
    ensures
        r.tokens() == cell_tokens(cell_model(*cell), state.indices@, fuel as nat),
    decreases fuel, 1nat, cell, 0nat,
{
    let head = cell_head_doc(cell.colspan, cell.rowspan);
    let content = inlines_to_doc(&cell.content, state, fuel);
    append(
        append(append(head, text(String::from_str("["))), content),
        text(String::from_str("],")),
    )
}

fn row_to_doc(row: &Vec<TableCell>, state: &State, fuel: usize) -> (r: Doc)
    ensures
        r.tokens() == cells_tokens(row_model(row@), 0, true, state.indices@, fuel as nat),
    decreases fuel, 1nat, row, 0nat,
{
    let ghost models = row_model(row@);
    let ghost whole = cells_tokens(models, 0, true, state.indices@, fuel as nat);
    let mut parts: Vec<Doc> = Vec::new();
    let mut first = true;
    let mut c: usize = 0;
    assert(all_tokens(parts@) + whole =~= whole);
    while c < row.len()
        invariant
            c <= row.len(),
            models == row_model(row@),
            whole == cells_tokens(models, 0, true, state.indices@, fuel as nat),
            all_tokens(parts@) + cells_tokens(models, c as int, first, state.indices@, fuel as nat)
                == whole,
        decreases row.len() - c,
    {
        assert(models[c as int] == cell_model(row@[c as int]));
        if !row[c].removed_by_extended_table {
            let ghost before = parts@;
            let ghost rest = cells_tokens(models, c + 1, false, state.indices@, fuel as nat);
            if !first {
                let gap_doc = text(String::from_str("  "));
                proof {
                    lemma_all_push(parts@, gap_doc);
                }
                parts.push(gap_doc);
            }
            let ghost gap = if first {
                Seq::<Token>::empty()
            } else {
                word("  "@)
            };
            assert(all_tokens(parts@) =~= all_tokens(before) + gap);
            let ghost mid = parts@;
            let next = cell_to_doc(&row[c], state, fuel);
            parts.push(next);
            proof {
                lemma_all_push(mid, next);
                assert(all_tokens(parts@) + rest =~= all_tokens(before) + (gap + next.tokens()
                    + rest));
            }
            first = false;
        }
        c += 1;
    }
    assert(all_tokens(parts@) + Seq::<Token>::empty() =~= all_tokens(parts@));
    concat(parts)
}

/// The document of a table.
pub fn table_to_doc(table: &Table, state: &State, fuel: usize) -> (r: Doc)
    ensures
        r.tokens() == table_tokens(
            rows_model(table.rows@),
            table.alignments@,
            state.indices@,
            fuel as nat,
        ),
    decreases fuel, 2nat, table, 0nat,
{
    if table.rows.len() == 0 {
        return nil();
    }
    let ghost models = rows_model(table.rows@);
    let ghost whole = rows_tokens(models, 0, state.indices@, fuel as nat);
    let head = append(
        append(
            text(String::from_str("#figure(table(\n")),
            text3("  columns: (", write_decimal(table.alignments.len()).as_str(), "),\n"),
        ),
        text3("  align: (", alignment_names(&table.alignments).as_str(), "),\n"),
    );
    let mut parts: Vec<Doc> = Vec::new();
    let mut r: usize = 0;
    assert(all_tokens(parts@) + whole =~= whole);
    while r < table.rows.len()
        invariant
            r <= table.rows.len(),
            models == rows_model(table.rows@),
            whole == rows_tokens(models, 0, state.indices@, fuel as nat),
            all_tokens(parts@) + rows_tokens(models, r as int, state.indices@, fuel as nat)
                == whole,
        decreases table.rows.len() - r,
    {
        let ghost before = parts@;
        let ghost rest = rows_tokens(models, r + 1, state.indices@, fuel as nat);
        assert(models[r as int] == row_model(table.rows@[r as int]@));
        let cells = row_to_doc(&table.rows[r], state, fuel);
        let ghost piece = cells.tokens();
        let next = append(
            append(text(String::from_str("  ")), cells),
            text(String::from_str("\n")),
        );
        parts.push(next);
        proof {
            lemma_all_push(before, next);
            assert(all_tokens(parts@) + rest =~= all_tokens(before) + (word("  "@) + piece + word(
                "\n"@,
            ) + rest));
        }
        r += 1;
    }
    assert(all_tokens(parts@) + Seq::<Token>::empty() =~= all_tokens(parts@));
    append(append(head, concat(parts)), text(String::from_str("))")))
}

} // verus!
