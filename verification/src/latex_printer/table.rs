//! Tables in LaTeX: the column specification, and the documents of the
//! three table styles.
//!
//! The cells come as documents: how an inline is written in LaTeX is not
//! decided here.

use vstd::prelude::*;
use vstd::string::StringExecFns;
use crate::ast::Alignment;
use crate::latex_printer::config::TableStyle;
use crate::doc::{
    all_text, all_well_formed, append, concat, hardline, lemma_all_push, nil, one_line, text, Doc,
};
use crate::latex_printer::util::{environment, environment_text};

verus! {

/// The letter that stands for an alignment in a column specification: `c`
/// for center, `r` for right, `l` for left and for none.
pub open spec fn column_letter(a: Alignment) -> char {
    match a {
        Alignment::Left => 'l',
        Alignment::Unset => 'l',
        Alignment::Center => 'c',
        Alignment::Right => 'r',
    }
}

/// The column specification of a table: one letter for each column.
pub fn create_column_spec(alignments: &[Alignment]) -> (r: String)
    ensures
        r@.len() == alignments.len(),
        forall|k: int| 0 <= k < alignments.len() ==> r@[k] == column_letter(alignments@[k]),
{
    let mut out = String::new();
    let mut k: usize = 0;
    while k < alignments.len()
        invariant
            k <= alignments.len(),
            out@.len() == k,
            forall|j: int| 0 <= j < k ==> out@[j] == column_letter(alignments@[j]),
        decreases alignments.len() - k,
    {
        let c = match alignments[k] {
            Alignment::Left => 'l',
            Alignment::Unset => 'l',
            Alignment::Center => 'c',
            Alignment::Right => 'r',
        };
        out.push(c);
        k += 1;
    }
    out
}

/// What the cells of a row print.
pub open spec fn cell_texts(cells: Seq<Doc>) -> Seq<Seq<char>> {
    Seq::new(cells.len(), |k: int| cells[k].text())
}

/// What the rows of a table print, cell by cell.
pub open spec fn row_texts(rows: Seq<Vec<Doc>>) -> Seq<Seq<Seq<char>>> {
    Seq::new(rows.len(), |k: int| cell_texts(rows[k]@))
}

/// Whether no text in the cells of a row holds a line feed.
pub open spec fn cells_well_formed(cells: Seq<Doc>) -> bool {
    forall|k: int| 0 <= k < cells.len() ==> (#[trigger] cells[k]).well_formed()
}

/// Whether no text in the cells of a table holds a line feed.
pub open spec fn rows_well_formed(rows: Seq<Vec<Doc>>) -> bool {
    forall|k: int| 0 <= k < rows.len() ==> cells_well_formed((#[trigger] rows[k])@)
}

/// The cells up to `n`, with ` & ` between every two.
pub open spec fn cells_text(cells: Seq<Seq<char>>, n: int) -> Seq<char>
    decreases n,
{
    if n <= 0 || n > cells.len() {
        Seq::empty()
    } else if n == 1 {
        cells[0]
    } else {
        cells_text(cells, n - 1) + " & "@ + cells[n - 1]
    }
}

/// What a table row prints: its cells with ` & ` between every two, and
/// ` \\\\` behind them.
pub open spec fn row_text(cells: Seq<Seq<char>>) -> Seq<char> {
    cells_text(cells, cells.len() as int) + " \\\\"@
}

/// The document of a table row.
pub fn render_table_row(row: Vec<Doc>) -> (r: Doc)
    ensures
        r.text() == row_text(cell_texts(row@)),
        cells_well_formed(row@) ==> r.well_formed(),
{
    proof {
        reveal_strlit(" & ");
        reveal_strlit(" \\\\");
    }
    let ghost before = row@;
    let ghost cells = cell_texts(before);
    let mut parts: Vec<Doc> = Vec::new();
    let mut first = true;
    for cell in it: row.into_iter()
        invariant
            it.seq() == before,
            cells == cell_texts(before),
            first == (it.index() == 0),
            all_text(parts@) == cells_text(cells, it.index()),
            cells_well_formed(before) ==> all_well_formed(parts@),
    {
        proof {
            reveal_strlit(" & ");
        }
        assert(cell == before[it.index() as int]);
        assert(cells[it.index() as int] == cell.text());
        let ghost so_far = all_text(parts@);
        if !first {
            let gap = text(String::from_str(" & "));
            proof {
                lemma_all_push(parts@, gap);
            }
            parts.push(gap);
        }
        proof {
            lemma_all_push(parts@, cell);
        }
        parts.push(cell);
        assert(all_text(parts@) =~= cells_text(cells, it.index() + 1)) by {
            if first {
                assert(so_far =~= Seq::<char>::empty());
            }
        }
        first = false;
    }
    append(concat(parts), text(String::from_str(" \\\\")))
}

/// The rows from `i` on, each followed by `after` and a line feed.
pub open spec fn rows_text(rows: Seq<Seq<Seq<char>>>, i: int, after: Seq<char>) -> Seq<char>
    decreases rows.len() - i,
{
    if i < 0 || i >= rows.len() {
        Seq::empty()
    } else {
        row_text(rows[i]) + after + seq!['\n'] + rows_text(rows, i + 1, after)
    }
}

/// What stands inside the environment of a table: `top`, the header row
/// with its `rule` below it, the other rows, each with `after` behind it,
/// and `bottom`. A table without rows has neither header nor rule.
pub open spec fn table_body_text(
    rows: Seq<Seq<Seq<char>>>,
    top: Seq<char>,
    rule: Seq<char>,
    after: Seq<char>,
    bottom: Seq<char>,
) -> Seq<char> {
    top + (if rows.len() > 0 {
        row_text(rows[0]) + seq!['\n'] + rule + seq!['\n']
    } else {
        Seq::empty()
    }) + rows_text(rows, 1, after) + bottom
}

fn render_rows(
    rows: Vec<Vec<Doc>>,
    top: Doc,
    rule: &str,
    after: &str,
) -> (r: Doc)
    requires
        one_line(rule@),
        one_line(after@),
    ensures
        r.text() == table_body_text(
            row_texts(rows@),
            top.text(),
            rule@,
            after@,
            Seq::empty(),
        ),
        rows_well_formed(rows@) && top.well_formed() ==> r.well_formed(),
{
    let ghost before = rows@;
    let ghost texts = row_texts(before);
    let ghost whole = table_body_text(texts, top.text(), rule@, after@, Seq::empty());
    let ghost fine = rows_well_formed(before) && top.well_formed();
    let ghost lead = top.text();
    let mut parts: Vec<Doc> = Vec::new();
    let mut first = true;
    assert(lead + all_text(parts@) + (if texts.len() > 0 {
        row_text(texts[0]) + seq!['\n'] + rule@ + seq!['\n']
    } else {
        Seq::empty()
    }) + rows_text(texts, 1, after@) =~= whole);
    for row in it: rows.into_iter()
        invariant
            it.seq() == before,
            texts == row_texts(before),
            one_line(rule@),
            one_line(after@),
            fine ==> rows_well_formed(before) && all_well_formed(parts@),
            first == (it.index() == 0),
            first ==> lead + all_text(parts@) + (if texts.len() > 0 {
                row_text(texts[0]) + seq!['\n'] + rule@ + seq!['\n']
            } else {
                Seq::empty()
            }) + rows_text(texts, 1, after@) == whole,
            !first ==> lead + all_text(parts@) + rows_text(texts, it.index(), after@) == whole,
    {
        let ghost i = it.index();
        assert(row == before[i]);
        assert(texts[i] == cell_texts(row@));
        assert(fine ==> cells_well_formed(row@));
        let ghost earlier = parts@;
        let ghost so_far = all_text(parts@);
        let line = render_table_row(row);
        if first {
            let next = append(
                append(append(line, hardline()), text(String::from_str(rule))),
                hardline(),
            );
            parts.push(next);
            proof {
                lemma_all_push(earlier, next);
                assert(all_text(parts@) =~= so_far + (row_text(texts[0]) + seq!['\n'] + rule@
                    + seq!['\n']));
                assert(lead + all_text(parts@) + rows_text(texts, 1, after@) =~= lead + so_far + (
                row_text(texts[0]) + seq!['\n'] + rule@ + seq!['\n']) + rows_text(
                    texts,
                    1,
                    after@,
                ));
            }
        } else {
            let next = append(append(line, text(String::from_str(after))), hardline());
            parts.push(next);
            proof {
                lemma_all_push(earlier, next);
                assert(lead + all_text(parts@) + rows_text(texts, i + 1, after@) =~= lead + so_far
                    + (row_text(texts[i]) + after@ + seq!['\n'] + rows_text(
                    texts,
                    i + 1,
                    after@,
                )));
            }
        }
        first = false;
    }
    assert(lead + all_text(parts@) =~= whole) by {
        if first {
            assert(texts.len() == 0);
            assert(rows_text(texts, 1, after@) =~= Seq::<char>::empty());
        } else {
            assert(rows_text(texts, texts.len() as int, after@) =~= Seq::<char>::empty());
        }
    }
    append(top, concat(parts))
}

/// The letters of a column specification.
pub open spec fn column_spec(alignments: Seq<Alignment>) -> Seq<char> {
    Seq::new(alignments.len(), |k: int| column_letter(alignments[k]))
}

/// What a table prints in the plain style: a `tabular` environment whose
/// header row has `\\hline` below it.
pub open spec fn tabular_text(alignments: Seq<Alignment>, rows: Seq<Seq<Seq<char>>>) -> Seq<char> {
    environment_text(
        "tabular"@,
        Some(column_spec(alignments)),
        table_body_text(rows, Seq::empty(), "\\hline"@, Seq::empty(), Seq::empty()),
    )
}

/// What a table prints in the `longtabu` style: every row but the header
/// row has ` \\\\` once more behind it.
pub open spec fn longtabu_text(alignments: Seq<Alignment>, rows: Seq<Seq<Seq<char>>>) -> Seq<char> {
    environment_text(
        "longtabu"@,
        Some("X[l] to \\textwidth {"@ + column_spec(alignments) + "}"@),
        table_body_text(rows, Seq::empty(), "\\\\ \\hline"@, " \\\\"@, Seq::empty()),
    )
}

/// What a table prints in the `booktabs` style: a `tabular` environment
/// with the three rules of the package.
pub open spec fn booktabs_text(alignments: Seq<Alignment>, rows: Seq<Seq<Seq<char>>>) -> Seq<char> {
    environment_text(
        "tabular"@,
        Some(column_spec(alignments)),
        table_body_text(
            rows,
            "\\toprule"@ + seq!['\n'],
            "\\midrule"@,
            Seq::empty(),
            "\\bottomrule"@,
        ),
    )
}

fn column_spec_of(alignments: &Vec<Alignment>) -> (r: String)
    ensures
        r@ == column_spec(alignments@),
        one_line(r@),
{
    let r = create_column_spec(alignments.as_slice());
    assert(r@ =~= column_spec(alignments@));
    r
}

/// The document of a table in the plain style.
pub fn render_tabular(
    alignments: &Vec<Alignment>,
    rows: Vec<Vec<Doc>>,
) -> (r: Doc)
    ensures
        r.text() == tabular_text(alignments@, row_texts(rows@)),
        rows_well_formed(rows@) ==> r.well_formed(),
{
    proof {
        reveal_strlit("tabular");
        reveal_strlit("\\hline");
        reveal_strlit("");
    }
    let spec = column_spec_of(alignments);
    let content = render_rows(rows, nil(), "\\hline", "");
    assert("".view() =~= Seq::<char>::empty());
    environment("tabular", Some(spec.as_str()), content)
}

/// The document of a table in the `longtabu` style.
pub fn render_longtabu(
    alignments: &Vec<Alignment>,
    rows: Vec<Vec<Doc>>,
) -> (r: Doc)
    ensures
        r.text() == longtabu_text(alignments@, row_texts(rows@)),
        rows_well_formed(rows@) ==> r.well_formed(),
{
    proof {
        reveal_strlit("longtabu");
        reveal_strlit("X[l] to \\textwidth {");
        reveal_strlit("}");
        reveal_strlit("\\\\ \\hline");
        reveal_strlit(" \\\\");
    }
    let spec = column_spec_of(alignments);
    let mut options = String::from_str("X[l] to \\textwidth {");
    options.append(spec.as_str());
    options.append("}");
    let content = render_rows(rows, nil(), "\\\\ \\hline", " \\\\");
    environment("longtabu", Some(options.as_str()), content)
}

/// The document of a table in the `booktabs` style.
pub fn render_booktabs(
    alignments: &Vec<Alignment>,
    rows: Vec<Vec<Doc>>,
) -> (r: Doc)
    ensures
        r.text() == booktabs_text(alignments@, row_texts(rows@)),
        rows_well_formed(rows@) ==> r.well_formed(),
{
    proof {
        reveal_strlit("tabular");
        reveal_strlit("\\toprule");
        reveal_strlit("\\midrule");
        reveal_strlit("\\bottomrule");
        reveal_strlit("");
    }
    let spec = column_spec_of(alignments);
    let top = append(text(String::from_str("\\toprule")), hardline());
    let ghost rows_text = row_texts(rows@);
    let body = render_rows(rows, top, "\\midrule", "");
    assert("".view() =~= Seq::<char>::empty());
    let content = append(body, text(String::from_str("\\bottomrule")));
    assert(content.text() =~= table_body_text(
        rows_text,
        "\\toprule"@ + seq!['\n'],
        "\\midrule"@,
        Seq::empty(),
        "\\bottomrule"@,
    ));
    environment("tabular", Some(spec.as_str()), content)
}

/// What a table prints in the given style.
pub open spec fn table_text(
    style: TableStyle,
    alignments: Seq<Alignment>,
    rows: Seq<Seq<Seq<char>>>,
) -> Seq<char> {
    match style {
        TableStyle::Tabular => tabular_text(alignments, rows),
        TableStyle::Longtabu => longtabu_text(alignments, rows),
        TableStyle::Booktabs => booktabs_text(alignments, rows),
    }
}

/// The document of a table in the given style.
pub fn render_table(
    style: TableStyle,
    alignments: &Vec<Alignment>,
    rows: Vec<Vec<Doc>>,
) -> (r: Doc)
    ensures
        r.text() == table_text(style, alignments@, row_texts(rows@)),
        rows_well_formed(rows@) ==> r.well_formed(),
{
    match style {
        TableStyle::Tabular => render_tabular(alignments, rows),
        TableStyle::Longtabu => render_longtabu(alignments, rows),
        TableStyle::Booktabs => render_booktabs(alignments, rows),
    }
}

} // verus!
