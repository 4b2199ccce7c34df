use markdown_ppp::ast::{Alignment, Block, Document, Inline, Table, TableCell};
use markdown_ppp::latex_printer::config::{Config, TableStyle};
use markdown_ppp::doc::{append, hardline, nil, render, text, Doc};
use markdown_ppp::latex_printer::table::{
    render_booktabs, render_longtabu, render_table, render_table_row, render_tabular,
};
use markdown_ppp::latex_printer::util::{command, environment, render_doc};

fn t(s: &str) -> Doc {
    text(s.to_string())
}

fn print(doc: &Doc) -> String {
    render_doc(doc, &Config::default())
}

fn cell(content: Vec<Inline>) -> TableCell {
    TableCell {
        content,
        colspan: None,
        rowspan: None,
        removed_by_extended_table: false,
    }
}

/// Renders the tables of a document, each cell as the text that it holds.
fn render_tables(doc: &Document, config: Config) -> String {
    let mut out = String::new();
    for block in &doc.blocks {
        if let Block::Table(table) = block {
            let rows: Vec<Vec<Doc>> = table
                .rows
                .iter()
                .map(|row| {
                    row.iter()
                        .map(|cell| {
                            let mut words = String::new();
                            for inline in &cell.content {
                                if let Inline::Text(t) = inline {
                                    words.push_str(t);
                                }
                            }
                            text(words)
                        })
                        .collect()
                })
                .collect();
            let doc = render_table(config.table_style, &table.alignments, rows);
            out.push_str(&render_doc(&doc, &config));
        }
    }
    out
}

#[test]
fn test_all_table_styles() {
    let doc = Document {
        blocks: vec![Block::Table(Table {
            rows: vec![
                vec![
                    cell(vec![Inline::Text("H1".to_string())]),
                    cell(vec![Inline::Text("H2".to_string())]),
                ],
                vec![
                    cell(vec![Inline::Text("R1C1".to_string())]),
                    cell(vec![Inline::Text("R1C2".to_string())]),
                ],
            ],
            alignments: vec![Alignment::Left, Alignment::Center],
        })],
    };

    // Test Tabular style
    let config_tabular = Config::default().with_table_style(TableStyle::Tabular);
    let result_tabular = render_tables(&doc, config_tabular);
    assert!(result_tabular.contains(r"\begin{tabular}[lc]"));
    assert!(result_tabular.contains(r"\hline"));
    assert!(!result_tabular.contains(r"\toprule"));

    // Test Longtabu style
    let config_longtabu = Config::default().with_table_style(TableStyle::Longtabu);
    let result_longtabu = render_tables(&doc, config_longtabu);
    assert!(result_longtabu.contains(r"\begin{longtabu}"));
    assert!(result_longtabu.contains("X[l] to \\textwidth"));

    // Test Booktabs style
    let config_booktabs = Config::default().with_table_style(TableStyle::Booktabs);
    let result_booktabs = render_tables(&doc, config_booktabs);
    assert!(result_booktabs.contains(r"\toprule"));
    assert!(result_booktabs.contains(r"\midrule"));
    assert!(result_booktabs.contains(r"\bottomrule"));
    assert!(!result_booktabs.contains(r"\hline"));
}

fn small_table() -> Vec<Vec<Doc>> {
    vec![
        vec![t("H1"), t("H2")],
        vec![t("R1C1"), t("R1C2")],
        vec![t("R2C1"), t("R2C2")],
    ]
}

#[test]
fn a_document_prints_its_texts_in_order() {
    let doc = append(append(append(t("a"), hardline()), nil()), append(t("b"), t("c")));
    assert_eq!(print(&doc), "a\nbc");
    assert_eq!(print(&nil()), "");
    assert_eq!(print(&hardline()), "\n");
}

#[test]
fn a_document_prints_the_same_at_every_width() {
    let long = "word ".repeat(40);
    let doc = append(append(t(&long), hardline()), t(&long));
    let expected = format!("{long}\n{long}");
    for width in [0, 1, 10, 80, 1000] {
        assert_eq!(render(&doc, width), expected);
        assert_eq!(
            render_doc(&doc, &Config::default().with_width(width)),
            expected
        );
    }
}

#[test]
fn environment_without_options() {
    let env = environment("quote", None, t("Hello world"));
    assert_eq!(print(&env), "\\begin{quote}\nHello world\n\\end{quote}");
}

#[test]
fn environment_with_options() {
    let env = environment("tabular", Some("lc"), t("Column 1 & Column 2"));
    assert_eq!(
        print(&env),
        "\\begin{tabular}[lc]\nColumn 1 & Column 2\n\\end{tabular}"
    );
    let empty = environment("x", Some(""), nil());
    assert_eq!(print(&empty), "\\begin{x}[]\n\n\\end{x}");
}

#[test]
fn command_without_arguments() {
    let cmd = command("textbf", &[], t("bold text"));
    assert_eq!(print(&cmd), "\\textbf{bold text}");
}

#[test]
fn command_with_arguments() {
    let cmd = command("href", &["target=_blank"], t("https://example.com"));
    assert_eq!(print(&cmd), "\\href[target=_blank]{https://example.com}");
    let cmd = command("x", &["a", "", "c"], nil());
    assert_eq!(print(&cmd), "\\x[a][][c]{}");
}

#[test]
fn table_row() {
    assert_eq!(
        print(&render_table_row(vec![t("a"), t("b"), t("c")])),
        "a & b & c \\\\"
    );
    assert_eq!(print(&render_table_row(vec![t("a")])), "a \\\\");
    assert_eq!(print(&render_table_row(vec![])), " \\\\");
}

#[test]
fn table_in_the_plain_style() {
    let doc = render_tabular(&vec![Alignment::Left, Alignment::Center], small_table());
    assert_eq!(
        print(&doc),
        "\\begin{tabular}[lc]\nH1 & H2 \\\\\n\\hline\nR1C1 & R1C2 \\\\\nR2C1 & R2C2 \\\\\n\n\\end{tabular}"
    );
}

#[test]
fn table_in_the_longtabu_style() {
    let doc = render_longtabu(&vec![Alignment::Left, Alignment::Center], small_table());
    assert_eq!(
        print(&doc),
        "\\begin{longtabu}[X[l] to \\textwidth {lc}]\nH1 & H2 \\\\\n\\\\ \\hline\nR1C1 & R1C2 \\\\ \\\\\nR2C1 & R2C2 \\\\ \\\\\n\n\\end{longtabu}"
    );
}

#[test]
fn table_in_the_booktabs_style() {
    let doc = render_booktabs(&vec![Alignment::Right, Alignment::Unset], small_table());
    assert_eq!(
        print(&doc),
        "\\begin{tabular}[rl]\n\\toprule\nH1 & H2 \\\\\n\\midrule\nR1C1 & R1C2 \\\\\nR2C1 & R2C2 \\\\\n\\bottomrule\n\\end{tabular}"
    );
}

#[test]
fn table_without_rows() {
    assert_eq!(
        print(&render_tabular(&vec![], vec![])),
        "\\begin{tabular}[]\n\n\\end{tabular}"
    );
    assert_eq!(
        print(&render_booktabs(&vec![Alignment::Left], vec![])),
        "\\begin{tabular}[l]\n\\toprule\n\\bottomrule\n\\end{tabular}"
    );
}

#[test]
fn table_style_picks_the_renderer() {
    let alignments = vec![Alignment::Left, Alignment::Center];
    assert_eq!(
        print(&render_table(TableStyle::Tabular, &alignments, small_table())),
        print(&render_tabular(&alignments, small_table()))
    );
    assert_eq!(
        print(&render_table(TableStyle::Longtabu, &alignments, small_table())),
        print(&render_longtabu(&alignments, small_table()))
    );
    assert_eq!(
        print(&render_table(TableStyle::Booktabs, &alignments, small_table())),
        print(&render_booktabs(&alignments, small_table()))
    );
    let tabular = print(&render_table(TableStyle::Tabular, &alignments, small_table()));
    assert!(tabular.contains(r"\begin{tabular}[lc]"));
    assert!(tabular.contains(r"\hline"));
    assert!(!tabular.contains(r"\toprule"));
    let longtabu = print(&render_table(TableStyle::Longtabu, &alignments, small_table()));
    assert!(longtabu.contains(r"\begin{longtabu}"));
    assert!(longtabu.contains("X[l] to \\textwidth"));
    let booktabs = print(&render_table(TableStyle::Booktabs, &alignments, small_table()));
    assert!(booktabs.contains(r"\toprule"));
    assert!(booktabs.contains(r"\midrule"));
    assert!(booktabs.contains(r"\bottomrule"));
    assert!(!booktabs.contains(r"\hline"));
}
