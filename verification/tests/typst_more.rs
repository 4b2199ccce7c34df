use markdown_ppp::ast::{
    Alignment, Block, CodeBlock, CodeBlockKind, Container, Document, FootnoteDefinition,
    GitHubAlert, GitHubAlertType, Inline, LinkDefinition, LinkReference, List, ListBulletKind,
    ListItem, ListKind, Table, TableCell,
};
use markdown_ppp::doc::{append, group, line_or_space, nil, render, text, Doc};
use markdown_ppp::latex_printer::config::Config;
use markdown_ppp::parser::{parse_markdown, MarkdownParserState};
use markdown_ppp::typst_printer::util::{body, escape_quoted, escape_typst, write_decimal};
use markdown_ppp::typst_printer::render_typst;

fn t(s: &str) -> Inline {
    Inline::Text(s.to_string())
}

fn para(s: &str) -> Block {
    Block::Paragraph(vec![t(s)])
}

fn typst(blocks: Vec<Block>) -> String {
    render_typst(&Document { blocks }, Config::default())
}

#[test]
fn typst_escaping_of_every_special_character() {
    assert_eq!(escape_typst("a\\b\"c*d_e\tf\ng\rh"), "a\\\\b\\\"c\\*d\\_e\\tf\\ng\\rh");
    assert_eq!(escape_typst("#$[]<>&%é"), "#$[]<>&%é");
    assert_eq!(escape_typst(""), "");
    assert_eq!(escape_quoted("a\\b\"c*d_e\n"), "a\\\\b\\\"c*d_e\n");
}

#[test]
fn decimal_numbers() {
    assert_eq!(write_decimal(0), "0");
    assert_eq!(write_decimal(7), "7");
    assert_eq!(write_decimal(10), "10");
    assert_eq!(write_decimal(1234567890), "1234567890");
    assert_eq!(write_decimal(usize::MAX), usize::MAX.to_string());
}

#[test]
fn function_calls() {
    let doc = |s: &str| text(s.to_string());
    assert_eq!(render(&body("f", None, None), 80), "#f");
    assert_eq!(render(&body("f", Some(doc("a")), None), 80), "#f(a)");
    assert_eq!(render(&body("f", None, Some(doc("c"))), 80), "#f[c]");
    assert_eq!(render(&body("f", Some(nil()), Some(nil())), 80), "#f()[]");
}

#[test]
fn lines_of_a_group_break_together() {
    let words = |n: usize| -> Doc {
        let mut doc = text("w".to_string());
        for _ in 1..n {
            doc = append(append(doc, line_or_space()), text("w".to_string()));
        }
        group(doc)
    };
    assert_eq!(render(&words(3), 80), "w w w");
    assert_eq!(render(&words(3), 4), "w\nw\nw");
    assert_eq!(render(&words(1), 0), "w");
    let ungrouped = append(append(text("a".to_string()), line_or_space()), text("b".to_string()));
    assert_eq!(render(&ungrouped, 80), "a\nb");
}

#[test]
fn table_cell_with_both_spans_and_unset_alignment() {
    let cell = |s: &str, colspan, rowspan, removed| TableCell {
        content: if s.is_empty() { vec![] } else { vec![t(s)] },
        colspan,
        rowspan,
        removed_by_extended_table: removed,
    };
    let out = typst(vec![Block::Table(Table {
        rows: vec![
            vec![
                cell("a", Some(2), Some(2), false),
                cell("", None, None, true),
            ],
            vec![cell("", None, None, true), cell("", None, None, true)],
        ],
        alignments: vec![Alignment::Unset, Alignment::Center],
    })]);
    assert_eq!(
        out,
        "#figure(table(\n  columns: (2),\n  align: (auto, center + horizon),\n  table.cell(colspan: 2, rowspan: 2)[#\"a\"],\n  \n))"
    );
}

#[test]
fn containers() {
    let figure = |params: Vec<(&str, &str)>, blocks: Vec<Block>| {
        Block::Container(Container {
            kind: "figure".to_string(),
            params: params
                .into_iter()
                .map(|(k, v)| (k.to_string(), v.to_string()))
                .collect(),
            blocks,
        })
    };
    assert_eq!(
        typst(vec![figure(
            vec![("id", "x"), ("caption", "One"), ("caption", "Two")],
            vec![para("a"), Block::ThematicBreak]
        )]),
        "#figure(caption: [One])[#\"a\"#thematic-break]"
    );
    assert_eq!(typst(vec![figure(vec![], vec![])]), "#figure[]");
    assert_eq!(
        typst(vec![Block::Container(Container {
            kind: "note".to_string(),
            params: vec![("caption".to_string(), "c".to_string())],
            blocks: vec![para("a"), para("b")],
        })]),
        "#par[#\"a\"]\n\n#par[#\"b\"]"
    );
}

#[test]
fn references_are_resolved_against_the_document() {
    let reference = |label: &str| {
        Inline::LinkReference(LinkReference {
            label: vec![t(label)],
            text: vec![t("shown")],
        })
    };
    let out = typst(vec![
        Block::Paragraph(vec![reference("a"), reference("b")]),
        Block::BlockQuote(vec![Block::Definition(LinkDefinition {
            label: vec![t("a")],
            destination: "https://x/_y".to_string(),
            title: Some("T".to_string()),
        })]),
    ]);
    assert_eq!(
        out,
        "#par[#link(\"https://x/\\_y\", title: \"T\")[#\"shown\"]#\"shown\"]\n\n#quote(block: true)[]"
    );
}

#[test]
fn footnotes_inside_footnotes_end_somewhere() {
    let doc = Document {
        blocks: vec![
            Block::Paragraph(vec![Inline::FootnoteReference("n".to_string())]),
            Block::FootnoteDefinition(FootnoteDefinition {
                label: "n".to_string(),
                blocks: vec![Block::Paragraph(vec![
                    t("x"),
                    Inline::FootnoteReference("n".to_string()),
                ])],
            }),
        ],
    };
    let out = render_typst(&doc, Config::default());
    assert_eq!(out.matches("#footnote[").count(), 1);
    assert_eq!(out.matches("[^n]").count(), 1);
    assert!(out.starts_with("#par[#footnote[#par[#\"x\"[^n]]]"));
}

#[test]
fn footnotes_inside_footnotes_are_all_written() {
    let mut blocks = vec![Block::Paragraph(vec![Inline::FootnoteReference(
        "n1".to_string(),
    )])];
    for k in 1..=6 {
        let mut body = vec![t("x")];
        if k < 6 {
            body.push(Inline::FootnoteReference(format!("n{}", k + 1)));
        }
        blocks.push(Block::FootnoteDefinition(FootnoteDefinition {
            label: format!("n{k}"),
            blocks: vec![Block::Paragraph(body)],
        }));
    }
    let out = render_typst(&Document { blocks }, Config::default());
    assert_eq!(out.matches("#footnote[").count(), 6);
    assert_eq!(out.matches("[^").count(), 0);
}

#[test]
fn list_item_with_several_blocks_depends_on_the_width() {
    let doc = Document {
        blocks: vec![Block::List(List {
            kind: ListKind::Bullet(ListBulletKind::Dash),
            items: vec![ListItem {
                task: None,
                blocks: vec![para("a"), Block::ThematicBreak],
            }],
        })],
    };
    assert_eq!(
        render_typst(&doc, Config::default()),
        "#list(\n  [#\"a\" #thematic-break],\n)"
    );
    assert_eq!(
        render_typst(&doc, Config::default().with_width(10)),
        "#list(\n  [#\"a\"\n#thematic-break],\n)"
    );
}

#[test]
fn alert_with_custom_title() {
    let out = typst(vec![Block::GitHubAlert(GitHubAlert {
        alert_type: GitHubAlertType::Custom("Hint".to_string()),
        blocks: vec![],
    })]);
    assert!(out.ends_with("[*Hint*], \n[]))"), "{out}");
}

#[test]
fn code_block_without_language() {
    assert_eq!(
        typst(vec![Block::CodeBlock(CodeBlock {
            kind: CodeBlockKind::Indented,
            literal: "x".to_string()
        })]),
        "#raw(block: true, \"x\")"
    );
    assert_eq!(
        typst(vec![Block::CodeBlock(CodeBlock {
            kind: CodeBlockKind::Fenced {
                info: Some(String::new())
            },
            literal: "x".to_string()
        })]),
        "#raw(block: true, \"x\")"
    );
}

#[test]
fn parsed_document_to_typst() {
    let doc = parse_markdown(
        MarkdownParserState::default(),
        "# T\n\nsee *this* and [that][r].\n\n[r]: /u\n",
    )
    .unwrap();
    assert_eq!(
        render_typst(&doc, Config::default()),
        "#heading(level: 1, [#\"T\"])\n\n#par[#\"see \"#emph[#\"this\"]#\" and \"#link(\"/u\")[#\"that\"]#\".\"]\n\n"
    );
}
