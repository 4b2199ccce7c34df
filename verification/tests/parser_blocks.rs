use markdown_ppp::ast::{
    Alignment, Block, CodeBlock, CodeBlockKind, Container, Document, FootnoteDefinition,
    GitHubAlert, GitHubAlertType, Heading, HeadingKind, Inline, LinkDefinition, List,
    ListBulletKind, ListItem, ListKind, ListOrderedKindOptions, SetextHeading, Table, TableCell,
    TaskState,
};
use markdown_ppp::parser::{parse_markdown, MarkdownParserState, ParseError, MAX_NESTING_DEPTH};

fn blocks(text: &str) -> Vec<Block> {
    parse_markdown(MarkdownParserState::default(), text)
        .unwrap()
        .blocks
}

fn text(s: &str) -> Inline {
    Inline::Text(s.to_string())
}

fn para(s: &str) -> Block {
    Block::Paragraph(vec![text(s)])
}

fn plain_cell(s: &str) -> TableCell {
    TableCell {
        content: if s.is_empty() { vec![] } else { vec![text(s)] },
        colspan: None,
        rowspan: None,
        removed_by_extended_table: false,
    }
}

#[test]
fn list_comes_before_emphasis() {
    assert_eq!(
        blocks("* a *"),
        vec![Block::List(List {
            kind: ListKind::Bullet(ListBulletKind::Star),
            items: vec![ListItem {
                task: None,
                blocks: vec![para("a *")]
            }]
        })]
    );
}

#[test]
fn container_with_one_paragraph() {
    assert_eq!(
        blocks(":::note\nHello\n:::\n"),
        vec![Block::Container(Container {
            kind: "note".to_string(),
            params: vec![],
            blocks: vec![para("Hello")],
        })]
    );
}

#[test]
fn container_without_final_newline() {
    assert_eq!(
        blocks(":::note\nHello\n:::"),
        vec![Block::Container(Container {
            kind: "note".to_string(),
            params: vec![],
            blocks: vec![para("Hello")],
        })]
    );
}

#[test]
fn container_with_params() {
    assert_eq!(
        blocks(":::figure {caption=\"A b\" id=fig-1  w_h=x}\n![a](/u)\n\n   :::\nafter"),
        vec![
            Block::Container(Container {
                kind: "figure".to_string(),
                params: vec![
                    ("caption".to_string(), "A b".to_string()),
                    ("id".to_string(), "fig-1".to_string()),
                    ("w_h".to_string(), "x".to_string())
                ],
                blocks: vec![Block::Paragraph(vec![Inline::Image(
                    markdown_ppp::ast::Image {
                        destination: "/u".to_string(),
                        title: None,
                        alt: "a".to_string(),
                        attr: None
                    }
                )])],
            }),
            para("after")
        ]
    );
}

#[test]
fn container_params_directly_behind_kind() {
    assert_eq!(
        blocks(":::k{a=b}\n:::"),
        vec![Block::Container(Container {
            kind: "k".to_string(),
            params: vec![("a".to_string(), "b".to_string())],
            blocks: vec![],
        })]
    );
}

#[test]
fn container_with_trailing_content_is_a_paragraph() {
    assert_eq!(
        blocks(":::note extra\nHello\n:::"),
        vec![para(":::note extra\nHello\n:::")]
    );
    assert_eq!(
        blocks(":::note {a=b} x\nHello\n:::"),
        vec![para(":::note {a=b} x\nHello\n:::")]
    );
}

#[test]
fn container_with_broken_params_is_a_paragraph() {
    assert_eq!(
        blocks(":::note {a=}\nHello\n:::"),
        vec![para(":::note {a=}\nHello\n:::")]
    );
    assert_eq!(
        blocks(":::note {a=\"\"}\nHello\n:::"),
        vec![para(":::note {a=\"\"}\nHello\n:::")]
    );
    assert_eq!(
        blocks(":::note {a=b\nHello\n:::"),
        vec![para(":::note {a=b\nHello\n:::")]
    );
}

#[test]
fn container_without_kind_or_close_is_a_paragraph() {
    assert_eq!(blocks(":::\nHello\n:::"), vec![para(":::\nHello\n:::")]);
    assert_eq!(blocks(":::note\nHello"), vec![para(":::note\nHello")]);
    assert_eq!(
        blocks(":::note\nHello\n::: x"),
        vec![para(":::note\nHello\n::: x")]
    );
}

#[test]
fn container_inside_container_is_not_recognized() {
    assert_eq!(
        blocks(":::outer\n:::inner\nx\n:::\ny\n:::"),
        vec![
            Block::Container(Container {
                kind: "outer".to_string(),
                params: vec![],
                blocks: vec![para(":::inner\nx")],
            }),
            para("y\n:::")
        ]
    );
}

#[test]
fn container_is_refused_by_a_state_inside_a_container() {
    let state = MarkdownParserState::default().derive_child("outer");
    assert_eq!(state.containers, vec!["outer".to_string()]);
    assert_eq!(
        parse_markdown(state, ":::note\nHello\n:::").unwrap(),
        Document {
            blocks: vec![para(":::note\nHello\n:::")]
        }
    );
}

#[test]
fn derive_child_leaves_the_parent_alone() {
    let parent = MarkdownParserState::default();
    let child = parent.derive_child("a");
    let grandchild = child.derive_child("b");
    assert!(parent.containers.is_empty());
    assert_eq!(child.containers, vec!["a".to_string()]);
    assert_eq!(
        grandchild.containers,
        vec!["a".to_string(), "b".to_string()]
    );
    assert!(!parent.in_container());
    assert!(child.in_container());
    assert_eq!(parent.nested().nesting, 1);
    assert_eq!(parent.nesting, 0);
}

#[test]
fn state_nested_too_deep_is_refused() {
    let mut state = MarkdownParserState::default();
    for _ in 0..MAX_NESTING_DEPTH {
        state = state.nested();
    }
    assert!(parse_markdown(state.clone(), "a").is_ok());
    let deeper = state.nested();
    assert_eq!(
        parse_markdown(deeper, "a"),
        Err(ParseError {
            position: 0,
            nesting: MAX_NESTING_DEPTH + 1
        })
    );
}

#[test]
fn state_at_the_limit_reads_everything_as_paragraphs() {
    let mut state = MarkdownParserState::default();
    for _ in 0..MAX_NESTING_DEPTH {
        state = state.nested();
    }
    assert_eq!(
        parse_markdown(state, "> a\n\n- b [c](d)").unwrap(),
        Document {
            blocks: vec![para("> a"), para("- b [c](d)")]
        }
    );
}

#[test]
fn deep_nesting_ends_in_paragraphs() {
    let mut source = String::new();
    for _ in 0..(MAX_NESTING_DEPTH + 5) {
        source.push_str("> ");
    }
    source.push('x');
    let doc = parse_markdown(MarkdownParserState::default(), &source).unwrap();
    let mut depth = 0;
    let mut current = &doc.blocks;
    loop {
        assert_eq!(current.len(), 1);
        match &current[0] {
            Block::BlockQuote(inner) => {
                depth += 1;
                current = inner;
            }
            Block::Paragraph(v) => {
                assert_eq!(v, &vec![text("> > > > > x")]);
                break;
            }
            other => panic!("{other:?}"),
        }
    }
    assert_eq!(depth, MAX_NESTING_DEPTH);
}

#[test]
fn thematic_breaks() {
    assert_eq!(blocks("---"), vec![Block::ThematicBreak]);
    assert_eq!(blocks("  * * *  "), vec![Block::ThematicBreak]);
    assert_eq!(blocks("_____"), vec![Block::ThematicBreak]);
    assert_eq!(blocks("--"), vec![para("--")]);
    assert_eq!(blocks("--- a"), vec![para("--- a")]);
}

#[test]
fn atx_headings() {
    assert_eq!(
        blocks("# One\n###### Six ######\n####### seven"),
        vec![
            Block::Heading(Heading {
                kind: HeadingKind::Atx(1),
                content: vec![text("One")]
            }),
            Block::Heading(Heading {
                kind: HeadingKind::Atx(6),
                content: vec![text("Six")]
            }),
            para("####### seven")
        ]
    );
    assert_eq!(
        blocks("## a *b* #c"),
        vec![Block::Heading(Heading {
            kind: HeadingKind::Atx(2),
            content: vec![text("a "), Inline::Emphasis(vec![text("b")]), text(" #c")]
        })]
    );
    assert_eq!(
        blocks("#"),
        vec![Block::Heading(Heading {
            kind: HeadingKind::Atx(1),
            content: vec![]
        })]
    );
    assert_eq!(blocks("#tag"), vec![para("#tag")]);
}

#[test]
fn setext_headings() {
    assert_eq!(
        blocks("Title\n=====\n\nSub\ntitle\n---\ntext"),
        vec![
            Block::Heading(Heading {
                kind: HeadingKind::Setext(SetextHeading::Level1),
                content: vec![text("Title")]
            }),
            Block::Heading(Heading {
                kind: HeadingKind::Setext(SetextHeading::Level2),
                content: vec![text("Sub\ntitle")]
            }),
            para("text")
        ]
    );
}

#[test]
fn paragraphs_and_blank_lines() {
    assert_eq!(
        blocks("  one\ntwo  \n\n\nthree\r\nfour\r\n"),
        vec![para("one\ntwo"), para("three\nfour")]
    );
}

#[test]
fn paragraph_is_interrupted() {
    assert_eq!(
        blocks("text\n# H\nmore\n> q\nlast\n- item\nend\n```\ncode\n```"),
        vec![
            para("text"),
            Block::Heading(Heading {
                kind: HeadingKind::Atx(1),
                content: vec![text("H")]
            }),
            para("more"),
            Block::BlockQuote(vec![para("q")]),
            para("last"),
            Block::List(List {
                kind: ListKind::Bullet(ListBulletKind::Dash),
                items: vec![ListItem {
                    task: None,
                    blocks: vec![para("item")]
                }]
            }),
            para("end"),
            Block::CodeBlock(CodeBlock {
                kind: CodeBlockKind::Fenced { info: None },
                literal: "code".to_string()
            })
        ]
    );
    assert_eq!(blocks("a\n2. b\n+"), vec![para("a\n2. b\n+")]);
    assert_eq!(
        blocks("a\n2. b\n-"),
        vec![Block::Heading(Heading {
            kind: HeadingKind::Setext(SetextHeading::Level2),
            content: vec![text("a\n2. b")]
        })]
    );
}

#[test]
fn fenced_code() {
    assert_eq!(
        blocks("```rust\nfn main() {}\n\n  x\n```\nafter"),
        vec![
            Block::CodeBlock(CodeBlock {
                kind: CodeBlockKind::Fenced {
                    info: Some("rust".to_string())
                },
                literal: "fn main() {}\n\n  x".to_string()
            }),
            para("after")
        ]
    );
    assert_eq!(
        blocks("  ~~~~ a b \n  in\n ~~~\n    deep\n~~~~~"),
        vec![Block::CodeBlock(CodeBlock {
            kind: CodeBlockKind::Fenced {
                info: Some("a b".to_string())
            },
            literal: "in\n~~~\n  deep".to_string()
        })]
    );
    assert_eq!(
        blocks("```\nopen"),
        vec![Block::CodeBlock(CodeBlock {
            kind: CodeBlockKind::Fenced { info: None },
            literal: "open".to_string()
        })]
    );
    assert_eq!(
        blocks("```"),
        vec![Block::CodeBlock(CodeBlock {
            kind: CodeBlockKind::Fenced { info: None },
            literal: "".to_string()
        })]
    );
}

#[test]
fn indented_code() {
    assert_eq!(
        blocks("    a\n      b\n\n    c\n\nd"),
        vec![
            Block::CodeBlock(CodeBlock {
                kind: CodeBlockKind::Indented,
                literal: "a\n  b\n\nc".to_string()
            }),
            para("d")
        ]
    );
}

#[test]
fn block_quote() {
    assert_eq!(
        blocks("> a\n>b\n> > c\nd"),
        vec![
            Block::BlockQuote(vec![para("a\nb"), Block::BlockQuote(vec![para("c")])]),
            para("d")
        ]
    );
    assert_eq!(blocks(">"), vec![Block::BlockQuote(vec![])]);
}

#[test]
fn bullet_list_with_several_items() {
    assert_eq!(
        blocks("- a\n- b\n\n- c\n+ d"),
        vec![
            Block::List(List {
                kind: ListKind::Bullet(ListBulletKind::Dash),
                items: vec![
                    ListItem {
                        task: None,
                        blocks: vec![para("a")]
                    },
                    ListItem {
                        task: None,
                        blocks: vec![para("b")]
                    },
                    ListItem {
                        task: None,
                        blocks: vec![para("c")]
                    }
                ]
            }),
            Block::List(List {
                kind: ListKind::Bullet(ListBulletKind::Plus),
                items: vec![ListItem {
                    task: None,
                    blocks: vec![para("d")]
                }]
            })
        ]
    );
}

#[test]
fn ordered_list_and_nesting() {
    assert_eq!(
        blocks("7. a\n   more\n\n   next\n   - in\n8. b\n9) c"),
        vec![
            Block::List(List {
                kind: ListKind::Ordered(ListOrderedKindOptions { start: 7 }),
                items: vec![
                    ListItem {
                        task: None,
                        blocks: vec![
                            para("a\nmore"),
                            para("next"),
                            Block::List(List {
                                kind: ListKind::Bullet(ListBulletKind::Dash),
                                items: vec![ListItem {
                                    task: None,
                                    blocks: vec![para("in")]
                                }]
                            })
                        ]
                    },
                    ListItem {
                        task: None,
                        blocks: vec![para("b")]
                    }
                ]
            }),
            Block::List(List {
                kind: ListKind::Ordered(ListOrderedKindOptions { start: 9 }),
                items: vec![ListItem {
                    task: None,
                    blocks: vec![para("c")]
                }]
            })
        ]
    );
    assert_eq!(blocks("1234567890. a"), vec![para("1234567890. a")]);
    assert_eq!(
        blocks("123456789. a"),
        vec![Block::List(List {
            kind: ListKind::Ordered(ListOrderedKindOptions { start: 123456789 }),
            items: vec![ListItem {
                task: None,
                blocks: vec![para("a")]
            }]
        })]
    );
}

#[test]
fn task_list() {
    assert_eq!(
        blocks("- [ ] todo\n- [x] done\n- [X]\n- [y] no\n- [x]no"),
        vec![Block::List(List {
            kind: ListKind::Bullet(ListBulletKind::Dash),
            items: vec![
                ListItem {
                    task: Some(TaskState::Incomplete),
                    blocks: vec![para("todo")]
                },
                ListItem {
                    task: Some(TaskState::Complete),
                    blocks: vec![para("done")]
                },
                ListItem {
                    task: Some(TaskState::Complete),
                    blocks: vec![]
                },
                ListItem {
                    task: None,
                    blocks: vec![Block::Paragraph(vec![
                        Inline::LinkReference(markdown_ppp::ast::LinkReference {
                            label: vec![text("y")],
                            text: vec![text("y")]
                        }),
                        text(" no")
                    ])]
                },
                ListItem {
                    task: None,
                    blocks: vec![Block::Paragraph(vec![
                        Inline::LinkReference(markdown_ppp::ast::LinkReference {
                            label: vec![text("x")],
                            text: vec![text("x")]
                        }),
                        text("no")
                    ])]
                }
            ]
        })]
    );
}

#[test]
fn empty_list_item() {
    assert_eq!(
        blocks("-\n- a"),
        vec![Block::List(List {
            kind: ListKind::Bullet(ListBulletKind::Dash),
            items: vec![
                ListItem {
                    task: None,
                    blocks: vec![]
                },
                ListItem {
                    task: None,
                    blocks: vec![para("a")]
                }
            ]
        })]
    );
}

#[test]
fn link_definition() {
    assert_eq!(
        blocks("[ex]: https://x\n[a *b*]: <u v> \"T\"  \n[c]: /d 'e' f\n[g]:\n\n[^h]: i"),
        vec![
            Block::Definition(LinkDefinition {
                label: vec![text("ex")],
                destination: "https://x".to_string(),
                title: None
            }),
            Block::Definition(LinkDefinition {
                label: vec![text("a "), Inline::Emphasis(vec![text("b")])],
                destination: "u v".to_string(),
                title: Some("T".to_string())
            }),
            Block::Paragraph(vec![
                Inline::LinkReference(markdown_ppp::ast::LinkReference {
                    label: vec![text("c")],
                    text: vec![text("c")]
                }),
                text(": /d 'e' f\n"),
                Inline::LinkReference(markdown_ppp::ast::LinkReference {
                    label: vec![text("g")],
                    text: vec![text("g")]
                }),
                text(":"),
            ]),
            Block::FootnoteDefinition(FootnoteDefinition {
                label: "h".to_string(),
                blocks: vec![para("i")]
            })
        ]
    );
}

#[test]
fn footnote_definition_with_continuation() {
    assert_eq!(
        blocks("[^n]: first\n    more\n\n    - item\nout"),
        vec![
            Block::FootnoteDefinition(FootnoteDefinition {
                label: "n".to_string(),
                blocks: vec![
                    para("first\nmore"),
                    Block::List(List {
                        kind: ListKind::Bullet(ListBulletKind::Dash),
                        items: vec![ListItem {
                            task: None,
                            blocks: vec![para("item")]
                        }]
                    })
                ]
            }),
            para("out")
        ]
    );
}

#[test]
fn github_alerts() {
    assert_eq!(
        blocks("> [!NOTE]\n> Be *careful*.\n\n> [!warning]  \n> w\n\n>[!Hint]\n> h\n\n> [!TIP] x\n> t"),
        vec![
            Block::GitHubAlert(GitHubAlert {
                alert_type: GitHubAlertType::Note,
                blocks: vec![Block::Paragraph(vec![
                    text("Be "),
                    Inline::Emphasis(vec![text("careful")]),
                    text(".")
                ])]
            }),
            Block::GitHubAlert(GitHubAlert {
                alert_type: GitHubAlertType::Warning,
                blocks: vec![para("w")]
            }),
            Block::GitHubAlert(GitHubAlert {
                alert_type: GitHubAlertType::Custom("Hint".to_string()),
                blocks: vec![para("h")]
            }),
            Block::BlockQuote(vec![Block::Paragraph(vec![
                Inline::LinkReference(markdown_ppp::ast::LinkReference {
                    label: vec![text("!TIP")],
                    text: vec![text("!TIP")]
                }),
                text(" x\nt")
            ])])
        ]
    );
    for (word, kind) in [
        ("TIP", GitHubAlertType::Tip),
        ("Important", GitHubAlertType::Important),
        ("caution", GitHubAlertType::Caution),
    ] {
        assert_eq!(
            blocks(&format!("> [!{word}]")),
            vec![Block::GitHubAlert(GitHubAlert {
                alert_type: kind,
                blocks: vec![]
            })]
        );
    }
}

#[test]
fn simple_table() {
    assert_eq!(
        blocks("| a | b |\n|:--|--:|\n| 1 | 2 |\n| 3 |\n| 4 | 5 | 6 |\n\nafter"),
        vec![
            Block::Table(Table {
                rows: vec![
                    vec![plain_cell("a"), plain_cell("b")],
                    vec![plain_cell("1"), plain_cell("2")],
                    vec![plain_cell("3"), plain_cell("")],
                    vec![plain_cell("4"), plain_cell("5")],
                ],
                alignments: vec![Alignment::Left, Alignment::Right]
            }),
            para("after")
        ]
    );
}

#[test]
fn table_alignments_and_bare_rows() {
    assert_eq!(
        blocks("a|b|c|d\n:-:|-|:-|-:\n*x*|`|`|\\||"),
        vec![Block::Table(Table {
            rows: vec![
                vec![
                    plain_cell("a"),
                    plain_cell("b"),
                    plain_cell("c"),
                    plain_cell("d")
                ],
                vec![
                    TableCell {
                        content: vec![Inline::Emphasis(vec![text("x")])],
                        colspan: None,
                        rowspan: None,
                        removed_by_extended_table: false
                    },
                    plain_cell("`"),
                    plain_cell("`"),
                    plain_cell("|")
                ],
            ],
            alignments: vec![
                Alignment::Center,
                Alignment::Unset,
                Alignment::Left,
                Alignment::Right
            ]
        })]
    );
}

#[test]
fn not_a_table() {
    assert_eq!(blocks("| a | b |\n|---|"), vec![para("| a | b |\n|---|")]);
    assert_eq!(
        blocks("| a | b |\n| x | y |"),
        vec![para("| a | b |\n| x | y |")]
    );
    assert_eq!(
        blocks("Title\n---"),
        vec![Block::Heading(Heading {
            kind: HeadingKind::Setext(SetextHeading::Level2),
            content: vec![text("Title")]
        })]
    );
}

#[test]
fn table_with_colspan_and_rowspan() {
    let doc = blocks(
        "| A1 {colspan=2} | x | A3 {rowspan=2} |\n|:--|:-:|--:|\n| B1 | B2 | gone |\n| C1 {colspan=\"3\" rowspan=1} |",
    );
    let table = match &doc[0] {
        Block::Table(t) => t,
        other => panic!("{other:?}"),
    };
    assert_eq!(
        table.alignments,
        vec![Alignment::Left, Alignment::Center, Alignment::Right]
    );
    for row in &table.rows {
        assert_eq!(row.len(), table.alignments.len());
    }
    let removed: Vec<Vec<bool>> = table
        .rows
        .iter()
        .map(|r| r.iter().map(|c| c.removed_by_extended_table).collect())
        .collect();
    assert_eq!(
        removed,
        vec![
            vec![false, true, false],
            vec![false, false, true],
            vec![false, true, true]
        ]
    );
    assert_eq!(table.rows[0][0].content, vec![text("A1")]);
    assert_eq!(table.rows[0][0].colspan, Some(2));
    assert_eq!(table.rows[0][0].rowspan, None);
    assert_eq!(table.rows[0][1].content, vec![text("x")]);
    assert_eq!(table.rows[0][2].rowspan, Some(2));
    assert_eq!(table.rows[0][2].content, vec![text("A3")]);
    assert_eq!(table.rows[1][2].content, vec![text("gone")]);
    assert_eq!(table.rows[2][0].colspan, Some(3));
    assert_eq!(table.rows[2][0].rowspan, Some(1));
}

#[test]
fn table_cell_braces_that_are_no_attributes_stay() {
    let doc = blocks("| a {b} | {colspan=x} | c {colspan=2} d |\n|-|-|-|");
    let table = match &doc[0] {
        Block::Table(t) => t,
        other => panic!("{other:?}"),
    };
    assert_eq!(table.rows[0][0].content, vec![text("a {b}")]);
    assert_eq!(table.rows[0][1].content, vec![]);
    assert_eq!(table.rows[0][1].colspan, None);
    assert_eq!(table.rows[0][2].content, vec![text("c {colspan=2} d")]);
    assert!(table.rows[0].iter().all(|c| !c.removed_by_extended_table));
}

#[test]
fn parse_is_total_on_odd_input() {
    for source in [
        "\u{0}",
        "[[[[[[",
        "]]]]",
        "*_*_*_",
        "```",
        ":::",
        "> - > - > -",
        "|",
        "|\n|",
        "|-",
        "a\r\rb\r\n\r\n",
        "\t\tx",
        "![](",
        "[^]: x",
        "[]: x",
        "<",
        "\\",
        "   ",
        "🦀 *crab* 🦀",
    ] {
        assert!(
            parse_markdown(MarkdownParserState::default(), source).is_ok(),
            "{source:?}"
        );
    }
}
