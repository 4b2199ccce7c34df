use markdown_ppp::ast::convert::{from_generic, to_generic, StripData, WithData};
use markdown_ppp::ast::equal::{inline_equal, inlines_equal};
use markdown_ppp::ast::generic;
use markdown_ppp::ast::{
    Alignment, Block, Document, FootnoteDefinition, GitHubAlert, GitHubAlertType, Heading,
    HeadingKind, Image, ImageAttributes, Inline, Link, LinkDefinition, LinkReference, List,
    ListBulletKind, ListItem, ListKind, Table, TableCell,
};
use markdown_ppp::ast_transform::{
    CompositeTransformer, ExpandWith, Identity, TransformWith, Transformer, VisitWith, Visitor,
};
use markdown_ppp::latex_printer::config::Config;
use markdown_ppp::parser::{parse_markdown, MarkdownParserState};
use markdown_ppp::typst_printer::{get_indices, Indices, State};

fn text(s: &str) -> Inline {
    Inline::Text(s.to_string())
}

fn sample() -> Document {
    parse_markdown(
        MarkdownParserState::default(),
        "# Title *x*\n\ntext [a](b \"c\") ![i](/u){width=1} `code` <br> [r][l] [^f]\n\n> quote\n> - item\n>   1. [x] more\n\n| a {colspan=2} | b |\n|:-:|--|\n| c | d |\n\n[l]: /dest 'T'\n\n[^f]: note\n\n> [!TIP]\n> tip\n\n:::box {k=v}\ninside\n:::\n\n```rs\nfn f() {}\n```\n\n---\n",
    )
    .unwrap()
}

struct Texts(Vec<String>);

impl Visitor for Texts {
    fn visit_block(&mut self, block: &Block) {
        self.walk_block(block);
    }

    fn visit_inline(&mut self, inline: &Inline) {
        self.walk_inline(inline);
    }

    fn visit_text(&mut self, text: &str) {
        self.0.push(text.to_string());
    }
}

struct Shout;

impl Transformer for Shout {
    fn transform_block(&mut self, block: Block) -> Block {
        self.walk_transform_block(block)
    }

    fn transform_inline(&mut self, inline: Inline) -> Inline {
        match inline {
            Inline::Text(t) => Inline::Text(t.to_uppercase()),
            other => self.walk_transform_inline(other),
        }
    }
}

struct Exclaim;

impl Transformer for Exclaim {
    fn transform_block(&mut self, block: Block) -> Block {
        self.walk_transform_block(block)
    }

    fn transform_inline(&mut self, inline: Inline) -> Inline {
        match inline {
            Inline::Text(t) => Inline::Text(format!("{t}!")),
            other => self.walk_transform_inline(other),
        }
    }
}

struct Doubler;

impl Transformer for Doubler {
    fn transform_block(&mut self, block: Block) -> Block {
        self.walk_transform_block(block)
    }

    fn transform_inline(&mut self, inline: Inline) -> Inline {
        self.walk_transform_inline(inline)
    }

    fn expand_inline(&mut self, inline: Inline) -> Vec<Inline> {
        vec![inline.clone(), inline]
    }

    fn expand_block(&mut self, block: Block) -> Vec<Block> {
        vec![block.clone(), block]
    }
}

#[test]
fn identity_transformer_gives_an_equal_tree() {
    let doc = sample();
    let mut identity = CompositeTransformer::new();
    assert_eq!(doc.clone().transform_with(&mut identity), doc);
    for block in &doc.blocks {
        assert_eq!(&block.clone().transform_with(&mut identity), block);
    }
    assert_eq!(
        text("x").transform_with(&mut CompositeTransformer::default()),
        text("x")
    );
}

#[test]
fn identity_transformer_expands_to_the_one_tree() {
    let doc = sample();
    let mut identity = CompositeTransformer::new();
    assert_eq!(doc.clone().expand_with(&mut identity), vec![doc.clone()]);
    for block in &doc.blocks {
        assert_eq!(
            block.clone().expand_with(&mut identity),
            vec![block.clone()]
        );
    }
    assert_eq!(text("x").expand_with(&mut identity), vec![text("x")]);
}

#[test]
fn composite_applies_its_transformers_in_order() {
    let doc = Document {
        blocks: vec![Block::Paragraph(vec![
            text("a"),
            Inline::Emphasis(vec![text("b")]),
        ])],
    };
    let mut first = CompositeTransformer::new()
        .add_transformer(Shout)
        .add_transformer(Exclaim);
    assert_eq!(
        first.transform_document(doc.clone()),
        Document {
            blocks: vec![Block::Paragraph(vec![
                text("A!"),
                Inline::Emphasis(vec![text("B!")]),
            ])],
        }
    );
    let mut second = CompositeTransformer::new()
        .add_transformer(Exclaim)
        .add_transformer(Shout);
    assert_eq!(
        second.transform_inline(text("a")),
        text("A!")
    );
    assert_eq!(
        second.transform_block(Block::Paragraph(vec![text("a")])),
        Block::Paragraph(vec![text("A!")])
    );
}

#[test]
fn default_walk_reaches_every_text() {
    let doc = sample();
    let shouted = doc.clone().transform_with(&mut Shout);
    let mut before = Texts(vec![]);
    doc.visit_with(&mut before);
    let mut after = Texts(vec![]);
    shouted.visit_with(&mut after);
    assert_eq!(
        before.0,
        vec![
            "Title ", "x", "text ", "a", " ", " ", " ", " ", "l", "r", " ", "quote", "item",
            "more", "a", "b", "c", "d", "l", "note", "tip", "inside"
        ]
    );
    assert_eq!(
        after.0,
        before
            .0
            .iter()
            .map(|t| t.to_uppercase())
            .collect::<Vec<_>>()
    );
}

#[test]
fn expanding_walk_lets_hooks_multiply_nodes() {
    let doc = Document {
        blocks: vec![
            Block::Paragraph(vec![text("a"), text("b")]),
            Block::List(List {
                kind: ListKind::Bullet(ListBulletKind::Dash),
                items: vec![ListItem {
                    task: None,
                    blocks: vec![Block::ThematicBreak],
                }],
            }),
        ],
    };
    let out = doc.expand_with(&mut Doubler);
    assert_eq!(
        out,
        vec![Document {
            blocks: vec![
                Block::Paragraph(vec![text("a"), text("b")]),
                Block::List(List {
                    kind: ListKind::Bullet(ListBulletKind::Dash),
                    items: vec![ListItem {
                        task: None,
                        blocks: vec![Block::ThematicBreak, Block::ThematicBreak],
                    }],
                }),
            ],
        }]
    );
    let heading = Heading {
        kind: HeadingKind::Atx(1),
        content: vec![text("h")],
    };
    assert_eq!(
        Doubler.walk_expand_heading(heading),
        vec![Heading {
            kind: HeadingKind::Atx(1),
            content: vec![text("h"), text("h")],
        }]
    );
}

#[test]
fn generic_round_trip() {
    let doc = sample();
    assert_eq!(from_generic(to_generic(doc.clone())), doc);
    let with_numbers: generic::Document<u32> = doc.clone().with_data(7);
    assert_eq!(with_numbers.user_data, 7);
    for block in &with_numbers.blocks {
        match block {
            generic::Block::Paragraph { user_data, .. } => assert_eq!(*user_data, 0),
            generic::Block::Heading(h) => assert_eq!(h.user_data, 0),
            _ => {}
        }
    }
    assert_eq!(with_numbers.strip_data(), doc);
    let defaulted: generic::Document<String> = doc.clone().with_default_data();
    assert_eq!(defaulted.user_data, "");
    assert_eq!(defaulted.strip_data(), doc);
}

#[test]
fn generic_keeps_every_field() {
    let image = Image {
        destination: "/u".to_string(),
        title: Some("t".to_string()),
        alt: "a".to_string(),
        attr: Some(ImageAttributes {
            width: Some("1".to_string()),
            height: None,
        }),
    };
    let g: generic::Image<u8> = image.clone().with_data(3);
    assert_eq!(g.user_data, 3);
    assert_eq!(g.destination, "/u");
    assert_eq!(
        g.attr,
        Some(generic::ImageAttributes {
            width: Some("1".to_string()),
            height: None
        })
    );
    assert_eq!(g.strip_data(), image);
    let kind: generic::ListKind = ListKind::Bullet(ListBulletKind::Star).into();
    assert_eq!(kind, generic::ListKind::Bullet(ListBulletKind::Star));
    let back: ListKind = kind.into();
    assert_eq!(back, ListKind::Bullet(ListBulletKind::Star));
}

#[test]
fn structural_equality_of_inlines() {
    let a = vec![
        text("x"),
        Inline::Link(Link {
            destination: "d".to_string(),
            title: None,
            children: vec![Inline::Emphasis(vec![text("y")])],
        }),
    ];
    let mut b = a.clone();
    assert!(inlines_equal(&a, &b));
    b.push(Inline::Empty);
    assert!(!inlines_equal(&a, &b));
    let c = vec![
        text("x"),
        Inline::Link(Link {
            destination: "d".to_string(),
            title: None,
            children: vec![Inline::Emphasis(vec![text("z")])],
        }),
    ];
    assert!(!inlines_equal(&a, &c));
    assert!(!inline_equal(&text("x"), &Inline::Code("x".to_string())));
    assert!(inline_equal(&Inline::LineBreak, &Inline::LineBreak));
    for doc_inline in [text("x"), Inline::Empty, Inline::Autolink("u".to_string())] {
        assert_eq!(
            inline_equal(&doc_inline, &text("x")),
            doc_inline == text("x")
        );
    }
}

#[test]
fn link_reference_resolution() {
    let doc = Document {
        blocks: vec![
            Block::Definition(LinkDefinition {
                label: vec![text("ex")],
                destination: "https://x".to_string(),
                title: None,
            }),
            Block::Paragraph(vec![
                Inline::LinkReference(LinkReference {
                    label: vec![text("ex")],
                    text: vec![text("shown")],
                }),
                Inline::LinkReference(LinkReference {
                    label: vec![text("missing")],
                    text: vec![text("shown")],
                }),
            ]),
        ],
    };
    let state = State::new(Config::default(), get_indices(&doc));
    let found = state.get_link_definition(&vec![text("ex")]);
    assert_eq!(found.map(|d| d.destination.as_str()), Some("https://x"));
    assert_eq!(state.get_link_definition(&vec![text("missing")]), None);
    assert_eq!(state.get_link_definition(&vec![text("EX")]), None);
    assert_eq!(
        state.get_link_definition(&vec![Inline::Emphasis(vec![text("ex")])]),
        None
    );
    assert_eq!(state.get_link_definition(&vec![]), None);
}

#[test]
fn indices_walk_every_block_that_holds_blocks() {
    let def = |label: &str, dest: &str| {
        Block::Definition(LinkDefinition {
            label: vec![text(label)],
            destination: dest.to_string(),
            title: None,
        })
    };
    let note = |label: &str, body: &str| {
        Block::FootnoteDefinition(FootnoteDefinition {
            label: label.to_string(),
            blocks: vec![Block::Paragraph(vec![text(body)])],
        })
    };
    let doc = Document {
        blocks: vec![
            def("a", "first"),
            Block::BlockQuote(vec![def("q", "in quote"), note("n", "one")]),
            Block::List(List {
                kind: ListKind::Bullet(ListBulletKind::Dash),
                items: vec![
                    ListItem {
                        task: None,
                        blocks: vec![def("l", "in list")],
                    },
                    ListItem {
                        task: None,
                        blocks: vec![def("a", "second")],
                    },
                ],
            }),
            Block::GitHubAlert(GitHubAlert {
                alert_type: GitHubAlertType::Note,
                blocks: vec![note("n", "two")],
            }),
            Block::FootnoteDefinition(FootnoteDefinition {
                label: "outer".to_string(),
                blocks: vec![def("hidden", "in footnote")],
            }),
            Block::Container(markdown_ppp::ast::Container {
                kind: "k".to_string(),
                params: vec![],
                blocks: vec![def("boxed", "in container")],
            }),
        ],
    };
    let indices = get_indices(&doc);
    let dest = |label: &str| {
        indices
            .get_link_definition(&vec![text(label)])
            .map(|d| d.destination.clone())
    };
    assert_eq!(dest("a"), Some("second".to_string()));
    assert_eq!(dest("q"), Some("in quote".to_string()));
    assert_eq!(dest("l"), Some("in list".to_string()));
    assert_eq!(dest("hidden"), Some("in footnote".to_string()));
    assert_eq!(dest("boxed"), Some("in container".to_string()));
    assert_eq!(dest("nowhere"), None);
    assert_eq!(
        indices.get_footnote_definition("n").map(|d| d.blocks.clone()),
        Some(vec![Block::Paragraph(vec![text("two")])])
    );
    assert!(indices.get_footnote_definition("outer").is_some());
    assert!(indices.get_footnote_definition("none").is_none());
}

#[test]
fn indices_of_a_parsed_document() {
    let doc = sample();
    let indices = get_indices(&doc);
    assert_eq!(
        indices
            .get_link_definition(&vec![text("l")])
            .map(|d| (d.destination.clone(), d.title.clone())),
        Some(("/dest".to_string(), Some("T".to_string())))
    );
    assert!(indices.get_footnote_definition("f").is_some());
    let empty = Indices::new();
    assert!(empty.get_footnote_definition("f").is_none());
    assert!(empty.get_link_definition(&vec![text("l")]).is_none());
}

struct Numberer(usize);

impl Transformer for Numberer {
    fn transform_block(&mut self, block: Block) -> Block {
        self.walk_transform_block(block)
    }

    fn transform_inline(&mut self, inline: Inline) -> Inline {
        self.walk_transform_inline(inline)
    }

    fn transform_text(&mut self, _text: String) -> String {
        let n = self.0;
        self.0 += 1;
        n.to_string()
    }
}

fn spanned_cell(s: &str) -> TableCell {
    TableCell {
        content: vec![text(s)],
        colspan: Some(2),
        rowspan: None,
        removed_by_extended_table: false,
    }
}

fn two_by_two(a: &str, b: &str, c: &str, d: &str) -> Block {
    Block::Table(Table {
        rows: vec![
            vec![spanned_cell(a), spanned_cell(b)],
            vec![spanned_cell(c), spanned_cell(d)],
        ],
        alignments: vec![Alignment::Left, Alignment::Unset],
    })
}

#[test]
fn walk_rewrites_children_one_for_one_in_order() {
    let reference = Inline::LinkReference(LinkReference {
        label: vec![text("l"), text("m")],
        text: vec![text("t")],
    });
    assert_eq!(
        Numberer(0).walk_transform_inline(reference),
        Inline::LinkReference(LinkReference {
            label: vec![text("0"), text("1")],
            text: vec![text("2")],
        })
    );
    assert_eq!(
        Numberer(0).walk_transform_block(two_by_two("a", "b", "c", "d")),
        two_by_two("0", "1", "2", "3")
    );
    let link = Link {
        destination: "/d".to_string(),
        title: Some("t".to_string()),
        children: vec![text("x"), Inline::LineBreak, text("y")],
    };
    assert_eq!(
        Numberer(5).walk_transform_link(link),
        Link {
            destination: "/d".to_string(),
            title: Some("t".to_string()),
            children: vec![text("5"), Inline::LineBreak, text("6")],
        }
    );
    let code = Inline::Code("c".to_string());
    assert_eq!(Numberer(0).walk_transform_inline(code.clone()), code);
    assert_eq!(
        Numberer(0).walk_transform_block(Block::HtmlBlock("<p>".to_string())),
        Block::HtmlBlock("<p>".to_string())
    );
}

#[test]
fn composite_hands_each_result_to_the_next() {
    let mut both = CompositeTransformer::new()
        .add_transformer(Numberer(7))
        .add_transformer(Exclaim);
    assert_eq!(both.transform_inline(text("a")), text("7!"));
    assert_eq!(both.transform_inline(text("b")), text("8!"));
    assert_eq!(
        both.transform_document(Document {
            blocks: vec![Block::Paragraph(vec![text("c"), text("d")])],
        }),
        Document {
            blocks: vec![Block::Paragraph(vec![text("9!"), text("10!")])],
        }
    );
}

struct Trace(Vec<String>);

impl Visitor for Trace {
    fn visit_block(&mut self, block: &Block) {
        self.0.push("block".to_string());
        self.walk_block(block);
    }

    fn visit_inline(&mut self, inline: &Inline) {
        self.0.push("inline".to_string());
        self.walk_inline(inline);
    }

    fn visit_table_row(&mut self, row: &Vec<TableCell>) {
        self.0.push("row".to_string());
        self.walk_table_row(row);
    }

    fn visit_table_cell(&mut self, cell: &TableCell) {
        self.0.push("cell".to_string());
        self.walk_table_cell(cell);
    }

    fn visit_text(&mut self, text: &str) {
        self.0.push(text.to_string());
    }
}

#[test]
fn walk_calls_the_hooks_of_the_children_in_order() {
    let mut trace = Trace(vec![]);
    two_by_two("a", "b", "c", "d").visit_with(&mut trace);
    assert_eq!(
        trace.0,
        vec![
            "block", "row", "cell", "inline", "a", "cell", "inline", "b", "row", "cell",
            "inline", "c", "cell", "inline", "d"
        ]
    );
    let mut trace = Trace(vec![]);
    trace.walk_inline(&Inline::LinkReference(LinkReference {
        label: vec![text("l")],
        text: vec![text("t"), Inline::Emphasis(vec![text("e")])],
    }));
    assert_eq!(
        trace.0,
        vec!["inline", "l", "inline", "t", "inline", "inline", "e"]
    );
    let mut trace = Trace(vec![]);
    trace.walk_inline(&Inline::Code("c".to_string()));
    trace.walk_block(&Block::ThematicBreak);
    trace.walk_image(&Image {
        destination: "/i".to_string(),
        title: None,
        alt: "a".to_string(),
        attr: None,
    });
    assert!(trace.0.is_empty());
}

#[test]
fn definition_inside_a_container_is_indexed() {
    let label = vec![text("ex")];
    let doc = Document {
        blocks: vec![Block::Container(markdown_ppp::ast::Container {
            kind: "note".to_string(),
            params: vec![],
            blocks: vec![Block::Definition(LinkDefinition {
                label: label.clone(),
                destination: "https://x".to_string(),
                title: None,
            })],
        })],
    };
    let indices = get_indices(&doc);
    assert_eq!(
        indices
            .get_link_definition(&label)
            .map(|d| d.destination.as_str()),
        Some("https://x")
    );
    assert!(indices.get_link_definition(&vec![text("missing")]).is_none());
}

#[test]
fn with_data_puts_the_default_below_the_top() {
    let inline = Inline::Emphasis(vec![text("a")]);
    assert_eq!(
        inline.with_data(7u32),
        generic::Inline::Emphasis {
            content: vec![generic::Inline::Text {
                content: "a".to_string(),
                user_data: 0,
            }],
            user_data: 7,
        }
    );
    let block = Block::BlockQuote(vec![Block::Paragraph(vec![text("p")])]);
    assert_eq!(
        block.with_data(String::from("top")),
        generic::Block::BlockQuote {
            blocks: vec![generic::Block::Paragraph {
                content: vec![generic::Inline::Text {
                    content: "p".to_string(),
                    user_data: String::new(),
                }],
                user_data: String::new(),
            }],
            user_data: "top".to_string(),
        }
    );
    let heading: generic::Inline<u8> = text("h").with_default_data();
    assert_eq!(
        heading,
        generic::Inline::Text {
            content: "h".to_string(),
            user_data: 0,
        }
    );
}

#[test]
fn added_transformers_are_the_ones_that_run() {
    let mut one = CompositeTransformer::new().add_transformer(Shout);
    assert_eq!(one.transform_inline(text("ab")), text("AB"));
    assert_eq!(
        one.transform_block(Block::Paragraph(vec![text("c")])),
        Block::Paragraph(vec![text("C")])
    );
    let mut two = CompositeTransformer::new()
        .add_transformer(Exclaim)
        .add_transformer(Shout)
        .add_transformer(Exclaim);
    assert_eq!(two.transform_inline(text("a")), text("A!!"));
    assert_eq!(Identity.transform_inline(text("a")), text("a"));
}
