use markdown_ppp::ast::{
    Block, Document, Image, ImageAttributes, Inline, Link, LinkReference,
};
use markdown_ppp::parser::{parse_markdown, MarkdownParserState};

fn inlines(text: &str) -> Vec<Inline> {
    let doc = parse_markdown(MarkdownParserState::default(), text).unwrap();
    assert_eq!(doc.blocks.len(), 1, "{doc:?}");
    match doc.blocks.into_iter().next().unwrap() {
        Block::Paragraph(v) => v,
        other => panic!("expected a paragraph, got {other:?}"),
    }
}

fn text(s: &str) -> Inline {
    Inline::Text(s.to_string())
}

#[test]
fn plain_text_is_one_run() {
    assert_eq!(inlines("just some words."), vec![text("just some words.")]);
}

#[test]
fn underscore_inside_a_word_is_text() {
    assert_eq!(inlines("PKG_CONFIG_PATH"), vec![text("PKG_CONFIG_PATH")]);
    assert_eq!(
        inlines("_already_"),
        vec![Inline::Emphasis(vec![text("already")])]
    );
}

#[test]
fn asterisk_inside_a_word_is_emphasis() {
    assert_eq!(
        inlines("un*frigging*believable"),
        vec![
            text("un"),
            Inline::Emphasis(vec![text("frigging")]),
            text("believable")
        ]
    );
}

#[test]
fn strong_then_text() {
    assert_eq!(
        inlines("**foo**bar"),
        vec![Inline::Strong(vec![text("foo")]), text("bar")]
    );
}

#[test]
fn nested_delimiters() {
    assert_eq!(
        inlines("foo ___bar___"),
        vec![
            text("foo "),
            Inline::Strong(vec![Inline::Emphasis(vec![text("bar")])])
        ]
    );
}

#[test]
fn unmatched_delimiters_are_text() {
    assert_eq!(inlines("a * b"), vec![text("a * b")]);
    assert_eq!(inlines("**open"), vec![text("**open")]);
    assert_eq!(inlines("close**"), vec![text("close**")]);
}

#[test]
fn uneven_runs_leave_the_rest_as_text() {
    assert_eq!(
        inlines("***foo**"),
        vec![text("*"), Inline::Strong(vec![text("foo")])]
    );
    assert_eq!(
        inlines("**foo***"),
        vec![Inline::Strong(vec![text("foo")]), text("*")]
    );
    assert_eq!(
        inlines("*foo***"),
        vec![Inline::Emphasis(vec![text("foo")]), text("**")]
    );
}

#[test]
fn emphasis_inside_strong() {
    assert_eq!(
        inlines("**a *b* c**"),
        vec![Inline::Strong(vec![
            text("a "),
            Inline::Emphasis(vec![text("b")]),
            text(" c")
        ])]
    );
}

#[test]
fn code_span() {
    assert_eq!(
        inlines("use `println!()` here"),
        vec![
            text("use "),
            Inline::Code("println!()".to_string()),
            text(" here")
        ]
    );
}

#[test]
fn code_span_with_longer_fence() {
    assert_eq!(
        inlines("`` a ` b ``"),
        vec![Inline::Code("a ` b".to_string())]
    );
}

#[test]
fn code_span_keeps_delimiters_inside() {
    assert_eq!(inlines("`*a*`"), vec![Inline::Code("*a*".to_string())]);
}

#[test]
fn backticks_without_a_partner_are_text() {
    assert_eq!(inlines("a `` b ` c"), vec![text("a `` b ` c")]);
}

#[test]
fn code_span_of_spaces_keeps_them() {
    assert_eq!(inlines("`  `"), vec![Inline::Code("  ".to_string())]);
}

#[test]
fn raw_html_tags() {
    assert_eq!(
        inlines("a <em>b</em> c"),
        vec![
            text("a "),
            Inline::Html("<em>".to_string()),
            text("b"),
            Inline::Html("</em>".to_string()),
            text(" c")
        ]
    );
    assert_eq!(
        inlines("<a href=\"x\">"),
        vec![Inline::Html("<a href=\"x\">".to_string())]
    );
    assert_eq!(inlines("<br/>"), vec![Inline::Html("<br/>".to_string())]);
}

#[test]
fn html_comment() {
    assert_eq!(
        inlines("a <!-- b *c* --> d"),
        vec![
            text("a "),
            Inline::Html("<!-- b *c* -->".to_string()),
            text(" d")
        ]
    );
    assert_eq!(inlines("<!---->"), vec![Inline::Html("<!---->".to_string())]);
    assert_eq!(inlines("<!-- open"), vec![text("<!-- open")]);
    assert_eq!(inlines("<!--->"), vec![text("<!--->")]);
}

#[test]
fn lone_angle_bracket_is_text() {
    assert_eq!(inlines("1 < 2 and 3 > 2"), vec![text("1 < 2 and 3 > 2")]);
    assert_eq!(inlines("<3"), vec![text("<3")]);
}

#[test]
fn autolink_in_angle_brackets() {
    assert_eq!(
        inlines("see <https://example.com/a?b=c>"),
        vec![
            text("see "),
            Inline::Autolink("https://example.com/a?b=c".to_string())
        ]
    );
    assert_eq!(
        inlines("<mailto:me@example.com>"),
        vec![Inline::Autolink("mailto:me@example.com".to_string())]
    );
}

#[test]
fn autolink_needs_a_scheme_and_no_space() {
    assert_eq!(
        inlines("<https://a b>"),
        vec![text("<https://a b>")]
    );
    assert_eq!(inlines("<a:b>"), vec![text("<a:b>")]);
}

#[test]
fn hard_break_by_two_spaces() {
    assert_eq!(
        inlines("one  \ntwo"),
        vec![text("one"), Inline::LineBreak, text("two")]
    );
}

#[test]
fn hard_break_by_backslash() {
    assert_eq!(
        inlines("one\\\ntwo"),
        vec![text("one"), Inline::LineBreak, text("two")]
    );
}

#[test]
fn soft_break_stays_in_the_text() {
    assert_eq!(inlines("one\ntwo"), vec![text("one\ntwo")]);
    assert_eq!(inlines("one \ntwo"), vec![text("one \ntwo")]);
}

#[test]
fn backslash_escapes_punctuation() {
    assert_eq!(inlines("\\*not\\*"), vec![text("*not*")]);
    assert_eq!(inlines("a\\b"), vec![text("a\\b")]);
    assert_eq!(inlines("end\\"), vec![text("end\\")]);
    assert_eq!(inlines("\\[x\\]"), vec![text("[x]")]);
}

#[test]
fn link_with_destination() {
    assert_eq!(
        inlines("[text](http://x.y)"),
        vec![Inline::Link(Link {
            destination: "http://x.y".to_string(),
            title: None,
            children: vec![text("text")],
        })]
    );
}

#[test]
fn link_with_title_and_nested_emphasis() {
    assert_eq!(
        inlines("[a *b*](/u \"T t\")"),
        vec![Inline::Link(Link {
            destination: "/u".to_string(),
            title: Some("T t".to_string()),
            children: vec![text("a "), Inline::Emphasis(vec![text("b")])],
        })]
    );
    assert_eq!(
        inlines("[a](/u 'T')"),
        vec![Inline::Link(Link {
            destination: "/u".to_string(),
            title: Some("T".to_string()),
            children: vec![text("a")],
        })]
    );
    assert_eq!(
        inlines("[a](/u (T))"),
        vec![Inline::Link(Link {
            destination: "/u".to_string(),
            title: Some("T".to_string()),
            children: vec![text("a")],
        })]
    );
}

#[test]
fn link_destination_in_angle_brackets_and_with_parentheses() {
    assert_eq!(
        inlines("[a](<b c>)"),
        vec![Inline::Link(Link {
            destination: "b c".to_string(),
            title: None,
            children: vec![text("a")],
        })]
    );
    assert_eq!(
        inlines("[a](x_(y)_z)"),
        vec![Inline::Link(Link {
            destination: "x_(y)_z".to_string(),
            title: None,
            children: vec![text("a")],
        })]
    );
    assert_eq!(
        inlines("[a]()"),
        vec![Inline::Link(Link {
            destination: "".to_string(),
            title: None,
            children: vec![text("a")],
        })]
    );
}

#[test]
fn link_reference_forms() {
    assert_eq!(
        inlines("[text][label]"),
        vec![Inline::LinkReference(LinkReference {
            label: vec![text("label")],
            text: vec![text("text")],
        })]
    );
    assert_eq!(
        inlines("[both][]"),
        vec![Inline::LinkReference(LinkReference {
            label: vec![text("both")],
            text: vec![text("both")],
        })]
    );
    assert_eq!(
        inlines("see [short] ok"),
        vec![
            text("see "),
            Inline::LinkReference(LinkReference {
                label: vec![text("short")],
                text: vec![text("short")],
            }),
            text(" ok")
        ]
    );
}

#[test]
fn reference_labels_hold_no_brackets() {
    let reference = |label: &str, shown: Vec<Inline>| {
        Inline::LinkReference(LinkReference {
            label: vec![text(label)],
            text: shown,
        })
    };
    assert_eq!(
        inlines("[a [b] c]"),
        vec![
            text("[a "),
            reference("b", vec![text("b")]),
            text(" c]")
        ]
    );
    assert_eq!(
        inlines("[a [b] c][l]"),
        vec![reference(
            "l",
            vec![text("a "), reference("b", vec![text("b")]), text(" c")]
        )]
    );
    assert_eq!(
        inlines("[a][b [c]]"),
        vec![
            reference("a", vec![text("a")]),
            text("[b "),
            reference("c", vec![text("c")]),
            text("]")
        ]
    );
    assert_eq!(
        inlines("[a][]b"),
        vec![reference("a", vec![text("a")]), text("b")]
    );
}

#[test]
fn empty_brackets_are_text() {
    assert_eq!(inlines("a [] b"), vec![text("a [] b")]);
    assert_eq!(inlines("a [ ] b"), vec![text("a [ ] b")]);
    assert_eq!(inlines("a [b"), vec![text("a [b")]);
}

#[test]
fn footnote_reference() {
    assert_eq!(
        inlines("text[^note1]."),
        vec![
            text("text"),
            Inline::FootnoteReference("note1".to_string()),
            text(".")
        ]
    );
}

#[test]
fn strikethrough() {
    assert_eq!(
        inlines("a ~~b *c*~~ d"),
        vec![
            text("a "),
            Inline::Strikethrough(vec![text("b "), Inline::Emphasis(vec![text("c")])]),
            text(" d")
        ]
    );
    assert_eq!(inlines("a ~~~~ b"), vec![text("a ~~~~ b")]);
    assert_eq!(inlines("a ~~b"), vec![text("a ~~b")]);
    assert_eq!(inlines("a ~b~"), vec![text("a ~b~")]);
}

#[test]
fn image_plain() {
    assert_eq!(
        inlines("![alt text](/url \"title\")"),
        vec![Inline::Image(Image {
            destination: "/url".to_string(),
            title: Some("title".to_string()),
            alt: "alt text".to_string(),
            attr: None,
        })]
    );
}

#[test]
fn image_with_empty_attribute_block() {
    assert_eq!(
        inlines("![a](/u){}"),
        vec![Inline::Image(Image {
            destination: "/u".to_string(),
            title: None,
            alt: "a".to_string(),
            attr: Some(ImageAttributes {
                width: None,
                height: None
            }),
        })]
    );
}

#[test]
fn image_attributes_last_one_wins_and_others_are_passed_over() {
    assert_eq!(
        inlines("![a](/u){ width=1 class=x width=\"2 px\" }"),
        vec![Inline::Image(Image {
            destination: "/u".to_string(),
            title: None,
            alt: "a".to_string(),
            attr: Some(ImageAttributes {
                width: Some("2 px".to_string()),
                height: None
            }),
        })]
    );
}

#[test]
fn image_with_broken_attribute_block_has_none() {
    assert_eq!(
        inlines("![a](/u){width=}"),
        vec![
            Inline::Image(Image {
                destination: "/u".to_string(),
                title: None,
                alt: "a".to_string(),
                attr: None,
            }),
            text("{width=}")
        ]
    );
}

#[test]
fn image_attribute_values_are_words_or_quoted() {
    assert_eq!(
        inlines("![a](/u){width=50% height=2}"),
        vec![
            Inline::Image(Image {
                destination: "/u".to_string(),
                title: None,
                alt: "a".to_string(),
                attr: None,
            }),
            text("{width=50% height=2}")
        ]
    );
    assert_eq!(
        inlines("![a](/u){width=\"50%\" height=a-b_c}"),
        vec![Inline::Image(Image {
            destination: "/u".to_string(),
            title: None,
            alt: "a".to_string(),
            attr: Some(ImageAttributes {
                width: Some("50%".to_string()),
                height: Some("a-b_c".to_string())
            }),
        })]
    );
}

#[test]
fn image_without_tail_is_text() {
    assert_eq!(
        inlines("![a] b"),
        vec![
            text("!"),
            Inline::LinkReference(LinkReference {
                label: vec![text("a")],
                text: vec![text("a")],
            }),
            text(" b")
        ]
    );
    assert_eq!(inlines("wow!"), vec![text("wow!")]);
}

#[test]
fn document_of_nothing_has_no_blocks() {
    assert_eq!(
        parse_markdown(MarkdownParserState::default(), "").unwrap(),
        Document { blocks: vec![] }
    );
    assert_eq!(
        parse_markdown(MarkdownParserState::default(), "\n  \n\t\n").unwrap(),
        Document { blocks: vec![] }
    );
}

#[test]
fn bare_addresses() {
    assert_eq!(
        inlines("see https://example.com/a_b?c=d, or www.x.org."),
        vec![
            text("see "),
            Inline::Autolink("https://example.com/a_b?c=d".to_string()),
            text(", or "),
            Inline::Autolink("www.x.org".to_string()),
            text(".")
        ]
    );
    assert_eq!(
        inlines("http://a.b"),
        vec![Inline::Autolink("http://a.b".to_string())]
    );
    assert_eq!(
        inlines("(http://a.b/c) *http://d.e*"),
        vec![
            text("("),
            Inline::Autolink("http://a.b/c)".to_string()),
            text(" "),
            Inline::Emphasis(vec![Inline::Autolink("http://d.e".to_string())])
        ]
    );
}

#[test]
fn not_a_bare_address() {
    assert_eq!(inlines("xhttp://a.b"), vec![text("xhttp://a.b")]);
    assert_eq!(inlines("http://"), vec![text("http://")]);
    assert_eq!(inlines("https://..."), vec![text("https://...")]);
    assert_eq!(inlines("www. x"), vec![text("www. x")]);
    assert_eq!(inlines("how what http"), vec![text("how what http")]);
}
