use markdown_ppp::ast::{Block, Document, Inline, LinkReference};
use markdown_ppp::ast_transform::{CompositeTransformer, Transform, TransformWith};
use markdown_ppp::latex_printer::config::Config;
use markdown_ppp::parser::{parse_markdown, MarkdownParserState, MAX_NESTING_DEPTH};
use markdown_ppp::typst_printer::{get_indices, render_typst};

fn parse(source: &str) -> Document {
    parse_markdown(MarkdownParserState::default(), source).unwrap()
}

#[test]
fn many_paragraphs() {
    let mut source = String::new();
    for k in 0..30000 {
        source.push_str(&format!("paragraph *{k}*\n\n"));
    }
    let doc = parse(&source);
    assert_eq!(doc.blocks.len(), 30000);
    let out = render_typst(&doc, Config::default());
    assert_eq!(out.matches("#par[").count(), 30000);
    assert!(out.ends_with("#par[#\"paragraph \"#emph[#\"29999\"]]"));
    let copy = TransformWith::transform_with(doc.clone(), &mut CompositeTransformer::new());
    assert_eq!(copy, doc);
}

#[test]
fn many_list_items() {
    let mut source = String::new();
    for k in 0..30000 {
        source.push_str(&format!("- item {k}\n"));
    }
    let doc = parse(&source);
    match &doc.blocks[..] {
        [Block::List(list)] => assert_eq!(list.items.len(), 30000),
        other => panic!("{} blocks", other.len()),
    }
    let out = render_typst(&doc, Config::default());
    assert_eq!(out.matches("],\n  [").count(), 29999);
}

#[test]
fn long_paragraph() {
    let mut source = String::new();
    for k in 0..20000 {
        source.push_str(&format!("w{k} *e* `c` "));
    }
    let doc = parse(&source);
    match &doc.blocks[..] {
        [Block::Paragraph(inlines)] => assert_eq!(inlines.len(), 80000),
        other => panic!("{} blocks", other.len()),
    }
    let shouted = doc.transform_text(|t| t.to_uppercase());
    match &shouted.blocks[..] {
        [Block::Paragraph(inlines)] => assert_eq!(inlines[0], Inline::Text("W0 ".to_string())),
        other => panic!("{} blocks", other.len()),
    }
    let out = render_typst(&shouted, Config::default());
    assert!(out.starts_with("#par[#\"W0 \"#emph[#\"E\"]#\" \"#raw(\"c\")"));
}

#[test]
fn unclosed_brackets_and_delimiters() {
    let brackets = "[".repeat(3000);
    assert_eq!(
        parse(&brackets).blocks,
        vec![Block::Paragraph(vec![Inline::Text(brackets.clone())])]
    );
    let stars = "*a ".repeat(3000);
    let doc = parse(&stars);
    assert_eq!(doc.blocks.len(), 1);
    let ticks = "` ".repeat(3000);
    assert_eq!(parse(&ticks).blocks.len(), 1);
    let angles = "<a ".repeat(3000);
    assert_eq!(parse(&angles).blocks.len(), 1);
}

#[test]
fn deep_brackets() {
    let source = format!("{}x{}", "[".repeat(200), "]".repeat(200));
    let doc = parse(&source);
    assert_eq!(
        doc.blocks,
        vec![Block::Paragraph(vec![
            Inline::Text("[".repeat(199)),
            Inline::LinkReference(LinkReference {
                label: vec![Inline::Text("x".to_string())],
                text: vec![Inline::Text("x".to_string())],
            }),
            Inline::Text("]".repeat(199)),
        ])]
    );
    let indices = get_indices(&doc);
    assert!(indices.get_footnote_definition("x").is_none());
}

#[test]
fn deep_links() {
    let source = format!("{}x{}", "[".repeat(200), "](u)".repeat(200));
    let doc = parse(&source);
    let mut depth = 0;
    let mut current = match &doc.blocks[..] {
        [Block::Paragraph(inlines)] => inlines,
        other => panic!("{} blocks", other.len()),
    };
    while let Some(Inline::Link(link)) = current.iter().find(|i| matches!(i, Inline::Link(_))) {
        depth += 1;
        current = &link.children;
    }
    assert_eq!(depth, MAX_NESTING_DEPTH);
}

#[test]
fn wide_table() {
    let mut source = String::new();
    let row = |cell: &str| format!("|{}\n", format!("{cell}|").repeat(40));
    source.push_str(&row(" h {colspan=2} "));
    source.push_str(&row("-"));
    for _ in 0..60 {
        source.push_str(&row(" c "));
    }
    let doc = parse(&source);
    match &doc.blocks[..] {
        [Block::Table(table)] => {
            assert_eq!(table.alignments.len(), 40);
            assert_eq!(table.rows.len(), 61);
            assert!(table.rows.iter().all(|r| r.len() == 40));
            assert!(table.rows[0][1].removed_by_extended_table);
            assert!(!table.rows[1][1].removed_by_extended_table);
        }
        other => panic!("{} blocks", other.len()),
    }
}
