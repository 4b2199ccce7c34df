//! `Clone` for the nodes that own strings or children: the copy has the
//! model of what was copied.

use vstd::prelude::*;
use crate::ast::{
    Alignment, Block, CodeBlock, CodeBlockKind, Container, Document, FootnoteDefinition,
    GitHubAlert, GitHubAlertType, Heading, Image, ImageAttributes, Inline, Link, LinkDefinition,
    LinkReference, List, ListItem, Table, TableCell,
};
use crate::ast::model::{
    alert_type_model, attr_model, block_model, blocks_model, cell_model, code_kind_model,
    inline_model, inlines_model, item_model, items_model, opt_attr_model, opt_chars, params_model,
    row_model, rows_model,
};

verus! {

/// Copies an optional string.
pub fn clone_opt_string(o: &Option<String>) -> (r: Option<String>)
    ensures
        opt_chars(r) == opt_chars(*o),
{
    match o {
        Some(s) => Some(s.clone()),
        None => None,
    }
}

/// Copies the attributes of an image.
pub fn clone_attr(a: &ImageAttributes) -> (r: ImageAttributes)
    ensures
        attr_model(r) == attr_model(*a),
{
    ImageAttributes { width: clone_opt_string(&a.width), height: clone_opt_string(&a.height) }
}

/// Copies the optional attributes of an image.
pub fn clone_opt_attr(o: &Option<ImageAttributes>) -> (r: Option<ImageAttributes>)
    ensures
        opt_attr_model(r) == opt_attr_model(*o),
{
    match o {
        Some(a) => Some(clone_attr(a)),
        None => None,
    }
}

/// Copies an inline with everything below it.
pub fn clone_inline(i: &Inline) -> (r: Inline)
    ensures
        inline_model(r) == inline_model(*i),
    decreases i,
{
    match i {
        Inline::Text(s) => Inline::Text(s.clone()),
        Inline::LineBreak => Inline::LineBreak,
        Inline::Code(s) => Inline::Code(s.clone()),
        Inline::Latex(s) => Inline::Latex(s.clone()),
        Inline::Html(s) => Inline::Html(s.clone()),
        Inline::Link(l) => Inline::Link(
            Link {
                destination: l.destination.clone(),
                title: clone_opt_string(&l.title),
                children: clone_inlines(&l.children),
            },
        ),
        Inline::LinkReference(r) => Inline::LinkReference(
            LinkReference { label: clone_inlines(&r.label), text: clone_inlines(&r.text) },
        ),
        Inline::Image(m) => Inline::Image(
            Image {
                destination: m.destination.clone(),
                title: clone_opt_string(&m.title),
                alt: m.alt.clone(),
                attr: clone_opt_attr(&m.attr),
            },
        ),
        Inline::Emphasis(v) => Inline::Emphasis(clone_inlines(v)),
        Inline::Strong(v) => Inline::Strong(clone_inlines(v)),
        Inline::Strikethrough(v) => Inline::Strikethrough(clone_inlines(v)),
        Inline::Autolink(s) => Inline::Autolink(s.clone()),
        Inline::FootnoteReference(s) => Inline::FootnoteReference(s.clone()),
        Inline::Empty => Inline::Empty,
    }
}

/// Copies a sequence of inlines.
pub fn clone_inlines(v: &Vec<Inline>) -> (r: Vec<Inline>)
    ensures
        inlines_model(r@) == inlines_model(v@),
    decreases v,
{
    let mut out: Vec<Inline> = Vec::new();
    let mut k: usize = 0;
    while k < v.len()
        invariant
            k <= v.len(),
            out.len() == k,
            forall|j: int| 0 <= j < k ==> inline_model(out@[j]) == inline_model(v@[j]),
        decreases v.len() - k,
    {
        let c = clone_inline(&v[k]);
        out.push(c);
        k += 1;
    }
    assert(inlines_model(out@) =~= inlines_model(v@));
    out
}

/// Copies a table cell.
pub fn clone_cell(c: &TableCell) -> (r: TableCell)
    ensures
        cell_model(r) == cell_model(*c),
{
    TableCell {
        content: clone_inlines(&c.content),
        colspan: c.colspan,
        rowspan: c.rowspan,
        removed_by_extended_table: c.removed_by_extended_table,
    }
}

/// Copies a table row.
pub fn clone_row(v: &Vec<TableCell>) -> (r: Vec<TableCell>)
    ensures
        row_model(r@) == row_model(v@),
{
    let mut out: Vec<TableCell> = Vec::new();
    let mut k: usize = 0;
    while k < v.len()
        invariant
            k <= v.len(),
            out.len() == k,
            forall|j: int| 0 <= j < k ==> cell_model(out@[j]) == cell_model(v@[j]),
        decreases v.len() - k,
    {
        let c = clone_cell(&v[k]);
        out.push(c);
        k += 1;
    }
    assert(row_model(out@) =~= row_model(v@));
    out
}

/// Copies the rows of a table.
pub fn clone_rows(v: &Vec<Vec<TableCell>>) -> (r: Vec<Vec<TableCell>>)
    ensures
        rows_model(r@) == rows_model(v@),
{
    let mut out: Vec<Vec<TableCell>> = Vec::new();
    let mut k: usize = 0;
    while k < v.len()
        invariant
            k <= v.len(),
            out.len() == k,
            forall|j: int| 0 <= j < k ==> row_model(out@[j]@) == row_model(v@[j]@),
        decreases v.len() - k,
    {
        let c = clone_row(&v[k]);
        out.push(c);
        k += 1;
    }
    assert(rows_model(out@) =~= rows_model(v@));
    out
}

/// Copies the alignments of a table.
pub fn clone_alignments(v: &Vec<Alignment>) -> (r: Vec<Alignment>)
    ensures
        r@ == v@,
{
    let mut out: Vec<Alignment> = Vec::new();
    let mut k: usize = 0;
    while k < v.len()
        invariant
            k <= v.len(),
            out.len() == k,
            forall|j: int| 0 <= j < k ==> out@[j] == v@[j],
        decreases v.len() - k,
    {
        out.push(v[k]);
        k += 1;
    }
    assert(out@ =~= v@);
    out
}

/// Copies the parameters of a container.
pub fn clone_params(v: &Vec<(String, String)>) -> (r: Vec<(String, String)>)
    ensures
        params_model(r@) == params_model(v@),
{
    let mut out: Vec<(String, String)> = Vec::new();
    let mut k: usize = 0;
    while k < v.len()
        invariant
            k <= v.len(),
            out.len() == k,
            forall|j: int| 0 <= j < k ==> out@[j].0@ == v@[j].0@ && out@[j].1@ == v@[j].1@,
        decreases v.len() - k,
    {
        let key = v[k].0.clone();
        let value = v[k].1.clone();
        out.push((key, value));
        k += 1;
    }
    assert(params_model(out@) =~= params_model(v@));
    out
}

/// Copies the kind of a code block.
pub fn clone_code_kind(k: &CodeBlockKind) -> (r: CodeBlockKind)
    ensures
        code_kind_model(r) == code_kind_model(*k),
{
    match k {
        CodeBlockKind::Indented => CodeBlockKind::Indented,
        CodeBlockKind::Fenced { info } => CodeBlockKind::Fenced { info: clone_opt_string(info) },
    }
}

/// Copies the type of an alert.
pub fn clone_alert_type(t: &GitHubAlertType) -> (r: GitHubAlertType)
    ensures
        alert_type_model(r) == alert_type_model(*t),
{
    match t {
        GitHubAlertType::Note => GitHubAlertType::Note,
        GitHubAlertType::Tip => GitHubAlertType::Tip,
        GitHubAlertType::Important => GitHubAlertType::Important,
        GitHubAlertType::Warning => GitHubAlertType::Warning,
        GitHubAlertType::Caution => GitHubAlertType::Caution,
        GitHubAlertType::Custom(s) => GitHubAlertType::Custom(s.clone()),
    }
}

/// Copies a block with everything below it.
pub fn clone_block(b: &Block) -> (r: Block)
    ensures
        block_model(r) == block_model(*b),
    decreases b,
{
    match b {
        Block::Paragraph(v) => Block::Paragraph(clone_inlines(v)),
        Block::Heading(h) => Block::Heading(
            Heading { kind: h.kind, content: clone_inlines(&h.content) },
        ),
        Block::ThematicBreak => Block::ThematicBreak,
        Block::BlockQuote(v) => Block::BlockQuote(clone_blocks(v)),
        Block::List(l) => Block::List(List { kind: l.kind, items: clone_items(&l.items) }),
        Block::CodeBlock(c) => Block::CodeBlock(
            CodeBlock { kind: clone_code_kind(&c.kind), literal: c.literal.clone() },
        ),
        Block::HtmlBlock(s) => Block::HtmlBlock(s.clone()),
        Block::Definition(d) => Block::Definition(
            LinkDefinition {
                label: clone_inlines(&d.label),
                destination: d.destination.clone(),
                title: clone_opt_string(&d.title),
            },
        ),
        Block::Table(t) => Block::Table(
            Table { rows: clone_rows(&t.rows), alignments: clone_alignments(&t.alignments) },
        ),
        Block::FootnoteDefinition(f) => Block::FootnoteDefinition(
            FootnoteDefinition { label: f.label.clone(), blocks: clone_blocks(&f.blocks) },
        ),
        Block::GitHubAlert(a) => Block::GitHubAlert(
            GitHubAlert {
                alert_type: clone_alert_type(&a.alert_type),
                blocks: clone_blocks(&a.blocks),
            },
        ),
        Block::LatexBlock(s) => Block::LatexBlock(s.clone()),
        Block::Empty => Block::Empty,
        Block::Container(c) => Block::Container(
            Container {
                kind: c.kind.clone(),
                params: clone_params(&c.params),
                blocks: clone_blocks(&c.blocks),
            },
        ),
    }
}

/// Copies a sequence of blocks.
pub fn clone_blocks(v: &Vec<Block>) -> (r: Vec<Block>)
    ensures
        blocks_model(r@) == blocks_model(v@),
    decreases v,
{
    let mut out: Vec<Block> = Vec::new();
    let mut k: usize = 0;
    while k < v.len()
        invariant
            k <= v.len(),
            out.len() == k,
            forall|j: int| 0 <= j < k ==> block_model(out@[j]) == block_model(v@[j]),
        decreases v.len() - k,
    {
        let c = clone_block(&v[k]);
        out.push(c);
        k += 1;
    }
    assert(blocks_model(out@) =~= blocks_model(v@));
    out
}

/// Copies the items of a list.
pub fn clone_items(v: &Vec<ListItem>) -> (r: Vec<ListItem>)
    ensures
        items_model(r@) == items_model(v@),
    decreases v,
{
    let mut out: Vec<ListItem> = Vec::new();
    let mut k: usize = 0;
    while k < v.len()
        invariant
            k <= v.len(),
            out.len() == k,
            forall|j: int| 0 <= j < k ==> item_model(out@[j]) == item_model(v@[j]),
        decreases v.len() - k,
    {
        let c = ListItem { task: v[k].task, blocks: clone_blocks(&v[k].blocks) };
        out.push(c);
        k += 1;
    }
    assert(items_model(out@) =~= items_model(v@));
    out
}

impl Clone for Inline {
    fn clone(&self) -> (r: Self)
        ensures
            r@ == self@,
    {
        clone_inline(self)
    }
}

impl Clone for Block {
    fn clone(&self) -> (r: Self)
        ensures
            r@ == self@,
    {
        clone_block(self)
    }
}

impl Clone for Document {
    fn clone(&self) -> (r: Self)
        ensures
            r@ == self@,
    {
        Document { blocks: clone_blocks(&self.blocks) }
    }
}

impl Clone for ListItem {
    fn clone(&self) -> (r: Self)
        ensures
            r@ == self@,
    {
        ListItem { task: self.task, blocks: clone_blocks(&self.blocks) }
    }
}

impl Clone for TableCell {
    fn clone(&self) -> (r: Self)
        ensures
            r@ == self@,
    {
        clone_cell(self)
    }
}

impl Clone for LinkDefinition {
    fn clone(&self) -> (r: Self)
        ensures
            r@ == self@,
    {
        LinkDefinition {
            label: clone_inlines(&self.label),
            destination: self.destination.clone(),
            title: clone_opt_string(&self.title),
        }
    }
}

impl Clone for FootnoteDefinition {
    fn clone(&self) -> (r: Self)
        ensures
            r@ == self@,
    {
        FootnoteDefinition { label: self.label.clone(), blocks: clone_blocks(&self.blocks) }
    }
}

impl Clone for Heading {
    fn clone(&self) -> (r: Self)
        ensures
            r@ == self@,
    {
        Heading { kind: self.kind, content: clone_inlines(&self.content) }
    }
}

impl Clone for List {
    fn clone(&self) -> (r: Self)
        ensures
            r@ == self@,
    {
        List { kind: self.kind, items: clone_items(&self.items) }
    }
}

impl Clone for CodeBlock {
    fn clone(&self) -> (r: Self)
        ensures
            r@ == self@,
    {
        CodeBlock { kind: clone_code_kind(&self.kind), literal: self.literal.clone() }
    }
}

impl Clone for CodeBlockKind {
    fn clone(&self) -> (r: Self)
        ensures
            code_kind_model(r) == code_kind_model(*self),
    {
        clone_code_kind(self)
    }
}

impl Clone for Table {
    fn clone(&self) -> (r: Self)
        ensures
            r@ == self@,
    {
        Table { rows: clone_rows(&self.rows), alignments: clone_alignments(&self.alignments) }
    }
}

impl Clone for GitHubAlert {
    fn clone(&self) -> (r: Self)
        ensures
            r@ == self@,
    {
        GitHubAlert {
            alert_type: clone_alert_type(&self.alert_type),
            blocks: clone_blocks(&self.blocks),
        }
    }
}

impl Clone for GitHubAlertType {
    fn clone(&self) -> (r: Self)
        ensures
            alert_type_model(r) == alert_type_model(*self),
    {
        clone_alert_type(self)
    }
}

impl Clone for Container {
    fn clone(&self) -> (r: Self)
        ensures
            r@ == self@,
    {
        Container {
            kind: self.kind.clone(),
            params: clone_params(&self.params),
            blocks: clone_blocks(&self.blocks),
        }
    }
}

impl Clone for Link {
    fn clone(&self) -> (r: Self)
        ensures
            r@ == self@,
    {
        Link {
            destination: self.destination.clone(),
            title: clone_opt_string(&self.title),
            children: clone_inlines(&self.children),
        }
    }
}

impl Clone for Image {
    fn clone(&self) -> (r: Self)
        ensures
            r@ == self@,
    {
        Image {
            destination: self.destination.clone(),
            title: clone_opt_string(&self.title),
            alt: self.alt.clone(),
            attr: clone_opt_attr(&self.attr),
        }
    }
}

impl Clone for ImageAttributes {
    fn clone(&self) -> (r: Self)
        ensures
            r@ == self@,
    {
        clone_attr(self)
    }
}

impl Clone for LinkReference {
    fn clone(&self) -> (r: Self)
        ensures
            r@ == self@,
    {
        LinkReference { label: clone_inlines(&self.label), text: clone_inlines(&self.text) }
    }
}

} // verus!
