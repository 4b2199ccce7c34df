//! The tree with a value of the user's own on every node.
//!
//! The shapes are those of [`crate::ast`]; each node has one more field,
//! `user_data`, of a type that the user picks. Table cells and image
//! attributes carry none.

use vstd::prelude::*;
use crate::ast::{
    Alignment, CodeBlockKind, GitHubAlertType, HeadingKind, ListBulletKind,
    ListOrderedKindOptions, TaskState,
};
use crate::ast::model::{
    alert_type_model, code_kind_model, opt_chars, params_model, BlockModel, DocumentModel,
    ImageAttributesModel, InlineModel, ListItemModel, TableCellModel,
};

verus! {

/// Root of a document with user data.
#[derive(Debug, PartialEq)]
pub struct Document<T> {
    pub blocks: Vec<Block<T>>,
    pub user_data: T,
}

/// A block with user data.
#[derive(Debug, PartialEq)]
pub enum Block<T> {
    Paragraph { content: Vec<Inline<T>>, user_data: T },
    Heading(Heading<T>),
    ThematicBreak { user_data: T },
    BlockQuote { blocks: Vec<Block<T>>, user_data: T },
    List(List<T>),
    CodeBlock(CodeBlock<T>),
    HtmlBlock { content: String, user_data: T },
    Definition(LinkDefinition<T>),
    Table(Table<T>),
    FootnoteDefinition(FootnoteDefinition<T>),
    GitHubAlert(GitHubAlertNode<T>),
    LatexBlock { content: String, user_data: T },
    Empty { user_data: T },
    Container(Container<T>),
}

#[derive(Debug, PartialEq)]
pub struct Heading<T> {
    pub kind: HeadingKind,
    pub content: Vec<Inline<T>>,
    pub user_data: T,
}

#[derive(Debug, PartialEq)]
pub struct List<T> {
    pub kind: ListKind,
    pub items: Vec<ListItem<T>>,
    pub user_data: T,
}

/// Ordered or bullet.
#[derive(Debug, Clone, Copy, PartialEq, Eq)]
pub enum ListKind {
    Ordered(ListOrderedKindOptions),
    Bullet(ListBulletKind),
}

#[derive(Debug, PartialEq)]
pub struct ListItem<T> {
    pub task: Option<TaskState>,
    pub blocks: Vec<Block<T>>,
    pub user_data: T,
}

#[derive(Debug, PartialEq)]
pub struct CodeBlock<T> {
    pub kind: CodeBlockKind,
    pub literal: String,
    pub user_data: T,
}

#[derive(Debug, PartialEq)]
pub struct LinkDefinition<T> {
    pub label: Vec<Inline<T>>,
    pub destination: String,
    pub title: Option<String>,
    pub user_data: T,
}

#[derive(Debug, PartialEq)]
pub struct Table<T> {
    pub rows: Vec<Vec<TableCell<T>>>,
    pub alignments: Vec<Alignment>,
    pub user_data: T,
}

#[derive(Debug, PartialEq)]
pub struct TableCell<T> {
    pub content: Vec<Inline<T>>,
    pub colspan: Option<usize>,
    pub rowspan: Option<usize>,
    pub removed_by_extended_table: bool,
}

#[derive(Debug, PartialEq)]
pub struct FootnoteDefinition<T> {
    pub label: String,
    pub blocks: Vec<Block<T>>,
    pub user_data: T,
}

#[derive(Debug, PartialEq)]
pub struct GitHubAlertNode<T> {
    pub alert_type: GitHubAlertType,
    pub blocks: Vec<Block<T>>,
    pub user_data: T,
}

#[derive(Debug, PartialEq)]
pub struct Container<T> {
    pub kind: String,
    pub params: Vec<(String, String)>,
    pub blocks: Vec<Block<T>>,
    pub user_data: T,
}

/// An inline with user data.
#[derive(Debug, PartialEq)]
pub enum Inline<T> {
    Text { content: String, user_data: T },
    LineBreak { user_data: T },
    Code { content: String, user_data: T },
    Latex { content: String, user_data: T },
    Html { content: String, user_data: T },
    Link(Link<T>),
    LinkReference(LinkReference<T>),
    Image(Image<T>),
    Emphasis { content: Vec<Inline<T>>, user_data: T },
    Strong { content: Vec<Inline<T>>, user_data: T },
    Strikethrough { content: Vec<Inline<T>>, user_data: T },
    Autolink { url: String, user_data: T },
    FootnoteReference { label: String, user_data: T },
    Empty { user_data: T },
}

#[derive(Debug, PartialEq)]
pub struct Link<T> {
    pub destination: String,
    pub title: Option<String>,
    pub children: Vec<Inline<T>>,
    pub user_data: T,
}

#[derive(Debug, PartialEq)]
pub struct Image<T> {
    pub destination: String,
    pub title: Option<String>,
    pub alt: String,
    pub attr: Option<ImageAttributes>,
    pub user_data: T,
}

/// Width and height of an image, as written.
#[derive(Debug, PartialEq)]
pub struct ImageAttributes {
    pub width: Option<String>,
    pub height: Option<String>,
}

#[derive(Debug, PartialEq)]
pub struct LinkReference<T> {
    pub label: Vec<Inline<T>>,
    pub text: Vec<Inline<T>>,
    pub user_data: T,
}

/// The list kind of the plain tree that a list kind stands for.
pub open spec fn plain_list_kind(k: ListKind) -> crate::ast::ListKind {
    match k {
        ListKind::Ordered(o) => crate::ast::ListKind::Ordered(o),
        ListKind::Bullet(b) => crate::ast::ListKind::Bullet(b),
    }
}

pub open spec fn attr_plain(o: Option<ImageAttributes>) -> Option<ImageAttributesModel> {
    match o {
        Some(a) => Some(
            ImageAttributesModel { width: opt_chars(a.width), height: opt_chars(a.height) },
        ),
        None => None,
    }
}

/// The model of the plain inline that is left when the user data are
/// taken off.
pub open spec fn inline_plain<T>(g: Inline<T>) -> InlineModel
    decreases g,
{
    match g {
        Inline::Text { content, user_data } => InlineModel::Text(content@),
        Inline::LineBreak { user_data } => InlineModel::LineBreak,
        Inline::Code { content, user_data } => InlineModel::Code(content@),
        Inline::Latex { content, user_data } => InlineModel::Latex(content@),
        Inline::Html { content, user_data } => InlineModel::Html(content@),
        Inline::Link(l) => InlineModel::Link {
            destination: l.destination@,
            title: opt_chars(l.title),
            children: inlines_plain(l.children@),
        },
        Inline::LinkReference(r) => InlineModel::LinkReference {
            label: inlines_plain(r.label@),
            text: inlines_plain(r.text@),
        },
        Inline::Image(m) => InlineModel::Image {
            destination: m.destination@,
            title: opt_chars(m.title),
            alt: m.alt@,
            attr: attr_plain(m.attr),
        },
        Inline::Emphasis { content, user_data } => InlineModel::Emphasis(inlines_plain(content@)),
        Inline::Strong { content, user_data } => InlineModel::Strong(inlines_plain(content@)),
        Inline::Strikethrough { content, user_data } => InlineModel::Strikethrough(
            inlines_plain(content@),
        ),
        Inline::Autolink { url, user_data } => InlineModel::Autolink(url@),
        Inline::FootnoteReference { label, user_data } => InlineModel::FootnoteReference(label@),
        Inline::Empty { user_data } => InlineModel::Empty,
    }
}

/// The plain models of a sequence of inlines, one for one.
pub open spec fn inlines_plain<T>(s: Seq<Inline<T>>) -> Seq<InlineModel>
    decreases s,
{
    Seq::new(
        s.len(),
        |k: int|
            if 0 <= k < s.len() {
                inline_plain(s[k])
            } else {
                InlineModel::Empty
            },
    )
}

pub open spec fn cell_plain<T>(c: TableCell<T>) -> TableCellModel {
    TableCellModel {
        content: inlines_plain(c.content@),
        colspan: c.colspan,
        rowspan: c.rowspan,
        removed_by_extended_table: c.removed_by_extended_table,
    }
}

pub open spec fn row_plain<T>(r: Seq<TableCell<T>>) -> Seq<TableCellModel> {
    Seq::new(r.len(), |k: int| cell_plain(r[k]))
}

pub open spec fn rows_plain<T>(r: Seq<Vec<TableCell<T>>>) -> Seq<Seq<TableCellModel>> {
    Seq::new(r.len(), |k: int| row_plain(r[k]@))
}

/// The model of the plain block that is left when the user data are taken
/// off.
pub open spec fn block_plain<T>(g: Block<T>) -> BlockModel
    decreases g,
{
    match g {
        Block::Paragraph { content, user_data } => BlockModel::Paragraph(inlines_plain(content@)),
        Block::Heading(h) => BlockModel::Heading { kind: h.kind, content: inlines_plain(h.content@) },
        Block::ThematicBreak { user_data } => BlockModel::ThematicBreak,
        Block::BlockQuote { blocks, user_data } => BlockModel::BlockQuote(blocks_plain(blocks@)),
        Block::List(l) => BlockModel::List {
            kind: plain_list_kind(l.kind),
            items: items_plain(l.items@),
        },
        Block::CodeBlock(c) => BlockModel::CodeBlock {
            kind: code_kind_model(c.kind),
            literal: c.literal@,
        },
        Block::HtmlBlock { content, user_data } => BlockModel::HtmlBlock(content@),
        Block::Definition(d) => BlockModel::Definition {
            label: inlines_plain(d.label@),
            destination: d.destination@,
            title: opt_chars(d.title),
        },
        Block::Table(t) => BlockModel::Table { rows: rows_plain(t.rows@), alignments: t.alignments@ },
        Block::FootnoteDefinition(f) => BlockModel::FootnoteDefinition {
            label: f.label@,
            blocks: blocks_plain(f.blocks@),
        },
        Block::GitHubAlert(a) => BlockModel::GitHubAlert {
            alert_type: alert_type_model(a.alert_type),
            blocks: blocks_plain(a.blocks@),
        },
        Block::LatexBlock { content, user_data } => BlockModel::LatexBlock(content@),
        Block::Empty { user_data } => BlockModel::Empty,
        Block::Container(c) => BlockModel::Container {
            kind: c.kind@,
            params: params_model(c.params@),
            blocks: blocks_plain(c.blocks@),
        },
    }
}

/// The plain models of a sequence of blocks, one for one.
pub open spec fn blocks_plain<T>(s: Seq<Block<T>>) -> Seq<BlockModel>
    decreases s,
{
    Seq::new(
        s.len(),
        |k: int|
            if 0 <= k < s.len() {
                block_plain(s[k])
            } else {
                BlockModel::Empty
            },
    )
}

/// The plain models of a sequence of list items, one for one.
pub open spec fn items_plain<T>(s: Seq<ListItem<T>>) -> Seq<ListItemModel>
    decreases s,
{
    Seq::new(
        s.len(),
        |k: int|
            if 0 <= k < s.len() {
                ListItemModel { task: s[k].task, blocks: blocks_plain(s[k].blocks@) }
            } else {
                ListItemModel { task: None, blocks: Seq::empty() }
            },
    )
}

/// The model of the plain document that is left when the user data are
/// taken off.
pub open spec fn document_plain<T>(g: Document<T>) -> DocumentModel {
    DocumentModel { blocks: blocks_plain(g.blocks@) }
}

} // verus!
