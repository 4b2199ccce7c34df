//! Mathematical models of the tree: the same shapes over `Seq`, with every
//! string as its sequence of characters.

use vstd::prelude::*;
use crate::ast::{
    Alignment, Block, CodeBlock, CodeBlockKind, Container, Document, FootnoteDefinition,
    GitHubAlert, GitHubAlertType, Heading, HeadingKind, Image, ImageAttributes, Inline, Link,
    LinkDefinition, LinkReference, List, ListItem, ListKind, Table, TableCell, TaskState,
};

verus! {

/// Model of [`ImageAttributes`].
pub struct ImageAttributesModel {
    pub width: Option<Seq<char>>,
    pub height: Option<Seq<char>>,
}

/// Model of [`Inline`].
pub enum InlineModel {
    Text(Seq<char>),
    LineBreak,
    Code(Seq<char>),
    Latex(Seq<char>),
    Html(Seq<char>),
    Link { destination: Seq<char>, title: Option<Seq<char>>, children: Seq<InlineModel> },
    LinkReference { label: Seq<InlineModel>, text: Seq<InlineModel> },
    Image {
        destination: Seq<char>,
        title: Option<Seq<char>>,
        alt: Seq<char>,
        attr: Option<ImageAttributesModel>,
    },
    Emphasis(Seq<InlineModel>),
    Strong(Seq<InlineModel>),
    Strikethrough(Seq<InlineModel>),
    Autolink(Seq<char>),
    FootnoteReference(Seq<char>),
    Empty,
}

/// Model of [`CodeBlockKind`].
pub enum CodeBlockKindModel {
    Indented,
    Fenced { info: Option<Seq<char>> },
}

/// Model of [`GitHubAlertType`].
pub enum GitHubAlertTypeModel {
    Note,
    Tip,
    Important,
    Warning,
    Caution,
    Custom(Seq<char>),
}

/// Model of [`TableCell`].
pub struct TableCellModel {
    pub content: Seq<InlineModel>,
    pub colspan: Option<usize>,
    pub rowspan: Option<usize>,
    pub removed_by_extended_table: bool,
}

/// Model of [`ListItem`].
pub struct ListItemModel {
    pub task: Option<TaskState>,
    pub blocks: Seq<BlockModel>,
}

/// Model of [`Block`].
pub enum BlockModel {
    Paragraph(Seq<InlineModel>),
    Heading { kind: HeadingKind, content: Seq<InlineModel> },
    ThematicBreak,
    BlockQuote(Seq<BlockModel>),
    List { kind: ListKind, items: Seq<ListItemModel> },
    CodeBlock { kind: CodeBlockKindModel, literal: Seq<char> },
    HtmlBlock(Seq<char>),
    Definition { label: Seq<InlineModel>, destination: Seq<char>, title: Option<Seq<char>> },
    Table { rows: Seq<Seq<TableCellModel>>, alignments: Seq<Alignment> },
    FootnoteDefinition { label: Seq<char>, blocks: Seq<BlockModel> },
    GitHubAlert { alert_type: GitHubAlertTypeModel, blocks: Seq<BlockModel> },
    LatexBlock(Seq<char>),
    Empty,
    Container { kind: Seq<char>, params: Seq<(Seq<char>, Seq<char>)>, blocks: Seq<BlockModel> },
}

/// Model of [`Document`].
pub struct DocumentModel {
    pub blocks: Seq<BlockModel>,
}

/// The characters of an optional string.
pub open spec fn opt_chars(o: Option<String>) -> Option<Seq<char>> {
    match o {
        Some(s) => Some(s@),
        None => None,
    }
}

pub open spec fn attr_model(a: ImageAttributes) -> ImageAttributesModel {
    ImageAttributesModel { width: opt_chars(a.width), height: opt_chars(a.height) }
}

pub open spec fn opt_attr_model(o: Option<ImageAttributes>) -> Option<ImageAttributesModel> {
    match o {
        Some(a) => Some(attr_model(a)),
        None => None,
    }
}

pub open spec fn inline_model(i: Inline) -> InlineModel
    decreases i,
{
    match i {
        Inline::Text(s) => InlineModel::Text(s@),
        Inline::LineBreak => InlineModel::LineBreak,
        Inline::Code(s) => InlineModel::Code(s@),
        Inline::Latex(s) => InlineModel::Latex(s@),
        Inline::Html(s) => InlineModel::Html(s@),
        Inline::Link(l) => InlineModel::Link {
            destination: l.destination@,
            title: opt_chars(l.title),
            children: inlines_model(l.children@),
        },
        Inline::LinkReference(r) => InlineModel::LinkReference {
            label: inlines_model(r.label@),
            text: inlines_model(r.text@),
        },
        Inline::Image(m) => InlineModel::Image {
            destination: m.destination@,
            title: opt_chars(m.title),
            alt: m.alt@,
            attr: opt_attr_model(m.attr),
        },
        Inline::Emphasis(v) => InlineModel::Emphasis(inlines_model(v@)),
        Inline::Strong(v) => InlineModel::Strong(inlines_model(v@)),
        Inline::Strikethrough(v) => InlineModel::Strikethrough(inlines_model(v@)),
        Inline::Autolink(s) => InlineModel::Autolink(s@),
        Inline::FootnoteReference(s) => InlineModel::FootnoteReference(s@),
        Inline::Empty => InlineModel::Empty,
    }
}

/// The models of a sequence of inlines, one for one.
pub open spec fn inlines_model(s: Seq<Inline>) -> Seq<InlineModel>
    decreases s,
{
    Seq::new(
        s.len(),
        |k: int|
            if 0 <= k < s.len() {
                inline_model(s[k])
            } else {
                InlineModel::Empty
            },
    )
}

pub open spec fn code_kind_model(k: CodeBlockKind) -> CodeBlockKindModel {
    match k {
        CodeBlockKind::Indented => CodeBlockKindModel::Indented,
        CodeBlockKind::Fenced { info } => CodeBlockKindModel::Fenced { info: opt_chars(info) },
    }
}

pub open spec fn alert_type_model(t: GitHubAlertType) -> GitHubAlertTypeModel {
    match t {
        GitHubAlertType::Note => GitHubAlertTypeModel::Note,
        GitHubAlertType::Tip => GitHubAlertTypeModel::Tip,
        GitHubAlertType::Important => GitHubAlertTypeModel::Important,
        GitHubAlertType::Warning => GitHubAlertTypeModel::Warning,
        GitHubAlertType::Caution => GitHubAlertTypeModel::Caution,
        GitHubAlertType::Custom(s) => GitHubAlertTypeModel::Custom(s@),
    }
}

pub open spec fn cell_model(c: TableCell) -> TableCellModel {
    TableCellModel {
        content: inlines_model(c.content@),
        colspan: c.colspan,
        rowspan: c.rowspan,
        removed_by_extended_table: c.removed_by_extended_table,
    }
}

pub open spec fn row_model(r: Seq<TableCell>) -> Seq<TableCellModel> {
    Seq::new(r.len(), |k: int| cell_model(r[k]))
}

pub open spec fn rows_model(r: Seq<Vec<TableCell>>) -> Seq<Seq<TableCellModel>> {
    Seq::new(r.len(), |k: int| row_model(r[k]@))
}

pub open spec fn params_model(p: Seq<(String, String)>) -> Seq<(Seq<char>, Seq<char>)> {
    Seq::new(p.len(), |k: int| (p[k].0@, p[k].1@))
}

pub open spec fn block_model(b: Block) -> BlockModel
    decreases b,
{
    match b {
        Block::Paragraph(v) => BlockModel::Paragraph(inlines_model(v@)),
        Block::Heading(h) => BlockModel::Heading { kind: h.kind, content: inlines_model(h.content@) },
        Block::ThematicBreak => BlockModel::ThematicBreak,
        Block::BlockQuote(v) => BlockModel::BlockQuote(blocks_model(v@)),
        Block::List(l) => BlockModel::List { kind: l.kind, items: items_model(l.items@) },
        Block::CodeBlock(c) => BlockModel::CodeBlock {
            kind: code_kind_model(c.kind),
            literal: c.literal@,
        },
        Block::HtmlBlock(s) => BlockModel::HtmlBlock(s@),
        Block::Definition(d) => BlockModel::Definition {
            label: inlines_model(d.label@),
            destination: d.destination@,
            title: opt_chars(d.title),
        },
        Block::Table(t) => BlockModel::Table {
            rows: rows_model(t.rows@),
            alignments: t.alignments@,
        },
        Block::FootnoteDefinition(f) => BlockModel::FootnoteDefinition {
            label: f.label@,
            blocks: blocks_model(f.blocks@),
        },
        Block::GitHubAlert(a) => BlockModel::GitHubAlert {
            alert_type: alert_type_model(a.alert_type),
            blocks: blocks_model(a.blocks@),
        },
        Block::LatexBlock(s) => BlockModel::LatexBlock(s@),
        Block::Empty => BlockModel::Empty,
        Block::Container(c) => BlockModel::Container {
            kind: c.kind@,
            params: params_model(c.params@),
            blocks: blocks_model(c.blocks@),
        },
    }
}

/// The models of a sequence of blocks, one for one.
pub open spec fn blocks_model(s: Seq<Block>) -> Seq<BlockModel>
    decreases s,
{
    Seq::new(
        s.len(),
        |k: int|
            if 0 <= k < s.len() {
                block_model(s[k])
            } else {
                BlockModel::Empty
            },
    )
}

pub open spec fn item_model(i: ListItem) -> ListItemModel
    decreases i,
{
    ListItemModel { task: i.task, blocks: blocks_model(i.blocks@) }
}

/// The models of a sequence of list items, one for one.
pub open spec fn items_model(s: Seq<ListItem>) -> Seq<ListItemModel>
    decreases s,
{
    Seq::new(
        s.len(),
        |k: int|
            if 0 <= k < s.len() {
                item_model(s[k])
            } else {
                ListItemModel { task: None, blocks: Seq::empty() }
            },
    )
}

impl View for Inline {
    type V = InlineModel;

    open spec fn view(&self) -> InlineModel {
        inline_model(*self)
    }
}

impl View for Block {
    type V = BlockModel;

    open spec fn view(&self) -> BlockModel {
        block_model(*self)
    }
}

impl View for ListItem {
    type V = ListItemModel;

    open spec fn view(&self) -> ListItemModel {
        item_model(*self)
    }
}

impl View for TableCell {
    type V = TableCellModel;

    open spec fn view(&self) -> TableCellModel {
        cell_model(*self)
    }
}

impl View for Document {
    type V = DocumentModel;

    open spec fn view(&self) -> DocumentModel {
        DocumentModel { blocks: blocks_model(self.blocks@) }
    }
}

impl View for Heading {
    type V = BlockModel;

    open spec fn view(&self) -> BlockModel {
        block_model(Block::Heading(*self))
    }
}

impl View for List {
    type V = BlockModel;

    open spec fn view(&self) -> BlockModel {
        block_model(Block::List(*self))
    }
}

impl View for CodeBlock {
    type V = BlockModel;

    open spec fn view(&self) -> BlockModel {
        block_model(Block::CodeBlock(*self))
    }
}

impl View for LinkDefinition {
    type V = BlockModel;

    open spec fn view(&self) -> BlockModel {
        block_model(Block::Definition(*self))
    }
}

impl View for Table {
    type V = BlockModel;

    open spec fn view(&self) -> BlockModel {
        block_model(Block::Table(*self))
    }
}

impl View for FootnoteDefinition {
    type V = BlockModel;

    open spec fn view(&self) -> BlockModel {
        block_model(Block::FootnoteDefinition(*self))
    }
}

impl View for GitHubAlert {
    type V = BlockModel;

    open spec fn view(&self) -> BlockModel {
        block_model(Block::GitHubAlert(*self))
    }
}

impl View for Container {
    type V = BlockModel;

    open spec fn view(&self) -> BlockModel {
        block_model(Block::Container(*self))
    }
}

impl View for Link {
    type V = InlineModel;

    open spec fn view(&self) -> InlineModel {
        inline_model(Inline::Link(*self))
    }
}

impl View for Image {
    type V = InlineModel;

    open spec fn view(&self) -> InlineModel {
        inline_model(Inline::Image(*self))
    }
}

impl View for LinkReference {
    type V = InlineModel;

    open spec fn view(&self) -> InlineModel {
        inline_model(Inline::LinkReference(*self))
    }
}

impl View for ImageAttributes {
    type V = ImageAttributesModel;

    open spec fn view(&self) -> ImageAttributesModel {
        attr_model(*self)
    }
}

} // verus!
