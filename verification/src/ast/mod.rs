//! Typed syntax tree for CommonMark with the GitHub extensions and the
//! `:::kind{params}` container block.
//!
//! Every node owns its children. The executable types hold `String` and
//! `Vec`; each has a mathematical model in [`model`], reached with `@`,
//! over which the contracts of the whole crate are stated.

use vstd::prelude::*;

pub mod clone;
pub mod convert;
pub mod equal;
pub mod generic;
pub mod model;

verus! {

/// Root of a parsed text: its blocks in source order.
#[derive(Debug, PartialEq)]
pub struct Document {
    pub blocks: Vec<Block>,
}

/// A block-level node.
#[derive(Debug, PartialEq)]
pub enum Block {
    /// A run of inline content.
    Paragraph(Vec<Inline>),
    /// An ATX or Setext heading.
    Heading(Heading),
    /// A horizontal rule.
    ThematicBreak,
    /// A quoted sequence of blocks.
    BlockQuote(Vec<Block>),
    /// A bullet or ordered list.
    List(List),
    /// A fenced or indented code block.
    CodeBlock(CodeBlock),
    /// A block of raw HTML.
    HtmlBlock(String),
    /// A link reference definition.
    Definition(LinkDefinition),
    /// A pipe table.
    Table(Table),
    /// The body of a footnote.
    FootnoteDefinition(FootnoteDefinition),
    /// A GitHub alert such as `> [!NOTE]`.
    GitHubAlert(GitHubAlert),
    /// A block of raw LaTeX.
    LatexBlock(String),
    /// A block that holds nothing.
    Empty,
    /// A `:::kind{params}` container.
    Container(Container),
}

/// The two ways of writing a heading.
#[derive(Debug, Clone, Copy, PartialEq, Eq)]
pub enum HeadingKind {
    /// `#` to `######`: the level, 1 to 6.
    Atx(u8),
    /// Underlined with `=` or `-`.
    Setext(SetextHeading),
}

/// Level of a Setext heading.
#[derive(Debug, Clone, Copy, PartialEq, Eq)]
pub enum SetextHeading {
    /// Underlined with `=`.
    Level1,
    /// Underlined with `-`.
    Level2,
}

/// A heading and its inline content.
#[derive(Debug, PartialEq)]
pub struct Heading {
    pub kind: HeadingKind,
    pub content: Vec<Inline>,
}

/// A list and its items.
#[derive(Debug, PartialEq)]
pub struct List {
    pub kind: ListKind,
    pub items: Vec<ListItem>,
}

/// Ordered or bullet.
#[derive(Debug, Clone, Copy, PartialEq, Eq)]
pub enum ListKind {
    Ordered(ListOrderedKindOptions),
    Bullet(ListBulletKind),
}

/// What an ordered list remembers of its first marker.
#[derive(Debug, Clone, Copy, PartialEq, Eq)]
pub struct ListOrderedKindOptions {
    /// Number of the first item.
    pub start: u64,
}

/// The character of a bullet list's markers.
#[derive(Debug, Clone, Copy, PartialEq, Eq)]
pub enum ListBulletKind {
    /// `-`
    Dash,
    /// `*`
    Star,
    /// `+`
    Plus,
}

/// One item of a list.
#[derive(Debug, PartialEq)]
pub struct ListItem {
    /// `Some` for a task list item.
    pub task: Option<TaskState>,
    pub blocks: Vec<Block>,
}

/// State of a task list item's checkbox.
#[derive(Debug, Clone, Copy, PartialEq, Eq)]
pub enum TaskState {
    /// `[ ]`
    Incomplete,
    /// `[x]`
    Complete,
}

/// A code block: its text is kept raw.
#[derive(Debug, PartialEq)]
pub struct CodeBlock {
    pub kind: CodeBlockKind,
    pub literal: String,
}

/// How a code block was written.
#[derive(Debug, PartialEq)]
pub enum CodeBlockKind {
    /// Indented by four spaces.
    Indented,
    /// Between fences, with the info string if there was one.
    Fenced { info: Option<String> },
}

/// `[label]: destination "title"`. The label is the lookup key, kept as the
/// inline sequence it was parsed to.
#[derive(Debug, PartialEq)]
pub struct LinkDefinition {
    pub label: Vec<Inline>,
    pub destination: String,
    pub title: Option<String>,
}

/// A row of a table.
pub type TableRow = Vec<TableCell>;

/// A pipe table. Row 0 is the header row.
#[derive(Debug, PartialEq)]
pub struct Table {
    pub rows: Vec<TableRow>,
    pub alignments: Vec<Alignment>,
}

/// One cell of a table.
#[derive(Debug, PartialEq)]
pub struct TableCell {
    pub content: Vec<Inline>,
    /// Number of columns the cell spans, if it says so.
    pub colspan: Option<usize>,
    /// Number of rows the cell spans, if it says so.
    pub rowspan: Option<usize>,
    /// Set on a cell that lies under the span of another: it keeps its place
    /// in the row and is to be passed over.
    pub removed_by_extended_table: bool,
}

/// Alignment of a table column.
#[derive(Debug, Clone, Copy, PartialEq, Eq)]
pub enum Alignment {
    /// The delimiter row asks for nothing.
    Unset,
    Left,
    Center,
    Right,
}

/// `[^label]: ...`
#[derive(Debug, PartialEq)]
pub struct FootnoteDefinition {
    pub label: String,
    pub blocks: Vec<Block>,
}

/// A GitHub alert.
#[derive(Debug, PartialEq)]
pub struct GitHubAlert {
    pub alert_type: GitHubAlertType,
    pub blocks: Vec<Block>,
}

/// The kinds of GitHub alert.
#[derive(Debug, PartialEq)]
pub enum GitHubAlertType {
    Note,
    Tip,
    Important,
    Warning,
    Caution,
    /// Any other word between `[!` and `]`.
    Custom(String),
}

/// A `:::kind{params}` block.
#[derive(Debug, PartialEq)]
pub struct Container {
    pub kind: String,
    /// Key and value of each parameter, in source order.
    pub params: Vec<(String, String)>,
    pub blocks: Vec<Block>,
}

/// An inline node.
#[derive(Debug, PartialEq)]
pub enum Inline {
    /// Literal text.
    Text(String),
    /// A hard line break.
    LineBreak,
    /// A code span.
    Code(String),
    /// Inline LaTeX.
    Latex(String),
    /// Raw inline HTML.
    Html(String),
    /// `[text](destination "title")`
    Link(Link),
    /// `[text][label]` and its shorter forms, unresolved.
    LinkReference(LinkReference),
    /// `![alt](destination "title"){attr}`
    Image(Image),
    Emphasis(Vec<Inline>),
    Strong(Vec<Inline>),
    Strikethrough(Vec<Inline>),
    /// `<scheme:...>`
    Autolink(String),
    /// `[^label]`
    FootnoteReference(String),
    /// An inline that holds nothing.
    Empty,
}

/// An inline link.
#[derive(Debug, PartialEq)]
pub struct Link {
    pub destination: String,
    pub title: Option<String>,
    pub children: Vec<Inline>,
}

/// An image.
#[derive(Debug, PartialEq)]
pub struct Image {
    pub destination: String,
    pub title: Option<String>,
    pub alt: String,
    pub attr: Option<ImageAttributes>,
}

/// Width and height of an image, as written (`100pt`).
#[derive(Debug, PartialEq)]
pub struct ImageAttributes {
    pub width: Option<String>,
    pub height: Option<String>,
}

/// A reference to a link definition. `label` is what is looked up, `text`
/// what is shown.
#[derive(Debug, PartialEq)]
pub struct LinkReference {
    pub label: Vec<Inline>,
    pub text: Vec<Inline>,
}

impl Default for ImageAttributes {
    fn default() -> (r: Self)
        ensures
            r.width is None,
            r.height is None,
    {
        ImageAttributes { width: None, height: None }
    }
}

} // verus!
