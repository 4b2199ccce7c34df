//! From the plain tree to the tree with user data, and back.
//!
//! Putting data on and taking them off again gives the tree that one
//! started with: see [`to_generic`] and [`from_generic`].

use vstd::prelude::*;
use crate::ast::generic;
use crate::ast::generic::{
    attr_plain, block_plain, blocks_plain, cell_plain, document_plain, inline_plain,
    inlines_plain, items_plain, plain_list_kind, row_plain, rows_plain,
};
use crate::ast::{
    Block, CodeBlock, Container, Document, FootnoteDefinition, GitHubAlert, Heading, Image,
    ImageAttributes, Inline, Link, LinkDefinition, LinkReference, List, ListItem, ListKind, Table,
    TableCell,
};
use crate::ast::model::{
    block_model, blocks_model, cell_model, inline_model, inlines_model, items_model,
    opt_attr_model, row_model, rows_model,
};

verus! {

/// Nodes that user data can be put on.
pub trait WithData<T>: Sized {
    /// The node with user data.
    type WithDataType;

    /// Whether `with` is this node with user data on it: the plain tree
    /// under `with` has the model of this node, and every node below the
    /// top of `with` carries a value that `T::default()` may hand back.
    spec fn carries(&self, with: Self::WithDataType) -> bool;

    /// The user data on the top node of `with`.
    spec fn data_on(with: Self::WithDataType) -> T;

    /// Puts `data` on this node, and the default of `T` on every node
    /// below it.
    fn with_data(self, data: T) -> (r: Self::WithDataType)
        ensures
            self.carries(r),
            Self::data_on(r) == data,
    ;

    /// Puts the default of `T` on this node and on every node below it.
    fn with_default_data(self) -> (r: Self::WithDataType) where T: Default
        ensures
            self.carries(r),
            call_ensures(T::default, (), Self::data_on(r)),
    {
        self.with_data(T::default())
    }
}

/// Nodes that user data can be taken off.
pub trait StripData<T>: Sized {
    /// The node without user data.
    type StrippedType;

    /// Whether `plain` is this node without its user data: it has the
    /// plain model of this node. A type that does not say is taken to
    /// hold this of any two.
    open spec fn leaves(&self, plain: Self::StrippedType) -> bool {
        true
    }

    /// Takes the user data off this node and off every node below it.
    fn strip_data(self) -> (r: Self::StrippedType)
        ensures
            self.leaves(r),
    ;
}

/// Nodes whose user data can be turned into data of another type.
pub trait MapData<T, U>: Sized {
    /// The node with the new user data.
    type MappedType;

    /// Applies `f` to the user data of this node and of every node below
    /// it.
    fn map_data<F: FnMut(T) -> U>(self, f: F) -> Self::MappedType;
}

impl From<ListKind> for generic::ListKind {
    fn from(kind: ListKind) -> (r: Self)
        ensures
            plain_list_kind(r) == kind,
    {
        match kind {
            ListKind::Ordered(opts) => generic::ListKind::Ordered(opts),
            ListKind::Bullet(bullet) => generic::ListKind::Bullet(bullet),
        }
    }
}

impl vstd::std_specs::convert::FromSpecImpl<ListKind> for generic::ListKind {
    open spec fn obeys_from_spec() -> bool {
        true
    }

    open spec fn from_spec(kind: ListKind) -> Self {
        match kind {
            ListKind::Ordered(opts) => generic::ListKind::Ordered(opts),
            ListKind::Bullet(bullet) => generic::ListKind::Bullet(bullet),
        }
    }
}

impl vstd::std_specs::convert::FromSpecImpl<generic::ListKind> for ListKind {
    open spec fn obeys_from_spec() -> bool {
        true
    }

    open spec fn from_spec(kind: generic::ListKind) -> Self {
        plain_list_kind(kind)
    }
}

impl From<generic::ListKind> for ListKind {
    fn from(kind: generic::ListKind) -> (r: Self)
        ensures
            r == plain_list_kind(kind),
    {
        match kind {
            generic::ListKind::Ordered(opts) => ListKind::Ordered(opts),
            generic::ListKind::Bullet(bullet) => ListKind::Bullet(bullet),
        }
    }
}

fn list_kind_with_data(kind: ListKind) -> (r: generic::ListKind)
    ensures
        plain_list_kind(r) == kind,
{
    match kind {
        ListKind::Ordered(opts) => generic::ListKind::Ordered(opts),
        ListKind::Bullet(bullet) => generic::ListKind::Bullet(bullet),
    }
}

fn list_kind_stripped(kind: generic::ListKind) -> (r: ListKind)
    ensures
        r == plain_list_kind(kind),
{
    match kind {
        generic::ListKind::Ordered(opts) => ListKind::Ordered(opts),
        generic::ListKind::Bullet(bullet) => ListKind::Bullet(bullet),
    }
}

fn attr_with_data(attr: Option<ImageAttributes>) -> (r: Option<generic::ImageAttributes>)
    ensures
        attr_plain(r) == opt_attr_model(attr),
{
    match attr {
        Some(a) => {
            let ImageAttributes { width, height } = a;
            Some(generic::ImageAttributes { width, height })
        },
        None => None,
    }
}

fn attr_stripped(attr: Option<generic::ImageAttributes>) -> (r: Option<ImageAttributes>)
    ensures
        opt_attr_model(r) == attr_plain(attr),
{
    match attr {
        Some(a) => {
            let generic::ImageAttributes { width, height } = a;
            Some(ImageAttributes { width, height })
        },
        None => None,
    }
}

/// The user data on an inline.
pub open spec fn inline_user_data<T>(g: generic::Inline<T>) -> T {
    match g {
        generic::Inline::Text { content, user_data } => user_data,
        generic::Inline::LineBreak { user_data } => user_data,
        generic::Inline::Code { content, user_data } => user_data,
        generic::Inline::Latex { content, user_data } => user_data,
        generic::Inline::Html { content, user_data } => user_data,
        generic::Inline::Link(l) => l.user_data,
        generic::Inline::LinkReference(r) => r.user_data,
        generic::Inline::Image(m) => m.user_data,
        generic::Inline::Emphasis { content, user_data } => user_data,
        generic::Inline::Strong { content, user_data } => user_data,
        generic::Inline::Strikethrough { content, user_data } => user_data,
        generic::Inline::Autolink { url, user_data } => user_data,
        generic::Inline::FootnoteReference { label, user_data } => user_data,
        generic::Inline::Empty { user_data } => user_data,
    }
}

/// The user data on a block.
pub open spec fn block_user_data<T>(g: generic::Block<T>) -> T {
    match g {
        generic::Block::Paragraph { content, user_data } => user_data,
        generic::Block::Heading(h) => h.user_data,
        generic::Block::ThematicBreak { user_data } => user_data,
        generic::Block::BlockQuote { blocks, user_data } => user_data,
        generic::Block::List(l) => l.user_data,
        generic::Block::CodeBlock(c) => c.user_data,
        generic::Block::HtmlBlock { content, user_data } => user_data,
        generic::Block::Definition(d) => d.user_data,
        generic::Block::Table(t) => t.user_data,
        generic::Block::FootnoteDefinition(f) => f.user_data,
        generic::Block::GitHubAlert(a) => a.user_data,
        generic::Block::LatexBlock { content, user_data } => user_data,
        generic::Block::Empty { user_data } => user_data,
        generic::Block::Container(c) => c.user_data,
    }
}

/// The values that `T::default()` may hand back.
pub open spec fn default_values<T: Default>() -> spec_fn(T) -> bool {
    |u: T| call_ensures(T::default, (), u)
}

/// Whether `p` holds of the user data on every node below the inline: on
/// its children and on all that is below them.
pub open spec fn inline_data_below<T>(g: generic::Inline<T>, p: spec_fn(T) -> bool) -> bool
    decreases g, 0nat,
{
    match g {
        generic::Inline::Link(l) => inlines_data_all(l.children@, p),
        generic::Inline::LinkReference(r) => inlines_data_all(r.label@, p) && inlines_data_all(
            r.text@,
            p,
        ),
        generic::Inline::Emphasis { content, user_data } => inlines_data_all(content@, p),
        generic::Inline::Strong { content, user_data } => inlines_data_all(content@, p),
        generic::Inline::Strikethrough { content, user_data } => inlines_data_all(content@, p),
        _ => true,
    }
}

/// Whether `p` holds of the user data on the inline and on every node
/// below it.
pub open spec fn inline_data_all<T>(g: generic::Inline<T>, p: spec_fn(T) -> bool) -> bool
    decreases g, 1nat,
{
    p(inline_user_data(g)) && inline_data_below(g, p)
}

/// Whether `p` holds of the user data on each of the inlines and on every
/// node below them.
pub open spec fn inlines_data_all<T>(s: Seq<generic::Inline<T>>, p: spec_fn(T) -> bool) -> bool
    decreases s, 0nat,
{
    forall|k: int| 0 <= k < s.len() ==> inline_data_all(#[trigger] s[k], p)
}

/// Whether `p` holds of the user data on every inline of the cells of a
/// table row.
pub open spec fn row_data_all<T>(s: Seq<generic::TableCell<T>>, p: spec_fn(T) -> bool) -> bool {
    forall|k: int| 0 <= k < s.len() ==> inlines_data_all((#[trigger] s[k]).content@, p)
}

/// Whether `p` holds of the user data on every inline of the cells of the
/// table rows.
pub open spec fn rows_data_all<T>(s: Seq<Vec<generic::TableCell<T>>>, p: spec_fn(T) -> bool) -> bool {
    forall|k: int| 0 <= k < s.len() ==> row_data_all((#[trigger] s[k])@, p)
}

/// Whether `p` holds of the user data on every node below the block.
pub open spec fn block_data_below<T>(g: generic::Block<T>, p: spec_fn(T) -> bool) -> bool
    decreases g, 0nat,
{
    match g {
        generic::Block::Paragraph { content, user_data } => inlines_data_all(content@, p),
        generic::Block::Heading(h) => inlines_data_all(h.content@, p),
        generic::Block::BlockQuote { blocks, user_data } => blocks_data_all(blocks@, p),
        generic::Block::List(l) => items_data_all(l.items@, p),
        generic::Block::Definition(d) => inlines_data_all(d.label@, p),
        generic::Block::Table(t) => rows_data_all(t.rows@, p),
        generic::Block::FootnoteDefinition(f) => blocks_data_all(f.blocks@, p),
        generic::Block::GitHubAlert(a) => blocks_data_all(a.blocks@, p),
        generic::Block::Container(c) => blocks_data_all(c.blocks@, p),
        _ => true,
    }
}

/// Whether `p` holds of the user data on the block and on every node
/// below it.
pub open spec fn block_data_all<T>(g: generic::Block<T>, p: spec_fn(T) -> bool) -> bool
    decreases g, 1nat,
{
    p(block_user_data(g)) && block_data_below(g, p)
}

/// Whether `p` holds of the user data on each of the blocks and on every
/// node below them.
pub open spec fn blocks_data_all<T>(s: Seq<generic::Block<T>>, p: spec_fn(T) -> bool) -> bool
    decreases s, 0nat,
{
    forall|k: int| 0 <= k < s.len() ==> block_data_all(#[trigger] s[k], p)
}

/// Whether `p` holds of the user data on each of the list items and on
/// every node below them.
pub open spec fn items_data_all<T>(s: Seq<generic::ListItem<T>>, p: spec_fn(T) -> bool) -> bool
    decreases s, 0nat,
{
    forall|k: int|
        0 <= k < s.len() ==> p((#[trigger] s[k]).user_data) && blocks_data_all(s[k].blocks@, p)
}

/// Puts `data` on an inline and the default on every inline below it.
pub fn inline_with_data<T: Default>(inline: Inline, data: T) -> (r: generic::Inline<T>)
    ensures
        inline_plain(r) == inline_model(inline),
        inline_user_data(r) == data,
        inline_data_below(r, default_values::<T>()),
    decreases inline,
{
    match inline {
        Inline::Text(content) => generic::Inline::Text { content, user_data: data },
        Inline::LineBreak => generic::Inline::LineBreak { user_data: data },
        Inline::Code(content) => generic::Inline::Code { content, user_data: data },
        Inline::Latex(content) => generic::Inline::Latex { content, user_data: data },
        Inline::Html(content) => generic::Inline::Html { content, user_data: data },
        Inline::Link(link) => {
            let Link { destination, title, children } = link;
            let children = inlines_with_data(children);
            generic::Inline::Link(generic::Link { destination, title, children, user_data: data })
        },
        Inline::LinkReference(link_ref) => {
            let LinkReference { label, text } = link_ref;
            let label = inlines_with_data(label);
            let text = inlines_with_data(text);
            generic::Inline::LinkReference(generic::LinkReference { label, text, user_data: data })
        },
        Inline::Image(image) => {
            let Image { destination, title, alt, attr } = image;
            let attr = attr_with_data(attr);
            generic::Inline::Image(
                generic::Image { destination, title, alt, attr, user_data: data },
            )
        },
        Inline::Emphasis(content) => generic::Inline::Emphasis {
            content: inlines_with_data(content),
            user_data: data,
        },
        Inline::Strong(content) => generic::Inline::Strong {
            content: inlines_with_data(content),
            user_data: data,
        },
        Inline::Strikethrough(content) => generic::Inline::Strikethrough {
            content: inlines_with_data(content),
            user_data: data,
        },
        Inline::Autolink(url) => generic::Inline::Autolink { url, user_data: data },
        Inline::FootnoteReference(label) => generic::Inline::FootnoteReference {
            label,
            user_data: data,
        },
        Inline::Empty => generic::Inline::Empty { user_data: data },
    }
}

/// Puts the default on each of the inlines and on every inline below
/// them.
pub fn inlines_with_data<T: Default>(inlines: Vec<Inline>) -> (r: Vec<generic::Inline<T>>)
    ensures
        inlines_plain(r@) == inlines_model(inlines@),
        inlines_data_all(r@, default_values::<T>()),
    decreases inlines,
{
    let ghost before = inlines@;
    let mut out: Vec<generic::Inline<T>> = Vec::new();
    for x in it: inlines.into_iter()
        invariant
            it.seq() == before,
            before == inlines@,
            out.len() == it.index(),
            forall|j: int|
                0 <= j < it.index() ==> inline_plain(#[trigger] out@[j]) == inline_model(before[j]),
            inlines_data_all(out@, default_values::<T>()),
    {
        assert(x == before[it.index() as int]);
        let y = inline_with_data(x, T::default());
        out.push(y);
    }
    assert(inlines_plain(out@) =~= inlines_model(before));
    out
}

fn row_with_data<T: Default>(row: Vec<TableCell>) -> (r: Vec<generic::TableCell<T>>)
    ensures
        row_plain(r@) == row_model(row@),
        row_data_all(r@, default_values::<T>()),
{
    let ghost before = row@;
    let mut out: Vec<generic::TableCell<T>> = Vec::new();
    for x in it: row.into_iter()
        invariant
            it.seq() == before,
            out.len() == it.index(),
            forall|j: int|
                0 <= j < it.index() ==> cell_plain(#[trigger] out@[j]) == cell_model(before[j]),
            row_data_all(out@, default_values::<T>()),
    {
        assert(x == before[it.index() as int]);
        let TableCell { content, colspan, rowspan, removed_by_extended_table } = x;
        let content = inlines_with_data(content);
        out.push(generic::TableCell { content, colspan, rowspan, removed_by_extended_table });
    }
    assert(row_plain(out@) =~= row_model(before));
    out
}

fn rows_with_data<T: Default>(rows: Vec<Vec<TableCell>>) -> (r: Vec<Vec<generic::TableCell<T>>>)
    ensures
        rows_plain(r@) == rows_model(rows@),
        rows_data_all(r@, default_values::<T>()),
{
    let ghost before = rows@;
    let mut out: Vec<Vec<generic::TableCell<T>>> = Vec::new();
    for x in it: rows.into_iter()
        invariant
            it.seq() == before,
            out.len() == it.index(),
            forall|j: int|
                0 <= j < it.index() ==> row_plain((#[trigger] out@[j])@) == row_model(before[j]@),
            rows_data_all(out@, default_values::<T>()),
    {
        assert(x == before[it.index() as int]);
        let y = row_with_data(x);
        out.push(y);
    }
    assert(rows_plain(out@) =~= rows_model(before));
    out
}

/// Puts `data` on a block and the default on every node below it.
pub fn block_with_data<T: Default>(block: Block, data: T) -> (r: generic::Block<T>)
    ensures
        block_plain(r) == block_model(block),
        block_user_data(r) == data,
        block_data_below(r, default_values::<T>()),
    decreases block,
{
    match block {
        Block::Paragraph(content) => generic::Block::Paragraph {
            content: inlines_with_data(content),
            user_data: data,
        },
        Block::Heading(heading) => {
            let Heading { kind, content } = heading;
            let content = inlines_with_data(content);
            generic::Block::Heading(generic::Heading { kind, content, user_data: data })
        },
        Block::ThematicBreak => generic::Block::ThematicBreak { user_data: data },
        Block::BlockQuote(blocks) => generic::Block::BlockQuote {
            blocks: blocks_with_data(blocks),
            user_data: data,
        },
        Block::List(list) => {
            let List { kind, items } = list;
            let items = items_with_data(items);
            generic::Block::List(
                generic::List { kind: list_kind_with_data(kind), items, user_data: data },
            )
        },
        Block::CodeBlock(code_block) => {
            let CodeBlock { kind, literal } = code_block;
            generic::Block::CodeBlock(generic::CodeBlock { kind, literal, user_data: data })
        },
        Block::HtmlBlock(content) => generic::Block::HtmlBlock { content, user_data: data },
        Block::Definition(def) => {
            let LinkDefinition { label, destination, title } = def;
            let label = inlines_with_data(label);
            generic::Block::Definition(
                generic::LinkDefinition { label, destination, title, user_data: data },
            )
        },
        Block::Table(table) => {
            let Table { rows, alignments } = table;
            let rows = rows_with_data(rows);
            generic::Block::Table(generic::Table { rows, alignments, user_data: data })
        },
        Block::FootnoteDefinition(footnote) => {
            let FootnoteDefinition { label, blocks } = footnote;
            let blocks = blocks_with_data(blocks);
            generic::Block::FootnoteDefinition(
                generic::FootnoteDefinition { label, blocks, user_data: data },
            )
        },
        Block::GitHubAlert(alert) => {
            let GitHubAlert { alert_type, blocks } = alert;
            let blocks = blocks_with_data(blocks);
            generic::Block::GitHubAlert(
                generic::GitHubAlertNode { alert_type, blocks, user_data: data },
            )
        },
        Block::LatexBlock(content) => generic::Block::LatexBlock { content, user_data: data },
        Block::Empty => generic::Block::Empty { user_data: data },
        Block::Container(container) => {
            let Container { kind, params, blocks } = container;
            let blocks = blocks_with_data(blocks);
            generic::Block::Container(generic::Container { kind, params, blocks, user_data: data })
        },
    }
}

/// Puts the default on each of the blocks and on every node below them.
pub fn blocks_with_data<T: Default>(blocks: Vec<Block>) -> (r: Vec<generic::Block<T>>)
    ensures
        blocks_plain(r@) == blocks_model(blocks@),
        blocks_data_all(r@, default_values::<T>()),
    decreases blocks,
{
    let ghost before = blocks@;
    let mut out: Vec<generic::Block<T>> = Vec::new();
    for x in it: blocks.into_iter()
        invariant
            it.seq() == before,
            before == blocks@,
            out.len() == it.index(),
            forall|j: int|
                0 <= j < it.index() ==> block_plain(#[trigger] out@[j]) == block_model(before[j]),
            blocks_data_all(out@, default_values::<T>()),
    {
        assert(x == before[it.index() as int]);
        let y = block_with_data(x, T::default());
        out.push(y);
    }
    assert(blocks_plain(out@) =~= blocks_model(before));
    out
}

fn items_with_data<T: Default>(items: Vec<ListItem>) -> (r: Vec<generic::ListItem<T>>)
    ensures
        items_plain(r@) == items_model(items@),
        items_data_all(r@, default_values::<T>()),
    decreases items,
{
    let ghost before = items@;
    let mut out: Vec<generic::ListItem<T>> = Vec::new();
    for x in it: items.into_iter()
        invariant
            it.seq() == before,
            before == items@,
            out.len() == it.index(),
            items_data_all(out@, default_values::<T>()),
            forall|j: int|
                0 <= j < it.index() ==> (#[trigger] out@[j]).task == before[j].task
                    && blocks_plain(out@[j].blocks@) == blocks_model(before[j].blocks@),
    {
        assert(x == before[it.index() as int]);
        let ListItem { task, blocks } = x;
        let blocks = blocks_with_data(blocks);
        out.push(generic::ListItem { task, blocks, user_data: T::default() });
    }
    assert(items_plain(out@) =~= items_model(before));
    out
}

/// Takes the user data off an inline and off every inline below it.
pub fn inline_stripped<T>(g: generic::Inline<T>) -> (r: Inline)
    ensures
        inline_model(r) == inline_plain(g),
    decreases g,
{
    match g {
        generic::Inline::Text { content, user_data } => Inline::Text(content),
        generic::Inline::LineBreak { user_data } => Inline::LineBreak,
        generic::Inline::Code { content, user_data } => Inline::Code(content),
        generic::Inline::Latex { content, user_data } => Inline::Latex(content),
        generic::Inline::Html { content, user_data } => Inline::Html(content),
        generic::Inline::Link(link) => {
            let generic::Link { destination, title, children, user_data } = link;
            let children = inlines_stripped(children);
            Inline::Link(Link { destination, title, children })
        },
        generic::Inline::LinkReference(link_ref) => {
            let generic::LinkReference { label, text, user_data } = link_ref;
            let label = inlines_stripped(label);
            let text = inlines_stripped(text);
            Inline::LinkReference(LinkReference { label, text })
        },
        generic::Inline::Image(image) => {
            let generic::Image { destination, title, alt, attr, user_data } = image;
            let attr = attr_stripped(attr);
            Inline::Image(Image { destination, title, alt, attr })
        },
        generic::Inline::Emphasis { content, user_data } => Inline::Emphasis(
            inlines_stripped(content),
        ),
        generic::Inline::Strong { content, user_data } => Inline::Strong(inlines_stripped(content)),
        generic::Inline::Strikethrough { content, user_data } => Inline::Strikethrough(
            inlines_stripped(content),
        ),
        generic::Inline::Autolink { url, user_data } => Inline::Autolink(url),
        generic::Inline::FootnoteReference { label, user_data } => Inline::FootnoteReference(label),
        generic::Inline::Empty { user_data } => Inline::Empty,
    }
}

/// Takes the user data off each of the inlines.
pub fn inlines_stripped<T>(inlines: Vec<generic::Inline<T>>) -> (r: Vec<Inline>)
    ensures
        inlines_model(r@) == inlines_plain(inlines@),
    decreases inlines,
{
    let ghost before = inlines@;
    let mut out: Vec<Inline> = Vec::new();
    for x in it: inlines.into_iter()
        invariant
            it.seq() == before,
            before == inlines@,
            out.len() == it.index(),
            forall|j: int|
                0 <= j < it.index() ==> inline_model(#[trigger] out@[j]) == inline_plain(before[j]),
    {
        assert(x == before[it.index() as int]);
        let y = inline_stripped(x);
        out.push(y);
    }
    assert(inlines_model(out@) =~= inlines_plain(before));
    out
}

fn row_stripped<T>(row: Vec<generic::TableCell<T>>) -> (r: Vec<TableCell>)
    ensures
        row_model(r@) == row_plain(row@),
{
    let ghost before = row@;
    let mut out: Vec<TableCell> = Vec::new();
    for x in it: row.into_iter()
        invariant
            it.seq() == before,
            out.len() == it.index(),
            forall|j: int|
                0 <= j < it.index() ==> cell_model(#[trigger] out@[j]) == cell_plain(before[j]),
    {
        assert(x == before[it.index() as int]);
        let generic::TableCell { content, colspan, rowspan, removed_by_extended_table } = x;
        let content = inlines_stripped(content);
        out.push(TableCell { content, colspan, rowspan, removed_by_extended_table });
    }
    assert(row_model(out@) =~= row_plain(before));
    out
}

fn rows_stripped<T>(rows: Vec<Vec<generic::TableCell<T>>>) -> (r: Vec<Vec<TableCell>>)
    ensures
        rows_model(r@) == rows_plain(rows@),
{
    let ghost before = rows@;
    let mut out: Vec<Vec<TableCell>> = Vec::new();
    for x in it: rows.into_iter()
        invariant
            it.seq() == before,
            out.len() == it.index(),
            forall|j: int|
                0 <= j < it.index() ==> row_model((#[trigger] out@[j])@) == row_plain(before[j]@),
    {
        assert(x == before[it.index() as int]);
        let y = row_stripped(x);
        out.push(y);
    }
    assert(rows_model(out@) =~= rows_plain(before));
    out
}

/// Takes the user data off a block and off every node below it.
pub fn block_stripped<T>(g: generic::Block<T>) -> (r: Block)
    ensures
        block_model(r) == block_plain(g),
    decreases g,
{
    match g {
        generic::Block::Paragraph { content, user_data } => Block::Paragraph(
            inlines_stripped(content),
        ),
        generic::Block::Heading(heading) => {
            let generic::Heading { kind, content, user_data } = heading;
            let content = inlines_stripped(content);
            Block::Heading(Heading { kind, content })
        },
        generic::Block::ThematicBreak { user_data } => Block::ThematicBreak,
        generic::Block::BlockQuote { blocks, user_data } => Block::BlockQuote(
            blocks_stripped(blocks),
        ),
        generic::Block::List(list) => {
            let generic::List { kind, items, user_data } = list;
            let items = items_stripped(items);
            Block::List(List { kind: list_kind_stripped(kind), items })
        },
        generic::Block::CodeBlock(code_block) => {
            let generic::CodeBlock { kind, literal, user_data } = code_block;
            Block::CodeBlock(CodeBlock { kind, literal })
        },
        generic::Block::HtmlBlock { content, user_data } => Block::HtmlBlock(content),
        generic::Block::Definition(def) => {
            let generic::LinkDefinition { label, destination, title, user_data } = def;
            let label = inlines_stripped(label);
            Block::Definition(LinkDefinition { label, destination, title })
        },
        generic::Block::Table(table) => {
            let generic::Table { rows, alignments, user_data } = table;
            let rows = rows_stripped(rows);
            Block::Table(Table { rows, alignments })
        },
        generic::Block::FootnoteDefinition(footnote) => {
            let generic::FootnoteDefinition { label, blocks, user_data } = footnote;
            let blocks = blocks_stripped(blocks);
            Block::FootnoteDefinition(FootnoteDefinition { label, blocks })
        },
        generic::Block::GitHubAlert(alert) => {
            let generic::GitHubAlertNode { alert_type, blocks, user_data } = alert;
            let blocks = blocks_stripped(blocks);
            Block::GitHubAlert(GitHubAlert { alert_type, blocks })
        },
        generic::Block::LatexBlock { content, user_data } => Block::LatexBlock(content),
        generic::Block::Empty { user_data } => Block::Empty,
        generic::Block::Container(container) => {
            let generic::Container { kind, params, blocks, user_data } = container;
            let blocks = blocks_stripped(blocks);
            Block::Container(Container { kind, params, blocks })
        },
    }
}

/// Takes the user data off each of the blocks.
pub fn blocks_stripped<T>(blocks: Vec<generic::Block<T>>) -> (r: Vec<Block>)
    ensures
        blocks_model(r@) == blocks_plain(blocks@),
    decreases blocks,
{
    let ghost before = blocks@;
    let mut out: Vec<Block> = Vec::new();
    for x in it: blocks.into_iter()
        invariant
            it.seq() == before,
            before == blocks@,
            out.len() == it.index(),
            forall|j: int|
                0 <= j < it.index() ==> block_model(#[trigger] out@[j]) == block_plain(before[j]),
    {
        assert(x == before[it.index() as int]);
        let y = block_stripped(x);
        out.push(y);
    }
    assert(blocks_model(out@) =~= blocks_plain(before));
    out
}

fn items_stripped<T>(items: Vec<generic::ListItem<T>>) -> (r: Vec<ListItem>)
    ensures
        items_model(r@) == items_plain(items@),
    decreases items,
{
    let ghost before = items@;
    let mut out: Vec<ListItem> = Vec::new();
    for x in it: items.into_iter()
        invariant
            it.seq() == before,
            before == items@,
            out.len() == it.index(),
            forall|j: int|
                0 <= j < it.index() ==> (#[trigger] out@[j]).task == before[j].task
                    && blocks_model(out@[j].blocks@) == blocks_plain(before[j].blocks@),
    {
        assert(x == before[it.index() as int]);
        let generic::ListItem { task, blocks, user_data } = x;
        let blocks = blocks_stripped(blocks);
        out.push(ListItem { task, blocks });
    }
    assert(items_model(out@) =~= items_plain(before));
    out
}

impl<T: Default> WithData<T> for Document {
    type WithDataType = generic::Document<T>;

    open spec fn carries(&self, with: generic::Document<T>) -> bool {
        &&& document_plain(with) == self@
        &&& blocks_data_all(with.blocks@, default_values::<T>())
    }

    open spec fn data_on(with: generic::Document<T>) -> T {
        with.user_data
    }

    fn with_data(self, data: T) -> (r: generic::Document<T>) {
        let Document { blocks } = self;
        generic::Document { blocks: blocks_with_data(blocks), user_data: data }
    }
}

impl<T: Default> WithData<T> for Block {
    type WithDataType = generic::Block<T>;

    open spec fn carries(&self, with: generic::Block<T>) -> bool {
        &&& block_plain(with) == self@
        &&& block_data_below(with, default_values::<T>())
    }

    open spec fn data_on(with: generic::Block<T>) -> T {
        block_user_data(with)
    }

    fn with_data(self, data: T) -> (r: generic::Block<T>) {
        block_with_data(self, data)
    }
}

impl<T: Default> WithData<T> for Inline {
    type WithDataType = generic::Inline<T>;

    open spec fn carries(&self, with: generic::Inline<T>) -> bool {
        &&& inline_plain(with) == self@
        &&& inline_data_below(with, default_values::<T>())
    }

    open spec fn data_on(with: generic::Inline<T>) -> T {
        inline_user_data(with)
    }

    fn with_data(self, data: T) -> (r: generic::Inline<T>) {
        inline_with_data(self, data)
    }
}

impl<T: Default> WithData<T> for Container {
    type WithDataType = generic::Container<T>;

    open spec fn carries(&self, with: generic::Container<T>) -> bool {
        &&& block_plain(generic::Block::Container(with)) == self@
        &&& block_data_below(generic::Block::Container(with), default_values::<T>())
    }

    open spec fn data_on(with: generic::Container<T>) -> T {
        with.user_data
    }

    fn with_data(self, data: T) -> (r: generic::Container<T>) {
        let Container { kind, params, blocks } = self;
        generic::Container { kind, params, blocks: blocks_with_data(blocks), user_data: data }
    }
}

impl<T: Default> WithData<T> for Heading {
    type WithDataType = generic::Heading<T>;

    open spec fn carries(&self, with: generic::Heading<T>) -> bool {
        &&& block_plain(generic::Block::Heading(with)) == self@
        &&& block_data_below(generic::Block::Heading(with), default_values::<T>())
    }

    open spec fn data_on(with: generic::Heading<T>) -> T {
        with.user_data
    }

    fn with_data(self, data: T) -> (r: generic::Heading<T>) {
        let Heading { kind, content } = self;
        generic::Heading { kind, content: inlines_with_data(content), user_data: data }
    }
}

impl<T: Default> WithData<T> for List {
    type WithDataType = generic::List<T>;

    open spec fn carries(&self, with: generic::List<T>) -> bool {
        &&& block_plain(generic::Block::List(with)) == self@
        &&& block_data_below(generic::Block::List(with), default_values::<T>())
    }

    open spec fn data_on(with: generic::List<T>) -> T {
        with.user_data
    }

    fn with_data(self, data: T) -> (r: generic::List<T>) {
        let List { kind, items } = self;
        generic::List {
            kind: list_kind_with_data(kind),
            items: items_with_data(items),
            user_data: data,
        }
    }
}

impl<T: Default> WithData<T> for ListItem {
    type WithDataType = generic::ListItem<T>;

    open spec fn carries(&self, with: generic::ListItem<T>) -> bool {
        &&& with.task == self.task && blocks_plain(with.blocks@) == blocks_model(self.blocks@)
        &&& blocks_data_all(with.blocks@, default_values::<T>())
    }

    open spec fn data_on(with: generic::ListItem<T>) -> T {
        with.user_data
    }

    fn with_data(self, data: T) -> (r: generic::ListItem<T>) {
        let ListItem { task, blocks } = self;
        generic::ListItem { task, blocks: blocks_with_data(blocks), user_data: data }
    }
}

impl<T: Default> WithData<T> for CodeBlock {
    type WithDataType = generic::CodeBlock<T>;

    open spec fn carries(&self, with: generic::CodeBlock<T>) -> bool {
        block_plain(generic::Block::CodeBlock(with)) == self@
    }

    open spec fn data_on(with: generic::CodeBlock<T>) -> T {
        with.user_data
    }

    fn with_data(self, data: T) -> (r: generic::CodeBlock<T>) {
        let CodeBlock { kind, literal } = self;
        generic::CodeBlock { kind, literal, user_data: data }
    }
}

impl<T: Default> WithData<T> for LinkDefinition {
    type WithDataType = generic::LinkDefinition<T>;

    open spec fn carries(&self, with: generic::LinkDefinition<T>) -> bool {
        &&& block_plain(generic::Block::Definition(with)) == self@
        &&& block_data_below(generic::Block::Definition(with), default_values::<T>())
    }

    open spec fn data_on(with: generic::LinkDefinition<T>) -> T {
        with.user_data
    }

    fn with_data(self, data: T) -> (r: generic::LinkDefinition<T>) {
        let LinkDefinition { label, destination, title } = self;
        generic::LinkDefinition {
            label: inlines_with_data(label),
            destination,
            title,
            user_data: data,
        }
    }
}

impl<T: Default> WithData<T> for Table {
    type WithDataType = generic::Table<T>;

    open spec fn carries(&self, with: generic::Table<T>) -> bool {
        &&& block_plain(generic::Block::Table(with)) == self@
        &&& block_data_below(generic::Block::Table(with), default_values::<T>())
    }

    open spec fn data_on(with: generic::Table<T>) -> T {
        with.user_data
    }

    fn with_data(self, data: T) -> (r: generic::Table<T>) {
        let Table { rows, alignments } = self;
        generic::Table { rows: rows_with_data(rows), alignments, user_data: data }
    }
}

impl<T: Default> WithData<T> for FootnoteDefinition {
    type WithDataType = generic::FootnoteDefinition<T>;

    open spec fn carries(&self, with: generic::FootnoteDefinition<T>) -> bool {
        &&& block_plain(generic::Block::FootnoteDefinition(with)) == self@
        &&& block_data_below(
            generic::Block::FootnoteDefinition(with),
            default_values::<T>(),
        )
    }

    open spec fn data_on(with: generic::FootnoteDefinition<T>) -> T {
        with.user_data
    }

    fn with_data(self, data: T) -> (r: generic::FootnoteDefinition<T>) {
        let FootnoteDefinition { label, blocks } = self;
        generic::FootnoteDefinition { label, blocks: blocks_with_data(blocks), user_data: data }
    }
}

impl<T: Default> WithData<T> for GitHubAlert {
    type WithDataType = generic::GitHubAlertNode<T>;

    open spec fn carries(&self, with: generic::GitHubAlertNode<T>) -> bool {
        &&& block_plain(generic::Block::GitHubAlert(with)) == self@
        &&& block_data_below(generic::Block::GitHubAlert(with), default_values::<T>())
    }

    open spec fn data_on(with: generic::GitHubAlertNode<T>) -> T {
        with.user_data
    }

    fn with_data(self, data: T) -> (r: generic::GitHubAlertNode<T>) {
        let GitHubAlert { alert_type, blocks } = self;
        generic::GitHubAlertNode { alert_type, blocks: blocks_with_data(blocks), user_data: data }
    }
}

impl<T: Default> WithData<T> for Link {
    type WithDataType = generic::Link<T>;

    open spec fn carries(&self, with: generic::Link<T>) -> bool {
        &&& inline_plain(generic::Inline::Link(with)) == self@
        &&& inline_data_below(generic::Inline::Link(with), default_values::<T>())
    }

    open spec fn data_on(with: generic::Link<T>) -> T {
        with.user_data
    }

    fn with_data(self, data: T) -> (r: generic::Link<T>) {
        let Link { destination, title, children } = self;
        generic::Link { destination, title, children: inlines_with_data(children), user_data: data }
    }
}

impl<T: Default> WithData<T> for Image {
    type WithDataType = generic::Image<T>;

    open spec fn carries(&self, with: generic::Image<T>) -> bool {
        inline_plain(generic::Inline::Image(with)) == self@
    }

    open spec fn data_on(with: generic::Image<T>) -> T {
        with.user_data
    }

    fn with_data(self, data: T) -> (r: generic::Image<T>) {
        let Image { destination, title, alt, attr } = self;
        generic::Image { destination, title, alt, attr: attr_with_data(attr), user_data: data }
    }
}

impl<T: Default> WithData<T> for LinkReference {
    type WithDataType = generic::LinkReference<T>;

    open spec fn carries(&self, with: generic::LinkReference<T>) -> bool {
        &&& inline_plain(generic::Inline::LinkReference(with)) == self@
        &&& inline_data_below(generic::Inline::LinkReference(with), default_values::<T>())
    }

    open spec fn data_on(with: generic::LinkReference<T>) -> T {
        with.user_data
    }

    fn with_data(self, data: T) -> (r: generic::LinkReference<T>) {
        let LinkReference { label, text } = self;
        generic::LinkReference {
            label: inlines_with_data(label),
            text: inlines_with_data(text),
            user_data: data,
        }
    }
}

impl<T> StripData<T> for generic::Document<T> {
    type StrippedType = Document;

    open spec fn leaves(&self, plain: Document) -> bool {
        plain@ == document_plain(*self)
    }

    fn strip_data(self) -> (r: Document) {
        let generic::Document { blocks, user_data } = self;
        Document { blocks: blocks_stripped(blocks) }
    }
}

impl<T> StripData<T> for generic::Block<T> {
    type StrippedType = Block;

    open spec fn leaves(&self, plain: Block) -> bool {
        plain@ == block_plain(*self)
    }

    fn strip_data(self) -> (r: Block) {
        block_stripped(self)
    }
}

impl<T> StripData<T> for generic::Inline<T> {
    type StrippedType = Inline;

    open spec fn leaves(&self, plain: Inline) -> bool {
        plain@ == inline_plain(*self)
    }

    fn strip_data(self) -> (r: Inline) {
        inline_stripped(self)
    }
}

impl<T> StripData<T> for generic::Heading<T> {
    type StrippedType = Heading;

    open spec fn leaves(&self, plain: Heading) -> bool {
        plain@ == block_plain(generic::Block::Heading(*self))
    }

    fn strip_data(self) -> (r: Heading) {
        let generic::Heading { kind, content, user_data } = self;
        Heading { kind, content: inlines_stripped(content) }
    }
}

impl<T> StripData<T> for generic::List<T> {
    type StrippedType = List;

    open spec fn leaves(&self, plain: List) -> bool {
        plain@ == block_plain(generic::Block::List(*self))
    }

    fn strip_data(self) -> (r: List) {
        let generic::List { kind, items, user_data } = self;
        List { kind: list_kind_stripped(kind), items: items_stripped(items) }
    }
}

impl<T> StripData<T> for generic::ListItem<T> {
    type StrippedType = ListItem;

    open spec fn leaves(&self, plain: ListItem) -> bool {
        plain.task == self.task && blocks_model(plain.blocks@) == blocks_plain(self.blocks@)
    }

    fn strip_data(self) -> (r: ListItem) {
        let generic::ListItem { task, blocks, user_data } = self;
        ListItem { task, blocks: blocks_stripped(blocks) }
    }
}

impl<T> StripData<T> for generic::CodeBlock<T> {
    type StrippedType = CodeBlock;

    open spec fn leaves(&self, plain: CodeBlock) -> bool {
        plain@ == block_plain(generic::Block::CodeBlock(*self))
    }

    fn strip_data(self) -> (r: CodeBlock) {
        let generic::CodeBlock { kind, literal, user_data } = self;
        CodeBlock { kind, literal }
    }
}

impl<T> StripData<T> for generic::LinkDefinition<T> {
    type StrippedType = LinkDefinition;

    open spec fn leaves(&self, plain: LinkDefinition) -> bool {
        plain@ == block_plain(generic::Block::Definition(*self))
    }

    fn strip_data(self) -> (r: LinkDefinition) {
        let generic::LinkDefinition { label, destination, title, user_data } = self;
        LinkDefinition { label: inlines_stripped(label), destination, title }
    }
}

impl<T> StripData<T> for generic::Table<T> {
    type StrippedType = Table;

    open spec fn leaves(&self, plain: Table) -> bool {
        plain@ == block_plain(generic::Block::Table(*self))
    }

    fn strip_data(self) -> (r: Table) {
        let generic::Table { rows, alignments, user_data } = self;
        Table { rows: rows_stripped(rows), alignments }
    }
}

impl<T> StripData<T> for generic::FootnoteDefinition<T> {
    type StrippedType = FootnoteDefinition;

    open spec fn leaves(&self, plain: FootnoteDefinition) -> bool {
        plain@ == block_plain(generic::Block::FootnoteDefinition(*self))
    }

    fn strip_data(self) -> (r: FootnoteDefinition) {
        let generic::FootnoteDefinition { label, blocks, user_data } = self;
        FootnoteDefinition { label, blocks: blocks_stripped(blocks) }
    }
}

impl<T> StripData<T> for generic::GitHubAlertNode<T> {
    type StrippedType = GitHubAlert;

    open spec fn leaves(&self, plain: GitHubAlert) -> bool {
        plain@ == block_plain(generic::Block::GitHubAlert(*self))
    }

    fn strip_data(self) -> (r: GitHubAlert) {
        let generic::GitHubAlertNode { alert_type, blocks, user_data } = self;
        GitHubAlert { alert_type, blocks: blocks_stripped(blocks) }
    }
}

impl<T> StripData<T> for generic::Link<T> {
    type StrippedType = Link;

    open spec fn leaves(&self, plain: Link) -> bool {
        plain@ == inline_plain(generic::Inline::Link(*self))
    }

    fn strip_data(self) -> (r: Link) {
        let generic::Link { destination, title, children, user_data } = self;
        Link { destination, title, children: inlines_stripped(children) }
    }
}

impl<T> StripData<T> for generic::Image<T> {
    type StrippedType = Image;

    open spec fn leaves(&self, plain: Image) -> bool {
        plain@ == inline_plain(generic::Inline::Image(*self))
    }

    fn strip_data(self) -> (r: Image) {
        let generic::Image { destination, title, alt, attr, user_data } = self;
        Image { destination, title, alt, attr: attr_stripped(attr) }
    }
}

impl<T> StripData<T> for generic::LinkReference<T> {
    type StrippedType = LinkReference;

    open spec fn leaves(&self, plain: LinkReference) -> bool {
        plain@ == inline_plain(generic::Inline::LinkReference(*self))
    }

    fn strip_data(self) -> (r: LinkReference) {
        let generic::LinkReference { label, text, user_data } = self;
        LinkReference { label: inlines_stripped(label), text: inlines_stripped(text) }
    }
}

impl<T> StripData<T> for generic::Container<T> {
    type StrippedType = Container;

    open spec fn leaves(&self, plain: Container) -> bool {
        plain@ == block_plain(generic::Block::Container(*self))
    }

    fn strip_data(self) -> (r: Container) {
        let generic::Container { kind, params, blocks, user_data } = self;
        Container { kind, params, blocks: blocks_stripped(blocks) }
    }
}

/// The document with the unit value on every node.
pub fn to_generic(doc: Document) -> (r: generic::Document<()>)
    ensures
        document_plain(r) == doc@,
{
    doc.with_default_data()
}

/// The document without the unit values. What [`to_generic`] has made
/// comes back as the document that it was made from.
pub fn from_generic(doc: generic::Document<()>) -> (r: Document)
    ensures
        r@ == document_plain(doc),
{
    doc.strip_data()
}

/// Putting user data on a document and taking them off again gives the
/// document back: whatever document with user data has the plain model of
/// `doc`, the document that is left of it has the model of `doc`.
pub proof fn lemma_round_trip<T>(doc: Document, with_data: generic::Document<T>, back: Document)
    requires
        document_plain(with_data) == doc@,
        back@ == document_plain(with_data),
    ensures
        back@ == doc@,
{
}

} // verus!
