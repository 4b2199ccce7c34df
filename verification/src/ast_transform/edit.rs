//! Rewriting of the strings of a tree, one kind of string at a time: what
//! it means, and the walk that does it.

use vstd::prelude::*;
use crate::ast::{
    Block, Container, FootnoteDefinition, GitHubAlert, Heading, Image, Inline, Link,
    LinkDefinition, LinkReference, List, ListItem, Table, TableCell,
};
use crate::ast::model::{
    block_model, blocks_model, cell_model, inline_model, inlines_model, items_model, row_model,
    rows_model, BlockModel, DocumentModel, InlineModel, ListItemModel, TableCellModel,
};
use crate::parser::chars::unicode_whitespace;

verus! {

/// Which strings of the tree an edit rewrites.
#[derive(Debug, Clone, Copy, PartialEq, Eq)]
pub enum Edit {
    /// The text of `Text` inlines.
    Text,
    /// The destination of images.
    ImageUrl,
    /// The destination of links.
    LinkUrl,
    /// The address of autolinks.
    AutolinkUrl,
    /// The text of code spans.
    Code,
    /// The text of inline HTML and of HTML blocks.
    Html,
    /// No string: every `Text` that holds nothing but whitespace becomes
    /// `Empty`.
    BlankText,
}

/// Whether all of `a` is whitespace.
pub open spec fn all_whitespace(a: Seq<char>) -> bool {
    forall|k: int| 0 <= k < a.len() ==> unicode_whitespace(#[trigger] a[k])
}

/// Whether `after` is what the edit makes of the inline `before`, if `rel`
/// says what a string may become. The strings that the edit is for are
/// rewritten, wherever they stand below the inline; everything else stays.
pub open spec fn inline_edited(
    edit: Edit,
    rel: spec_fn(Seq<char>, Seq<char>) -> bool,
    before: InlineModel,
    after: InlineModel,
) -> bool
    decreases before,
{
    match before {
        InlineModel::Text(a) => match edit {
            Edit::Text => after matches InlineModel::Text(b) && rel(a, b),
            Edit::BlankText => after == if all_whitespace(a) {
                InlineModel::Empty
            } else {
                before
            },
            _ => after == before,
        },
        InlineModel::Code(a) => if edit == Edit::Code {
            after matches InlineModel::Code(b) && rel(a, b)
        } else {
            after == before
        },
        InlineModel::Html(a) => if edit == Edit::Html {
            after matches InlineModel::Html(b) && rel(a, b)
        } else {
            after == before
        },
        InlineModel::Autolink(a) => if edit == Edit::AutolinkUrl {
            after matches InlineModel::Autolink(b) && rel(a, b)
        } else {
            after == before
        },
        InlineModel::Image { destination, title, alt, attr } => if edit == Edit::ImageUrl {
            after matches InlineModel::Image { destination: d_new, title: t_new, alt: a_new, attr: attr_new }
                && rel(destination, d_new) && t_new == title && a_new == alt && attr_new == attr
        } else {
            after == before
        },
        InlineModel::Link { destination, title, children } => after matches InlineModel::Link {
            destination: d_new,
            title: t_new,
            children: c_new,
        } && t_new == title && (if edit == Edit::LinkUrl {
            rel(destination, d_new)
        } else {
            d_new == destination
        }) && inlines_edited(edit, rel, children, c_new),
        InlineModel::LinkReference { label, text } => after matches InlineModel::LinkReference {
            label: label_new,
            text: t_new,
        } && inlines_edited(edit, rel, label, label_new) && inlines_edited(edit, rel, text, t_new),
        InlineModel::Emphasis(c) => after matches InlineModel::Emphasis(c_new) && inlines_edited(
            edit,
            rel,
            c,
            c_new,
        ),
        InlineModel::Strong(c) => after matches InlineModel::Strong(c_new) && inlines_edited(
            edit,
            rel,
            c,
            c_new,
        ),
        InlineModel::Strikethrough(c) => after matches InlineModel::Strikethrough(c_new)
            && inlines_edited(edit, rel, c, c_new),
        InlineModel::LineBreak => after == before,
        InlineModel::Latex(_) => after == before,
        InlineModel::FootnoteReference(_) => after == before,
        InlineModel::Empty => after == before,
    }
}

/// Whether `after` is what the edit makes of the inlines `before`, one for
/// one.
pub open spec fn inlines_edited(
    edit: Edit,
    rel: spec_fn(Seq<char>, Seq<char>) -> bool,
    before: Seq<InlineModel>,
    after: Seq<InlineModel>,
) -> bool
    decreases before,
{
    before.len() == after.len() && forall|k: int|
        0 <= k < before.len() ==> inline_edited(edit, rel, before[k], #[trigger] after[k])
}

/// Whether `after` is what the edit makes of the table cell `before`.
pub open spec fn cell_edited(
    edit: Edit,
    rel: spec_fn(Seq<char>, Seq<char>) -> bool,
    before: TableCellModel,
    after: TableCellModel,
) -> bool {
    inlines_edited(edit, rel, before.content, after.content) && after.colspan == before.colspan
        && after.rowspan == before.rowspan && after.removed_by_extended_table
        == before.removed_by_extended_table
}

/// Whether `after` is what the edit makes of the table row `before`, cell
/// for cell.
pub open spec fn row_edited(
    edit: Edit,
    rel: spec_fn(Seq<char>, Seq<char>) -> bool,
    before: Seq<TableCellModel>,
    after: Seq<TableCellModel>,
) -> bool {
    before.len() == after.len() && forall|k: int|
        0 <= k < before.len() ==> cell_edited(edit, rel, before[k], #[trigger] after[k])
}

/// Whether `after` is what the edit makes of the table rows `before`, row
/// for row.
pub open spec fn rows_edited(
    edit: Edit,
    rel: spec_fn(Seq<char>, Seq<char>) -> bool,
    before: Seq<Seq<TableCellModel>>,
    after: Seq<Seq<TableCellModel>>,
) -> bool {
    before.len() == after.len() && forall|k: int|
        0 <= k < before.len() ==> row_edited(edit, rel, before[k], #[trigger] after[k])
}

/// Whether `after` is what the edit makes of the block `before`. The
/// strings that the edit is for are rewritten, wherever they stand below
/// the block, the label of a link definition included; everything else
/// stays.
pub open spec fn block_edited(
    edit: Edit,
    rel: spec_fn(Seq<char>, Seq<char>) -> bool,
    before: BlockModel,
    after: BlockModel,
) -> bool
    decreases before,
{
    match before {
        BlockModel::Paragraph(c) => after matches BlockModel::Paragraph(c_new) && inlines_edited(
            edit,
            rel,
            c,
            c_new,
        ),
        BlockModel::Heading { kind, content } => after matches BlockModel::Heading {
            kind: kind_new,
            content: c_new,
        } && kind_new == kind && inlines_edited(edit, rel, content, c_new),
        BlockModel::BlockQuote(b) => after matches BlockModel::BlockQuote(blocks_new) && blocks_edited(
            edit,
            rel,
            b,
            blocks_new,
        ),
        BlockModel::List { kind, items } => after matches BlockModel::List { kind: kind_new, items: items_new }
            && kind_new == kind && items_edited(edit, rel, items, items_new),
        BlockModel::Table { rows, alignments } => after matches BlockModel::Table {
            rows: rows_new,
            alignments: a_new,
        } && a_new == alignments && rows_edited(edit, rel, rows, rows_new),
        BlockModel::FootnoteDefinition { label, blocks } => after matches BlockModel::FootnoteDefinition {
            label: label_new,
            blocks: blocks_new,
        } && label_new == label && blocks_edited(edit, rel, blocks, blocks_new),
        BlockModel::GitHubAlert { alert_type, blocks } => after matches BlockModel::GitHubAlert {
            alert_type: t_new,
            blocks: blocks_new,
        } && t_new == alert_type && blocks_edited(edit, rel, blocks, blocks_new),
        BlockModel::Definition { label, destination, title } => after matches BlockModel::Definition {
            label: label_new,
            destination: d_new,
            title: t_new,
        } && d_new == destination && t_new == title && inlines_edited(edit, rel, label, label_new),
        BlockModel::Container { kind, params, blocks } => after matches BlockModel::Container {
            kind: kind_new,
            params: params_new,
            blocks: blocks_new,
        } && kind_new == kind && params_new == params && blocks_edited(edit, rel, blocks, blocks_new),
        BlockModel::HtmlBlock(a) => if edit == Edit::Html {
            after matches BlockModel::HtmlBlock(b) && rel(a, b)
        } else {
            after == before
        },
        BlockModel::CodeBlock { .. } => after == before,
        BlockModel::ThematicBreak => after == before,
        BlockModel::LatexBlock(_) => after == before,
        BlockModel::Empty => after == before,
    }
}

/// Whether `after` is what the edit makes of the blocks `before`, one for
/// one.
pub open spec fn blocks_edited(
    edit: Edit,
    rel: spec_fn(Seq<char>, Seq<char>) -> bool,
    before: Seq<BlockModel>,
    after: Seq<BlockModel>,
) -> bool
    decreases before,
{
    before.len() == after.len() && forall|k: int|
        0 <= k < before.len() ==> block_edited(edit, rel, before[k], #[trigger] after[k])
}

/// Whether `after` is what the edit makes of the list items `before`, one
/// for one.
pub open spec fn items_edited(
    edit: Edit,
    rel: spec_fn(Seq<char>, Seq<char>) -> bool,
    before: Seq<ListItemModel>,
    after: Seq<ListItemModel>,
) -> bool
    decreases before,
{
    before.len() == after.len() && forall|k: int|
        0 <= k < before.len() ==> (#[trigger] after[k]).task == before[k].task && blocks_edited(
            edit,
            rel,
            before[k].blocks,
            after[k].blocks,
        )
}

/// Whether `after` is what the edit makes of the document `before`.
pub open spec fn document_edited(
    edit: Edit,
    rel: spec_fn(Seq<char>, Seq<char>) -> bool,
    before: DocumentModel,
    after: DocumentModel,
) -> bool {
    blocks_edited(edit, rel, before.blocks, after.blocks)
}

/// Whether `text` is one of the strings that the edit rewrites in the
/// inline or below it.
pub open spec fn inline_reads(edit: Edit, m: InlineModel, text: Seq<char>) -> bool
    decreases m,
{
    match m {
        InlineModel::Text(a) => edit == Edit::Text && text == a,
        InlineModel::Code(a) => edit == Edit::Code && text == a,
        InlineModel::Html(a) => edit == Edit::Html && text == a,
        InlineModel::Autolink(a) => edit == Edit::AutolinkUrl && text == a,
        InlineModel::Image { destination, title, alt, attr } => edit == Edit::ImageUrl && text
            == destination,
        InlineModel::Link { destination, title, children } => (edit == Edit::LinkUrl && text
            == destination) || inlines_reads(edit, children, text),
        InlineModel::LinkReference { label, text: shown } => inlines_reads(edit, label, text)
            || inlines_reads(edit, shown, text),
        InlineModel::Emphasis(c) => inlines_reads(edit, c, text),
        InlineModel::Strong(c) => inlines_reads(edit, c, text),
        InlineModel::Strikethrough(c) => inlines_reads(edit, c, text),
        _ => false,
    }
}

/// Whether `text` is one of the strings that the edit rewrites in the
/// inlines.
pub open spec fn inlines_reads(edit: Edit, s: Seq<InlineModel>, text: Seq<char>) -> bool
    decreases s,
{
    exists|k: int| 0 <= k < s.len() && inline_reads(edit, #[trigger] s[k], text)
}

/// Whether `text` is one of the strings that the edit rewrites in the
/// cells of a table row.
pub open spec fn row_reads(edit: Edit, s: Seq<TableCellModel>, text: Seq<char>) -> bool {
    exists|k: int| 0 <= k < s.len() && inlines_reads(edit, (#[trigger] s[k]).content, text)
}

/// Whether `text` is one of the strings that the edit rewrites in the
/// table rows.
pub open spec fn rows_reads(edit: Edit, s: Seq<Seq<TableCellModel>>, text: Seq<char>) -> bool {
    exists|k: int| 0 <= k < s.len() && row_reads(edit, #[trigger] s[k], text)
}

/// Whether `text` is one of the strings that the edit rewrites in the
/// block or below it.
pub open spec fn block_reads(edit: Edit, m: BlockModel, text: Seq<char>) -> bool
    decreases m,
{
    match m {
        BlockModel::Paragraph(c) => inlines_reads(edit, c, text),
        BlockModel::Heading { kind, content } => inlines_reads(edit, content, text),
        BlockModel::BlockQuote(b) => blocks_reads(edit, b, text),
        BlockModel::List { kind, items } => items_reads(edit, items, text),
        BlockModel::Table { rows, alignments } => rows_reads(edit, rows, text),
        BlockModel::FootnoteDefinition { label, blocks } => blocks_reads(edit, blocks, text),
        BlockModel::GitHubAlert { alert_type, blocks } => blocks_reads(edit, blocks, text),
        BlockModel::Definition { label, destination, title } => inlines_reads(edit, label, text),
        BlockModel::Container { kind, params, blocks } => blocks_reads(edit, blocks, text),
        BlockModel::HtmlBlock(a) => edit == Edit::Html && text == a,
        _ => false,
    }
}

/// Whether `text` is one of the strings that the edit rewrites in the
/// blocks.
pub open spec fn blocks_reads(edit: Edit, s: Seq<BlockModel>, text: Seq<char>) -> bool
    decreases s,
{
    exists|k: int| 0 <= k < s.len() && block_reads(edit, #[trigger] s[k], text)
}

/// Whether `text` is one of the strings that the edit rewrites in the list
/// items.
pub open spec fn items_reads(edit: Edit, s: Seq<ListItemModel>, text: Seq<char>) -> bool
    decreases s,
{
    exists|k: int| 0 <= k < s.len() && blocks_reads(edit, (#[trigger] s[k]).blocks, text)
}

/// Whether `text` is one of the strings that the edit rewrites in the
/// document.
pub open spec fn document_reads(edit: Edit, doc: DocumentModel, text: Seq<char>) -> bool {
    blocks_reads(edit, doc.blocks, text)
}

/// Whether `f` may be called on every string of which `reads` holds.
pub open spec fn accepts<F: Fn(String) -> String>(f: F, reads: spec_fn(Seq<char>) -> bool) -> bool {
    forall|s: String| reads(s@) ==> #[trigger] call_requires(f, (s,))
}

/// The strings that the edit rewrites in the inline or below it.
pub open spec fn of_inline(edit: Edit, m: InlineModel) -> spec_fn(Seq<char>) -> bool {
    |t: Seq<char>| inline_reads(edit, m, t)
}

/// The strings that the edit rewrites in the inlines.
pub open spec fn of_inlines(edit: Edit, s: Seq<InlineModel>) -> spec_fn(Seq<char>) -> bool {
    |t: Seq<char>| inlines_reads(edit, s, t)
}

/// The strings that the edit rewrites in the cells of a table row.
pub open spec fn of_row(edit: Edit, s: Seq<TableCellModel>) -> spec_fn(Seq<char>) -> bool {
    |t: Seq<char>| row_reads(edit, s, t)
}

/// The strings that the edit rewrites in the table rows.
pub open spec fn of_rows(edit: Edit, s: Seq<Seq<TableCellModel>>) -> spec_fn(Seq<char>) -> bool {
    |t: Seq<char>| rows_reads(edit, s, t)
}

/// The strings that the edit rewrites in the block or below it.
pub open spec fn of_block(edit: Edit, m: BlockModel) -> spec_fn(Seq<char>) -> bool {
    |t: Seq<char>| block_reads(edit, m, t)
}

/// The strings that the edit rewrites in the blocks.
pub open spec fn of_blocks(edit: Edit, s: Seq<BlockModel>) -> spec_fn(Seq<char>) -> bool {
    |t: Seq<char>| blocks_reads(edit, s, t)
}

/// The strings that the edit rewrites in the list items.
pub open spec fn of_items(edit: Edit, s: Seq<ListItemModel>) -> spec_fn(Seq<char>) -> bool {
    |t: Seq<char>| items_reads(edit, s, t)
}

/// Whether `f` may turn a string that reads `a` into one that reads `b`.
pub open spec fn may_map<F: Fn(String) -> String>(f: F, a: Seq<char>, b: Seq<char>) -> bool {
    exists|s: String, r: String| s@ == a && r@ == b && #[trigger] call_ensures(f, (s,), r)
}

/// What `f` may turn strings into, as a relation on what they read.
pub open spec fn mapping<F: Fn(String) -> String>(f: F) -> spec_fn(Seq<char>, Seq<char>) -> bool {
    |a: Seq<char>, b: Seq<char>| may_map(f, a, b)
}

/// Whether `rel` holds of whatever `f` turns a string into.
pub open spec fn sound<F: Fn(String) -> String>(
    f: F,
    rel: spec_fn(Seq<char>, Seq<char>) -> bool,
) -> bool {
    forall|s: String, r: String| #[trigger] call_ensures(f, (s,), r) ==> rel(s@, r@)
}

/// What `f` may turn strings into holds of whatever `f` turns a string
/// into.
pub proof fn lemma_mapping_sound<F: Fn(String) -> String>(f: F)
    ensures
        sound(f, mapping(f)),
{
    assert forall|s: String, r: String| #[trigger] call_ensures(f, (s,), r) implies mapping(f)(
        s@,
        r@,
    ) by {
        assert(may_map(f, s@, r@));
    }
}

/// Tests whether a string holds nothing but whitespace.
pub fn is_blank_text(text: &str) -> (r: bool)
    ensures
        r == all_whitespace(text@),
{
    for c in it: text.chars()
        invariant
            it.seq() == text@,
            forall|k: int| 0 <= k < it.index() ==> unicode_whitespace(#[trigger] text@[k]),
    {
        if !c.is_whitespace() {
            assert(!unicode_whitespace(text@[it.index() as int]));
            return false;
        }
    }
    true
}

fn apply<F: Fn(String) -> String>(
    f: &F,
    Ghost(rel): Ghost<spec_fn(Seq<char>, Seq<char>) -> bool>,
    text: String,
) -> (r: String)
    requires
        call_requires(*f, (text,)),
        sound(*f, rel),
    ensures
        rel(text@, r@),
{
    f(text)
}

/// Applies the edit to an inline and to everything below it.
pub(crate) fn edit_inline<F: Fn(String) -> String>(
    edit: Edit,
    f: &F,
    Ghost(rel): Ghost<spec_fn(Seq<char>, Seq<char>) -> bool>,
    inline: Inline,
) -> (r: Inline)
    requires
        accepts(*f, of_inline(edit, inline@)),
        sound(*f, rel),
    ensures
        inline_edited(edit, rel, inline@, r@),
    decreases inline,
{
    match inline {
        Inline::Text(text) => match edit {
            Edit::Text => Inline::Text(apply(f, Ghost(rel), text)),
            Edit::BlankText => if is_blank_text(text.as_str()) {
                Inline::Empty
            } else {
                Inline::Text(text)
            },
            _ => Inline::Text(text),
        },
        Inline::Code(code) => match edit {
            Edit::Code => Inline::Code(apply(f, Ghost(rel), code)),
            _ => Inline::Code(code),
        },
        Inline::Html(html) => match edit {
            Edit::Html => Inline::Html(apply(f, Ghost(rel), html)),
            _ => Inline::Html(html),
        },
        Inline::Autolink(url) => match edit {
            Edit::AutolinkUrl => Inline::Autolink(apply(f, Ghost(rel), url)),
            _ => Inline::Autolink(url),
        },
        Inline::Image(image) => match edit {
            Edit::ImageUrl => {
                let Image { destination, title, alt, attr } = image;
                let destination = apply(f, Ghost(rel), destination);
                Inline::Image(Image { destination, title, alt, attr })
            },
            _ => Inline::Image(image),
        },
        Inline::Link(link) => {
            let Link { destination, title, children } = link;
            let destination = match edit {
                Edit::LinkUrl => apply(f, Ghost(rel), destination),
                _ => destination,
            };
            let children = edit_inlines(edit, f, Ghost(rel), children);
            Inline::Link(Link { destination, title, children })
        },
        Inline::LinkReference(link_ref) => {
            let LinkReference { label, text } = link_ref;
            let label = edit_inlines(edit, f, Ghost(rel), label);
            let text = edit_inlines(edit, f, Ghost(rel), text);
            Inline::LinkReference(LinkReference { label, text })
        },
        Inline::Emphasis(c) => Inline::Emphasis(edit_inlines(edit, f, Ghost(rel), c)),
        Inline::Strong(c) => Inline::Strong(edit_inlines(edit, f, Ghost(rel), c)),
        Inline::Strikethrough(c) => Inline::Strikethrough(edit_inlines(edit, f, Ghost(rel), c)),
        Inline::LineBreak => Inline::LineBreak,
        Inline::Latex(latex) => Inline::Latex(latex),
        Inline::FootnoteReference(label) => Inline::FootnoteReference(label),
        Inline::Empty => Inline::Empty,
    }
}

/// Applies the edit to each of the inlines.
pub(crate) fn edit_inlines<F: Fn(String) -> String>(
    edit: Edit,
    f: &F,
    Ghost(rel): Ghost<spec_fn(Seq<char>, Seq<char>) -> bool>,
    inlines: Vec<Inline>,
) -> (r: Vec<Inline>)
    requires
        accepts(*f, of_inlines(edit, inlines_model(inlines@))),
        sound(*f, rel),
    ensures
        inlines_edited(edit, rel, inlines_model(inlines@), inlines_model(r@)),
    decreases inlines,
{
    let ghost before = inlines@;
    let mut out: Vec<Inline> = Vec::new();
    for x in it: inlines.into_iter()
        invariant
            it.seq() == before,
            before == inlines@,
            out.len() == it.index(),
            accepts(*f, of_inlines(edit, inlines_model(before))),
            sound(*f, rel),
            forall|j: int|
                0 <= j < it.index() ==> inline_edited(
                    edit,
                    rel,
                    inline_model(before[j]),
                    inline_model(#[trigger] out@[j]),
                ),
    {
        assert(x == before[it.index() as int]);
        assert(inlines_model(before)[it.index() as int] == inline_model(x));
        assert forall|s: String| inline_reads(edit, inline_model(x), s@) implies #[trigger] call_requires(
            *f,
            (s,),
        ) by {
            assert(inline_reads(edit, inlines_model(before)[it.index() as int], s@));
        }
        let y = edit_inline(edit, f, Ghost(rel), x);
        out.push(y);
    }
    assert forall|k: int| 0 <= k < inlines_model(before).len() implies inline_edited(
        edit,
        rel,
        inlines_model(before)[k],
        #[trigger] inlines_model(out@)[k],
    ) by {
        assert(inline_edited(edit, rel, inline_model(before[k]), inline_model(out@[k])));
    }
    out
}

fn edit_row<F: Fn(String) -> String>(
    edit: Edit,
    f: &F,
    Ghost(rel): Ghost<spec_fn(Seq<char>, Seq<char>) -> bool>,
    row: Vec<TableCell>,
) -> (r: Vec<TableCell>)
    requires
        accepts(*f, of_row(edit, row_model(row@))),
        sound(*f, rel),
    ensures
        row_edited(edit, rel, row_model(row@), row_model(r@)),
{
    let ghost before = row@;
    let mut out: Vec<TableCell> = Vec::new();
    for x in it: row.into_iter()
        invariant
            it.seq() == before,
            out.len() == it.index(),
            accepts(*f, of_row(edit, row_model(before))),
            sound(*f, rel),
            forall|j: int|
                0 <= j < it.index() ==> cell_edited(
                    edit,
                    rel,
                    cell_model(before[j]),
                    cell_model(#[trigger] out@[j]),
                ),
    {
        assert(x == before[it.index() as int]);
        let TableCell { content, colspan, rowspan, removed_by_extended_table } = x;
        assert(row_model(before)[it.index() as int].content == inlines_model(content@));
        assert forall|s: String| inlines_reads(edit, inlines_model(content@), s@) implies #[trigger] call_requires(
            *f,
            (s,),
        ) by {
            assert(inlines_reads(edit, row_model(before)[it.index() as int].content, s@));
        }
        let content = edit_inlines(edit, f, Ghost(rel), content);
        out.push(TableCell { content, colspan, rowspan, removed_by_extended_table });
    }
    assert forall|k: int| 0 <= k < row_model(before).len() implies cell_edited(
        edit,
        rel,
        row_model(before)[k],
        #[trigger] row_model(out@)[k],
    ) by {
        assert(cell_edited(edit, rel, cell_model(before[k]), cell_model(out@[k])));
    }
    out
}

fn edit_rows<F: Fn(String) -> String>(
    edit: Edit,
    f: &F,
    Ghost(rel): Ghost<spec_fn(Seq<char>, Seq<char>) -> bool>,
    rows: Vec<Vec<TableCell>>,
) -> (r: Vec<Vec<TableCell>>)
    requires
        accepts(*f, of_rows(edit, rows_model(rows@))),
        sound(*f, rel),
    ensures
        rows_edited(edit, rel, rows_model(rows@), rows_model(r@)),
{
    let ghost before = rows@;
    let mut out: Vec<Vec<TableCell>> = Vec::new();
    for x in it: rows.into_iter()
        invariant
            it.seq() == before,
            out.len() == it.index(),
            accepts(*f, of_rows(edit, rows_model(before))),
            sound(*f, rel),
            forall|j: int|
                0 <= j < it.index() ==> row_edited(
                    edit,
                    rel,
                    row_model(before[j]@),
                    row_model((#[trigger] out@[j])@),
                ),
    {
        assert(x == before[it.index() as int]);
        assert(rows_model(before)[it.index() as int] == row_model(x@));
        assert forall|s: String| row_reads(edit, row_model(x@), s@) implies #[trigger] call_requires(
            *f,
            (s,),
        ) by {
            assert(row_reads(edit, rows_model(before)[it.index() as int], s@));
        }
        let y = edit_row(edit, f, Ghost(rel), x);
        out.push(y);
    }
    assert forall|k: int| 0 <= k < rows_model(before).len() implies row_edited(
        edit,
        rel,
        rows_model(before)[k],
        #[trigger] rows_model(out@)[k],
    ) by {
        assert(row_edited(edit, rel, row_model(before[k]@), row_model(out@[k]@)));
    }
    out
}

/// Applies the edit to a block and to everything below it.
pub(crate) fn edit_block<F: Fn(String) -> String>(
    edit: Edit,
    f: &F,
    Ghost(rel): Ghost<spec_fn(Seq<char>, Seq<char>) -> bool>,
    block: Block,
) -> (r: Block)
    requires
        accepts(*f, of_block(edit, block@)),
        sound(*f, rel),
    ensures
        block_edited(edit, rel, block@, r@),
    decreases block,
{
    match block {
        Block::Paragraph(c) => Block::Paragraph(edit_inlines(edit, f, Ghost(rel), c)),
        Block::Heading(heading) => {
            let Heading { kind, content } = heading;
            let content = edit_inlines(edit, f, Ghost(rel), content);
            Block::Heading(Heading { kind, content })
        },
        Block::BlockQuote(b) => Block::BlockQuote(edit_blocks(edit, f, Ghost(rel), b)),
        Block::List(list) => {
            let List { kind, items } = list;
            let out = edit_items(edit, f, Ghost(rel), items);
            Block::List(List { kind, items: out })
        },
        Block::Table(table) => {
            let Table { rows, alignments } = table;
            let rows = edit_rows(edit, f, Ghost(rel), rows);
            Block::Table(Table { rows, alignments })
        },
        Block::FootnoteDefinition(footnote) => {
            let FootnoteDefinition { label, blocks } = footnote;
            let blocks = edit_blocks(edit, f, Ghost(rel), blocks);
            Block::FootnoteDefinition(FootnoteDefinition { label, blocks })
        },
        Block::GitHubAlert(alert) => {
            let GitHubAlert { alert_type, blocks } = alert;
            let blocks = edit_blocks(edit, f, Ghost(rel), blocks);
            Block::GitHubAlert(GitHubAlert { alert_type, blocks })
        },
        Block::Definition(def) => {
            let LinkDefinition { label, destination, title } = def;
            let label = edit_inlines(edit, f, Ghost(rel), label);
            Block::Definition(LinkDefinition { label, destination, title })
        },
        Block::Container(container) => {
            let Container { kind, params, blocks } = container;
            let blocks = edit_blocks(edit, f, Ghost(rel), blocks);
            Block::Container(Container { kind, params, blocks })
        },
        Block::HtmlBlock(html) => match edit {
            Edit::Html => Block::HtmlBlock(apply(f, Ghost(rel), html)),
            _ => Block::HtmlBlock(html),
        },
        Block::CodeBlock(code_block) => Block::CodeBlock(code_block),
        Block::ThematicBreak => Block::ThematicBreak,
        Block::LatexBlock(latex) => Block::LatexBlock(latex),
        Block::Empty => Block::Empty,
    }
}

fn edit_items<F: Fn(String) -> String>(
    edit: Edit,
    f: &F,
    Ghost(rel): Ghost<spec_fn(Seq<char>, Seq<char>) -> bool>,
    items: Vec<ListItem>,
) -> (r: Vec<ListItem>)
    requires
        accepts(*f, of_items(edit, items_model(items@))),
        sound(*f, rel),
    ensures
        items_edited(edit, rel, items_model(items@), items_model(r@)),
    decreases items,
{
    let ghost before = items@;
    let mut out: Vec<ListItem> = Vec::new();
    for x in it: items.into_iter()
        invariant
            it.seq() == before,
            before == items@,
            out.len() == it.index(),
            accepts(*f, of_items(edit, items_model(before))),
            sound(*f, rel),
            forall|j: int|
                0 <= j < it.index() ==> (#[trigger] out@[j]).task == before[j].task
                    && blocks_edited(
                    edit,
                    rel,
                    blocks_model(before[j].blocks@),
                    blocks_model(out@[j].blocks@),
                ),
    {
        assert(x == before[it.index() as int]);
        let ListItem { task, blocks } = x;
        assert(items_model(before)[it.index() as int].blocks == blocks_model(blocks@));
        assert forall|s: String| blocks_reads(edit, blocks_model(blocks@), s@) implies #[trigger] call_requires(
            *f,
            (s,),
        ) by {
            assert(blocks_reads(edit, items_model(before)[it.index() as int].blocks, s@));
        }
        let blocks = edit_blocks(edit, f, Ghost(rel), blocks);
        out.push(ListItem { task, blocks });
    }
    assert forall|k: int| 0 <= k < items_model(before).len() implies (#[trigger] items_model(
        out@,
    )[k]).task == items_model(before)[k].task && blocks_edited(
        edit,
        rel,
        items_model(before)[k].blocks,
        items_model(out@)[k].blocks,
    ) by {
        assert(out@[k].task == before[k].task);
    }
    out
}

/// Applies the edit to each of the blocks.
pub(crate) fn edit_blocks<F: Fn(String) -> String>(
    edit: Edit,
    f: &F,
    Ghost(rel): Ghost<spec_fn(Seq<char>, Seq<char>) -> bool>,
    blocks: Vec<Block>,
) -> (r: Vec<Block>)
    requires
        accepts(*f, of_blocks(edit, blocks_model(blocks@))),
        sound(*f, rel),
    ensures
        blocks_edited(edit, rel, blocks_model(blocks@), blocks_model(r@)),
    decreases blocks,
{
    let ghost before = blocks@;
    let mut out: Vec<Block> = Vec::new();
    for x in it: blocks.into_iter()
        invariant
            it.seq() == before,
            before == blocks@,
            out.len() == it.index(),
            accepts(*f, of_blocks(edit, blocks_model(before))),
            sound(*f, rel),
            forall|j: int|
                0 <= j < it.index() ==> block_edited(
                    edit,
                    rel,
                    block_model(before[j]),
                    block_model(#[trigger] out@[j]),
                ),
    {
        assert(x == before[it.index() as int]);
        assert(blocks_model(before)[it.index() as int] == block_model(x));
        assert forall|s: String| block_reads(edit, block_model(x), s@) implies #[trigger] call_requires(
            *f,
            (s,),
        ) by {
            assert(block_reads(edit, blocks_model(before)[it.index() as int], s@));
        }
        let y = edit_block(edit, f, Ghost(rel), x);
        out.push(y);
    }
    assert forall|k: int| 0 <= k < blocks_model(before).len() implies block_edited(
        edit,
        rel,
        blocks_model(before)[k],
        #[trigger] blocks_model(out@)[k],
    ) by {
        assert(block_edited(edit, rel, block_model(before[k]), block_model(out@[k])));
    }
    out
}

} // verus!
