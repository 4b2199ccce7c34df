//! What a transformer makes of a node.
//!
//! A transformer states, for each of its hooks, which nodes the hook may
//! put in the place of a node: its rules. The default of a hook is a walk,
//! and what a walk makes of a node follows from the rules of the hooks it
//! hands the children to. So of every hook it is known that the node it
//! hands back is one that its rule allows, or one that the walk makes.

use vstd::prelude::*;
use crate::ast::model::{BlockModel, DocumentModel, InlineModel, ListItemModel, TableCellModel};

verus! {

/// For each hook of a transformer, the pairs of a node and a node that the
/// hook may put in its place; and for each hook that may put several nodes
/// in the place of one, under the hook's name with `_parts`, the pairs of a
/// node and such nodes.
pub struct Rules {
    pub document: spec_fn(DocumentModel, DocumentModel) -> bool,
    pub block: spec_fn(BlockModel, BlockModel) -> bool,
    pub inline: spec_fn(InlineModel, InlineModel) -> bool,
    pub table_cell: spec_fn(TableCellModel, TableCellModel) -> bool,
    pub list_item: spec_fn(ListItemModel, ListItemModel) -> bool,
    pub table_row: spec_fn(Seq<TableCellModel>, Seq<TableCellModel>) -> bool,
    pub heading: spec_fn(BlockModel, BlockModel) -> bool,
    pub link: spec_fn(InlineModel, InlineModel) -> bool,
    pub image: spec_fn(InlineModel, InlineModel) -> bool,
    pub code_block: spec_fn(BlockModel, BlockModel) -> bool,
    pub text: spec_fn(Seq<char>, Seq<char>) -> bool,
    pub footnote_definition: spec_fn(BlockModel, BlockModel) -> bool,
    pub github_alert: spec_fn(BlockModel, BlockModel) -> bool,
    pub inline_parts: spec_fn(InlineModel, Seq<InlineModel>) -> bool,
    pub block_parts: spec_fn(BlockModel, Seq<BlockModel>) -> bool,
    pub document_parts: spec_fn(DocumentModel, Seq<DocumentModel>) -> bool,
    pub table_cell_parts: spec_fn(TableCellModel, Seq<TableCellModel>) -> bool,
    pub list_item_parts: spec_fn(ListItemModel, Seq<ListItemModel>) -> bool,
    pub table_row_parts: spec_fn(Seq<TableCellModel>, Seq<Seq<TableCellModel>>) -> bool,
    pub heading_parts: spec_fn(BlockModel, Seq<BlockModel>) -> bool,
    pub link_parts: spec_fn(InlineModel, Seq<InlineModel>) -> bool,
    pub image_parts: spec_fn(InlineModel, Seq<InlineModel>) -> bool,
    pub code_block_parts: spec_fn(BlockModel, Seq<BlockModel>) -> bool,
    pub text_parts: spec_fn(Seq<char>, Seq<Seq<char>>) -> bool,
    pub footnote_definition_parts: spec_fn(BlockModel, Seq<BlockModel>) -> bool,
    pub github_alert_parts: spec_fn(BlockModel, Seq<BlockModel>) -> bool,
}

/// The rules that allow everything: those of a transformer that states
/// nothing of its hooks.
pub open spec fn any_rules() -> Rules {
    Rules {
        document: |b: DocumentModel, a: DocumentModel| true,
        block: |b: BlockModel, a: BlockModel| true,
        inline: |b: InlineModel, a: InlineModel| true,
        table_cell: |b: TableCellModel, a: TableCellModel| true,
        list_item: |b: ListItemModel, a: ListItemModel| true,
        table_row: |b: Seq<TableCellModel>, a: Seq<TableCellModel>| true,
        heading: |b: BlockModel, a: BlockModel| true,
        link: |b: InlineModel, a: InlineModel| true,
        image: |b: InlineModel, a: InlineModel| true,
        code_block: |b: BlockModel, a: BlockModel| true,
        text: |b: Seq<char>, a: Seq<char>| true,
        footnote_definition: |b: BlockModel, a: BlockModel| true,
        github_alert: |b: BlockModel, a: BlockModel| true,
        inline_parts: |b: InlineModel, a: Seq<InlineModel>| true,
        block_parts: |b: BlockModel, a: Seq<BlockModel>| true,
        document_parts: |b: DocumentModel, a: Seq<DocumentModel>| true,
        table_cell_parts: |b: TableCellModel, a: Seq<TableCellModel>| true,
        list_item_parts: |b: ListItemModel, a: Seq<ListItemModel>| true,
        table_row_parts: |b: Seq<TableCellModel>, a: Seq<Seq<TableCellModel>>| true,
        heading_parts: |b: BlockModel, a: Seq<BlockModel>| true,
        link_parts: |b: InlineModel, a: Seq<InlineModel>| true,
        image_parts: |b: InlineModel, a: Seq<InlineModel>| true,
        code_block_parts: |b: BlockModel, a: Seq<BlockModel>| true,
        text_parts: |b: Seq<char>, a: Seq<Seq<char>>| true,
        footnote_definition_parts: |b: BlockModel, a: Seq<BlockModel>| true,
        github_alert_parts: |b: BlockModel, a: Seq<BlockModel>| true,
    }
}

/// The rules that allow a node in its own place and nothing else.
pub open spec fn identity_rules() -> Rules {
    Rules {
        document: |b: DocumentModel, a: DocumentModel| a == b,
        block: |b: BlockModel, a: BlockModel| a == b,
        inline: |b: InlineModel, a: InlineModel| a == b,
        table_cell: |b: TableCellModel, a: TableCellModel| a == b,
        list_item: |b: ListItemModel, a: ListItemModel| a == b,
        table_row: |b: Seq<TableCellModel>, a: Seq<TableCellModel>| a == b,
        heading: |b: BlockModel, a: BlockModel| a == b,
        link: |b: InlineModel, a: InlineModel| a == b,
        image: |b: InlineModel, a: InlineModel| a == b,
        code_block: |b: BlockModel, a: BlockModel| a == b,
        text: |b: Seq<char>, a: Seq<char>| a == b,
        footnote_definition: |b: BlockModel, a: BlockModel| a == b,
        github_alert: |b: BlockModel, a: BlockModel| a == b,
        inline_parts: |b: InlineModel, a: Seq<InlineModel>| a == seq![b],
        block_parts: |b: BlockModel, a: Seq<BlockModel>| a == seq![b],
        document_parts: |b: DocumentModel, a: Seq<DocumentModel>| a == seq![b],
        table_cell_parts: |b: TableCellModel, a: Seq<TableCellModel>| a == seq![b],
        list_item_parts: |b: ListItemModel, a: Seq<ListItemModel>| a == seq![b],
        table_row_parts: |b: Seq<TableCellModel>, a: Seq<Seq<TableCellModel>>| a == seq![b],
        heading_parts: |b: BlockModel, a: Seq<BlockModel>| a == seq![b],
        link_parts: |b: InlineModel, a: Seq<InlineModel>| a == seq![b],
        image_parts: |b: InlineModel, a: Seq<InlineModel>| a == seq![b],
        code_block_parts: |b: BlockModel, a: Seq<BlockModel>| a == seq![b],
        text_parts: |b: Seq<char>, a: Seq<Seq<char>>| a == seq![b],
        footnote_definition_parts: |b: BlockModel, a: Seq<BlockModel>| a == seq![b],
        github_alert_parts: |b: BlockModel, a: Seq<BlockModel>| a == seq![b],
    }
}

/// What `transform_inline` may make of an inline.
pub open spec fn inline_made(rules: Rules, before: InlineModel, after: InlineModel) -> bool {
    (rules.inline)(before, after)
}

/// What `transform_block` may make of a block.
pub open spec fn block_made(rules: Rules, before: BlockModel, after: BlockModel) -> bool {
    (rules.block)(before, after)
}

/// As many inlines as there were, each made of the one in its place by
/// `transform_inline`.
pub open spec fn inlines_made(rules: Rules, before: Seq<InlineModel>, after: Seq<InlineModel>) -> bool {
    after.len() == before.len() && forall|k: int|
        0 <= k < before.len() ==> inline_made(rules, before[k], #[trigger] after[k])
}

/// As many blocks as there were, each made of the one in its place by
/// `transform_block`.
pub open spec fn blocks_made(rules: Rules, before: Seq<BlockModel>, after: Seq<BlockModel>) -> bool {
    after.len() == before.len() && forall|k: int|
        0 <= k < before.len() ==> block_made(rules, before[k], #[trigger] after[k])
}

/// What the walk makes of a table cell: the cell with its inlines rewritten.
pub open spec fn cell_walked(rules: Rules, before: TableCellModel, after: TableCellModel) -> bool {
    &&& after.colspan == before.colspan
    &&& after.rowspan == before.rowspan
    &&& after.removed_by_extended_table == before.removed_by_extended_table
    &&& inlines_made(rules, before.content, after.content)
}

/// What `transform_table_cell` may make of a table cell.
pub open spec fn cell_made(rules: Rules, before: TableCellModel, after: TableCellModel) -> bool {
    (rules.table_cell)(before, after) || cell_walked(rules, before, after)
}

/// What the walk makes of a table row: as many cells, each made of the one
/// in its place by `transform_table_cell`.
pub open spec fn row_walked(rules: Rules, before: Seq<TableCellModel>, after: Seq<TableCellModel>) -> bool {
    after.len() == before.len() && forall|k: int|
        0 <= k < before.len() ==> cell_made(rules, before[k], #[trigger] after[k])
}

/// What `transform_table_row` may make of a table row.
pub open spec fn row_made(rules: Rules, before: Seq<TableCellModel>, after: Seq<TableCellModel>) -> bool {
    (rules.table_row)(before, after) || row_walked(rules, before, after)
}

/// What the walk makes of a list item: the item with its blocks rewritten.
pub open spec fn item_walked(rules: Rules, before: ListItemModel, after: ListItemModel) -> bool {
    after.task == before.task && blocks_made(rules, before.blocks, after.blocks)
}

/// What `transform_list_item` may make of a list item.
pub open spec fn item_made(rules: Rules, before: ListItemModel, after: ListItemModel) -> bool {
    (rules.list_item)(before, after) || item_walked(rules, before, after)
}

/// What the walk makes of a heading: the heading with its inlines
/// rewritten.
pub open spec fn heading_walked(rules: Rules, before: BlockModel, after: BlockModel) -> bool {
    match before {
        BlockModel::Heading { kind, content } => after matches BlockModel::Heading {
            kind: kind_new,
            content: content_new,
        } && kind_new == kind && inlines_made(rules, content, content_new),
        _ => after == before,
    }
}

/// What `transform_heading` may make of a heading.
pub open spec fn heading_made(rules: Rules, before: BlockModel, after: BlockModel) -> bool {
    (rules.heading)(before, after) || heading_walked(rules, before, after)
}

/// What the walk makes of a link: the link with its children rewritten.
pub open spec fn link_walked(rules: Rules, before: InlineModel, after: InlineModel) -> bool {
    match before {
        InlineModel::Link { destination, title, children } => after matches InlineModel::Link {
            destination: d_new,
            title: t_new,
            children: c_new,
        } && d_new == destination && t_new == title && inlines_made(rules, children, c_new),
        _ => after == before,
    }
}

/// What `transform_link` may make of a link.
pub open spec fn link_made(rules: Rules, before: InlineModel, after: InlineModel) -> bool {
    (rules.link)(before, after) || link_walked(rules, before, after)
}

/// What `transform_image` may make of an image, which the walk leaves as
/// it is.
pub open spec fn image_made(rules: Rules, before: InlineModel, after: InlineModel) -> bool {
    (rules.image)(before, after) || after == before
}

/// What `transform_code_block` may make of a code block, which the walk
/// leaves as it is.
pub open spec fn code_block_made(rules: Rules, before: BlockModel, after: BlockModel) -> bool {
    (rules.code_block)(before, after) || after == before
}

/// What `transform_text` may make of a text, which the walk leaves as it
/// is.
pub open spec fn text_made(rules: Rules, before: Seq<char>, after: Seq<char>) -> bool {
    (rules.text)(before, after) || after == before
}

/// What the walk makes of a footnote definition: the definition with its
/// blocks rewritten.
pub open spec fn footnote_walked(rules: Rules, before: BlockModel, after: BlockModel) -> bool {
    match before {
        BlockModel::FootnoteDefinition { label, blocks } => after matches BlockModel::FootnoteDefinition {
            label: label_new,
            blocks: blocks_new,
        } && label_new == label && blocks_made(rules, blocks, blocks_new),
        _ => after == before,
    }
}

/// What `transform_footnote_definition` may make of a footnote definition.
pub open spec fn footnote_made(rules: Rules, before: BlockModel, after: BlockModel) -> bool {
    (rules.footnote_definition)(before, after) || footnote_walked(rules, before, after)
}

/// What the walk makes of a GitHub alert: the alert with its blocks
/// rewritten.
pub open spec fn alert_walked(rules: Rules, before: BlockModel, after: BlockModel) -> bool {
    match before {
        BlockModel::GitHubAlert { alert_type, blocks } => after matches BlockModel::GitHubAlert {
            alert_type: type_new,
            blocks: blocks_new,
        } && type_new == alert_type && blocks_made(rules, blocks, blocks_new),
        _ => after == before,
    }
}

/// What `transform_github_alert` may make of a GitHub alert.
pub open spec fn alert_made(rules: Rules, before: BlockModel, after: BlockModel) -> bool {
    (rules.github_alert)(before, after) || alert_walked(rules, before, after)
}

/// What the walk makes of a document: the document with its blocks
/// rewritten.
pub open spec fn document_walked(rules: Rules, before: DocumentModel, after: DocumentModel) -> bool {
    blocks_made(rules, before.blocks, after.blocks)
}

/// What `transform_document` may make of a document.
pub open spec fn document_made(rules: Rules, before: DocumentModel, after: DocumentModel) -> bool {
    (rules.document)(before, after) || document_walked(rules, before, after)
}

/// As many list items as there were, each made of the one in its place by
/// `transform_list_item`.
pub open spec fn items_made(rules: Rules, before: Seq<ListItemModel>, after: Seq<ListItemModel>) -> bool {
    after.len() == before.len() && forall|k: int|
        0 <= k < before.len() ==> item_made(rules, before[k], #[trigger] after[k])
}

/// As many table rows as there were, each made of the one in its place by
/// `transform_table_row`.
pub open spec fn rows_made(
    rules: Rules,
    before: Seq<Seq<TableCellModel>>,
    after: Seq<Seq<TableCellModel>>,
) -> bool {
    after.len() == before.len() && forall|k: int|
        0 <= k < before.len() ==> row_made(rules, before[k], #[trigger] after[k])
}

/// Whether the inline holds nothing that a walk hands to a hook.
pub open spec fn inline_holds_nothing(inline: InlineModel) -> bool {
    match inline {
        InlineModel::LineBreak => true,
        InlineModel::Code(_) => true,
        InlineModel::Latex(_) => true,
        InlineModel::Html(_) => true,
        InlineModel::Autolink(_) => true,
        InlineModel::FootnoteReference(_) => true,
        InlineModel::Empty => true,
        _ => false,
    }
}

/// Whether the block holds nothing that a walk hands to a hook.
pub open spec fn block_holds_nothing(block: BlockModel) -> bool {
    match block {
        BlockModel::ThematicBreak => true,
        BlockModel::HtmlBlock(_) => true,
        BlockModel::LatexBlock(_) => true,
        BlockModel::Empty => true,
        _ => false,
    }
}

/// What the walk makes of an inline: an inline of the same kind, whose
/// children went to the hooks of their kinds; an inline without children
/// stays as it is.
pub open spec fn inline_walked(rules: Rules, before: InlineModel, after: InlineModel) -> bool {
    match before {
        InlineModel::Emphasis(c) => after matches InlineModel::Emphasis(d) && inlines_made(
            rules,
            c,
            d,
        ),
        InlineModel::Strong(c) => after matches InlineModel::Strong(d) && inlines_made(rules, c, d),
        InlineModel::Strikethrough(c) => after matches InlineModel::Strikethrough(d)
            && inlines_made(rules, c, d),
        InlineModel::Link { .. } => after is Link && link_made(rules, before, after),
        InlineModel::LinkReference { label, text } => after matches InlineModel::LinkReference {
            label: label_new,
            text: text_new,
        } && inlines_made(rules, label, label_new) && inlines_made(rules, text, text_new),
        InlineModel::Image { .. } => after is Image && image_made(rules, before, after),
        InlineModel::Text(t) => after matches InlineModel::Text(t_new) && text_made(
            rules,
            t,
            t_new,
        ),
        _ => after == before,
    }
}

/// What the walk makes of a block: a block of the same kind, whose
/// children went to the hooks of their kinds; a block without children
/// stays as it is.
pub open spec fn block_walked(rules: Rules, before: BlockModel, after: BlockModel) -> bool {
    match before {
        BlockModel::Paragraph(c) => after matches BlockModel::Paragraph(d) && inlines_made(
            rules,
            c,
            d,
        ),
        BlockModel::Heading { .. } => after is Heading && heading_made(rules, before, after),
        BlockModel::BlockQuote(c) => after matches BlockModel::BlockQuote(d) && blocks_made(
            rules,
            c,
            d,
        ),
        BlockModel::List { kind, items } => after matches BlockModel::List {
            kind: kind_new,
            items: items_new,
        } && kind_new == kind && items_made(rules, items, items_new),
        BlockModel::Table { rows, alignments } => after matches BlockModel::Table {
            rows: rows_new,
            alignments: a_new,
        } && a_new == alignments && rows_made(rules, rows, rows_new),
        BlockModel::FootnoteDefinition { .. } => after is FootnoteDefinition && footnote_made(
            rules,
            before,
            after,
        ),
        BlockModel::GitHubAlert { .. } => after is GitHubAlert && alert_made(rules, before, after),
        BlockModel::Definition { label, destination, title } => after matches BlockModel::Definition {
            label: label_new,
            destination: d_new,
            title: t_new,
        } && d_new == destination && t_new == title && inlines_made(rules, label, label_new),
        BlockModel::CodeBlock { .. } => after is CodeBlock && code_block_made(rules, before, after),
        BlockModel::Container { kind, params, blocks } => after matches BlockModel::Container {
            kind: kind_new,
            params: params_new,
            blocks: blocks_new,
        } && kind_new == kind && params_new == params && blocks_made(rules, blocks, blocks_new),
        _ => after == before,
    }
}

/// What `expand_inline` may put in the place of an inline: what its rule
/// allows, or the one inline that `transform_inline` makes.
pub open spec fn inline_expanded(rules: Rules, before: InlineModel, after: Seq<InlineModel>) -> bool {
    (rules.inline_parts)(before, after) || (after.len() == 1 && inline_made(
        rules,
        before,
        after[0],
    ))
}

/// What `expand_block` may put in the place of a block: what its rule
/// allows, or the one block that `transform_block` makes.
pub open spec fn block_expanded(rules: Rules, before: BlockModel, after: Seq<BlockModel>) -> bool {
    (rules.block_parts)(before, after) || (after.len() == 1 && block_made(rules, before, after[0]))
}

/// That `after` is, in order, what `expand_inline` put in the place of each
/// of the first `count` inlines of `before`.
pub open spec fn inlines_expanded(
    rules: Rules,
    before: Seq<InlineModel>,
    count: int,
    after: Seq<InlineModel>,
) -> bool
    decreases count,
{
    if count <= 0 {
        after.len() == 0
    } else {
        exists|n: int|
            0 <= n <= after.len() && inlines_expanded(
                rules,
                before,
                count - 1,
                #[trigger] after.take(n),
            ) && inline_expanded(rules, before[count - 1], after.skip(n))
    }
}

/// That `after` is, in order, what `expand_block` put in the place of each
/// of the first `count` blocks of `before`.
pub open spec fn blocks_expanded(
    rules: Rules,
    before: Seq<BlockModel>,
    count: int,
    after: Seq<BlockModel>,
) -> bool
    decreases count,
{
    if count <= 0 {
        after.len() == 0
    } else {
        exists|n: int|
            0 <= n <= after.len() && blocks_expanded(
                rules,
                before,
                count - 1,
                #[trigger] after.take(n),
            ) && block_expanded(rules, before[count - 1], after.skip(n))
    }
}

/// One more inline expanded: what stood for the first `count`, followed by
/// what `expand_inline` put in the place of the next.
pub proof fn lemma_inlines_expanded_next(
    rules: Rules,
    before: Seq<InlineModel>,
    count: int,
    after: Seq<InlineModel>,
    n: int,
)
    requires
        0 <= count,
        0 <= n <= after.len(),
        inlines_expanded(rules, before, count, after.take(n)),
        inline_expanded(rules, before[count], after.skip(n)),
    ensures
        inlines_expanded(rules, before, count + 1, after),
{
    assert(inlines_expanded(rules, before, count + 1 - 1, after.take(n)));
}

/// One more block expanded: what stood for the first `count`, followed by
/// what `expand_block` put in the place of the next.
pub proof fn lemma_blocks_expanded_next(
    rules: Rules,
    before: Seq<BlockModel>,
    count: int,
    after: Seq<BlockModel>,
    n: int,
)
    requires
        0 <= count,
        0 <= n <= after.len(),
        blocks_expanded(rules, before, count, after.take(n)),
        block_expanded(rules, before[count], after.skip(n)),
    ensures
        blocks_expanded(rules, before, count + 1, after),
{
    assert(blocks_expanded(rules, before, count + 1 - 1, after.take(n)));
}

/// The views of the elements, one for one.
pub open spec fn views<T: View>(s: Seq<T>) -> Seq<T::V> {
    Seq::new(s.len(), |k: int| s[k]@)
}

/// What `expand_document` may put in the place of its node: what its rule
/// allows, or the one node that `transform_document` makes.
pub open spec fn document_expanded(rules: Rules, before: DocumentModel, after: Seq<DocumentModel>) -> bool {
    (rules.document_parts)(before, after) || (after.len() == 1 && document_made(rules, before, after[0]))
}

/// What `expand_table_cell` may put in the place of its node: what its rule
/// allows, or the one node that `transform_table_cell` makes.
pub open spec fn cell_expanded(rules: Rules, before: TableCellModel, after: Seq<TableCellModel>) -> bool {
    (rules.table_cell_parts)(before, after) || (after.len() == 1 && cell_made(rules, before, after[0]))
}

/// What `expand_list_item` may put in the place of its node: what its rule
/// allows, or the one node that `transform_list_item` makes.
pub open spec fn item_expanded(rules: Rules, before: ListItemModel, after: Seq<ListItemModel>) -> bool {
    (rules.list_item_parts)(before, after) || (after.len() == 1 && item_made(rules, before, after[0]))
}

/// What `expand_table_row` may put in the place of its node: what its rule
/// allows, or the one node that `transform_table_row` makes.
pub open spec fn row_expanded(rules: Rules, before: Seq<TableCellModel>, after: Seq<Seq<TableCellModel>>) -> bool {
    (rules.table_row_parts)(before, after) || (after.len() == 1 && row_made(rules, before, after[0]))
}

/// What `expand_heading` may put in the place of its node: what its rule
/// allows, or the one node that `transform_heading` makes.
pub open spec fn heading_expanded(rules: Rules, before: BlockModel, after: Seq<BlockModel>) -> bool {
    (rules.heading_parts)(before, after) || (after.len() == 1 && heading_made(rules, before, after[0]))
}

/// What `expand_link` may put in the place of its node: what its rule
/// allows, or the one node that `transform_link` makes.
pub open spec fn link_expanded(rules: Rules, before: InlineModel, after: Seq<InlineModel>) -> bool {
    (rules.link_parts)(before, after) || (after.len() == 1 && link_made(rules, before, after[0]))
}

/// What `expand_image` may put in the place of its node: what its rule
/// allows, or the one node that `transform_image` makes.
pub open spec fn image_expanded(rules: Rules, before: InlineModel, after: Seq<InlineModel>) -> bool {
    (rules.image_parts)(before, after) || (after.len() == 1 && image_made(rules, before, after[0]))
}

/// What `expand_code_block` may put in the place of its node: what its rule
/// allows, or the one node that `transform_code_block` makes.
pub open spec fn code_block_expanded(rules: Rules, before: BlockModel, after: Seq<BlockModel>) -> bool {
    (rules.code_block_parts)(before, after) || (after.len() == 1 && code_block_made(rules, before, after[0]))
}

/// What `expand_text` may put in the place of its node: what its rule
/// allows, or the one node that `transform_text` makes.
pub open spec fn text_expanded(rules: Rules, before: Seq<char>, after: Seq<Seq<char>>) -> bool {
    (rules.text_parts)(before, after) || (after.len() == 1 && text_made(rules, before, after[0]))
}

/// What `expand_footnote_definition` may put in the place of its node: what its rule
/// allows, or the one node that `transform_footnote_definition` makes.
pub open spec fn footnote_expanded(rules: Rules, before: BlockModel, after: Seq<BlockModel>) -> bool {
    (rules.footnote_definition_parts)(before, after) || (after.len() == 1 && footnote_made(rules, before, after[0]))
}

/// What `expand_github_alert` may put in the place of its node: what its rule
/// allows, or the one node that `transform_github_alert` makes.
pub open spec fn alert_expanded(rules: Rules, before: BlockModel, after: Seq<BlockModel>) -> bool {
    (rules.github_alert_parts)(before, after) || (after.len() == 1 && alert_made(rules, before, after[0]))
}

/// That `after` is, in order, what `expand_table_cell` put in the place of
/// each of the first `count` cells of `before`.
pub open spec fn cells_expanded(
    rules: Rules,
    before: Seq<TableCellModel>,
    count: int,
    after: Seq<TableCellModel>,
) -> bool
    decreases count,
{
    if count <= 0 {
        after.len() == 0
    } else {
        exists|n: int|
            0 <= n <= after.len() && cells_expanded(
                rules,
                before,
                count - 1,
                #[trigger] after.take(n),
            ) && cell_expanded(rules, before[count - 1], after.skip(n))
    }
}

/// One more cell expanded: what stood for the first `count`, followed by
/// what `expand_table_cell` put in the place of the next.
pub proof fn lemma_cells_expanded_next(
    rules: Rules,
    before: Seq<TableCellModel>,
    count: int,
    after: Seq<TableCellModel>,
    n: int,
)
    requires
        0 <= count,
        0 <= n <= after.len(),
        cells_expanded(rules, before, count, after.take(n)),
        cell_expanded(rules, before[count], after.skip(n)),
    ensures
        cells_expanded(rules, before, count + 1, after),
{
    assert(cells_expanded(rules, before, count + 1 - 1, after.take(n)));
}

/// What the expanding walk makes of a table cell: the cell, with what
/// `expand_inline` put in the place of each of its inlines.
pub open spec fn cell_expand_walked(rules: Rules, before: TableCellModel, after: TableCellModel) -> bool {
    &&& after.colspan == before.colspan
    &&& after.rowspan == before.rowspan
    &&& after.removed_by_extended_table == before.removed_by_extended_table
    &&& inlines_expanded(rules, before.content, before.content.len() as int, after.content)
}

/// What the expanding walk makes of a list item: the item, with what
/// `expand_block` put in the place of each of its blocks.
pub open spec fn item_expand_walked(rules: Rules, before: ListItemModel, after: ListItemModel) -> bool {
    after.task == before.task && blocks_expanded(
        rules,
        before.blocks,
        before.blocks.len() as int,
        after.blocks,
    )
}

/// What the expanding walk makes of a table row: the row, with what
/// `expand_table_cell` put in the place of each of its cells.
pub open spec fn row_expand_walked(
    rules: Rules,
    before: Seq<TableCellModel>,
    after: Seq<TableCellModel>,
) -> bool {
    cells_expanded(rules, before, before.len() as int, after)
}

/// What the expanding walk makes of a heading: the heading, with what
/// `expand_inline` put in the place of each of its inlines.
pub open spec fn heading_expand_walked(rules: Rules, before: BlockModel, after: BlockModel) -> bool {
    match before {
        BlockModel::Heading { kind, content } => after matches BlockModel::Heading {
            kind: kind_new,
            content: content_new,
        } && kind_new == kind && inlines_expanded(
            rules,
            content,
            content.len() as int,
            content_new,
        ),
        _ => after == before,
    }
}

/// What the expanding walk makes of a link: the link, with what
/// `expand_inline` put in the place of each of its children.
pub open spec fn link_expand_walked(rules: Rules, before: InlineModel, after: InlineModel) -> bool {
    match before {
        InlineModel::Link { destination, title, children } => after matches InlineModel::Link {
            destination: d_new,
            title: t_new,
            children: c_new,
        } && d_new == destination && t_new == title && inlines_expanded(
            rules,
            children,
            children.len() as int,
            c_new,
        ),
        _ => after == before,
    }
}

/// What the expanding walk makes of a footnote definition: the definition,
/// with what `expand_block` put in the place of each of its blocks.
pub open spec fn footnote_expand_walked(rules: Rules, before: BlockModel, after: BlockModel) -> bool {
    match before {
        BlockModel::FootnoteDefinition { label, blocks } => after matches BlockModel::FootnoteDefinition {
            label: label_new,
            blocks: blocks_new,
        } && label_new == label && blocks_expanded(rules, blocks, blocks.len() as int, blocks_new),
        _ => after == before,
    }
}

/// What the expanding walk makes of a GitHub alert: the alert, with what
/// `expand_block` put in the place of each of its blocks.
pub open spec fn alert_expand_walked(rules: Rules, before: BlockModel, after: BlockModel) -> bool {
    match before {
        BlockModel::GitHubAlert { alert_type, blocks } => after matches BlockModel::GitHubAlert {
            alert_type: type_new,
            blocks: blocks_new,
        } && type_new == alert_type && blocks_expanded(
            rules,
            blocks,
            blocks.len() as int,
            blocks_new,
        ),
        _ => after == before,
    }
}

/// What the expanding walk makes of a block: one block of the same kind.
/// Its inlines are those that `transform_inline` makes, one for one; its
/// blocks are walked in the same way; its list items and table rows are
/// those of their own expanding walks; a block that holds none of these is
/// the one that `transform_block` makes.
pub open spec fn block_expand_walked(rules: Rules, before: BlockModel, after: BlockModel) -> bool
    decreases before,
{
    match before {
        BlockModel::Paragraph(c) => after matches BlockModel::Paragraph(d) && inlines_made(
            rules,
            c,
            d,
        ),
        BlockModel::Heading { kind, content } => after matches BlockModel::Heading {
            kind: kind_new,
            content: content_new,
        } && kind_new == kind && inlines_made(rules, content, content_new),
        BlockModel::BlockQuote(c) => after matches BlockModel::BlockQuote(d)
            && blocks_expand_walked(rules, c, d),
        BlockModel::List { kind, items } => after matches BlockModel::List {
            kind: kind_new,
            items: items_new,
        } && kind_new == kind && items_new.len() == items.len() && forall|k: int|
            0 <= k < items.len() ==> item_expand_walked(rules, items[k], #[trigger] items_new[k]),
        BlockModel::Table { rows, alignments } => after matches BlockModel::Table {
            rows: rows_new,
            alignments: a_new,
        } && a_new == alignments && rows_new.len() == rows.len() && forall|k: int|
            0 <= k < rows.len() ==> row_expand_walked(rules, rows[k], #[trigger] rows_new[k]),
        BlockModel::FootnoteDefinition { label, blocks } => after matches BlockModel::FootnoteDefinition {
            label: label_new,
            blocks: blocks_new,
        } && label_new == label && blocks_expand_walked(rules, blocks, blocks_new),
        BlockModel::GitHubAlert { alert_type, blocks } => after matches BlockModel::GitHubAlert {
            alert_type: type_new,
            blocks: blocks_new,
        } && type_new == alert_type && blocks_expand_walked(rules, blocks, blocks_new),
        BlockModel::Definition { label, destination, title } => after matches BlockModel::Definition {
            label: label_new,
            destination: d_new,
            title: t_new,
        } && d_new == destination && t_new == title && inlines_made(rules, label, label_new),
        _ => block_made(rules, before, after),
    }
}

/// As many blocks as there were, each what the expanding walk makes of the
/// one in its place.
pub open spec fn blocks_expand_walked(
    rules: Rules,
    before: Seq<BlockModel>,
    after: Seq<BlockModel>,
) -> bool
    decreases before,
{
    after.len() == before.len() && forall|k: int|
        0 <= k < before.len() ==> block_expand_walked(rules, before[k], #[trigger] after[k])
}

/// What the expanding walk makes of a document: the document, with its
/// blocks walked.
pub open spec fn document_expand_walked(
    rules: Rules,
    before: DocumentModel,
    after: DocumentModel,
) -> bool {
    blocks_expand_walked(rules, before.blocks, after.blocks)
}

/// The rules of two transformers applied one after the other, `first`
/// before `last`, to documents, blocks and inlines: `after` is what `last`
/// makes of something that `first` makes of `before`. The other hooks of
/// such a pair are walks.
pub open spec fn rules_in_turn(first: Rules, last: Rules) -> Rules {
    Rules {
        document: |b: DocumentModel, a: DocumentModel|
            exists|m: DocumentModel| #[trigger]
                document_made(first, b, m) && document_made(last, m, a),
        block: |b: BlockModel, a: BlockModel|
            exists|m: BlockModel| #[trigger] block_made(first, b, m) && block_made(last, m, a),
        inline: |b: InlineModel, a: InlineModel|
            exists|m: InlineModel| #[trigger] inline_made(first, b, m) && inline_made(last, m, a),
        table_cell: |b: TableCellModel, a: TableCellModel| false,
        list_item: |b: ListItemModel, a: ListItemModel| false,
        table_row: |b: Seq<TableCellModel>, a: Seq<TableCellModel>| false,
        heading: |b: BlockModel, a: BlockModel| false,
        link: |b: InlineModel, a: InlineModel| false,
        image: |b: InlineModel, a: InlineModel| false,
        code_block: |b: BlockModel, a: BlockModel| false,
        text: |b: Seq<char>, a: Seq<char>| false,
        footnote_definition: |b: BlockModel, a: BlockModel| false,
        github_alert: |b: BlockModel, a: BlockModel| false,
        inline_parts: |b: InlineModel, a: Seq<InlineModel>| false,
        block_parts: |b: BlockModel, a: Seq<BlockModel>| false,
        document_parts: |b: DocumentModel, a: Seq<DocumentModel>| false,
        table_cell_parts: |b: TableCellModel, a: Seq<TableCellModel>| false,
        list_item_parts: |b: ListItemModel, a: Seq<ListItemModel>| false,
        table_row_parts: |b: Seq<TableCellModel>, a: Seq<Seq<TableCellModel>>| false,
        heading_parts: |b: BlockModel, a: Seq<BlockModel>| false,
        link_parts: |b: InlineModel, a: Seq<InlineModel>| false,
        image_parts: |b: InlineModel, a: Seq<InlineModel>| false,
        code_block_parts: |b: BlockModel, a: Seq<BlockModel>| false,
        text_parts: |b: Seq<char>, a: Seq<Seq<char>>| false,
        footnote_definition_parts: |b: BlockModel, a: Seq<BlockModel>| false,
        github_alert_parts: |b: BlockModel, a: Seq<BlockModel>| false,
    }
}

/// Under the rules that allow a node in its own place only, a walk and a
/// hook hand back the node they were given.
pub proof fn lemma_identity_keeps_inlines(before: Seq<InlineModel>, after: Seq<InlineModel>)
    requires
        inlines_made(identity_rules(), before, after),
    ensures
        after == before,
{
    assert(after =~= before);
}

/// Under the identity rules the blocks stay as they are.
pub proof fn lemma_identity_keeps_blocks(before: Seq<BlockModel>, after: Seq<BlockModel>)
    requires
        blocks_made(identity_rules(), before, after),
    ensures
        after == before,
{
    assert(after =~= before);
}

/// Under the identity rules an inline stays as it is, whether the hook or
/// the walk handed it back.
pub proof fn lemma_identity_keeps_inline(before: InlineModel, after: InlineModel)
    requires
        inline_made(identity_rules(), before, after) || inline_walked(
            identity_rules(),
            before,
            after,
        ),
    ensures
        after == before,
{
    let rules = identity_rules();
    if !inline_made(rules, before, after) {
        match before {
            InlineModel::Emphasis(c) => {
                lemma_identity_keeps_inlines(c, after->Emphasis_0);
            },
            InlineModel::Strong(c) => {
                lemma_identity_keeps_inlines(c, after->Strong_0);
            },
            InlineModel::Strikethrough(c) => {
                lemma_identity_keeps_inlines(c, after->Strikethrough_0);
            },
            InlineModel::Link { destination, title, children } => {
                if !(rules.link)(before, after) {
                    lemma_identity_keeps_inlines(children, after->Link_children);
                }
            },
            InlineModel::LinkReference { label, text } => {
                lemma_identity_keeps_inlines(label, after->LinkReference_label);
                lemma_identity_keeps_inlines(text, after->LinkReference_text);
            },
            _ => {},
        }
    }
}

/// Under the identity rules a table row stays as it is.
pub proof fn lemma_identity_keeps_row(before: Seq<TableCellModel>, after: Seq<TableCellModel>)
    requires
        row_made(identity_rules(), before, after),
    ensures
        after == before,
{
    let rules = identity_rules();
    if !(rules.table_row)(before, after) {
        assert forall|k: int| 0 <= k < before.len() implies after[k] == before[k] by {
            assert(cell_made(rules, before[k], after[k]));
            if !(rules.table_cell)(before[k], after[k]) {
                lemma_identity_keeps_inlines(before[k].content, after[k].content);
            }
        }
        assert(after =~= before);
    }
}

/// Under the identity rules a block stays as it is, whether the hook or
/// the walk handed it back.
pub proof fn lemma_identity_keeps_block(before: BlockModel, after: BlockModel)
    requires
        block_made(identity_rules(), before, after) || block_walked(
            identity_rules(),
            before,
            after,
        ),
    ensures
        after == before,
{
    let rules = identity_rules();
    if !block_made(rules, before, after) {
        match before {
            BlockModel::Paragraph(c) => {
                lemma_identity_keeps_inlines(c, after->Paragraph_0);
            },
            BlockModel::Heading { kind, content } => {
                if !(rules.heading)(before, after) {
                    lemma_identity_keeps_inlines(content, after->Heading_content);
                }
            },
            BlockModel::BlockQuote(c) => {
                lemma_identity_keeps_blocks(c, after->BlockQuote_0);
            },
            BlockModel::List { kind, items } => {
                let items_new = after->List_items;
                assert forall|k: int| 0 <= k < items.len() implies items_new[k] == items[k] by {
                    assert(item_made(rules, items[k], items_new[k]));
                    if !(rules.list_item)(items[k], items_new[k]) {
                        lemma_identity_keeps_blocks(items[k].blocks, items_new[k].blocks);
                    }
                }
                assert(items_new =~= items);
            },
            BlockModel::Table { rows, alignments } => {
                let rows_new = after->Table_rows;
                assert forall|k: int| 0 <= k < rows.len() implies rows_new[k] == rows[k] by {
                    lemma_identity_keeps_row(rows[k], rows_new[k]);
                }
                assert(rows_new =~= rows);
            },
            BlockModel::FootnoteDefinition { label, blocks } => {
                if !(rules.footnote_definition)(before, after) {
                    lemma_identity_keeps_blocks(blocks, after->FootnoteDefinition_blocks);
                }
            },
            BlockModel::GitHubAlert { alert_type, blocks } => {
                if !(rules.github_alert)(before, after) {
                    lemma_identity_keeps_blocks(blocks, after->GitHubAlert_blocks);
                }
            },
            BlockModel::Definition { label, destination, title } => {
                lemma_identity_keeps_inlines(label, after->Definition_label);
            },
            BlockModel::Container { kind, params, blocks } => {
                lemma_identity_keeps_blocks(blocks, after->Container_blocks);
            },
            _ => {},
        }
    }
}

/// Under the identity rules a document stays as it is.
pub proof fn lemma_identity_keeps_document(before: DocumentModel, after: DocumentModel)
    requires
        document_made(identity_rules(), before, after),
    ensures
        after == before,
{
    if !(identity_rules().document)(before, after) {
        lemma_identity_keeps_blocks(before.blocks, after.blocks);
    }
}

} // verus!
