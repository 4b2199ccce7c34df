//! What a walk through the tree does to the one that walks.
//!
//! A visitor states, for each of its hooks, how a call of the hook may
//! change it: its steps, each a relation between the visitor before the
//! call, the node, and the visitor after it. The default of a hook is a
//! walk, and a walk is the hooks of the children, each called on the
//! visitor as the one before left it. So of every hook it is known that it
//! took a step of its own or walked.
//!
//! A transformer changes in the same way while it rewrites a tree: its
//! walks hand the children that they are given to the hooks, in the order
//! of a visitor's walks. What is said here of a visitor holds of a
//! transformer too.

use vstd::prelude::*;
use crate::ast::model::{BlockModel, DocumentModel, InlineModel, ListItemModel, TableCellModel};

verus! {

/// For each hook of a visitor with states `S`, the changes that a call of
/// the hook may make: the visitor before, the node, the visitor after.
#[verifier::reject_recursive_types(S)]
pub struct Steps<S> {
    pub document: spec_fn(S, DocumentModel, S) -> bool,
    pub block: spec_fn(S, BlockModel, S) -> bool,
    pub inline: spec_fn(S, InlineModel, S) -> bool,
    pub table_cell: spec_fn(S, TableCellModel, S) -> bool,
    pub list_item: spec_fn(S, ListItemModel, S) -> bool,
    pub table_row: spec_fn(S, Seq<TableCellModel>, S) -> bool,
    pub heading: spec_fn(S, BlockModel, S) -> bool,
    pub link: spec_fn(S, InlineModel, S) -> bool,
    pub image: spec_fn(S, InlineModel, S) -> bool,
    pub code_block: spec_fn(S, BlockModel, S) -> bool,
    pub text: spec_fn(S, Seq<char>, S) -> bool,
    pub footnote_definition: spec_fn(S, BlockModel, S) -> bool,
    pub github_alert: spec_fn(S, BlockModel, S) -> bool,
}

/// The steps that allow every change: those of a visitor that states
/// nothing of its hooks.
pub open spec fn any_steps<S>() -> Steps<S> {
    Steps {
        document: |a: S, x: DocumentModel, b: S| true,
        block: |a: S, x: BlockModel, b: S| true,
        inline: |a: S, x: InlineModel, b: S| true,
        table_cell: |a: S, x: TableCellModel, b: S| true,
        list_item: |a: S, x: ListItemModel, b: S| true,
        table_row: |a: S, x: Seq<TableCellModel>, b: S| true,
        heading: |a: S, x: BlockModel, b: S| true,
        link: |a: S, x: InlineModel, b: S| true,
        image: |a: S, x: InlineModel, b: S| true,
        code_block: |a: S, x: BlockModel, b: S| true,
        text: |a: S, x: Seq<char>, b: S| true,
        footnote_definition: |a: S, x: BlockModel, b: S| true,
        github_alert: |a: S, x: BlockModel, b: S| true,
    }
}

/// The steps that change nothing: those of a visitor or transformer that
/// every hook leaves as it was.
pub open spec fn no_steps<S>() -> Steps<S> {
    Steps {
        document: |a: S, x: DocumentModel, b: S| b == a,
        block: |a: S, x: BlockModel, b: S| b == a,
        inline: |a: S, x: InlineModel, b: S| b == a,
        table_cell: |a: S, x: TableCellModel, b: S| b == a,
        list_item: |a: S, x: ListItemModel, b: S| b == a,
        table_row: |a: S, x: Seq<TableCellModel>, b: S| b == a,
        heading: |a: S, x: BlockModel, b: S| b == a,
        link: |a: S, x: InlineModel, b: S| b == a,
        image: |a: S, x: InlineModel, b: S| b == a,
        code_block: |a: S, x: BlockModel, b: S| b == a,
        text: |a: S, x: Seq<char>, b: S| b == a,
        footnote_definition: |a: S, x: BlockModel, b: S| b == a,
        github_alert: |a: S, x: BlockModel, b: S| b == a,
    }
}

/// The steps that are never taken: those of hooks that do nothing of their
/// own.
pub open spec fn never_steps<S>() -> Steps<S> {
    Steps {
        document: |a: S, x: DocumentModel, b: S| false,
        block: |a: S, x: BlockModel, b: S| false,
        inline: |a: S, x: InlineModel, b: S| false,
        table_cell: |a: S, x: TableCellModel, b: S| false,
        list_item: |a: S, x: ListItemModel, b: S| false,
        table_row: |a: S, x: Seq<TableCellModel>, b: S| false,
        heading: |a: S, x: BlockModel, b: S| false,
        link: |a: S, x: InlineModel, b: S| false,
        image: |a: S, x: InlineModel, b: S| false,
        code_block: |a: S, x: BlockModel, b: S| false,
        text: |a: S, x: Seq<char>, b: S| false,
        footnote_definition: |a: S, x: BlockModel, b: S| false,
        github_alert: |a: S, x: BlockModel, b: S| false,
    }
}

/// That `step` leads from `a` to `b` on `x`.
pub open spec fn step_taken<S, X>(step: spec_fn(S, X, S) -> bool, a: S, x: X, b: S) -> bool {
    step(a, x, b)
}

/// That `step`, taken on each of the first `count` of `xs` in order, each
/// time from where the one before ended, leads from `start` to `end`.
pub open spec fn each_in_turn<S, X>(
    step: spec_fn(S, X, S) -> bool,
    start: S,
    xs: Seq<X>,
    count: int,
    end: S,
) -> bool
    decreases count,
{
    if count <= 0 {
        end == start
    } else {
        exists|mid: S|
            each_in_turn(step, start, xs, count - 1, mid) && #[trigger] step_taken(
                step,
                mid,
                xs[count - 1],
                end,
            )
    }
}

/// One more step: from where the first `count` ended, on the next.
pub proof fn lemma_one_more<S, X>(
    step: spec_fn(S, X, S) -> bool,
    start: S,
    xs: Seq<X>,
    count: int,
    mid: S,
    end: S,
)
    requires
        0 <= count,
        each_in_turn(step, start, xs, count, mid),
        step(mid, xs[count], end),
    ensures
        each_in_turn(step, start, xs, count + 1, end),
{
    assert(each_in_turn(step, start, xs, count + 1 - 1, mid));
    assert(step_taken(step, mid, xs[count + 1 - 1], end));
}

/// The inlines visited in order, each with `visit_inline`.
pub open spec fn inlines_seen<S>(steps: Steps<S>, start: S, xs: Seq<InlineModel>, end: S) -> bool {
    each_in_turn(steps.inline, start, xs, xs.len() as int, end)
}

/// The blocks visited in order, each with `visit_block`.
pub open spec fn blocks_seen<S>(steps: Steps<S>, start: S, xs: Seq<BlockModel>, end: S) -> bool {
    each_in_turn(steps.block, start, xs, xs.len() as int, end)
}

/// The walk of a table cell: its inlines visited.
pub open spec fn cell_walked<S>(steps: Steps<S>, start: S, cell: TableCellModel, end: S) -> bool {
    inlines_seen(steps, start, cell.content, end)
}

/// What `visit_table_cell` may do: its own step, or the walk.
pub open spec fn cell_seen<S>(steps: Steps<S>, start: S, cell: TableCellModel, end: S) -> bool {
    (steps.table_cell)(start, cell, end) || cell_walked(steps, start, cell, end)
}

/// `cell_seen` as a step.
pub open spec fn cell_step<S>(steps: Steps<S>) -> spec_fn(S, TableCellModel, S) -> bool {
    |a: S, x: TableCellModel, b: S| cell_seen(steps, a, x, b)
}

/// The walk of a table row: its cells visited in order, each with
/// `visit_table_cell`.
pub open spec fn row_walked<S>(steps: Steps<S>, start: S, row: Seq<TableCellModel>, end: S) -> bool {
    each_in_turn(cell_step(steps), start, row, row.len() as int, end)
}

/// What `visit_table_row` may do: its own step, or the walk.
pub open spec fn row_seen<S>(steps: Steps<S>, start: S, row: Seq<TableCellModel>, end: S) -> bool {
    (steps.table_row)(start, row, end) || row_walked(steps, start, row, end)
}

/// `row_seen` as a step.
pub open spec fn row_step<S>(steps: Steps<S>) -> spec_fn(S, Seq<TableCellModel>, S) -> bool {
    |a: S, x: Seq<TableCellModel>, b: S| row_seen(steps, a, x, b)
}

/// The walk of a list item: its blocks visited.
pub open spec fn item_walked<S>(steps: Steps<S>, start: S, item: ListItemModel, end: S) -> bool {
    blocks_seen(steps, start, item.blocks, end)
}

/// What `visit_list_item` may do: its own step, or the walk.
pub open spec fn item_seen<S>(steps: Steps<S>, start: S, item: ListItemModel, end: S) -> bool {
    (steps.list_item)(start, item, end) || item_walked(steps, start, item, end)
}

/// `item_seen` as a step.
pub open spec fn item_step<S>(steps: Steps<S>) -> spec_fn(S, ListItemModel, S) -> bool {
    |a: S, x: ListItemModel, b: S| item_seen(steps, a, x, b)
}

/// The walk of a heading: its inlines visited.
pub open spec fn heading_walked<S>(steps: Steps<S>, start: S, heading: BlockModel, end: S) -> bool {
    match heading {
        BlockModel::Heading { kind, content } => inlines_seen(steps, start, content, end),
        _ => end == start,
    }
}

/// What `visit_heading` may do: its own step, or the walk.
pub open spec fn heading_seen<S>(steps: Steps<S>, start: S, heading: BlockModel, end: S) -> bool {
    (steps.heading)(start, heading, end) || heading_walked(steps, start, heading, end)
}

/// The walk of a link: its children visited.
pub open spec fn link_walked<S>(steps: Steps<S>, start: S, link: InlineModel, end: S) -> bool {
    match link {
        InlineModel::Link { destination, title, children } => inlines_seen(
            steps,
            start,
            children,
            end,
        ),
        _ => end == start,
    }
}

/// What `visit_link` may do: its own step, or the walk.
pub open spec fn link_seen<S>(steps: Steps<S>, start: S, link: InlineModel, end: S) -> bool {
    (steps.link)(start, link, end) || link_walked(steps, start, link, end)
}

/// What `visit_image` may do: its own step, or nothing, as the walk.
pub open spec fn image_seen<S>(steps: Steps<S>, start: S, image: InlineModel, end: S) -> bool {
    (steps.image)(start, image, end) || end == start
}

/// What `visit_code_block` may do: its own step, or nothing, as the walk.
pub open spec fn code_block_seen<S>(steps: Steps<S>, start: S, code_block: BlockModel, end: S) -> bool {
    (steps.code_block)(start, code_block, end) || end == start
}

/// What `visit_text` may do: its own step, or nothing, as the walk.
pub open spec fn text_seen<S>(steps: Steps<S>, start: S, text: Seq<char>, end: S) -> bool {
    (steps.text)(start, text, end) || end == start
}

/// The walk of a footnote definition: its blocks visited.
pub open spec fn footnote_walked<S>(steps: Steps<S>, start: S, footnote: BlockModel, end: S) -> bool {
    match footnote {
        BlockModel::FootnoteDefinition { label, blocks } => blocks_seen(steps, start, blocks, end),
        _ => end == start,
    }
}

/// What `visit_footnote_definition` may do: its own step, or the walk.
pub open spec fn footnote_seen<S>(steps: Steps<S>, start: S, footnote: BlockModel, end: S) -> bool {
    (steps.footnote_definition)(start, footnote, end) || footnote_walked(
        steps,
        start,
        footnote,
        end,
    )
}

/// The walk of a GitHub alert: its blocks visited.
pub open spec fn alert_walked<S>(steps: Steps<S>, start: S, alert: BlockModel, end: S) -> bool {
    match alert {
        BlockModel::GitHubAlert { alert_type, blocks } => blocks_seen(steps, start, blocks, end),
        _ => end == start,
    }
}

/// What `visit_github_alert` may do: its own step, or the walk.
pub open spec fn alert_seen<S>(steps: Steps<S>, start: S, alert: BlockModel, end: S) -> bool {
    (steps.github_alert)(start, alert, end) || alert_walked(steps, start, alert, end)
}

/// The walk of a document: its blocks visited.
pub open spec fn document_walked<S>(steps: Steps<S>, start: S, doc: DocumentModel, end: S) -> bool {
    blocks_seen(steps, start, doc.blocks, end)
}

/// What `visit_document` may do: its own step, or the walk.
pub open spec fn document_seen<S>(steps: Steps<S>, start: S, doc: DocumentModel, end: S) -> bool {
    (steps.document)(start, doc, end) || document_walked(steps, start, doc, end)
}

/// The walk of a link reference: the inlines of its label visited, then
/// those of its text.
pub open spec fn label_then_text<S>(
    steps: Steps<S>,
    start: S,
    label: Seq<InlineModel>,
    text: Seq<InlineModel>,
    end: S,
) -> bool {
    exists|mid: S|
        each_in_turn(steps.inline, start, label, label.len() as int, mid) && #[trigger] each_in_turn(
            steps.inline,
            mid,
            text,
            text.len() as int,
            end,
        )
}

/// The walk of an inline: its children go to the hooks of their kinds, of
/// a link reference the label before the text; on an inline without
/// children the visitor stays as it is.
pub open spec fn inline_walked<S>(steps: Steps<S>, start: S, inline: InlineModel, end: S) -> bool {
    match inline {
        InlineModel::Emphasis(c) => inlines_seen(steps, start, c, end),
        InlineModel::Strong(c) => inlines_seen(steps, start, c, end),
        InlineModel::Strikethrough(c) => inlines_seen(steps, start, c, end),
        InlineModel::Link { .. } => link_seen(steps, start, inline, end),
        InlineModel::LinkReference { label, text } => label_then_text(
            steps,
            start,
            label,
            text,
            end,
        ),
        InlineModel::Image { .. } => image_seen(steps, start, inline, end),
        InlineModel::Text(t) => text_seen(steps, start, t, end),
        _ => end == start,
    }
}

/// The walk of a block: its children go to the hooks of their kinds; on a
/// block without children the visitor stays as it is.
pub open spec fn block_walked<S>(steps: Steps<S>, start: S, block: BlockModel, end: S) -> bool {
    match block {
        BlockModel::Paragraph(c) => inlines_seen(steps, start, c, end),
        BlockModel::Heading { .. } => heading_seen(steps, start, block, end),
        BlockModel::BlockQuote(c) => blocks_seen(steps, start, c, end),
        BlockModel::List { kind, items } => each_in_turn(
            item_step(steps),
            start,
            items,
            items.len() as int,
            end,
        ),
        BlockModel::Table { rows, alignments } => each_in_turn(
            row_step(steps),
            start,
            rows,
            rows.len() as int,
            end,
        ),
        BlockModel::FootnoteDefinition { .. } => footnote_seen(steps, start, block, end),
        BlockModel::GitHubAlert { .. } => alert_seen(steps, start, block, end),
        BlockModel::Definition { label, destination, title } => inlines_seen(
            steps,
            start,
            label,
            end,
        ),
        BlockModel::CodeBlock { .. } => code_block_seen(steps, start, block, end),
        BlockModel::Container { kind, params, blocks } => blocks_seen(steps, start, blocks, end),
        _ => end == start,
    }
}

/// What `expand_inline` may do to a transformer: the step that it states
/// for it under `parts`, or what `transform_inline` does.
pub open spec fn expand_inline_seen<S>(
    parts: Steps<S>,
    steps: Steps<S>,
    start: S,
    inline: InlineModel,
    end: S,
) -> bool {
    (parts.inline)(start, inline, end) || (steps.inline)(start, inline, end)
}

/// `expand_inline_seen` as a step.
pub open spec fn expand_inline_step<S>(parts: Steps<S>, steps: Steps<S>) -> spec_fn(
    S,
    InlineModel,
    S,
) -> bool {
    |a: S, x: InlineModel, b: S| expand_inline_seen(parts, steps, a, x, b)
}

/// What `expand_block` may do to a transformer: the step that it states
/// for it under `parts`, or what `transform_block` does.
pub open spec fn expand_block_seen<S>(
    parts: Steps<S>,
    steps: Steps<S>,
    start: S,
    block: BlockModel,
    end: S,
) -> bool {
    (parts.block)(start, block, end) || (steps.block)(start, block, end)
}

/// `expand_block_seen` as a step.
pub open spec fn expand_block_step<S>(parts: Steps<S>, steps: Steps<S>) -> spec_fn(
    S,
    BlockModel,
    S,
) -> bool {
    |a: S, x: BlockModel, b: S| expand_block_seen(parts, steps, a, x, b)
}

/// What `expand_document` may do to a transformer: the step that it states
/// for it under `parts`, or what `transform_document` does.
pub open spec fn expand_document_seen<S>(
    parts: Steps<S>,
    steps: Steps<S>,
    start: S,
    node: DocumentModel,
    end: S,
) -> bool {
    (parts.document)(start, node, end) || document_seen(steps, start, node, end)
}

/// What `expand_table_cell` may do to a transformer: the step that it states
/// for it under `parts`, or what `transform_table_cell` does.
pub open spec fn expand_cell_seen<S>(
    parts: Steps<S>,
    steps: Steps<S>,
    start: S,
    node: TableCellModel,
    end: S,
) -> bool {
    (parts.table_cell)(start, node, end) || cell_seen(steps, start, node, end)
}

/// What `expand_list_item` may do to a transformer: the step that it states
/// for it under `parts`, or what `transform_list_item` does.
pub open spec fn expand_item_seen<S>(
    parts: Steps<S>,
    steps: Steps<S>,
    start: S,
    node: ListItemModel,
    end: S,
) -> bool {
    (parts.list_item)(start, node, end) || item_seen(steps, start, node, end)
}

/// What `expand_table_row` may do to a transformer: the step that it states
/// for it under `parts`, or what `transform_table_row` does.
pub open spec fn expand_row_seen<S>(
    parts: Steps<S>,
    steps: Steps<S>,
    start: S,
    node: Seq<TableCellModel>,
    end: S,
) -> bool {
    (parts.table_row)(start, node, end) || row_seen(steps, start, node, end)
}

/// What `expand_heading` may do to a transformer: the step that it states
/// for it under `parts`, or what `transform_heading` does.
pub open spec fn expand_heading_seen<S>(
    parts: Steps<S>,
    steps: Steps<S>,
    start: S,
    node: BlockModel,
    end: S,
) -> bool {
    (parts.heading)(start, node, end) || heading_seen(steps, start, node, end)
}

/// What `expand_link` may do to a transformer: the step that it states
/// for it under `parts`, or what `transform_link` does.
pub open spec fn expand_link_seen<S>(
    parts: Steps<S>,
    steps: Steps<S>,
    start: S,
    node: InlineModel,
    end: S,
) -> bool {
    (parts.link)(start, node, end) || link_seen(steps, start, node, end)
}

/// What `expand_image` may do to a transformer: the step that it states
/// for it under `parts`, or what `transform_image` does.
pub open spec fn expand_image_seen<S>(
    parts: Steps<S>,
    steps: Steps<S>,
    start: S,
    node: InlineModel,
    end: S,
) -> bool {
    (parts.image)(start, node, end) || image_seen(steps, start, node, end)
}

/// What `expand_code_block` may do to a transformer: the step that it states
/// for it under `parts`, or what `transform_code_block` does.
pub open spec fn expand_code_block_seen<S>(
    parts: Steps<S>,
    steps: Steps<S>,
    start: S,
    node: BlockModel,
    end: S,
) -> bool {
    (parts.code_block)(start, node, end) || code_block_seen(steps, start, node, end)
}

/// What `expand_text` may do to a transformer: the step that it states
/// for it under `parts`, or what `transform_text` does.
pub open spec fn expand_text_seen<S>(
    parts: Steps<S>,
    steps: Steps<S>,
    start: S,
    node: Seq<char>,
    end: S,
) -> bool {
    (parts.text)(start, node, end) || text_seen(steps, start, node, end)
}

/// What `expand_footnote_definition` may do to a transformer: the step that it states
/// for it under `parts`, or what `transform_footnote_definition` does.
pub open spec fn expand_footnote_seen<S>(
    parts: Steps<S>,
    steps: Steps<S>,
    start: S,
    node: BlockModel,
    end: S,
) -> bool {
    (parts.footnote_definition)(start, node, end) || footnote_seen(steps, start, node, end)
}

/// What `expand_github_alert` may do to a transformer: the step that it states
/// for it under `parts`, or what `transform_github_alert` does.
pub open spec fn expand_alert_seen<S>(
    parts: Steps<S>,
    steps: Steps<S>,
    start: S,
    node: BlockModel,
    end: S,
) -> bool {
    (parts.github_alert)(start, node, end) || alert_seen(steps, start, node, end)
}

/// `expand_cell_seen` as a step.
pub open spec fn expand_cell_step<S>(parts: Steps<S>, steps: Steps<S>) -> spec_fn(
    S,
    TableCellModel,
    S,
) -> bool {
    |a: S, x: TableCellModel, b: S| expand_cell_seen(parts, steps, a, x, b)
}

/// The inlines handed to `expand_inline`, in order.
pub open spec fn inlines_expand_seen<S>(
    parts: Steps<S>,
    steps: Steps<S>,
    start: S,
    xs: Seq<InlineModel>,
    end: S,
) -> bool {
    each_in_turn(expand_inline_step(parts, steps), start, xs, xs.len() as int, end)
}

/// The blocks handed to `expand_block`, in order.
pub open spec fn blocks_expand_seen<S>(
    parts: Steps<S>,
    steps: Steps<S>,
    start: S,
    xs: Seq<BlockModel>,
    end: S,
) -> bool {
    each_in_turn(expand_block_step(parts, steps), start, xs, xs.len() as int, end)
}

/// The expanding walk of a table cell: its inlines handed to
/// `expand_inline`.
pub open spec fn cell_expand_walked<S>(
    parts: Steps<S>,
    steps: Steps<S>,
    start: S,
    cell: TableCellModel,
    end: S,
) -> bool {
    inlines_expand_seen(parts, steps, start, cell.content, end)
}

/// The expanding walk of a list item: its blocks handed to `expand_block`.
pub open spec fn item_expand_walked<S>(
    parts: Steps<S>,
    steps: Steps<S>,
    start: S,
    item: ListItemModel,
    end: S,
) -> bool {
    blocks_expand_seen(parts, steps, start, item.blocks, end)
}

/// `item_expand_walked` as a step.
pub open spec fn item_expand_step<S>(parts: Steps<S>, steps: Steps<S>) -> spec_fn(
    S,
    ListItemModel,
    S,
) -> bool {
    |a: S, x: ListItemModel, b: S| item_expand_walked(parts, steps, a, x, b)
}

/// The expanding walk of a table row: its cells handed to
/// `expand_table_cell`, in order.
pub open spec fn row_expand_walked<S>(
    parts: Steps<S>,
    steps: Steps<S>,
    start: S,
    row: Seq<TableCellModel>,
    end: S,
) -> bool {
    each_in_turn(expand_cell_step(parts, steps), start, row, row.len() as int, end)
}

/// `row_expand_walked` as a step.
pub open spec fn row_expand_step<S>(parts: Steps<S>, steps: Steps<S>) -> spec_fn(
    S,
    Seq<TableCellModel>,
    S,
) -> bool {
    |a: S, x: Seq<TableCellModel>, b: S| row_expand_walked(parts, steps, a, x, b)
}

/// The expanding walk of a heading: its inlines handed to `expand_inline`.
pub open spec fn heading_expand_walked<S>(
    parts: Steps<S>,
    steps: Steps<S>,
    start: S,
    heading: BlockModel,
    end: S,
) -> bool {
    match heading {
        BlockModel::Heading { kind, content } => inlines_expand_seen(
            parts,
            steps,
            start,
            content,
            end,
        ),
        _ => end == start,
    }
}

/// The expanding walk of a link: its children handed to `expand_inline`.
pub open spec fn link_expand_walked<S>(
    parts: Steps<S>,
    steps: Steps<S>,
    start: S,
    link: InlineModel,
    end: S,
) -> bool {
    match link {
        InlineModel::Link { destination, title, children } => inlines_expand_seen(
            parts,
            steps,
            start,
            children,
            end,
        ),
        _ => end == start,
    }
}

/// The expanding walk of a footnote definition: its blocks handed to
/// `expand_block`.
pub open spec fn footnote_expand_walked<S>(
    parts: Steps<S>,
    steps: Steps<S>,
    start: S,
    footnote: BlockModel,
    end: S,
) -> bool {
    match footnote {
        BlockModel::FootnoteDefinition { label, blocks } => blocks_expand_seen(
            parts,
            steps,
            start,
            blocks,
            end,
        ),
        _ => end == start,
    }
}

/// The expanding walk of a GitHub alert: its blocks handed to
/// `expand_block`.
pub open spec fn alert_expand_walked<S>(
    parts: Steps<S>,
    steps: Steps<S>,
    start: S,
    alert: BlockModel,
    end: S,
) -> bool {
    match alert {
        BlockModel::GitHubAlert { alert_type, blocks } => blocks_expand_seen(
            parts,
            steps,
            start,
            blocks,
            end,
        ),
        _ => end == start,
    }
}

/// A state that a walk passes through.
pub open spec fn passed<S>(mid: S) -> bool {
    true
}

/// The expanding walk of a block. Its inlines go to `transform_inline`;
/// its blocks are walked in the same way; its list items and table rows
/// take their own expanding walks; a block that holds none of these goes
/// to `transform_block`.
pub open spec fn block_expand_walk_seen<S>(
    parts: Steps<S>,
    steps: Steps<S>,
    start: S,
    block: BlockModel,
    end: S,
) -> bool
    decreases block, 0nat,
{
    match block {
        BlockModel::Paragraph(c) => inlines_seen(steps, start, c, end),
        BlockModel::Heading { kind, content } => inlines_seen(steps, start, content, end),
        BlockModel::BlockQuote(c) => blocks_expand_walk_seen(
            parts,
            steps,
            start,
            c,
            c.len() as int,
            end,
        ),
        BlockModel::List { kind, items } => each_in_turn(
            item_expand_step(parts, steps),
            start,
            items,
            items.len() as int,
            end,
        ),
        BlockModel::Table { rows, alignments } => each_in_turn(
            row_expand_step(parts, steps),
            start,
            rows,
            rows.len() as int,
            end,
        ),
        BlockModel::FootnoteDefinition { label, blocks } => blocks_expand_walk_seen(
            parts,
            steps,
            start,
            blocks,
            blocks.len() as int,
            end,
        ),
        BlockModel::GitHubAlert { alert_type, blocks } => blocks_expand_walk_seen(
            parts,
            steps,
            start,
            blocks,
            blocks.len() as int,
            end,
        ),
        BlockModel::Definition { label, destination, title } => inlines_seen(
            steps,
            start,
            label,
            end,
        ),
        _ => (steps.block)(start, block, end),
    }
}

/// The expanding walk of the first `count` of the blocks, in order, each
/// from where the one before ended.
pub open spec fn blocks_expand_walk_seen<S>(
    parts: Steps<S>,
    steps: Steps<S>,
    start: S,
    xs: Seq<BlockModel>,
    count: int,
    end: S,
) -> bool
    decreases xs, count,
{
    if count <= 0 || count > xs.len() {
        end == start
    } else {
        exists|mid: S| #[trigger]
            passed(mid) && blocks_expand_walk_seen(parts, steps, start, xs, count - 1, mid)
                && block_expand_walk_seen(parts, steps, mid, xs[count - 1], end)
    }
}

/// One more block walked: from where the first `count` ended, the next.
pub proof fn lemma_one_more_block<S>(
    parts: Steps<S>,
    steps: Steps<S>,
    start: S,
    xs: Seq<BlockModel>,
    count: int,
    mid: S,
    end: S,
)
    requires
        0 <= count < xs.len(),
        blocks_expand_walk_seen(parts, steps, start, xs, count, mid),
        block_expand_walk_seen(parts, steps, mid, xs[count], end),
    ensures
        blocks_expand_walk_seen(parts, steps, start, xs, count + 1, end),
{
    assert(passed(mid));
    assert(blocks_expand_walk_seen(parts, steps, start, xs, count + 1 - 1, mid));
    assert(block_expand_walk_seen(parts, steps, mid, xs[count + 1 - 1], end));
}

/// The expanding walk of a document: that of its blocks.
pub open spec fn document_expand_walk_seen<S>(
    parts: Steps<S>,
    steps: Steps<S>,
    start: S,
    doc: DocumentModel,
    end: S,
) -> bool {
    blocks_expand_walk_seen(parts, steps, start, doc.blocks, doc.blocks.len() as int, end)
}


} // verus!
