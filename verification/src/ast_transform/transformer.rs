//! Rewriting of the tree.
//!
//! A transformer has one hook for each kind of node; a hook takes a node
//! and hands back the node that takes its place. `transform_block` and
//! `transform_inline` are for the implementor to write; a transformer that
//! only wants the default traversal forwards them to `walk_transform_block`
//! and `walk_transform_inline`. Every other hook rewrites the children of
//! its node unless it is overridden.
//!
//! ```text
//! struct Uppercase;
//!
//! impl Transformer for Uppercase {
//!     fn transform_block(&mut self, block: Block) -> Block {
//!         self.walk_transform_block(block)
//!     }
//!     fn transform_inline(&mut self, inline: Inline) -> Inline {
//!         match inline {
//!             Inline::Text(text) => Inline::Text(text.to_uppercase()),
//!             other => self.walk_transform_inline(other),
//!         }
//!     }
//! }
//! ```
//!
//! The `expand_*` hooks may put several nodes in the place of one.
//!
//! What the hooks of a transformer may make of a node is what its `rules`
//! say, and how they may change the transformer is what its `steps` say.
//! The contracts of the walks are stated over them: a walk hands back a
//! node of the same kind whose children are, one for one and in order,
//! what the hooks of their kinds made of the children it was given, and it
//! leaves the transformer as those hooks leave it, called in that order.

use vstd::prelude::*;
use crate::ast::{
    Block, CodeBlock, Container, Document, FootnoteDefinition, GitHubAlert, Heading, Image,
    Inline, Link, LinkDefinition, LinkReference, List, ListItem, Table, TableCell,
};
use crate::ast::model::{
    block_model, blocks_model, cell_model, inline_model, inlines_model, item_model, items_model,
    row_model, rows_model, BlockModel, DocumentModel, InlineModel, ListItemModel, TableCellModel,
};
use crate::ast_transform::steps::{
    self, any_steps, cell_step, each_in_turn, item_step, lemma_one_more, never_steps, no_steps,
    row_step, Steps,
};
use crate::ast_transform::rules::{
    alert_expand_walked, alert_expanded, block_expand_walked, blocks_expand_walked,
    cell_expand_walked, cell_expanded, cells_expanded, code_block_expanded,
    document_expand_walked, document_expanded, footnote_expand_walked, footnote_expanded,
    heading_expand_walked, heading_expanded, image_expanded, item_expand_walked, item_expanded,
    lemma_cells_expanded_next, link_expand_walked, link_expanded, row_expand_walked,
    row_expanded, text_expanded, views,
    alert_made, alert_walked, any_rules, block_expanded, block_made, block_walked,
    blocks_expanded, blocks_made, cell_made, cell_walked, code_block_made, document_made,
    document_walked, footnote_made, footnote_walked, heading_made, heading_walked, image_made,
    inline_expanded, inline_made, inline_walked, inlines_expanded, inlines_made, item_made,
    item_walked, link_made, link_walked, row_made, row_walked, rules_in_turn, text_made,
    identity_rules, lemma_blocks_expanded_next, lemma_inlines_expanded_next, Rules,
};

verus! {

/// A transformer of the tree.
///
/// Of a hook the trait asks three things. The node that it hands back is
/// one that the transformer's `rules` allow for that hook or, where the
/// hook has a default, one that the default walk makes; and the rules stay
/// as they are. The transformer itself changes as its `steps` say for that
/// hook or, where the hook has a default, as the default walk changes it:
/// by the hooks of the children, called in order. A transformer that calls
/// itself an identity, by `is_identity`, hands every node back with the
/// model it came with, and stays an identity. A transformer that states
/// none of these is free in what its hooks do.
pub trait Transformer: Sized {
    /// Whether this transformer leaves every node as it is. A transformer
    /// that does not say so is taken not to.
    open spec fn is_identity(&self) -> bool {
        false
    }

    /// What the hooks of this transformer may put in the place of a node.
    /// They do not change while the transformer works. A transformer that
    /// states none allows everything: of such a transformer the contracts
    /// of the walks fix the kind of a node, the fields that are no
    /// children and the number of children, and nothing of what a child
    /// has become.
    open spec fn rules(&self) -> Rules {
        any_rules()
    }

    /// For each hook, how a call of it may change the transformer itself.
    /// A transformer that states none allows every change.
    open spec fn steps() -> Steps<Self> {
        any_steps()
    }

    /// For each `expand_*` hook, how a call of it may change the
    /// transformer itself, where the hook does not do what its
    /// `transform_*` hook does. A transformer that states none allows every
    /// change.
    open spec fn expand_steps() -> Steps<Self> {
        any_steps()
    }

    /// Rewrites a document.
    fn transform_document(&mut self, doc: Document) -> (r: Document)
        ensures
            final(self).is_identity() == old(self).is_identity(),
            final(self).rules() == old(self).rules(),
            steps::document_seen(Self::steps(), *old(self), doc@, *final(self)),
            document_made(old(self).rules(), doc@, r@),
            old(self).is_identity() ==> r@ == doc@,
    {
        self.walk_transform_document(doc)
    }

    /// Rewrites a block. To go on into it, call `walk_transform_block`.
    fn transform_block(&mut self, block: Block) -> (r: Block)
        ensures
            final(self).is_identity() == old(self).is_identity(),
            final(self).rules() == old(self).rules(),
            (Self::steps().block)(*old(self), block@, *final(self)),
            block_made(old(self).rules(), block@, r@),
            old(self).is_identity() ==> r@ == block@,
    ;

    /// Rewrites an inline. To go on into it, call `walk_transform_inline`.
    fn transform_inline(&mut self, inline: Inline) -> (r: Inline)
        ensures
            final(self).is_identity() == old(self).is_identity(),
            final(self).rules() == old(self).rules(),
            (Self::steps().inline)(*old(self), inline@, *final(self)),
            inline_made(old(self).rules(), inline@, r@),
            old(self).is_identity() ==> r@ == inline@,
    ;

    /// Rewrites a table cell.
    fn transform_table_cell(&mut self, cell: TableCell) -> (r: TableCell)
        ensures
            final(self).is_identity() == old(self).is_identity(),
            final(self).rules() == old(self).rules(),
            steps::cell_seen(Self::steps(), *old(self), cell@, *final(self)),
            cell_made(old(self).rules(), cell@, r@),
            old(self).is_identity() ==> r@ == cell@,
    {
        self.walk_transform_table_cell(cell)
    }

    /// Rewrites a list item.
    fn transform_list_item(&mut self, item: ListItem) -> (r: ListItem)
        ensures
            final(self).is_identity() == old(self).is_identity(),
            final(self).rules() == old(self).rules(),
            steps::item_seen(Self::steps(), *old(self), item@, *final(self)),
            item_made(old(self).rules(), item@, r@),
            old(self).is_identity() ==> r@ == item@,
    {
        self.walk_transform_list_item(item)
    }

    /// Rewrites a table row.
    fn transform_table_row(&mut self, row: Vec<TableCell>) -> (r: Vec<TableCell>)
        ensures
            final(self).is_identity() == old(self).is_identity(),
            final(self).rules() == old(self).rules(),
            steps::row_seen(Self::steps(), *old(self), row_model(row@), *final(self)),
            row_made(old(self).rules(), row_model(row@), row_model(r@)),
            old(self).is_identity() ==> row_model(r@) == row_model(row@),
    {
        self.walk_transform_table_row(row)
    }

    /// Rewrites a heading.
    fn transform_heading(&mut self, heading: Heading) -> (r: Heading)
        ensures
            final(self).is_identity() == old(self).is_identity(),
            final(self).rules() == old(self).rules(),
            steps::heading_seen(Self::steps(), *old(self), heading@, *final(self)),
            heading_made(old(self).rules(), heading@, r@),
            old(self).is_identity() ==> r@ == heading@,
    {
        self.walk_transform_heading(heading)
    }

    /// Rewrites a link.
    fn transform_link(&mut self, link: Link) -> (r: Link)
        ensures
            final(self).is_identity() == old(self).is_identity(),
            final(self).rules() == old(self).rules(),
            steps::link_seen(Self::steps(), *old(self), link@, *final(self)),
            link_made(old(self).rules(), link@, r@),
            old(self).is_identity() ==> r@ == link@,
    {
        self.walk_transform_link(link)
    }

    /// Rewrites an image.
    fn transform_image(&mut self, image: Image) -> (r: Image)
        ensures
            final(self).is_identity() == old(self).is_identity(),
            final(self).rules() == old(self).rules(),
            steps::image_seen(Self::steps(), *old(self), image@, *final(self)),
            image_made(old(self).rules(), image@, r@),
            old(self).is_identity() ==> r@ == image@,
    {
        self.walk_transform_image(image)
    }

    /// Rewrites a code block.
    fn transform_code_block(&mut self, code_block: CodeBlock) -> (r: CodeBlock)
        ensures
            final(self).is_identity() == old(self).is_identity(),
            final(self).rules() == old(self).rules(),
            steps::code_block_seen(Self::steps(), *old(self), code_block@, *final(self)),
            code_block_made(old(self).rules(), code_block@, r@),
            old(self).is_identity() ==> r@ == code_block@,
    {
        self.walk_transform_code_block(code_block)
    }

    /// Rewrites the text of a `Text` inline.
    fn transform_text(&mut self, text: String) -> (r: String)
        ensures
            final(self).is_identity() == old(self).is_identity(),
            final(self).rules() == old(self).rules(),
            steps::text_seen(Self::steps(), *old(self), text@, *final(self)),
            text_made(old(self).rules(), text@, r@),
            old(self).is_identity() ==> r@ == text@,
    {
        self.walk_transform_text(text)
    }

    /// Rewrites a footnote definition.
    fn transform_footnote_definition(&mut self, footnote: FootnoteDefinition) -> (r: FootnoteDefinition)
        ensures
            final(self).is_identity() == old(self).is_identity(),
            final(self).rules() == old(self).rules(),
            steps::footnote_seen(Self::steps(), *old(self), footnote@, *final(self)),
            footnote_made(old(self).rules(), footnote@, r@),
            old(self).is_identity() ==> r@ == footnote@,
    {
        self.walk_transform_footnote_definition(footnote)
    }

    /// Rewrites a GitHub alert.
    fn transform_github_alert(&mut self, alert: GitHubAlert) -> (r: GitHubAlert)
        ensures
            final(self).is_identity() == old(self).is_identity(),
            final(self).rules() == old(self).rules(),
            steps::alert_seen(Self::steps(), *old(self), alert@, *final(self)),
            alert_made(old(self).rules(), alert@, r@),
            old(self).is_identity() ==> r@ == alert@,
    {
        self.walk_transform_github_alert(alert)
    }

    /// Rewrites each of the inlines with `transform_inline`, in order.
    fn transform_inlines(&mut self, inlines: Vec<Inline>) -> (r: Vec<Inline>)
        ensures
            final(self).is_identity() == old(self).is_identity(),
            final(self).rules() == old(self).rules(),
            steps::inlines_seen(Self::steps(), *old(self), inlines_model(inlines@), *final(self)),
            inlines_made(old(self).rules(), inlines_model(inlines@), inlines_model(r@)),
            old(self).is_identity() ==> inlines_model(r@) == inlines_model(inlines@),
    {
        let ghost before = inlines@;
        let mut out: Vec<Inline> = Vec::new();
        for x in it: inlines.into_iter()
            invariant
                each_in_turn(
                    Self::steps().inline,
                    *old(self),
                    inlines_model(before),
                    it.index() as int,
                    *self,
                ),
                it.seq() == before,
                out.len() == it.index(),
                self.is_identity() == old(self).is_identity(),
                self.rules() == old(self).rules(),
                old(self).is_identity() ==> forall|j: int|
                    0 <= j < it.index() ==> inline_model(#[trigger] out@[j]) == inline_model(
                        before[j],
                    ),
                forall|j: int|
                    0 <= j < it.index() ==> inline_made(
                        old(self).rules(),
                        inline_model(before[j]),
                        inline_model(#[trigger] out@[j]),
                    ),
        {
            assert(x == before[it.index() as int]);
            let ghost mid = *self;
            let y = self.transform_inline(x);
            proof {
                lemma_one_more(
                    Self::steps().inline,
                    *old(self),
                    inlines_model(before),
                    it.index() as int,
                    mid,
                    *self,
                );
            }
            out.push(y);
        }
        assert(old(self).is_identity() ==> inlines_model(out@) =~= inlines_model(before));
        assert forall|k: int| 0 <= k < before.len() implies inline_made(
            old(self).rules(),
            inlines_model(before)[k],
            #[trigger] inlines_model(out@)[k],
        ) by {
            assert(inline_made(old(self).rules(), inline_model(before[k]), inline_model(out@[k])));
        }
        out
    }

    /// Rewrites each of the blocks with `transform_block`, in order.
    fn transform_blocks(&mut self, blocks: Vec<Block>) -> (r: Vec<Block>)
        ensures
            final(self).is_identity() == old(self).is_identity(),
            final(self).rules() == old(self).rules(),
            steps::blocks_seen(Self::steps(), *old(self), blocks_model(blocks@), *final(self)),
            blocks_made(old(self).rules(), blocks_model(blocks@), blocks_model(r@)),
            old(self).is_identity() ==> blocks_model(r@) == blocks_model(blocks@),
    {
        let ghost before = blocks@;
        let mut out: Vec<Block> = Vec::new();
        for x in it: blocks.into_iter()
            invariant
                each_in_turn(
                    Self::steps().block,
                    *old(self),
                    blocks_model(before),
                    it.index() as int,
                    *self,
                ),
                it.seq() == before,
                out.len() == it.index(),
                self.is_identity() == old(self).is_identity(),
                self.rules() == old(self).rules(),
                old(self).is_identity() ==> forall|j: int|
                    0 <= j < it.index() ==> block_model(#[trigger] out@[j]) == block_model(
                        before[j],
                    ),
                forall|j: int|
                    0 <= j < it.index() ==> block_made(
                        old(self).rules(),
                        block_model(before[j]),
                        block_model(#[trigger] out@[j]),
                    ),
        {
            assert(x == before[it.index() as int]);
            let ghost mid = *self;
            let y = self.transform_block(x);
            proof {
                lemma_one_more(
                    Self::steps().block,
                    *old(self),
                    blocks_model(before),
                    it.index() as int,
                    mid,
                    *self,
                );
            }
            out.push(y);
        }
        assert(old(self).is_identity() ==> blocks_model(out@) =~= blocks_model(before));
        assert forall|k: int| 0 <= k < before.len() implies block_made(
            old(self).rules(),
            blocks_model(before)[k],
            #[trigger] blocks_model(out@)[k],
        ) by {
            assert(block_made(old(self).rules(), block_model(before[k]), block_model(out@[k])));
        }
        out
    }

    /// The default for a document: its blocks, each rewritten with
    /// `transform_block`.
    fn walk_transform_document(&mut self, doc: Document) -> (r: Document)
        ensures
            final(self).is_identity() == old(self).is_identity(),
            final(self).rules() == old(self).rules(),
            steps::document_walked(Self::steps(), *old(self), doc@, *final(self)),
            document_walked(old(self).rules(), doc@, r@),
            old(self).is_identity() ==> r@ == doc@,
    {
        let Document { blocks } = doc;
        Document { blocks: self.transform_blocks(blocks) }
    }

    /// The default for a block: what it holds is rewritten with the hook
    /// of its kind; blocks that hold nothing to rewrite stay as they are.
    /// The label of a link definition is rewritten as inlines.
    fn walk_transform_block(&mut self, block: Block) -> (r: Block)
        ensures
            final(self).is_identity() == old(self).is_identity(),
            final(self).rules() == old(self).rules(),
            steps::block_walked(Self::steps(), *old(self), block@, *final(self)),
            block_walked(old(self).rules(), block@, r@),
            old(self).is_identity() ==> r@ == block@,
    {
        match block {
            Block::Container(container) => {
                let Container { kind, params, blocks } = container;
                let blocks = self.transform_blocks(blocks);
                Block::Container(Container { kind, params, blocks })
            },
            Block::Paragraph(inlines) => Block::Paragraph(self.transform_inlines(inlines)),
            Block::Heading(heading) => Block::Heading(self.transform_heading(heading)),
            Block::BlockQuote(blocks) => Block::BlockQuote(self.transform_blocks(blocks)),
            Block::List(list) => {
                let List { kind, items } = list;
                let ghost before = items@;
                let mut out: Vec<ListItem> = Vec::new();
                for x in it: items.into_iter()
                    invariant
                        each_in_turn(
                            item_step(Self::steps()),
                            *old(self),
                            items_model(before),
                            it.index() as int,
                            *self,
                        ),
                        it.seq() == before,
                        out.len() == it.index(),
                        self.is_identity() == old(self).is_identity(),
                        self.rules() == old(self).rules(),
                        old(self).is_identity() ==> forall|j: int|
                            0 <= j < it.index() ==> item_model(#[trigger] out@[j]) == item_model(
                                before[j],
                            ),
                        forall|j: int|
                            0 <= j < it.index() ==> item_made(
                                old(self).rules(),
                                item_model(before[j]),
                                item_model(#[trigger] out@[j]),
                            ),
                {
                    assert(x == before[it.index() as int]);
                    let ghost mid = *self;
                    let y = self.transform_list_item(x);
                    proof {
                        lemma_one_more(
                            item_step(Self::steps()),
                            *old(self),
                            items_model(before),
                            it.index() as int,
                            mid,
                            *self,
                        );
                    }
                    out.push(y);
                }
                assert(old(self).is_identity() ==> items_model(out@) =~= items_model(before));
                assert forall|k: int| 0 <= k < before.len() implies item_made(
                    old(self).rules(),
                    items_model(before)[k],
                    #[trigger] items_model(out@)[k],
                ) by {
                    assert(item_made(
                        old(self).rules(),
                        item_model(before[k]),
                        item_model(out@[k]),
                    ));
                }
                Block::List(List { kind, items: out })
            },
            Block::Table(table) => {
                let Table { rows, alignments } = table;
                let ghost before = rows@;
                let mut out: Vec<Vec<TableCell>> = Vec::new();
                for x in it: rows.into_iter()
                    invariant
                        each_in_turn(
                            row_step(Self::steps()),
                            *old(self),
                            rows_model(before),
                            it.index() as int,
                            *self,
                        ),
                        it.seq() == before,
                        out.len() == it.index(),
                        self.is_identity() == old(self).is_identity(),
                        self.rules() == old(self).rules(),
                        old(self).is_identity() ==> forall|j: int|
                            0 <= j < it.index() ==> row_model((#[trigger] out@[j])@) == row_model(
                                before[j]@,
                            ),
                        forall|j: int|
                            0 <= j < it.index() ==> row_made(
                                old(self).rules(),
                                row_model(before[j]@),
                                row_model((#[trigger] out@[j])@),
                            ),
                {
                    assert(x == before[it.index() as int]);
                    let ghost mid = *self;
                    let y = self.transform_table_row(x);
                    proof {
                        lemma_one_more(
                            row_step(Self::steps()),
                            *old(self),
                            rows_model(before),
                            it.index() as int,
                            mid,
                            *self,
                        );
                    }
                    out.push(y);
                }
                assert(old(self).is_identity() ==> rows_model(out@) =~= rows_model(before));
                assert forall|k: int| 0 <= k < before.len() implies row_made(
                    old(self).rules(),
                    rows_model(before)[k],
                    #[trigger] rows_model(out@)[k],
                ) by {
                    assert(row_made(
                        old(self).rules(),
                        row_model(before[k]@),
                        row_model(out@[k]@),
                    ));
                }
                Block::Table(Table { rows: out, alignments })
            },
            Block::FootnoteDefinition(footnote) => Block::FootnoteDefinition(
                self.transform_footnote_definition(footnote),
            ),
            Block::GitHubAlert(alert) => Block::GitHubAlert(self.transform_github_alert(alert)),
            Block::Definition(def) => {
                let LinkDefinition { label, destination, title } = def;
                let label = self.transform_inlines(label);
                Block::Definition(LinkDefinition { label, destination, title })
            },
            Block::CodeBlock(code_block) => Block::CodeBlock(
                self.transform_code_block(code_block),
            ),
            Block::ThematicBreak => Block::ThematicBreak,
            Block::HtmlBlock(html) => Block::HtmlBlock(html),
            Block::LatexBlock(latex) => Block::LatexBlock(latex),
            Block::Empty => Block::Empty,
        }
    }

    /// The default for an inline: what it holds is rewritten with the hook
    /// of its kind; inlines that hold nothing to rewrite stay as they are.
    /// Of a link reference the label is rewritten before the text.
    fn walk_transform_inline(&mut self, inline: Inline) -> (r: Inline)
        ensures
            final(self).is_identity() == old(self).is_identity(),
            final(self).rules() == old(self).rules(),
            steps::inline_walked(Self::steps(), *old(self), inline@, *final(self)),
            inline_walked(old(self).rules(), inline@, r@),
            old(self).is_identity() ==> r@ == inline@,
    {
        match inline {
            Inline::Emphasis(inlines) => Inline::Emphasis(self.transform_inlines(inlines)),
            Inline::Strong(inlines) => Inline::Strong(self.transform_inlines(inlines)),
            Inline::Strikethrough(inlines) => Inline::Strikethrough(
                self.transform_inlines(inlines),
            ),
            Inline::Link(link) => Inline::Link(self.transform_link(link)),
            Inline::LinkReference(link_ref) => {
                let LinkReference { label, text } = link_ref;
                let ghost first = inlines_model(label@);
                let ghost second = inlines_model(text@);
                let label = self.transform_inlines(label);
                let ghost mid = *self;
                let text = self.transform_inlines(text);
                assert(steps::inlines_seen(Self::steps(), *old(self), first, mid));
                assert(steps::label_then_text(Self::steps(), *old(self), first, second, *self));
                Inline::LinkReference(LinkReference { label, text })
            },
            Inline::Image(image) => Inline::Image(self.transform_image(image)),
            Inline::Text(text) => Inline::Text(self.transform_text(text)),
            Inline::LineBreak => Inline::LineBreak,
            Inline::Code(code) => Inline::Code(code),
            Inline::Latex(latex) => Inline::Latex(latex),
            Inline::Html(html) => Inline::Html(html),
            Inline::Autolink(url) => Inline::Autolink(url),
            Inline::FootnoteReference(label) => Inline::FootnoteReference(label),
            Inline::Empty => Inline::Empty,
        }
    }

    /// The default for a table cell: its inlines, each rewritten with
    /// `transform_inline`.
    fn walk_transform_table_cell(&mut self, cell: TableCell) -> (r: TableCell)
        ensures
            final(self).is_identity() == old(self).is_identity(),
            final(self).rules() == old(self).rules(),
            steps::cell_walked(Self::steps(), *old(self), cell@, *final(self)),
            cell_walked(old(self).rules(), cell@, r@),
            old(self).is_identity() ==> r@ == cell@,
    {
        let TableCell { content, colspan, rowspan, removed_by_extended_table } = cell;
        let content = self.transform_inlines(content);
        TableCell { content, colspan, rowspan, removed_by_extended_table }
    }

    /// The default for a list item: its blocks, each rewritten with
    /// `transform_block`.
    fn walk_transform_list_item(&mut self, item: ListItem) -> (r: ListItem)
        ensures
            final(self).is_identity() == old(self).is_identity(),
            final(self).rules() == old(self).rules(),
            steps::item_walked(Self::steps(), *old(self), item@, *final(self)),
            item_walked(old(self).rules(), item@, r@),
            old(self).is_identity() ==> r@ == item@,
    {
        let ListItem { task, blocks } = item;
        let blocks = self.transform_blocks(blocks);
        ListItem { task, blocks }
    }

    /// The default for a table row: its cells, each rewritten with
    /// `transform_table_cell`.
    fn walk_transform_table_row(&mut self, row: Vec<TableCell>) -> (r: Vec<TableCell>)
        ensures
            final(self).is_identity() == old(self).is_identity(),
            final(self).rules() == old(self).rules(),
            steps::row_walked(Self::steps(), *old(self), row_model(row@), *final(self)),
            row_walked(old(self).rules(), row_model(row@), row_model(r@)),
            old(self).is_identity() ==> row_model(r@) == row_model(row@),
    {
        let ghost before = row@;
        let mut out: Vec<TableCell> = Vec::new();
        for x in it: row.into_iter()
            invariant
                each_in_turn(
                    cell_step(Self::steps()),
                    *old(self),
                    row_model(before),
                    it.index() as int,
                    *self,
                ),
                it.seq() == before,
                out.len() == it.index(),
                self.is_identity() == old(self).is_identity(),
                self.rules() == old(self).rules(),
                old(self).is_identity() ==> forall|j: int|
                    0 <= j < it.index() ==> cell_model(#[trigger] out@[j]) == cell_model(
                        before[j],
                    ),
                forall|j: int|
                    0 <= j < it.index() ==> cell_made(
                        old(self).rules(),
                        cell_model(before[j]),
                        cell_model(#[trigger] out@[j]),
                    ),
        {
            assert(x == before[it.index() as int]);
            let ghost mid = *self;
            let y = self.transform_table_cell(x);
            proof {
                lemma_one_more(
                    cell_step(Self::steps()),
                    *old(self),
                    row_model(before),
                    it.index() as int,
                    mid,
                    *self,
                );
            }
            out.push(y);
        }
        assert(old(self).is_identity() ==> row_model(out@) =~= row_model(before));
        assert forall|k: int| 0 <= k < before.len() implies cell_made(
            old(self).rules(),
            row_model(before)[k],
            #[trigger] row_model(out@)[k],
        ) by {
            assert(cell_made(old(self).rules(), cell_model(before[k]), cell_model(out@[k])));
        }
        out
    }

    /// The default for a heading: its inlines, each rewritten with
    /// `transform_inline`.
    fn walk_transform_heading(&mut self, heading: Heading) -> (r: Heading)
        ensures
            final(self).is_identity() == old(self).is_identity(),
            final(self).rules() == old(self).rules(),
            steps::heading_walked(Self::steps(), *old(self), heading@, *final(self)),
            heading_walked(old(self).rules(), heading@, r@),
            old(self).is_identity() ==> r@ == heading@,
    {
        let Heading { kind, content } = heading;
        let content = self.transform_inlines(content);
        Heading { kind, content }
    }

    /// The default for a link: its children, each rewritten with
    /// `transform_inline`.
    fn walk_transform_link(&mut self, link: Link) -> (r: Link)
        ensures
            final(self).is_identity() == old(self).is_identity(),
            final(self).rules() == old(self).rules(),
            steps::link_walked(Self::steps(), *old(self), link@, *final(self)),
            link_walked(old(self).rules(), link@, r@),
            old(self).is_identity() ==> r@ == link@,
    {
        let Link { destination, title, children } = link;
        let children = self.transform_inlines(children);
        Link { destination, title, children }
    }

    /// The default for an image: the image itself.
    fn walk_transform_image(&mut self, image: Image) -> (r: Image)
        ensures
            final(self).is_identity() == old(self).is_identity(),
            final(self).rules() == old(self).rules(),
            old(self).is_identity() ==> r@ == image@,
            r == image,
            *final(self) == *old(self),
    {
        image
    }

    /// The default for a code block: the code block itself.
    fn walk_transform_code_block(&mut self, code_block: CodeBlock) -> (r: CodeBlock)
        ensures
            final(self).is_identity() == old(self).is_identity(),
            final(self).rules() == old(self).rules(),
            old(self).is_identity() ==> r@ == code_block@,
            r == code_block,
            *final(self) == *old(self),
    {
        code_block
    }

    /// The default for a text: the text itself.
    fn walk_transform_text(&mut self, text: String) -> (r: String)
        ensures
            final(self).is_identity() == old(self).is_identity(),
            final(self).rules() == old(self).rules(),
            old(self).is_identity() ==> r@ == text@,
            r == text,
            *final(self) == *old(self),
    {
        text
    }

    /// The default for a footnote definition: its blocks, each rewritten
    /// with `transform_block`.
    fn walk_transform_footnote_definition(&mut self, footnote: FootnoteDefinition) -> (r:
        FootnoteDefinition)
        ensures
            final(self).is_identity() == old(self).is_identity(),
            final(self).rules() == old(self).rules(),
            steps::footnote_walked(Self::steps(), *old(self), footnote@, *final(self)),
            footnote_walked(old(self).rules(), footnote@, r@),
            old(self).is_identity() ==> r@ == footnote@,
    {
        let FootnoteDefinition { label, blocks } = footnote;
        let blocks = self.transform_blocks(blocks);
        FootnoteDefinition { label, blocks }
    }

    /// The default for a GitHub alert: its blocks, each rewritten with
    /// `transform_block`.
    fn walk_transform_github_alert(&mut self, alert: GitHubAlert) -> (r: GitHubAlert)
        ensures
            final(self).is_identity() == old(self).is_identity(),
            final(self).rules() == old(self).rules(),
            steps::alert_walked(Self::steps(), *old(self), alert@, *final(self)),
            alert_walked(old(self).rules(), alert@, r@),
            old(self).is_identity() ==> r@ == alert@,
    {
        let GitHubAlert { alert_type, blocks } = alert;
        let blocks = self.transform_blocks(blocks);
        GitHubAlert { alert_type, blocks }
    }

    /// Puts nodes in the place of a document. By default the one that
    /// `transform_document` makes.
    fn expand_document(&mut self, doc: Document) -> (r: Vec<Document>)
        ensures
            final(self).is_identity() == old(self).is_identity(),
            final(self).rules() == old(self).rules(),
            steps::expand_document_seen(
                Self::expand_steps(),
                Self::steps(),
                *old(self),
                doc@,
                *final(self),
            ),
            document_expanded(old(self).rules(), doc@, views(r@)),
            old(self).is_identity() ==> r.len() == 1 && r@[0]@ == doc@,
    {
        let y = self.transform_document(doc);
        let mut out: Vec<Document> = Vec::new();
        out.push(y);
        out
    }

    /// Puts nodes in the place of a block. By default the one that
    /// `transform_block` makes.
    fn expand_block(&mut self, block: Block) -> (r: Vec<Block>)
        ensures
            final(self).is_identity() == old(self).is_identity(),
            final(self).rules() == old(self).rules(),
            steps::expand_block_seen(
                Self::expand_steps(),
                Self::steps(),
                *old(self),
                block@,
                *final(self),
            ),
            block_expanded(old(self).rules(), block@, blocks_model(r@)),
            old(self).is_identity() ==> r.len() == 1 && r@[0]@ == block@,
    {
        let y = self.transform_block(block);
        let mut out: Vec<Block> = Vec::new();
        out.push(y);
        out
    }

    /// Puts nodes in the place of an inline. By default the one that
    /// `transform_inline` makes.
    fn expand_inline(&mut self, inline: Inline) -> (r: Vec<Inline>)
        ensures
            final(self).is_identity() == old(self).is_identity(),
            final(self).rules() == old(self).rules(),
            steps::expand_inline_seen(
                Self::expand_steps(),
                Self::steps(),
                *old(self),
                inline@,
                *final(self),
            ),
            inline_expanded(old(self).rules(), inline@, inlines_model(r@)),
            old(self).is_identity() ==> r.len() == 1 && r@[0]@ == inline@,
    {
        let y = self.transform_inline(inline);
        let mut out: Vec<Inline> = Vec::new();
        out.push(y);
        out
    }

    /// Puts nodes in the place of a table cell. By default the one that
    /// `transform_table_cell` makes.
    fn expand_table_cell(&mut self, cell: TableCell) -> (r: Vec<TableCell>)
        ensures
            final(self).is_identity() == old(self).is_identity(),
            final(self).rules() == old(self).rules(),
            steps::expand_cell_seen(
                Self::expand_steps(),
                Self::steps(),
                *old(self),
                cell@,
                *final(self),
            ),
            cell_expanded(old(self).rules(), cell@, row_model(r@)),
            old(self).is_identity() ==> r.len() == 1 && r@[0]@ == cell@,
    {
        let y = self.transform_table_cell(cell);
        let mut out: Vec<TableCell> = Vec::new();
        out.push(y);
        out
    }

    /// Puts nodes in the place of a list item. By default the one that
    /// `transform_list_item` makes.
    fn expand_list_item(&mut self, item: ListItem) -> (r: Vec<ListItem>)
        ensures
            final(self).is_identity() == old(self).is_identity(),
            final(self).rules() == old(self).rules(),
            steps::expand_item_seen(
                Self::expand_steps(),
                Self::steps(),
                *old(self),
                item@,
                *final(self),
            ),
            item_expanded(old(self).rules(), item@, items_model(r@)),
            old(self).is_identity() ==> r.len() == 1 && r@[0]@ == item@,
    {
        let y = self.transform_list_item(item);
        let mut out: Vec<ListItem> = Vec::new();
        out.push(y);
        out
    }

    /// Puts nodes in the place of a table row. By default the one that
    /// `transform_table_row` makes.
    fn expand_table_row(&mut self, row: Vec<TableCell>) -> (r: Vec<Vec<TableCell>>)
        ensures
            final(self).is_identity() == old(self).is_identity(),
            final(self).rules() == old(self).rules(),
            steps::expand_row_seen(
                Self::expand_steps(),
                Self::steps(),
                *old(self),
                row_model(row@),
                *final(self),
            ),
            row_expanded(old(self).rules(), row_model(row@), rows_model(r@)),
            old(self).is_identity() ==> r.len() == 1 && row_model(r@[0]@) == row_model(row@),
    {
        let y = self.transform_table_row(row);
        let mut out: Vec<Vec<TableCell>> = Vec::new();
        out.push(y);
        out
    }

    /// Puts nodes in the place of a heading. By default the one that
    /// `transform_heading` makes.
    fn expand_heading(&mut self, heading: Heading) -> (r: Vec<Heading>)
        ensures
            final(self).is_identity() == old(self).is_identity(),
            final(self).rules() == old(self).rules(),
            steps::expand_heading_seen(
                Self::expand_steps(),
                Self::steps(),
                *old(self),
                heading@,
                *final(self),
            ),
            heading_expanded(old(self).rules(), heading@, views(r@)),
            old(self).is_identity() ==> r.len() == 1 && r@[0]@ == heading@,
    {
        let y = self.transform_heading(heading);
        let mut out: Vec<Heading> = Vec::new();
        out.push(y);
        out
    }

    /// Puts nodes in the place of a link. By default the one that
    /// `transform_link` makes.
    fn expand_link(&mut self, link: Link) -> (r: Vec<Link>)
        ensures
            final(self).is_identity() == old(self).is_identity(),
            final(self).rules() == old(self).rules(),
            steps::expand_link_seen(
                Self::expand_steps(),
                Self::steps(),
                *old(self),
                link@,
                *final(self),
            ),
            link_expanded(old(self).rules(), link@, views(r@)),
            old(self).is_identity() ==> r.len() == 1 && r@[0]@ == link@,
    {
        let y = self.transform_link(link);
        let mut out: Vec<Link> = Vec::new();
        out.push(y);
        out
    }

    /// Puts nodes in the place of an image. By default the one that
    /// `transform_image` makes.
    fn expand_image(&mut self, image: Image) -> (r: Vec<Image>)
        ensures
            final(self).is_identity() == old(self).is_identity(),
            final(self).rules() == old(self).rules(),
            steps::expand_image_seen(
                Self::expand_steps(),
                Self::steps(),
                *old(self),
                image@,
                *final(self),
            ),
            image_expanded(old(self).rules(), image@, views(r@)),
            old(self).is_identity() ==> r.len() == 1 && r@[0]@ == image@,
    {
        let y = self.transform_image(image);
        let mut out: Vec<Image> = Vec::new();
        out.push(y);
        out
    }

    /// Puts nodes in the place of a code block. By default the one that
    /// `transform_code_block` makes.
    fn expand_code_block(&mut self, code_block: CodeBlock) -> (r: Vec<CodeBlock>)
        ensures
            final(self).is_identity() == old(self).is_identity(),
            final(self).rules() == old(self).rules(),
            steps::expand_code_block_seen(
                Self::expand_steps(),
                Self::steps(),
                *old(self),
                code_block@,
                *final(self),
            ),
            code_block_expanded(old(self).rules(), code_block@, views(r@)),
            old(self).is_identity() ==> r.len() == 1 && r@[0]@ == code_block@,
    {
        let y = self.transform_code_block(code_block);
        let mut out: Vec<CodeBlock> = Vec::new();
        out.push(y);
        out
    }

    /// Puts nodes in the place of the text of a `Text` inline. By default the one that
    /// `transform_text` makes.
    fn expand_text(&mut self, text: String) -> (r: Vec<String>)
        ensures
            final(self).is_identity() == old(self).is_identity(),
            final(self).rules() == old(self).rules(),
            steps::expand_text_seen(
                Self::expand_steps(),
                Self::steps(),
                *old(self),
                text@,
                *final(self),
            ),
            text_expanded(old(self).rules(), text@, views(r@)),
            old(self).is_identity() ==> r.len() == 1 && r@[0]@ == text@,
    {
        let y = self.transform_text(text);
        let mut out: Vec<String> = Vec::new();
        out.push(y);
        out
    }

    /// Puts nodes in the place of a footnote definition. By default the one that
    /// `transform_footnote_definition` makes.
    fn expand_footnote_definition(&mut self, footnote: FootnoteDefinition) -> (r: Vec<FootnoteDefinition>)
        ensures
            final(self).is_identity() == old(self).is_identity(),
            final(self).rules() == old(self).rules(),
            steps::expand_footnote_seen(
                Self::expand_steps(),
                Self::steps(),
                *old(self),
                footnote@,
                *final(self),
            ),
            footnote_expanded(old(self).rules(), footnote@, views(r@)),
            old(self).is_identity() ==> r.len() == 1 && r@[0]@ == footnote@,
    {
        let y = self.transform_footnote_definition(footnote);
        let mut out: Vec<FootnoteDefinition> = Vec::new();
        out.push(y);
        out
    }

    /// Puts nodes in the place of a GitHub alert. By default the one that
    /// `transform_github_alert` makes.
    fn expand_github_alert(&mut self, alert: GitHubAlert) -> (r: Vec<GitHubAlert>)
        ensures
            final(self).is_identity() == old(self).is_identity(),
            final(self).rules() == old(self).rules(),
            steps::expand_alert_seen(
                Self::expand_steps(),
                Self::steps(),
                *old(self),
                alert@,
                *final(self),
            ),
            alert_expanded(old(self).rules(), alert@, views(r@)),
            old(self).is_identity() ==> r.len() == 1 && r@[0]@ == alert@,
    {
        let y = self.transform_github_alert(alert);
        let mut out: Vec<GitHubAlert> = Vec::new();
        out.push(y);
        out
    }

    /// Puts in the place of each inline what `expand_inline` makes of it.
    fn expand_inlines(&mut self, inlines: Vec<Inline>) -> (r: Vec<Inline>)
        ensures
            final(self).is_identity() == old(self).is_identity(),
            final(self).rules() == old(self).rules(),
            steps::inlines_expand_seen(
                Self::expand_steps(),
                Self::steps(),
                *old(self),
                inlines_model(inlines@),
                *final(self),
            ),
            inlines_expanded(
                old(self).rules(),
                inlines_model(inlines@),
                inlines.len() as int,
                inlines_model(r@),
            ),
            old(self).is_identity() ==> inlines_model(r@) == inlines_model(inlines@),
    {
        let ghost before = inlines@;
        let mut out: Vec<Inline> = Vec::new();
        for x in it: inlines.into_iter()
            invariant
                each_in_turn(
                    steps::expand_inline_step(Self::expand_steps(), Self::steps()),
                    *old(self),
                    inlines_model(before),
                    it.index() as int,
                    *self,
                ),
                it.seq() == before,
                self.is_identity() == old(self).is_identity(),
                self.rules() == old(self).rules(),
                old(self).is_identity() ==> out.len() == it.index() && forall|j: int|
                    0 <= j < it.index() ==> inline_model(#[trigger] out@[j]) == inline_model(
                        before[j],
                    ),
                inlines_expanded(
                    old(self).rules(),
                    inlines_model(before),
                    it.index() as int,
                    inlines_model(out@),
                ),
        {
            assert(x == before[it.index() as int]);
            let ghost done = out@;
            let ghost mid = *self;
            let mut ys = self.expand_inline(x);
            proof {
                lemma_one_more(
                    steps::expand_inline_step(Self::expand_steps(), Self::steps()),
                    *old(self),
                    inlines_model(before),
                    it.index() as int,
                    mid,
                    *self,
                );
            }
            let ghost parts = ys@;
            out.append(&mut ys);
            proof {
                let n = done.len() as int;
                assert(inlines_model(out@).take(n) =~= inlines_model(done));
                assert(inlines_model(out@).skip(n) =~= inlines_model(parts));
                assert(inlines_model(before)[it.index() as int] == inline_model(x));
                lemma_inlines_expanded_next(
                    old(self).rules(),
                    inlines_model(before),
                    it.index() as int,
                    inlines_model(out@),
                    n,
                );
            }
        }
        assert(old(self).is_identity() ==> inlines_model(out@) =~= inlines_model(before));
        out
    }

    /// Puts in the place of each block what `expand_block` makes of it.
    fn expand_blocks(&mut self, blocks: Vec<Block>) -> (r: Vec<Block>)
        ensures
            final(self).is_identity() == old(self).is_identity(),
            final(self).rules() == old(self).rules(),
            steps::blocks_expand_seen(
                Self::expand_steps(),
                Self::steps(),
                *old(self),
                blocks_model(blocks@),
                *final(self),
            ),
            blocks_expanded(
                old(self).rules(),
                blocks_model(blocks@),
                blocks.len() as int,
                blocks_model(r@),
            ),
            old(self).is_identity() ==> blocks_model(r@) == blocks_model(blocks@),
    {
        let ghost before = blocks@;
        let mut out: Vec<Block> = Vec::new();
        for x in it: blocks.into_iter()
            invariant
                each_in_turn(
                    steps::expand_block_step(Self::expand_steps(), Self::steps()),
                    *old(self),
                    blocks_model(before),
                    it.index() as int,
                    *self,
                ),
                it.seq() == before,
                self.is_identity() == old(self).is_identity(),
                self.rules() == old(self).rules(),
                old(self).is_identity() ==> out.len() == it.index() && forall|j: int|
                    0 <= j < it.index() ==> block_model(#[trigger] out@[j]) == block_model(
                        before[j],
                    ),
                blocks_expanded(
                    old(self).rules(),
                    blocks_model(before),
                    it.index() as int,
                    blocks_model(out@),
                ),
        {
            assert(x == before[it.index() as int]);
            let ghost done = out@;
            let ghost mid = *self;
            let mut ys = self.expand_block(x);
            proof {
                lemma_one_more(
                    steps::expand_block_step(Self::expand_steps(), Self::steps()),
                    *old(self),
                    blocks_model(before),
                    it.index() as int,
                    mid,
                    *self,
                );
            }
            let ghost parts = ys@;
            out.append(&mut ys);
            proof {
                let n = done.len() as int;
                assert(blocks_model(out@).take(n) =~= blocks_model(done));
                assert(blocks_model(out@).skip(n) =~= blocks_model(parts));
                assert(blocks_model(before)[it.index() as int] == block_model(x));
                lemma_blocks_expanded_next(
                    old(self).rules(),
                    blocks_model(before),
                    it.index() as int,
                    blocks_model(out@),
                    n,
                );
            }
        }
        assert(old(self).is_identity() ==> blocks_model(out@) =~= blocks_model(before));
        out
    }

    /// The default expansion of an inline: the one that `transform_inline`
    /// makes.
    fn walk_expand_inline(&mut self, inline: Inline) -> (r: Vec<Inline>)
        ensures
            final(self).is_identity() == old(self).is_identity(),
            final(self).rules() == old(self).rules(),
            (Self::steps().inline)(*old(self), inline@, *final(self)),
            inline_made(old(self).rules(), inline@, r@[0]@),
            old(self).is_identity() ==> r.len() == 1 && r@[0]@ == inline@,
            r.len() == 1,
    {
        let y = self.transform_inline(inline);
        let mut out: Vec<Inline> = Vec::new();
        out.push(y);
        out
    }

    /// The default expansion of a table cell: the cell, with what
    /// `expand_inline` makes of each of its inlines.
    fn walk_expand_table_cell(&mut self, cell: TableCell) -> (r: Vec<TableCell>)
        ensures
            final(self).is_identity() == old(self).is_identity(),
            final(self).rules() == old(self).rules(),
            steps::cell_expand_walked(
                Self::expand_steps(),
                Self::steps(),
                *old(self),
                cell@,
                *final(self),
            ),
            cell_expand_walked(old(self).rules(), cell@, r@[0]@),
            old(self).is_identity() ==> r.len() == 1 && r@[0]@ == cell@,
            r.len() == 1,
    {
        let TableCell { content, colspan, rowspan, removed_by_extended_table } = cell;
        let content = self.expand_inlines(content);
        let mut out: Vec<TableCell> = Vec::new();
        out.push(TableCell { content, colspan, rowspan, removed_by_extended_table });
        out
    }

    /// The default expansion of a list item: the item, with what
    /// `expand_block` makes of each of its blocks.
    fn walk_expand_list_item(&mut self, item: ListItem) -> (r: Vec<ListItem>)
        ensures
            final(self).is_identity() == old(self).is_identity(),
            final(self).rules() == old(self).rules(),
            steps::item_expand_walked(
                Self::expand_steps(),
                Self::steps(),
                *old(self),
                item@,
                *final(self),
            ),
            item_expand_walked(old(self).rules(), item@, r@[0]@),
            old(self).is_identity() ==> r.len() == 1 && r@[0]@ == item@,
            r.len() == 1,
    {
        let ListItem { task, blocks } = item;
        let blocks = self.expand_blocks(blocks);
        let mut out: Vec<ListItem> = Vec::new();
        out.push(ListItem { task, blocks });
        out
    }

    /// The default expansion of a table row: the row, with what
    /// `expand_table_cell` makes of each of its cells.
    fn walk_expand_table_row(&mut self, row: Vec<TableCell>) -> (r: Vec<Vec<TableCell>>)
        ensures
            final(self).is_identity() == old(self).is_identity(),
            final(self).rules() == old(self).rules(),
            steps::row_expand_walked(
                Self::expand_steps(),
                Self::steps(),
                *old(self),
                row_model(row@),
                *final(self),
            ),
            row_expand_walked(old(self).rules(), row_model(row@), row_model(r@[0]@)),
            old(self).is_identity() ==> r.len() == 1 && row_model(r@[0]@) == row_model(row@),
            r.len() == 1,
    {
        let ghost before = row@;
        let mut cells: Vec<TableCell> = Vec::new();
        for x in it: row.into_iter()
            invariant
                each_in_turn(
                    steps::expand_cell_step(Self::expand_steps(), Self::steps()),
                    *old(self),
                    row_model(before),
                    it.index() as int,
                    *self,
                ),
                it.seq() == before,
                self.is_identity() == old(self).is_identity(),
                self.rules() == old(self).rules(),
                old(self).is_identity() ==> cells.len() == it.index() && forall|j: int|
                    0 <= j < it.index() ==> cell_model(#[trigger] cells@[j]) == cell_model(
                        before[j],
                    ),
                cells_expanded(
                    old(self).rules(),
                    row_model(before),
                    it.index() as int,
                    row_model(cells@),
                ),
        {
            assert(x == before[it.index() as int]);
            let ghost done = cells@;
            let ghost mid = *self;
            let mut ys = self.expand_table_cell(x);
            proof {
                lemma_one_more(
                    steps::expand_cell_step(Self::expand_steps(), Self::steps()),
                    *old(self),
                    row_model(before),
                    it.index() as int,
                    mid,
                    *self,
                );
            }
            let ghost parts = ys@;
            cells.append(&mut ys);
            proof {
                let n = done.len() as int;
                assert(row_model(cells@).take(n) =~= row_model(done));
                assert(row_model(cells@).skip(n) =~= row_model(parts));
                assert(row_model(before)[it.index() as int] == cell_model(x));
                lemma_cells_expanded_next(
                    old(self).rules(),
                    row_model(before),
                    it.index() as int,
                    row_model(cells@),
                    n,
                );
            }
        }
        assert(old(self).is_identity() ==> row_model(cells@) =~= row_model(before));
        let mut out: Vec<Vec<TableCell>> = Vec::new();
        out.push(cells);
        out
    }

    /// The default expansion of a heading: the heading, with what
    /// `expand_inline` makes of each of its inlines.
    fn walk_expand_heading(&mut self, heading: Heading) -> (r: Vec<Heading>)
        ensures
            final(self).is_identity() == old(self).is_identity(),
            final(self).rules() == old(self).rules(),
            steps::heading_expand_walked(
                Self::expand_steps(),
                Self::steps(),
                *old(self),
                heading@,
                *final(self),
            ),
            heading_expand_walked(old(self).rules(), heading@, r@[0]@),
            old(self).is_identity() ==> r.len() == 1 && r@[0]@ == heading@,
            r.len() == 1,
    {
        let Heading { kind, content } = heading;
        let content = self.expand_inlines(content);
        let mut out: Vec<Heading> = Vec::new();
        out.push(Heading { kind, content });
        out
    }

    /// The default expansion of a link: the link, with what `expand_inline`
    /// makes of each of its children.
    fn walk_expand_link(&mut self, link: Link) -> (r: Vec<Link>)
        ensures
            final(self).is_identity() == old(self).is_identity(),
            final(self).rules() == old(self).rules(),
            steps::link_expand_walked(
                Self::expand_steps(),
                Self::steps(),
                *old(self),
                link@,
                *final(self),
            ),
            link_expand_walked(old(self).rules(), link@, r@[0]@),
            old(self).is_identity() ==> r.len() == 1 && r@[0]@ == link@,
            r.len() == 1,
    {
        let Link { destination, title, children } = link;
        let children = self.expand_inlines(children);
        let mut out: Vec<Link> = Vec::new();
        out.push(Link { destination, title, children });
        out
    }

    /// The default expansion of an image: the image itself.
    fn walk_expand_image(&mut self, image: Image) -> (r: Vec<Image>)
        ensures
            final(self).is_identity() == old(self).is_identity(),
            final(self).rules() == old(self).rules(),
            r.len() == 1,
            r@[0] == image,
            *final(self) == *old(self),
    {
        let mut out: Vec<Image> = Vec::new();
        out.push(image);
        out
    }

    /// The default expansion of a code block: the code block itself.
    fn walk_expand_code_block(&mut self, code_block: CodeBlock) -> (r: Vec<CodeBlock>)
        ensures
            final(self).is_identity() == old(self).is_identity(),
            final(self).rules() == old(self).rules(),
            r.len() == 1,
            r@[0] == code_block,
            *final(self) == *old(self),
    {
        let mut out: Vec<CodeBlock> = Vec::new();
        out.push(code_block);
        out
    }

    /// The default expansion of a text: the text itself.
    fn walk_expand_text(&mut self, text: String) -> (r: Vec<String>)
        ensures
            final(self).is_identity() == old(self).is_identity(),
            final(self).rules() == old(self).rules(),
            r.len() == 1,
            r@[0] == text,
            *final(self) == *old(self),
    {
        let mut out: Vec<String> = Vec::new();
        out.push(text);
        out
    }

    /// The default expansion of a footnote definition: the definition,
    /// with what `expand_block` makes of each of its blocks.
    fn walk_expand_footnote_definition(&mut self, footnote: FootnoteDefinition) -> (r: Vec<
        FootnoteDefinition,
    >)
        ensures
            final(self).is_identity() == old(self).is_identity(),
            final(self).rules() == old(self).rules(),
            steps::footnote_expand_walked(
                Self::expand_steps(),
                Self::steps(),
                *old(self),
                footnote@,
                *final(self),
            ),
            footnote_expand_walked(old(self).rules(), footnote@, r@[0]@),
            old(self).is_identity() ==> r.len() == 1 && r@[0]@ == footnote@,
            r.len() == 1,
    {
        let FootnoteDefinition { label, blocks } = footnote;
        let blocks = self.expand_blocks(blocks);
        let mut out: Vec<FootnoteDefinition> = Vec::new();
        out.push(FootnoteDefinition { label, blocks });
        out
    }

    /// The default expansion of a GitHub alert: the alert, with what
    /// `expand_block` makes of each of its blocks.
    fn walk_expand_github_alert(&mut self, alert: GitHubAlert) -> (r: Vec<GitHubAlert>)
        ensures
            final(self).is_identity() == old(self).is_identity(),
            final(self).rules() == old(self).rules(),
            steps::alert_expand_walked(
                Self::expand_steps(),
                Self::steps(),
                *old(self),
                alert@,
                *final(self),
            ),
            alert_expand_walked(old(self).rules(), alert@, r@[0]@),
            old(self).is_identity() ==> r.len() == 1 && r@[0]@ == alert@,
            r.len() == 1,
    {
        let GitHubAlert { alert_type, blocks } = alert;
        let blocks = self.expand_blocks(blocks);
        let mut out: Vec<GitHubAlert> = Vec::new();
        out.push(GitHubAlert { alert_type, blocks });
        out
    }
}

/// Puts in the place of each inline what `walk_expand_inline` makes of it.
pub fn walk_expand_inlines<T: Transformer>(t: &mut T, inlines: Vec<Inline>) -> (r: Vec<
    Inline,
>)
    ensures
        final(t).is_identity() == old(t).is_identity(),
        final(t).rules() == old(t).rules(),
        steps::inlines_seen(T::steps(), *old(t), inlines_model(inlines@), *final(t)),
        old(t).is_identity() ==> inlines_model(r@) == inlines_model(inlines@),
        inlines_made(old(t).rules(), inlines_model(inlines@), inlines_model(r@)),
{
    let ghost before = inlines@;
    let mut out: Vec<Inline> = Vec::new();
    for x in it: inlines.into_iter()
        invariant
            each_in_turn(
                T::steps().inline,
                *old(t),
                inlines_model(before),
                it.index() as int,
                *t,
            ),
            it.seq() == before,
            t.is_identity() == old(t).is_identity(),
            t.rules() == old(t).rules(),
            out.len() == it.index(),
            old(t).is_identity() ==> forall|j: int|
                0 <= j < it.index() ==> inline_model(#[trigger] out@[j]) == inline_model(
                    before[j],
                ),
            forall|j: int|
                0 <= j < it.index() ==> inline_made(
                    old(t).rules(),
                    inline_model(before[j]),
                    inline_model(#[trigger] out@[j]),
                ),
    {
        assert(x == before[it.index() as int]);
        let ghost done = out@;
        let ghost mid = *t;
        let mut ys = t.walk_expand_inline(x);
        proof {
            lemma_one_more(
                T::steps().inline,
                *old(t),
                inlines_model(before),
                it.index() as int,
                mid,
                *t,
            );
        }
        let ghost one = ys@[0];
        out.append(&mut ys);
        assert(out@ =~= done.push(one));
    }
    assert(old(t).is_identity() ==> inlines_model(out@) =~= inlines_model(before));
    assert forall|k: int| 0 <= k < before.len() implies inline_made(
        old(t).rules(),
        inlines_model(before)[k],
        #[trigger] inlines_model(out@)[k],
    ) by {
        assert(inline_made(old(t).rules(), inline_model(before[k]), inline_model(out@[k])));
    }
    out
}

/// Puts in the place of each block what [`walk_expand_block`] makes of it.
pub fn walk_expand_blocks<T: Transformer>(t: &mut T, blocks: Vec<Block>) -> (r: Vec<
    Block,
>)
    ensures
        final(t).is_identity() == old(t).is_identity(),
        final(t).rules() == old(t).rules(),
        steps::blocks_expand_walk_seen(
            T::expand_steps(),
            T::steps(),
            *old(t),
            blocks_model(blocks@),
            blocks.len() as int,
            *final(t),
        ),
        old(t).is_identity() ==> blocks_model(r@) == blocks_model(blocks@),
        blocks_expand_walked(old(t).rules(), blocks_model(blocks@), blocks_model(r@)),
    decreases blocks,
{
    let ghost before = blocks@;
    let mut out: Vec<Block> = Vec::new();
    for x in it: blocks.into_iter()
        invariant
            steps::blocks_expand_walk_seen(
                T::expand_steps(),
                T::steps(),
                *old(t),
                blocks_model(before),
                it.index() as int,
                *t,
            ),
            it.seq() == before,
            before == blocks@,
            t.is_identity() == old(t).is_identity(),
            t.rules() == old(t).rules(),
            out.len() == it.index(),
            old(t).is_identity() ==> forall|j: int|
                0 <= j < it.index() ==> block_model(#[trigger] out@[j]) == block_model(before[j]),
            forall|j: int|
                0 <= j < it.index() ==> block_expand_walked(
                    old(t).rules(),
                    block_model(before[j]),
                    block_model(#[trigger] out@[j]),
                ),
    {
        assert(x == before[it.index() as int]);
        let ghost done = out@;
        let ghost mid = *t;
        let mut ys = walk_expand_block(t, x);
        proof {
            steps::lemma_one_more_block(
                T::expand_steps(),
                T::steps(),
                *old(t),
                blocks_model(before),
                it.index() as int,
                mid,
                *t,
            );
        }
        let ghost one = ys@[0];
        out.append(&mut ys);
        assert(out@ =~= done.push(one));
    }
    assert(old(t).is_identity() ==> blocks_model(out@) =~= blocks_model(before));
    assert forall|k: int| 0 <= k < before.len() implies block_expand_walked(
        old(t).rules(),
        blocks_model(before)[k],
        #[trigger] blocks_model(out@)[k],
    ) by {
        assert(block_expand_walked(
            old(t).rules(),
            block_model(before[k]),
            block_model(out@[k]),
        ));
    }
    out
}

/// The expanding walk of a block: one block of the same kind, whose
/// inlines are expanded with `walk_expand_inline`, whose blocks with this
/// walk, whose list items and table rows with their `walk_expand_*` hooks.
/// A block that holds none of these is handed to `transform_block`.
pub fn walk_expand_block<T: Transformer>(t: &mut T, block: Block) -> (r: Vec<Block>)
    ensures
        final(t).is_identity() == old(t).is_identity(),
        final(t).rules() == old(t).rules(),
        steps::block_expand_walk_seen(T::expand_steps(), T::steps(), *old(t), block@, *final(t)),
        old(t).is_identity() ==> r.len() == 1 && r@[0]@ == block@,
        r.len() == 1,
        block_expand_walked(old(t).rules(), block@, r@[0]@),
    decreases block,
{
    let made = match block {
        Block::Paragraph(inlines) => Block::Paragraph(walk_expand_inlines(t, inlines)),
        Block::Heading(heading) => {
            let Heading { kind, content } = heading;
            let content = walk_expand_inlines(t, content);
            Block::Heading(Heading { kind, content })
        },
        Block::BlockQuote(blocks) => Block::BlockQuote(walk_expand_blocks(t, blocks)),
        Block::List(list) => {
            let List { kind, items } = list;
            let ghost before = items@;
            let mut out: Vec<ListItem> = Vec::new();
            for x in it: items.into_iter()
                invariant
                    each_in_turn(
                        steps::item_expand_step(T::expand_steps(), T::steps()),
                        *old(t),
                        items_model(before),
                        it.index() as int,
                        *t,
                    ),
                    it.seq() == before,
                    t.is_identity() == old(t).is_identity(),
                    t.rules() == old(t).rules(),
                    out.len() == it.index(),
                    old(t).is_identity() ==> forall|j: int|
                        0 <= j < it.index() ==> item_model(#[trigger] out@[j]) == item_model(
                            before[j],
                        ),
                    forall|j: int|
                        0 <= j < it.index() ==> item_expand_walked(
                            old(t).rules(),
                            item_model(before[j]),
                            item_model(#[trigger] out@[j]),
                        ),
            {
                assert(x == before[it.index() as int]);
                let ghost done = out@;
                let ghost mid = *t;
                let mut ys = t.walk_expand_list_item(x);
                proof {
                    lemma_one_more(
                        steps::item_expand_step(T::expand_steps(), T::steps()),
                        *old(t),
                        items_model(before),
                        it.index() as int,
                        mid,
                        *t,
                    );
                }
                let ghost one = ys@[0];
                out.append(&mut ys);
                assert(out@ =~= done.push(one));
            }
            assert(old(t).is_identity() ==> items_model(out@) =~= items_model(before));
            assert forall|k: int| 0 <= k < before.len() implies item_expand_walked(
                old(t).rules(),
                items_model(before)[k],
                #[trigger] items_model(out@)[k],
            ) by {
                assert(item_expand_walked(
                    old(t).rules(),
                    item_model(before[k]),
                    item_model(out@[k]),
                ));
            }
            Block::List(List { kind, items: out })
        },
        Block::Table(table) => {
            let Table { rows, alignments } = table;
            let ghost before = rows@;
            let mut out: Vec<Vec<TableCell>> = Vec::new();
            for x in it: rows.into_iter()
                invariant
                    each_in_turn(
                        steps::row_expand_step(T::expand_steps(), T::steps()),
                        *old(t),
                        rows_model(before),
                        it.index() as int,
                        *t,
                    ),
                    it.seq() == before,
                    t.is_identity() == old(t).is_identity(),
                    t.rules() == old(t).rules(),
                    out.len() == it.index(),
                    old(t).is_identity() ==> forall|j: int|
                        0 <= j < it.index() ==> row_model((#[trigger] out@[j])@) == row_model(
                            before[j]@,
                        ),
                    forall|j: int|
                        0 <= j < it.index() ==> row_expand_walked(
                            old(t).rules(),
                            row_model(before[j]@),
                            row_model((#[trigger] out@[j])@),
                        ),
            {
                assert(x == before[it.index() as int]);
                let ghost done = out@;
                let ghost mid = *t;
                let mut ys = t.walk_expand_table_row(x);
                proof {
                    lemma_one_more(
                        steps::row_expand_step(T::expand_steps(), T::steps()),
                        *old(t),
                        rows_model(before),
                        it.index() as int,
                        mid,
                        *t,
                    );
                }
                let ghost one = ys@[0];
                out.append(&mut ys);
                assert(out@ =~= done.push(one));
            }
            assert(old(t).is_identity() ==> rows_model(out@) =~= rows_model(before));
            assert forall|k: int| 0 <= k < before.len() implies row_expand_walked(
                old(t).rules(),
                rows_model(before)[k],
                #[trigger] rows_model(out@)[k],
            ) by {
                assert(row_expand_walked(
                    old(t).rules(),
                    row_model(before[k]@),
                    row_model(out@[k]@),
                ));
            }
            Block::Table(Table { rows: out, alignments })
        },
        Block::FootnoteDefinition(footnote) => {
            let FootnoteDefinition { label, blocks } = footnote;
            let blocks = walk_expand_blocks(t, blocks);
            Block::FootnoteDefinition(FootnoteDefinition { label, blocks })
        },
        Block::GitHubAlert(alert) => {
            let GitHubAlert { alert_type, blocks } = alert;
            let blocks = walk_expand_blocks(t, blocks);
            Block::GitHubAlert(GitHubAlert { alert_type, blocks })
        },
        Block::Definition(def) => {
            let LinkDefinition { label, destination, title } = def;
            let label = walk_expand_inlines(t, label);
            Block::Definition(LinkDefinition { label, destination, title })
        },
        other => t.transform_block(other),
    };
    let mut out: Vec<Block> = Vec::new();
    out.push(made);
    out
}

/// The expanding walk of a document: the document, with what
/// [`walk_expand_block`] makes of each of its blocks.
pub fn walk_expand_document<T: Transformer>(t: &mut T, doc: Document) -> (r: Vec<
    Document,
>)
    ensures
        final(t).is_identity() == old(t).is_identity(),
        final(t).rules() == old(t).rules(),
        steps::document_expand_walk_seen(
            T::expand_steps(),
            T::steps(),
            *old(t),
            doc@,
            *final(t),
        ),
        old(t).is_identity() ==> r.len() == 1 && r@[0]@ == doc@,
        r.len() == 1,
        document_expand_walked(old(t).rules(), doc@, r@[0]@),
{
    let Document { blocks } = doc;
    let blocks = walk_expand_blocks(t, blocks);
    let mut out: Vec<Document> = Vec::new();
    out.push(Document { blocks });
    out
}

/// Nodes that a transformer can be applied to.
pub trait TransformWith: Sized {
    /// The model of the node.
    spec fn model(&self) -> DocumentOrNode;

    /// Applies the transformer to this node. An identity hands the node
    /// back with the model it came with.
    fn transform_with<T: Transformer>(self, transformer: &mut T) -> (r: Self)
        ensures
            final(transformer).is_identity() == old(transformer).is_identity(),
            old(transformer).is_identity() ==> r.model() == self.model(),
    ;
}

/// The model of any node that a transformer can be applied to.
pub enum DocumentOrNode {
    Document(crate::ast::model::DocumentModel),
    Block(BlockModel),
    Inline(InlineModel),
}

impl TransformWith for Document {
    open spec fn model(&self) -> DocumentOrNode {
        DocumentOrNode::Document(self@)
    }

    fn transform_with<T: Transformer>(self, transformer: &mut T) -> (r: Self)
        ensures
            final(transformer).rules() == old(transformer).rules(),
            steps::document_seen(T::steps(), *old(transformer), self@, *final(transformer)),
            document_made(old(transformer).rules(), self@, r@),
    {
        transformer.transform_document(self)
    }
}

impl TransformWith for Block {
    open spec fn model(&self) -> DocumentOrNode {
        DocumentOrNode::Block(self@)
    }

    fn transform_with<T: Transformer>(self, transformer: &mut T) -> (r: Self)
        ensures
            final(transformer).rules() == old(transformer).rules(),
            (T::steps().block)(*old(transformer), self@, *final(transformer)),
            block_made(old(transformer).rules(), self@, r@),
    {
        transformer.transform_block(self)
    }
}

impl TransformWith for Inline {
    open spec fn model(&self) -> DocumentOrNode {
        DocumentOrNode::Inline(self@)
    }

    fn transform_with<T: Transformer>(self, transformer: &mut T) -> (r: Self)
        ensures
            final(transformer).rules() == old(transformer).rules(),
            (T::steps().inline)(*old(transformer), self@, *final(transformer)),
            inline_made(old(transformer).rules(), self@, r@),
    {
        transformer.transform_inline(self)
    }
}

/// Nodes that a transformer can expand.
pub trait ExpandWith: Sized + TransformWith {
    /// Applies the expanding walk of the transformer to this node. An
    /// identity hands back the one node, with the model it came with.
    fn expand_with<T: Transformer>(self, transformer: &mut T) -> (r: Vec<Self>)
        ensures
            final(transformer).is_identity() == old(transformer).is_identity(),
            old(transformer).is_identity() ==> r.len() == 1 && r@[0].model() == self.model(),
    ;
}

impl ExpandWith for Document {
    fn expand_with<T: Transformer>(self, transformer: &mut T) -> (r: Vec<Self>)
        ensures
            final(transformer).rules() == old(transformer).rules(),
            r.len() == 1,
            steps::document_expand_walk_seen(
                T::expand_steps(),
                T::steps(),
                *old(transformer),
                self@,
                *final(transformer),
            ),
            document_expand_walked(old(transformer).rules(), self@, r@[0]@),
    {
        walk_expand_document(transformer, self)
    }
}

impl ExpandWith for Block {
    fn expand_with<T: Transformer>(self, transformer: &mut T) -> (r: Vec<Self>)
        ensures
            final(transformer).rules() == old(transformer).rules(),
            r.len() == 1,
            steps::block_expand_walk_seen(
                T::expand_steps(),
                T::steps(),
                *old(transformer),
                self@,
                *final(transformer),
            ),
            block_expand_walked(old(transformer).rules(), self@, r@[0]@),
    {
        walk_expand_block(transformer, self)
    }
}

impl ExpandWith for Inline {
    fn expand_with<T: Transformer>(self, transformer: &mut T) -> (r: Vec<Self>)
        ensures
            final(transformer).rules() == old(transformer).rules(),
            r.len() == 1,
            (T::steps().inline)(*old(transformer), self@, *final(transformer)),
            inline_made(old(transformer).rules(), self@, r@[0]@),
    {
        transformer.walk_expand_inline(self)
    }
}

/// The transformer that hands every node back as it is.
pub struct Identity;

impl Transformer for Identity {
    open spec fn is_identity(&self) -> bool {
        true
    }

    open spec fn rules(&self) -> Rules {
        identity_rules()
    }

    open spec fn steps() -> Steps<Self> {
        no_steps()
    }

    open spec fn expand_steps() -> Steps<Self> {
        never_steps()
    }

    fn transform_block(&mut self, block: Block) -> (r: Block) {
        block
    }

    fn transform_inline(&mut self, inline: Inline) -> (r: Inline) {
        inline
    }

    fn transform_document(&mut self, doc: Document) -> (r: Document) {
        doc
    }
}

/// Two transformers in turn: what `earlier` makes of a document, a block or
/// an inline goes to `last`.
pub struct Then<E, L> {
    earlier: E,
    last: L,
}

impl<E, L> Then<E, L> {
    /// The transformer that is applied first.
    pub closed spec fn earlier(&self) -> E {
        self.earlier
    }

    /// The transformer that is applied to what the first has made.
    pub closed spec fn last(&self) -> L {
        self.last
    }
}

/// How two transformers in turn change on a document, a block or an
/// inline: `earlier` takes its step on the node, and `last` takes its step
/// on something that `earlier` makes of the node. The other hooks of such
/// a pair are walks.
pub open spec fn steps_in_turn<E: Transformer, L: Transformer>() -> Steps<Then<E, L>> {
    Steps {
        document: |a: Then<E, L>, x: DocumentModel, b: Then<E, L>|
            exists|m: DocumentModel| #[trigger]
                document_made(a.earlier().rules(), x, m) && steps::document_seen(
                    E::steps(),
                    a.earlier(),
                    x,
                    b.earlier(),
                ) && steps::document_seen(L::steps(), a.last(), m, b.last()),
        block: |a: Then<E, L>, x: BlockModel, b: Then<E, L>|
            exists|m: BlockModel| #[trigger]
                block_made(a.earlier().rules(), x, m) && (E::steps().block)(
                    a.earlier(),
                    x,
                    b.earlier(),
                ) && (L::steps().block)(a.last(), m, b.last()),
        inline: |a: Then<E, L>, x: InlineModel, b: Then<E, L>|
            exists|m: InlineModel| #[trigger]
                inline_made(a.earlier().rules(), x, m) && (E::steps().inline)(
                    a.earlier(),
                    x,
                    b.earlier(),
                ) && (L::steps().inline)(a.last(), m, b.last()),
        table_cell: |a: Then<E, L>, x: TableCellModel, b: Then<E, L>| false,
        list_item: |a: Then<E, L>, x: ListItemModel, b: Then<E, L>| false,
        table_row: |a: Then<E, L>, x: Seq<TableCellModel>, b: Then<E, L>| false,
        heading: |a: Then<E, L>, x: BlockModel, b: Then<E, L>| false,
        link: |a: Then<E, L>, x: InlineModel, b: Then<E, L>| false,
        image: |a: Then<E, L>, x: InlineModel, b: Then<E, L>| false,
        code_block: |a: Then<E, L>, x: BlockModel, b: Then<E, L>| false,
        text: |a: Then<E, L>, x: Seq<char>, b: Then<E, L>| false,
        footnote_definition: |a: Then<E, L>, x: BlockModel, b: Then<E, L>| false,
        github_alert: |a: Then<E, L>, x: BlockModel, b: Then<E, L>| false,
    }
}

impl<E: Transformer, L: Transformer> Transformer for Then<E, L> {
    open spec fn is_identity(&self) -> bool {
        self.earlier().is_identity() && self.last().is_identity()
    }

    open spec fn rules(&self) -> Rules {
        rules_in_turn(self.earlier().rules(), self.last().rules())
    }

    open spec fn steps() -> Steps<Self> {
        steps_in_turn::<E, L>()
    }

    open spec fn expand_steps() -> Steps<Self> {
        never_steps()
    }

    fn transform_document(&mut self, doc: Document) -> (r: Document) {
        let ghost first = self.earlier.rules();
        let mid = self.earlier.transform_document(doc);
        assert(document_made(first, doc@, mid@));
        self.last.transform_document(mid)
    }

    fn transform_block(&mut self, block: Block) -> (r: Block) {
        let ghost first = self.earlier.rules();
        let mid = self.earlier.transform_block(block);
        assert(block_made(first, block@, mid@));
        self.last.transform_block(mid)
    }

    fn transform_inline(&mut self, inline: Inline) -> (r: Inline) {
        let ghost first = self.earlier.rules();
        let mid = self.earlier.transform_inline(inline);
        assert(inline_made(first, inline@, mid@));
        self.last.transform_inline(mid)
    }
}

/// How a composite changes on a document, a block or an inline: as the
/// transformers that it holds change in turn. Its other hooks are walks.
pub open spec fn composite_steps<C: Transformer>() -> Steps<CompositeTransformer<C>> {
    Steps {
        document: |a: CompositeTransformer<C>, x: DocumentModel, b: CompositeTransformer<C>|
            steps::document_seen(C::steps(), a.members(), x, b.members()),
        block: |a: CompositeTransformer<C>, x: BlockModel, b: CompositeTransformer<C>|
            (C::steps().block)(a.members(), x, b.members()),
        inline: |a: CompositeTransformer<C>, x: InlineModel, b: CompositeTransformer<C>|
            (C::steps().inline)(a.members(), x, b.members()),
        table_cell: |a: CompositeTransformer<C>, x: TableCellModel, b: CompositeTransformer<C>|
            false,
        list_item: |a: CompositeTransformer<C>, x: ListItemModel, b: CompositeTransformer<C>|
            false,
        table_row: |
            a: CompositeTransformer<C>,
            x: Seq<TableCellModel>,
            b: CompositeTransformer<C>,
        | false,
        heading: |a: CompositeTransformer<C>, x: BlockModel, b: CompositeTransformer<C>| false,
        link: |a: CompositeTransformer<C>, x: InlineModel, b: CompositeTransformer<C>| false,
        image: |a: CompositeTransformer<C>, x: InlineModel, b: CompositeTransformer<C>| false,
        code_block: |a: CompositeTransformer<C>, x: BlockModel, b: CompositeTransformer<C>| false,
        text: |a: CompositeTransformer<C>, x: Seq<char>, b: CompositeTransformer<C>| false,
        footnote_definition: |a: CompositeTransformer<C>, x: BlockModel, b: CompositeTransformer<C>|
            false,
        github_alert: |a: CompositeTransformer<C>, x: BlockModel, b: CompositeTransformer<C>|
            false,
    }
}

/// Several transformers applied one after the other, in the order in which
/// they were added: each works on what the one before has made. With none
/// added it is an identity. `C` is what was added so far: `Identity` at
/// first, and `Then<C, T>` once a `T` is added.
pub struct CompositeTransformer<C = Identity> {
    chain: C,
}

impl CompositeTransformer<Identity> {
    /// A composite of no transformers.
    pub fn new() -> (r: Self)
        ensures
            r.is_identity(),
            r.rules() == identity_rules(),
    {
        CompositeTransformer { chain: Identity }
    }
}

impl<C: Transformer> CompositeTransformer<C> {
    /// The transformers that were added, in turn.
    pub closed spec fn members(&self) -> C {
        self.chain
    }

    /// The composite with one more transformer, which is applied after
    /// those that are there.
    pub fn add_transformer<T: Transformer + 'static>(self, transformer: T) -> (r:
        CompositeTransformer<Then<C, T>>)
        ensures
            r.members().earlier() == self.members(),
            r.members().last() == transformer,
            r.rules() == rules_in_turn(self.rules(), transformer.rules()),
            r.is_identity() == (self.is_identity() && transformer.is_identity()),
    {
        let CompositeTransformer { chain } = self;
        CompositeTransformer { chain: Then { earlier: chain, last: transformer } }
    }
}

impl Default for CompositeTransformer<Identity> {
    fn default() -> (r: Self)
        ensures
            r.is_identity(),
            r.rules() == identity_rules(),
    {
        CompositeTransformer::new()
    }
}

impl<C: Transformer> Transformer for CompositeTransformer<C> {
    open spec fn is_identity(&self) -> bool {
        self.members().is_identity()
    }

    open spec fn rules(&self) -> Rules {
        self.members().rules()
    }

    open spec fn steps() -> Steps<Self> {
        composite_steps::<C>()
    }

    open spec fn expand_steps() -> Steps<Self> {
        never_steps()
    }

    fn transform_document(&mut self, doc: Document) -> (r: Document) {
        self.chain.transform_document(doc)
    }

    fn transform_block(&mut self, block: Block) -> (r: Block) {
        self.chain.transform_block(block)
    }

    fn transform_inline(&mut self, inline: Inline) -> (r: Inline) {
        self.chain.transform_inline(inline)
    }
}

} // verus!
