//! Read-only traversal of the tree.
//!
//! A visitor has one hook for each kind of node. `visit_block` and
//! `visit_inline` are for the implementor to write; a visitor that only
//! wants the default traversal forwards them to `walk_block` and
//! `walk_inline`. Every other hook walks the children of its node unless it
//! is overridden.
//!
//! ```text
//! struct TextCollector { texts: Vec<String> }
//!
//! impl Visitor for TextCollector {
//!     fn visit_block(&mut self, block: &Block) {
//!         self.walk_block(block);
//!     }
//!     fn visit_inline(&mut self, inline: &Inline) {
//!         if let Inline::Text(text) = inline {
//!             self.texts.push(text.clone());
//!         }
//!         self.walk_inline(inline);
//!     }
//! }
//! ```

use vstd::prelude::*;
use crate::ast::{
    Block, CodeBlock, Document, FootnoteDefinition, GitHubAlert, Heading, Image, Inline, Link,
    ListItem, TableCell,
};
use crate::ast::model::{blocks_model, inlines_model, items_model, row_model, rows_model};
use crate::ast_transform::steps::{
    alert_seen, alert_walked, any_steps, block_walked, blocks_seen, cell_seen, cell_step,
    cell_walked, code_block_seen, document_seen, document_walked, each_in_turn, footnote_seen,
    footnote_walked, heading_seen, heading_walked, image_seen, inline_walked, inlines_seen,
    item_seen, item_step, item_walked, label_then_text, lemma_one_more, link_seen, link_walked, row_seen,
    row_step, row_walked, text_seen, Steps,
};

verus! {

/// A visitor of the tree. The tree is only read. What a hook does to the
/// visitor is the implementor's business, and `steps` is where the
/// implementor says what that is.
pub trait Visitor: Sized {
    /// For each hook, how a call of it may change the visitor. A visitor
    /// that states none allows every change.
    open spec fn steps() -> Steps<Self> {
        any_steps()
    }

    /// Visits a block. To go on into the block, call `walk_block`.
    fn visit_block(&mut self, block: &Block)
        ensures
            (Self::steps().block)(*old(self), block@, *final(self)),
    ;

    /// Visits an inline. To go on into the inline, call `walk_inline`.
    fn visit_inline(&mut self, inline: &Inline)
        ensures
            (Self::steps().inline)(*old(self), inline@, *final(self)),
    ;

    /// Visits a document.
    fn visit_document(&mut self, doc: &Document)
        ensures
            document_seen(Self::steps(), *old(self), doc@, *final(self)),
    {
        self.walk_document(doc);
    }

    /// Visits a table cell.
    fn visit_table_cell(&mut self, cell: &TableCell)
        ensures
            cell_seen(Self::steps(), *old(self), cell@, *final(self)),
    {
        self.walk_table_cell(cell);
    }

    /// Visits a list item.
    fn visit_list_item(&mut self, item: &ListItem)
        ensures
            item_seen(Self::steps(), *old(self), item@, *final(self)),
    {
        self.walk_list_item(item);
    }

    /// Visits a table row.
    fn visit_table_row(&mut self, row: &Vec<TableCell>)
        ensures
            row_seen(Self::steps(), *old(self), row_model(row@), *final(self)),
    {
        self.walk_table_row(row);
    }

    /// Visits a heading.
    fn visit_heading(&mut self, heading: &Heading)
        ensures
            heading_seen(Self::steps(), *old(self), heading@, *final(self)),
    {
        self.walk_heading(heading);
    }

    /// Visits a link.
    fn visit_link(&mut self, link: &Link)
        ensures
            link_seen(Self::steps(), *old(self), link@, *final(self)),
    {
        self.walk_link(link);
    }

    /// Visits an image.
    fn visit_image(&mut self, image: &Image)
        ensures
            image_seen(Self::steps(), *old(self), image@, *final(self)),
    {
        self.walk_image(image);
    }

    /// Visits a code block.
    fn visit_code_block(&mut self, code_block: &CodeBlock)
        ensures
            code_block_seen(Self::steps(), *old(self), code_block@, *final(self)),
    {
        self.walk_code_block(code_block);
    }

    /// Visits the text of a `Text` inline.
    fn visit_text(&mut self, text: &str)
        ensures
            text_seen(Self::steps(), *old(self), text@, *final(self)),
    {
        self.walk_text(text);
    }

    /// Visits a footnote definition.
    fn visit_footnote_definition(&mut self, footnote: &FootnoteDefinition)
        ensures
            footnote_seen(Self::steps(), *old(self), footnote@, *final(self)),
    {
        self.walk_footnote_definition(footnote);
    }

    /// Visits a GitHub alert.
    fn visit_github_alert(&mut self, alert: &GitHubAlert)
        ensures
            alert_seen(Self::steps(), *old(self), alert@, *final(self)),
    {
        self.walk_github_alert(alert);
    }

    /// Visits each of the blocks, in order.
    fn walk_blocks(&mut self, blocks: &Vec<Block>)
        ensures
            blocks_seen(Self::steps(), *old(self), blocks_model(blocks@), *final(self)),
    {
        let mut k: usize = 0;
        while k < blocks.len()
            invariant
                k <= blocks.len(),
                each_in_turn(Self::steps().block, *old(self), blocks_model(blocks@), k as int, *self),
            decreases blocks.len() - k,
        {
            let ghost mid = *self;
            self.visit_block(&blocks[k]);
            proof {
                lemma_one_more(Self::steps().block, *old(self), blocks_model(blocks@), k as int, mid, *self);
            }
            k += 1;
        }
    }

    /// Visits each of the inlines, in order.
    fn walk_inlines(&mut self, inlines: &Vec<Inline>)
        ensures
            inlines_seen(Self::steps(), *old(self), inlines_model(inlines@), *final(self)),
    {
        let mut k: usize = 0;
        while k < inlines.len()
            invariant
                k <= inlines.len(),
                each_in_turn(Self::steps().inline, *old(self), inlines_model(inlines@), k as int, *self),
            decreases inlines.len() - k,
        {
            let ghost mid = *self;
            self.visit_inline(&inlines[k]);
            proof {
                lemma_one_more(Self::steps().inline, *old(self), inlines_model(inlines@), k as int, mid, *self);
            }
            k += 1;
        }
    }

    /// Visits the blocks of a document.
    fn walk_document(&mut self, doc: &Document)
        ensures
            document_walked(Self::steps(), *old(self), doc@, *final(self)),
    {
        self.walk_blocks(&doc.blocks);
    }

    /// Visits what a block holds: its inlines, its blocks, or the node
    /// inside it. The label of a link definition is visited as inlines.
    fn walk_block(&mut self, block: &Block)
        ensures
            block_walked(Self::steps(), *old(self), block@, *final(self)),
    {
        match block {
            Block::Paragraph(inlines) => {
                self.walk_inlines(inlines);
            },
            Block::Heading(heading) => {
                self.visit_heading(heading);
            },
            Block::BlockQuote(blocks) => {
                self.walk_blocks(blocks);
            },
            Block::List(list) => {
                let mut k: usize = 0;
                while k < list.items.len()
                    invariant
                        k <= list.items.len(),
                        each_in_turn(item_step(Self::steps()), *old(self), items_model(list.items@), k as int, *self),
                    decreases list.items.len() - k,
                {
                    let ghost mid = *self;
                    self.visit_list_item(&list.items[k]);
                    proof {
                        lemma_one_more(item_step(Self::steps()), *old(self), items_model(list.items@), k as int, mid, *self);
                    }
                    k += 1;
                }
            },
            Block::Table(table) => {
                let mut k: usize = 0;
                while k < table.rows.len()
                    invariant
                        k <= table.rows.len(),
                        each_in_turn(row_step(Self::steps()), *old(self), rows_model(table.rows@), k as int, *self),
                    decreases table.rows.len() - k,
                {
                    let ghost mid = *self;
                    self.visit_table_row(&table.rows[k]);
                    proof {
                        lemma_one_more(row_step(Self::steps()), *old(self), rows_model(table.rows@), k as int, mid, *self);
                    }
                    k += 1;
                }
            },
            Block::FootnoteDefinition(footnote) => {
                self.visit_footnote_definition(footnote);
            },
            Block::GitHubAlert(alert) => {
                self.visit_github_alert(alert);
            },
            Block::Definition(def) => {
                self.walk_inlines(&def.label);
            },
            Block::CodeBlock(code_block) => {
                self.visit_code_block(code_block);
            },
            Block::Container(container) => {
                self.walk_blocks(&container.blocks);
            },
            Block::ThematicBreak => {},
            Block::HtmlBlock(_) => {},
            Block::Empty => {},
            Block::LatexBlock(_) => {},
        }
    }

    /// Visits what an inline holds: its inlines, its text, or the node
    /// inside it. Of a link reference the label is visited before the text.
    fn walk_inline(&mut self, inline: &Inline)
        ensures
            inline_walked(Self::steps(), *old(self), inline@, *final(self)),
    {
        match inline {
            Inline::Emphasis(inlines) => {
                self.walk_inlines(inlines);
            },
            Inline::Strong(inlines) => {
                self.walk_inlines(inlines);
            },
            Inline::Strikethrough(inlines) => {
                self.walk_inlines(inlines);
            },
            Inline::Link(link) => {
                self.visit_link(link);
            },
            Inline::LinkReference(link_ref) => {
                self.walk_inlines(&link_ref.label);
                let ghost mid = *self;
                self.walk_inlines(&link_ref.text);
                assert(inlines_seen(
                    Self::steps(),
                    *old(self),
                    inlines_model(link_ref.label@),
                    mid,
                ));
                assert(label_then_text(
                    Self::steps(),
                    *old(self),
                    inlines_model(link_ref.label@),
                    inlines_model(link_ref.text@),
                    *self,
                ));
            },
            Inline::Image(image) => {
                self.visit_image(image);
            },
            Inline::Text(text) => {
                self.visit_text(text.as_str());
            },
            Inline::LineBreak => {},
            Inline::Code(_) => {},
            Inline::Html(_) => {},
            Inline::Autolink(_) => {},
            Inline::FootnoteReference(_) => {},
            Inline::Latex(_) => {},
            Inline::Empty => {},
        }
    }

    /// Visits the inlines of a table cell.
    fn walk_table_cell(&mut self, cell: &TableCell)
        ensures
            cell_walked(Self::steps(), *old(self), cell@, *final(self)),
    {
        self.walk_inlines(&cell.content);
    }

    /// Visits the blocks of a list item.
    fn walk_list_item(&mut self, item: &ListItem)
        ensures
            item_walked(Self::steps(), *old(self), item@, *final(self)),
    {
        self.walk_blocks(&item.blocks);
    }

    /// Visits the cells of a table row.
    fn walk_table_row(&mut self, row: &Vec<TableCell>)
        ensures
            row_walked(Self::steps(), *old(self), row_model(row@), *final(self)),
    {
        let mut k: usize = 0;
        while k < row.len()
            invariant
                k <= row.len(),
                each_in_turn(cell_step(Self::steps()), *old(self), row_model(row@), k as int, *self),
            decreases row.len() - k,
        {
            let ghost mid = *self;
            self.visit_table_cell(&row[k]);
            proof {
                lemma_one_more(cell_step(Self::steps()), *old(self), row_model(row@), k as int, mid, *self);
            }
            k += 1;
        }
    }

    /// Visits the inlines of a heading.
    fn walk_heading(&mut self, heading: &Heading)
        ensures
            heading_walked(Self::steps(), *old(self), heading@, *final(self)),
    {
        self.walk_inlines(&heading.content);
    }

    /// Visits the inlines of a link.
    fn walk_link(&mut self, link: &Link)
        ensures
            link_walked(Self::steps(), *old(self), link@, *final(self)),
    {
        self.walk_inlines(&link.children);
    }

    /// An image holds nothing to visit.
    fn walk_image(&mut self, _image: &Image)
        ensures
            *final(self) == *old(self),
    {
    }

    /// A code block holds nothing to visit.
    fn walk_code_block(&mut self, _code_block: &CodeBlock)
        ensures
            *final(self) == *old(self),
    {
    }

    /// A text holds nothing to visit.
    fn walk_text(&mut self, _text: &str)
        ensures
            *final(self) == *old(self),
    {
    }

    /// Visits the blocks of a footnote definition.
    fn walk_footnote_definition(&mut self, footnote: &FootnoteDefinition)
        ensures
            footnote_walked(Self::steps(), *old(self), footnote@, *final(self)),
    {
        self.walk_blocks(&footnote.blocks);
    }

    /// Visits the blocks of a GitHub alert.
    fn walk_github_alert(&mut self, alert: &GitHubAlert)
        ensures
            alert_walked(Self::steps(), *old(self), alert@, *final(self)),
    {
        self.walk_blocks(&alert.blocks);
    }
}

/// Nodes that a visitor can be sent into.
pub trait VisitWith {
    /// Sends the visitor into this node.
    fn visit_with<V: Visitor>(&self, visitor: &mut V);
}

impl VisitWith for Document {
    fn visit_with<V: Visitor>(&self, visitor: &mut V)
        ensures
            document_seen(V::steps(), *old(visitor), self@, *final(visitor)),
    {
        visitor.visit_document(self);
    }
}

impl VisitWith for Block {
    fn visit_with<V: Visitor>(&self, visitor: &mut V)
        ensures
            (V::steps().block)(*old(visitor), self@, *final(visitor)),
    {
        visitor.visit_block(self);
    }
}

impl VisitWith for Inline {
    fn visit_with<V: Visitor>(&self, visitor: &mut V)
        ensures
            (V::steps().inline)(*old(visitor), self@, *final(visitor)),
    {
        visitor.visit_inline(self);
    }
}

} // verus!
