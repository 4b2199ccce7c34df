//! Typst printer for the document tree.
//!
//! | Markdown          | Typst                                |
//! |-------------------|--------------------------------------|
//! | `# Heading`       | `#heading(level: 1, [..])`           |
//! | `**bold**`        | `#strong[..]`                        |
//! | `*italic*`        | `#emph[..]`                          |
//! | `~~strike~~`      | `#strike[..]`                        |
//! | `` `code` ``      | `#raw("..")`                         |
//! | `> quote`         | `#quote(block: true)[..]`            |
//! | `- list`          | `#list(..)`                          |
//! | `1. ordered`      | `#enum(..)`                          |
//! | `[link](url)`     | `#link("url")[..]`                   |
//! | `![img](url)`     | `#box(image("url", alt: ".."))`      |
//! | Tables            | `#figure(table(..))`                 |
//!
//! The printer builds a document of the pretty-printer, token by token as
//! [`document_tokens`] says, and has it laid out.

use vstd::prelude::*;
use crate::ast::{Document, FootnoteDefinition, Inline, LinkDefinition};
use crate::ast::model::{inlines_model, DocumentModel};
use crate::doc::{render, tokens_fixed, tokens_text, typeset, Token};
use crate::latex_printer::config::Config;
use crate::typst_printer::block::{blocks_to_doc, blocks_tokens};
use crate::typst_printer::index::index_of;

pub mod block;
pub mod index;
pub mod inline;
pub mod table;
pub mod util;

pub use crate::latex_printer::config;
pub use crate::typst_printer::index::{get_indices, Indices};

verus! {

/// What a renderer carries along: its configuration and the definitions
/// that the references of the document point to.
pub struct State {
    pub config: Config,
    pub indices: Indices,
}

impl State {
    /// A state that holds this configuration and these indices.
    pub fn new(config: Config, indices: Indices) -> (r: Self)
        ensures
            r.config == config,
            r.indices == indices,
    {
        State { config, indices }
    }

    /// The footnote definition that `label` points to. A label that is
    /// not defined gives `None`: the reference is then rendered as it was
    /// written.
    pub fn get_footnote_definition(&self, label: &str) -> (r: Option<&FootnoteDefinition>)
        ensures
            match r {
                Some(d) => self.indices@.footnotes.contains_key(label@)
                    && self.indices@.footnotes[label@] == d@,
                None => !self.indices@.footnotes.contains_key(label@),
            },
    {
        self.indices.get_footnote_definition(label)
    }

    /// The link definition that `label` points to. A label that is not
    /// defined gives `None`: the reference is then rendered as it was
    /// written.
    pub fn get_link_definition(&self, label: &Vec<Inline>) -> (r: Option<&LinkDefinition>)
        ensures
            match r {
                Some(d) => self.indices@.links.contains_key(inlines_model(label@))
                    && self.indices@.links[inlines_model(label@)] == d@,
                None => !self.indices@.links.contains_key(inlines_model(label@)),
            },
    {
        self.indices.get_link_definition(label)
    }
}

/// The tokens that a document is written with: its blocks, with the
/// references resolved against the definitions of the document itself.
/// Footnotes are written one inside the other as deep as the document has
/// footnote definitions, so that only a footnote that leads back to itself
/// is cut: there the reference is written as it stood in the source.
pub open spec fn document_tokens(doc: DocumentModel) -> Seq<Token> {
    blocks_tokens(doc.blocks, index_of(doc), index_of(doc).entered)
}

/// Renders a document to Typst source, with lines of the width that the
/// configuration gives where the layout has a choice. It has one where a
/// list item holds several blocks; a document without such an item is
/// written as the text of its tokens.
pub fn render_typst(ast: &Document, config: Config) -> (r: String)
    ensures
        r@ == typeset(document_tokens(ast@), config.width),
        tokens_fixed(document_tokens(ast@)) ==> r@ == tokens_text(document_tokens(ast@)),
{
    let indices = get_indices(ast);
    let depth = indices.footnotes_entered();
    let state = State::new(config, indices);
    let doc = blocks_to_doc(&ast.blocks, &state, depth);
    render(&doc, config.width)
}

} // verus!
