//! The parser: text to [`Document`].
//!
//! The grammar is written down as specification functions, from
//! [`document_of`] downwards, and [`parse_markdown`] is proved to compute
//! it. No text is refused: what no recognizer takes is a paragraph, and
//! what no inline recognizer takes is text.

use vstd::prelude::*;
use crate::ast::Document;
use crate::ast::model::DocumentModel;

pub mod blocks;
pub mod chars;
pub mod inline;
pub mod lines;
pub mod state;

pub use crate::parser::state::{MarkdownParserState, MAX_NESTING_DEPTH};

use crate::parser::blocks::{blocks_from, parse_blocks};
use crate::parser::chars::chars_of;
use crate::parser::lines::{lines_of, split_lines};

verus! {

/// Why a text was not parsed.
#[derive(Debug, Clone, Copy, PartialEq, Eq)]
pub struct ParseError {
    /// The line at which the parser gave up.
    pub position: usize,
    /// The nesting that the state handed in already had.
    pub nesting: usize,
}

/// The document that `text` holds, read inside a container or not, with
/// `depth` levels of nesting to spend.
pub open spec fn document_of(text: Seq<char>, guarded: bool, depth: nat) -> DocumentModel {
    DocumentModel { blocks: blocks_from(split_lines(text), 0, guarded, depth) }
}

/// Parses a text. With a state whose nesting is within
/// [`MAX_NESTING_DEPTH`], and so with every fresh state, the parse
/// succeeds, whatever the text holds. A state that is nested deeper than
/// that is refused, at line 0.
pub fn parse_markdown(state: MarkdownParserState, input: &str) -> (r: Result<Document, ParseError>)
    ensures
        state.nesting <= MAX_NESTING_DEPTH ==> r is Ok,
        match r {
            Ok(doc) => state.nesting <= MAX_NESTING_DEPTH && doc@ == document_of(
                input@,
                state.guarded(),
                state.budget(),
            ),
            Err(e) => state.nesting > MAX_NESTING_DEPTH && e == (ParseError {
                position: 0,
                nesting: state.nesting,
            }),
        },
{
    if state.nesting > MAX_NESTING_DEPTH {
        return Err(ParseError { position: 0, nesting: state.nesting });
    }
    let text = chars_of(input);
    let lines = lines_of(&text);
    let blocks = parse_blocks(&lines, &state, MAX_NESTING_DEPTH - state.nesting);
    Ok(Document { blocks })
}

} // verus!
