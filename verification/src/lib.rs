//! Markdown parsing and printing.
//!
//! [`parser`] reads CommonMark with the GitHub extensions and a container
//! block into the typed tree of [`ast`]. [`ast_transform`] walks and
//! rewrites that tree. [`typst_printer`] collects the definitions that
//! references point to and renders the tree to Typst; [`latex_printer`]
//! holds the parts of a LaTeX output. Both printers build documents of
//! [`doc`], which the `pretty` crate lays out.
//!
//! What each function computes is stated in its contract, over the models
//! of [`ast::model`].

pub mod ast;
pub mod ast_transform;
pub mod doc;
pub mod latex_printer;
pub mod parser;
pub mod typst_printer;
