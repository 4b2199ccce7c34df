//! Configuration of the LaTeX output.

use vstd::prelude::*;

verus! {

/// How tables are rendered.
#[derive(Debug, Clone, Copy, PartialEq, Eq)]
pub enum TableStyle {
    /// The plain `tabular` environment, with `\hline` under the header.
    Tabular,
    /// The `longtabu` environment, which breaks across pages.
    Longtabu,
    /// `tabular` with the rules of the `booktabs` package.
    Booktabs,
}

/// How code blocks are rendered.
#[derive(Debug, Clone, Copy, PartialEq, Eq)]
pub enum CodeBlockStyle {
    /// The plain `verbatim` environment.
    Verbatim,
    /// The `lstlisting` environment of the `listings` package.
    Listings,
    /// The `minted` environment of the `minted` package.
    Minted,
}

/// Configuration of the LaTeX output. Start from the default and change
/// what is needed:
///
/// ```text
/// Config::default().with_width(120).with_table_style(TableStyle::Booktabs)
/// ```
#[derive(Debug, Clone, Copy, PartialEq, Eq)]
pub struct Config {
    /// The line width that the pretty-printer aims at.
    pub width: usize,
    pub table_style: TableStyle,
    pub code_block_style: CodeBlockStyle,
}

impl Default for Config {
    /// Width 80, `tabular` tables, `verbatim` code blocks.
    fn default() -> (r: Self)
        ensures
            r == (Config {
                width: 80,
                table_style: TableStyle::Tabular,
                code_block_style: CodeBlockStyle::Verbatim,
            }),
    {
        Config {
            width: 80,
            table_style: TableStyle::Tabular,
            code_block_style: CodeBlockStyle::Verbatim,
        }
    }
}

impl Config {
    /// The same configuration with another line width.
    pub fn with_width(self, width: usize) -> (r: Self)
        ensures
            r == (Config { width, ..self }),
    {
        Config { width, ..self }
    }

    /// The same configuration with another table style.
    pub fn with_table_style(self, table_style: TableStyle) -> (r: Self)
        ensures
            r == (Config { table_style, ..self }),
    {
        Config { table_style, ..self }
    }

    /// The same configuration with another code block style.
    pub fn with_code_block_style(self, code_block_style: CodeBlockStyle) -> (r: Self)
        ensures
            r == (Config { code_block_style, ..self }),
    {
        Config { code_block_style, ..self }
    }
}

} // verus!
