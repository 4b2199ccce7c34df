//! The parts of the LaTeX output that stand on their own: its
//! configuration, the escaping of text, environments and commands, and
//! tables.

pub mod config;
pub mod table;
pub mod util;
