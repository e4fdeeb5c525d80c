//! The query language: its syntax tree, its grammar, and its printer.

pub mod ast;
pub mod format;
pub mod grammar;
