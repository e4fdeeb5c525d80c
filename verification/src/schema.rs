//! The schema (type system) language: its syntax tree and its grammar.

pub mod ast;
pub mod grammar;
