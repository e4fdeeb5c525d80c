//! A language front end for the GraphQL textual grammar: a lexical tokenizer
//! and two recursive-descent grammars (the query language and the schema
//! language) that turn a UTF-8 source buffer into a structured syntax tree,
//! together with a printer that walks a tree and emits canonical text.
//!
//! Syntax-tree values are views into the original buffer: every string-valued
//! field is a byte range (a [`common::Span`]) into the source that produced the
//! tree, so building a tree never copies token text.  String literals are the
//! one exception: their decoded contents are materialized when a value node is
//! built.

pub mod common;
pub mod format;
pub mod helpers;
pub mod error;
pub mod position;
pub mod query;
pub mod schema;
pub mod tokenizer;
