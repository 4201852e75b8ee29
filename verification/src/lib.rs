//! A small Lox: scanner, parser, syntax tree and tree-walking interpreter,
//! with the error model that runs through all of them.
//!
//! Source text is handled as a sequence of characters: every offset and
//! length in this crate counts characters, not bytes.

pub mod lox;
pub mod runtime;
pub mod syntax;
pub mod text;
