//! Lexical front-end of a small interactive language shell: a scanner that
//! classifies each character of its input and tags it with a line and a
//! column, and diagnostics that point at the first character it cannot
//! classify.

pub mod text;
pub mod lang;
pub mod repl;
