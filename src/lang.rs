//! The language front-end: its error type and the rendering of a
//! diagnostic that points at an offending column.

pub mod tokenizer;

use crate::text::{decimal, push_char, push_decimal, push_trimmed, trimmed};
use vstd::prelude::*;

verus! {

/// What stage of the front-end raised an error.
#[derive(Debug, Clone, Copy, PartialEq, Eq, Structural)]
pub enum ErrorKind {
    Tokenizer,
}

/// A fatal error of one call, with the position of the first offending
/// character and the fully rendered diagnostic.
#[derive(Debug)]
pub struct Error {
    pub kind: ErrorKind,
    pub line: usize,
    pub col: usize,
    pub message: String,
}

impl Error {
    pub fn new(kind: ErrorKind, line: usize, col: usize, message: String) -> (r: Error)
        ensures
            r.kind == kind,
            r.line == line,
            r.col == col,
            r.message@ == message@,
    {
        Error { kind, line, col, message }
    }

    /// The text shown to a user: the rendered diagnostic.
    pub fn render(&self) -> (r: String)
        ensures
            r@ == self.message@,
    {
        self.message.clone()
    }
}

/// `n` dashes.
pub open spec fn dashes(n: nat) -> Seq<char> {
    Seq::new(n, |i: int| '-')
}

/// The diagnostic for an offending character at `line` and `col` whose
/// line reads `text`: a header with the position, the line trimmed, and
/// a caret under the offending column.
pub open spec fn diagnostic(line: nat, col: nat, text: Seq<char>) -> Seq<char> {
    "Tokenizer error on line: "@ + decimal(line) + ", column: "@ + decimal(col) + seq!['\n']
        + trimmed(text) + seq!['\n'] + dashes((col - 1) as nat) + seq!['^']
}

/// Renders the diagnostic for an offending character at `line` and `col`
/// on a line that reads `text`.
pub fn render_diagnostic(line: usize, col: usize, text: &Vec<char>) -> (r: String)
    requires
        col >= 1,
    ensures
        r@ == diagnostic(line as nat, col as nat, text@),
{
    let mut r = String::new();
    r.append("Tokenizer error on line: ");
    push_decimal(&mut r, line);
    r.append(", column: ");
    push_decimal(&mut r, col);
    push_char(&mut r, '\n');
    push_trimmed(&mut r, text);
    push_char(&mut r, '\n');
    let ghost head = r@;
    let mut i: usize = 1;
    while i < col
        invariant
            1 <= i <= col,
            r@ == head + dashes((i - 1) as nat),
        decreases col - i,
    {
        push_char(&mut r, '-');
        assert(dashes(i as nat) == dashes((i - 1) as nat).push('-'));
        i = i + 1;
    }
    push_char(&mut r, '^');
    r
}

} // verus!
