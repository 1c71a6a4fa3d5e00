//! The decision step of the interactive shell: what one unit of input asks
//! for. Reading input and printing output are left to the caller.

use crate::lang::tokenizer::{
    first_non_ascii, token_text, tokenize, tokenized, tokens_of, Token,
};
use crate::lang::Error;
use vstd::prelude::*;

verus! {

/// How the shell reads its next unit of input.
#[derive(Debug, Clone, Copy, PartialEq, Eq, Structural)]
pub enum SupportedReplInputMode {
    SingleLine,
    MultiLine,
}

/// What one unit of input leads to: text to show, a change of input mode,
/// or whether the shell keeps running.
#[derive(Debug)]
pub enum EvaluationResult {
    Output(Result<String, Error>),
    ReplInputMode(SupportedReplInputMode),
    ReplRunning(bool),
}

/// The help text of the shell.
pub open spec fn help_text() -> Seq<char> {
    "Commands:\n\t.m -> enable multiline mode\n\t.q/.e -> quit/exit repl\n"@
}

/// Whether `s` is one of the shell's own commands.
pub open spec fn is_command(s: Seq<char>) -> bool {
    s == ".m\n"@ || s == ".e\n"@ || s == ".q\n"@ || s == "?\n"@
}

/// The tokens shown one after another.
pub open spec fn tokens_text(ts: Seq<Token>) -> Seq<char>
    decreases ts.len(),
{
    if ts.len() == 0 {
        Seq::empty()
    } else {
        tokens_text(ts.drop_last()) + token_text(ts.last())
    }
}

/// Whether `s` reads exactly `lit`.
fn same_text(s: &str, lit: &str) -> (r: bool)
    ensures
        r == (s@ == lit@),
{
    let n = lit.unicode_len();
    if s.unicode_len() != n {
        return false;
    }
    let mut i: usize = 0;
    while i < n
        invariant
            n == lit@.len(),
            n == s@.len(),
            i <= n,
            s@.subrange(0, i as int) == lit@.subrange(0, i as int),
        decreases n - i,
    {
        if s.get_char(i) != lit.get_char(i) {
            return false;
        }
        assert(s@.subrange(0, i + 1) =~= s@.subrange(0, i as int).push(s@[i as int]));
        assert(lit@.subrange(0, i + 1) =~= lit@.subrange(0, i as int).push(lit@[i as int]));
        i = i + 1;
    }
    assert(s@ =~= s@.subrange(0, n as int));
    assert(lit@ =~= lit@.subrange(0, n as int));
    true
}

/// The text shown for a sequence of tokens.
pub fn render_tokens(tokens: &Vec<Token>) -> (r: String)
    ensures
        r@ == tokens_text(tokens@),
{
    let mut r = String::new();
    let mut i: usize = 0;
    while i < tokens.len()
        invariant
            i <= tokens.len(),
            r@ == tokens_text(tokens@.subrange(0, i as int)),
        decreases tokens.len() - i,
    {
        let part = tokens[i].render();
        r.append(part.as_str());
        assert(tokens@.subrange(0, i + 1).drop_last() =~= tokens@.subrange(0, i as int));
        i = i + 1;
    }
    assert(tokens@ =~= tokens@.subrange(0, tokens.len() as int));
    r
}

/// Decides what one unit of input asks for: `.m` switches to multi-line
/// input, `.e` and `.q` stop the shell, `?` shows the help text, and
/// anything else is tokenized and its tokens, or its error, are shown.
pub fn eval(input: String) -> (r: EvaluationResult)
    ensures
        input@ == ".m\n"@ ==> r matches EvaluationResult::ReplInputMode(
            SupportedReplInputMode::MultiLine,
        ),
        (input@ == ".e\n"@ || input@ == ".q\n"@) ==> r matches EvaluationResult::ReplRunning(false),
        input@ == "?\n"@ ==> (r matches EvaluationResult::Output(Ok(o)) && o@ == help_text()),
        !is_command(input@) ==> (r matches EvaluationResult::Output(out) && match out {
            Ok(o) => first_non_ascii(input@) == input@.len() && o@ == tokens_text(
                tokens_of(input@),
            ),
            Err(e) => tokenized(input@, Err(e)),
        }),
{
    proof {
        reveal_strlit(".m\n");
        reveal_strlit(".e\n");
        reveal_strlit(".q\n");
        reveal_strlit("?\n");
        assert(".e\n"@[1] != ".m\n"@[1]);
        assert(".q\n"@[1] != ".m\n"@[1]);
    }
    let s = input.as_str();
    if same_text(s, ".m\n") {
        EvaluationResult::ReplInputMode(SupportedReplInputMode::MultiLine)
    } else if same_text(s, ".e\n") || same_text(s, ".q\n") {
        EvaluationResult::ReplRunning(false)
    } else if same_text(s, "?\n") {
        EvaluationResult::Output(
            Ok(String::from_str("Commands:\n\t.m -> enable multiline mode\n\t.q/.e -> quit/exit repl\n")),
        )
    } else {
        match tokenize(s) {
            Ok(tokens) => EvaluationResult::Output(Ok(render_tokens(&tokens))),
            Err(error) => EvaluationResult::Output(Err(error)),
        }
    }
}

} // verus!
