//! The scanner: one token per character, classified and tagged with its
//! 1-based line and column.

use super::{diagnostic, render_diagnostic, Error, ErrorKind};
use crate::text::{decimal, escaped, push_char, push_decimal, push_escaped};
use vstd::prelude::*;

verus! {

/// The closed set of classes a character falls into.
#[derive(Debug, Clone, Copy, PartialEq, Eq, Structural)]
pub enum TokenClass {
    Number,
    Alphabet,
    NewLine,
    WhiteSpace,
    OpenParen,
    CloseParen,
    Plus,
    Dash,
    Asterisk,
    ForwardSlash,
    Dot,
    UnknownChar,
}

/// The name under which a class is shown.
pub open spec fn class_name(k: TokenClass) -> Seq<char> {
    match k {
        TokenClass::Number => "Number"@,
        TokenClass::Alphabet => "Alphabet"@,
        TokenClass::NewLine => "NewLine"@,
        TokenClass::WhiteSpace => "WhiteSpace"@,
        TokenClass::OpenParen => "OpenParen"@,
        TokenClass::CloseParen => "CloseParen"@,
        TokenClass::Plus => "Plus"@,
        TokenClass::Dash => "Dash"@,
        TokenClass::Asterisk => "Asterisk"@,
        TokenClass::ForwardSlash => "ForwardSlash"@,
        TokenClass::Dot => "Dot"@,
        TokenClass::UnknownChar => "UnknownChar"@,
    }
}

impl TokenClass {
    /// The name under which this class is shown.
    pub fn name(&self) -> (r: &'static str)
        ensures
            r@ == class_name(*self),
    {
        match self {
            TokenClass::Number => "Number",
            TokenClass::Alphabet => "Alphabet",
            TokenClass::NewLine => "NewLine",
            TokenClass::WhiteSpace => "WhiteSpace",
            TokenClass::OpenParen => "OpenParen",
            TokenClass::CloseParen => "CloseParen",
            TokenClass::Plus => "Plus",
            TokenClass::Dash => "Dash",
            TokenClass::Asterisk => "Asterisk",
            TokenClass::ForwardSlash => "ForwardSlash",
            TokenClass::Dot => "Dot",
            TokenClass::UnknownChar => "UnknownChar",
        }
    }
}

/// The class of a character.
pub open spec fn class_of(c: char) -> TokenClass {
    let v = c as u32;
    if c == '\n' {
        TokenClass::NewLine
    } else if c == '\t' || c == '\x0C' || c == '\r' || c == ' ' {
        TokenClass::WhiteSpace
    } else if 0x30 <= v <= 0x39 {
        TokenClass::Number
    } else if (0x41 <= v <= 0x5a) || (0x61 <= v <= 0x7a) {
        TokenClass::Alphabet
    } else if c == '(' {
        TokenClass::OpenParen
    } else if c == ')' {
        TokenClass::CloseParen
    } else if c == '+' {
        TokenClass::Plus
    } else if c == '-' {
        TokenClass::Dash
    } else if c == '*' {
        TokenClass::Asterisk
    } else if c == '/' {
        TokenClass::ForwardSlash
    } else if c == '.' {
        TokenClass::Dot
    } else {
        TokenClass::UnknownChar
    }
}

/// The class of a character.
pub fn classify(c: char) -> (r: TokenClass)
    ensures
        r == class_of(c),
{
    let v = c as u32;
    if c == '\n' {
        TokenClass::NewLine
    } else if c == '\t' || c == '\x0C' || c == '\r' || c == ' ' {
        TokenClass::WhiteSpace
    } else if 0x30 <= v && v <= 0x39 {
        TokenClass::Number
    } else if (0x41 <= v && v <= 0x5a) || (0x61 <= v && v <= 0x7a) {
        TokenClass::Alphabet
    } else if c == '(' {
        TokenClass::OpenParen
    } else if c == ')' {
        TokenClass::CloseParen
    } else if c == '+' {
        TokenClass::Plus
    } else if c == '-' {
        TokenClass::Dash
    } else if c == '*' {
        TokenClass::Asterisk
    } else if c == '/' {
        TokenClass::ForwardSlash
    } else if c == '.' {
        TokenClass::Dot
    } else {
        TokenClass::UnknownChar
    }
}

/// One classified character of the input and where it stands.
#[derive(Debug, Clone, Copy, PartialEq, Eq, Structural)]
pub struct Token {
    pub class: TokenClass,
    pub value: char,
    pub line: usize,
    pub col: usize,
}

/// How a token is shown: `(Class, 'c', line: l, column: c) `.
pub open spec fn token_text(t: Token) -> Seq<char> {
    seq!['('] + class_name(t.class) + ", '"@ + escaped(t.value) + "', line: "@ + decimal(
        t.line as nat,
    ) + ", column: "@ + decimal(t.col as nat) + ") "@
}

impl Token {
    pub fn new(class: TokenClass, val: char, line: usize, col: usize) -> (r: Token)
        ensures
            r == (Token { class, value: val, line, col }),
    {
        Token { class, value: val, line, col }
    }

    /// The text shown for this token.
    pub fn render(&self) -> (r: String)
        ensures
            r@ == token_text(*self),
    {
        let mut r = String::new();
        push_char(&mut r, '(');
        r.append(self.class.name());
        r.append(", '");
        push_escaped(&mut r, self.value);
        r.append("', line: ");
        push_decimal(&mut r, self.line);
        r.append(", column: ");
        push_decimal(&mut r, self.col);
        r.append(") ");
        r
    }
}

/// Whether a character is ASCII.
pub open spec fn is_ascii_char(c: char) -> bool {
    (c as u32) < 0x80
}

/// The line of the character at index `i` of `s`: one more than the line
/// feeds before it.
pub open spec fn line_of(s: Seq<char>, i: int) -> nat
    decreases i,
{
    if i <= 0 {
        1
    } else if s[i - 1] == '\n' {
        line_of(s, i - 1) + 1
    } else {
        line_of(s, i - 1)
    }
}

/// The column of the character at index `i` of `s`: 1 at the start of the
/// input and after a line feed, one more than the previous column otherwise.
pub open spec fn col_of(s: Seq<char>, i: int) -> nat
    decreases i,
{
    if i <= 0 {
        1
    } else if s[i - 1] == '\n' {
        1
    } else {
        col_of(s, i - 1) + 1
    }
}

/// The token for the character at index `i` of `s`.
pub open spec fn token_at(s: Seq<char>, i: int) -> Token {
    Token {
        class: class_of(s[i]),
        value: s[i],
        line: line_of(s, i) as usize,
        col: col_of(s, i) as usize,
    }
}

/// The tokens of `s`, one per character, in order.
pub open spec fn tokens_of(s: Seq<char>) -> Seq<Token> {
    Seq::new(s.len(), |i: int| token_at(s, i))
}

/// The index of the first character at or after `i` that is not ASCII, or
/// the length of `s` if there is none.
pub open spec fn non_ascii_from(s: Seq<char>, i: int) -> int
    decreases s.len() - i,
{
    if 0 <= i < s.len() && is_ascii_char(s[i]) {
        non_ascii_from(s, i + 1)
    } else {
        i
    }
}

/// The index of the first character of `s` that is not ASCII, or the
/// length of `s` if there is none.
pub open spec fn first_non_ascii(s: Seq<char>) -> int {
    non_ascii_from(s, 0)
}

/// The index of the first line feed at or after `i`, or the length of `s`.
pub open spec fn line_end(s: Seq<char>, i: int) -> int
    decreases s.len() - i,
{
    if 0 <= i < s.len() && s[i] != '\n' {
        line_end(s, i + 1)
    } else {
        i
    }
}

/// The text of the line that holds index `k`, without its line feed.
pub open spec fn line_text(s: Seq<char>, k: int) -> Seq<char> {
    s.subrange(k - (col_of(s, k) - 1), line_end(s, k))
}

/// What `tokenize` returns for `s`: every token when `s` is ASCII, else
/// the error at its first character that is not.
pub open spec fn tokenized(s: Seq<char>, r: Result<Vec<Token>, Error>) -> bool {
    let k = first_non_ascii(s);
    match r {
        Ok(t) => k == s.len() && t@ == tokens_of(s),
        Err(e) => {
            &&& k < s.len()
            &&& e.kind == ErrorKind::Tokenizer
            &&& e.line == line_of(s, k)
            &&& e.col == col_of(s, k)
            &&& e.message@ == diagnostic(line_of(s, k), col_of(s, k), line_text(s, k))
        },
    }
}

proof fn lemma_non_ascii_from(s: Seq<char>, i: int)
    requires
        0 <= i <= s.len(),
    ensures
        i <= non_ascii_from(s, i) <= s.len(),
        forall|j: int| i <= j < non_ascii_from(s, i) ==> is_ascii_char(#[trigger] s[j]),
        non_ascii_from(s, i) < s.len() ==> !is_ascii_char(s[non_ascii_from(s, i)]),
    decreases s.len() - i,
{
    if i < s.len() && is_ascii_char(s[i]) {
        lemma_non_ascii_from(s, i + 1);
    }
}

proof fn lemma_position_bounds(s: Seq<char>, i: int)
    requires
        0 <= i <= s.len(),
    ensures
        1 <= line_of(s, i) <= i + 1,
        1 <= col_of(s, i) <= i + 1,
    decreases i,
{
    if i > 0 {
        lemma_position_bounds(s, i - 1);
    }
}

/// The characters of `tokens` from index `from` on.
fn values_from(tokens: &Vec<Token>, from: usize) -> (r: Vec<char>)
    requires
        from <= tokens.len(),
    ensures
        r@ == tokens@.subrange(from as int, tokens.len() as int).map_values(|t: Token| t.value),
{
    let mut r: Vec<char> = Vec::new();
    let mut i: usize = from;
    while i < tokens.len()
        invariant
            from <= i <= tokens.len(),
            r@ == tokens@.subrange(from as int, i as int).map_values(|t: Token| t.value),
        decreases tokens.len() - i,
    {
        r.push(tokens[i].value);
        i = i + 1;
        assert(r@ =~= tokens@.subrange(from as int, i as int).map_values(|t: Token| t.value));
    }
    r
}

/// Splits `input` into tokens, one per character, each with its 1-based
/// line and column.
///
/// The first character that is not ASCII makes the call fail: scanning
/// goes on to the end of that line, and the error then carries the
/// position of that character and a diagnostic that shows the whole line.
pub fn tokenize(input: &str) -> (r: Result<Vec<Token>, Error>)
    ensures
        tokenized(input@, r),
        r is Ok <==> (forall|j: int| 0 <= j < input@.len() ==> is_ascii_char(#[trigger] input@[j])),
        r is Ok ==> r->Ok_0@.len() == input@.len(),
        r is Err ==> ({
            let k = first_non_ascii(input@);
            &&& 0 <= k < input@.len()
            &&& !is_ascii_char(input@[k])
            &&& forall|j: int| 0 <= j < k ==> is_ascii_char(#[trigger] input@[j])
            &&& r->Err_0.line == line_of(input@, k)
            &&& r->Err_0.col == col_of(input@, k)
        }),
{
    let ghost s = input@;
    // Knowing that the length fits in a `usize` bounds the counters, which
    // are kept 0-based so that they never pass it.
    let _ = input.unicode_len();
    let mut tokens: Vec<Token> = Vec::new();
    let mut line0: usize = 0;
    let mut col0: usize = 0;
    let mut line_start: usize = 0;
    let mut pending: Option<(usize, usize)> = None;
    let ghost mut k: int = 0;
    proof {
        lemma_non_ascii_from(s, 0);
    }
    for c in it: input.chars()
        invariant
            it.seq() == s,
            s == input@,
            s.len() <= usize::MAX,
            tokens.len() == it.index(),
            tokens.len() <= s.len(),
            tokens@ == tokens_of(s).take(tokens.len() as int),
            line0 + 1 == line_of(s, tokens.len() as int),
            col0 + 1 == col_of(s, tokens.len() as int),
            line_start + col0 == tokens.len(),
            match pending {
                None => first_non_ascii(s) >= tokens.len(),
                Some((err_line, err_col)) => {
                    &&& k == first_non_ascii(s)
                    &&& k < tokens.len()
                    &&& err_line == line_of(s, k)
                    &&& err_col == col_of(s, k)
                    &&& k - (col_of(s, k) - 1) == line_start
                    &&& line_end(s, k) == line_end(s, tokens.len() as int)
                },
            },
            0 <= first_non_ascii(s) <= s.len(),
            forall|j: int| 0 <= j < first_non_ascii(s) ==> is_ascii_char(#[trigger] s[j]),
            first_non_ascii(s) < s.len() ==> !is_ascii_char(s[first_non_ascii(s)]),
    {
        let ghost i = tokens.len() as int;
        assert(c == s[i]);
        proof {
            lemma_position_bounds(s, i);
        }
        let line = line0 + 1;
        let col = col0 + 1;
        if c == '\n' {
            if let Some((err_line, err_col)) = pending {
                let text = values_from(&tokens, line_start);
                assert(line_end(s, i) == i);
                assert(text@ =~= line_text(s, k));
                assert(!is_ascii_char(s[k]));
                let message = render_diagnostic(err_line, err_col, &text);
                return Err(Error::new(ErrorKind::Tokenizer, err_line, err_col, message));
            }
        } else if (c as u32) >= 0x80 && pending.is_none() {
            pending = Some((line, col));
            proof {
                k = i;
            }
        }
        tokens.push(Token::new(classify(c), c, line, col));
        if c == '\n' {
            line0 = line;
            col0 = 0;
            line_start = tokens.len();
        } else {
            col0 = col;
        }
        assert(tokens@ =~= tokens_of(s).take(tokens.len() as int));
    }
    if let Some((err_line, err_col)) = pending {
        let text = values_from(&tokens, line_start);
        assert(text@ =~= line_text(s, k));
        assert(!is_ascii_char(s[k]));
        let message = render_diagnostic(err_line, err_col, &text);
        return Err(Error::new(ErrorKind::Tokenizer, err_line, err_col, message));
    }
    assert(tokens@ =~= tokens_of(s));
    Ok(tokens)
}

/// Tokenizing the same text twice gives the same outcome: both succeed
/// with the same tokens, or both fail with the same error.
pub proof fn lemma_tokenize_deterministic(
    s: Seq<char>,
    r1: Result<Vec<Token>, Error>,
    r2: Result<Vec<Token>, Error>,
)
    requires
        tokenized(s, r1),
        tokenized(s, r2),
    ensures
        r1 is Ok <==> r2 is Ok,
        r1 is Ok ==> r1->Ok_0@ == r2->Ok_0@,
        r1 is Err ==> {
            &&& r1->Err_0.kind == r2->Err_0.kind
            &&& r1->Err_0.line == r2->Err_0.line
            &&& r1->Err_0.col == r2->Err_0.col
            &&& r1->Err_0.message@ == r2->Err_0.message@
        },
{
}

/// After a line feed the next character stands on the following line, in
/// column 1.
pub proof fn lemma_column_reset(s: Seq<char>, i: int)
    requires
        0 <= i,
        i + 1 < s.len(),
        s[i] == '\n',
        s.len() <= usize::MAX,
    ensures
        tokens_of(s)[i + 1].line == tokens_of(s)[i].line + 1,
        tokens_of(s)[i + 1].col == 1,
{
    lemma_position_bounds(s, i + 1);
}

} // verus!
