use lang_repl::lang::tokenizer::{classify, tokenize, Token, TokenClass};
use lang_repl::lang::{render_diagnostic, Error, ErrorKind};

fn tok(class: TokenClass, value: char, line: usize, col: usize) -> Token {
    Token::new(class, value, line, col)
}

fn expect_err(input: &str) -> Error {
    match tokenize(input) {
        Ok(t) => panic!("expected an error, got {:?}", t),
        Err(e) => e,
    }
}

#[test]
fn one_plus_one() {
    let t = tokenize("1+1").unwrap();
    assert_eq!(
        t,
        vec![
            tok(TokenClass::Number, '1', 1, 1),
            tok(TokenClass::Plus, '+', 1, 2),
            tok(TokenClass::Number, '1', 1, 3),
        ]
    );
}

#[test]
fn two_lines() {
    let t = tokenize("a\nb").unwrap();
    assert_eq!(
        t,
        vec![
            tok(TokenClass::Alphabet, 'a', 1, 1),
            tok(TokenClass::NewLine, '\n', 1, 2),
            tok(TokenClass::Alphabet, 'b', 2, 1),
        ]
    );
}

#[test]
fn non_ascii_on_first_line() {
    let e = expect_err("ok é");
    assert_eq!(e.kind, ErrorKind::Tokenizer);
    assert_eq!(e.line, 1);
    assert_eq!(e.col, 4);
    assert!(e.message.contains("ok é"));
    assert!(e.message.contains("---^"));
    assert_eq!(e.render(), "Tokenizer error on line: 1, column: 4\nok é\n---^");
}

#[test]
fn empty_input() {
    let t = tokenize("").unwrap();
    assert!(t.is_empty());
}

#[test]
fn ascii_input_gives_one_token_per_char() {
    let inputs = ["", "x", "(1 + 2) * 3.5 / 4 - z\n", "\t\r\x0C \n\n", "#$%&!~\x7f\x00", "a\nbb\nccc"];
    for input in inputs {
        let t = tokenize(input).unwrap();
        assert_eq!(t.len(), input.chars().count());
        for (tk, c) in t.iter().zip(input.chars()) {
            assert_eq!(tk.value, c);
        }
    }
}

#[test]
fn first_non_ascii_is_reported() {
    let e = expect_err("ab\ncdé€f\ng");
    assert_eq!((e.line, e.col), (2, 3));
    let e = expect_err("x\ny\n  ü");
    assert_eq!((e.line, e.col), (3, 3));
    let e = expect_err("ñ\nü");
    assert_eq!((e.line, e.col), (1, 1));
}

#[test]
fn tokenizing_twice_agrees() {
    for input in ["1+1", "a\nb\n", "", "(x) . y"] {
        assert_eq!(tokenize(input).unwrap(), tokenize(input).unwrap());
    }
    let a = expect_err("12\n3é4");
    let b = expect_err("12\n3é4");
    assert_eq!((a.kind, a.line, a.col, a.message), (b.kind, b.line, b.col, b.message));
}

#[test]
fn column_resets_after_new_line() {
    let t = tokenize("ab\ncd\n\nx").unwrap();
    for w in t.windows(2) {
        if w[0].value == '\n' {
            assert_eq!(w[1].line, w[0].line + 1);
            assert_eq!(w[1].col, 1);
        } else {
            assert_eq!(w[1].line, w[0].line);
            assert_eq!(w[1].col, w[0].col + 1);
        }
    }
    assert_eq!(t[7], tok(TokenClass::Alphabet, 'x', 4, 1));
}

#[test]
fn every_class() {
    let t = tokenize("0Z()+-*/. \n?").unwrap();
    let classes: Vec<TokenClass> = t.iter().map(|t| t.class).collect();
    assert_eq!(
        classes,
        vec![
            TokenClass::Number,
            TokenClass::Alphabet,
            TokenClass::OpenParen,
            TokenClass::CloseParen,
            TokenClass::Plus,
            TokenClass::Dash,
            TokenClass::Asterisk,
            TokenClass::ForwardSlash,
            TokenClass::Dot,
            TokenClass::WhiteSpace,
            TokenClass::NewLine,
            TokenClass::UnknownChar,
        ]
    );
    assert_eq!(classify('\t'), TokenClass::WhiteSpace);
    assert_eq!(classify('\r'), TokenClass::WhiteSpace);
    assert_eq!(classify('\x0C'), TokenClass::WhiteSpace);
    assert_eq!(classify('\x0B'), TokenClass::UnknownChar);
    assert_eq!(classify('é'), TokenClass::UnknownChar);
    assert_eq!(classify('9'), TokenClass::Number);
    assert_eq!(classify('a'), TokenClass::Alphabet);
}

#[test]
fn error_shows_whole_line_and_stops_there() {
    let e = expect_err("one\n  tw\u{e9} more é\nthree é");
    assert_eq!((e.line, e.col), (2, 5));
    assert_eq!(
        e.message,
        "Tokenizer error on line: 2, column: 5\ntw\u{e9} more é\n----^"
    );
}

#[test]
fn error_on_last_line_without_line_feed() {
    let e = expect_err("1\n22é");
    assert_eq!((e.line, e.col), (2, 3));
    assert_eq!(e.render(), "Tokenizer error on line: 2, column: 3\n22é\n--^");
}

#[test]
fn error_trims_unicode_white_space() {
    let e = expect_err("a\u{3000}\u{a0}b\u{2003}");
    assert_eq!((e.line, e.col), (1, 2));
    assert_eq!(e.message, "Tokenizer error on line: 1, column: 2\na\u{3000}\u{a0}b\n-^");
}

#[test]
fn diagnostic_layout() {
    let text: Vec<char> = "  x = ü \n".chars().collect();
    let r = render_diagnostic(12, 7, &text);
    assert_eq!(r, "Tokenizer error on line: 12, column: 7\nx = ü\n------^");
    let r = render_diagnostic(1, 1, &Vec::new());
    assert_eq!(r, "Tokenizer error on line: 1, column: 1\n\n^");
}

#[test]
fn error_new_keeps_fields() {
    let e = Error::new(ErrorKind::Tokenizer, 3, 9, "m".to_string());
    assert_eq!((e.kind, e.line, e.col, e.message.as_str()), (ErrorKind::Tokenizer, 3, 9, "m"));
    assert_eq!(e.render(), "m");
}
