use hl::lexer::Lexer;
use hl::token::Token;
use hl::token::TokenKind;

fn chars_of(s: &str) -> Vec<char> {
    s.chars().collect()
}

fn text_of(t: &Token) -> String {
    t.text.iter().collect()
}

fn toks(s: &str) -> Vec<(TokenKind, String)> {
    let buf = chars_of(s);
    let mut lexer = Lexer::new(&buf);
    let mut out = Vec::new();
    while let Some(t) = lexer.read_next() {
        out.push((t.kind, text_of(&t)));
    }
    out
}

fn pairs(kinds_texts: &[(TokenKind, &str)]) -> Vec<(TokenKind, String)> {
    kinds_texts.iter().map(|(k, s)| (*k, s.to_string())).collect()
}

#[test]
fn expression_with_negative_number() {
    assert_eq!(
        toks("(+ 1 -2)"),
        pairs(&[
            (TokenKind::Delimiter, "("),
            (TokenKind::Symbol, "+"),
            (TokenKind::Whitespace, " "),
            (TokenKind::Number, "1"),
            (TokenKind::Whitespace, " "),
            (TokenKind::Number, "-2"),
            (TokenKind::Delimiter, ")"),
        ])
    );
}

#[test]
fn bare_hyphen_is_a_symbol() {
    assert_eq!(toks("-"), pairs(&[(TokenKind::Symbol, "-")]));
}

#[test]
fn hash_forms() {
    assert_eq!(
        toks("#t #f #x"),
        pairs(&[
            (TokenKind::Bool, "#t"),
            (TokenKind::Whitespace, " "),
            (TokenKind::Bool, "#f"),
            (TokenKind::Whitespace, " "),
            (TokenKind::Unknown, "#"),
            (TokenKind::Symbol, "x"),
        ])
    );
}

#[test]
fn string_with_escaped_quote() {
    assert_eq!(
        toks("\"a\\\"b\""),
        pairs(&[(TokenKind::StringLiteral, "\"a\\\"b\"")])
    );
}

#[test]
fn unterminated_string_closes_at_end_of_input() {
    assert_eq!(
        toks("\"unterminated"),
        pairs(&[(TokenKind::StringLiteral, "\"unterminated")])
    );
}

#[test]
fn comment_runs_to_line_break() {
    assert_eq!(
        toks("; comment\n42"),
        pairs(&[
            (TokenKind::Comment, "; comment"),
            (TokenKind::Whitespace, "\n"),
            (TokenKind::Number, "42"),
        ])
    );
}

#[test]
fn empty_input_yields_no_tokens() {
    let buf = chars_of("");
    let mut lexer = Lexer::new(&buf);
    assert!(lexer.read_next().is_none());
    assert!(lexer.read_next().is_none());
}

#[test]
fn double_backslash_does_not_escape_the_closing_quote() {
    assert_eq!(
        toks("\"a\\\\\" b"),
        pairs(&[
            (TokenKind::StringLiteral, "\"a\\\\\""),
            (TokenKind::Whitespace, " "),
            (TokenKind::Symbol, "b"),
        ])
    );
}

#[test]
fn hyphen_before_digits_starts_a_number() {
    assert_eq!(
        toks("-25x"),
        pairs(&[(TokenKind::Number, "-25"), (TokenKind::Symbol, "x")])
    );
}

#[test]
fn hyphen_before_symbol_characters_starts_a_symbol() {
    assert_eq!(toks("--1"), pairs(&[(TokenKind::Symbol, "--1")]));
}

#[test]
fn delimiters_come_one_character_at_a_time() {
    assert_eq!(
        toks("()[]."),
        pairs(&[
            (TokenKind::Delimiter, "("),
            (TokenKind::Delimiter, ")"),
            (TokenKind::Delimiter, "["),
            (TokenKind::Delimiter, "]"),
            (TokenKind::Delimiter, "."),
        ])
    );
}

#[test]
fn quote_marks_come_one_character_at_a_time() {
    assert_eq!(
        toks("'`,"),
        pairs(&[
            (TokenKind::QuoteMark, "'"),
            (TokenKind::QuoteMark, "`"),
            (TokenKind::QuoteMark, ","),
        ])
    );
}

#[test]
fn hash_groups_with_a_following_unknown_run() {
    assert_eq!(
        toks("#@!"),
        pairs(&[(TokenKind::Unknown, "#@"), (TokenKind::Symbol, "!")])
    );
}

#[test]
fn number_run_is_maximal() {
    assert_eq!(
        toks("123abc"),
        pairs(&[(TokenKind::Number, "123"), (TokenKind::Symbol, "abc")])
    );
}

#[test]
fn comment_without_trailing_line_break_closes_at_end_of_input() {
    assert_eq!(toks("; the end"), pairs(&[(TokenKind::Comment, "; the end")]));
}

#[test]
fn round_trip_reconstructs_the_input() {
    let inputs = [
        "(define (f x) ; doc\n  (* x -12))",
        "#t#f#x \"a\\\"\\\\\" @@@ []'`,.\r\n\t",
        "-",
        "",
        "\"never closed",
    ];
    for s in inputs {
        let joined: String = toks(s).into_iter().map(|(_, text)| text).collect();
        assert_eq!(joined, *s);
    }
}

#[test]
fn every_token_is_non_empty_and_no_more_tokens_than_characters() {
    let inputs = ["(+ 1 -2)", "#t #f #x", "\"abc", "@@@;x\n", "    "];
    for s in inputs {
        let ts = toks(s);
        assert!(ts.len() <= s.chars().count());
        for (_, text) in ts {
            assert!(!text.is_empty());
        }
    }
}

#[test]
fn two_tokenizers_over_one_buffer_agree() {
    let buf = chars_of("(display \"hi\\n\") ; greet\n#t");
    let mut first = Lexer::new(&buf);
    let mut second = Lexer::new(&buf);
    let a = first.tokenize();
    let b = second.tokenize();
    assert_eq!(a.len(), b.len());
    for (x, y) in a.iter().zip(b.iter()) {
        assert_eq!(x.kind, y.kind);
        assert_eq!(text_of(x), text_of(y));
    }
}

#[test]
fn tokenize_collects_what_read_next_produces() {
    let buf = chars_of("(+ 1 -2)");
    let mut all = Lexer::new(&buf);
    let collected = all.tokenize();
    let streamed = toks("(+ 1 -2)");
    assert_eq!(collected.len(), streamed.len());
    for (t, (k, s)) in collected.iter().zip(streamed.iter()) {
        assert_eq!(t.kind, *k);
        assert_eq!(text_of(t), *s);
    }
    assert!(all.read_next().is_none());
}

#[test]
fn lexer_from_slice_starts_at_the_beginning() {
    let buf = chars_of("#f");
    let mut lexer = Lexer::from(buf.as_slice());
    assert_eq!(lexer.current_pos(), 0);
    let t = lexer.read_next().unwrap();
    assert_eq!(t.kind, TokenKind::Bool);
    assert_eq!(text_of(&t), "#f");
}

#[test]
fn peek_char_does_not_consume() {
    let buf = chars_of("ab");
    let mut lexer = Lexer::new(&buf);
    assert_eq!(lexer.peek_char(), Some('a'));
    assert_eq!(lexer.peek_char(), Some('a'));
    assert_eq!(lexer.current_pos(), 0);
    let t = lexer.read_next().unwrap();
    assert_eq!(text_of(&t), "ab");
    assert_eq!(lexer.peek_char(), None);
    assert_eq!(lexer.current_pos(), 2);
}

#[test]
fn token_new_pairs_kind_and_text() {
    let t = Token::new(TokenKind::Number, vec!['4', '2']);
    assert_eq!(t.kind, TokenKind::Number);
    assert_eq!(text_of(&t), "42");
}
