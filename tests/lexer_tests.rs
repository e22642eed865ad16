use lexer::lexer::{Lexer, LexerError, LexerState};
use lexer::token::{Token, TokenKind};

fn first(code: &str) -> Option<Result<Token, LexerError>> {
    let code = String::from(code);
    let mut lexer = Lexer::new(&code);
    lexer.next_token()
}

/// All tokens up to the end of the text, stopping at the first error.
fn all(code: &str) -> (Vec<Token>, Option<LexerError>, LexerState) {
    let code = String::from(code);
    let mut lexer = Lexer::new(&code);
    let mut tokens = Vec::new();
    loop {
        match lexer.next_token() {
            Some(Ok(t)) => tokens.push(t),
            Some(Err(e)) => return (tokens, Some(e), lexer.state()),
            None => {
                if lexer.state() == LexerState::Done {
                    return (tokens, None, LexerState::Done);
                }
            }
        }
    }
}

#[test]
fn test_string_literal() {
    // given
    let code = String::from("\"Hello, World!\"");

    // when
    let mut lexer = Lexer::new(&code);
    let token = lexer.next_token().unwrap().unwrap();

    // then
    assert_eq!(token.kind, TokenKind::String);
    assert_eq!(token.lexeme, "Hello, World!");
}

#[test]
fn test_string_literal_with_escape() {
    // given
    let code = String::from("\"Hello, \\\"World!\\\"\"");

    // when
    let mut lexer = Lexer::new(&code);
    let token = lexer.next_token().unwrap().unwrap();

    // then
    assert_eq!(token.kind, TokenKind::String);
    assert_eq!(token.lexeme, "Hello, \"World!\"");
}

#[test]
fn test_string_literal_with_invalid_escape() {
    // given
    let code = String::from("\"Hello, \\World!\\\"\"");

    // when
    let mut lexer = Lexer::new(&code);
    let token = lexer.next_token();

    // then
    assert!(token.is_some());
    assert!(token.unwrap().is_err());
}

#[test]
fn test_line_comment() {
    // given
    let code = String::from("// Hello, World!\n");

    // when
    let mut lexer = Lexer::new(&code);
    let token = lexer.next_token();

    // then
    assert!(token.is_none());
}

#[test]
fn test_block_comment() {
    // given
    let code = String::from("/* Hello, World! */");

    // when
    let mut lexer = Lexer::new(&code);
    let token = lexer.next_token();

    // then
    assert!(token.is_none());
}

#[test]
fn test_parse_operator() {
    // given
    let code = String::from("+-*/");

    // when
    let mut lexer = Lexer::new(&code);
    let token = lexer.next_token().unwrap().unwrap();

    // then
    assert_eq!(token.kind, TokenKind::Plus);

    // when
    let token = lexer.next_token().unwrap().unwrap();

    // then
    assert_eq!(token.kind, TokenKind::Minus);

    // when
    let token = lexer.next_token().unwrap().unwrap();

    // then
    assert_eq!(token.kind, TokenKind::Star);

    // when
    let token = lexer.next_token().unwrap().unwrap();

    // then
    assert_eq!(token.kind, TokenKind::Slash);
}

#[test]
fn test_parse_char() {
    // given
    let code = String::from("'a'");

    // when
    let mut lexer = Lexer::new(&code);
    let token = lexer.next_token().unwrap().unwrap();

    // then
    assert_eq!(token.kind, TokenKind::Char);
    assert_eq!(token.lexeme, "a");
}

#[test]
fn test_parse_integer() {
    // given
    let code = String::from("123");

    // when
    let mut lexer = Lexer::new(&code);
    let token = lexer.next_token().unwrap().unwrap();

    // then
    assert_eq!(token.kind, TokenKind::Integer);
    assert_eq!(token.lexeme, "123");
}

#[test]
fn test_parse_identifier() {
    // given
    let identifiers = ["test", "$_test", "$123test", "test123"];

    for ident in identifiers {
        let code = String::from(ident);

        // when
        let mut lexer = Lexer::new(&code);
        let token = lexer.next_token().unwrap().unwrap();

        // then
        assert_eq!(token.kind, TokenKind::Identifier);
        assert_eq!(token.lexeme, ident);
    }
}

#[test]
fn whitespace_and_comments_give_nothing() {
    for code in ["", "   \t\n  ", "// a\n  /* b /* c */ d */\n// e", " /**/ \r\n"] {
        let (tokens, err, state) = all(code);
        assert!(tokens.is_empty(), "{:?}", code);
        assert!(err.is_none(), "{:?}", code);
        assert_eq!(state, LexerState::Done);
    }
}

#[test]
fn done_stays_done() {
    let code = String::from("  ");
    let mut lexer = Lexer::new(&code);
    assert_eq!(lexer.state(), LexerState::Ready);
    assert!(lexer.next_token().is_none());
    assert_eq!(lexer.state(), LexerState::Done);
    assert!(lexer.next_token().is_none());
    assert_eq!(lexer.state(), LexerState::Done);
}

#[test]
fn comment_leaves_lexing() {
    let code = String::from("// c\nx");
    let mut lexer = Lexer::new(&code);
    assert!(lexer.next_token().is_none());
    assert_eq!(lexer.state(), LexerState::Lexing);
    let t = lexer.next_token().unwrap().unwrap();
    assert_eq!(t.kind, TokenKind::Identifier);
    assert_eq!(t.lexeme, "x");
    assert_eq!(t.line, 2);
}

#[test]
fn string_span_covers_quotes() {
    let t = first("\"abc\"").unwrap().unwrap();
    assert_eq!(t.kind, TokenKind::String);
    assert_eq!(t.lexeme, "abc");
    assert_eq!((t.line, t.start_char, t.end_char), (1, 1, 6));
}

#[test]
fn string_escaped_quote() {
    let t = first("\"a\\\"b\"").unwrap().unwrap();
    assert_eq!(t.kind, TokenKind::String);
    assert_eq!(t.lexeme, "a\"b");
}

#[test]
fn string_escapes_decoded() {
    let t = first("\"\\0\\a\\b\\f\\n\\t\\r\\v\\\\\\'\\\"\"").unwrap().unwrap();
    assert_eq!(t.lexeme, "\0\x07\x08\x0C\n\t\r\x0B\\'\"");
}

#[test]
fn string_unknown_escape() {
    let (tokens, err, _) = all("\"a\\qb\"");
    assert!(tokens.is_empty());
    let e = err.unwrap();
    assert_eq!(e.msg, "Invalid escape sequence");
    let loc = e.location.unwrap();
    assert_eq!((loc.line, loc.start_char, loc.end_char), (1, 5, 5));
}

#[test]
fn string_escape_at_end() {
    let e = first("\"ab\\").unwrap().unwrap_err();
    assert_eq!(e.msg, "Invalid escape sequence");
}

#[test]
fn string_unterminated() {
    let e = first("  \"abc").unwrap().unwrap_err();
    assert_eq!(e.msg, "Unterminated string literal");
    let loc = e.location.unwrap();
    assert_eq!(loc.text, "  \"abc");
    assert_eq!((loc.line, loc.start_char, loc.end_char), (1, 3, 7));
}

#[test]
fn char_literal() {
    let t = first("'x'").unwrap().unwrap();
    assert_eq!(t.kind, TokenKind::Char);
    assert_eq!(t.lexeme, "x");
    assert_eq!((t.start_char, t.end_char), (1, 4));
    let t = first("'\\n'").unwrap().unwrap();
    assert_eq!(t.lexeme, "\n");
}

#[test]
fn char_not_closed() {
    let e = first("'xy'").unwrap().unwrap_err();
    assert_eq!(e.msg, "Invalid char");
    let loc = e.location.unwrap();
    assert_eq!((loc.line, loc.start_char, loc.end_char), (1, 1, 4));
    let e = first("'").unwrap().unwrap_err();
    assert_eq!(e.msg, "Invalid char");
    let e = first("'\\q'").unwrap().unwrap_err();
    assert_eq!(e.msg, "Invalid escape sequence");
}

#[test]
fn numbers() {
    let t = first("123").unwrap().unwrap();
    assert_eq!((t.kind, t.lexeme.as_str()), (TokenKind::Integer, "123"));
    assert_eq!((t.start_char, t.end_char), (1, 4));
    let t = first("12_3").unwrap().unwrap();
    assert_eq!((t.kind, t.lexeme.as_str()), (TokenKind::Integer, "123"));
    let t = first("3.14").unwrap().unwrap();
    assert_eq!((t.kind, t.lexeme.as_str()), (TokenKind::Float, "3.14"));
}

#[test]
fn number_errors() {
    let e = first("1.2.3").unwrap().unwrap_err();
    assert_eq!(e.msg, "Invalid float");
    let loc = e.location.unwrap();
    assert_eq!((loc.start_char, loc.end_char), (5, 5));
    let e = first("12a").unwrap().unwrap_err();
    assert_eq!(e.msg, "Invalid number literal");
}

#[test]
fn identifiers_and_keywords() {
    for ident in ["foo", "$bar", "_baz1"] {
        let t = first(ident).unwrap().unwrap();
        assert_eq!(t.kind, TokenKind::Identifier);
        assert_eq!(t.lexeme, ident);
    }
    for (word, kind) in [
        ("class", TokenKind::Class),
        ("while", TokenKind::While),
        ("let", TokenKind::Let),
        ("foreach", TokenKind::Foreach),
        ("print", TokenKind::Print),
    ] {
        let t = first(word).unwrap().unwrap();
        assert_eq!(t.kind, kind);
        assert_eq!(t.lexeme, word);
    }
    let t = first("classy").unwrap().unwrap();
    assert_eq!(t.kind, TokenKind::Identifier);
}

#[test]
fn operators_in_sequence() {
    let (tokens, err, state) = all("+-*/");
    assert!(err.is_none());
    assert_eq!(state, LexerState::Done);
    let kinds: Vec<TokenKind> = tokens.iter().map(|t| t.kind).collect();
    assert_eq!(kinds, vec![TokenKind::Plus, TokenKind::Minus, TokenKind::Star, TokenKind::Slash]);
    assert!(tokens.iter().all(|t| t.lexeme.is_empty()));
    let spans: Vec<(usize, usize)> = tokens.iter().map(|t| (t.start_char, t.end_char)).collect();
    assert_eq!(spans, vec![(1, 2), (2, 3), (3, 4), (4, 5)]);
}

#[test]
fn longest_match() {
    assert_eq!(first("!=").unwrap().unwrap().kind, TokenKind::BangEqual);
    assert_eq!(first("!").unwrap().unwrap().kind, TokenKind::Bang);
    let (tokens, _, _) = all("**= -> => == ..");
    let kinds: Vec<TokenKind> = tokens.iter().map(|t| t.kind).collect();
    assert_eq!(
        kinds,
        vec![
            TokenKind::StarStar,
            TokenKind::Equal,
            TokenKind::FatArrow,
            TokenKind::FatArrow,
            TokenKind::EqualEqual,
            TokenKind::DotDot
        ]
    );
}

#[test]
fn invalid_operator() {
    let e = first("#").unwrap().unwrap_err();
    assert_eq!(e.msg, "Invalid operator");
    let loc = e.location.unwrap();
    assert_eq!((loc.line, loc.start_char, loc.end_char), (1, 2, 2));
}

#[test]
fn nested_block_comment() {
    let (tokens, err, state) = all("/* a /* b */ c */");
    assert!(tokens.is_empty());
    assert!(err.is_none());
    assert_eq!(state, LexerState::Done);
    let (tokens, _, _) = all("/* a /* b */ c */ x");
    assert_eq!(tokens.len(), 1);
    assert_eq!(tokens[0].lexeme, "x");
}

#[test]
fn unterminated_block_comment() {
    let e = first("/* a /* b */").unwrap().unwrap_err();
    assert_eq!(e.msg, "Unterminated block comment");
    let loc = e.location.unwrap();
    assert_eq!((loc.line, loc.start_char, loc.end_char), (1, 13, 13));
}

#[test]
fn lines_and_columns() {
    let (tokens, _, _) = all("let x\n  = \"s\";");
    let spans: Vec<(usize, usize, usize)> = tokens.iter().map(|t| (t.line, t.start_char, t.end_char)).collect();
    assert_eq!(spans, vec![(1, 1, 4), (1, 5, 6), (2, 3, 4), (2, 5, 8), (2, 8, 9)]);
}

#[test]
fn fresh_run_repeats() {
    let code = "let a = 'b' + c; // c\n fn f(x) -> x ** 2.5";
    let (t1, e1, s1) = all(code);
    let (t2, e2, s2) = all(code);
    assert!(e1.is_none() && e2.is_none());
    assert_eq!(s1, s2);
    assert_eq!(t1.len(), t2.len());
    for (a, b) in t1.iter().zip(t2.iter()) {
        assert_eq!(
            (a.kind, &a.lexeme, a.line, a.start_char, a.end_char),
            (b.kind, &b.lexeme, b.line, b.start_char, b.end_char)
        );
    }
}
