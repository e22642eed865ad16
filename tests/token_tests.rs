use lexer::iterator::{PeekableIterator, StringIterator};
use lexer::source::SourceCodeLocation;
use lexer::token::TokenKind;
use lexer::util::{get_error_line, resolve_escape_sequence};
use lexer::lexer::LexerError;

#[test]
fn spellings() {
    assert_eq!(TokenKind::While.to_str(), "while");
    assert_eq!(TokenKind::FatArrow.to_str(), "=>");
    assert_eq!(TokenKind::ThinArrow.to_str(), "->");
    assert_eq!(TokenKind::Identifier.to_str(), "<identifier>");
}

#[test]
fn keyword_lookup() {
    assert_eq!(TokenKind::keyword("return"), Some(TokenKind::Return));
    assert_eq!(TokenKind::keyword("in"), Some(TokenKind::In));
    assert_eq!(TokenKind::keyword("include"), Some(TokenKind::Include));
    assert_eq!(TokenKind::keyword("returns"), None);
    assert_eq!(TokenKind::keyword("+"), None);
}

#[test]
fn operator_table() {
    assert_eq!(TokenKind::parse_operator('!', Some('=')), Some(TokenKind::BangEqual));
    assert_eq!(TokenKind::parse_operator('!', None), Some(TokenKind::Bang));
    assert_eq!(TokenKind::parse_operator('*', Some('*')), Some(TokenKind::StarStar));
    assert_eq!(TokenKind::parse_operator('*', Some('=')), Some(TokenKind::StarEqual));
    assert_eq!(TokenKind::parse_operator('*', Some('x')), Some(TokenKind::Star));
    assert_eq!(TokenKind::parse_operator('-', Some('>')), Some(TokenKind::FatArrow));
    assert_eq!(TokenKind::parse_operator('?', Some('?')), Some(TokenKind::QuestionmarkQuestionmark));
    assert_eq!(TokenKind::parse_operator('^', None), None);
    assert_eq!(TokenKind::parse_operator('a', Some('=')), None);
}

#[test]
fn escapes() {
    assert_eq!(resolve_escape_sequence('n'), Some('\n'));
    assert_eq!(resolve_escape_sequence('0'), Some('\0'));
    assert_eq!(resolve_escape_sequence('v'), Some('\x0B'));
    assert_eq!(resolve_escape_sequence('"'), Some('"'));
    assert_eq!(resolve_escape_sequence('q'), None);
}

#[test]
fn cursor_tracks_lines() {
    let text = String::from("ab\nc");
    let mut it = StringIterator::new(&text);
    assert_eq!(it.peek(), Some('a'));
    assert_eq!(it.offset(2), Some('\n'));
    assert_eq!(it.offset(4), None);
    assert_eq!((it.line(), it.char()), (1, 1));
    assert_eq!(it.next(), Some('a'));
    assert_eq!(it.next(), Some('b'));
    assert_eq!((it.line(), it.char()), (1, 3));
    assert_eq!(it.next(), Some('\n'));
    assert_eq!((it.line(), it.char()), (2, 1));
    assert_eq!(it.next(), Some('c'));
    assert_eq!(it.next(), None);
    assert_eq!((it.line(), it.char()), (2, 2));
    assert_eq!(it.text().as_str(), "ab\nc");
}

#[test]
fn error_constructors() {
    let text = String::from("x");
    let e = LexerError::from_indices(String::from("m"), &text, 3, 4, 7);
    let loc = e.location.unwrap();
    assert_eq!((loc.text.as_str(), loc.line, loc.start_char, loc.end_char), ("x", 3, 4, 7));
    let e = LexerError::invalid_escape_sequence(SourceCodeLocation::new(String::from("y"), 1, 2, 2));
    assert_eq!(e.msg, "Invalid escape sequence");
    let e = LexerError::from_location(String::from("z"), SourceCodeLocation::new(String::new(), 1, 1, 1));
    assert_eq!(e.msg, "z");
}

#[test]
fn error_lines() {
    let text = "first\r\n\tsecond\nthird";
    assert_eq!(get_error_line(text, 1), "first");
    assert_eq!(get_error_line(text, 2), " second");
    assert_eq!(get_error_line(text, 3), "third");
    assert_eq!(get_error_line(text, 4), "");
    assert_eq!(get_error_line("a\n", 2), "");
    assert_eq!(get_error_line("", 1), "");
    assert_eq!(get_error_line("x\r", 1), "x\r");
}
