use vstd::prelude::*;
use vstd::string::StrSliceExecFns;

verus! {

/// A classified token: its kind, its decoded text (empty for operators and
/// punctuation), and the line and column span where it was found.
#[derive(Debug, Clone)]
pub struct Token {
    pub kind: TokenKind,
    pub lexeme: String,
    pub line: usize,
    pub start_char: usize,
    pub end_char: usize,
}

/// Every kind of token: reserved words, operators and punctuation, and the
/// literal classes. `Invalid` is a placeholder that no scan produces.
#[derive(Debug, Clone, Copy, PartialEq, Eq, Structural)]
pub enum TokenKind {
    Invalid,
    Super,
    Class,
    This,
    While,
    If,
    Else,
    For,
    Foreach,
    In,
    Continue,
    Break,
    True,
    False,
    Null,
    Import,
    Include,
    As,
    Fn,
    Return,
    Let,
    Const,
    Print,
    FatArrow,
    ThinArrow,
    Equal,
    QuestionmarkQuestionmark,
    Questionmark,
    Colon,
    Plus,
    Minus,
    Slash,
    Star,
    StarStar,
    Percent,
    Ampersand,
    AmpersandAmpersand,
    Caret,
    Pipe,
    PipePipe,
    Bang,
    EqualEqual,
    BangEqual,
    GreaterEqual,
    LessEqual,
    Greater,
    Less,
    LessLess,
    GreaterGreater,
    Tilde,
    PlusPlus,
    MinusMinus,
    MinusEqual,
    PlusEqual,
    StarEqual,
    SlashEqual,
    Dot,
    DotDot,
    Comma,
    Semicolon,
    LeftParenthesis,
    RightParenthesis,
    LeftBrace,
    RightBrace,
    LeftBracket,
    RightBracket,
    Identifier,
    String,
    Char,
    Integer,
    Float,
}

/// The fixed text of each kind; the literal classes and `Invalid` have a
/// name in angle brackets instead.
pub open spec fn spelling(k: TokenKind) -> Seq<char> {
    match k {
        TokenKind::Invalid => "<invalid>"@,
        TokenKind::Super => "super"@,
        TokenKind::Class => "class"@,
        TokenKind::This => "this"@,
        TokenKind::While => "while"@,
        TokenKind::If => "if"@,
        TokenKind::Else => "else"@,
        TokenKind::For => "for"@,
        TokenKind::Foreach => "foreach"@,
        TokenKind::In => "in"@,
        TokenKind::Continue => "continue"@,
        TokenKind::Break => "break"@,
        TokenKind::True => "true"@,
        TokenKind::False => "false"@,
        TokenKind::Null => "null"@,
        TokenKind::Import => "import"@,
        TokenKind::Include => "include"@,
        TokenKind::As => "as"@,
        TokenKind::Fn => "fn"@,
        TokenKind::Return => "return"@,
        TokenKind::Let => "let"@,
        TokenKind::Const => "const"@,
        TokenKind::Print => "print"@,
        TokenKind::FatArrow => "=>"@,
        TokenKind::ThinArrow => "->"@,
        TokenKind::Equal => "="@,
        TokenKind::QuestionmarkQuestionmark => "??"@,
        TokenKind::Questionmark => "?"@,
        TokenKind::Colon => ":"@,
        TokenKind::Plus => "+"@,
        TokenKind::Minus => "-"@,
        TokenKind::Slash => "/"@,
        TokenKind::Star => "*"@,
        TokenKind::StarStar => "**"@,
        TokenKind::Percent => "%"@,
        TokenKind::Ampersand => "&"@,
        TokenKind::AmpersandAmpersand => "&&"@,
        TokenKind::Caret => "^"@,
        TokenKind::Pipe => "|"@,
        TokenKind::PipePipe => "||"@,
        TokenKind::Bang => "!"@,
        TokenKind::EqualEqual => "=="@,
        TokenKind::BangEqual => "!="@,
        TokenKind::GreaterEqual => ">="@,
        TokenKind::LessEqual => "<="@,
        TokenKind::Greater => ">"@,
        TokenKind::Less => "<"@,
        TokenKind::LessLess => "<<"@,
        TokenKind::GreaterGreater => ">>"@,
        TokenKind::Tilde => "~"@,
        TokenKind::PlusPlus => "++"@,
        TokenKind::MinusMinus => "--"@,
        TokenKind::MinusEqual => "-="@,
        TokenKind::PlusEqual => "+="@,
        TokenKind::StarEqual => "*="@,
        TokenKind::SlashEqual => "/="@,
        TokenKind::Dot => "."@,
        TokenKind::DotDot => ".."@,
        TokenKind::Comma => ","@,
        TokenKind::Semicolon => ";"@,
        TokenKind::LeftParenthesis => "("@,
        TokenKind::RightParenthesis => ")"@,
        TokenKind::LeftBrace => "{"@,
        TokenKind::RightBrace => "}"@,
        TokenKind::LeftBracket => "["@,
        TokenKind::RightBracket => "]"@,
        TokenKind::Identifier => "<identifier>"@,
        TokenKind::String => "<string>"@,
        TokenKind::Char => "<char>"@,
        TokenKind::Integer => "<integer>"@,
        TokenKind::Float => "<float>"@,
    }
}

/// The reserved word spelt `w`, if any.
pub open spec fn keyword_of(w: Seq<char>) -> Option<TokenKind> {
    if w == spelling(TokenKind::Super) {
        Some(TokenKind::Super)
    } else if w == spelling(TokenKind::Class) {
        Some(TokenKind::Class)
    } else if w == spelling(TokenKind::This) {
        Some(TokenKind::This)
    } else if w == spelling(TokenKind::While) {
        Some(TokenKind::While)
    } else if w == spelling(TokenKind::If) {
        Some(TokenKind::If)
    } else if w == spelling(TokenKind::Else) {
        Some(TokenKind::Else)
    } else if w == spelling(TokenKind::For) {
        Some(TokenKind::For)
    } else if w == spelling(TokenKind::Foreach) {
        Some(TokenKind::Foreach)
    } else if w == spelling(TokenKind::In) {
        Some(TokenKind::In)
    } else if w == spelling(TokenKind::Continue) {
        Some(TokenKind::Continue)
    } else if w == spelling(TokenKind::Break) {
        Some(TokenKind::Break)
    } else if w == spelling(TokenKind::True) {
        Some(TokenKind::True)
    } else if w == spelling(TokenKind::False) {
        Some(TokenKind::False)
    } else if w == spelling(TokenKind::Null) {
        Some(TokenKind::Null)
    } else if w == spelling(TokenKind::Import) {
        Some(TokenKind::Import)
    } else if w == spelling(TokenKind::Include) {
        Some(TokenKind::Include)
    } else if w == spelling(TokenKind::As) {
        Some(TokenKind::As)
    } else if w == spelling(TokenKind::Fn) {
        Some(TokenKind::Fn)
    } else if w == spelling(TokenKind::Return) {
        Some(TokenKind::Return)
    } else if w == spelling(TokenKind::Let) {
        Some(TokenKind::Let)
    } else if w == spelling(TokenKind::Const) {
        Some(TokenKind::Const)
    } else if w == spelling(TokenKind::Print) {
        Some(TokenKind::Print)
    } else {
        None
    }
}

/// The operator or punctuation that the single character `c` forms.
pub open spec fn single_op(c: char) -> Option<TokenKind> {
    if c == '!' {
        Some(TokenKind::Bang)
    } else if c == '%' {
        Some(TokenKind::Percent)
    } else if c == '&' {
        Some(TokenKind::Ampersand)
    } else if c == '(' {
        Some(TokenKind::LeftParenthesis)
    } else if c == ')' {
        Some(TokenKind::RightParenthesis)
    } else if c == '*' {
        Some(TokenKind::Star)
    } else if c == '+' {
        Some(TokenKind::Plus)
    } else if c == ',' {
        Some(TokenKind::Comma)
    } else if c == '-' {
        Some(TokenKind::Minus)
    } else if c == '.' {
        Some(TokenKind::Dot)
    } else if c == '/' {
        Some(TokenKind::Slash)
    } else if c == ':' {
        Some(TokenKind::Colon)
    } else if c == ';' {
        Some(TokenKind::Semicolon)
    } else if c == '<' {
        Some(TokenKind::Less)
    } else if c == '=' {
        Some(TokenKind::Equal)
    } else if c == '>' {
        Some(TokenKind::Greater)
    } else if c == '?' {
        Some(TokenKind::Questionmark)
    } else if c == '[' {
        Some(TokenKind::LeftBracket)
    } else if c == ']' {
        Some(TokenKind::RightBracket)
    } else if c == '{' {
        Some(TokenKind::LeftBrace)
    } else if c == '|' {
        Some(TokenKind::Pipe)
    } else if c == '}' {
        Some(TokenKind::RightBrace)
    } else {
        None
    }
}

/// The two-character operator that `c` followed by `d` forms.
pub open spec fn pair_op(c: char, d: char) -> Option<TokenKind> {
    if c == '!' && d == '=' {
        Some(TokenKind::BangEqual)
    } else if c == '&' && d == '&' {
        Some(TokenKind::AmpersandAmpersand)
    } else if c == '*' && d == '=' {
        Some(TokenKind::StarEqual)
    } else if c == '*' && d == '*' {
        Some(TokenKind::StarStar)
    } else if c == '+' && d == '+' {
        Some(TokenKind::PlusPlus)
    } else if c == '+' && d == '=' {
        Some(TokenKind::PlusEqual)
    } else if c == '-' && d == '-' {
        Some(TokenKind::MinusMinus)
    } else if c == '-' && d == '=' {
        Some(TokenKind::MinusEqual)
    } else if c == '-' && d == '>' {
        Some(TokenKind::FatArrow)
    } else if c == '.' && d == '.' {
        Some(TokenKind::DotDot)
    } else if c == '/' && d == '=' {
        Some(TokenKind::SlashEqual)
    } else if c == '<' && d == '=' {
        Some(TokenKind::LessEqual)
    } else if c == '=' && d == '=' {
        Some(TokenKind::EqualEqual)
    } else if c == '=' && d == '>' {
        Some(TokenKind::FatArrow)
    } else if c == '>' && d == '=' {
        Some(TokenKind::GreaterEqual)
    } else if c == '?' && d == '?' {
        Some(TokenKind::QuestionmarkQuestionmark)
    } else if c == '|' && d == '|' {
        Some(TokenKind::PipePipe)
    } else {
        None
    }
}

/// Longest match: the two-character operator where `c` and the character
/// after it form one, else the one-character operator `c`.
pub open spec fn operator_of(c: char, next: Option<char>) -> Option<TokenKind> {
    match next {
        Some(d) => if pair_op(c, d) is Some {
            pair_op(c, d)
        } else {
            single_op(c)
        },
        None => single_op(c),
    }
}

/// Every two-character operator extends a one-character operator, so the
/// greedy match never needs more than one character of lookahead.
pub proof fn lemma_pair_extends_single(c: char, d: char)
    ensures
        pair_op(c, d) is Some ==> single_op(c) is Some,
{
}

/// Whether the text of `a` is exactly that of `b`.
fn same_text(a: &str, b: &str) -> (r: bool)
    ensures
        r == (a@ == b@),
{
    let n = a.unicode_len();
    if n != b.unicode_len() {
        return false;
    }
    let mut i: usize = 0;
    while i < n
        invariant
            n == a@.len(),
            n == b@.len(),
            i <= n,
            forall|j: int| 0 <= j < i ==> a@[j] == b@[j],
        decreases n - i,
    {
        if a.get_char(i) != b.get_char(i) {
            return false;
        }
        i = i + 1;
    }
    assert(a@ =~= b@);
    true
}

impl TokenKind {
    /// The text of the kind (see `spelling`).
    pub fn to_str(&self) -> (r: &'static str)
        ensures
            r@ == spelling(*self),
    {
        match self {
            TokenKind::Invalid => "<invalid>",
            TokenKind::Super => "super",
            TokenKind::Class => "class",
            TokenKind::This => "this",
            TokenKind::While => "while",
            TokenKind::If => "if",
            TokenKind::Else => "else",
            TokenKind::For => "for",
            TokenKind::Foreach => "foreach",
            TokenKind::In => "in",
            TokenKind::Continue => "continue",
            TokenKind::Break => "break",
            TokenKind::True => "true",
            TokenKind::False => "false",
            TokenKind::Null => "null",
            TokenKind::Import => "import",
            TokenKind::Include => "include",
            TokenKind::As => "as",
            TokenKind::Fn => "fn",
            TokenKind::Return => "return",
            TokenKind::Let => "let",
            TokenKind::Const => "const",
            TokenKind::Print => "print",
            TokenKind::FatArrow => "=>",
            TokenKind::ThinArrow => "->",
            TokenKind::Equal => "=",
            TokenKind::QuestionmarkQuestionmark => "??",
            TokenKind::Questionmark => "?",
            TokenKind::Colon => ":",
            TokenKind::Plus => "+",
            TokenKind::Minus => "-",
            TokenKind::Slash => "/",
            TokenKind::Star => "*",
            TokenKind::StarStar => "**",
            TokenKind::Percent => "%",
            TokenKind::Ampersand => "&",
            TokenKind::AmpersandAmpersand => "&&",
            TokenKind::Caret => "^",
            TokenKind::Pipe => "|",
            TokenKind::PipePipe => "||",
            TokenKind::Bang => "!",
            TokenKind::EqualEqual => "==",
            TokenKind::BangEqual => "!=",
            TokenKind::GreaterEqual => ">=",
            TokenKind::LessEqual => "<=",
            TokenKind::Greater => ">",
            TokenKind::Less => "<",
            TokenKind::LessLess => "<<",
            TokenKind::GreaterGreater => ">>",
            TokenKind::Tilde => "~",
            TokenKind::PlusPlus => "++",
            TokenKind::MinusMinus => "--",
            TokenKind::MinusEqual => "-=",
            TokenKind::PlusEqual => "+=",
            TokenKind::StarEqual => "*=",
            TokenKind::SlashEqual => "/=",
            TokenKind::Dot => ".",
            TokenKind::DotDot => "..",
            TokenKind::Comma => ",",
            TokenKind::Semicolon => ";",
            TokenKind::LeftParenthesis => "(",
            TokenKind::RightParenthesis => ")",
            TokenKind::LeftBrace => "{",
            TokenKind::RightBrace => "}",
            TokenKind::LeftBracket => "[",
            TokenKind::RightBracket => "]",
            TokenKind::Identifier => "<identifier>",
            TokenKind::String => "<string>",
            TokenKind::Char => "<char>",
            TokenKind::Integer => "<integer>",
            TokenKind::Float => "<float>",
        }
    }

    /// The reserved word spelt `word`, if any.
    pub fn keyword(word: &str) -> (r: Option<TokenKind>)
        ensures
            r == keyword_of(word@),
    {
        if same_text(word, TokenKind::Super.to_str()) {
            return Some(TokenKind::Super);
        }
        if same_text(word, TokenKind::Class.to_str()) {
            return Some(TokenKind::Class);
        }
        if same_text(word, TokenKind::This.to_str()) {
            return Some(TokenKind::This);
        }
        if same_text(word, TokenKind::While.to_str()) {
            return Some(TokenKind::While);
        }
        if same_text(word, TokenKind::If.to_str()) {
            return Some(TokenKind::If);
        }
        if same_text(word, TokenKind::Else.to_str()) {
            return Some(TokenKind::Else);
        }
        if same_text(word, TokenKind::For.to_str()) {
            return Some(TokenKind::For);
        }
        if same_text(word, TokenKind::Foreach.to_str()) {
            return Some(TokenKind::Foreach);
        }
        if same_text(word, TokenKind::In.to_str()) {
            return Some(TokenKind::In);
        }
        if same_text(word, TokenKind::Continue.to_str()) {
            return Some(TokenKind::Continue);
        }
        if same_text(word, TokenKind::Break.to_str()) {
            return Some(TokenKind::Break);
        }
        if same_text(word, TokenKind::True.to_str()) {
            return Some(TokenKind::True);
        }
        if same_text(word, TokenKind::False.to_str()) {
            return Some(TokenKind::False);
        }
        if same_text(word, TokenKind::Null.to_str()) {
            return Some(TokenKind::Null);
        }
        if same_text(word, TokenKind::Import.to_str()) {
            return Some(TokenKind::Import);
        }
        if same_text(word, TokenKind::Include.to_str()) {
            return Some(TokenKind::Include);
        }
        if same_text(word, TokenKind::As.to_str()) {
            return Some(TokenKind::As);
        }
        if same_text(word, TokenKind::Fn.to_str()) {
            return Some(TokenKind::Fn);
        }
        if same_text(word, TokenKind::Return.to_str()) {
            return Some(TokenKind::Return);
        }
        if same_text(word, TokenKind::Let.to_str()) {
            return Some(TokenKind::Let);
        }
        if same_text(word, TokenKind::Const.to_str()) {
            return Some(TokenKind::Const);
        }
        if same_text(word, TokenKind::Print.to_str()) {
            return Some(TokenKind::Print);
        }
        None
    }

    fn single_operator(c: char) -> (r: Option<TokenKind>)
        ensures
            r == single_op(c),
    {
        match c {
            '!' => Some(TokenKind::Bang),
            '%' => Some(TokenKind::Percent),
            '&' => Some(TokenKind::Ampersand),
            '(' => Some(TokenKind::LeftParenthesis),
            ')' => Some(TokenKind::RightParenthesis),
            '*' => Some(TokenKind::Star),
            '+' => Some(TokenKind::Plus),
            ',' => Some(TokenKind::Comma),
            '-' => Some(TokenKind::Minus),
            '.' => Some(TokenKind::Dot),
            '/' => Some(TokenKind::Slash),
            ':' => Some(TokenKind::Colon),
            ';' => Some(TokenKind::Semicolon),
            '<' => Some(TokenKind::Less),
            '=' => Some(TokenKind::Equal),
            '>' => Some(TokenKind::Greater),
            '?' => Some(TokenKind::Questionmark),
            '[' => Some(TokenKind::LeftBracket),
            ']' => Some(TokenKind::RightBracket),
            '{' => Some(TokenKind::LeftBrace),
            '|' => Some(TokenKind::Pipe),
            '}' => Some(TokenKind::RightBrace),
            _ => None,
        }
    }

    /// The two-character operator that `c` followed by `d` forms, if any.
    pub(crate) fn pair_operator(c: char, d: char) -> (r: Option<TokenKind>)
        ensures
            r == pair_op(c, d),
    {
        match (c, d) {
            ('!', '=') => Some(TokenKind::BangEqual),
            ('&', '&') => Some(TokenKind::AmpersandAmpersand),
            ('*', '=') => Some(TokenKind::StarEqual),
            ('*', '*') => Some(TokenKind::StarStar),
            ('+', '+') => Some(TokenKind::PlusPlus),
            ('+', '=') => Some(TokenKind::PlusEqual),
            ('-', '-') => Some(TokenKind::MinusMinus),
            ('-', '=') => Some(TokenKind::MinusEqual),
            ('-', '>') => Some(TokenKind::FatArrow),
            ('.', '.') => Some(TokenKind::DotDot),
            ('/', '=') => Some(TokenKind::SlashEqual),
            ('<', '=') => Some(TokenKind::LessEqual),
            ('=', '=') => Some(TokenKind::EqualEqual),
            ('=', '>') => Some(TokenKind::FatArrow),
            ('>', '=') => Some(TokenKind::GreaterEqual),
            ('?', '?') => Some(TokenKind::QuestionmarkQuestionmark),
            ('|', '|') => Some(TokenKind::PipePipe),
            _ => None,
        }
    }

    /// Classifies an operator from its first character `c` and the
    /// character after it, preferring the longer match.
    pub fn parse_operator(c: char, c1: Option<char>) -> (r: Option<TokenKind>)
        ensures
            r == operator_of(c, c1),
    {
        let pair = match c1 {
            Some(d) => TokenKind::pair_operator(c, d),
            None => None,
        };
        match pair {
            Some(k) => Some(k),
            None => TokenKind::single_operator(c),
        }
    }
}

} // verus!
