use vstd::prelude::*;
use vstd::utf8::encode_utf8;
use crate::iterator::{col_at, line_at, PeekableIterator, StringIterator};
use crate::source::SourceCodeLocation;
use crate::token::{keyword_of, operator_of, pair_op, Token, TokenKind};
use crate::util::{escape_of, push_char, resolve_escape_sequence};

verus! {

broadcast use vstd::string::group_string_axioms;

/// The code unit at `i`, read as a `char`.
pub open spec fn unit(src: Seq<u8>, i: int) -> char {
    src[i] as char
}

/// The code units from `a` up to `b`, read as `char`s.
pub open spec fn units(src: Seq<u8>, a: int, b: int) -> Seq<char> {
    src.subrange(a, b).map_values(|u: u8| u as char)
}

proof fn lemma_units_push(src: Seq<u8>, a: int, b: int)
    requires
        0 <= a <= b < src.len(),
    ensures
        units(src, a, b + 1) == units(src, a, b).push(unit(src, b)),
{
    assert(units(src, a, b + 1) =~= units(src, a, b).push(unit(src, b)));
}

/// Whitespace: the single code units with the Unicode `White_Space` property.
pub open spec fn is_space(c: char) -> bool {
    c == '\t' || c == '\n' || c == '\x0B' || c == '\x0C' || c == '\r' || c == ' ' || c == '\u{85}'
        || c == '\u{A0}'
}

pub open spec fn is_digit(c: char) -> bool {
    '0' <= c && c <= '9'
}

/// A character that may begin an identifier: an ASCII letter, `_` or `$`.
pub open spec fn is_ident_start(c: char) -> bool {
    ('a' <= c && c <= 'z') || ('A' <= c && c <= 'Z') || c == '_' || c == '$'
}

/// The position of the first non-whitespace unit at or after `i`.
pub open spec fn skip_ws(src: Seq<u8>, i: int) -> int
    decreases src.len() - i,
{
    if 0 <= i < src.len() && is_space(unit(src, i)) {
        skip_ws(src, i + 1)
    } else {
        i
    }
}

/// The position just after the line feed that ends the line holding `i`,
/// or the end of the text.
pub open spec fn line_comment_end(src: Seq<u8>, i: int) -> int
    decreases src.len() - i,
{
    if 0 <= i < src.len() {
        if unit(src, i) == '\n' {
            i + 1
        } else {
            line_comment_end(src, i + 1)
        }
    } else {
        i
    }
}

/// Inside a block comment nested `depth` deep, from `i`: the position just
/// after the `*/` that closes the outermost comment, or `None` where the text
/// ends first.
pub open spec fn block_comment_end(src: Seq<u8>, i: int, depth: nat) -> Option<int>
    decreases src.len() - i,
{
    if 0 <= i < src.len() {
        if unit(src, i) == '*' && i + 1 < src.len() && unit(src, i + 1) == '/' {
            if depth <= 1 {
                Some(i + 2)
            } else {
                block_comment_end(src, i + 2, (depth - 1) as nat)
            }
        } else if unit(src, i) == '/' && i + 1 < src.len() && unit(src, i + 1) == '*' {
            block_comment_end(src, i + 2, depth + 1)
        } else {
            block_comment_end(src, i + 1, depth)
        }
    } else {
        None
    }
}

/// What one scan step finds from a given start, and where the cursor then
/// stands.
pub enum Scan {
    /// A token of `kind` with decoded text `text`.
    Lexeme { end: int, kind: TokenKind, text: Seq<char> },
    /// An error with message `msg`. A `spanned` error reaches from the start
    /// of the scan to `end`; any other sits at `end`.
    Failure { end: int, msg: Seq<char>, spanned: bool },
    /// Whitespace or a comment, which gives no token.
    Skipped { end: int },
}

impl Scan {
    /// Where the cursor stands after the scan.
    pub open spec fn end(self) -> int {
        match self {
            Scan::Lexeme { end, .. } => end,
            Scan::Failure { end, .. } => end,
            Scan::Skipped { end } => end,
        }
    }
}

/// The message of an unknown escape, or of a backslash at the end.
pub open spec fn invalid_escape() -> Seq<char> {
    "Invalid escape sequence"@
}

/// The rest of a string literal from `i`, with `acc` decoded so far.
pub open spec fn scan_string(src: Seq<u8>, i: int, acc: Seq<char>) -> Scan
    decreases src.len() - i,
{
    if 0 <= i < src.len() {
        let c = unit(src, i);
        if c == '"' {
            Scan::Lexeme { end: i + 1, kind: TokenKind::String, text: acc }
        } else if c == '\\' {
            if i + 1 < src.len() {
                match escape_of(unit(src, i + 1)) {
                    Some(e) => scan_string(src, i + 2, acc.push(e)),
                    None => Scan::Failure { end: i + 2, msg: invalid_escape(), spanned: false },
                }
            } else {
                Scan::Failure { end: i + 1, msg: invalid_escape(), spanned: false }
            }
        } else {
            scan_string(src, i + 1, acc.push(c))
        }
    } else {
        Scan::Failure { end: i, msg: "Unterminated string literal"@, spanned: true }
    }
}

/// After the character `v` of a char literal, at `j`: the closing quote.
pub open spec fn close_char(src: Seq<u8>, j: int, v: char) -> Scan {
    if j < src.len() {
        if unit(src, j) == '\'' {
            Scan::Lexeme { end: j + 1, kind: TokenKind::Char, text: seq![v] }
        } else {
            Scan::Failure { end: j + 1, msg: "Invalid char"@, spanned: true }
        }
    } else {
        Scan::Failure { end: j, msg: "Invalid char"@, spanned: true }
    }
}

/// A char literal whose opening quote stands just before `i`: one character
/// or one escape, then the closing quote. A quote at the end of the text is
/// an invalid char.
pub open spec fn scan_char(src: Seq<u8>, i: int) -> Scan {
    if 0 <= i < src.len() {
        let c = unit(src, i);
        if c == '\\' {
            if i + 1 < src.len() {
                match escape_of(unit(src, i + 1)) {
                    Some(e) => close_char(src, i + 2, e),
                    None => Scan::Failure { end: i + 2, msg: invalid_escape(), spanned: false },
                }
            } else {
                Scan::Failure { end: i + 1, msg: invalid_escape(), spanned: false }
            }
        } else {
            close_char(src, i + 1, c)
        }
    } else {
        Scan::Failure { end: i, msg: "Invalid char"@, spanned: true }
    }
}

/// The rest of a number literal from `i`, with digits `acc` kept so far and
/// `is_float` once a `.` was seen. The literal runs to the end of the text:
/// digits are kept, `_` is dropped, one `.` makes it a float, and anything
/// else is an error.
pub open spec fn scan_number(src: Seq<u8>, i: int, acc: Seq<char>, is_float: bool) -> Scan
    decreases src.len() - i,
{
    if 0 <= i < src.len() {
        let c = unit(src, i);
        if is_digit(c) {
            scan_number(src, i + 1, acc.push(c), is_float)
        } else if c == '_' {
            scan_number(src, i + 1, acc, is_float)
        } else if c == '.' {
            if is_float {
                Scan::Failure { end: i + 1, msg: "Invalid float"@, spanned: false }
            } else {
                scan_number(src, i + 1, acc.push(c), true)
            }
        } else {
            Scan::Failure { end: i + 1, msg: "Invalid number literal"@, spanned: false }
        }
    } else {
        Scan::Lexeme {
            end: i,
            kind: if is_float { TokenKind::Float } else { TokenKind::Integer },
            text: acc,
        }
    }
}

/// The end of the run of identifier characters from `i`.
pub open spec fn ident_end(src: Seq<u8>, i: int) -> int
    decreases src.len() - i,
{
    if 0 <= i < src.len() && (is_ident_start(unit(src, i)) || is_digit(unit(src, i))) {
        ident_end(src, i + 1)
    } else {
        i
    }
}

/// An identifier or reserved word starting at `q`.
pub open spec fn scan_identifier(src: Seq<u8>, q: int) -> Scan {
    let end = ident_end(src, q);
    let text = units(src, q, end);
    Scan::Lexeme {
        end,
        kind: match keyword_of(text) {
            Some(k) => k,
            None => TokenKind::Identifier,
        },
        text,
    }
}

/// The unit after `i`, if any.
pub open spec fn after(src: Seq<u8>, i: int) -> Option<char> {
    if i + 1 < src.len() {
        Some(unit(src, i + 1))
    } else {
        None
    }
}

/// An operator or punctuation at `q`, by longest match.
pub open spec fn scan_operator(src: Seq<u8>, q: int) -> Scan {
    let c = unit(src, q);
    match operator_of(c, after(src, q)) {
        Some(k) => {
            let width = if after(src, q) is Some && pair_op(c, after(src, q)->0) is Some {
                2int
            } else {
                1int
            };
            Scan::Lexeme { end: q + width, kind: k, text: Seq::empty() }
        },
        None => Scan::Failure { end: q + 1, msg: "Invalid operator"@, spanned: false },
    }
}

/// One scan step from the non-whitespace unit at `q`, dispatched on it. A
/// number starts with a digit: a sign before it is an operator token of its
/// own.
pub open spec fn scan_at(src: Seq<u8>, q: int) -> Scan {
    let c = unit(src, q);
    if c == '/' && after(src, q) == Some('*') {
        match block_comment_end(src, q + 2, 1) {
            Some(e) => Scan::Skipped { end: e },
            None => Scan::Failure {
                end: src.len() as int,
                msg: "Unterminated block comment"@,
                spanned: false,
            },
        }
    } else if c == '/' && after(src, q) == Some('/') {
        Scan::Skipped { end: line_comment_end(src, q) }
    } else if c == '"' {
        scan_string(src, q + 1, Seq::empty())
    } else if c == '\'' {
        scan_char(src, q + 1)
    } else if is_digit(c) {
        scan_number(src, q, Seq::empty(), false)
    } else if is_ident_start(c) {
        scan_identifier(src, q)
    } else {
        scan_operator(src, q)
    }
}

/// `r` is what the scan `s`, started at `q` in the text `text` with units
/// `src`, reports: the token with its span, or the error with its location.
pub open spec fn reports(r: Result<Token, LexerError>, s: Scan, src: Seq<u8>, q: int, text: String) -> bool {
    match s {
        Scan::Lexeme { end, kind, text: t } => r matches Ok(tok) && {
            &&& tok.kind == kind
            &&& tok.lexeme@ == t
            &&& tok.line == line_at(src, q)
            &&& tok.start_char == col_at(src, q)
            &&& tok.end_char == col_at(src, end)
        },
        Scan::Failure { end, msg, spanned } => r matches Err(e) && {
            &&& e.msg@ == msg
            &&& e.location matches Some(loc) && {
                &&& loc.text == text
                &&& loc.line == if spanned { line_at(src, q) } else { line_at(src, end) }
                &&& loc.start_char == if spanned { col_at(src, q) } else { col_at(src, end) }
                &&& loc.end_char == col_at(src, end)
            }
        },
        Scan::Skipped { .. } => false,
    }
}

/// The scans that successive calls of `next_token` report from position
/// `i` on: comments are passed over, and the sequence stops at the end of the
/// text or after the first error.
pub open spec fn run(src: Seq<u8>, i: int) -> Seq<Scan>
    decreases src.len() - i,
{
    let q = skip_ws(src, i);
    if 0 <= i <= q < src.len() {
        let s = scan_at(src, q);
        if s is Failure {
            seq![s]
        } else if i < s.end() <= src.len() {
            if s is Skipped {
                run(src, s.end())
            } else {
                seq![s] + run(src, s.end())
            }
        } else {
            seq![s]
        }
    } else {
        Seq::empty()
    }
}

/// From `i` on, the text holds only whitespace, line comments and closed
/// (possibly nested) block comments.
pub open spec fn trivia_from(src: Seq<u8>, i: int) -> bool
    decreases src.len() - i,
{
    if !(0 <= i <= src.len()) {
        false
    } else if i == src.len() {
        true
    } else if is_space(unit(src, i)) {
        trivia_from(src, i + 1)
    } else if unit(src, i) == '/' && after(src, i) == Some('/') {
        let e = line_comment_end(src, i);
        i < e <= src.len() && trivia_from(src, e)
    } else if unit(src, i) == '/' && after(src, i) == Some('*') {
        match block_comment_end(src, i + 2, 1) {
            Some(e) => i < e <= src.len() && trivia_from(src, e),
            None => false,
        }
    } else {
        false
    }
}

proof fn lemma_skip_ws(src: Seq<u8>, i: int)
    requires
        0 <= i <= src.len(),
    ensures
        i <= skip_ws(src, i) <= src.len(),
        skip_ws(src, i) < src.len() ==> !is_space(unit(src, skip_ws(src, i))),
        trivia_from(src, i) ==> trivia_from(src, skip_ws(src, i)),
    decreases src.len() - i,
{
    if i < src.len() && is_space(unit(src, i)) {
        lemma_skip_ws(src, i + 1);
    }
}

proof fn lemma_line_comment_end(src: Seq<u8>, i: int)
    requires
        0 <= i < src.len(),
    ensures
        i < line_comment_end(src, i) <= src.len(),
    decreases src.len() - i,
{
    if unit(src, i) != '\n' {
        if i + 1 < src.len() {
            lemma_line_comment_end(src, i + 1);
        } else {
            assert(line_comment_end(src, i + 1) == i + 1);
        }
    }
}

proof fn lemma_block_comment_end(src: Seq<u8>, i: int, depth: nat)
    requires
        0 <= i,
    ensures
        block_comment_end(src, i, depth) matches Some(e) ==> i < e <= src.len(),
    decreases src.len() - i,
{
    if 0 <= i < src.len() {
        if unit(src, i) == '*' && i + 1 < src.len() && unit(src, i + 1) == '/' {
            if depth > 1 {
                lemma_block_comment_end(src, i + 2, (depth - 1) as nat);
            }
        } else if unit(src, i) == '/' && i + 1 < src.len() && unit(src, i + 1) == '*' {
            lemma_block_comment_end(src, i + 2, depth + 1);
        } else {
            lemma_block_comment_end(src, i + 1, depth);
        }
    }
}

/// A text that holds only whitespace and comments, line comments and nested
/// block comments alike, gives no token and no error: every call passes over
/// them until the tokenizer is done.
pub proof fn lemma_trivia_yields_nothing(src: Seq<u8>, i: int)
    requires
        trivia_from(src, i),
    ensures
        run(src, i) == Seq::<Scan>::empty(),
    decreases src.len() - i,
{
    lemma_skip_ws(src, i);
    let q = skip_ws(src, i);
    if q < src.len() {
        if unit(src, q) == '/' && after(src, q) == Some('*') {
            lemma_block_comment_end(src, q + 2, 1);
            let e = block_comment_end(src, q + 2, 1)->0;
            lemma_trivia_yields_nothing(src, e);
        } else {
            lemma_line_comment_end(src, q);
            lemma_trivia_yields_nothing(src, line_comment_end(src, q));
        }
    }
}

/// What a reported result holds: a token's kind, text and span, or an
/// error's message and location.
pub open spec fn result_view(r: Result<Token, LexerError>) -> Result<
    (TokenKind, Seq<char>, usize, usize, usize),
    (Seq<char>, Option<(Seq<char>, usize, usize, usize)>),
> {
    match r {
        Ok(t) => Ok((t.kind, t.lexeme@, t.line, t.start_char, t.end_char)),
        Err(e) => Err(
            (
                e.msg@,
                match e.location {
                    Some(l) => Some((l.text@, l.line, l.start_char, l.end_char)),
                    None => None,
                },
            ),
        ),
    }
}

/// A scan determines what is reported: two results that report the same
/// scan of the same text hold the same values. With the contract of
/// `next_token`, which fixes the scan from the text and the position alone,
/// tokenizing a text again from a fresh tokenizer gives the same sequence.
pub proof fn lemma_report_determined(
    r1: Result<Token, LexerError>,
    r2: Result<Token, LexerError>,
    s: Scan,
    src: Seq<u8>,
    q: int,
    text: String,
)
    requires
        reports(r1, s, src, q, text),
        reports(r2, s, src, q, text),
    ensures
        result_view(r1) == result_view(r2),
{
}

/// The phase of a tokenizer: `Ready` before the first pull, `Lexing` once
/// input was inspected, `Done` once it is exhausted.
#[derive(Debug, Clone, Copy, PartialEq, Eq, Structural)]
pub enum LexerState {
    Ready,
    Lexing,
    Done,
}

impl Default for LexerState {
    fn default() -> (r: Self)
        ensures
            r == LexerState::Ready,
    {
        LexerState::Ready
    }
}

/// A lexical error: its message and where it was found.
#[derive(Debug)]
pub struct LexerError {
    pub msg: String,
    pub location: Option<SourceCodeLocation>,
}

impl LexerError {
    /// An error spanning columns `start_char` to `end_char` of `line`.
    pub fn from_indices(msg: String, text: &String, line: usize, start_char: usize, end_char: usize) -> (r: Self)
        ensures
            r.msg == msg,
            r.location matches Some(loc) && loc.text == *text && loc.line == line
                && loc.start_char == start_char && loc.end_char == end_char,
    {
        LexerError {
            msg,
            location: Some(SourceCodeLocation::new(text.clone(), line, start_char, end_char)),
        }
    }

    pub fn from_location(msg: String, location: SourceCodeLocation) -> (r: Self)
        ensures
            r.msg == msg,
            r.location == Some(location),
    {
        LexerError { msg, location: Some(location) }
    }

    pub fn invalid_escape_sequence(location: SourceCodeLocation) -> (r: Self)
        ensures
            r.msg@ == invalid_escape(),
            r.location == Some(location),
    {
        LexerError { msg: "Invalid escape sequence".to_string(), location: Some(location) }
    }
}


/// A pull-based tokenizer over one source text.
pub struct Lexer<'a> {
    iter: StringIterator<'a>,
    state: LexerState,
}

/// Whether `c` is a whitespace code unit (see `is_space`).
fn is_whitespace_unit(c: char) -> (r: bool)
    ensures
        r == is_space(c),
{
    c == '\t' || c == '\n' || c == '\x0B' || c == '\x0C' || c == '\r' || c == ' ' || c == '\u{85}'
        || c == '\u{A0}'
}

impl<'a> Lexer<'a> {
    /// The code units of the text.
    pub closed spec fn source(&self) -> Seq<u8> {
        self.iter.source()
    }

    /// Number of code units consumed so far.
    pub closed spec fn pos(&self) -> int {
        self.iter.pos()
    }

    /// The text being scanned.
    pub closed spec fn text_spec(&self) -> String {
        *self.iter.text_spec()
    }

    pub closed spec fn state_spec(&self) -> LexerState {
        self.state
    }

    /// Well-formedness of the cursor.
    pub closed spec fn wf(&self) -> bool {
        &&& self.iter.wf()
        &&& 0 <= self.iter.pos() <= self.iter.source().len() < usize::MAX
    }

    /// A tokenizer at the start of `text`. The text's length in bytes must
    /// leave room for a 1-based column past its end.
    pub fn new(text: &'a String) -> (r: Self)
        requires
            encode_utf8(text@).len() < usize::MAX,
        ensures
            r.source() == encode_utf8(text@),
            r.text_spec() == *text,
            r.pos() == 0,
            r.state_spec() == LexerState::Ready,
            r.wf(),
    {
        let iter = StringIterator::new(text);
        proof {
            iter.lemma_bounds();
        }
        Lexer { iter, state: LexerState::default() }
    }

    /// The phase the tokenizer is in.
    pub fn state(&self) -> (r: LexerState)
        ensures
            r == self.state_spec(),
    {
        self.state
    }

    fn _peek(&self) -> (r: Option<char>)
        ensures
            r == (if self.pos() < self.source().len() {
                Some(unit(self.source(), self.pos()))
            } else {
                None
            }),
    {
        self.iter.peek()
    }

    fn _offset(&self, num: usize) -> (r: Option<char>)
        ensures
            r == (if self.pos() + num < self.source().len() {
                Some(unit(self.source(), self.pos() + num))
            } else {
                None
            }),
    {
        self.iter.offset(num)
    }

    fn _next(&mut self) -> (r: Option<char>)
        requires
            old(self).wf(),
        ensures
            final(self).wf(),
            final(self).source() == old(self).source(),
            final(self).text_spec() == old(self).text_spec(),
            final(self).state_spec() == old(self).state_spec(),
            old(self).pos() < old(self).source().len() ==> {
                &&& r == Some(unit(old(self).source(), old(self).pos()))
                &&& final(self).pos() == old(self).pos() + 1
            },
            old(self).pos() >= old(self).source().len() ==> {
                &&& r is None
                &&& final(self).pos() == old(self).pos()
            },
    {
        let r = self.iter.next();
        proof {
            self.iter.lemma_bounds();
        }
        r
    }

    /// Consumes up to `n` units.
    fn _skip(&mut self, n: usize)
        requires
            old(self).wf(),
        ensures
            final(self).wf(),
            final(self).source() == old(self).source(),
            final(self).text_spec() == old(self).text_spec(),
            final(self).state_spec() == old(self).state_spec(),
            final(self).pos() == if old(self).pos() + n <= old(self).source().len() {
                old(self).pos() + n
            } else {
                old(self).source().len() as int
            },
    {
        let mut i: usize = 0;
        while i < n
            invariant
                i <= n,
                self.wf(),
                self.source() == old(self).source(),
                self.text_spec() == old(self).text_spec(),
                self.state_spec() == old(self).state_spec(),
                self.pos() == if old(self).pos() + i <= old(self).source().len() {
                    old(self).pos() + i
                } else {
                    old(self).source().len() as int
                },
            decreases n - i,
        {
            self._next();
            i = i + 1;
        }
    }

    fn text(&self) -> (r: &String)
        ensures
            *r == self.text_spec(),
    {
        self.iter.text()
    }

    /// A location at the cursor, of zero width.
    fn get_location(&self) -> (r: SourceCodeLocation)
        requires
            self.wf(),
        ensures
            r.text == self.text_spec(),
            r.line == line_at(self.source(), self.pos()),
            r.start_char == col_at(self.source(), self.pos()),
            r.end_char == col_at(self.source(), self.pos()),
    {
        SourceCodeLocation::new(
            self.iter.text().clone(),
            self.iter.line(),
            self.iter.char(),
            self.iter.char(),
        )
    }

    fn skip_whitespace(&mut self)
        requires
            old(self).wf(),
        ensures
            final(self).wf(),
            final(self).source() == old(self).source(),
            final(self).text_spec() == old(self).text_spec(),
            final(self).state_spec() == old(self).state_spec(),
            final(self).pos() == skip_ws(old(self).source(), old(self).pos()),
    {
        loop
            invariant
                self.source() == old(self).source(),
                self.text_spec() == old(self).text_spec(),
                self.state_spec() == old(self).state_spec(),
                self.wf(),
                skip_ws(self.source(), self.pos()) == skip_ws(old(self).source(), old(self).pos()),
            ensures
                self.pos() == skip_ws(self.source(), self.pos()),
            decreases self.source().len() - self.pos(),
        {
            match self._peek() {
                Some(c) => {
                    if !is_whitespace_unit(c) {
                        break;
                    }
                    self._next();
                },
                None => {
                    break;
                },
            }
        }
    }

    fn is_start_of_identifier(&self, c: char) -> (r: bool)
        ensures
            r == is_ident_start(c),
    {
        ('a' <= c && c <= 'z') || ('A' <= c && c <= 'Z') || c == '_' || c == '$'
    }

    fn is_start_of_number(&self, c: char) -> (r: bool)
        ensures
            r == is_digit(c),
    {
        '0' <= c && c <= '9'
    }

    fn is_start_of_char(&self, c: char) -> (r: bool)
        ensures
            r == (c == '\''),
    {
        c == '\''
    }

    fn is_start_of_string(&self, c: char) -> (r: bool)
        ensures
            r == (c == '"'),
    {
        c == '"'
    }

    /// `c`, the unit at the cursor, and the unit after it open a line comment.
    fn is_start_of_line_comment(&self, c: char) -> (r: bool)
        ensures
            r == (c == '/' && after(self.source(), self.pos()) == Some('/')),
    {
        c == '/' && matches!(self._offset(1), Some('/'))
    }

    /// `c`, the unit at the cursor, and the unit after it open a block comment.
    fn is_start_of_block_comment(&self, c: char) -> (r: bool)
        ensures
            r == (c == '/' && after(self.source(), self.pos()) == Some('*')),
    {
        c == '/' && matches!(self._offset(1), Some('*'))
    }

    /// `c`, the unit at the cursor, and the unit after it close a block comment.
    fn is_end_of_block_comment(&self, c: char) -> (r: bool)
        ensures
            r == (c == '*' && after(self.source(), self.pos()) == Some('/')),
    {
        c == '*' && matches!(self._offset(1), Some('/'))
    }
    /// Scans a string literal whose opening quote is at the cursor.
    fn parse_string(&mut self) -> (r: Result<Token, LexerError>)
        requires
            old(self).wf(),
            old(self).pos() < old(self).source().len(),
            unit(old(self).source(), old(self).pos()) == '"',
        ensures
            final(self).wf(),
            final(self).source() == old(self).source(),
            final(self).text_spec() == old(self).text_spec(),
            final(self).state_spec() == old(self).state_spec(),
            final(self).pos() == scan_string(old(self).source(), old(self).pos() + 1, Seq::empty()).end(),
            reports(
                r,
                scan_string(old(self).source(), old(self).pos() + 1, Seq::empty()),
                old(self).source(),
                old(self).pos(),
                old(self).text_spec(),
            ),
    {
        let ghost src = self.source();
        let ghost q = self.pos();
        let mut string = String::new();
        let start_line = self.iter.line();
        let start_char = self.iter.char();
        self._next();
        loop
            invariant
                self.wf(),
                src == old(self).source(),
                q == old(self).pos(),
                self.source() == src,
                self.text_spec() == old(self).text_spec(),
                self.state_spec() == old(self).state_spec(),
                q + 1 <= self.pos() <= src.len(),
                start_line == line_at(src, q),
                start_char == col_at(src, q),
                scan_string(src, self.pos(), string@) == scan_string(src, q + 1, Seq::empty()),
            decreases src.len() - self.pos(),
        {
            let c = match self._next() {
                Some(c) => c,
                None => {
                    let end_char = self.iter.char();
                    return Err(
                        LexerError::from_indices(
                            "Unterminated string literal".to_string(),
                            self.text(),
                            start_line,
                            start_char,
                            end_char,
                        ),
                    );
                },
            };
            if self.is_start_of_string(c) {
                let end_char = self.iter.char();
                return Ok(
                    Token { kind: TokenKind::String, lexeme: string, line: start_line, start_char, end_char },
                );
            }
            if c == '\\' {
                let next = match self._next() {
                    Some(c) => c,
                    None => return Err(LexerError::invalid_escape_sequence(self.get_location())),
                };
                let resolved = match resolve_escape_sequence(next) {
                    Some(c) => c,
                    None => return Err(LexerError::invalid_escape_sequence(self.get_location())),
                };
                push_char(&mut string, resolved);
            } else {
                push_char(&mut string, c);
            }
        }
    }

    /// Scans a char literal whose opening quote is at the cursor.
    fn parse_char(&mut self) -> (r: Result<Token, LexerError>)
        requires
            old(self).wf(),
            old(self).pos() < old(self).source().len(),
            unit(old(self).source(), old(self).pos()) == '\'',
        ensures
            final(self).wf(),
            final(self).source() == old(self).source(),
            final(self).text_spec() == old(self).text_spec(),
            final(self).state_spec() == old(self).state_spec(),
            final(self).pos() == scan_char(old(self).source(), old(self).pos() + 1).end(),
            reports(
                r,
                scan_char(old(self).source(), old(self).pos() + 1),
                old(self).source(),
                old(self).pos(),
                old(self).text_spec(),
            ),
    {
        let start_char = self.iter.char();
        let start_line = self.iter.line();
        self._next();
        let c = match self._next() {
            Some(c) => c,
            None => {
                let end_char = self.iter.char();
                return Err(
                    LexerError::from_indices("Invalid char".to_string(), self.text(), start_line, start_char, end_char),
                );
            },
        };
        let value = if c == '\\' {
            let next = match self._next() {
                Some(c) => c,
                None => return Err(LexerError::invalid_escape_sequence(self.get_location())),
            };
            match resolve_escape_sequence(next) {
                Some(c) => c,
                None => return Err(LexerError::invalid_escape_sequence(self.get_location())),
            }
        } else {
            c
        };
        let next = self._next();
        let end_char = self.iter.char();
        match next {
            Some(q) if self.is_start_of_char(q) => {
                let mut string = String::new();
                push_char(&mut string, value);
                assert(string@ =~= seq![value]);
                Ok(Token { kind: TokenKind::Char, lexeme: string, line: start_line, start_char, end_char })
            },
            _ => Err(
                LexerError::from_indices("Invalid char".to_string(), self.text(), start_line, start_char, end_char),
            ),
        }
    }

    /// Scans a number literal whose first digit is at the cursor.
    fn parse_number(&mut self) -> (r: Result<Token, LexerError>)
        requires
            old(self).wf(),
            old(self).pos() < old(self).source().len(),
            is_digit(unit(old(self).source(), old(self).pos())),
        ensures
            final(self).wf(),
            final(self).source() == old(self).source(),
            final(self).text_spec() == old(self).text_spec(),
            final(self).state_spec() == old(self).state_spec(),
            final(self).pos() == scan_number(old(self).source(), old(self).pos(), Seq::empty(), false).end(),
            reports(
                r,
                scan_number(old(self).source(), old(self).pos(), Seq::empty(), false),
                old(self).source(),
                old(self).pos(),
                old(self).text_spec(),
            ),
    {
        let ghost src = self.source();
        let ghost q = self.pos();
        let start_line = self.iter.line();
        let start_char = self.iter.char();
        let mut is_float = false;
        let mut buffer = String::new();
        loop
            invariant
                self.wf(),
                src == old(self).source(),
                q == old(self).pos(),
                self.source() == src,
                self.text_spec() == old(self).text_spec(),
                self.state_spec() == old(self).state_spec(),
                0 <= q <= self.pos() <= src.len(),
                start_line == line_at(src, q),
                start_char == col_at(src, q),
                scan_number(src, self.pos(), buffer@, is_float) == scan_number(src, q, Seq::empty(), false),
            decreases src.len() - self.pos(),
        {
            let c = match self._next() {
                Some(c) => c,
                None => {
                    let kind = if is_float {
                        TokenKind::Float
                    } else {
                        TokenKind::Integer
                    };
                    let end_char = self.iter.char();
                    return Ok(Token { kind, lexeme: buffer, line: start_line, start_char, end_char });
                },
            };
            if self.is_start_of_number(c) {
                push_char(&mut buffer, c);
            } else if c == '_' {
            } else if c == '.' {
                if is_float {
                    return Err(LexerError::from_location("Invalid float".to_string(), self.get_location()));
                }
                is_float = true;
                push_char(&mut buffer, c);
            } else {
                return Err(
                    LexerError::from_location("Invalid number literal".to_string(), self.get_location()),
                );
            }
        }
    }

    /// Scans an identifier or reserved word starting at the cursor.
    fn parse_identifier(&mut self) -> (r: Token)
        requires
            old(self).wf(),
            old(self).pos() < old(self).source().len(),
            is_ident_start(unit(old(self).source(), old(self).pos())),
        ensures
            final(self).wf(),
            final(self).source() == old(self).source(),
            final(self).text_spec() == old(self).text_spec(),
            final(self).state_spec() == old(self).state_spec(),
            final(self).pos() == scan_identifier(old(self).source(), old(self).pos()).end(),
            reports(
                Ok(r),
                scan_identifier(old(self).source(), old(self).pos()),
                old(self).source(),
                old(self).pos(),
                old(self).text_spec(),
            ),
    {
        let ghost src = self.source();
        let ghost q = self.pos();
        let start_line = self.iter.line();
        let start_char = self.iter.char();
        let mut buffer = String::new();
        loop
            invariant
                self.wf(),
                src == old(self).source(),
                q == old(self).pos(),
                self.source() == src,
                self.text_spec() == old(self).text_spec(),
                self.state_spec() == old(self).state_spec(),
                0 <= q <= self.pos() <= src.len(),
                start_line == line_at(src, q),
                start_char == col_at(src, q),
                ident_end(src, self.pos()) == ident_end(src, q),
                buffer@ == units(src, q, self.pos()),
            ensures
                self.pos() == ident_end(src, q),
            decreases src.len() - self.pos(),
        {
            match self._peek() {
                Some(c) => {
                    if !self.is_start_of_identifier(c) && !self.is_start_of_number(c) {
                        break;
                    }
                    proof {
                        lemma_units_push(src, q, self.pos());
                    }
                    self._next();
                    push_char(&mut buffer, c);
                },
                None => break,
            }
        }
        let kind = match TokenKind::keyword(buffer.as_str()) {
            Some(k) => k,
            None => TokenKind::Identifier,
        };
        let end_char = self.iter.char();
        Token { kind, lexeme: buffer, line: start_line, start_char, end_char }
    }

    /// Consumes a line comment through its line feed, or to the end.
    fn parse_line_comment(&mut self)
        requires
            old(self).wf(),
        ensures
            final(self).wf(),
            final(self).source() == old(self).source(),
            final(self).text_spec() == old(self).text_spec(),
            final(self).state_spec() == old(self).state_spec(),
            final(self).pos() == line_comment_end(old(self).source(), old(self).pos()),
    {
        let ghost src = self.source();
        let ghost q = self.pos();
        loop
            invariant
                self.wf(),
                src == old(self).source(),
                q == old(self).pos(),
                self.source() == src,
                self.text_spec() == old(self).text_spec(),
                self.state_spec() == old(self).state_spec(),
                0 <= self.pos() <= src.len(),
                line_comment_end(src, self.pos()) == line_comment_end(src, q),
            decreases src.len() - self.pos(),
        {
            match self._next() {
                Some(c) => {
                    if c == '\n' {
                        return;
                    }
                },
                None => return,
            }
        }
    }

    /// Consumes a block comment whose `/*` is at the cursor, with nested
    /// comments, through the `*/` that closes it.
    fn parse_block_comment(&mut self) -> (r: Result<(), LexerError>)
        requires
            old(self).wf(),
            old(self).pos() < old(self).source().len(),
            unit(old(self).source(), old(self).pos()) == '/',
            after(old(self).source(), old(self).pos()) == Some('*'),
        ensures
            final(self).wf(),
            final(self).source() == old(self).source(),
            final(self).text_spec() == old(self).text_spec(),
            final(self).state_spec() == old(self).state_spec(),
            match block_comment_end(old(self).source(), old(self).pos() + 2, 1) {
                Some(e) => r is Ok && final(self).pos() == e,
                None => final(self).pos() == old(self).source().len() && (r matches Err(e) && {
                    &&& e.msg@ == "Unterminated block comment"@
                    &&& e.location matches Some(loc) && {
                        &&& loc.text == old(self).text_spec()
                        &&& loc.line == line_at(old(self).source(), old(self).source().len() as int)
                        &&& loc.start_char == col_at(old(self).source(), old(self).source().len() as int)
                        &&& loc.end_char == col_at(old(self).source(), old(self).source().len() as int)
                    }
                }),
            },
    {
        let ghost src = self.source();
        let ghost q = self.pos();
        self._skip(2);
        let mut depth: usize = 1;
        loop
            invariant
                self.wf(),
                src == old(self).source(),
                q == old(self).pos(),
                self.source() == src,
                self.text_spec() == old(self).text_spec(),
                self.state_spec() == old(self).state_spec(),
                q + 2 <= self.pos() <= src.len(),
                1 <= depth <= self.pos(),
                block_comment_end(src, self.pos(), depth as nat) == block_comment_end(src, q + 2, 1),
            decreases src.len() - self.pos(),
        {
            let c = match self._peek() {
                Some(c) => c,
                None => {
                    return Err(
                        LexerError::from_location(
                            "Unterminated block comment".to_string(),
                            self.get_location(),
                        ),
                    );
                },
            };
            if self.is_end_of_block_comment(c) {
                self._skip(2);
                if depth == 1 {
                    return Ok(());
                }
                depth = depth - 1;
            } else if self.is_start_of_block_comment(c) {
                self._skip(2);
                depth = depth + 1;
            } else {
                self._next();
            }
        }
    }

    /// Consumes the operator or punctuation starting with `c`, the unit at
    /// the cursor, by longest match.
    fn parse_operator(&mut self, c: char) -> (r: Option<TokenKind>)
        requires
            old(self).wf(),
            old(self).pos() < old(self).source().len(),
            c == unit(old(self).source(), old(self).pos()),
        ensures
            final(self).wf(),
            final(self).source() == old(self).source(),
            final(self).text_spec() == old(self).text_spec(),
            final(self).state_spec() == old(self).state_spec(),
            r == operator_of(c, after(old(self).source(), old(self).pos())),
            final(self).pos() == scan_operator(old(self).source(), old(self).pos()).end(),
    {
        self._next();
        let peek = self._peek();
        let kind = TokenKind::parse_operator(c, peek);
        if kind.is_some() {
            if let Some(d) = peek {
                if TokenKind::pair_operator(c, d).is_some() {
                    self._next();
                }
            }
        }
        kind
    }

    /// Produces the next token. Whitespace is skipped; a comment is consumed
    /// and gives `None` with the tokenizer still `Lexing`; at the end of the
    /// text the tokenizer turns `Done` and gives `None` from then on.
    pub fn next_token(&mut self) -> (r: Option<Result<Token, LexerError>>)
        requires
            old(self).wf(),
        ensures
            final(self).wf(),
            final(self).source() == old(self).source(),
            final(self).text_spec() == old(self).text_spec(),
            old(self).state_spec() == LexerState::Done ==> {
                &&& r is None
                &&& final(self).state_spec() == LexerState::Done
                &&& final(self).pos() == old(self).pos()
            },
            old(self).state_spec() != LexerState::Done ==> {
                let src = old(self).source();
                let q = skip_ws(src, old(self).pos());
                if q >= src.len() {
                    &&& r is None
                    &&& final(self).state_spec() == LexerState::Done
                    &&& final(self).pos() == q
                } else {
                    &&& final(self).state_spec() == LexerState::Lexing
                    &&& final(self).pos() == scan_at(src, q).end()
                    &&& if scan_at(src, q) is Skipped {
                        r is None
                    } else {
                        r matches Some(res) && reports(res, scan_at(src, q), src, q, old(self).text_spec())
                    }
                }
            },
    {
        if self.state == LexerState::Done {
            return None;
        }
        self.skip_whitespace();
        let c = match self._peek() {
            Some(c) => c,
            None => {
                self.state = LexerState::Done;
                return None;
            },
        };
        self.state = LexerState::Lexing;
        if self.is_start_of_block_comment(c) {
            return match self.parse_block_comment() {
                Ok(()) => None,
                Err(e) => Some(Err(e)),
            };
        }
        if self.is_start_of_line_comment(c) {
            self.parse_line_comment();
            return None;
        }
        if self.is_start_of_string(c) {
            return Some(self.parse_string());
        }
        if self.is_start_of_char(c) {
            return Some(self.parse_char());
        }
        if self.is_start_of_number(c) {
            return Some(self.parse_number());
        }
        if self.is_start_of_identifier(c) {
            return Some(Ok(self.parse_identifier()));
        }
        let line = self.iter.line();
        let start_char = self.iter.char();
        match self.parse_operator(c) {
            Some(kind) => {
                let end_char = self.iter.char();
                Some(Ok(Token { kind, lexeme: String::new(), line, start_char, end_char }))
            },
            None => Some(
                Err(LexerError::from_location("Invalid operator".to_string(), self.get_location())),
            ),
        }
    }
}

} // verus!
