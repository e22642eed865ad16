use vstd::prelude::*;
use vstd::utf8::encode_utf8;

verus! {

/// 1-based line of the position `pos` in `src`: one more than the number of
/// line feeds before it.
pub open spec fn line_at(src: Seq<u8>, pos: int) -> nat
    decreases pos,
{
    if pos <= 0 {
        1
    } else {
        line_at(src, pos - 1) + if src[pos - 1] == 10u8 { 1nat } else { 0nat }
    }
}

/// 1-based column of the position `pos` in `src`: it restarts at 1 after
/// each line feed.
pub open spec fn col_at(src: Seq<u8>, pos: int) -> nat
    decreases pos,
{
    if pos <= 0 {
        1
    } else if src[pos - 1] == 10u8 {
        1
    } else {
        col_at(src, pos - 1) + 1
    }
}

/// Line and column never run ahead of the number of units consumed.
pub proof fn lemma_line_col_bounded(src: Seq<u8>, pos: int)
    requires
        0 <= pos,
    ensures
        1 <= line_at(src, pos) <= pos + 1,
        1 <= col_at(src, pos) <= pos + 1,
    decreases pos,
{
    if pos > 0 {
        lemma_line_col_bounded(src, pos - 1);
    }
}

/// Non-consuming lookahead over a stream of items.
pub trait PeekableIterator {
    type Item;

    /// The item `n` places ahead of the current position, if any.
    spec fn lookahead(&self, n: int) -> Option<Self::Item>;

    fn peek(&self) -> (r: Option<Self::Item>)
        ensures
            r == self.lookahead(0),
    ;

    fn offset(&self, offset: usize) -> (r: Option<Self::Item>)
        ensures
            r == self.lookahead(offset as int),
    ;
}

/// A forward-only cursor over the bytes of a source text. Each byte is one
/// code unit, read as the `char` of the same value.
pub struct StringIterator<'a> {
    text: &'a String,
    cur: usize,
    cur_char: usize,
    cur_line: usize,
}

impl<'a> StringIterator<'a> {
    /// The code units of the text.
    pub closed spec fn source(&self) -> Seq<u8> {
        encode_utf8(self.text@)
    }

    /// Number of code units consumed so far.
    pub closed spec fn pos(&self) -> int {
        self.cur as int
    }

    pub closed spec fn text_spec(&self) -> &'a String {
        self.text
    }

    /// Well-formedness: the position lies within the text, and line and
    /// column are those of the position.
    pub closed spec fn wf(&self) -> bool {
        &&& self.cur <= self.source().len()
        &&& self.source().len() < usize::MAX
        &&& self.cur_line == line_at(self.source(), self.cur as int)
        &&& self.cur_char == col_at(self.source(), self.cur as int)
    }

    pub fn new(s: &'a String) -> (r: Self)
        requires
            encode_utf8(s@).len() < usize::MAX,
        ensures
            r.text_spec() == s,
            r.source() == encode_utf8(s@),
            r.pos() == 0,
            r.wf(),
    {
        StringIterator { text: s, cur: 0, cur_char: 1, cur_line: 1 }
    }

    pub fn text(&self) -> (r: &String)
        ensures
            r == self.text_spec(),
    {
        self.text
    }

    /// Column of the next unconsumed position.
    pub fn char(&self) -> (r: usize)
        requires
            self.wf(),
        ensures
            r == col_at(self.source(), self.pos()),
    {
        self.cur_char
    }

    /// Line of the next unconsumed position.
    pub fn line(&self) -> (r: usize)
        requires
            self.wf(),
        ensures
            r == line_at(self.source(), self.pos()),
    {
        self.cur_line
    }

    /// Bounds that every well-formed cursor satisfies.
    pub proof fn lemma_bounds(&self)
        requires
            self.wf(),
        ensures
            0 <= self.pos() <= self.source().len() < usize::MAX,
    {
    }

    /// Consumes one code unit. Consuming a line feed moves to column 1 of the
    /// next line; any other unit moves one column right. At the end of the
    /// text nothing changes.
    pub fn next(&mut self) -> (r: Option<char>)
        requires
            old(self).wf(),
        ensures
            final(self).wf(),
            final(self).source() == old(self).source(),
            final(self).text_spec() == old(self).text_spec(),
            final(self).pos() <= final(self).source().len(),
            old(self).pos() < old(self).source().len() ==> {
                &&& r == Some(old(self).source()[old(self).pos()] as char)
                &&& final(self).pos() == old(self).pos() + 1
            },
            old(self).pos() >= old(self).source().len() ==> {
                &&& r is None
                &&& final(self).pos() == old(self).pos()
            },
    {
        let bytes = self.text.as_str().as_bytes();
        if self.cur >= bytes.len() {
            return None;
        }
        let b = bytes[self.cur];
        proof {
            lemma_line_col_bounded(self.source(), self.cur as int + 1);
        }
        let as_char = b as char;
        let (line, column) = if as_char == '\n' {
            (self.cur_line + 1, 1)
        } else {
            (self.cur_line, self.cur_char + 1)
        };
        *self = StringIterator { text: self.text, cur: self.cur + 1, cur_char: column, cur_line: line };
        Some(as_char)
    }
}

impl<'a> PeekableIterator for StringIterator<'a> {
    type Item = char;

    open spec fn lookahead(&self, n: int) -> Option<char> {
        if 0 <= n && self.pos() + n < self.source().len() {
            Some(self.source()[self.pos() + n] as char)
        } else {
            None
        }
    }

    fn peek(&self) -> (r: Option<char>) {
        self.offset(0)
    }

    fn offset(&self, offset: usize) -> (r: Option<char>) {
        let bytes = self.text.as_str().as_bytes();
        if self.cur >= bytes.len() || offset >= bytes.len() - self.cur {
            return None;
        }
        Some(bytes[self.cur + offset] as char)
    }
}

} // verus!
