use vstd::prelude::*;

verus! {

/// Where in a source text something was found: a 1-based line and a
/// 1-based column span on it, with the whole text kept for rendering.
#[derive(Debug, Clone)]
pub struct SourceCodeLocation {
    pub text: String,
    pub line: usize,
    pub start_char: usize,
    pub end_char: usize,
}

impl SourceCodeLocation {
    pub fn new(text: String, line: usize, start_char: usize, end_char: usize) -> (r: Self)
        ensures
            r.text == text,
            r.line == line,
            r.start_char == start_char,
            r.end_char == end_char,
    {
        SourceCodeLocation { text, line, start_char, end_char }
    }
}

} // verus!
