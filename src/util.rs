use vstd::prelude::*;

verus! {

/// The character that the escape `\c` stands for, if `c` names an escape.
pub open spec fn escape_of(c: char) -> Option<char> {
    if c == '0' {
        Some('\0')
    } else if c == 'a' {
        Some('\x07')
    } else if c == 'b' {
        Some('\x08')
    } else if c == 'f' {
        Some('\x0C')
    } else if c == 'n' {
        Some('\n')
    } else if c == 't' {
        Some('\t')
    } else if c == 'r' {
        Some('\r')
    } else if c == 'v' {
        Some('\x0B')
    } else if c == '\\' {
        Some('\\')
    } else if c == '\'' {
        Some('\'')
    } else if c == '"' {
        Some('"')
    } else {
        None
    }
}

/// Resolves the character that follows a backslash in a string or char
/// literal; `None` for an unknown escape.
pub fn resolve_escape_sequence(c: char) -> (r: Option<char>)
    ensures
        r == escape_of(c),
{
    match c {
        '0' => Some('\0'),
        'a' => Some('\x07'),
        'b' => Some('\x08'),
        'f' => Some('\x0C'),
        'n' => Some('\n'),
        't' => Some('\t'),
        'r' => Some('\r'),
        'v' => Some('\x0B'),
        '\\' => Some('\\'),
        '\'' => Some('\''),
        '"' => Some('"'),
        _ => None,
    }
}

/// The lines of `s`, split at each line feed; the last may be empty.
pub open spec fn split_lines(s: Seq<char>) -> Seq<Seq<char>>
    decreases s.len(),
{
    if s.len() == 0 {
        seq![Seq::empty()]
    } else {
        let prev = split_lines(s.drop_last());
        if s.last() == '\n' {
            prev.push(Seq::empty())
        } else {
            prev.update(prev.len() - 1, prev.last().push(s.last()))
        }
    }
}

proof fn lemma_split_lines_nonempty(s: Seq<char>)
    ensures
        split_lines(s).len() >= 1,
    decreases s.len(),
{
    if s.len() > 0 {
        lemma_split_lines_nonempty(s.drop_last());
    }
}

proof fn lemma_split_lines_push(s: Seq<char>, c: char)
    ensures
        split_lines(s.push(c)) == if c == '\n' {
            split_lines(s).push(Seq::empty())
        } else {
            split_lines(s).update(split_lines(s).len() - 1, split_lines(s).last().push(c))
        },
{
    assert(s.push(c).drop_last() =~= s);
}

/// Line `row` (1-based) of `s` as a diagnostic shows it: without its
/// `\r\n` or `\n` ending, tabs shown as spaces; empty past the last line.
pub open spec fn error_line(s: Seq<char>, row: nat) -> Seq<char> {
    let ls = split_lines(s);
    let k = row - 1;
    if 1 <= row && k < ls.len() {
        let l = ls[k];
        let shown = if k + 1 < ls.len() && l.len() > 0 && l.last() == '\r' {
            l.drop_last()
        } else {
            l
        };
        shown.map_values(|c: char| if c == '\t' { ' ' } else { c })
    } else {
        Seq::empty()
    }
}

/// The source line `row` (1-based) of `text`, for rendering a diagnostic.
pub fn get_error_line(text: &str, row: usize) -> (r: String)
    requires
        row >= 1,
    ensures
        r@ == error_line(text@, row as nat),
{
    let k = row - 1;
    let mut cur: usize = 0;
    let mut buf: Vec<char> = Vec::new();
    let ghost mut seen: Seq<char> = Seq::empty();
    for c in it: text.chars()
        invariant
            it.seq() == text@,
            seen == text@.take(it.index()),
            k == row - 1,
            cur <= k + 1,
            cur < k + 1 ==> cur + 1 == split_lines(seen).len(),
            cur == k + 1 ==> split_lines(seen).len() > k + 1,
            cur < k ==> buf@.len() == 0,
            cur == k ==> buf@ == split_lines(seen)[k as int],
            cur == k + 1 ==> buf@ == split_lines(seen)[k as int],
    {
        proof {
            lemma_split_lines_push(seen, c);
            lemma_split_lines_nonempty(seen);
        }
        if c == '\n' {
            if cur <= k {
                cur = cur + 1;
            }
        } else if cur == k {
            buf.push(c);
        }
        proof {
            seen = seen.push(c);
        }
    }
    assert(seen =~= text@);
    proof {
        lemma_split_lines_nonempty(text@);
    }
    let ghost ls = split_lines(text@);
    if cur == k + 1 && buf.len() > 0 && buf[buf.len() - 1] == '\r' {
        buf.pop();
        assert(buf@ =~= ls[k as int].drop_last());
    }
    assert(cur < k ==> error_line(text@, row as nat) == Seq::<char>::empty());
    assert(cur >= k ==> buf@ == (if k + 1 < ls.len() && ls[k as int].len() > 0 && ls[k as int].last() == '\r' {
        ls[k as int].drop_last()
    } else {
        ls[k as int]
    }));
    let mut line = String::new();
    let mut i: usize = 0;
    while i < buf.len()
        invariant
            i <= buf.len(),
            line@ =~= buf@.take(i as int).map_values(|c: char| if c == '\t' { ' ' } else { c }),
        decreases buf.len() - i,
    {
        let c = buf[i];
        push_char(&mut line, if c == '\t' { ' ' } else { c });
        i = i + 1;
        assert(buf@.take(i as int) =~= buf@.take(i - 1).push(c));
    }
    assert(buf@.take(buf.len() as int) =~= buf@);
    line
}

/// Relies on `String::push`: the character is appended at the end.
#[verifier::external_body]
pub(crate) fn push_char(s: &mut String, c: char)
    ensures
        final(s)@ == old(s)@.push(c),
{
    s.push(c)
}

} // verus!
