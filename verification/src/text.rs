//! Character classes and small helpers on text that the renderers and the
//! credential store share.

use vstd::prelude::*;
use vstd::string::*;

verus! {

/// True for the two characters that end a line.
pub open spec fn is_line_break(c: char) -> bool {
    c == '\n' || c == '\r'
}

/// No character of `s` ends a line.
pub open spec fn line_safe(s: Seq<char>) -> bool {
    forall|i: int| 0 <= i < s.len() ==> !is_line_break(#[trigger] s[i])
}

/// Whether `c` ends a line.
pub fn line_break(c: char) -> (b: bool)
    ensures
        b == is_line_break(c),
{
    c == '\n' || c == '\r'
}

/// Whether no character of `s` ends a line.
pub fn is_line_safe(s: &str) -> (b: bool)
    ensures
        b == line_safe(s@),
{
    let chars = chars_of(s);
    let mut i: usize = 0;
    while i < chars.len()
        invariant
            chars@ == s@,
            i <= chars.len(),
            forall|j: int| 0 <= j < i ==> !is_line_break(#[trigger] s@[j]),
        decreases chars.len() - i,
    {
        if line_break(chars[i]) {
            return false;
        }
        i += 1;
    }
    true
}

/// An owned copy of the characters `from..to` of `s`.
pub fn slice_of(s: &str, from: usize, to: usize) -> (out: String)
    requires
        from <= to <= s@.len(),
    ensures
        out@ == s@.subrange(from as int, to as int),
{
    s.substring_char(from, to).to_owned()
}

/// The characters of `s`, in order.
pub fn chars_of(s: &str) -> (out: Vec<char>)
    ensures
        out@ == s@,
{
    let mut out: Vec<char> = Vec::new();
    for c in it: s.chars()
        invariant
            it.seq() == s@,
            out@ == s@.take(it.index() as int),
    {
        out.push(c);
    }
    out
}

} // verus!
