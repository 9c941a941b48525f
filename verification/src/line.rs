//! Normalization of a line of text before it becomes a candidate.

use vstd::prelude::*;

verus! {

/// The number of spaces that stand for one tab.
pub const TAB_WIDTH: usize = 4;

/// A control character: below the space, or the delete character.
pub open spec fn is_control(c: char) -> bool {
    (c as u32) < 0x20 || c as u32 == 0x7f
}

/// What one character of a line becomes: a tab becomes `TAB_WIDTH` spaces,
/// any other control character vanishes, every other character stays.
pub open spec fn image(c: char) -> Seq<char> {
    if c == '\t' {
        seq![' ', ' ', ' ', ' ']
    } else if is_control(c) {
        Seq::<char>::empty()
    } else {
        seq![c]
    }
}

/// The normalized form of a line: the images of its characters, in order.
pub open spec fn normalized(s: Seq<char>) -> Seq<char>
    decreases s.len(),
{
    if s.len() == 0 {
        Seq::<char>::empty()
    } else {
        normalized(s.drop_last()) + image(s.last())
    }
}

/// `String::push`: appends one character.
pub assume_specification[ String::push ](s: &mut String, c: char)
    ensures
        final(s)@ == old(s)@.push(c),
;

/// Normalizes a line.
pub fn preprocess_line(line: &str) -> (out: String)
    ensures
        out@ == normalized(line@),
{
    let mut out = String::new();
    for c in it: line.chars()
        invariant
            it.seq() == line@,
            out@ == normalized(line@.take(it.index())),
    {
        assert(line@.take(it.index() + 1).drop_last() == line@.take(it.index()));
        if c == '\t' {
            out.push(' ');
            out.push(' ');
            out.push(' ');
            out.push(' ');
        } else if (c as u32) < 0x20 || c as u32 == 0x7f {
        } else {
            out.push(c);
        }
    }
    assert(line@.take(line@.len() as int) == line@);
    out
}

} // verus!
