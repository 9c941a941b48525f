//! Telling text files from others by the first bytes of a file.

use vstd::prelude::*;

verus! {

/// How many leading bytes of a file are looked at.
pub const PEEK_LEN: usize = 128;

/// The share of printable bytes, in percent, below which a sample is not text.
pub const PRINTABLE_PERCENT: usize = 70;

/// A printable ASCII byte: from the space to the tilde.
pub open spec fn is_printable(b: u8) -> bool {
    0x20 <= b <= 0x7e
}

/// A byte that text does not hold: NUL, or another control byte that is
/// neither a tab, a line break, a vertical tab or a form feed.
pub open spec fn is_binary_marker(b: u8) -> bool {
    b < 0x09 || (0x0d < b && b < 0x20)
}

/// The number of printable bytes in `s`.
pub open spec fn printable_count(s: Seq<u8>) -> nat
    decreases s.len(),
{
    if s.len() == 0 {
        0
    } else {
        printable_count(s.drop_last()) + if is_printable(s.last()) { 1nat } else { 0nat }
    }
}

/// Some byte of `s` is a binary marker.
pub open spec fn has_binary_marker(s: Seq<u8>) -> bool {
    exists|i: int| 0 <= i < s.len() && is_binary_marker(#[trigger] s[i])
}

/// The part of a sample that is looked at: its first `PEEK_LEN` bytes.
pub open spec fn peeked(sample: Seq<u8>) -> Seq<u8> {
    if sample.len() <= PEEK_LEN {
        sample
    } else {
        sample.take(PEEK_LEN as int)
    }
}

/// At least `PRINTABLE_PERCENT` percent of the bytes of `s` are printable.
pub open spec fn mostly_printable(s: Seq<u8>) -> bool {
    printable_count(s) * 100 >= PRINTABLE_PERCENT * s.len()
}

/// The sample is taken for the start of a text file: it is not empty, holds no
/// binary marker among the bytes looked at, and enough of them are printable.
pub open spec fn looks_like_text(sample: Seq<u8>) -> bool {
    &&& sample.len() > 0
    &&& !has_binary_marker(peeked(sample))
    &&& mostly_printable(peeked(sample))
}

/// A NUL byte among the bytes looked at makes the sample binary.
pub proof fn lemma_nul_is_not_text(sample: Seq<u8>, i: int)
    requires
        0 <= i < sample.len(),
        i < PEEK_LEN,
        sample[i] == 0,
    ensures
        !looks_like_text(sample),
{
    assert(is_binary_marker(peeked(sample)[i]));
}

/// Too small a share of printable bytes makes the sample binary.
pub proof fn lemma_unprintable_is_not_text(sample: Seq<u8>)
    requires
        printable_count(peeked(sample)) * 100 < PRINTABLE_PERCENT * peeked(sample).len(),
    ensures
        !looks_like_text(sample),
{
}

/// Decides whether a file that starts with `sample` is read as text.
pub fn is_text_sample(sample: &[u8]) -> (text: bool)
    ensures
        text == looks_like_text(sample@),
{
    let n: usize = if sample.len() <= PEEK_LEN { sample.len() } else { PEEK_LEN };
    if n == 0 {
        return false;
    }
    let ghost head = peeked(sample@);
    let mut printable: usize = 0;
    let mut i: usize = 0;
    while i < n
        invariant
            i <= n,
            n == head.len(),
            n <= PEEK_LEN,
            head == peeked(sample@),
            n <= sample@.len(),
            printable == printable_count(head.take(i as int)),
            printable <= i,
            !has_binary_marker(head.take(i as int)),
        decreases n - i,
    {
        let b = sample[i];
        assert(b == head[i as int]);
        if b < 0x09 || (0x0d < b && b < 0x20) {
            assert(is_binary_marker(head[i as int]));
            return false;
        }
        assert(head.take(i + 1).drop_last() == head.take(i as int));
        assert forall|k: int| 0 <= k < i + 1 implies !is_binary_marker(#[trigger] head.take(i + 1)[k]) by {
            if k < i {
                assert(head.take(i as int)[k] == head.take(i + 1)[k]);
            }
        }
        if 0x20 <= b && b <= 0x7e {
            printable = printable + 1;
        }
        i = i + 1;
    }
    assert(head.take(n as int) == head);
    printable * 100 >= PRINTABLE_PERCENT * n
}

} // verus!
