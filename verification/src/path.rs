//! Display paths: a path relative to the working directory, and the decimal
//! form of a line number that is joined to it.

use vstd::prelude::*;

verus! {

/// What is left of `path` behind `base`, without one leading separator.
pub open spec fn remainder(path: Seq<char>, base: Seq<char>) -> Seq<char> {
    let rest = path.skip(base.len() as int);
    if rest.len() > 0 && rest[0] == '/' {
        rest.skip(1)
    } else {
        rest
    }
}

/// `path` names something below the directory `base`: `base` is a prefix of
/// it that ends at a separator, and something is left behind it.
pub open spec fn is_under(path: Seq<char>, base: Seq<char>) -> bool {
    &&& 0 < base.len() < path.len()
    &&& base.is_prefix_of(path)
    &&& (base.last() == '/' || path[base.len() as int] == '/')
    &&& remainder(path, base).len() > 0
}

/// The path as it is shown: relative to `base` where it lies below `base`,
/// unchanged otherwise.
pub open spec fn relative_to(path: Seq<char>, base: Seq<char>) -> Seq<char> {
    if is_under(path, base) {
        remainder(path, base)
    } else {
        path
    }
}

/// The decimal digit for `d`.
pub open spec fn digit(d: nat) -> char
    recommends
        d < 10,
{
    if d == 0 {
        '0'
    } else if d == 1 {
        '1'
    } else if d == 2 {
        '2'
    } else if d == 3 {
        '3'
    } else if d == 4 {
        '4'
    } else if d == 5 {
        '5'
    } else if d == 6 {
        '6'
    } else if d == 7 {
        '7'
    } else if d == 8 {
        '8'
    } else {
        '9'
    }
}

/// The decimal form of `n`, without leading zeros.
pub open spec fn decimal(n: nat) -> Seq<char>
    decreases n,
{
    if n < 10 {
        seq![digit(n)]
    } else {
        decimal(n / 10).push(digit(n % 10))
    }
}

/// The characters of a string.
pub fn chars_of(s: &str) -> (v: Vec<char>)
    ensures
        v@ == s@,
{
    let mut v: Vec<char> = Vec::new();
    for c in it: s.chars()
        invariant
            it.seq() == s@,
            v@ == s@.take(it.index()),
    {
        assert(s@.take(it.index() + 1) == s@.take(it.index()).push(c));
        v.push(c);
    }
    assert(s@.take(s@.len() as int) == s@);
    v
}

/// The string made of the characters of `v` from position `from` on.
pub fn string_from(v: &Vec<char>, from: usize) -> (s: String)
    requires
        from <= v.len(),
    ensures
        s@ == v@.skip(from as int),
{
    let mut s = String::new();
    let mut i: usize = from;
    while i < v.len()
        invariant
            from <= i <= v.len(),
            s@ == v@.subrange(from as int, i as int),
        decreases v.len() - i,
    {
        assert(v@.subrange(from as int, i + 1) == v@.subrange(from as int, i as int).push(v@[i as int]));
        s.push(v[i]);
        i = i + 1;
    }
    assert(v@.subrange(from as int, v.len() as int) == v@.skip(from as int));
    s
}

/// Whether `base` is a prefix of `path`.
pub fn starts_with(path: &Vec<char>, base: &Vec<char>) -> (r: bool)
    ensures
        r == base@.is_prefix_of(path@),
{
    if base.len() > path.len() {
        return false;
    }
    let mut i: usize = 0;
    while i < base.len()
        invariant
            i <= base.len() <= path.len(),
            forall|k: int| 0 <= k < i ==> base@[k] == path@[k],
        decreases base.len() - i,
    {
        if base[i] != path[i] {
            assert(base@.is_prefix_of(path@) ==> base@[i as int] == path@.subrange(0, base@.len() as int)[i as int]);
            return false;
        }
        i = i + 1;
    }
    assert(base@ =~= path@.subrange(0, base@.len() as int));
    true
}

/// Shows `path` relative to the directory `base` where it lies below it.
pub fn relativize(path: &str, base: &str) -> (shown: String)
    ensures
        shown@ == relative_to(path@, base@),
{
    let p = chars_of(path);
    let b = chars_of(base);
    if b.len() == 0 || b.len() >= p.len() || !starts_with(&p, &b) {
        return string_from(&p, 0);
    }
    let at_separator: bool = b[b.len() - 1] == '/' || p[b.len()] == '/';
    let cut: usize = if p[b.len()] == '/' { b.len() + 1 } else { b.len() };
    assert(p@.skip(b@.len() as int).skip(1) == p@.skip(b@.len() as int + 1));
    assert(p@.skip(cut as int) == remainder(p@, b@));
    if at_separator && cut < p.len() {
        string_from(&p, cut)
    } else {
        string_from(&p, 0)
    }
}

/// The decimal digit for `d`.
fn digit_of(d: usize) -> (c: char)
    requires
        d < 10,
    ensures
        c == digit(d as nat),
{
    if d == 0 {
        '0'
    } else if d == 1 {
        '1'
    } else if d == 2 {
        '2'
    } else if d == 3 {
        '3'
    } else if d == 4 {
        '4'
    } else if d == 5 {
        '5'
    } else if d == 6 {
        '6'
    } else if d == 7 {
        '7'
    } else if d == 8 {
        '8'
    } else {
        '9'
    }
}

/// Appends the decimal form of `n` to `s`.
pub fn push_decimal(s: &mut String, n: usize)
    ensures
        final(s)@ == old(s)@ + decimal(n as nat),
    decreases n,
{
    if n >= 10 {
        push_decimal(s, n / 10);
    }
    s.push(digit_of(n % 10));
    assert(old(s)@ + decimal(n as nat) =~= if n < 10 {
        old(s)@.push(digit(n as nat))
    } else {
        (old(s)@ + decimal(n as nat / 10)).push(digit(n as nat % 10))
    });
}

} // verus!
