//! Finding one text in another, and replacing what was found.

use vstd::prelude::*;
use vstd::string::*;
use crate::text::chars::{to_chars, to_text};

verus! {

/// Whether `needle` stands in `hay` at position `i`.
pub open spec fn occurs_at(hay: Seq<char>, needle: Seq<char>, i: int) -> bool {
    &&& 0 <= i
    &&& i + needle.len() <= hay.len()
    &&& hay.subrange(i, i + needle.len()) == needle
}

/// Whether `needle` stands somewhere in `hay`.
pub open spec fn contains(hay: Seq<char>, needle: Seq<char>) -> bool {
    exists|i: int| occurs_at(hay, needle, i)
}

/// Whether `s` begins with `prefix`.
pub open spec fn starts_with(s: Seq<char>, prefix: Seq<char>) -> bool {
    occurs_at(s, prefix, 0)
}

/// Whether `s` ends with `suffix`.
pub open spec fn ends_with(s: Seq<char>, suffix: Seq<char>) -> bool {
    occurs_at(s, suffix, s.len() - suffix.len())
}

/// Whether `needle` stands in `hay[from..to]` at `from + i`.
pub fn matches_at(
    hay: &Vec<char>,
    from: usize,
    to: usize,
    needle: &Vec<char>,
    i: usize,
) -> (b: bool)
    requires
        from <= to <= hay.len(),
    ensures
        b == occurs_at(hay@.subrange(from as int, to as int), needle@, i as int),
{
    let n = to - from;
    if needle.len() > n || i > n - needle.len() {
        return false;
    }
    let ghost part = hay@.subrange(from as int, to as int);
    let mut k: usize = 0;
    while k < needle.len()
        invariant
            from <= to <= hay.len(),
            n == to - from,
            part == hay@.subrange(from as int, to as int),
            i + needle.len() <= n,
            k <= needle.len(),
            part.subrange(i as int, i + k) == needle@.take(k as int),
        decreases needle.len() - k,
    {
        if hay[from + i + k] != needle[k] {
            assert(part.subrange(i as int, i + needle.len())[k as int] == part[i + k]);
            return false;
        }
        assert(part.subrange(i as int, i + k + 1) =~= part.subrange(i as int, i + k).push(
            part[i + k],
        ));
        assert(needle@.take(k + 1) =~= needle@.take(k as int).push(needle@[k as int]));
        k += 1;
    }
    assert(needle@.take(k as int) =~= needle@);
    true
}

/// Whether `needle` stands somewhere in `hay[from..to]`.
pub fn contains_in(hay: &Vec<char>, from: usize, to: usize, needle: &Vec<char>) -> (b: bool)
    requires
        from <= to <= hay.len(),
    ensures
        b == contains(hay@.subrange(from as int, to as int), needle@),
{
    let n = to - from;
    if needle.len() > n {
        return false;
    }
    let ghost part = hay@.subrange(from as int, to as int);
    let last = n - needle.len();
    let mut i: usize = 0;
    while i < last
        invariant
            from <= to <= hay.len(),
            n == to - from,
            part == hay@.subrange(from as int, to as int),
            last == n - needle.len(),
            i <= last,
            forall|j: int| 0 <= j < i ==> !occurs_at(part, needle@, j),
        decreases last - i,
    {
        if matches_at(hay, from, to, needle, i) {
            return true;
        }
        i += 1;
    }
    matches_at(hay, from, to, needle, last)
}

/// `s` with every occurrence of `pattern` replaced by `with`, found from left
/// to right and never overlapping. An empty pattern occurs nowhere.
pub open spec fn replace_all(s: Seq<char>, pattern: Seq<char>, with: Seq<char>) -> Seq<char>
    decreases s.len(),
{
    if pattern.len() == 0 || s.len() < pattern.len() {
        s
    } else if occurs_at(s, pattern, 0) {
        with + replace_all(s.skip(pattern.len() as int), pattern, with)
    } else {
        seq![s[0]] + replace_all(s.skip(1), pattern, with)
    }
}

/// Appends to `out` the text `hay[from..to]` with every occurrence of
/// `pattern` replaced by `with`.
pub fn replace_into(
    out: &mut Vec<char>,
    hay: &Vec<char>,
    from: usize,
    to: usize,
    pattern: &Vec<char>,
    with: &Vec<char>,
)
    requires
        from <= to <= hay.len(),
    ensures
        final(out)@ == old(out)@ + replace_all(
            hay@.subrange(from as int, to as int),
            pattern@,
            with@,
        ),
{
    let ghost part = hay@.subrange(from as int, to as int);
    let ghost start = out@;
    let n = to - from;
    let m = pattern.len();
    let mut i: usize = 0;
    assert(part.skip(0) =~= part);
    while i < n
        invariant
            from <= to <= hay.len(),
            n == to - from,
            m == pattern.len(),
            part == hay@.subrange(from as int, to as int),
            i <= n,
            start + replace_all(part, pattern@, with@) == out@ + replace_all(
                part.skip(i as int),
                pattern@,
                with@,
            ),
        decreases n - i,
    {
        let ghost rest = part.skip(i as int);
        if m > 0 && matches_at(hay, from, to, pattern, i) {
            assert(rest.subrange(0, m as int) =~= part.subrange(i as int, i + m));
            assert(rest.skip(m as int) =~= part.skip(i + m));
            let mut k: usize = 0;
            let ghost before = out@;
            while k < with.len()
                invariant
                    k <= with.len(),
                    out@ == before + with@.take(k as int),
                decreases with.len() - k,
            {
                out.push(with[k]);
                assert(with@.take(k + 1) =~= with@.take(k as int).push(with@[k as int]));
                k += 1;
            }
            assert(with@.take(k as int) =~= with@);
            i += m;
        } else {
            proof {
                if m > 0 && rest.len() >= m {
                    assert(rest.subrange(0, m as int) =~= part.subrange(i as int, i + m));
                }
                assert(rest.skip(1) =~= part.skip(i + 1));
                assert(rest =~= seq![rest[0]] + rest.skip(1));
            }
            out.push(hay[from + i]);
            i += 1;
        }
    }
    assert(part.skip(n as int) =~= Seq::<char>::empty());
}

/// `s` without `prefix` at its start, or `None` where it does not start
/// with it.
pub open spec fn after_prefix(s: Seq<char>, prefix: Seq<char>) -> Option<Seq<char>> {
    if starts_with(s, prefix) {
        Some(s.skip(prefix.len() as int))
    } else {
        None
    }
}

/// What follows `prefix` in `s`.
pub fn strip_prefix(s: &str, prefix: &str) -> (rest: Option<String>)
    ensures
        match rest {
            Some(text) => after_prefix(s@, prefix@) == Some(text@),
            None => after_prefix(s@, prefix@) is None,
        },
{
    let v = to_chars(s);
    let p = to_chars(prefix);
    assert(v@.subrange(0, v@.len() as int) =~= v@);
    if matches_at(&v, 0, v.len(), &p, 0) {
        let text = to_text(&v, p.len(), v.len());
        assert(v@.subrange(p@.len() as int, v@.len() as int) =~= v@.skip(p@.len() as int));
        Some(text)
    } else {
        None
    }
}

} // verus!
