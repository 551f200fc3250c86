//! Strings as rows of characters, white space, and trimming.

use vstd::prelude::*;
use vstd::string::*;

verus! {

/// `String::push` appends one character.
pub assume_specification[ String::push ](s: &mut String, ch: char)
    ensures
        final(s)@ == old(s)@.push(ch),
;

/// The characters of `s`, in order.
pub fn to_chars(s: &str) -> (v: Vec<char>)
    ensures
        v@ == s@,
{
    let mut v: Vec<char> = Vec::new();
    for c in it: s.chars()
        invariant
            it.seq() == s@,
            v@ == it.seq().take(it.index() as int),
    {
        v.push(c);
    }
    v
}

/// The string made of the characters `v[from..to]`.
pub fn to_text(v: &Vec<char>, from: usize, to: usize) -> (s: String)
    requires
        from <= to <= v.len(),
    ensures
        s@ == v@.subrange(from as int, to as int),
{
    let mut s = String::new();
    let mut i: usize = from;
    while i < to
        invariant
            from <= i <= to <= v.len(),
            s@ == v@.subrange(from as int, i as int),
        decreases to - i,
    {
        s.push(v[i]);
        i += 1;
    }
    s
}

/// The characters with the Unicode property `White_Space`.
pub open spec fn is_whitespace(c: char) -> bool {
    let n = c as u32;
    ||| 0x09 <= n <= 0x0D
    ||| n == 0x20
    ||| n == 0x85
    ||| n == 0xA0
    ||| n == 0x1680
    ||| 0x2000 <= n <= 0x200A
    ||| n == 0x2028
    ||| n == 0x2029
    ||| n == 0x202F
    ||| n == 0x205F
    ||| n == 0x3000
}

/// Whether `c` is white space.
pub fn is_space(c: char) -> (b: bool)
    ensures
        b == is_whitespace(c),
{
    let n: u32 = c as u32;
    (0x09 <= n && n <= 0x0D) || n == 0x20 || n == 0x85 || n == 0xA0 || n == 0x1680 || (0x2000 <= n
        && n <= 0x200A) || n == 0x2028 || n == 0x2029 || n == 0x202F || n == 0x205F || n == 0x3000
}

/// `s` without its leading white space.
pub open spec fn trim_start(s: Seq<char>) -> Seq<char>
    decreases s.len(),
{
    if s.len() > 0 && is_whitespace(s[0]) {
        trim_start(s.skip(1))
    } else {
        s
    }
}

/// `s` without its trailing white space.
pub open spec fn trim_end(s: Seq<char>) -> Seq<char>
    decreases s.len(),
{
    if s.len() > 0 && is_whitespace(s.last()) {
        trim_end(s.drop_last())
    } else {
        s
    }
}

/// `s` without its leading and trailing white space. White space inside the
/// text is kept as it is.
pub open spec fn trim(s: Seq<char>) -> Seq<char> {
    trim_end(trim_start(s))
}

/// The bounds of the trimmed part of `v[from..to]`.
pub fn trim_range(v: &Vec<char>, from: usize, to: usize) -> (r: (usize, usize))
    requires
        from <= to <= v.len(),
    ensures
        from <= r.0 <= r.1 <= to,
        trim(v@.subrange(from as int, to as int)) == v@.subrange(r.0 as int, r.1 as int),
{
    let ghost part = v@.subrange(from as int, to as int);
    let mut a: usize = from;
    assert(part.skip(0) =~= part);
    while a < to && is_space(v[a])
        invariant
            from <= a <= to <= v.len(),
            part == v@.subrange(from as int, to as int),
            trim_start(part) == trim_start(part.skip(a - from)),
        decreases to - a,
    {
        assert(part.skip(a - from).skip(1) =~= part.skip(a - from + 1));
        a += 1;
    }
    assert(trim_start(part) == part.skip(a - from));
    let mut b: usize = to;
    assert(part.skip(a - from) =~= v@.subrange(a as int, b as int));
    while b > a && is_space(v[b - 1])
        invariant
            from <= a <= b <= to <= v.len(),
            trim(part) == trim_end(v@.subrange(a as int, b as int)),
        decreases b,
    {
        assert(v@.subrange(a as int, b as int).drop_last() =~= v@.subrange(a as int, b as int - 1));
        b -= 1;
    }
    (a, b)
}

/// The trimmed text of `s`.
pub fn trimmed(s: &str) -> (t: String)
    ensures
        t@ == trim(s@),
{
    let v = to_chars(s);
    let (a, b) = trim_range(&v, 0, v.len());
    assert(v@.subrange(0, v@.len() as int) =~= v@);
    to_text(&v, a, b)
}

/// Whether two strings hold the same text.
pub fn same_text(a: &str, b: &str) -> (same: bool)
    ensures
        same == (a@ == b@),
{
    let x = to_chars(a);
    let y = to_chars(b);
    if x.len() != y.len() {
        return false;
    }
    let mut i: usize = 0;
    while i < x.len()
        invariant
            x@ == a@,
            y@ == b@,
            x.len() == y.len(),
            i <= x.len(),
            x@.take(i as int) == y@.take(i as int),
        decreases x.len() - i,
    {
        if x[i] != y[i] {
            assert(x@[i as int] != y@[i as int]);
            return false;
        }
        assert(x@.take(i + 1) =~= x@.take(i as int).push(x@[i as int]));
        assert(y@.take(i + 1) =~= y@.take(i as int).push(y@[i as int]));
        i += 1;
    }
    assert(x@.take(i as int) =~= x@);
    assert(y@.take(i as int) =~= y@);
    true
}

/// `s` without its last character; an empty text stays empty.
pub open spec fn chopped(s: Seq<char>) -> Seq<char> {
    if s.len() > 0 {
        s.drop_last()
    } else {
        s
    }
}

/// The text of `s` without its last character.
pub fn without_last(s: &str) -> (t: String)
    ensures
        t@ == chopped(s@),
{
    let v = to_chars(s);
    if v.len() == 0 {
        return String::new();
    }
    let t = to_text(&v, 0, v.len() - 1);
    assert(v@.subrange(0, v@.len() - 1) =~= v@.drop_last());
    t
}

/// Every character of `s` is white space.
pub open spec fn is_blank(s: Seq<char>) -> bool {
    forall|i: int| 0 <= i < s.len() ==> is_whitespace(#[trigger] s[i])
}

/// White space before a text is trimmed away with the text's own leading
/// white space.
pub proof fn lemma_trim_start_margin(margin: Seq<char>, s: Seq<char>)
    requires
        is_blank(margin),
    ensures
        trim_start(margin + s) == trim_start(s),
    decreases margin.len(),
{
    if margin.len() == 0 {
        assert(margin + s =~= s);
    } else {
        assert((margin + s)[0] == margin[0]);
        assert((margin + s).skip(1) =~= margin.skip(1) + s);
        lemma_trim_start_margin(margin.skip(1), s);
    }
}

/// White space after a text is trimmed away with the text's own trailing
/// white space.
pub proof fn lemma_trim_end_margin(s: Seq<char>, margin: Seq<char>)
    requires
        is_blank(margin),
    ensures
        trim_end(s + margin) == trim_end(s),
    decreases margin.len(),
{
    if margin.len() == 0 {
        assert(s + margin =~= s);
    } else {
        assert((s + margin).last() == margin.last());
        assert((s + margin).drop_last() =~= s + margin.drop_last());
        lemma_trim_end_margin(s, margin.drop_last());
    }
}

/// Trimming the start of a text that is followed by more: what follows is
/// reached only where the text itself is all white space.
pub proof fn lemma_trim_start_append(s: Seq<char>, more: Seq<char>)
    ensures
        trim_start(s + more) == if trim_start(s).len() == 0 {
            trim_start(more)
        } else {
            trim_start(s) + more
        },
    decreases s.len(),
{
    if s.len() == 0 {
        assert(s + more =~= more);
    } else {
        assert((s + more)[0] == s[0]);
        if is_whitespace(s[0]) {
            assert((s + more).skip(1) =~= s.skip(1) + more);
            lemma_trim_start_append(s.skip(1), more);
        }
    }
}

/// White space around a text makes no difference to what is left of it
/// after trimming.
pub proof fn lemma_trim_margins(before: Seq<char>, s: Seq<char>, after: Seq<char>)
    requires
        is_blank(before),
        is_blank(after),
    ensures
        trim(before + s + after) == trim(s),
{
    assert(before + s + after =~= before + (s + after));
    lemma_trim_start_margin(before, s + after);
    lemma_trim_start_append(s, after);
    if trim_start(s).len() == 0 {
        lemma_trim_start_margin(after, Seq::empty());
        assert(after + Seq::<char>::empty() =~= after);
    } else {
        lemma_trim_end_margin(trim_start(s), after);
    }
}

} // verus!
