//! The lines of a text, and texts joined into one.

use vstd::prelude::*;
use vstd::string::*;
use crate::text::chars::{to_chars, to_text};

verus! {

/// The length of the first line of `s`: the position of its first line feed,
/// or the length of `s` where it has none.
pub open spec fn line_end(s: Seq<char>) -> nat
    decreases s.len(),
{
    if s.len() == 0 || s[0] == '\n' {
        0
    } else {
        (1 + line_end(s.skip(1))) as nat
    }
}

/// `s` without one carriage return at its end.
pub open spec fn without_cr(s: Seq<char>) -> Seq<char> {
    if s.len() > 0 && s.last() == '\r' {
        s.drop_last()
    } else {
        s
    }
}

/// The lines of `s`. A line ends at a line feed, which is not part of it, nor
/// is a carriage return directly before that line feed. What follows the last
/// line feed is a line of its own unless it is empty, and is kept as it is.
pub open spec fn lines(s: Seq<char>) -> Seq<Seq<char>>
    decreases s.len(),
{
    if s.len() == 0 {
        Seq::empty()
    } else {
        let k = line_end(s);
        if k >= s.len() {
            seq![s]
        } else {
            seq![without_cr(s.take(k as int))] + lines(s.skip(k as int + 1))
        }
    }
}

/// `line_end(s)` is `k` where no line feed stands before `k` and one stands at
/// `k`, or `s` ends there.
pub proof fn lemma_line_end(s: Seq<char>, k: int)
    requires
        0 <= k <= s.len(),
        forall|j: int| 0 <= j < k ==> s[j] != '\n',
        k == s.len() || s[k] == '\n',
    ensures
        line_end(s) == k,
    decreases k,
{
    if k > 0 {
        lemma_line_end(s.skip(1), k - 1);
    }
}

/// The pieces of `text` that `spans` cuts out, span by span.
pub open spec fn cut_out(text: Seq<char>, spans: Seq<(usize, usize)>) -> Seq<Seq<char>> {
    Seq::new(spans.len(), |i: int| text.subrange(spans[i].0 as int, spans[i].1 as int))
}

/// Every span lies within a text of length `len`.
pub open spec fn spans_within(spans: Seq<(usize, usize)>, len: nat) -> bool {
    forall|i: int| 0 <= i < spans.len() ==> (#[trigger] spans[i]).0 <= spans[i].1 <= len
}

/// Where each line of `v` begins and ends.
pub fn line_spans(v: &Vec<char>) -> (spans: Vec<(usize, usize)>)
    ensures
        spans_within(spans@, v@.len()),
        cut_out(v@, spans@) == lines(v@),
{
    let mut spans: Vec<(usize, usize)> = Vec::new();
    let n = v.len();
    let mut start: usize = 0;
    let mut i: usize = 0;
    assert(v@.skip(0) =~= v@);
    assert(cut_out(v@, spans@) =~= Seq::<Seq<char>>::empty());
    while i < n
        invariant
            n == v.len(),
            start <= i <= n,
            spans_within(spans@, v@.len()),
            forall|j: int| start <= j < i ==> v@[j] != '\n',
            lines(v@) == cut_out(v@, spans@) + lines(v@.skip(start as int)),
        decreases n - i,
    {
        if v[i] == '\n' {
            let ghost rest = v@.skip(start as int);
            let end: usize = if i > start && v[i - 1] == '\r' {
                i - 1
            } else {
                i
            };
            proof {
                lemma_line_end(rest, i - start);
                assert(rest.take(i - start) =~= v@.subrange(start as int, i as int));
                assert(without_cr(rest.take(i - start)) =~= v@.subrange(start as int, end as int));
                assert(rest.skip(i - start + 1) =~= v@.skip(i + 1));
                assert(cut_out(v@, spans@.push((start, end))) =~= cut_out(v@, spans@).push(
                    v@.subrange(start as int, end as int),
                ));
            }
            spans.push((start, end));
            start = i + 1;
        }
        i += 1;
    }
    if start < n {
        proof {
            let rest = v@.skip(start as int);
            lemma_line_end(rest, n - start);
            assert(rest =~= v@.subrange(start as int, n as int));
            assert(cut_out(v@, spans@.push((start, n))) =~= cut_out(v@, spans@).push(rest));
        }
        spans.push((start, n));
    }
    spans
}

/// The texts of `parts` in a row, with `sep` between each two.
pub open spec fn join(parts: Seq<Seq<char>>, sep: Seq<char>) -> Seq<char>
    decreases parts.len(),
{
    if parts.len() == 0 {
        Seq::empty()
    } else if parts.len() == 1 {
        parts[0]
    } else {
        join(parts.drop_last(), sep) + sep + parts.last()
    }
}

/// Joining one part more: the separator comes only after a first part.
pub proof fn lemma_join_push(parts: Seq<Seq<char>>, sep: Seq<char>, part: Seq<char>)
    ensures
        join(parts.push(part), sep) == if parts.len() == 0 {
            part
        } else {
            join(parts, sep) + sep + part
        },
{
    assert(parts.push(part).drop_last() =~= parts);
}

/// The views of a row of strings.
pub open spec fn texts(v: Seq<String>) -> Seq<Seq<char>> {
    Seq::new(v.len(), |i: int| v[i]@)
}

/// The strings of `parts` in a row, with `sep` between each two.
pub fn join_strings(parts: &Vec<String>, sep: &str) -> (s: String)
    ensures
        s@ == join(texts(parts@), sep@),
{
    let mut s = String::new();
    let mut i: usize = 0;
    assert(texts(parts@).take(0) =~= Seq::<Seq<char>>::empty());
    while i < parts.len()
        invariant
            i <= parts.len(),
            s@ == join(texts(parts@).take(i as int), sep@),
        decreases parts.len() - i,
    {
        proof {
            lemma_join_push(texts(parts@).take(i as int), sep@, parts@[i as int]@);
            assert(texts(parts@).take(i + 1) =~= texts(parts@).take(i as int).push(
                parts@[i as int]@,
            ));
        }
        if i > 0 {
            s.append(sep);
        }
        s.append(parts[i].as_str());
        i += 1;
    }
    assert(texts(parts@).take(i as int) =~= texts(parts@));
    s
}

/// The lines of `s`, each as a string of its own.
pub fn split_lines(s: &str) -> (out: Vec<String>)
    ensures
        texts(out@) == lines(s@),
{
    let v = to_chars(s);
    let spans = line_spans(&v);
    let mut out: Vec<String> = Vec::new();
    let mut i: usize = 0;
    while i < spans.len()
        invariant
            i <= spans.len(),
            spans_within(spans@, v@.len()),
            texts(out@) == cut_out(v@, spans@).take(i as int),
        decreases spans.len() - i,
    {
        let (a, b) = spans[i];
        let line = to_text(&v, a, b);
        let ghost before = texts(out@);
        out.push(line);
        proof {
            assert(texts(out@) =~= before.push(line@));
            assert(cut_out(v@, spans@).take(i + 1) =~= cut_out(v@, spans@).take(i as int).push(
                cut_out(v@, spans@)[i as int],
            ));
        }
        i += 1;
    }
    assert(cut_out(v@, spans@).take(i as int) =~= cut_out(v@, spans@));
    out
}

/// How many lines `s` has.
pub fn line_count(s: &str) -> (n: usize)
    ensures
        n == lines(s@).len(),
{
    let v = to_chars(s);
    let spans = line_spans(&v);
    spans.len()
}

} // verus!
