//! Character-level helpers on strings: whitespace, trimming, repeated suffix
//! removal and splitting. Strings are modelled by their sequence of `char`s.

use vstd::prelude::*;
use vstd::string::*;

verus! {

/// Whether `c` is a Unicode `White_Space` code point.
pub open spec fn is_whitespace_spec(c: char) -> bool {
    let n = c as u32;
    ||| 0x09 <= n <= 0x0D
    ||| n == 0x20
    ||| n == 0x85
    ||| n == 0xA0
    ||| n == 0x1680
    ||| 0x2000 <= n <= 0x200A
    ||| n == 0x2028
    ||| n == 0x2029
    ||| n == 0x202F
    ||| n == 0x205F
    ||| n == 0x3000
}

/// `s` without its leading whitespace.
pub open spec fn trim_start_spec(s: Seq<char>) -> Seq<char>
    decreases s.len(),
{
    if s.len() > 0 && is_whitespace_spec(s[0]) {
        trim_start_spec(s.drop_first())
    } else {
        s
    }
}

/// `s` without its trailing whitespace.
pub open spec fn trim_end_spec(s: Seq<char>) -> Seq<char>
    decreases s.len(),
{
    if s.len() > 0 && is_whitespace_spec(s.last()) {
        trim_end_spec(s.drop_last())
    } else {
        s
    }
}

/// `s` without leading and trailing whitespace.
pub open spec fn trim_spec(s: Seq<char>) -> Seq<char> {
    trim_start_spec(trim_end_spec(s))
}

/// Whether `s` ends with `pat`.
pub open spec fn ends_with_spec(s: Seq<char>, pat: Seq<char>) -> bool {
    pat.len() <= s.len() && s.subrange(s.len() - pat.len(), s.len() as int) == pat
}

/// `s` without `pat` at its end where it ends with `pat`, else `s` as it is.
/// The suffix is taken off once, also where it stands there twice.
pub open spec fn without_suffix_spec(s: Seq<char>, pat: Seq<char>) -> Seq<char> {
    if ends_with_spec(s, pat) {
        s.take(s.len() - pat.len())
    } else {
        s
    }
}

/// The texts of `parts`, in order.
pub open spec fn texts(parts: Seq<String>) -> Seq<Seq<char>> {
    Seq::new(parts.len(), |i: int| parts[i]@)
}

/// The members of `parts` in order, with `sep` between neighbours.
pub open spec fn join_spec(parts: Seq<Seq<char>>, sep: Seq<char>) -> Seq<char>
    decreases parts.len(),
{
    if parts.len() == 0 {
        Seq::empty()
    } else if parts.len() == 1 {
        parts[0]
    } else {
        join_spec(parts.drop_last(), sep) + sep + parts.last()
    }
}

/// The position of the first `c` in `s`, or the length of `s` where it
/// holds none.
pub open spec fn index_of_spec(s: Seq<char>, c: char) -> int
    decreases s.len(),
{
    if s.len() == 0 || s[0] == c {
        0
    } else {
        1 + index_of_spec(s.drop_first(), c)
    }
}

/// `s` cut in two at its first `sep`, which belongs to neither part; `None`
/// where `s` holds no `sep`.
pub open spec fn split_once_spec(s: Seq<char>, sep: char) -> Option<(Seq<char>, Seq<char>)> {
    let at = index_of_spec(s, sep);
    if at < s.len() {
        Some((s.take(at), s.skip(at + 1)))
    } else {
        None
    }
}

/// `line` without a carriage return at its end.
pub open spec fn strip_cr_spec(line: Seq<char>) -> Seq<char> {
    if line.len() > 0 && line.last() == '\r' {
        line.drop_last()
    } else {
        line
    }
}

/// The lines of `s`. A line ends at a line feed, or at a carriage return
/// directly followed by one; neither belongs to the line. What follows the
/// last line feed is a line of its own unless it is empty.
pub open spec fn lines_spec(s: Seq<char>) -> Seq<Seq<char>>
    decreases s.len(),
{
    if s.len() == 0 {
        Seq::empty()
    } else {
        let at = index_of_spec(s, '\n');
        if at < 0 || at >= s.len() {
            seq![s]
        } else {
            seq![strip_cr_spec(s.take(at))] + lines_spec(s.skip(at + 1))
        }
    }
}

/// `index_of_spec` is the least position that holds `c`.
pub proof fn lemma_index_of(s: Seq<char>, c: char)
    ensures
        0 <= index_of_spec(s, c) <= s.len(),
        forall|j: int| 0 <= j < index_of_spec(s, c) ==> s[j] != c,
        index_of_spec(s, c) < s.len() ==> s[index_of_spec(s, c)] == c,
    decreases s.len(),
{
    if s.len() == 0 || s[0] == c {
    } else {
        let rest = s.drop_first();
        lemma_index_of(rest, c);
        assert forall|j: int| 0 <= j < index_of_spec(s, c) implies s[j] != c by {
            if j > 0 {
                assert(s[j] == rest[j - 1]);
            }
        }
        if index_of_spec(s, c) < s.len() {
            assert(s[index_of_spec(s, c)] == rest[index_of_spec(rest, c)]);
        }
    }
}

/// A position that holds `c`, with no `c` before it, is the index of `c`.
pub proof fn lemma_index_of_is(s: Seq<char>, c: char, i: int)
    requires
        0 <= i <= s.len(),
        forall|j: int| 0 <= j < i ==> s[j] != c,
        i < s.len() ==> s[i] == c,
    ensures
        index_of_spec(s, c) == i,
{
    lemma_index_of(s, c);
    let k = index_of_spec(s, c);
    if k < i {
        assert(s[k] != c);
    } else if i < k {
        assert(s[i] != c);
    }
}

/// Decides whether `c` is a Unicode `White_Space` code point.
pub fn is_whitespace(c: char) -> (b: bool)
    ensures
        b == is_whitespace_spec(c),
{
    let n: u32 = c as u32;
    (0x09 <= n && n <= 0x0D) || n == 0x20 || n == 0x85 || n == 0xA0 || n == 0x1680 || (0x2000 <= n
        && n <= 0x200A) || n == 0x2028 || n == 0x2029 || n == 0x202F || n == 0x205F || n == 0x3000
}

/// Collects the characters of `s` into a vector.
pub fn chars_of(s: &str) -> (v: Vec<char>)
    ensures
        v@ == s@,
{
    broadcast use vstd::string::group_string_axioms;

    let mut v: Vec<char> = Vec::new();
    for c in it: s.chars()
        invariant
            it.seq() == s@,
            v@ == s@.take(it.index()),
    {
        v.push(c);
    }
    assert(s@.take(s@.len() as int) == s@);
    v
}

/// Whether the first `end` characters of `v` end with `pat`.
fn ends_with_at(v: &Vec<char>, end: usize, pat: &Vec<char>) -> (b: bool)
    requires
        end <= v.len(),
    ensures
        b == ends_with_spec(v@.take(end as int), pat@),
{
    let n: usize = pat.len();
    if n > end {
        return false;
    }
    let base: usize = end - n;
    let mut i: usize = 0;
    while i < n
        invariant
            i <= n,
            n == pat.len(),
            base + n == end,
            end <= v.len(),
            forall|j: int| 0 <= j < i ==> v@[base + j] == pat@[j],
        decreases n - i,
    {
        if v[base + i] != pat[i] {
            proof {
                let tail = v@.take(end as int).subrange(end - n, end as int);
                assert(tail[i as int] == v@[base + i]);
            }
            return false;
        }
        i += 1;
    }
    proof {
        let tail = v@.take(end as int).subrange(end - n, end as int);
        assert(tail =~= pat@);
    }
    true
}

/// The bounds `(lo, hi)` of the first `end` characters of `v` once leading
/// and trailing whitespace is removed.
fn trim_bounds(v: &Vec<char>, end: usize) -> (r: (usize, usize))
    requires
        end <= v.len(),
    ensures
        r.0 <= r.1 <= end,
        v@.subrange(r.0 as int, r.1 as int) == trim_spec(v@.take(end as int)),
{
    let mut hi: usize = end;
    while hi > 0 && is_whitespace(v[hi - 1])
        invariant
            hi <= end <= v.len(),
            trim_end_spec(v@.take(hi as int)) == trim_end_spec(v@.take(end as int)),
        decreases hi,
    {
        proof {
            assert(v@.take(hi as int).drop_last() == v@.take(hi - 1));
        }
        hi = hi - 1;
    }
    assert(trim_end_spec(v@.take(end as int)) == v@.take(hi as int));
    let mut lo: usize = 0;
    assert(v@.subrange(0, hi as int) == v@.take(hi as int));
    while lo < hi && is_whitespace(v[lo])
        invariant
            lo <= hi <= v.len(),
            trim_start_spec(v@.subrange(lo as int, hi as int)) == trim_start_spec(
                v@.take(hi as int),
            ),
        decreases hi - lo,
    {
        proof {
            assert(v@.subrange(lo as int, hi as int).drop_first() == v@.subrange(
                lo + 1,
                hi as int,
            ));
        }
        lo = lo + 1;
    }
    (lo, hi)
}

/// Concatenates `parts`, putting `sep` between neighbours.
pub fn join(parts: &Vec<String>, sep: &str) -> (out: String)
    ensures
        out@ == join_spec(texts(parts@), sep@),
{
    let mut out = String::new();
    let mut i: usize = 0;
    while i < parts.len()
        invariant
            i <= parts.len(),
            out@ == join_spec(texts(parts@).take(i as int), sep@),
        decreases parts.len() - i,
    {
        proof {
            let all = texts(parts@);
            assert(all.take(i + 1).drop_last() == all.take(i as int));
            assert(all.take(i + 1).last() == parts@[i as int]@);
        }
        if i > 0 {
            out.append(sep);
        }
        out.append(parts[i].as_str());
        i += 1;
    }
    assert(texts(parts@).take(parts@.len() as int) == texts(parts@));
    out
}

/// A copy of the characters of `s` from position `lo` up to `hi`.
fn substring(s: &str, lo: usize, hi: usize) -> (out: String)
    requires
        lo <= hi <= s@.len(),
    ensures
        out@ == s@.subrange(lo as int, hi as int),
{
    String::from_str(s.substring_char(lo, hi))
}

/// Whether `a` and `b` hold the same characters.
pub fn same_text(a: &str, b: &str) -> (same: bool)
    ensures
        same == (a@ == b@),
{
    String::from_str(a) == String::from_str(b)
}

/// A copy of `s` without leading and trailing whitespace.
pub fn trim(s: &str) -> (out: String)
    ensures
        out@ == trim_spec(s@),
{
    let v = chars_of(s);
    assert(v@.take(v@.len() as int) == v@);
    let (lo, hi) = trim_bounds(&v, v.len());
    substring(s, lo, hi)
}

/// A copy of `s` without `pat` at its end, or of `s` as it is where it does
/// not end with `pat`.
pub fn without_suffix(s: &str, pat: &str) -> (out: String)
    ensures
        out@ == without_suffix_spec(s@, pat@),
{
    let v = chars_of(s);
    let p = chars_of(pat);
    assert(v@.take(v@.len() as int) == v@);
    if ends_with_at(&v, v.len(), &p) {
        assert(s@.take(v@.len() - p@.len()) == s@.subrange(0, v@.len() - p@.len()));
        substring(s, 0, v.len() - p.len())
    } else {
        String::from_str(s)
    }
}

/// The position of the first `c` among the characters of `v` from `start`
/// up to `end`, counted from `start`; `end - start` where there is none.
fn index_of_in(v: &Vec<char>, start: usize, end: usize, c: char) -> (at: usize)
    requires
        start <= end <= v.len(),
    ensures
        at == index_of_spec(v@.subrange(start as int, end as int), c),
        at <= end - start,
{
    let ghost s = v@.subrange(start as int, end as int);
    let mut i: usize = start;
    while i < end && v[i] != c
        invariant
            start <= i <= end <= v.len(),
            s == v@.subrange(start as int, end as int),
            forall|j: int| 0 <= j < i - start ==> s[j] != c,
        decreases end - i,
    {
        i += 1;
    }
    proof {
        lemma_index_of_is(s, c, (i - start) as int);
    }
    i - start
}

/// Cuts `s` in two at its first `sep`.
pub fn split_once(s: &str, sep: char) -> (r: Option<(String, String)>)
    ensures
        match r {
            Some((head, tail)) => split_once_spec(s@, sep) == Some((head@, tail@)),
            None => split_once_spec(s@, sep) is None,
        },
{
    let v = chars_of(s);
    assert(v@.subrange(0, v@.len() as int) == v@);
    let at = index_of_in(&v, 0, v.len(), sep);
    if at < v.len() {
        assert(s@.take(at as int) == s@.subrange(0, at as int));
        assert(s@.skip(at + 1) == s@.subrange(at + 1, s@.len() as int));
        Some((substring(s, 0, at), substring(s, at + 1, v.len())))
    } else {
        None
    }
}

/// The lines of `s`, each as a string of its own.
pub fn split_lines(s: &str) -> (lines: Vec<String>)
    ensures
        texts(lines@) == lines_spec(s@),
{
    let v = chars_of(s);
    let n: usize = v.len();
    let mut lines: Vec<String> = Vec::new();
    let mut start: usize = 0;
    assert(v@.skip(0) == v@);
    assert(texts(lines@) + lines_spec(v@) == lines_spec(v@));
    while start < n
        invariant
            start <= n,
            n == v.len(),
            v@ == s@,
            texts(lines@) + lines_spec(v@.skip(start as int)) == lines_spec(v@),
        decreases n - start,
    {
        let ghost rest = v@.skip(start as int);
        let ghost done = texts(lines@);
        assert(rest == v@.subrange(start as int, n as int));
        let at = index_of_in(&v, start, n, '\n');
        let end: usize = start + at;
        if end == n {
            lines.push(substring(s, start, n));
            proof {
                assert(lines_spec(rest) == seq![rest]);
                assert(texts(lines@) =~= done + seq![rest]);
                assert(lines_spec(v@.skip(n as int)) == Seq::<Seq<char>>::empty());
                assert(texts(lines@) + Seq::<Seq<char>>::empty() == texts(lines@));
            }
            start = n;
        } else {
            let hi: usize = if end > start && v[end - 1] == '\r' {
                end - 1
            } else {
                end
            };
            lines.push(substring(s, start, hi));
            proof {
                let line = rest.take(at as int);
                assert(line == v@.subrange(start as int, end as int));
                if line.len() > 0 {
                    assert(line.last() == v@[end - 1]);
                }
                assert(strip_cr_spec(line) == v@.subrange(start as int, hi as int));
                assert(rest.skip(at + 1) == v@.skip(end + 1));
                assert(texts(lines@) =~= done + seq![strip_cr_spec(line)]);
                assert(lines_spec(rest) == seq![strip_cr_spec(line)] + lines_spec(
                    v@.skip(end + 1),
                ));
                assert(texts(lines@) + lines_spec(v@.skip(end + 1)) == done + lines_spec(rest));
            }
            start = end + 1;
        }
    }
    proof {
        assert(lines_spec(v@.skip(start as int)) == Seq::<Seq<char>>::empty());
        assert(texts(lines@) + Seq::<Seq<char>>::empty() == texts(lines@));
    }
    lines
}

} // verus!
