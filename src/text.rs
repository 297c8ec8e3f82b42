use vstd::prelude::*;

verus! {

/// `needle` occurs in `hay` as a contiguous run of characters.
pub open spec fn contains(hay: Seq<char>, needle: Seq<char>) -> bool {
    exists|k: int|
        0 <= k && k + needle.len() <= hay.len() && #[trigger] hay.subrange(k, k + needle.len())
            == needle
}

/// The text of the line that starts at `start` and whose terminator (if any) is at `end`.
/// A line closed by `"\r\n"` loses its `'\r'`; a lone trailing `'\r'` at the end of
/// the text is kept.
pub open spec fn line_text(s: Seq<char>, start: int, end: int) -> Seq<char> {
    if end < s.len() && start < end && s[end - 1] == '\r' {
        s.subrange(start, end - 1)
    } else {
        s.subrange(start, end)
    }
}

/// The lines of `s` from the line that started at `start`, with the scan at `i`.
pub open spec fn lines_from(s: Seq<char>, start: int, i: int) -> Seq<Seq<char>>
    decreases s.len() - i,
{
    if i >= s.len() {
        if start < s.len() {
            seq![line_text(s, start, s.len() as int)]
        } else {
            seq![]
        }
    } else if s[i] == '\n' {
        seq![line_text(s, start, i)] + lines_from(s, i + 1, i + 1)
    } else {
        lines_from(s, start, i + 1)
    }
}

/// The lines of `s`: the pieces between `'\n'` characters, with a final `'\n'`
/// closing the last line rather than opening an empty one.
pub open spec fn lines_of(s: Seq<char>) -> Seq<Seq<char>> {
    lines_from(s, 0, 0)
}

/// The characters of `s`, in order.
pub fn chars_of(s: &str) -> (r: Vec<char>)
    ensures
        r@ == s@,
{
    let mut r: Vec<char> = Vec::new();
    for c in it: s.chars()
        invariant
            r@ == it.seq().take(it.index() as int),
    {
        r.push(c);
    }
    r
}

/// Whether `needle` occurs in `hay[lo..hi]`.
fn occurs_in(needle: &Vec<char>, hay: &Vec<char>, lo: usize, hi: usize) -> (r: bool)
    requires
        lo <= hi <= hay.len(),
    ensures
        r == contains(hay@.subrange(lo as int, hi as int), needle@),
{
    let ghost h = hay@.subrange(lo as int, hi as int);
    let m = needle.len();
    if m > hi - lo {
        return false;
    }
    let last = hi - m;
    let mut k: usize = lo;
    while k <= last
        invariant
            lo <= k <= last + 1,
            last + m == hi,
            hi <= hay.len(),
            m == needle@.len(),
            h == hay@.subrange(lo as int, hi as int),
            forall|j: int| 0 <= j < k - lo ==> #[trigger] h.subrange(j, j + m) != needle@,
        decreases last + 1 - k,
    {
        let mut t: usize = 0;
        while t < m && hay[k + t] == needle[t]
            invariant
                t <= m,
                k + m <= hay.len(),
                m == needle@.len(),
                forall|u: int| 0 <= u < t ==> hay@[k + u] == needle@[u],
            decreases m - t,
        {
            t = t + 1;
        }
        if t == m {
            assert(h.subrange(k - lo, k - lo + m) =~= needle@);
            return true;
        }
        assert(h.subrange(k - lo, k - lo + m)[t as int] != needle@[t as int]);
        k = k + 1;
    }
    false
}

/// Whether `query` occurs in `line` as a contiguous substring.
pub fn contains_query(line: &str, query: &str) -> (r: bool)
    ensures
        r == contains(line@, query@),
{
    let hay = chars_of(line);
    let needle = chars_of(query);
    assert(hay@.subrange(0, hay.len() as int) =~= line@);
    occurs_in(&needle, &hay, 0, hay.len())
}

/// The views of a sequence of string slices.
pub open spec fn views_of(v: Seq<&str>) -> Seq<Seq<char>> {
    v.map_values(|l: &str| l@)
}

/// The line of `s` between `start` and its terminator at `end`, as a slice of `s`.
fn line_slice<'a>(s: &'a str, chars: &Vec<char>, start: usize, end: usize) -> (r: &'a str)
    requires
        chars@ == s@,
        start <= end <= chars.len(),
    ensures
        r@ == line_text(s@, start as int, end as int),
{
    if end < chars.len() && start < end && chars[end - 1] == '\r' {
        s.substring_char(start, end - 1)
    } else {
        s.substring_char(start, end)
    }
}

/// Splits `contents` into its lines, as slices of `contents`.
pub fn split_lines<'a>(contents: &'a str) -> (r: Vec<&'a str>)
    ensures
        views_of(r@) == lines_of(contents@),
{
    let chars = chars_of(contents);
    let n = chars.len();
    let mut r: Vec<&'a str> = Vec::new();
    let mut start: usize = 0;
    let mut i: usize = 0;
    while i < n
        invariant
            chars@ == contents@,
            n == chars.len(),
            start <= i <= n,
            views_of(r@) + lines_from(contents@, start as int, i as int) == lines_of(contents@),
        decreases n - i,
    {
        if chars[i] == '\n' {
            let line = line_slice(contents, &chars, start, i);
            let ghost before = r@;
            r.push(line);
            assert(views_of(r@) =~= views_of(before).push(line@));
            assert(views_of(r@) + lines_from(contents@, (i + 1) as int, (i + 1) as int)
                =~= views_of(before) + lines_from(contents@, start as int, i as int));
            start = i + 1;
        }
        i = i + 1;
    }
    if start < n {
        let line = line_slice(contents, &chars, start, n);
        let ghost before = r@;
        r.push(line);
        assert(views_of(r@) =~= views_of(before).push(line@));
        assert(views_of(r@) =~= views_of(before) + lines_from(contents@, start as int, n as int));
    } else {
        assert(views_of(r@) =~= views_of(r@) + lines_from(contents@, start as int, n as int));
    }
    r
}

} // verus!
