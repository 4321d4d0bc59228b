//! Character-level text utilities.
//!
//! SQL migration text is modelled as a sequence of characters.  This module
//! provides the specification functions (trimming, line splitting, joining,
//! splitting on a separator) that the statement splitter is stated with, and
//! verified executable counterparts that operate on character vectors.
//!
//! Whitespace here means ASCII whitespace (space, tab, line feed, vertical
//! tab, form feed, carriage return).

use vstd::prelude::*;

verus! {

// ---------------------------------------------------------------------------
// Characters and conversions
// ---------------------------------------------------------------------------

/// ASCII whitespace.
pub open spec fn is_ws_char(c: char) -> bool {
    c == ' ' || c == '\t' || c == '\n' || c == '\r' || c == '\u{b}' || c == '\u{c}'
}

/// Executable mirror of `is_ws_char`.
pub fn is_whitespace_char(c: char) -> (r: bool)
    ensures
        r == is_ws_char(c),
{
    c == ' ' || c == '\t' || c == '\n' || c == '\r' || c == '\u{b}' || c == '\u{c}'
}

/// The characters of a string slice, in order.
pub fn chars_of(s: &str) -> (r: Vec<char>)
    ensures
        r@ == s@,
{
    let n = s.unicode_len();
    let mut r: Vec<char> = Vec::new();
    let mut i: usize = 0;
    while i < n
        invariant
            i <= n,
            n == s@.len(),
            r@ == s@.take(i as int),
        decreases n - i,
    {
        r.push(s.get_char(i));
        i = i + 1;
        assert(r@ =~= s@.take(i as int));
    }
    assert(r@ =~= s@);
    r
}

/// Relies on `String::push`: appends the given character to the string.
#[verifier::external_body]
fn push_char(s: &mut String, c: char)
    ensures
        final(s)@ == old(s)@.push(c),
{
    s.push(c);
}

/// A freshly allocated string holding exactly the given characters.
pub fn string_from_chars(v: &Vec<char>) -> (r: String)
    ensures
        r@ == v@,
{
    let mut r = String::new();
    let mut i: usize = 0;
    while i < v.len()
        invariant
            i <= v.len(),
            r@ == v@.take(i as int),
        decreases v.len() - i,
    {
        push_char(&mut r, v[i]);
        i = i + 1;
        assert(r@ =~= v@.take(i as int));
    }
    assert(r@ =~= v@);
    r
}

/// A copy of the characters of `v` in positions `[from, to)`.
pub fn copy_range(v: &Vec<char>, from: usize, to: usize) -> (r: Vec<char>)
    requires
        from <= to <= v@.len(),
    ensures
        r@ == v@.subrange(from as int, to as int),
{
    let mut r: Vec<char> = Vec::new();
    let mut i: usize = from;
    while i < to
        invariant
            from <= i <= to <= v@.len(),
            r@ == v@.subrange(from as int, i as int),
        decreases to - i,
    {
        r.push(v[i]);
        i = i + 1;
        assert(r@ =~= v@.subrange(from as int, i as int));
    }
    r
}

/// Whether `prefix` is a prefix of `s`.
pub fn str_starts_with(s: &str, prefix: &str) -> (r: bool)
    ensures
        r == prefix@.is_prefix_of(s@),
{
    let n = s.unicode_len();
    let m = prefix.unicode_len();
    if n < m {
        return false;
    }
    let mut i: usize = 0;
    while i < m
        invariant
            i <= m,
            m == prefix@.len(),
            n == s@.len(),
            m <= n,
            forall|k: int| 0 <= k < i ==> s@[k] == prefix@[k],
        decreases m - i,
    {
        if s.get_char(i) != prefix.get_char(i) {
            assert(s@.subrange(0, m as int)[i as int] != prefix@[i as int]);
            return false;
        }
        i = i + 1;
    }
    assert(prefix@ =~= s@.subrange(0, m as int));
    true
}

/// Whether two string slices hold the same characters.
pub fn str_eq(a: &str, b: &str) -> (r: bool)
    ensures
        r == (a@ == b@),
{
    let n = a.unicode_len();
    let m = b.unicode_len();
    if n != m {
        return false;
    }
    let mut i: usize = 0;
    while i < n
        invariant
            i <= n,
            n == a@.len(),
            n == b@.len(),
            forall|k: int| 0 <= k < i ==> a@[k] == b@[k],
        decreases n - i,
    {
        if a.get_char(i) != b.get_char(i) {
            return false;
        }
        i = i + 1;
    }
    assert(a@ =~= b@);
    true
}

// ---------------------------------------------------------------------------
// Trimming
// ---------------------------------------------------------------------------

/// `s` with leading whitespace removed.
pub open spec fn trim_start(s: Seq<char>) -> Seq<char>
    decreases s.len(),
{
    if s.len() > 0 && is_ws_char(s[0]) {
        trim_start(s.drop_first())
    } else {
        s
    }
}

/// `s` with trailing whitespace removed.
pub open spec fn trim_end(s: Seq<char>) -> Seq<char>
    decreases s.len(),
{
    if s.len() > 0 && is_ws_char(s.last()) {
        trim_end(s.drop_last())
    } else {
        s
    }
}

/// `s` with surrounding whitespace removed.
pub open spec fn spec_trim(s: Seq<char>) -> Seq<char> {
    trim_end(trim_start(s))
}

proof fn lemma_trim_start_skip(s: Seq<char>, i: int)
    requires
        0 <= i <= s.len(),
        forall|k: int| 0 <= k < i ==> is_ws_char(s[k]),
        i == s.len() || !is_ws_char(s[i]),
    ensures
        trim_start(s) == s.skip(i),
    decreases i,
{
    if i == 0 {
        assert(s.skip(0) =~= s);
    } else {
        lemma_trim_start_skip(s.drop_first(), i - 1);
        assert(s.drop_first().skip(i - 1) =~= s.skip(i));
    }
}

proof fn lemma_trim_end_take(s: Seq<char>, j: int)
    requires
        0 <= j <= s.len(),
        forall|k: int| j <= k < s.len() ==> is_ws_char(s[k]),
        j == 0 || !is_ws_char(s[j - 1]),
    ensures
        trim_end(s) == s.take(j),
    decreases s.len() - j,
{
    if j == s.len() {
        if s.len() > 0 && is_ws_char(s.last()) {
            assert(!is_ws_char(s[j - 1]));
            assert(false);
        }
        assert(s.take(j) =~= s);
    } else {
        lemma_trim_end_take(s.drop_last(), j);
        assert(s.drop_last().take(j) =~= s.take(j));
    }
}

/// The trimmed copy of a character vector.
pub fn trim_chars(v: &Vec<char>) -> (r: Vec<char>)
    ensures
        r@ == spec_trim(v@),
{
    let n = v.len();
    let mut lo: usize = 0;
    while lo < n && is_whitespace_char(v[lo])
        invariant
            lo <= n,
            n == v@.len(),
            forall|k: int| 0 <= k < lo ==> is_ws_char(v@[k]),
        decreases n - lo,
    {
        lo = lo + 1;
    }
    proof {
        lemma_trim_start_skip(v@, lo as int);
    }
    let mut hi: usize = n;
    while hi > lo && is_whitespace_char(v[hi - 1])
        invariant
            lo <= hi <= n,
            n == v@.len(),
            forall|k: int| hi <= k < n ==> is_ws_char(v@[k]),
        decreases hi,
    {
        hi = hi - 1;
    }
    proof {
        let t = v@.skip(lo as int);
        assert(forall|k: int| hi - lo <= k < t.len() ==> is_ws_char(#[trigger] t[k]));
        assert(hi > lo ==> t[hi - lo - 1] == v@[hi - 1]);
        lemma_trim_end_take(t, hi - lo);
        assert(t.take(hi - lo) =~= v@.subrange(lo as int, hi as int));
    }
    copy_range(v, lo, hi)
}

// ---------------------------------------------------------------------------
// Splitting into lines and on a separator
// ---------------------------------------------------------------------------

/// Index of the first occurrence of `c` in `s`, or `s.len()` if absent.
pub open spec fn find_char(s: Seq<char>, c: char) -> int
    decreases s.len(),
{
    if s.len() == 0 {
        0
    } else if s[0] == c {
        0
    } else {
        1 + find_char(s.drop_first(), c)
    }
}

proof fn lemma_find_char_at(s: Seq<char>, c: char, m: int)
    requires
        0 <= m <= s.len(),
        forall|k: int| 0 <= k < m ==> s[k] != c,
        m == s.len() || s[m] == c,
    ensures
        find_char(s, c) == m,
    decreases m,
{
    if m == 0 {
    } else {
        lemma_find_char_at(s.drop_first(), c, m - 1);
    }
}

/// A line with one trailing carriage return removed.
pub open spec fn strip_cr(l: Seq<char>) -> Seq<char> {
    if l.len() > 0 && l.last() == '\r' { l.drop_last() } else { l }
}

/// The lines of `s`, split at line feeds, each line with a trailing carriage
/// return removed, and with no final empty line when `s` ends in a line feed.
pub open spec fn spec_lines(s: Seq<char>) -> Seq<Seq<char>>
    decreases s.len(),
{
    if s.len() == 0 {
        Seq::empty()
    } else {
        let i = find_char(s, '\n');
        if !(0 <= i < s.len()) {
            seq![s]
        } else {
            seq![strip_cr(s.take(i))] + spec_lines(s.skip(i + 1))
        }
    }
}

/// The pieces of `s` between occurrences of `c`, the separators themselves
/// excluded.  An empty input yields one empty piece, and a trailing separator
/// yields a final empty piece.
pub open spec fn spec_split_on(s: Seq<char>, c: char) -> Seq<Seq<char>>
    decreases s.len(),
{
    let i = find_char(s, c);
    if !(0 <= i < s.len()) {
        seq![s]
    } else {
        seq![s.take(i)] + spec_split_on(s.skip(i + 1), c)
    }
}

/// The lines of a character vector.
pub fn split_lines(v: &Vec<char>) -> (r: Vec<Vec<char>>)
    ensures
        r.deep_view() == spec_lines(v@),
{
    let n = v.len();
    let mut r: Vec<Vec<char>> = Vec::new();
    proof {
        assert(v@.skip(0) =~= v@);
        assert(r.deep_view() + spec_lines(v@.skip(0)) =~~= spec_lines(v@));
    }
    let mut pos: usize = 0;
    while pos < n
        invariant
            pos <= n,
            n == v@.len(),
            spec_lines(v@) == r.deep_view() + spec_lines(v@.skip(pos as int)),
        decreases n - pos,
    {
        let ghost p0 = pos as int;
        let ghost rest = v@.skip(p0);
        let mut j: usize = pos;
        while j < n && v[j] != '\n'
            invariant
                pos <= j <= n,
                n == v@.len(),
                forall|k: int| pos <= k < j ==> v@[k] != '\n',
            decreases n - j,
        {
            j = j + 1;
        }
        proof {
            assert(forall|k: int| 0 <= k < j - p0 ==> rest[k] != '\n');
            lemma_find_char_at(rest, '\n', j - p0);
        }
        let mut line = copy_range(v, pos, j);
        let ghost prev = r.deep_view();
        if j == n {
            assert(line@ =~= rest);
            r.push(line);
            pos = n;
            proof {
                assert(spec_lines(rest) == seq![rest]);
                assert(r.deep_view() =~~= prev + seq![rest]);
                assert(spec_lines(v@.skip(pos as int)) == Seq::<Seq<char>>::empty());
                assert(r.deep_view() + spec_lines(v@.skip(pos as int)) =~~= prev + spec_lines(rest));
            }
        } else {
            // v[j] is a line feed: the line is the segment before it, with a
            // trailing carriage return removed.
            let ghost seg = rest.take(j - p0);
            assert(line@ =~= seg);
            if line.len() > 0 && line[line.len() - 1] == '\r' {
                line.pop();
            }
            assert(line@ == strip_cr(seg));
            r.push(line);
            pos = j + 1;
            proof {
                assert(v@.skip(pos as int) =~= rest.skip(j - p0 + 1));
                assert(spec_lines(rest) == seq![strip_cr(seg)] + spec_lines(rest.skip(j - p0 + 1)));
                assert(r.deep_view() =~~= prev + seq![strip_cr(seg)]);
                assert(r.deep_view() + spec_lines(v@.skip(pos as int)) =~~= prev + spec_lines(rest));
            }
        }
    }
    proof {
        assert(v@.skip(pos as int).len() == 0);
        assert(spec_lines(v@.skip(pos as int)) == Seq::<Seq<char>>::empty());
        assert(r.deep_view() =~~= spec_lines(v@));
    }
    r
}

/// The pieces of a character vector between semicolons.
pub fn split_on_semi(v: &Vec<char>) -> (r: Vec<Vec<char>>)
    ensures
        r.deep_view() == spec_split_on(v@, ';'),
{
    let n = v.len();
    let mut r: Vec<Vec<char>> = Vec::new();
    proof {
        assert(v@.skip(0) =~= v@);
        assert(r.deep_view() + spec_split_on(v@.skip(0), ';') =~~= spec_split_on(v@, ';'));
    }
    let mut pos: usize = 0;
    loop
        invariant_except_break
            pos <= n,
            n == v@.len(),
            spec_split_on(v@, ';') == r.deep_view() + spec_split_on(v@.skip(pos as int), ';'),
        ensures
            r.deep_view() == spec_split_on(v@, ';'),
        decreases n - pos,
    {
        let ghost p0 = pos as int;
        let ghost rest = v@.skip(p0);
        let mut j: usize = pos;
        while j < n && v[j] != ';'
            invariant
                pos <= j <= n,
                n == v@.len(),
                forall|k: int| pos <= k < j ==> v@[k] != ';',
            decreases n - j,
        {
            j = j + 1;
        }
        proof {
            assert(forall|k: int| 0 <= k < j - p0 ==> rest[k] != ';');
            lemma_find_char_at(rest, ';', j - p0);
        }
        let piece = copy_range(v, pos, j);
        let ghost prev = r.deep_view();
        if j == n {
            assert(piece@ =~= rest);
            r.push(piece);
            proof {
                assert(spec_split_on(rest, ';') == seq![rest]);
                assert(r.deep_view() =~~= prev + seq![rest]);
                assert(r.deep_view() =~~= spec_split_on(v@, ';'));
            }
            break;
        } else {
            let ghost seg = rest.take(j - p0);
            assert(piece@ =~= seg);
            r.push(piece);
            pos = j + 1;
            proof {
                assert(v@.skip(pos as int) =~= rest.skip(j - p0 + 1));
                assert(spec_split_on(rest, ';') == seq![seg] + spec_split_on(rest.skip(j - p0 + 1), ';'));
                assert(r.deep_view() =~~= prev + seq![seg]);
                assert(r.deep_view() + spec_split_on(v@.skip(pos as int), ';') =~~= prev + spec_split_on(rest, ';'));
            }
        }
    }
    r
}

// ---------------------------------------------------------------------------
// Joining lines
// ---------------------------------------------------------------------------

/// The lines joined back together with single line feeds between them.
pub open spec fn join_lines(ls: Seq<Seq<char>>) -> Seq<char>
    decreases ls.len(),
{
    if ls.len() == 0 {
        Seq::empty()
    } else if ls.len() == 1 {
        ls[0]
    } else {
        ls[0] + seq!['\n'] + join_lines(ls.drop_first())
    }
}

proof fn lemma_join_push(ls: Seq<Seq<char>>, l: Seq<char>)
    ensures
        join_lines(ls.push(l)) == if ls.len() == 0 {
            l
        } else {
            join_lines(ls) + seq!['\n'] + l
        },
    decreases ls.len(),
{
    if ls.len() == 0 {
        assert(ls.push(l) =~= seq![l]);
        assert(join_lines(seq![l]) == l);
    } else if ls.len() == 1 {
        assert(ls.push(l).drop_first() =~= seq![l]);
        assert(join_lines(seq![l]) == l);
        assert(join_lines(ls.push(l)) == ls.push(l)[0] + seq!['\n'] + join_lines(ls.push(l).drop_first()));
        assert(ls.push(l)[0] == ls[0]);
        assert(join_lines(ls) == ls[0]);
    } else {
        lemma_join_push(ls.drop_first(), l);
        assert(ls.push(l).drop_first() =~= ls.drop_first().push(l));
        assert(join_lines(ls.push(l)) == ls.push(l)[0] + seq!['\n'] + join_lines(ls.push(l).drop_first()));
        assert(join_lines(ls) == ls[0] + seq!['\n'] + join_lines(ls.drop_first()));
        assert(ls[0] + seq!['\n'] + (join_lines(ls.drop_first()) + seq!['\n'] + l)
            =~= (ls[0] + seq!['\n'] + join_lines(ls.drop_first())) + seq!['\n'] + l);
    }
}

/// Joins the lines `lines[from..]` with line feeds.
pub fn join_lines_from(lines: &Vec<Vec<char>>, from: usize) -> (r: Vec<char>)
    requires
        from <= lines@.len(),
    ensures
        r@ == join_lines(lines.deep_view().skip(from as int)),
{
    let ghost dv = lines.deep_view();
    let n = lines.len();
    assert(n == dv.len());
    let mut r: Vec<char> = Vec::new();
    let mut k: usize = from;
    while k < n
        invariant
            from <= k <= n,
            n == lines@.len(),
            dv == lines.deep_view(),
            n == dv.len(),
            r@ == join_lines(dv.subrange(from as int, k as int)),
        decreases n - k,
    {
        let ghost sofar = dv.subrange(from as int, k as int);
        proof {
            lemma_join_push(sofar, dv[k as int]);
            assert(dv.subrange(from as int, k + 1 as int) =~= sofar.push(dv[k as int]));
        }
        if k > from {
            r.push('\n');
        }
        let ghost mid = r@;
        let mut i: usize = 0;
        let line = &lines[k];
        assert(line@ == dv[k as int]);
        while i < line.len()
            invariant
                i <= line@.len(),
                line@ == dv[k as int],
                r@ == mid + line@.take(i as int),
            decreases line@.len() - i,
        {
            r.push(line[i]);
            i = i + 1;
            assert(r@ =~= mid + line@.take(i as int));
        }
        assert(r@ =~= mid + dv[k as int]);
        proof {
            if k == from {
                assert(sofar.len() == 0);
                assert(r@ =~= join_lines(sofar.push(dv[k as int])));
            } else {
                assert(r@ =~= join_lines(sofar) + seq!['\n'] + dv[k as int]);
            }
        }
        k = k + 1;
    }
    assert(dv.subrange(from as int, n as int) =~= dv.skip(from as int));
    r
}

} // verus!
