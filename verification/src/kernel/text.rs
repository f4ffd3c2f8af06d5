//! Text primitives over character sequences: whitespace, trimming, prefixes,
//! substring search and line splitting, each with the specification that the
//! rest of the library states its contracts in.

use vstd::prelude::*;

verus! {

broadcast use vstd::string::group_string_axioms;

// ── Specifications ─────────────────────────────────────────────────────────

/// Unicode `White_Space`, the property that `char::is_whitespace` tests.
pub open spec fn spec_is_whitespace(c: char) -> bool {
    let u = c as u32;
    ||| (0x09 <= u && u <= 0x0D)
    ||| u == 0x20
    ||| u == 0x85
    ||| u == 0xA0
    ||| u == 0x1680
    ||| (0x2000 <= u && u <= 0x200A)
    ||| u == 0x2028
    ||| u == 0x2029
    ||| u == 0x202F
    ||| u == 0x205F
    ||| u == 0x3000
}

/// `s` without its leading whitespace.
pub open spec fn spec_trim_start(s: Seq<char>) -> Seq<char>
    decreases s.len(),
{
    if s.len() > 0 && spec_is_whitespace(s[0]) {
        spec_trim_start(s.drop_first())
    } else {
        s
    }
}

/// `s` without its trailing whitespace.
pub open spec fn spec_trim_end(s: Seq<char>) -> Seq<char>
    decreases s.len(),
{
    if s.len() > 0 && spec_is_whitespace(s.last()) {
        spec_trim_end(s.drop_last())
    } else {
        s
    }
}

/// `s` without leading and trailing whitespace (what `str::trim` returns).
pub open spec fn spec_trim(s: Seq<char>) -> Seq<char> {
    spec_trim_end(spec_trim_start(s))
}

/// `s` begins with `p`.
pub open spec fn spec_starts_with(s: Seq<char>, p: Seq<char>) -> bool {
    p.len() <= s.len() && s.take(p.len() as int) == p
}

/// `s` ends with `p`.
pub open spec fn spec_ends_with(s: Seq<char>, p: Seq<char>) -> bool {
    p.len() <= s.len() && s.skip(s.len() - p.len()) == p
}

/// `p` occurs in `s` at position `i`.
pub open spec fn spec_occurs_at(s: Seq<char>, p: Seq<char>, i: int) -> bool {
    0 <= i && i + p.len() <= s.len() && s.subrange(i, i + p.len()) == p
}

/// `p` occurs somewhere in `s`.
pub open spec fn spec_contains(s: Seq<char>, p: Seq<char>) -> bool {
    exists|i: int| spec_occurs_at(s, p, i)
}

/// The position of the first `c` in `s`, or `-1`.
pub open spec fn spec_index_of(s: Seq<char>, c: char) -> int
    decreases s.len(),
{
    if s.len() == 0 {
        -1
    } else if s[0] == c {
        0
    } else {
        let r = spec_index_of(s.drop_first(), c);
        if r < 0 {
            -1
        } else {
            r + 1
        }
    }
}

/// One line taken from the text before a `'\n'`: a final `'\r'` is dropped.
pub open spec fn spec_strip_cr(l: Seq<char>) -> Seq<char> {
    if l.len() > 0 && l.last() == '\r' {
        l.drop_last()
    } else {
        l
    }
}

/// The lines of `s` as `str::lines` yields them: split at `'\n'`, a `'\r'`
/// before the `'\n'` removed, and no empty line after a final `'\n'`.
pub open spec fn spec_lines(s: Seq<char>) -> Seq<Seq<char>>
    decreases s.len(),
{
    if s.len() == 0 {
        Seq::empty()
    } else {
        let i = spec_index_of(s, '\n');
        proof {
            lemma_index_of_bounds(s, '\n');
        }
        if i < 0 {
            seq![s]
        } else {
            seq![spec_strip_cr(s.take(i))] + spec_lines(s.skip(i + 1))
        }
    }
}

/// The pieces of `parts` joined by `sep`.
pub open spec fn spec_join(parts: Seq<Seq<char>>, sep: Seq<char>) -> Seq<char>
    decreases parts.len(),
{
    if parts.len() == 0 {
        Seq::empty()
    } else if parts.len() == 1 {
        parts[0]
    } else {
        spec_join(parts.drop_last(), sep) + sep + parts.last()
    }
}

// ── Lemmas ─────────────────────────────────────────────────────────────────

/// `spec_index_of` is the first position of `c`, or `-1` when there is none.
pub proof fn lemma_index_of_bounds(s: Seq<char>, c: char)
    ensures
        -1 <= spec_index_of(s, c) < s.len(),
        spec_index_of(s, c) >= 0 ==> s[spec_index_of(s, c)] == c,
        forall|j: int| 0 <= j < s.len() && (spec_index_of(s, c) < 0 || j < spec_index_of(s, c)) ==> s[j] != c,
    decreases s.len(),
{
    if s.len() > 0 && s[0] != c {
        lemma_index_of_bounds(s.drop_first(), c);
        assert forall|j: int| 0 <= j < s.len() && (spec_index_of(s, c) < 0 || j < spec_index_of(s, c)) implies s[j] != c by {
            if j > 0 {
                assert(s[j] == s.drop_first()[j - 1]);
            }
        }
    }
}

/// A position before which `c` does not occur, and at which it does (or the
/// end), is `spec_index_of`.
pub proof fn lemma_index_of_char(s: Seq<char>, c: char, k: int)
    requires
        0 <= k <= s.len(),
        forall|j: int| 0 <= j < k ==> s[j] != c,
        k == s.len() || s[k] == c,
    ensures
        spec_index_of(s, c) == (if k == s.len() { -1 } else { k }),
    decreases s.len(),
{
    if s.len() > 0 && k > 0 {
        let t = s.drop_first();
        assert forall|j: int| 0 <= j < k - 1 implies t[j] != c by {
            assert(t[j] == s[j + 1]);
        }
        lemma_index_of_char(t, c, k - 1);
    }
}

// ── Executable functions ───────────────────────────────────────────────────

/// `char::is_whitespace`.
pub fn is_whitespace(c: char) -> (r: bool)
    ensures
        r == spec_is_whitespace(c),
{
    let u = c as u32;
    (0x09 <= u && u <= 0x0D) || u == 0x20 || u == 0x85 || u == 0xA0 || u == 0x1680 || (0x2000
        <= u && u <= 0x200A) || u == 0x2028 || u == 0x2029 || u == 0x202F || u == 0x205F || u
        == 0x3000
}

/// The characters of `s`, in order.
pub fn chars_of(s: &str) -> (r: Vec<char>)
    ensures
        r@ == s@,
{
    let mut r: Vec<char> = Vec::new();
    for c in it: s.chars()
        invariant
            r@ == it.seq().take(it.index() as int),
    {
        r.push(c);
    }
    r
}

/// Appends one character to a string (`String::push`).
#[verifier::external_body]
pub(crate) fn push_char(s: &mut String, c: char)
    ensures
        final(s)@ == old(s)@.push(c),
{
    s.push(c);
}

/// Appends a string slice to a string (`String::push_str`).
pub fn push_str(s: &mut String, t: &str)
    ensures
        final(s)@ == old(s)@ + t@,
{
    s.append(t);
}

/// Builds a string from its characters.
pub fn string_from_chars(cs: &[char]) -> (r: String)
    ensures
        r@ == cs@,
{
    let mut r = String::new();
    let mut i: usize = 0;
    while i < cs.len()
        invariant
            i <= cs@.len(),
            r@ == cs@.take(i as int),
        decreases cs@.len() - i,
    {
        push_char(&mut r, cs[i]);
        i = i + 1;
        assert(r@ =~= cs@.take(i as int));
    }
    assert(cs@.take(cs@.len() as int) =~= cs@);
    r
}

/// Appends `cs[from..to]` to `s`.
pub fn push_range(s: &mut String, cs: &[char], from: usize, to: usize)
    requires
        from <= to <= cs@.len(),
    ensures
        final(s)@ == old(s)@ + cs@.subrange(from as int, to as int),
{
    let mut i = from;
    while i < to
        invariant
            from <= i <= to <= cs@.len(),
            s@ == old(s)@ + cs@.subrange(from as int, i as int),
        decreases to - i,
    {
        push_char(s, cs[i]);
        i = i + 1;
        assert(s@ =~= old(s)@ + cs@.subrange(from as int, i as int));
    }
}

/// Two strings hold the same characters.
pub fn str_eq(a: &str, b: &str) -> (r: bool)
    ensures
        r == (a@ == b@),
{
    let x = chars_of(a);
    let y = chars_of(b);
    chars_eq(&x, &y)
}

/// Two character slices are equal.
pub fn chars_eq(x: &[char], y: &[char]) -> (r: bool)
    ensures
        r == (x@ == y@),
{
    if x.len() != y.len() {
        return false;
    }
    let mut i: usize = 0;
    while i < x.len()
        invariant
            x@.len() == y@.len(),
            i <= x@.len(),
            forall|j: int| 0 <= j < i ==> x@[j] == y@[j],
        decreases x@.len() - i,
    {
        if x[i] != y[i] {
            return false;
        }
        i = i + 1;
    }
    assert(x@ =~= y@);
    true
}

/// `p` occurs in `cs` at position `at`.
pub fn occurs_at(cs: &[char], p: &[char], at: usize) -> (r: bool)
    ensures
        r == spec_occurs_at(cs@, p@, at as int),
{
    let n = cs.len();
    if at > n || p.len() > n - at {
        return false;
    }
    let mut i: usize = 0;
    while i < p.len()
        invariant
            n == cs@.len(),
            at + p@.len() <= n,
            i <= p@.len(),
            forall|j: int| 0 <= j < i ==> cs@[at + j] == p@[j],
        decreases p@.len() - i,
    {
        assert(at + i < cs@.len());
        if cs[at + i] != p[i] {
            assert(cs@.subrange(at as int, at + p@.len())[i as int] != p@[i as int]);
            return false;
        }
        i = i + 1;
    }
    assert(cs@.subrange(at as int, at + p@.len()) =~= p@);
    true
}

/// `cs` begins with `p`.
pub fn starts_with(cs: &[char], p: &[char]) -> (r: bool)
    ensures
        r == spec_starts_with(cs@, p@),
{
    let r = occurs_at(cs, p, 0);
    assert(cs@.subrange(0, p@.len() as int) =~= cs@.take(p@.len() as int));
    r
}

/// `cs` ends with `p`.
pub fn ends_with(cs: &[char], p: &[char]) -> (r: bool)
    ensures
        r == spec_ends_with(cs@, p@),
{
    if p.len() > cs.len() {
        return false;
    }
    let r = occurs_at(cs, p, cs.len() - p.len());
    assert(cs@.subrange(cs@.len() - p@.len(), cs@.len() as int) =~= cs@.skip(cs@.len() - p@.len()));
    r
}

/// `p` occurs somewhere in `cs`.
pub fn contains(cs: &[char], p: &[char]) -> (r: bool)
    ensures
        r == spec_contains(cs@, p@),
{
    if p.len() > cs.len() {
        assert forall|i: int| !spec_occurs_at(cs@, p@, i) by {}
        return false;
    }
    let last = cs.len() - p.len();
    let mut i: usize = 0;
    loop
        invariant
            i <= last,
            last + p@.len() == cs@.len(),
            forall|j: int| 0 <= j < i ==> !spec_occurs_at(cs@, p@, j),
        ensures
            forall|j: int| 0 <= j <= last ==> !spec_occurs_at(cs@, p@, j),
        decreases last - i,
    {
        if occurs_at(cs, p, i) {
            return true;
        }
        if i == last {
            break;
        }
        i = i + 1;
    }
    assert forall|j: int| !spec_occurs_at(cs@, p@, j) by {
        if j > last {
            assert(!(j + p@.len() <= cs@.len()));
        }
    }
    false
}

/// `p` occurs in the string `s`.
pub fn str_contains(s: &str, p: &str) -> (r: bool)
    ensures
        r == spec_contains(s@, p@),
{
    let x = chars_of(s);
    let y = chars_of(p);
    contains(&x, &y)
}

/// The bounds of `cs[from..to]` once whitespace is trimmed from both ends.
pub fn trim_range(cs: &[char], from: usize, to: usize) -> (r: (usize, usize))
    requires
        from <= to <= cs@.len(),
    ensures
        from <= r.0 <= r.1 <= to,
        spec_trim(cs@.subrange(from as int, to as int)) == cs@.subrange(r.0 as int, r.1 as int),
        spec_trim_start(cs@.subrange(from as int, to as int)) == cs@.subrange(r.0 as int, to as int),
{
    let ghost s = cs@.subrange(from as int, to as int);
    let mut a: usize = from;
    while a < to && is_whitespace(cs[a])
        invariant
            from <= a <= to <= cs@.len(),
            spec_trim_start(s) == spec_trim_start(cs@.subrange(a as int, to as int)),
        decreases to - a,
    {
        assert(cs@.subrange(a as int, to as int).drop_first() =~= cs@.subrange(a + 1, to as int));
        a = a + 1;
    }
    let ghost t = cs@.subrange(a as int, to as int);
    assert(spec_trim_start(t) == t);
    let mut b: usize = to;
    while b > a && is_whitespace(cs[b - 1])
        invariant
            from <= a <= b <= to <= cs@.len(),
            spec_trim_end(t) == spec_trim_end(cs@.subrange(a as int, b as int)),
        decreases b - a,
    {
        assert(cs@.subrange(a as int, b as int).drop_last() =~= cs@.subrange(a as int, b - 1));
        b = b - 1;
    }
    (a, b)
}

/// The bounds of `cs` once whitespace is trimmed from both ends.
pub fn trim_bounds(cs: &[char]) -> (r: (usize, usize))
    ensures
        r.0 <= r.1 <= cs@.len(),
        spec_trim(cs@) == cs@.subrange(r.0 as int, r.1 as int),
        spec_trim_start(cs@) == cs@.skip(r.0 as int),
{
    let n = cs.len();
    let r = trim_range(cs, 0, n);
    assert(cs@.subrange(0, n as int) =~= cs@);
    assert(cs@.subrange(r.0 as int, n as int) =~= cs@.skip(r.0 as int));
    r
}

/// `str::trim`: the string without leading and trailing whitespace.
pub fn trim(s: &str) -> (r: String)
    ensures
        r@ == spec_trim(s@),
{
    let cs = chars_of(s);
    let (a, b) = trim_bounds(&cs);
    let mut r = String::new();
    push_range(&mut r, &cs, a, b);
    r
}

/// The trimmed text is empty: `s.trim().is_empty()`.
pub fn is_blank(s: &str) -> (r: bool)
    ensures
        r == (spec_trim(s@).len() == 0),
{
    let cs = chars_of(s);
    let (a, b) = trim_bounds(&cs);
    a == b
}

/// The position of the first `'\n'` at or after `from`, or `cs.len()`.
fn next_newline(cs: &[char], from: usize) -> (r: usize)
    requires
        from <= cs@.len(),
    ensures
        from <= r <= cs@.len(),
        r < cs@.len() ==> cs@[r as int] == '\n',
        forall|j: int| from <= j < r ==> cs@[j] != '\n',
{
    let mut i = from;
    while i < cs.len() && cs[i] != '\n'
        invariant
            from <= i <= cs@.len(),
            forall|j: int| from <= j < i ==> cs@[j] != '\n',
        decreases cs@.len() - i,
    {
        i = i + 1;
    }
    i
}

/// Lines of `cs` as `str::lines` yields them.
pub fn lines(cs: &[char]) -> (r: Vec<Vec<char>>)
    ensures
        r@.len() == spec_lines(cs@).len(),
        forall|k: int| 0 <= k < r@.len() ==> #[trigger] r@[k]@ == spec_lines(cs@)[k],
{
    let mut r: Vec<Vec<char>> = Vec::new();
    let mut start: usize = 0;
    assert(cs@.skip(0) =~= cs@);
    while start < cs.len()
        invariant
            start <= cs@.len(),
            spec_lines(cs@).len() == r@.len() + spec_lines(cs@.skip(start as int)).len(),
            forall|k: int| 0 <= k < r@.len() ==> #[trigger] r@[k]@ == spec_lines(cs@)[k],
            forall|k: int| 0 <= k < spec_lines(cs@.skip(start as int)).len() ==>
                spec_lines(cs@)[r@.len() + k] == #[trigger] spec_lines(cs@.skip(start as int))[k],
        decreases cs@.len() - start,
    {
        let ghost rest = cs@.skip(start as int);
        let e = next_newline(cs, start);
        proof {
            lemma_index_of_char(rest, '\n', e - start);
        }
        let mut line: Vec<char> = Vec::new();
        let mut stop = e;
        if e < cs.len() && e > start && cs[e - 1] == '\r' {
            stop = e - 1;
        }
        let mut i = start;
        while i < stop
            invariant
                start <= i <= stop <= cs@.len(),
                line@ == cs@.subrange(start as int, i as int),
            decreases stop - i,
        {
            line.push(cs[i]);
            i = i + 1;
            assert(line@ =~= cs@.subrange(start as int, i as int));
        }
        let ghost old_len = r@.len();
        if e < cs.len() {
            proof {
                assert(rest.take(e - start) =~= cs@.subrange(start as int, e as int));
                assert(rest.skip(e - start + 1) =~= cs@.skip(e + 1));
                assert(spec_lines(rest) =~= seq![spec_strip_cr(rest.take(e - start))] + spec_lines(cs@.skip(e + 1)));
                if e > start && cs@[e - 1] == '\r' {
                    assert(line@ =~= spec_strip_cr(rest.take(e - start)));
                } else {
                    assert(line@ =~= spec_strip_cr(rest.take(e - start)));
                }
            }
            r.push(line);
            start = e + 1;
            proof {
                assert(r@[old_len as int]@ == spec_lines(cs@)[old_len as int]) by {
                    assert(spec_lines(rest)[0] == spec_lines(cs@)[old_len as int]);
                }
                assert forall|k: int| 0 <= k < spec_lines(cs@.skip(start as int)).len() implies
                    spec_lines(cs@)[r@.len() + k] == #[trigger] spec_lines(cs@.skip(start as int))[k] by {
                    assert(spec_lines(rest)[k + 1] == spec_lines(cs@.skip(start as int))[k]);
                }
            }
        } else {
            proof {
                assert(rest =~= cs@.subrange(start as int, cs@.len() as int));
                assert(spec_lines(rest) =~= seq![rest]);
                assert(line@ =~= rest);
            }
            r.push(line);
            start = cs.len();
            proof {
                assert(r@[old_len as int]@ == spec_lines(cs@)[old_len as int]) by {
                    assert(spec_lines(rest)[0] == spec_lines(cs@)[old_len as int]);
                }
                assert(cs@.skip(start as int) =~= Seq::<char>::empty());
            }
        }
    }
    proof {
        assert(cs@.skip(start as int) =~= Seq::<char>::empty());
    }
    r
}

/// Whether `x` is among the character sequences in `seen`.
pub fn seq_contains(seen: &Vec<Vec<char>>, x: &[char]) -> (r: bool)
    ensures
        r == seen.deep_view().contains(x@),
{
    let mut i: usize = 0;
    while i < seen.len()
        invariant
            i <= seen@.len(),
            forall|j: int| 0 <= j < i ==> seen@[j]@ != x@,
        decreases seen@.len() - i,
    {
        if chars_eq(&seen[i], x) {
            assert(seen.deep_view()[i as int] == x@);
            return true;
        }
        i = i + 1;
    }
    assert forall|j: int| 0 <= j < seen.deep_view().len() implies seen.deep_view()[j] != x@ by {
        assert(seen.deep_view()[j] == seen@[j]@);
    }
    false
}

/// Builds a string from `cs[from..to]`.
pub fn string_from_range(cs: &[char], from: usize, to: usize) -> (r: String)
    requires
        from <= to <= cs@.len(),
    ensures
        r@ == cs@.subrange(from as int, to as int),
{
    let mut r = String::new();
    push_range(&mut r, cs, from, to);
    r
}

/// Position of the first whitespace character of `s`, or its length.
pub open spec fn spec_first_whitespace(s: Seq<char>) -> int
    decreases s.len(),
{
    if s.len() == 0 || spec_is_whitespace(s[0]) {
        0
    } else {
        1 + spec_first_whitespace(s.drop_first())
    }
}

/// A position before which no whitespace occurs, and at which one does (or
/// the end), is `spec_first_whitespace`.
pub proof fn lemma_first_whitespace(s: Seq<char>, k: int)
    requires
        0 <= k <= s.len(),
        forall|j: int| 0 <= j < k ==> !spec_is_whitespace(s[j]),
        k == s.len() || spec_is_whitespace(s[k]),
    ensures
        spec_first_whitespace(s) == k,
    decreases s.len(),
{
    if s.len() > 0 && k > 0 {
        let t = s.drop_first();
        assert forall|j: int| 0 <= j < k - 1 implies !spec_is_whitespace(t[j]) by {
            assert(t[j] == s[j + 1]);
        }
        lemma_first_whitespace(t, k - 1);
    }
}

/// `spec_first_whitespace` lies within the text, past a leading
/// non-whitespace character.
pub proof fn lemma_first_whitespace_bounds(s: Seq<char>)
    ensures
        0 <= spec_first_whitespace(s) <= s.len(),
        s.len() > 0 && !spec_is_whitespace(s[0]) ==> spec_first_whitespace(s) >= 1,
    decreases s.len(),
{
    if s.len() > 0 && !spec_is_whitespace(s[0]) {
        lemma_first_whitespace_bounds(s.drop_first());
    }
}

/// Trimming the start shortens the text and leaves no leading whitespace.
pub proof fn lemma_trim_start_shape(s: Seq<char>)
    ensures
        spec_trim_start(s).len() <= s.len(),
        spec_trim_start(s).len() > 0 ==> !spec_is_whitespace(spec_trim_start(s)[0]),
    decreases s.len(),
{
    if s.len() > 0 && spec_is_whitespace(s[0]) {
        lemma_trim_start_shape(s.drop_first());
    }
}

/// The whitespace-separated words of `s` (what `str::split_whitespace` yields).
pub open spec fn spec_words(s: Seq<char>) -> Seq<Seq<char>>
    decreases s.len(),
{
    let t = spec_trim_start(s);
    if t.len() == 0 {
        Seq::empty()
    } else {
        let k = spec_first_whitespace(t);
        proof {
            lemma_trim_start_shape(s);
            lemma_first_whitespace_bounds(t);
        }
        seq![t.take(k)] + spec_words(t.skip(k))
    }
}

/// `s` with every leading repetition of `p` removed (`str::trim_start_matches`).
pub open spec fn spec_trim_start_matches(s: Seq<char>, p: Seq<char>) -> Seq<char>
    decreases s.len(),
{
    if p.len() > 0 && spec_starts_with(s, p) {
        spec_trim_start_matches(s.skip(p.len() as int), p)
    } else {
        s
    }
}

/// The position of the first whitespace at or after `from` in `cs`, or `cs.len()`.
pub fn next_whitespace(cs: &[char], from: usize) -> (r: usize)
    requires
        from <= cs@.len(),
    ensures
        from <= r <= cs@.len(),
        r < cs@.len() ==> spec_is_whitespace(cs@[r as int]),
        forall|j: int| from <= j < r ==> !spec_is_whitespace(cs@[j]),
        spec_first_whitespace(cs@.subrange(from as int, cs@.len() as int)) == r - from,
{
    let mut i = from;
    while i < cs.len() && !is_whitespace(cs[i])
        invariant
            from <= i <= cs@.len(),
            forall|j: int| from <= j < i ==> !spec_is_whitespace(cs@[j]),
        decreases cs@.len() - i,
    {
        i = i + 1;
    }
    proof {
        let t = cs@.subrange(from as int, cs@.len() as int);
        assert forall|j: int| 0 <= j < i - from implies !spec_is_whitespace(t[j]) by {
            assert(t[j] == cs@[from + j]);
        }
        if i < cs@.len() {
            assert(t[i - from] == cs@[i as int]);
        }
        lemma_first_whitespace(t, i - from);
    }
    i
}

/// Bounds of the second whitespace-separated word of `cs`; an empty range
/// when `cs` has fewer than two words.
pub fn second_word_bounds(cs: &[char]) -> (r: (usize, usize))
    ensures
        r.0 <= r.1 <= cs@.len(),
        cs@.subrange(r.0 as int, r.1 as int) == (if spec_words(cs@).len() > 1 {
            spec_words(cs@)[1]
        } else {
            Seq::<char>::empty()
        }),
{
    let n = cs.len();
    let (a1, _b1) = trim_range(cs, 0, n);
    assert(cs@.subrange(0, n as int) =~= cs@);
    let ghost t = cs@.subrange(a1 as int, n as int);
    if a1 == n {
        assert(spec_words(cs@) =~= Seq::<Seq<char>>::empty());
        return (n, n);
    }
    let e1 = next_whitespace(cs, a1);
    proof {
        lemma_trim_start_shape(cs@);
        assert(t.take(e1 - a1) =~= cs@.subrange(a1 as int, e1 as int));
        assert(t.skip(e1 - a1) =~= cs@.subrange(e1 as int, n as int));
        assert(spec_words(cs@) == seq![t.take(e1 - a1)] + spec_words(cs@.subrange(e1 as int, n as int)));
    }
    let (a2, _b2) = trim_range(cs, e1, n);
    let ghost u = cs@.subrange(a2 as int, n as int);
    if a2 == n {
        proof {
            assert(spec_words(cs@.subrange(e1 as int, n as int)) =~= Seq::<Seq<char>>::empty());
            assert(spec_words(cs@).len() == 1);
        }
        return (n, n);
    }
    let e2 = next_whitespace(cs, a2);
    proof {
        lemma_trim_start_shape(cs@.subrange(e1 as int, n as int));
        assert(u.take(e2 - a2) =~= cs@.subrange(a2 as int, e2 as int));
        assert(spec_words(cs@.subrange(e1 as int, n as int)) == seq![u.take(e2 - a2)] + spec_words(u.skip(e2 - a2)));
        assert(spec_words(cs@)[1] == cs@.subrange(a2 as int, e2 as int));
    }
    (a2, e2)
}

/// The start of `cs[from..to]` once every leading repetition of `p` is removed.
pub fn trim_start_matches_from(cs: &[char], from: usize, to: usize, p: &[char]) -> (r: usize)
    requires
        from <= to <= cs@.len(),
    ensures
        from <= r <= to,
        spec_trim_start_matches(cs@.subrange(from as int, to as int), p@) == cs@.subrange(r as int, to as int),
{
    if p.len() == 0 {
        return from;
    }
    let mut i = from;
    while to - i >= p.len() && occurs_at(cs, p, i)
        invariant
            from <= i <= to <= cs@.len(),
            p@.len() > 0,
            spec_trim_start_matches(cs@.subrange(from as int, to as int), p@)
                == spec_trim_start_matches(cs@.subrange(i as int, to as int), p@),
        decreases to - i,
    {
        proof {
            let s = cs@.subrange(i as int, to as int);
            assert(s.take(p@.len() as int) =~= cs@.subrange(i as int, i + p@.len()));
            assert(s.skip(p@.len() as int) =~= cs@.subrange(i + p@.len(), to as int));
        }
        i = i + p.len();
    }
    proof {
        let s = cs@.subrange(i as int, to as int);
        if p@.len() <= s.len() {
            assert(s.take(p@.len() as int) =~= cs@.subrange(i as int, i + p@.len()));
        }
    }
    i
}

/// Bounds of the first whitespace-separated word of `cs`, if it has one.
pub fn first_word_bounds(cs: &[char]) -> (r: Option<(usize, usize)>)
    ensures
        match r {
            Some((a, b)) => a <= b <= cs@.len() && spec_words(cs@).len() > 0
                && cs@.subrange(a as int, b as int) == spec_words(cs@)[0],
            None => spec_words(cs@).len() == 0,
        },
{
    let n = cs.len();
    let (a1, _b1) = trim_range(cs, 0, n);
    assert(cs@.subrange(0, n as int) =~= cs@);
    let ghost t = cs@.subrange(a1 as int, n as int);
    if a1 == n {
        assert(spec_words(cs@) =~= Seq::<Seq<char>>::empty());
        return None;
    }
    let e1 = next_whitespace(cs, a1);
    proof {
        lemma_trim_start_shape(cs@);
        assert(t.take(e1 - a1) =~= cs@.subrange(a1 as int, e1 as int));
        assert(spec_words(cs@) == seq![t.take(e1 - a1)] + spec_words(t.skip(e1 - a1)));
    }
    Some((a1, e1))
}

/// Some character of `s` is whitespace.
pub open spec fn spec_has_whitespace(s: Seq<char>) -> bool {
    exists|i: int| 0 <= i < s.len() && spec_is_whitespace(#[trigger] s[i])
}

/// Whether `cs[from..to]` holds a whitespace character.
pub fn range_has_whitespace(cs: &[char], from: usize, to: usize) -> (r: bool)
    requires
        from <= to <= cs@.len(),
    ensures
        r == spec_has_whitespace(cs@.subrange(from as int, to as int)),
{
    let mut i = from;
    while i < to
        invariant
            from <= i <= to <= cs@.len(),
            forall|j: int| from <= j < i ==> !spec_is_whitespace(cs@[j]),
        decreases to - i,
    {
        if is_whitespace(cs[i]) {
            assert(cs@.subrange(from as int, to as int)[i - from] == cs@[i as int]);
            return true;
        }
        i = i + 1;
    }
    assert forall|j: int| 0 <= j < to - from implies !spec_is_whitespace(#[trigger] cs@.subrange(from as int, to as int)[j]) by {
        assert(cs@.subrange(from as int, to as int)[j] == cs@[from + j]);
    }
    false
}

/// The characters `cs[from..to]`.
pub fn chars_range(cs: &[char], from: usize, to: usize) -> (r: Vec<char>)
    requires
        from <= to <= cs@.len(),
    ensures
        r@ == cs@.subrange(from as int, to as int),
{
    let mut r: Vec<char> = Vec::new();
    let mut i = from;
    while i < to
        invariant
            from <= i <= to <= cs@.len(),
            r@ == cs@.subrange(from as int, i as int),
        decreases to - i,
    {
        r.push(cs[i]);
        i = i + 1;
        assert(r@ =~= cs@.subrange(from as int, i as int));
    }
    r
}

/// Joins strings with a separator (`[String]::join`).
pub fn join_strings(parts: &[String], sep: &str) -> (r: String)
    ensures
        r@ == spec_join(parts.deep_view(), sep@),
{
    let mut r = String::new();
    let mut i: usize = 0;
    while i < parts.len()
        invariant
            i <= parts@.len(),
            r@ == spec_join(parts.deep_view().take(i as int), sep@),
        decreases parts@.len() - i,
    {
        let ghost prev = r@;
        if i > 0 {
            push_str(&mut r, sep);
        }
        push_str(&mut r, parts[i].as_str());
        proof {
            let dv = parts.deep_view();
            assert(dv.take(i + 1).drop_last() =~= dv.take(i as int));
            assert(dv.take(i + 1).last() == parts@[i as int]@);
            if i == 0 {
                assert(r@ =~= spec_join(dv.take(i + 1), sep@));
            }
        }
        i = i + 1;
    }
    assert(parts.deep_view().take(parts@.len() as int) =~= parts.deep_view());
    r
}

/// A copy of a vector of strings, element for element.
pub fn copy_strings(v: &Vec<String>) -> (r: Vec<String>)
    ensures
        r.deep_view() == v.deep_view(),
        r@ == v@,
{
    let mut r: Vec<String> = Vec::new();
    let mut i: usize = 0;
    while i < v.len()
        invariant
            i <= v@.len(),
            r@ == v@.take(i as int),
        decreases v@.len() - i,
    {
        r.push(v[i].clone());
        i = i + 1;
        assert(r@ =~= v@.take(i as int));
    }
    assert(v@.take(v@.len() as int) =~= v@);
    r
}

/// A copy of an optional string.
pub fn copy_opt_string(o: &Option<String>) -> (r: Option<String>)
    ensures
        r == *o,
{
    match o {
        Some(s) => Some(s.clone()),
        None => None,
    }
}

/// The digit character of `d` (below ten).
pub open spec fn spec_digit(d: nat) -> char {
    if d == 0 { '0' } else if d == 1 { '1' } else if d == 2 { '2' } else if d == 3 { '3' }
    else if d == 4 { '4' } else if d == 5 { '5' } else if d == 6 { '6' } else if d == 7 { '7' }
    else if d == 8 { '8' } else { '9' }
}

/// The decimal notation of `n`, as `Display` writes it.
pub open spec fn spec_decimal(n: nat) -> Seq<char>
    decreases n,
{
    if n < 10 {
        seq![spec_digit(n)]
    } else {
        spec_decimal(n / 10).push(spec_digit(n % 10))
    }
}

/// Appends the decimal notation of `n`.
pub fn push_decimal(s: &mut String, n: u64)
    ensures
        final(s)@ == old(s)@ + spec_decimal(n as nat),
    decreases n,
{
    if n >= 10 {
        push_decimal(s, n / 10);
    }
    let d = n % 10;
    let c = if d == 0 { '0' } else if d == 1 { '1' } else if d == 2 { '2' } else if d == 3 { '3' }
        else if d == 4 { '4' } else if d == 5 { '5' } else if d == 6 { '6' } else if d == 7 { '7' }
        else if d == 8 { '8' } else { '9' };
    let ghost before = s@;
    push_char(s, c);
    proof {
        if n >= 10 {
            assert(spec_decimal(n as nat) == spec_decimal((n / 10) as nat).push(spec_digit((n % 10) as nat)));
        }
        assert(s@ =~= old(s)@ + spec_decimal(n as nat));
    }
}

/// The decimal notation of `n`.
pub fn decimal(n: u64) -> (r: String)
    ensures
        r@ == spec_decimal(n as nat),
{
    let mut r = String::new();
    push_decimal(&mut r, n);
    r
}

/// The decimal notation of a signed integer.
pub open spec fn spec_signed_decimal(n: int) -> Seq<char> {
    if n < 0 {
        "-"@ + spec_decimal((-n) as nat)
    } else {
        spec_decimal(n as nat)
    }
}

/// Appends the decimal notation of a signed integer.
pub fn push_signed_decimal(s: &mut String, n: i64)
    ensures
        final(s)@ == old(s)@ + spec_signed_decimal(n as int),
{
    if n < 0 {
        push_str(s, "-");
        let m: i128 = -(n as i128);
        push_decimal(s, m as u64);
    } else {
        push_decimal(s, n as u64);
    }
}

/// The string `s` begins with `p` (`str::starts_with`).
pub fn str_starts_with(s: &str, p: &str) -> (r: bool)
    ensures
        r == spec_starts_with(s@, p@),
{
    let x = chars_of(s);
    let y = chars_of(p);
    starts_with(&x, &y)
}

/// The first position at or after `i` where `p` occurs in `s`, or `-1`.
pub open spec fn spec_find_from(s: Seq<char>, p: Seq<char>, i: int) -> int
    decreases s.len() + 1 - i,
{
    if i < 0 || i > s.len() {
        -1
    } else if spec_occurs_at(s, p, i) {
        i
    } else {
        spec_find_from(s, p, i + 1)
    }
}

/// The first position where `p` occurs in `s`, or `-1` (`str::find`).
pub open spec fn spec_find(s: Seq<char>, p: Seq<char>) -> int {
    spec_find_from(s, p, 0)
}

/// What `spec_find_from` returns.
pub proof fn lemma_find_from(s: Seq<char>, p: Seq<char>, i: int)
    requires
        0 <= i,
    ensures
        spec_find_from(s, p, i) >= 0 ==> i <= spec_find_from(s, p, i) && spec_occurs_at(s, p, spec_find_from(s, p, i))
            && forall|j: int| i <= j < spec_find_from(s, p, i) ==> !spec_occurs_at(s, p, j),
        spec_find_from(s, p, i) < 0 ==> forall|j: int| i <= j ==> !spec_occurs_at(s, p, j),
    decreases s.len() + 1 - i,
{
    if i <= s.len() && !spec_occurs_at(s, p, i) {
        lemma_find_from(s, p, i + 1);
    }
}

/// The first position where `p` occurs in `cs`.
pub fn find(cs: &[char], p: &[char]) -> (r: Option<usize>)
    ensures
        match r {
            Some(i) => spec_find(cs@, p@) == i,
            None => spec_find(cs@, p@) < 0,
        },
{
    let mut i: usize = 0;
    loop
        invariant
            i <= cs@.len(),
            spec_find(cs@, p@) == spec_find_from(cs@, p@, i as int),
        ensures
            i == cs@.len(),
            !spec_occurs_at(cs@, p@, i as int),
            spec_find(cs@, p@) == spec_find_from(cs@, p@, i as int),
        decreases cs@.len() - i,
    {
        if occurs_at(cs, p, i) {
            return Some(i);
        }
        if i == cs.len() {
            break;
        }
        i = i + 1;
    }
    assert(spec_find_from(cs@, p@, i + 1) == -1);
    None
}

/// A leading newline does not change the trimmed text.
pub proof fn lemma_trim_skips_leading_newline(s: Seq<char>)
    ensures
        spec_trim("\n"@ + s) == spec_trim(s),
{
    reveal_strlit("\n");
    let t = "\n"@ + s;
    assert(spec_is_whitespace(t[0]));
    assert(t.drop_first() =~= s);
}

} // verus!
