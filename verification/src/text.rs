//! Character-sequence helpers shared by the URL, manifest and payload parsers.
//!
//! Strings are modelled by their sequence of `char`s (`s@`). Positions returned
//! by the search functions are character positions; since every pattern used by
//! the library is ASCII, slicing after a match gives the same text as slicing a
//! `str` at the corresponding byte offset.
use vstd::prelude::*;

verus! {

// ---------------------------------------------------------------------------
// Specifications
// ---------------------------------------------------------------------------

/// The characters of an optional string.
pub open spec fn opt_chars(o: Option<String>) -> Option<Seq<char>> {
    match o {
        Some(s) => Some(s@),
        None => None,
    }
}

/// `p` occurs in `s` starting at position `i`.
pub open spec fn occurs_at(s: Seq<char>, p: Seq<char>, i: int) -> bool {
    0 <= i && i + p.len() <= s.len() && s.subrange(i, i + p.len()) == p
}

/// `i` is the position of the first occurrence of `p` in `s`.
pub open spec fn is_first_occurrence(s: Seq<char>, p: Seq<char>, i: int) -> bool {
    occurs_at(s, p, i) && forall|j: int| 0 <= j < i ==> !occurs_at(s, p, j)
}

/// Position of the first occurrence of `p` in `s` (what `str::find` returns).
pub open spec fn find_spec(s: Seq<char>, p: Seq<char>) -> Option<int> {
    if exists|i: int| is_first_occurrence(s, p, i) {
        Some(choose|i: int| is_first_occurrence(s, p, i))
    } else {
        None
    }
}

/// `s` contains `p` (what `str::contains` returns).
pub open spec fn contains_spec(s: Seq<char>, p: Seq<char>) -> bool {
    find_spec(s, p) is Some
}

/// The part of `s` after the first occurrence of `p`, if `p` occurs.
pub open spec fn after_first(s: Seq<char>, p: Seq<char>) -> Option<Seq<char>> {
    match find_spec(s, p) {
        Some(i) => Some(s.skip(i + p.len())),
        None => None,
    }
}

/// The part of `s` before the first `c` (what `s.split(c).next()` gives).
pub open spec fn before_char(s: Seq<char>, c: char) -> Seq<char> {
    match find_spec(s, seq![c]) {
        Some(i) => s.take(i),
        None => s,
    }
}

/// `s` starts with `p`.
pub open spec fn starts_with_spec(s: Seq<char>, p: Seq<char>) -> bool {
    p.len() <= s.len() && s.take(p.len() as int) == p
}

/// Unicode `White_Space` characters (what `char::is_whitespace` accepts).
pub open spec fn is_whitespace_spec(c: char) -> bool {
    ||| ('\u{9}' <= c && c <= '\u{d}')
    ||| c == ' '
    ||| c == '\u{85}'
    ||| c == '\u{a0}'
    ||| c == '\u{1680}'
    ||| ('\u{2000}' <= c && c <= '\u{200a}')
    ||| c == '\u{2028}'
    ||| c == '\u{2029}'
    ||| c == '\u{202f}'
    ||| c == '\u{205f}'
    ||| c == '\u{3000}'
}

/// `s` without its leading whitespace.
pub open spec fn trim_start_spec(s: Seq<char>) -> Seq<char>
    decreases s.len(),
{
    if s.len() > 0 && is_whitespace_spec(s[0]) {
        trim_start_spec(s.drop_first())
    } else {
        s
    }
}

/// `s` without its trailing whitespace.
pub open spec fn trim_end_spec(s: Seq<char>) -> Seq<char>
    decreases s.len(),
{
    if s.len() > 0 && is_whitespace_spec(s.last()) {
        trim_end_spec(s.drop_last())
    } else {
        s
    }
}

/// `s` without leading and trailing whitespace (what `str::trim` returns).
pub open spec fn trim_spec(s: Seq<char>) -> Seq<char> {
    trim_end_spec(trim_start_spec(s))
}

/// `s` without any leading `c` (what `str::trim_start_matches(c)` returns).
pub open spec fn trim_start_char_spec(s: Seq<char>, c: char) -> Seq<char>
    decreases s.len(),
{
    if s.len() > 0 && s[0] == c {
        trim_start_char_spec(s.drop_first(), c)
    } else {
        s
    }
}

/// `s` without any leading repetitions of a non-empty `p` (what
/// `str::trim_start_matches(p)` returns).
pub open spec fn trim_start_str_spec(s: Seq<char>, p: Seq<char>) -> Seq<char>
    decreases s.len(),
{
    if p.len() > 0 && starts_with_spec(s, p) {
        trim_start_str_spec(s.skip(p.len() as int), p)
    } else {
        s
    }
}

/// `s` without any trailing `c` (what `str::trim_end_matches(c)` returns).
pub open spec fn trim_end_char_spec(s: Seq<char>, c: char) -> Seq<char>
    decreases s.len(),
{
    if s.len() > 0 && s.last() == c {
        trim_end_char_spec(s.drop_last(), c)
    } else {
        s
    }
}

/// `line` without the one `'\r'` that ends it, if any.
pub open spec fn strip_cr(line: Seq<char>) -> Seq<char> {
    if line.len() > 0 && line.last() == '\r' {
        line.drop_last()
    } else {
        line
    }
}

/// The lines of `s` (what `str::lines` yields): `s` is cut after every
/// `'\n'`, the `'\n'` and a `'\r'` just before it are removed, and a final
/// empty piece is not a line.
pub open spec fn lines_spec(s: Seq<char>) -> Seq<Seq<char>>
    decreases s.len(),
{
    if s.len() == 0 {
        seq![]
    } else {
        match find_spec(s, seq!['\n']) {
            Some(i) => seq![strip_cr(s.take(i))] + lines_spec(s.skip(i + 1)),
            None => seq![s],
        }
    }
}

/// The pieces of `s` between the occurrences of `c` (what `s.split(c)`
/// yields; an empty `s` is one empty piece).
pub open spec fn split_spec(s: Seq<char>, c: char) -> Seq<Seq<char>>
    decreases s.len(),
{
    match find_spec(s, seq![c]) {
        Some(i) => if 0 <= i < s.len() {
            seq![s.take(i)] + split_spec(s.skip(i + 1), c)
        } else {
            seq![s]
        },
        None => seq![s],
    }
}

/// The piece of `url` between the first and the second occurrence of
/// `marker` (or the end), as `url.split(marker).nth(1)` gives it.
pub open spec fn second_piece(url: Seq<char>, marker: Seq<char>) -> Seq<char> {
    match after_first(url, marker) {
        Some(rest) => match find_spec(rest, marker) {
            Some(j) => rest.take(j),
            None => rest,
        },
        None => Seq::empty(),
    }
}

// ---------------------------------------------------------------------------
// Lemmas
// ---------------------------------------------------------------------------

/// A position where `p` occurs and before which it does not occur is what
/// `find_spec` returns.
pub proof fn lemma_find_is(s: Seq<char>, p: Seq<char>, i: int)
    requires
        is_first_occurrence(s, p, i),
    ensures
        find_spec(s, p) == Some(i),
{
    let k = choose|k: int| is_first_occurrence(s, p, k);
    assert(is_first_occurrence(s, p, k));
    if k < i {
        assert(!occurs_at(s, p, k));
    } else if i < k {
        assert(!occurs_at(s, p, i));
    }
}

/// If `p` occurs nowhere, `find_spec` gives `None`.
pub proof fn lemma_find_none(s: Seq<char>, p: Seq<char>)
    requires
        forall|j: int| 0 <= j ==> !occurs_at(s, p, j),
    ensures
        find_spec(s, p) is None,
{
}

/// What `find_spec` returns is the first occurrence.
pub proof fn lemma_find_some(s: Seq<char>, p: Seq<char>)
    requires
        find_spec(s, p) is Some,
    ensures
        is_first_occurrence(s, p, find_spec(s, p)->0),
{
}

// ---------------------------------------------------------------------------
// Executable helpers
// ---------------------------------------------------------------------------

/// Appends one character to a `String` (std's `String::push`).
#[verifier::external_body]
pub(crate) fn push_char(s: &mut String, c: char)
    ensures
        final(s)@ == old(s)@.push(c),
{
    s.push(c);
}

/// The characters of `s`, in order.
pub fn chars_of(s: &str) -> (v: Vec<char>)
    ensures
        v@ == s@,
{
    let mut v: Vec<char> = Vec::new();
    for c in it: s.chars()
        invariant
            v@ == it.seq().take(it.index() as int),
    {
        v.push(c);
    }
    v
}

/// A `String` made of the characters `v`.
pub fn string_of(v: &[char]) -> (s: String)
    ensures
        s@ == v@,
{
    let mut s = String::new();
    let mut i: usize = 0;
    while i < v.len()
        invariant
            i <= v.len(),
            s@ == v@.take(i as int),
        decreases v.len() - i,
    {
        push_char(&mut s, v[i]);
        i = i + 1;
        assert(s@ =~= v@.take(i as int));
    }
    assert(v@.take(v.len() as int) =~= v@);
    s
}

/// The characters `v[from..to]` as a new vector.
pub fn slice_of(v: &[char], from: usize, to: usize) -> (r: Vec<char>)
    requires
        from <= to <= v.len(),
    ensures
        r@ == v@.subrange(from as int, to as int),
{
    vstd::slice::slice_to_vec(&v[from..to])
}

/// `s` followed by `t`.
pub fn concat_chars(s: &[char], t: &[char]) -> (r: Vec<char>)
    ensures
        r@ == s@ + t@,
{
    let mut r = vstd::slice::slice_to_vec(s);
    let mut i: usize = 0;
    while i < t.len()
        invariant
            i <= t.len(),
            r@ == s@ + t@.take(i as int),
        decreases t.len() - i,
    {
        r.push(t[i]);
        i = i + 1;
        assert(r@ =~= s@ + t@.take(i as int));
    }
    assert(t@.take(t.len() as int) =~= t@);
    r
}

/// Whether `p` occurs in `s` at position `i`.
pub fn matches_at(s: &[char], p: &[char], i: usize) -> (b: bool)
    ensures
        b == occurs_at(s@, p@, i as int),
{
    if i > s.len() || p.len() > s.len() - i {
        return false;
    }
    let mut k: usize = 0;
    while k < p.len()
        invariant
            i + p.len() <= s.len(),
            k <= p.len(),
            forall|m: int| 0 <= m < k ==> s@[i + m] == p@[m],
        decreases p.len() - k,
    {
        if s[i + k] != p[k] {
            assert(s@.subrange(i as int, i + p.len())[k as int] != p@[k as int]);
            return false;
        }
        k = k + 1;
    }
    assert(s@.subrange(i as int, i + p.len()) =~= p@);
    true
}

/// Position of the first occurrence of `p` in `s`.
pub fn find(s: &[char], p: &[char]) -> (r: Option<usize>)
    ensures
        r matches Some(i) ==> find_spec(s@, p@) == Some(i as int) && is_first_occurrence(
            s@,
            p@,
            i as int,
        ),
        r is None ==> find_spec(s@, p@) is None,
{
    if p.len() > s.len() {
        proof {
            assert forall|j: int| 0 <= j implies !occurs_at(s@, p@, j) by {}
            lemma_find_none(s@, p@);
        }
        return None;
    }
    if p.len() == 0 {
        proof {
            assert(s@.subrange(0, 0) =~= p@);
            lemma_find_is(s@, p@, 0);
        }
        return Some(0);
    }
    let last = s.len() - p.len();
    let mut i: usize = 0;
    while i <= last
        invariant
            p.len() > 0,
            last == s.len() - p.len(),
            i <= last + 1,
            forall|j: int| 0 <= j < i ==> !occurs_at(s@, p@, j),
        decreases last + 1 - i,
    {
        if matches_at(s, p, i) {
            proof {
                lemma_find_is(s@, p@, i as int);
            }
            return Some(i);
        }
        i = i + 1;
    }
    proof {
        assert forall|j: int| 0 <= j implies !occurs_at(s@, p@, j) by {
            if j < i {
            }
        }
        lemma_find_none(s@, p@);
    }
    None
}

/// Position of the first `c` in `s`.
pub fn find_char(s: &[char], c: char) -> (r: Option<usize>)
    ensures
        r matches Some(i) ==> find_spec(s@, seq![c]) == Some(i as int) && i < s@.len() && s@[i as int]
            == c,
        r is None ==> find_spec(s@, seq![c]) is None,
{
    let mut i: usize = 0;
    while i < s.len()
        invariant
            i <= s.len(),
            forall|j: int| 0 <= j < i ==> s@[j] != c,
        decreases s.len() - i,
    {
        if s[i] == c {
            proof {
                assert(s@.subrange(i as int, i + 1) =~= seq![c]);
                assert forall|j: int| 0 <= j < i implies !occurs_at(s@, seq![c], j) by {
                    assert(s@.subrange(j, j + 1)[0] == s@[j]);
                }
                lemma_find_is(s@, seq![c], i as int);
            }
            return Some(i);
        }
        i = i + 1;
    }
    proof {
        assert forall|j: int| 0 <= j implies !occurs_at(s@, seq![c], j) by {
            if j < s.len() {
                assert(s@.subrange(j, j + 1)[0] == s@[j]);
            }
        }
        lemma_find_none(s@, seq![c]);
    }
    None
}

/// Whether `s` contains `p`.
pub fn contains(s: &[char], p: &[char]) -> (b: bool)
    ensures
        b == contains_spec(s@, p@),
{
    find(s, p).is_some()
}

/// The part of `s` after the first occurrence of `marker`.
pub fn after(s: &[char], marker: &str) -> (r: Option<Vec<char>>)
    ensures
        match r {
            Some(v) => after_first(s@, marker@) == Some(v@),
            None => after_first(s@, marker@) is None,
        },
{
    let m = chars_of(marker);
    match find(s, m.as_slice()) {
        Some(i) => {
            let n = s.len();
            let rest = slice_of(s, i + m.len(), n);
            assert(rest@ =~= s@.skip(i + m@.len()));
            Some(rest)
        },
        None => None,
    }
}

/// Whether `s` contains `marker`.
pub fn has(s: &[char], marker: &str) -> (b: bool)
    ensures
        b == contains_spec(s@, marker@),
{
    let m = chars_of(marker);
    contains(s, m.as_slice())
}

/// Whether `s` starts with `prefix`.
pub fn begins_with(s: &[char], prefix: &str) -> (b: bool)
    ensures
        b == starts_with_spec(s@, prefix@),
{
    let m = chars_of(prefix);
    starts_with(s, m.as_slice())
}

/// `a` followed by `b`.
pub fn join(a: &str, b: &str) -> (r: String)
    ensures
        r@ == a@ + b@,
{
    String::from_str(a).concat(b)
}

/// `s` without any leading repetitions of `p` (see [`trim_start_str_spec`]).
pub fn trim_start_str(s: &[char], p: &str) -> (r: Vec<char>)
    ensures
        r@ == trim_start_str_spec(s@, p@),
{
    let m = chars_of(p);
    let n = s.len();
    let mut i: usize = 0;
    assert(s@.skip(0) =~= s@);
    while m.len() > 0 && m.len() <= n - i && matches_at(s, m.as_slice(), i)
        invariant
            m@ == p@,
            n == s@.len(),
            i <= n,
            trim_start_str_spec(s@, p@) == trim_start_str_spec(s@.skip(i as int), p@),
        decreases n - i,
    {
        assert(s@.skip(i as int).take(m@.len() as int) =~= s@.subrange(i as int, i + m@.len()));
        assert(s@.skip(i as int).skip(m@.len() as int) =~= s@.skip(i + m@.len()));
        i = i + m.len();
    }
    proof {
        if m@.len() > 0 && i + m@.len() <= n {
            assert(s@.skip(i as int).take(m@.len() as int) =~= s@.subrange(i as int, i + m@.len()));
        }
    }
    slice_of(s, i, n)
}

/// The character sequences of a list of character vectors.
pub open spec fn pieces_view(v: Seq<Vec<char>>) -> Seq<Seq<char>> {
    v.map_values(|p: Vec<char>| p@)
}

/// The pieces of `s` between the occurrences of `c` (see [`split_spec`]).
pub fn split_char(s: &[char], c: char) -> (r: Vec<Vec<char>>)
    ensures
        pieces_view(r@) == split_spec(s@, c),
{
    let n = s.len();
    let mut pieces: Vec<Vec<char>> = Vec::new();
    let mut start: usize = 0;
    let mut i: usize = 0;
    assert(s@.skip(0) =~= s@);
    assert(pieces_view(pieces@) + split_spec(s@, c) =~= split_spec(s@, c));
    while i < n
        invariant
            n == s@.len(),
            start <= i <= n,
            forall|k: int| start <= k < i ==> s@[k] != c,
            split_spec(s@, c) == pieces_view(pieces@) + split_spec(s@.skip(start as int), c),
        decreases n - i,
    {
        if s[i] == c {
            let piece = slice_of(s, start, i);
            let ghost before = pieces_view(pieces@);
            proof {
                let t = s@.skip(start as int);
                let j = i - start;
                assert(t.subrange(j, j + 1) =~= seq![c]);
                assert forall|k: int| 0 <= k < j implies !occurs_at(t, seq![c], k) by {
                    assert(t.subrange(k, k + 1)[0] == t[k]);
                }
                lemma_find_is(t, seq![c], j);
                assert(t.take(j) =~= piece@);
                assert(t.skip(j + 1) =~= s@.skip(i + 1));
                assert(split_spec(t, c) == seq![piece@] + split_spec(s@.skip(i + 1), c));
            }
            let ghost pv = piece@;
            pieces.push(piece);
            assert(pieces_view(pieces@) =~= before.push(pv));
            assert(before + (seq![pv] + split_spec(s@.skip(i + 1), c)) =~= before.push(pv)
                + split_spec(s@.skip(i + 1), c));
            start = i + 1;
        }
        i = i + 1;
    }
    let last = slice_of(s, start, n);
    let ghost before = pieces_view(pieces@);
    proof {
        let t = s@.skip(start as int);
        assert forall|k: int| 0 <= k implies !occurs_at(t, seq![c], k) by {
            if k < t.len() {
                assert(t.subrange(k, k + 1)[0] == t[k]);
            }
        }
        lemma_find_none(t, seq![c]);
        assert(t =~= last@);
    }
    let ghost lv = last@;
    pieces.push(last);
    assert(pieces_view(pieces@) =~= before + seq![lv]);
    pieces
}

/// The part of `s` before the first `c`.
pub fn before(s: &[char], c: char) -> (r: Vec<char>)
    ensures
        r@ == before_char(s@, c),
{
    match find_char(s, c) {
        Some(i) => slice_of(s, 0, i),
        None => {
            assert(s@.subrange(0, s.len() as int) =~= s@);
            slice_of(s, 0, s.len())
        },
    }
}

/// Whether `s` starts with `p`.
pub fn starts_with(s: &[char], p: &[char]) -> (b: bool)
    ensures
        b == starts_with_spec(s@, p@),
{
    let b = matches_at(s, p, 0);
    proof {
        if p.len() <= s.len() {
            assert(s@.subrange(0, p.len() as int) =~= s@.take(p.len() as int));
        }
    }
    b
}

/// Whether `c` is a Unicode `White_Space` character.
pub fn is_whitespace(c: char) -> (b: bool)
    ensures
        b == is_whitespace_spec(c),
{
    ('\u{9}' <= c && c <= '\u{d}') || c == ' ' || c == '\u{85}' || c == '\u{a0}'
        || c == '\u{1680}' || ('\u{2000}' <= c && c <= '\u{200a}') || c == '\u{2028}'
        || c == '\u{2029}' || c == '\u{202f}' || c == '\u{205f}' || c == '\u{3000}'
}

/// `s` without leading and trailing whitespace.
pub fn trim(s: &[char]) -> (r: Vec<char>)
    ensures
        r@ == trim_spec(s@),
{
    let mut a: usize = 0;
    assert(s@.skip(0) =~= s@);
    while a < s.len() && is_whitespace(s[a])
        invariant
            a <= s.len(),
            trim_start_spec(s@) == trim_start_spec(s@.skip(a as int)),
        decreases s.len() - a,
    {
        assert(s@.skip(a as int).drop_first() =~= s@.skip(a + 1));
        a = a + 1;
    }
    assert(trim_start_spec(s@.skip(a as int)) == s@.skip(a as int));
    let mut b: usize = s.len();
    assert(s@.subrange(a as int, s.len() as int) =~= s@.skip(a as int));
    while b > a && is_whitespace(s[b - 1])
        invariant
            a <= b <= s.len(),
            trim_spec(s@) == trim_end_spec(s@.subrange(a as int, b as int)),
        decreases b,
    {
        assert(s@.subrange(a as int, b as int).drop_last() =~= s@.subrange(a as int, b - 1));
        b = b - 1;
    }
    slice_of(s, a, b)
}

/// `s` without any leading `c`.
pub fn trim_start_char(s: &[char], c: char) -> (r: Vec<char>)
    ensures
        r@ == trim_start_char_spec(s@, c),
{
    let mut a: usize = 0;
    assert(s@.skip(0) =~= s@);
    while a < s.len() && s[a] == c
        invariant
            a <= s.len(),
            trim_start_char_spec(s@, c) == trim_start_char_spec(s@.skip(a as int), c),
        decreases s.len() - a,
    {
        assert(s@.skip(a as int).drop_first() =~= s@.skip(a + 1));
        a = a + 1;
    }
    assert(s@.skip(a as int) =~= s@.subrange(a as int, s.len() as int));
    slice_of(s, a, s.len())
}

/// `s` without any trailing `c`.
pub fn trim_end_char(s: &[char], c: char) -> (r: Vec<char>)
    ensures
        r@ == trim_end_char_spec(s@, c),
{
    let mut b: usize = s.len();
    assert(s@.take(s.len() as int) =~= s@);
    while b > 0 && s[b - 1] == c
        invariant
            b <= s.len(),
            trim_end_char_spec(s@, c) == trim_end_char_spec(s@.take(b as int), c),
        decreases b,
    {
        assert(s@.take(b as int).drop_last() =~= s@.take(b - 1));
        b = b - 1;
    }
    assert(s@.take(b as int) =~= s@.subrange(0, b as int));
    slice_of(s, 0, b)
}

/// The lines of `s`.
pub fn lines(s: &[char]) -> (r: Vec<Vec<char>>)
    ensures
        r.deep_view() == lines_spec(s@),
{
    let mut r: Vec<Vec<char>> = Vec::new();
    let mut pos: usize = 0;
    assert(s@.skip(0) =~= s@);
    while pos < s.len()
        invariant
            pos <= s.len(),
            r.deep_view() + lines_spec(s@.skip(pos as int)) == lines_spec(s@),
        decreases s.len() - pos,
    {
        let rest = slice_of(s, pos, s.len());
        assert(rest@ =~= s@.skip(pos as int));
        assert(rest@.len() > 0);
        match find_char(&rest, '\n') {
            Some(i) => {
                assert(lines_spec(rest@) == seq![strip_cr(rest@.take(i as int))] + lines_spec(
                    rest@.skip(i + 1),
                ));
                let mut line = slice_of(&rest, 0, i);
                if i > 0 && line[i - 1] == '\r' {
                    line.pop();
                    assert(line@ =~= strip_cr(rest@.take(i as int)));
                } else {
                    assert(line@ =~= strip_cr(rest@.take(i as int)));
                }
                let ghost old_r = r.deep_view();
                assert(line.deep_view() =~= line@);
                r.push(line);
                assert(r.deep_view() =~= old_r.push(line@));
                assert(rest@.skip(i + 1) =~= s@.skip(pos + i + 1));
                assert(old_r + lines_spec(rest@) =~= r.deep_view() + lines_spec(
                    s@.skip(pos + i + 1),
                ));
                pos = pos + i + 1;
            },
            None => {
                assert(lines_spec(rest@) == seq![rest@]);
                let ghost old_r = r.deep_view();
                assert(rest.deep_view() =~= rest@);
                r.push(rest);
                assert(r.deep_view() =~= old_r.push(rest@));
                assert(s@.skip(s.len() as int) =~= Seq::<char>::empty());
                assert(old_r + lines_spec(rest@) =~= r.deep_view() + lines_spec(
                    s@.skip(s.len() as int),
                ));
                pos = s.len();
            },
        }
    }
    assert(s@.skip(s.len() as int) =~= Seq::<char>::empty());
    assert(r.deep_view() + Seq::<Seq<char>>::empty() =~= r.deep_view());
    r
}

/// The piece of `url` between the first and second occurrence of `marker`.
pub fn second_piece_of(url: &[char], marker: &str) -> (r: Vec<char>)
    ensures
        r@ == second_piece(url@, marker@),
{
    let m = chars_of(marker);
    match find(url, m.as_slice()) {
        Some(i) => {
            let n = url.len();
            let rest = slice_of(url, i + m.len(), n);
            assert(rest@ =~= url@.skip(i + m@.len()));
            match find(&rest, &m) {
                Some(j) => slice_of(&rest, 0, j),
                None => rest,
            }
        },
        None => Vec::new(),
    }
}

/// `rel` appended to the path `base` with one `/` between them, as
/// `Path::join` does for a relative `rel` (an empty `base` gives `rel`).
pub open spec fn join_path_spec(base: Seq<char>, rel: Seq<char>) -> Seq<char> {
    if base.len() == 0 {
        rel
    } else if base.last() == '/' {
        base + rel
    } else {
        base + seq!['/'] + rel
    }
}

/// Joins the relative path `rel` onto `base` (see [`join_path_spec`]).
pub fn join_path(base: &str, rel: &str) -> (r: String)
    ensures
        r@ == join_path_spec(base@, rel@),
{
    let b = chars_of(base);
    if b.len() == 0 {
        String::from_str(rel)
    } else if b[b.len() - 1] == '/' {
        String::from_str(base).concat(rel)
    } else {
        let mut s = string_of(&b);
        push_char(&mut s, '/');
        s.concat(rel)
    }
}

/// Number of bytes of `c` in UTF-8.
pub open spec fn utf8_char_len(c: char) -> nat {
    if (c as u32) < 0x80 {
        1
    } else if (c as u32) < 0x800 {
        2
    } else if (c as u32) < 0x10000 {
        3
    } else {
        4
    }
}

/// Number of bytes of `s` in UTF-8 (what `str::len` returns).
pub open spec fn utf8_len(s: Seq<char>) -> nat
    decreases s.len(),
{
    if s.len() == 0 {
        0
    } else {
        utf8_len(s.drop_last()) + utf8_char_len(s.last())
    }
}

/// Whether the UTF-8 encoding of `s` is exactly `n` bytes long.
pub fn utf8_len_is(s: &[char], n: usize) -> (b: bool)
    ensures
        b == (utf8_len(s@) == n),
{
    let mut total: usize = 0;
    let mut i: usize = 0;
    while i < s.len()
        invariant
            i <= s.len(),
            total == utf8_len(s@.take(i as int)),
            total <= n,
        decreases s.len() - i,
    {
        let c = s[i];
        let w: usize = if (c as u32) < 0x80 {
            1
        } else if (c as u32) < 0x800 {
            2
        } else if (c as u32) < 0x10000 {
            3
        } else {
            4
        };
        assert(s@.take(i + 1).drop_last() =~= s@.take(i as int));
        if w > n - total {
            proof {
                lemma_utf8_len_prefix(s@, i + 1);
            }
            return false;
        }
        total = total + w;
        i = i + 1;
    }
    assert(s@.take(s.len() as int) =~= s@);
    total == n
}

/// The UTF-8 length of a prefix is at most that of the whole sequence.
proof fn lemma_utf8_len_prefix(s: Seq<char>, k: int)
    requires
        0 <= k <= s.len(),
    ensures
        utf8_len(s.take(k)) <= utf8_len(s),
    decreases s.len() - k,
{
    if k < s.len() {
        lemma_utf8_len_prefix(s, k + 1);
        assert(s.take(k + 1).drop_last() =~= s.take(k));
    } else {
        assert(s.take(k) =~= s);
    }
}

/// Whether two strings have the same characters.
pub fn str_eq(a: &str, b: &str) -> (r: bool)
    ensures
        r == (a@ == b@),
{
    let x = chars_of(a);
    let y = chars_of(b);
    if x.len() != y.len() {
        assert(x@.len() != y@.len());
        return false;
    }
    let mut i: usize = 0;
    while i < x.len()
        invariant
            x@ == a@,
            y@ == b@,
            x@.len() == y@.len(),
            i <= x@.len(),
            forall|k: int| 0 <= k < i ==> x@[k] == y@[k],
        decreases x.len() - i,
    {
        if x[i] != y[i] {
            assert(x@[i as int] != y@[i as int]);
            return false;
        }
        i = i + 1;
    }
    assert(x@ =~= y@);
    true
}

} // verus!
