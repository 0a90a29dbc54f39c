//! Text primitives shared by every module: the character model of trimming,
//! splitting, decimal numbers and case-insensitive comparison, with executable
//! functions proved against it.

use vstd::prelude::*;

verus! {

// ---------------------------------------------------------------------------
// Characters
// ---------------------------------------------------------------------------

/// Unicode `White_Space`, which is what `char::is_whitespace` tests.
pub open spec fn is_ws(c: char) -> bool {
    ||| ('\u{9}' <= c && c <= '\u{d}')
    ||| c == ' '
    ||| c == '\u{85}'
    ||| c == '\u{a0}'
    ||| c == '\u{1680}'
    ||| ('\u{2000}' <= c && c <= '\u{200a}')
    ||| c == '\u{2028}'
    ||| c == '\u{2029}'
    ||| c == '\u{202f}'
    ||| c == '\u{205f}'
    ||| c == '\u{3000}'
}

pub fn is_ws_char(c: char) -> (r: bool)
    ensures
        r == is_ws(c),
{
    ('\u{9}' <= c && c <= '\u{d}') || c == ' ' || c == '\u{85}' || c == '\u{a0}' || c
        == '\u{1680}' || ('\u{2000}' <= c && c <= '\u{200a}') || c == '\u{2028}' || c
        == '\u{2029}' || c == '\u{202f}' || c == '\u{205f}' || c == '\u{3000}'
}

pub open spec fn is_digit(c: char) -> bool {
    '0' <= c && c <= '9'
}

pub open spec fn is_ascii_alnum(c: char) -> bool {
    ||| is_digit(c)
    ||| ('a' <= c && c <= 'z')
    ||| ('A' <= c && c <= 'Z')
}

/// ASCII lowercase of one character; everything else is itself.
pub open spec fn lower(c: char) -> char {
    if 'A' <= c && c <= 'Z' {
        ((c as u32) + 32) as char
    } else {
        c
    }
}

pub fn lower_char(c: char) -> (r: char)
    ensures
        r == lower(c),
{
    if 'A' <= c && c <= 'Z' {
        let v: u8 = ((c as u32) + 32) as u8;
        v as char
    } else {
        c
    }
}

pub open spec fn lower_seq(s: Seq<char>) -> Seq<char> {
    s.map_values(|c: char| lower(c))
}

/// `eq_ignore_ascii_case`.
pub open spec fn eq_ic(a: Seq<char>, b: Seq<char>) -> bool {
    lower_seq(a) == lower_seq(b)
}

// ---------------------------------------------------------------------------
// Trimming
// ---------------------------------------------------------------------------

pub open spec fn trim_start_spec(s: Seq<char>) -> Seq<char>
    decreases s.len(),
{
    if s.len() > 0 && is_ws(s[0]) {
        trim_start_spec(s.drop_first())
    } else {
        s
    }
}

pub open spec fn trim_end_spec(s: Seq<char>) -> Seq<char>
    decreases s.len(),
{
    if s.len() > 0 && is_ws(s.last()) {
        trim_end_spec(s.drop_last())
    } else {
        s
    }
}

/// `str::trim`.
pub open spec fn trim_spec(s: Seq<char>) -> Seq<char> {
    trim_end_spec(trim_start_spec(s))
}

proof fn lemma_trim_start_from(s: Seq<char>, i: int)
    requires
        0 <= i <= s.len(),
        forall|k: int| 0 <= k < i ==> is_ws(#[trigger] s[k]),
    ensures
        trim_start_spec(s) == trim_start_spec(s.subrange(i, s.len() as int)),
    decreases i,
{
    if i > 0 {
        assert(s.drop_first() == s.subrange(1, s.len() as int));
        lemma_trim_start_from(s.drop_first(), i - 1);
        assert(s.drop_first().subrange(i - 1, s.drop_first().len() as int) == s.subrange(
            i,
            s.len() as int,
        ));
    } else {
        assert(s.subrange(0, s.len() as int) == s);
    }
}

proof fn lemma_trim_end_to(s: Seq<char>, j: int)
    requires
        0 <= j <= s.len(),
        forall|k: int| j <= k < s.len() ==> is_ws(#[trigger] s[k]),
    ensures
        trim_end_spec(s) == trim_end_spec(s.subrange(0, j)),
    decreases s.len() - j,
{
    if j < s.len() {
        assert(s.drop_last() == s.subrange(0, s.len() - 1));
        lemma_trim_end_to(s.drop_last(), j);
        assert(s.drop_last().subrange(0, j) == s.subrange(0, j));
    } else {
        assert(s.subrange(0, s.len() as int) == s);
    }
}

/// The bounds of `s[lo..hi]` with the surrounding whitespace removed.
pub fn trim_bounds(s: &Vec<char>, lo: usize, hi: usize) -> (r: (usize, usize))
    requires
        lo <= hi <= s.len(),
    ensures
        lo <= r.0 <= r.1 <= hi,
        s@.subrange(r.0 as int, r.1 as int) == trim_spec(s@.subrange(lo as int, hi as int)),
{
    let ghost t = s@.subrange(lo as int, hi as int);
    let mut i = lo;
    while i < hi && is_ws_char(s[i])
        invariant
            lo <= i <= hi <= s.len(),
            t == s@.subrange(lo as int, hi as int),
            forall|k: int| lo <= k < i ==> is_ws(#[trigger] s@[k]),
        decreases hi - i,
    {
        i = i + 1;
    }
    proof {
        assert forall|k: int| 0 <= k < i - lo implies is_ws(#[trigger] t[k]) by {
            assert(t[k] == s@[lo + k]);
        }
        lemma_trim_start_from(t, i - lo);
        assert(t.subrange(i - lo, t.len() as int) == s@.subrange(i as int, hi as int));
        let u = s@.subrange(i as int, hi as int);
        if u.len() > 0 {
            assert(u[0] == s@[i as int]);
        }
        assert(trim_start_spec(u) == u);
    }
    let mut j = hi;
    while j > i && is_ws_char(s[j - 1])
        invariant
            lo <= i <= j <= hi <= s.len(),
            forall|k: int| j <= k < hi ==> is_ws(#[trigger] s@[k]),
        decreases j - i,
    {
        j = j - 1;
    }
    proof {
        let u = s@.subrange(i as int, hi as int);
        assert forall|k: int| j - i <= k < u.len() implies is_ws(#[trigger] u[k]) by {
            assert(u[k] == s@[i + k]);
        }
        lemma_trim_end_to(u, j - i);
        assert(u.subrange(0, j - i) == s@.subrange(i as int, j as int));
        let w = s@.subrange(i as int, j as int);
        if w.len() > 0 {
            assert(w.last() == s@[j - 1]);
        }
        assert(trim_end_spec(w) == w);
    }
    (i, j)
}

// ---------------------------------------------------------------------------
// Moving between `str`, `String` and characters
// ---------------------------------------------------------------------------

/// The characters of a string.
pub fn chars_of(s: &str) -> (v: Vec<char>)
    ensures
        v@ == s@,
{
    let n = s.unicode_len();
    let mut v: Vec<char> = Vec::new();
    let mut i: usize = 0;
    while i < n
        invariant
            n == s@.len(),
            i <= n,
            v@ == s@.subrange(0, i as int),
        decreases n - i,
    {
        let c = s.get_char(i);
        v.push(c);
        i = i + 1;
        assert(v@ == s@.subrange(0, i as int));
    }
    assert(s@.subrange(0, n as int) == s@);
    v
}

/// `String::push`.
#[verifier::external_body]
pub(crate) fn push_char(s: &mut String, c: char)
    ensures
        final(s)@ == old(s)@.push(c),
{
    s.push(c);
}

/// The string made of `v[lo..hi]`.
pub fn string_of(v: &Vec<char>, lo: usize, hi: usize) -> (r: String)
    requires
        lo <= hi <= v.len(),
    ensures
        r@ == v@.subrange(lo as int, hi as int),
{
    let mut r = String::new();
    let mut i = lo;
    while i < hi
        invariant
            lo <= i <= hi <= v.len(),
            r@ == v@.subrange(lo as int, i as int),
        decreases hi - i,
    {
        push_char(&mut r, v[i]);
        i = i + 1;
        assert(r@ == v@.subrange(lo as int, i as int));
    }
    r
}

pub fn string_of_all(v: &Vec<char>) -> (r: String)
    ensures
        r@ == v@,
{
    let r = string_of(v, 0, v.len());
    assert(v@.subrange(0, v.len() as int) == v@);
    r
}

/// A `String` holding the literal or borrowed text.
pub fn owned(s: &str) -> (r: String)
    ensures
        r@ == s@,
{
    String::from_str(s)
}

/// `str::trim`, into a new string.
pub fn trim(s: &str) -> (r: String)
    ensures
        r@ == trim_spec(s@),
{
    let v = chars_of(s);
    let (i, j) = trim_bounds(&v, 0, v.len());
    assert(v@.subrange(0, v.len() as int) == v@);
    string_of(&v, i, j)
}

/// `str::trim_start`, into a new string.
pub fn trim_start(s: &str) -> (r: String)
    ensures
        r@ == trim_start_spec(s@),
{
    let v = chars_of(s);
    let mut i: usize = 0;
    while i < v.len() && is_ws_char(v[i])
        invariant
            i <= v.len(),
            forall|k: int| 0 <= k < i ==> is_ws(#[trigger] v@[k]),
        decreases v.len() - i,
    {
        i = i + 1;
    }
    proof {
        lemma_trim_start_from(v@, i as int);
        let t = v@.subrange(i as int, v.len() as int);
        if i < v.len() {
            assert(t[0] == v@[i as int]);
        }
        assert(trim_start_spec(t) == t);
    }
    string_of(&v, i, v.len())
}

/// Two strings with the same characters.
pub fn str_eq(a: &str, b: &str) -> (r: bool)
    ensures
        r == (a@ == b@),
{
    let x = chars_of(a);
    let y = chars_of(b);
    vec_eq(&x, &y)
}

pub fn vec_eq(x: &Vec<char>, y: &Vec<char>) -> (r: bool)
    ensures
        r == (x@ == y@),
{
    if x.len() != y.len() {
        return false;
    }
    let mut i: usize = 0;
    while i < x.len()
        invariant
            x.len() == y.len(),
            i <= x.len(),
            forall|k: int| 0 <= k < i ==> x@[k] == y@[k],
        decreases x.len() - i,
    {
        if x[i] != y[i] {
            return false;
        }
        i = i + 1;
    }
    assert(x@ =~= y@);
    true
}

/// Whether `v[lo..hi]` spells `w`.
pub fn slice_is(v: &Vec<char>, lo: usize, hi: usize, w: &Vec<char>) -> (r: bool)
    requires
        lo <= hi <= v.len(),
    ensures
        r == (v@.subrange(lo as int, hi as int) == w@),
{
    if hi - lo != w.len() {
        return false;
    }
    let mut i: usize = 0;
    while i < w.len()
        invariant
            lo <= hi <= v.len(),
            hi - lo == w.len(),
            i <= w.len(),
            forall|k: int| 0 <= k < i ==> v@[lo + k] == w@[k],
        decreases w.len() - i,
    {
        if v[lo + i] != w[i] {
            return false;
        }
        i = i + 1;
    }
    assert(v@.subrange(lo as int, hi as int) =~= w@);
    true
}

/// `eq_ignore_ascii_case` over two character slices.
pub fn slice_eq_ic(v: &Vec<char>, lo: usize, hi: usize, w: &Vec<char>, wlo: usize, whi: usize) -> (r:
    bool)
    requires
        lo <= hi <= v.len(),
        wlo <= whi <= w.len(),
    ensures
        r == eq_ic(v@.subrange(lo as int, hi as int), w@.subrange(wlo as int, whi as int)),
{
    let ghost a = v@.subrange(lo as int, hi as int);
    let ghost b = w@.subrange(wlo as int, whi as int);
    if hi - lo != whi - wlo {
        proof {
            assert(lower_seq(a).len() != lower_seq(b).len());
        }
        return false;
    }
    let mut i: usize = 0;
    while i < hi - lo
        invariant
            lo <= hi <= v.len(),
            wlo <= whi <= w.len(),
            hi - lo == whi - wlo,
            i <= hi - lo,
            a == v@.subrange(lo as int, hi as int),
            b == w@.subrange(wlo as int, whi as int),
            forall|k: int| 0 <= k < i ==> lower(#[trigger] a[k]) == lower(b[k]),
        decreases hi - lo - i,
    {
        proof {
            assert(a[i as int] == v@[lo + i]);
            assert(b[i as int] == w@[wlo + i]);
        }
        if lower_char(v[lo + i]) != lower_char(w[wlo + i]) {
            proof {
                assert(lower_seq(a)[i as int] != lower_seq(b)[i as int]);
            }
            return false;
        }
        i = i + 1;
    }
    assert(lower_seq(a) =~= lower_seq(b));
    true
}

// ---------------------------------------------------------------------------
// Searching
// ---------------------------------------------------------------------------

/// Whether `w` occurs in `s` starting at `i`.
pub open spec fn occurs_at(s: Seq<char>, w: Seq<char>, i: int) -> bool {
    0 <= i && i + w.len() <= s.len() && s.subrange(i, i + w.len()) == w
}

/// `str::contains` with a string pattern.
pub open spec fn contains_spec(s: Seq<char>, w: Seq<char>) -> bool {
    exists|i: int| occurs_at(s, w, i)
}

pub open spec fn starts_with_spec(s: Seq<char>, w: Seq<char>) -> bool {
    occurs_at(s, w, 0)
}

pub open spec fn ends_with_spec(s: Seq<char>, w: Seq<char>) -> bool {
    occurs_at(s, w, s.len() - w.len())
}

pub fn vec_starts_with(v: &Vec<char>, lo: usize, hi: usize, w: &Vec<char>) -> (r: bool)
    requires
        lo <= hi <= v.len(),
    ensures
        r == starts_with_spec(v@.subrange(lo as int, hi as int), w@),
{
    if hi - lo < w.len() {
        return false;
    }
    let r = slice_is(v, lo, lo + w.len(), w);
    assert(v@.subrange(lo as int, hi as int).subrange(0, w.len() as int) == v@.subrange(
        lo as int,
        lo + w.len(),
    ));
    r
}

pub fn vec_ends_with(v: &Vec<char>, lo: usize, hi: usize, w: &Vec<char>) -> (r: bool)
    requires
        lo <= hi <= v.len(),
    ensures
        r == ends_with_spec(v@.subrange(lo as int, hi as int), w@),
{
    if hi - lo < w.len() {
        return false;
    }
    let r = slice_is(v, hi - w.len(), hi, w);
    let ghost t = v@.subrange(lo as int, hi as int);
    assert(t.subrange(t.len() - w.len(), t.len() - w.len() + w.len()) == v@.subrange(
        hi - w.len(),
        hi as int,
    ));
    r
}

/// Whether `w` occurs in `s`.
pub fn contains(s: &str, w: &str) -> (r: bool)
    ensures
        r == contains_spec(s@, w@),
{
    let v = chars_of(s);
    let p = chars_of(w);
    match find_from(&v, &p, 0) {
        Some(_) => true,
        None => {
            proof {
                assert forall|i: int| !occurs_at(s@, w@, i) by {
                    if 0 <= i {
                        assert(!occurs_at(v@, p@, i));
                    }
                }
            }
            false
        },
    }
}

/// The first position at or after `from` where `w` occurs in `v`.
pub fn find_from(v: &Vec<char>, w: &Vec<char>, from: usize) -> (r: Option<usize>)
    ensures
        r matches Some(i) ==> from <= i && occurs_at(v@, w@, i as int) && forall|j: int|
            from <= j < i ==> !occurs_at(v@, w@, j),
        r is None ==> forall|j: int| from <= j ==> !occurs_at(v@, w@, j),
{
    if w.len() > v.len() || from > v.len() - w.len() {
        return None;
    }
    let last = v.len() - w.len();
    let mut i = from;
    loop
        invariant
            last == v.len() - w.len(),
            w.len() <= v.len(),
            from <= i <= last,
            forall|j: int| from <= j < i ==> !occurs_at(v@, w@, j),
        decreases last - i,
    {
        if slice_is(v, i, i + w.len(), w) {
            return Some(i);
        }
        if i == last {
            return None;
        }
        i = i + 1;
    }
}

/// The first position of a character in `v[lo..hi]`.
pub fn find_char(v: &Vec<char>, lo: usize, hi: usize, c: char) -> (r: Option<usize>)
    requires
        lo <= hi <= v.len(),
    ensures
        r matches Some(i) ==> lo <= i < hi && v@[i as int] == c && forall|k: int|
            lo <= k < i ==> v@[k] != c,
        r is None ==> forall|k: int| lo <= k < hi ==> v@[k] != c,
{
    let mut i = lo;
    while i < hi
        invariant
            lo <= i <= hi <= v.len(),
            forall|k: int| lo <= k < i ==> v@[k] != c,
        decreases hi - i,
    {
        if v[i] == c {
            return Some(i);
        }
        i = i + 1;
    }
    None
}

/// `i` is the first position of `a` or `b` in `s`.
pub open spec fn is_first2(s: Seq<char>, a: char, b: char, i: int) -> bool {
    &&& 0 <= i < s.len()
    &&& (s[i] == a || s[i] == b)
    &&& forall|k: int| 0 <= k < i ==> s[k] != a && s[k] != b
}

/// `str::split_once` with a pattern matching either of two characters.
pub open spec fn split_once2_spec(s: Seq<char>, a: char, b: char) -> Option<(Seq<char>, Seq<char>)> {
    if exists|i: int| is_first2(s, a, b, i) {
        let i = choose|i: int| is_first2(s, a, b, i);
        Some((s.take(i), s.skip(i + 1)))
    } else {
        None
    }
}

pub proof fn lemma_first2_unique(s: Seq<char>, a: char, b: char, i: int, j: int)
    requires
        is_first2(s, a, b, i),
        is_first2(s, a, b, j),
    ensures
        i == j,
{
    if i < j {
        assert(s[i] != a && s[i] != b);
    } else if j < i {
        assert(s[j] != a && s[j] != b);
    }
}

/// The position `split_once2_spec` splits `v[lo..hi]` at, relative to `lo`.
pub fn split_once2(v: &Vec<char>, lo: usize, hi: usize, a: char, b: char) -> (r: Option<usize>)
    requires
        lo <= hi <= v.len(),
    ensures
        ({
            let s = v@.subrange(lo as int, hi as int);
            match r {
                Some(i) => lo <= i < hi && is_first2(s, a, b, i - lo) && split_once2_spec(s, a, b)
                    == Some((v@.subrange(lo as int, i as int), v@.subrange(i + 1, hi as int))),
                None => split_once2_spec(s, a, b) is None,
            }
        }),
{
    let ghost s = v@.subrange(lo as int, hi as int);
    let mut i = lo;
    while i < hi
        invariant
            lo <= i <= hi <= v.len(),
            s == v@.subrange(lo as int, hi as int),
            forall|k: int| 0 <= k < i - lo ==> s[k] != a && s[k] != b,
        decreases hi - i,
    {
        if v[i] == a || v[i] == b {
            proof {
                assert(s[i - lo] == v@[i as int]);
                assert(is_first2(s, a, b, i - lo));
                let j = choose|j: int| is_first2(s, a, b, j);
                lemma_first2_unique(s, a, b, i - lo, j);
                assert(s.take(i - lo) == v@.subrange(lo as int, i as int));
                assert(s.skip(i - lo + 1) == v@.subrange(i + 1, hi as int));
            }
            return Some(i);
        }
        proof {
            assert(s[i - lo] == v@[i as int]);
        }
        i = i + 1;
    }
    proof {
        assert forall|j: int| !is_first2(s, a, b, j) by {
            if 0 <= j < s.len() {
                assert(s[j] != a && s[j] != b);
            }
        }
    }
    None
}

// ---------------------------------------------------------------------------
// Lines
// ---------------------------------------------------------------------------

/// `i` is the first newline in `s`.
pub open spec fn is_first_nl(s: Seq<char>, i: int) -> bool {
    is_first2(s, '\n', '\n', i)
}

/// A line's content once its `\n` terminator is gone: a `\r` before it goes too.
pub open spec fn strip_cr(l: Seq<char>) -> Seq<char> {
    if l.len() > 0 && l.last() == '\r' {
        l.drop_last()
    } else {
        l
    }
}

/// `str::lines`.
pub open spec fn lines_spec(s: Seq<char>) -> Seq<Seq<char>>
    decreases s.len(),
{
    if s.len() == 0 {
        Seq::empty()
    } else if exists|i: int| is_first_nl(s, i) {
        let i = choose|i: int| is_first_nl(s, i);
        seq![strip_cr(s.take(i))] + lines_spec(s.skip(i + 1))
    } else {
        seq![s]
    }
}

/// The line that starts at `pos`: where its content ends, and where the next
/// line starts.
pub fn next_line(v: &Vec<char>, pos: usize) -> (r: (usize, usize))
    requires
        pos < v.len(),
    ensures
        pos <= r.0 <= r.1 <= v.len(),
        pos < r.1,
        lines_spec(v@.skip(pos as int)) == seq![v@.subrange(pos as int, r.0 as int)] + lines_spec(
            v@.skip(r.1 as int),
        ),
{
    let ghost s = v@.skip(pos as int);
    match split_once2(v, pos, v.len(), '\n', '\n') {
        Some(i) => {
            proof {
                assert(v@.subrange(pos as int, v.len() as int) == s);
                assert(is_first_nl(s, i - pos));
                let j = choose|j: int| is_first_nl(s, j);
                lemma_first2_unique(s, '\n', '\n', i - pos, j);
                assert(s.take(i - pos) == v@.subrange(pos as int, i as int));
                assert(s.skip(i - pos + 1) == v@.skip(i + 1));
            }
            if i > pos && v[i - 1] == '\r' {
                proof {
                    assert(v@.subrange(pos as int, i as int).drop_last() == v@.subrange(
                        pos as int,
                        i - 1,
                    ));
                }
                (i - 1, i + 1)
            } else {
                (i, i + 1)
            }
        },
        None => {
            proof {
                assert(v@.subrange(pos as int, v.len() as int) == s);
                assert(v@.skip(v.len() as int) == Seq::<char>::empty());
                assert(lines_spec(Seq::<char>::empty()) == Seq::<Seq<char>>::empty());
                assert(seq![s] + Seq::<Seq<char>>::empty() =~= seq![s]);
            }
            (v.len(), v.len())
        },
    }
}

/// The whole of `v` is `v` skipped by nothing.
pub proof fn lemma_skip_zero(s: Seq<char>)
    ensures
        s.skip(0) == s,
{
    assert(s.skip(0) =~= s);
}

/// Nothing is left once all of it is skipped.
pub proof fn lemma_lines_of_end(s: Seq<char>)
    ensures
        lines_spec(s.skip(s.len() as int)) == Seq::<Seq<char>>::empty(),
{
    assert(s.skip(s.len() as int) =~= Seq::<char>::empty());
}

// ---------------------------------------------------------------------------
// Building
// ---------------------------------------------------------------------------

/// Every occurrence of one character replaced by another.
pub open spec fn replace_char_spec(s: Seq<char>, from: char, to: char) -> Seq<char> {
    s.map_values(|c: char| if c == from { to } else { c })
}

pub fn replace_char(s: &str, from: char, to: char) -> (r: String)
    ensures
        r@ == replace_char_spec(s@, from, to),
{
    let v = chars_of(s);
    let mut r = String::new();
    let mut i: usize = 0;
    while i < v.len()
        invariant
            v@ == s@,
            i <= v.len(),
            r@ == replace_char_spec(v@.subrange(0, i as int), from, to),
        decreases v.len() - i,
    {
        let c = v[i];
        if c == from {
            push_char(&mut r, to);
        } else {
            push_char(&mut r, c);
        }
        proof {
            assert(v@.subrange(0, i + 1) == v@.subrange(0, i as int).push(c));
        }
        i = i + 1;
        assert(r@ =~= replace_char_spec(v@.subrange(0, i as int), from, to));
    }
    assert(v@.subrange(0, v.len() as int) == v@);
    r
}

/// Every occurrence of a character replaced by a string.
pub open spec fn replace_str_spec(s: Seq<char>, c: char, w: Seq<char>) -> Seq<char>
    decreases s.len(),
{
    if s.len() == 0 {
        Seq::empty()
    } else if s.last() == c {
        replace_str_spec(s.drop_last(), c, w) + w
    } else {
        replace_str_spec(s.drop_last(), c, w).push(s.last())
    }
}

/// `str::replace` with a one-character pattern.
pub fn replace_str(s: &str, c: char, w: &str) -> (r: String)
    ensures
        r@ == replace_str_spec(s@, c, w@),
{
    let v = chars_of(s);
    let mut r = String::new();
    let mut i: usize = 0;
    while i < v.len()
        invariant
            v@ == s@,
            i <= v.len(),
            r@ == replace_str_spec(v@.subrange(0, i as int), c, w@),
        decreases v.len() - i,
    {
        let x = v[i];
        proof {
            assert(v@.subrange(0, i + 1).drop_last() == v@.subrange(0, i as int));
            assert(v@.subrange(0, i + 1).last() == x);
        }
        if x == c {
            r.append(w);
        } else {
            push_char(&mut r, x);
        }
        i = i + 1;
    }
    assert(v@.subrange(0, v.len() as int) == v@);
    r
}

/// `to_ascii_lowercase`.
pub fn lowercase(s: &str) -> (r: String)
    ensures
        r@ == lower_seq(s@),
{
    let v = chars_of(s);
    let mut r = String::new();
    let mut i: usize = 0;
    while i < v.len()
        invariant
            v@ == s@,
            i <= v.len(),
            r@ == lower_seq(v@.subrange(0, i as int)),
        decreases v.len() - i,
    {
        push_char(&mut r, lower_char(v[i]));
        proof {
            assert(v@.subrange(0, i + 1) == v@.subrange(0, i as int).push(v@[i as int]));
        }
        i = i + 1;
        assert(r@ =~= lower_seq(v@.subrange(0, i as int)));
    }
    assert(v@.subrange(0, v.len() as int) == v@);
    r
}

/// The text of `parts`, with `sep` between each two.
pub open spec fn join_spec(parts: Seq<Seq<char>>, sep: Seq<char>) -> Seq<char>
    decreases parts.len(),
{
    if parts.len() == 0 {
        Seq::empty()
    } else if parts.len() == 1 {
        parts[0]
    } else {
        join_spec(parts.drop_last(), sep) + sep + parts.last()
    }
}

pub open spec fn views(v: Seq<String>) -> Seq<Seq<char>> {
    v.map_values(|s: String| s@)
}

pub fn join(parts: &Vec<String>, sep: &str) -> (r: String)
    ensures
        r@ == join_spec(views(parts@), sep@),
{
    let mut r = String::new();
    let mut i: usize = 0;
    while i < parts.len()
        invariant
            i <= parts.len(),
            r@ == join_spec(views(parts@).take(i as int), sep@),
        decreases parts.len() - i,
    {
        let ghost before = views(parts@).take(i as int);
        if i > 0 {
            r.append(sep);
        }
        r.append(parts[i].as_str());
        proof {
            let after = views(parts@).take(i + 1);
            assert(after.drop_last() =~= before);
            assert(after.last() == parts@[i as int]@);
            if i == 0 {
                assert(after.len() == 1);
                assert(r@ =~= after[0]);
            }
        }
        i = i + 1;
    }
    assert(views(parts@).take(parts.len() as int) =~= views(parts@));
    r
}

/// One more string on a list of them.
pub fn push_view(v: &mut Vec<String>, s: String)
    ensures
        views(final(v)@) == views(old(v)@).push(s@),
{
    let ghost before = views(v@);
    let ghost t = s@;
    v.push(s);
    assert(views(v@) =~= before.push(t));
}

/// A list of strings after another.
pub fn append_views(v: &mut Vec<String>, more: Vec<String>)
    ensures
        views(final(v)@) == views(old(v)@) + views(more@),
{
    let ghost before = views(v@);
    let ghost extra = views(more@);
    let mut more = more;
    v.append(&mut more);
    assert(views(v@) =~= before + extra);
}

/// A fresh list holding the same texts.
pub fn copy_strings(v: &Vec<String>) -> (r: Vec<String>)
    ensures
        views(r@) == views(v@),
{
    let mut r: Vec<String> = Vec::new();
    let mut i: usize = 0;
    while i < v.len()
        invariant
            i <= v.len(),
            views(r@) == views(v@).take(i as int),
        decreases v.len() - i,
    {
        let ghost before = views(r@);
        r.push(owned(v[i].as_str()));
        assert(views(r@) =~= before.push(v@[i as int]@));
        assert(views(v@).take(i + 1) =~= views(v@).take(i as int).push(v@[i as int]@));
        i = i + 1;
    }
    assert(views(v@).take(v.len() as int) =~= views(v@));
    r
}

// ---------------------------------------------------------------------------
// Numbers
// ---------------------------------------------------------------------------

pub open spec fn digit_char(d: nat) -> char {
    ((d % 10) + 48) as char
}

pub open spec fn digit_val(c: char) -> nat {
    ((c as u32) - 48) as nat
}

/// The decimal spelling of a number, as `to_string` writes it.
pub open spec fn dec(n: nat) -> Seq<char>
    decreases n,
{
    if n < 10 {
        seq![digit_char(n)]
    } else {
        dec(n / 10).push(digit_char(n % 10))
    }
}

/// The decimal spelling of a number is digits, at least one, and reads back
/// as the number.
pub proof fn lemma_dec_reads_back(n: nat)
    ensures
        dec(n).len() > 0,
        all_digits(dec(n)),
        digits_value(dec(n)) == n,
    decreases n,
{
    let d = digit_char(n);
    assert(48 <= (n % 10) + 48 <= 57);
    assert(is_digit(d));
    assert(digit_val(d) == n % 10);
    if n >= 10 {
        lemma_dec_reads_back(n / 10);
        let s = dec(n);
        assert(s.drop_last() == dec(n / 10));
        assert(s.last() == d);
        assert forall|i: int| 0 <= i < s.len() implies is_digit(#[trigger] s[i]) by {
            if i < s.len() - 1 {
                assert(s[i] == dec(n / 10)[i]);
            }
        }
        assert(digits_value(s) == digits_value(dec(n / 10)) * 10 + digit_val(d));
        assert((n / 10) * 10 + n % 10 == n);
    } else {
        assert(dec(n) =~= seq![d]);
        assert(dec(n).drop_last() =~= Seq::<char>::empty());
        assert(digits_value(dec(n)) == digits_value(Seq::<char>::empty()) * 10 + digit_val(d));
        assert(n % 10 == n);
    }
}

/// `to_string` of an unsigned number.
pub fn dec_string(n: u64) -> (r: String)
    ensures
        r@ == dec(n as nat),
    decreases n,
{
    let d = (n % 10) as u8;
    let ch = (d + 48) as char;
    assert(ch == digit_char(n as nat));
    if n < 10 {
        let mut r = String::new();
        push_char(&mut r, ch);
        assert(r@ =~= seq![ch]);
        r
    } else {
        let mut r = dec_string(n / 10);
        push_char(&mut r, ch);
        r
    }
}

pub open spec fn all_digits(s: Seq<char>) -> bool {
    forall|i: int| 0 <= i < s.len() ==> is_digit(#[trigger] s[i])
}

pub open spec fn digits_value(s: Seq<char>) -> nat
    decreases s.len(),
{
    if s.len() == 0 {
        0
    } else {
        digits_value(s.drop_last()) * 10 + digit_val(s.last())
    }
}

/// The magnitude `str::parse` reads for an unsigned integer: an optional `+`
/// and at least one digit, nothing else.
pub open spec fn parse_nat_spec(s: Seq<char>) -> Option<nat> {
    let body = if s.len() > 0 && s[0] == '+' {
        s.drop_first()
    } else {
        s
    };
    if body.len() > 0 && all_digits(body) {
        Some(digits_value(body))
    } else {
        None
    }
}

/// `str::parse::<u64>` and its narrower siblings, given the largest value.
pub open spec fn parse_uint_spec(s: Seq<char>, max: nat) -> Option<nat> {
    match parse_nat_spec(s) {
        Some(v) => if v <= max {
            Some(v)
        } else {
            None
        },
        None => None,
    }
}

/// `str::parse::<i32>`: an optional sign and at least one digit.
pub open spec fn parse_i32_spec(s: Seq<char>) -> Option<int> {
    if s.len() > 0 && s[0] == '-' {
        let body = s.drop_first();
        if body.len() > 0 && all_digits(body) && digits_value(body) <= 0x8000_0000 {
            Some(-(digits_value(body) as int))
        } else {
            None
        }
    } else {
        match parse_uint_spec(s, 0x7fff_ffff) {
            Some(v) => Some(v as int),
            None => None,
        }
    }
}

/// The value of the digits `v[lo..hi]`, or `None` when one is not a digit, the
/// run is empty, or the value passes `max`.
fn digits_upto(v: &Vec<char>, lo: usize, hi: usize, max: u64) -> (r: Option<u64>)
    requires
        lo <= hi <= v.len(),
    ensures
        ({
            let body = v@.subrange(lo as int, hi as int);
            match r {
                Some(x) => body.len() > 0 && all_digits(body) && x == digits_value(body) && x
                    <= max,
                None => !(body.len() > 0 && all_digits(body) && digits_value(body) <= max),
            }
        }),
{
    let ghost body = v@.subrange(lo as int, hi as int);
    if lo == hi {
        return None;
    }
    let mut acc: u64 = 0;
    let mut i = lo;
    while i < hi
        invariant
            lo <= i <= hi <= v.len(),
            body == v@.subrange(lo as int, hi as int),
            all_digits(v@.subrange(lo as int, i as int)),
            acc == digits_value(v@.subrange(lo as int, i as int)),
            acc <= max,
        decreases hi - i,
    {
        let c = v[i];
        if !('0' <= c && c <= '9') {
            proof {
                assert(body[i - lo] == c);
            }
            return None;
        }
        let d = (c as u32 - 48) as u64;
        let ghost prefix = v@.subrange(lo as int, i + 1);
        proof {
            assert(prefix.drop_last() == v@.subrange(lo as int, i as int));
            assert(prefix.last() == c);
            assert(digits_value(prefix) == acc * 10 + d);
            assert(all_digits(prefix)) by {
                assert forall|k: int| 0 <= k < prefix.len() implies is_digit(#[trigger] prefix[k]) by {
                    if k < prefix.len() - 1 {
                        assert(prefix[k] == v@.subrange(lo as int, i as int)[k]);
                    }
                }
            }
        }
        let next: u128 = (acc as u128) * 10 + (d as u128);
        if next > max as u128 {
            proof {
                lemma_digits_value_grows(body, i + 1 - lo);
                assert(body.subrange(0, i + 1 - lo) == prefix);
            }
            return None;
        }
        acc = next as u64;
        i = i + 1;
    }
    assert(v@.subrange(lo as int, hi as int) == body);
    Some(acc)
}

/// A longer run of digits is worth at least as much as its prefix.
proof fn lemma_digits_value_grows(s: Seq<char>, k: int)
    requires
        0 <= k <= s.len(),
    ensures
        all_digits(s) ==> digits_value(s) >= digits_value(s.subrange(0, k)),
    decreases s.len() - k,
{
    if k < s.len() {
        lemma_digits_value_grows(s.drop_last(), k);
        assert(s.drop_last().subrange(0, k) == s.subrange(0, k));
        if all_digits(s) {
            assert forall|i: int| 0 <= i < s.drop_last().len() implies is_digit(
                #[trigger] s.drop_last()[i],
            ) by {
                assert(s.drop_last()[i] == s[i]);
            }
        }
    } else {
        assert(s.subrange(0, k) == s);
    }
}

/// `str::parse` for an unsigned integer no larger than `max`, over `v[lo..hi]`.
pub fn parse_uint(v: &Vec<char>, lo: usize, hi: usize, max: u64) -> (r: Option<u64>)
    requires
        lo <= hi <= v.len(),
    ensures
        r matches Some(x) ==> parse_uint_spec(v@.subrange(lo as int, hi as int), max as nat)
            == Some(x as nat),
        r is None ==> parse_uint_spec(v@.subrange(lo as int, hi as int), max as nat) is None,
{
    let ghost s = v@.subrange(lo as int, hi as int);
    if lo < hi && v[lo] == '+' {
        proof {
            assert(s[0] == '+');
            assert(s.drop_first() == v@.subrange(lo + 1, hi as int));
        }
        digits_upto(v, lo + 1, hi, max)
    } else {
        proof {
            if s.len() > 0 {
                assert(s[0] == v@[lo as int]);
            }
        }
        digits_upto(v, lo, hi, max)
    }
}

/// `str::parse::<u32>` of a whole string.
pub fn parse_u32(s: &str) -> (r: Option<u32>)
    ensures
        r matches Some(x) ==> parse_uint_spec(s@, 0xffff_ffff) == Some(x as nat),
        r is None ==> parse_uint_spec(s@, 0xffff_ffff) is None,
{
    let v = chars_of(s);
    assert(v@.subrange(0, v.len() as int) == v@);
    match parse_uint(&v, 0, v.len(), 0xffff_ffff) {
        Some(x) => Some(x as u32),
        None => None,
    }
}

/// `str::parse::<i32>` over `v[lo..hi]`.
pub fn parse_i32(v: &Vec<char>, lo: usize, hi: usize) -> (r: Option<i32>)
    requires
        lo <= hi <= v.len(),
    ensures
        r matches Some(x) ==> parse_i32_spec(v@.subrange(lo as int, hi as int)) == Some(x as int),
        r is None ==> parse_i32_spec(v@.subrange(lo as int, hi as int)) is None,
{
    let ghost s = v@.subrange(lo as int, hi as int);
    if lo < hi && v[lo] == '-' {
        proof {
            assert(s[0] == '-');
            assert(s.drop_first() == v@.subrange(lo + 1, hi as int));
        }
        match digits_upto(v, lo + 1, hi, 0x8000_0000) {
            Some(m) => {
                let x: i64 = 0 - (m as i64);
                Some(x as i32)
            },
            None => None,
        }
    } else {
        proof {
            if s.len() > 0 {
                assert(s[0] == v@[lo as int]);
            }
        }
        match parse_uint(v, lo, hi, 0x7fff_ffff) {
            Some(m) => Some(m as i32),
            None => None,
        }
    }
}

} // verus!
