//! Taking text apart: on a character, on whitespace, and replacing a pattern,
//! each against a definition of what `str`'s method of the same job returns.

use vstd::prelude::*;

use crate::text::{
    chars_of, eq_ic, is_first2, is_ws, is_ws_char, lemma_first2_unique, lemma_skip_zero, lower_seq,
    lemma_lines_of_end, lines_spec, next_line, owned, push_char, slice_eq_ic, slice_is, split_once2, starts_with_spec, string_of, views,
    ends_with_spec, vec_ends_with,
};

verus! {

/// `str::split` on one character: the pieces between its occurrences, empty
/// ones included, and one piece for text without it.
pub open spec fn split_spec(s: Seq<char>, c: char) -> Seq<Seq<char>>
    decreases s.len(),
{
    if exists|i: int| is_first2(s, c, c, i) {
        let i = choose|i: int| is_first2(s, c, c, i);
        seq![s.take(i)] + split_spec(s.skip(i + 1), c)
    } else {
        seq![s]
    }
}

pub fn split_char(s: &str, c: char) -> (r: Vec<String>)
    ensures
        views(r@) == split_spec(s@, c),
{
    let v = chars_of(s);
    let mut out: Vec<String> = Vec::new();
    let mut pos: usize = 0;
    let mut done = false;
    proof {
        lemma_skip_zero(v@);
        assert(views(out@) + split_spec(v@.skip(0), c) =~= split_spec(v@, c));
    }
    while !done
        invariant
            pos <= v.len(),
            v@ == s@,
            done ==> split_spec(v@, c) == views(out@),
            !done ==> split_spec(v@, c) == views(out@) + split_spec(v@.skip(pos as int), c),
        decreases v.len() - pos + (if done { 0int } else { 1int }),
    {
        let ghost rest = v@.skip(pos as int);
        proof {
            assert(v@.subrange(pos as int, v.len() as int) == rest);
        }
        let ghost before = views(out@);
        match split_once2(&v, pos, v.len(), c, c) {
            Some(i) => {
                proof {
                    let j = choose|j: int| is_first2(rest, c, c, j);
                    lemma_first2_unique(rest, c, c, i - pos, j);
                    assert(rest.take(i - pos) == v@.subrange(pos as int, i as int));
                    assert(rest.skip(i - pos + 1) == v@.skip(i + 1));
                }
                out.push(string_of(&v, pos, i));
                proof {
                    assert(views(out@) =~= before.push(v@.subrange(pos as int, i as int)));
                    assert(before + (seq![v@.subrange(pos as int, i as int)] + split_spec(
                        v@.skip(i + 1),
                        c,
                    )) =~= views(out@) + split_spec(v@.skip(i + 1), c));
                }
                pos = i + 1;
            },
            None => {
                out.push(string_of(&v, pos, v.len()));
                proof {
                    assert(views(out@) =~= before + seq![rest]);
                }
                done = true;
            },
        }
    }
    out
}

/// `i` is where the first whitespace character of `s` is.
pub open spec fn is_first_ws(s: Seq<char>, i: int) -> bool {
    &&& 0 <= i < s.len()
    &&& is_ws(s[i])
    &&& forall|k: int| 0 <= k < i ==> !is_ws(s[k])
}

/// `str::split_whitespace`: the maximal runs of characters that are not
/// whitespace, in order.
pub open spec fn words_spec(s: Seq<char>) -> Seq<Seq<char>>
    decreases s.len(),
{
    if s.len() == 0 {
        Seq::empty()
    } else if is_ws(s[0]) {
        words_spec(s.skip(1))
    } else if exists|i: int| is_first_ws(s, i) {
        let i = choose|i: int| is_first_ws(s, i);
        seq![s.take(i)] + words_spec(s.skip(i))
    } else {
        seq![s]
    }
}

proof fn lemma_first_ws_unique(s: Seq<char>, i: int, j: int)
    requires
        is_first_ws(s, i),
        is_first_ws(s, j),
    ensures
        i == j,
{
    if i < j {
        assert(!is_ws(s[i]));
    } else if j < i {
        assert(!is_ws(s[j]));
    }
}

/// The words of `v[lo..]` followed by those after it, one word at a time.
pub fn words(s: &str) -> (r: Vec<String>)
    ensures
        views(r@) == words_spec(s@),
{
    let v = chars_of(s);
    let mut out: Vec<String> = Vec::new();
    let mut pos: usize = 0;
    proof {
        lemma_skip_zero(v@);
        assert(views(out@) + words_spec(v@.skip(0)) =~= words_spec(v@));
    }
    while pos < v.len()
        invariant
            pos <= v.len(),
            v@ == s@,
            words_spec(v@) == views(out@) + words_spec(v@.skip(pos as int)),
        decreases v.len() - pos,
    {
        let ghost rest = v@.skip(pos as int);
        if is_ws_char(v[pos]) {
            proof {
                assert(rest[0] == v@[pos as int]);
                assert(rest.skip(1) =~= v@.skip(pos + 1));
            }
            pos = pos + 1;
        } else {
            let mut j = pos + 1;
            while j < v.len() && !is_ws_char(v[j])
                invariant
                    pos < j <= v.len(),
                    forall|k: int| pos <= k < j ==> !is_ws(#[trigger] v@[k]),
                decreases v.len() - j,
            {
                j = j + 1;
            }
            let ghost before = views(out@);
            out.push(string_of(&v, pos, j));
            proof {
                assert(rest[0] == v@[pos as int]);
                assert(forall|k: int| 0 <= k < j - pos ==> rest[k] == v@[pos + k]);
                if j < v.len() {
                    assert(is_first_ws(rest, j - pos));
                    let i = choose|i: int| is_first_ws(rest, i);
                    lemma_first_ws_unique(rest, i, j - pos);
                    assert(rest.take(j - pos) =~= v@.subrange(pos as int, j as int));
                    assert(rest.skip(j - pos) =~= v@.skip(j as int));
                } else {
                    assert forall|i: int| !is_first_ws(rest, i) by {
                        if 0 <= i < rest.len() {
                            assert(rest[i] == v@[pos + i]);
                        }
                    }
                    assert(rest =~= v@.subrange(pos as int, j as int));
                    assert(v@.skip(j as int) =~= Seq::<char>::empty());
                    assert(words_spec(v@.skip(j as int)) =~= Seq::<Seq<char>>::empty());
                }
                assert(views(out@) =~= before.push(v@.subrange(pos as int, j as int)));
                assert(before + (seq![v@.subrange(pos as int, j as int)] + words_spec(
                    v@.skip(j as int),
                )) =~= views(out@) + words_spec(v@.skip(j as int)));
            }
            pos = j;
        }
    }
    proof {
        assert(v@.skip(v.len() as int) =~= Seq::<char>::empty());
        assert(views(out@) + Seq::<Seq<char>>::empty() =~= views(out@));
    }
    out
}

/// `str::replace` with a non-empty pattern: each occurrence, left to right and
/// not overlapping, replaced.
pub open spec fn replace_all_spec(s: Seq<char>, p: Seq<char>, w: Seq<char>) -> Seq<char>
    decreases s.len(),
{
    if p.len() == 0 || s.len() < p.len() {
        s
    } else if s.take(p.len() as int) == p {
        w + replace_all_spec(s.skip(p.len() as int), p, w)
    } else {
        seq![s[0]] + replace_all_spec(s.skip(1), p, w)
    }
}

pub fn replace_all(s: &str, pattern: &str, with: &str) -> (r: String)
    requires
        pattern@.len() > 0,
    ensures
        r@ == replace_all_spec(s@, pattern@, with@),
{
    let v = chars_of(s);
    let p = chars_of(pattern);
    let mut r = String::new();
    let mut i: usize = 0;
    proof {
        lemma_skip_zero(v@);
        assert(r@ + replace_all_spec(v@.skip(0), p@, with@) =~= replace_all_spec(v@, p@, with@));
    }
    while i < v.len()
        invariant
            i <= v.len(),
            v@ == s@,
            p@ == pattern@,
            p@.len() > 0,
            replace_all_spec(v@, p@, with@) == r@ + replace_all_spec(v@.skip(i as int), p@, with@),
        decreases v.len() - i,
    {
        let ghost rest = v@.skip(i as int);
        let ghost before = r@;
        if v.len() - i < p.len() {
            proof {
                assert(rest =~= v@.subrange(i as int, v.len() as int));
            }
            let tail = string_of(&v, i, v.len());
            r.append(tail.as_str());
            proof {
                assert(v@.skip(v.len() as int) =~= Seq::<char>::empty());
                assert(r@ + replace_all_spec(v@.skip(v.len() as int), p@, with@) =~= r@);
            }
            i = v.len();
        } else if slice_is(&v, i, i + p.len(), &p) {
            proof {
                assert(rest.take(p@.len() as int) =~= v@.subrange(i as int, i + p.len()));
                assert(rest.skip(p@.len() as int) =~= v@.skip(i + p.len()));
            }
            r.append(with);
            proof {
                assert(before + (with@ + replace_all_spec(v@.skip(i + p.len()), p@, with@)) =~= r@
                    + replace_all_spec(v@.skip(i + p.len()), p@, with@));
            }
            i = i + p.len();
        } else {
            proof {
                assert(rest.take(p@.len() as int) =~= v@.subrange(i as int, i + p.len()));
                assert(rest.skip(1) =~= v@.skip(i + 1));
                assert(rest[0] == v@[i as int]);
            }
            push_char(&mut r, v[i]);
            proof {
                assert(before + (seq![v@[i as int]] + replace_all_spec(v@.skip(i + 1), p@, with@))
                    =~= r@ + replace_all_spec(v@.skip(i + 1), p@, with@));
            }
            i = i + 1;
        }
    }
    proof {
        assert(v@.skip(v.len() as int) =~= Seq::<char>::empty());
        assert(r@ + replace_all_spec(Seq::<char>::empty(), p@, with@) =~= r@);
    }
    r
}

/// `eq_ignore_ascii_case` on two strings.
pub fn eq_ignore_case(a: &str, b: &str) -> (r: bool)
    ensures
        r == eq_ic(a@, b@),
{
    let x = chars_of(a);
    let y = chars_of(b);
    let r = slice_eq_ic(&x, 0, x.len(), &y, 0, y.len());
    assert(x@.subrange(0, x.len() as int) =~= x@);
    assert(y@.subrange(0, y.len() as int) =~= y@);
    r
}

/// `str::strip_prefix`.
pub fn strip_prefix(s: &str, prefix: &str) -> (r: Option<String>)
    ensures
        match r {
            Some(t) => starts_with_spec(s@, prefix@) && t@ == s@.skip(prefix@.len() as int),
            None => !starts_with_spec(s@, prefix@),
        },
{
    let v = chars_of(s);
    let p = chars_of(prefix);
    if v.len() < p.len() {
        return None;
    }
    if slice_is(&v, 0, p.len(), &p) {
        let t = string_of(&v, p.len(), v.len());
        assert(v@.subrange(p.len() as int, v.len() as int) =~= v@.skip(p.len() as int));
        Some(t)
    } else {
        None
    }
}

/// `str::lines`, each line its own string.
pub fn lines_of(s: &str) -> (r: Vec<String>)
    ensures
        views(r@) == lines_spec(s@),
{
    let v = chars_of(s);
    let mut out: Vec<String> = Vec::new();
    let mut pos: usize = 0;
    proof {
        lemma_skip_zero(v@);
        assert(views(out@) + lines_spec(v@.skip(0)) =~= lines_spec(v@));
    }
    while pos < v.len()
        invariant
            pos <= v.len(),
            v@ == s@,
            lines_spec(v@) == views(out@) + lines_spec(v@.skip(pos as int)),
        decreases v.len() - pos,
    {
        let (end, next) = next_line(&v, pos);
        let ghost before = views(out@);
        out.push(string_of(&v, pos, end));
        proof {
            assert(views(out@) =~= before.push(v@.subrange(pos as int, end as int)));
            assert(before + (seq![v@.subrange(pos as int, end as int)] + lines_spec(
                v@.skip(next as int),
            )) =~= views(out@) + lines_spec(v@.skip(next as int)));
        }
        pos = next;
    }
    proof {
        lemma_lines_of_end(v@);
        assert(views(out@) + Seq::<Seq<char>>::empty() =~= views(out@));
    }
    out
}

/// The text without any leading `a` or `b` characters.
pub open spec fn trim_start2(s: Seq<char>, a: char, b: char) -> Seq<char>
    decreases s.len(),
{
    if s.len() > 0 && (s[0] == a || s[0] == b) {
        trim_start2(s.drop_first(), a, b)
    } else {
        s
    }
}

/// The text without any trailing `a` or `b` characters.
pub open spec fn trim_end2(s: Seq<char>, a: char, b: char) -> Seq<char>
    decreases s.len(),
{
    if s.len() > 0 && (s.last() == a || s.last() == b) {
        trim_end2(s.drop_last(), a, b)
    } else {
        s
    }
}

proof fn lemma_trim_start2_at(s: Seq<char>, a: char, b: char, i: int)
    requires
        0 <= i <= s.len(),
        forall|k: int| 0 <= k < i ==> (s[k] == a || s[k] == b),
    ensures
        trim_start2(s, a, b) == trim_start2(s.skip(i), a, b),
    decreases i,
{
    if i > 0 {
        assert(s.drop_first().skip(i - 1) =~= s.skip(i));
        lemma_trim_start2_at(s.drop_first(), a, b, i - 1);
    } else {
        assert(s.skip(0) =~= s);
    }
}

proof fn lemma_trim_end2_at(s: Seq<char>, a: char, b: char, j: int)
    requires
        0 <= j <= s.len(),
        forall|k: int| j <= k < s.len() ==> (s[k] == a || s[k] == b),
    ensures
        trim_end2(s, a, b) == trim_end2(s.take(j), a, b),
    decreases s.len() - j,
{
    if j < s.len() {
        assert(s.drop_last().take(j) =~= s.take(j));
        lemma_trim_end2_at(s.drop_last(), a, b, j);
    } else {
        assert(s.take(j) =~= s);
    }
}

/// `trim_start_matches` and `trim_end_matches` with either of two characters,
/// as the one call that needs one side only passes `front` or `back` false.
pub fn trim2(s: &str, a: char, b: char, front: bool, back: bool) -> (r: String)
    ensures
        r@ == ({
            let t = if front { trim_start2(s@, a, b) } else { s@ };
            if back { trim_end2(t, a, b) } else { t }
        }),
{
    let v = chars_of(s);
    let mut i: usize = 0;
    if front {
        while i < v.len() && (v[i] == a || v[i] == b)
            invariant
                i <= v.len(),
                forall|k: int| 0 <= k < i ==> (v@[k] == a || v@[k] == b),
            decreases v.len() - i,
        {
            i = i + 1;
        }
        proof {
            lemma_trim_start2_at(v@, a, b, i as int);
            if i < v.len() {
                assert(!(v@.skip(i as int)[0] == a || v@.skip(i as int)[0] == b));
            }
            assert(trim_start2(v@.skip(i as int), a, b) == v@.skip(i as int));
        }
    } else {
        proof { lemma_skip_zero(v@); }
    }
    let ghost t = v@.skip(i as int);
    let mut j: usize = v.len();
    if back {
        while j > i && (v[j - 1] == a || v[j - 1] == b)
            invariant
                i <= j <= v.len(),
                t == v@.skip(i as int),
                forall|k: int| j <= k < v.len() ==> (v@[k] == a || v@[k] == b),
            decreases j,
        {
            j = j - 1;
        }
        proof {
            assert forall|k: int| j - i <= k < t.len() implies (t[k] == a || t[k] == b) by {
                assert(t[k] == v@[k + i]);
            }
            lemma_trim_end2_at(t, a, b, j - i);
            let u = t.take(j - i);
            if j > i {
                assert(u.last() == v@[j - 1]);
            }
            assert(trim_end2(u, a, b) == u);
        }
    }
    let r = string_of(&v, i, j);
    proof {
        assert(v@.subrange(i as int, j as int) =~= t.take(j - i));
        if !back {
            assert(t.take(j - i) =~= t);
        }
    }
    r
}

/// The text with every `c` taken out.
pub open spec fn remove_char_spec(s: Seq<char>, c: char) -> Seq<char>
    decreases s.len(),
{
    if s.len() == 0 {
        s
    } else if s.last() == c {
        remove_char_spec(s.drop_last(), c)
    } else {
        remove_char_spec(s.drop_last(), c).push(s.last())
    }
}

pub fn remove_char(s: &str, c: char) -> (r: String)
    ensures
        r@ == remove_char_spec(s@, c),
{
    let v = chars_of(s);
    let mut r = String::new();
    let mut i: usize = 0;
    while i < v.len()
        invariant
            i <= v.len(),
            v@ == s@,
            r@ == remove_char_spec(v@.take(i as int), c),
        decreases v.len() - i,
    {
        proof {
            assert(v@.take(i + 1).drop_last() =~= v@.take(i as int));
            assert(v@.take(i + 1).last() == v@[i as int]);
        }
        if v[i] != c {
            push_char(&mut r, v[i]);
        }
        i = i + 1;
    }
    assert(v@.take(v.len() as int) =~= v@);
    r
}

/// `str::trim_end_matches` with a string pattern: every trailing repetition of
/// `p` removed.
pub open spec fn trim_end_matches_spec(s: Seq<char>, p: Seq<char>) -> Seq<char>
    decreases s.len(),
{
    if p.len() > 0 && ends_with_spec(s, p) {
        trim_end_matches_spec(s.take(s.len() - p.len()), p)
    } else {
        s
    }
}

pub fn trim_end_matches(s: &str, p: &str) -> (r: String)
    requires
        p@.len() > 0,
    ensures
        r@ == trim_end_matches_spec(s@, p@),
{
    let v = chars_of(s);
    let w = chars_of(p);
    let mut hi = v.len();
    assert(v@.subrange(0, hi as int) =~= s@);
    let mut more = vec_ends_with(&v, 0, hi, &w);
    while more
        invariant
            hi <= v.len(),
            w@ == p@,
            p@.len() > 0,
            trim_end_matches_spec(s@, p@) == trim_end_matches_spec(v@.subrange(0, hi as int), p@),
            more == ends_with_spec(v@.subrange(0, hi as int), w@),
        decreases hi,
    {
        assert(v@.subrange(0, hi as int).take(hi - w.len()) =~= v@.subrange(0, hi - w.len()));
        hi = hi - w.len();
        more = vec_ends_with(&v, 0, hi, &w);
    }
    string_of(&v, 0, hi)
}

} // verus!
