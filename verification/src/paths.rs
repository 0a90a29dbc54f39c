//! Host paths given as text, and the three questions the library puts to the
//! standard library about them: a path's parent, its file name, and the path
//! with its file name replaced.
//!
//! Where components divide depends on the platform's path syntax, so what is
//! stated of every path is only the shape the standard library documents. For
//! a plain path, one whose separators are `/` only and which carries none of
//! the forms the platforms read differently, the answer is also stated
//! exactly.

use vstd::prelude::*;

verus! {

/// `s` holds no `c`.
pub open spec fn lacks(s: Seq<char>, c: char) -> bool {
    forall|i: int| 0 <= i < s.len() ==> s[i] != c
}

/// A file name every platform reads the same way: not empty, no separator, no
/// drive colon, and neither `.` nor `..`.
pub open spec fn plain_name(f: Seq<char>) -> bool {
    &&& f.len() > 0
    &&& lacks(f, '/')
    &&& lacks(f, '\\')
    &&& lacks(f, ':')
    &&& f != "."@
    &&& f != ".."@
}

/// Where the last `/` of `p` is, or -1.
pub open spec fn last_slash(p: Seq<char>) -> int
    decreases p.len(),
{
    if p.len() == 0 {
        -1
    } else if p.last() == '/' {
        p.len() - 1
    } else {
        last_slash(p.drop_last())
    }
}

/// A directory every platform reads the same way, written with `/` only: not
/// empty, no `\` or drive colon, no two separators in a row, not ending in a
/// separator, and not ending in a `.` component.
pub open spec fn plain_dir(d: Seq<char>) -> bool {
    &&& d.len() > 0
    &&& lacks(d, '\\')
    &&& lacks(d, ':')
    &&& d.last() != '/'
    &&& forall|i: int| 0 <= i < d.len() - 1 ==> !(#[trigger] d[i] == '/' && d[i + 1] == '/')
    &&& d.skip(last_slash(d) + 1) != "."@
}

/// A plain path split at its last separator into its parent and its file
/// name: `dir/name`, `/name` (whose parent is the root) or a bare `name`
/// (whose parent is the empty path). `None` for any other path, of which
/// nothing exact is stated.
pub open spec fn plain_split(p: Seq<char>) -> Option<(Seq<char>, Seq<char>)> {
    let i = last_slash(p);
    if i < 0 {
        if plain_name(p) {
            Some((Seq::empty(), p))
        } else {
            None
        }
    } else if i == 0 {
        if plain_name(p.skip(1)) {
            Some(("/"@, p.skip(1)))
        } else {
            None
        }
    } else if plain_dir(p.take(i)) && plain_name(p.skip(i + 1)) {
        Some((p.take(i), p.skip(i + 1)))
    } else {
        None
    }
}

/// The parent of a plain path.
pub open spec fn split_dir(p: Seq<char>) -> Seq<char> {
    match plain_split(p) {
        Some((d, _)) => d,
        None => Seq::empty(),
    }
}

/// The file name of a plain path.
pub open spec fn split_name(p: Seq<char>) -> Seq<char> {
    match plain_split(p) {
        Some((_, f)) => f,
        None => Seq::empty(),
    }
}

/// `r` is a stretch of `p`'s text.
pub open spec fn stretch_of(p: Seq<char>, r: Seq<char>) -> bool {
    exists|i: int, j: int| 0 <= i <= j <= p.len() && r == p.subrange(i, j)
}

/// `std::path::Path::parent`, on a path given as text: the path without its
/// final component. What is stated for every path: a parent is a strictly
/// shorter leading part of it, and the empty path and the root have none. For
/// a plain path the parent is the text before its last separator, the root for
/// `/name` and the empty path for a bare name. Which part it is for any other
/// path is left unsaid: it depends on the platform's path syntax.
#[verifier::external_body]
pub(crate) fn parent_dir(path: &str) -> (r: Option<String>)
    ensures
        match r {
            Some(p) => p@.len() < path@.len() && p@ == path@.take(p@.len() as int),
            None => true,
        },
        plain_split(path@) is Some ==> r is Some && r->0@ == split_dir(path@),
        path@.len() == 0 ==> r is None,
        path@ == "/"@ ==> r is None,
{
    std::path::Path::new(path).parent().map(|p| p.to_string_lossy().into_owned())
}

/// `f` is what the host calls the file name of `path`: a stretch of its text,
/// and for a plain path the text after its last separator.
pub open spec fn file_name_is(path: Seq<char>, f: Seq<char>) -> bool {
    &&& stretch_of(path, f)
    &&& plain_split(path) is Some ==> f == split_name(path)
}

/// `std::path::Path::file_name`, on a path given as text, empty where it has
/// none. What is stated for every path: it is a stretch of the path's text.
/// For a plain path it is the text after the last separator. Which stretch it
/// is for any other path is left unsaid: it depends on the platform's syntax.
#[verifier::external_body]
pub(crate) fn file_name_of(path: &str) -> (r: String)
    ensures
        file_name_is(path@, r@),
{
    std::path::Path::new(path).file_name().map(|n| n.to_string_lossy().into_owned()).unwrap_or_default()
}

/// What the file name of a plain path becomes when it is replaced by `name`:
/// the parent, a separator where the parent does not end in one, then `name`.
/// Which separator is the platform's: `/` or `\`.
pub open spec fn renamed_plain(dir: Seq<char>, name: Seq<char>, r: Seq<char>) -> bool {
    if dir.len() == 0 {
        r == name
    } else if dir.last() == '/' {
        r == dir + name
    } else {
        r == dir + "/"@ + name || r == dir + "\\"@ + name
    }
}

/// `r` is `path` with its file name replaced by `name`: it always ends in
/// `name`, and for a plain path it is `renamed_plain` of its parent.
pub open spec fn renamed(path: Seq<char>, name: Seq<char>, r: Seq<char>) -> bool {
    &&& r.len() >= name.len()
    &&& r.skip(r.len() - name.len()) == name
    &&& plain_split(path) matches Some((d, _)) ==> renamed_plain(d, name, r)
}

/// `std::path::Path::with_file_name`, on a path given as text, for a plain
/// file name: the path without its final component (the whole of it where it
/// has none), then the name, with the platform's separator between them where
/// one is needed. What is stated for every path is that the result ends in the
/// name; the rest, for a plain path only, since how other paths are taken apart
/// (verbatim prefixes, `.` components, repeated separators) depends on the
/// platform's syntax.
#[verifier::external_body]
pub(crate) fn with_file_name(path: &str, name: &str) -> (r: String)
    requires
        plain_name(name@),
    ensures
        renamed(path@, name@, r@),
{
    std::path::Path::new(path).with_file_name(name).to_string_lossy().into_owned()
}

} // verus!
