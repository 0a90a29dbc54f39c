//! What `cargo --message-format=json` reported about the binaries it built.
//!
//! The messages themselves are JSON, read into [`RawMessage`] values by whoever
//! holds the text; which of them are the executables, and which executable is
//! which, is decided here.

use vstd::prelude::*;

use crate::text::{
    chars_of, copy_strings, lemma_lines_of_end, lemma_skip_zero, lines_spec, next_line, owned, str_eq, string_of, trim,
    trim_bounds, trim_spec, views,
};

verus! {

/// One built artifact Cargo reported.
#[derive(Debug, Clone, PartialEq, Eq)]
pub struct Artifact {
    pub name: String,
    pub kinds: Vec<String>,
    pub executable: String,
    /// Whether it was built under the test profile, which is what separates
    /// the test harness from the application binary it drives.
    pub is_test: bool,
}

pub open spec fn has_kind_spec(a: Artifact, kind: Seq<char>) -> bool {
    exists|i: int| 0 <= i < a.kinds@.len() && a.kinds@[i]@ == kind
}

impl Artifact {
    pub fn has_kind(&self, kind: &str) -> (r: bool)
        ensures
            r == has_kind_spec(*self, kind@),
    {
        let mut i: usize = 0;
        while i < self.kinds.len()
            invariant
                i <= self.kinds.len(),
                forall|j: int| 0 <= j < i ==> self.kinds@[j]@ != kind@,
            decreases self.kinds.len() - i,
        {
            if str_eq(self.kinds[i].as_str(), kind) {
                return true;
            }
            i = i + 1;
        }
        false
    }
}

/// What a `compiler-message` record carries, as far as this reads it.
#[derive(Debug, Clone, PartialEq, Eq)]
pub struct RawDiagnostic {
    pub level: String,
    /// What `cargo build` would have printed, arrows and colours and all.
    pub rendered: Option<String>,
}

/// One line of Cargo's output, as far as this reads it. A field the line does
/// not carry holds its default: empty text, an empty list, `false`, `None`.
#[derive(Debug, Clone, PartialEq, Eq)]
pub struct RawMessage {
    pub reason: String,
    pub target_name: String,
    pub target_kind: Vec<String>,
    pub profile_test: bool,
    pub executable: Option<String>,
    pub message: Option<RawDiagnostic>,
}

/// An artifact as plain values: name, kinds, executable, test profile.
pub open spec fn art_view(a: Artifact) -> (Seq<char>, Seq<Seq<char>>, Seq<char>, bool) {
    (a.name@, views(a.kinds@), a.executable@, a.is_test)
}

pub open spec fn art_views(s: Seq<Artifact>) -> Seq<(Seq<char>, Seq<Seq<char>>, Seq<char>, bool)> {
    s.map_values(|a: Artifact| art_view(a))
}

/// The artifact a message reports, when it reports one with an executable.
pub open spec fn artifact_of(m: RawMessage) -> Option<(Seq<char>, Seq<Seq<char>>, Seq<char>, bool)> {
    if m.reason@ == "compiler-artifact"@ {
        match m.executable {
            Some(e) => if e@.len() > 0 {
                Some((m.target_name@, views(m.target_kind@), e@, m.profile_test))
            } else {
                None
            },
            None => None,
        }
    } else {
        None
    }
}

/// The artifacts of a stream of messages, in order.
pub open spec fn artifacts_spec(ms: Seq<RawMessage>) -> Seq<(Seq<char>, Seq<Seq<char>>, Seq<char>, bool)>
    decreases ms.len(),
{
    if ms.len() == 0 {
        Seq::empty()
    } else {
        let rest = artifacts_spec(ms.drop_last());
        match artifact_of(ms.last()) {
            Some(a) => rest.push(a),
            None => rest,
        }
    }
}

/// The executables out of a stream of Cargo messages, in order: compiler
/// artifacts with a non-empty executable path, and nothing else.
pub fn artifacts_from(messages: &Vec<RawMessage>) -> (r: Vec<Artifact>)
    ensures
        art_views(r@) == artifacts_spec(messages@),
{
    let mut out: Vec<Artifact> = Vec::new();
    let mut k: usize = 0;
    while k < messages.len()
        invariant
            k <= messages.len(),
            art_views(out@) == artifacts_spec(messages@.take(k as int)),
        decreases messages.len() - k,
    {
        let m = &messages[k];
        proof {
            assert(messages@.take(k + 1).drop_last() =~= messages@.take(k as int));
            assert(messages@.take(k + 1).last() == messages@[k as int]);
        }
        if str_eq(m.reason.as_str(), "compiler-artifact") {
            match &m.executable {
                Some(e) => {
                    if e.as_str().unicode_len() > 0 {
                        let a = Artifact {
                            name: owned(m.target_name.as_str()),
                            kinds: copy_strings(&m.target_kind),
                            executable: owned(e.as_str()),
                            is_test: m.profile_test,
                        };
                        out.push(a);
                    }
                },
                None => {},
            }
        }
        k = k + 1;
        assert(art_views(out@) =~= artifacts_spec(messages@.take(k as int)));
    }
    assert(messages@.take(messages.len() as int) =~= messages@);
    out
}

/// The text a message contributes to a failed build's report: a compiler
/// error or warning with a rendering that is not blank.
pub open spec fn diagnostic_of(m: RawMessage) -> Option<Seq<char>> {
    if m.reason@ == "compiler-message"@ {
        match m.message {
            Some(d) => if d.level@ == "error"@ || d.level@ == "warning"@ {
                match d.rendered {
                    Some(t) => if trim_spec(t@).len() > 0 {
                        Some(t@)
                    } else {
                        None
                    },
                    None => None,
                }
            } else {
                None
            },
            None => None,
        }
    } else {
        None
    }
}

pub open spec fn diagnostics_spec(ms: Seq<RawMessage>) -> Seq<Seq<char>>
    decreases ms.len(),
{
    if ms.len() == 0 {
        Seq::empty()
    } else {
        let rest = diagnostics_spec(ms.drop_last());
        match diagnostic_of(ms.last()) {
            Some(t) => rest.push(t),
            None => rest,
        }
    }
}

/// What the compiler said, for a build that has just failed: the rendering of
/// each error and warning, in order, the blank ones left out.
pub fn rendered_diagnostics(messages: &Vec<RawMessage>) -> (r: Vec<String>)
    ensures
        views(r@) == diagnostics_spec(messages@),
{
    let mut out: Vec<String> = Vec::new();
    let mut k: usize = 0;
    while k < messages.len()
        invariant
            k <= messages.len(),
            views(out@) == diagnostics_spec(messages@.take(k as int)),
        decreases messages.len() - k,
    {
        let m = &messages[k];
        proof {
            assert(messages@.take(k + 1).drop_last() =~= messages@.take(k as int));
            assert(messages@.take(k + 1).last() == messages@[k as int]);
        }
        if str_eq(m.reason.as_str(), "compiler-message") {
            match &m.message {
                Some(d) => {
                    if str_eq(d.level.as_str(), "error") || str_eq(d.level.as_str(), "warning") {
                        match &d.rendered {
                            Some(t) => {
                                let tt = trim(t.as_str());
                                if tt.as_str().unicode_len() > 0 {
                                    out.push(owned(t.as_str()));
                                }
                            },
                            None => {},
                        }
                    }
                },
                None => {},
            }
        }
        k = k + 1;
        assert(views(out@) =~= diagnostics_spec(messages@.take(k as int)));
    }
    assert(messages@.take(messages.len() as int) =~= messages@);
    out
}

pub open spec fn trimmed(ls: Seq<Seq<char>>) -> Seq<Seq<char>> {
    ls.map_values(|l: Seq<char>| trim_spec(l))
}

/// The lines of Cargo's standard output, each trimmed, to be handed one by one
/// to a JSON reader, which drops those that are not JSON.
pub fn message_lines(stdout: &str) -> (r: Vec<String>)
    ensures
        views(r@) == trimmed(lines_spec(stdout@)),
{
    let v = chars_of(stdout);
    let mut out: Vec<String> = Vec::new();
    let mut pos: usize = 0;
    proof {
        lemma_skip_zero(v@);
        assert(views(out@) =~= Seq::<Seq<char>>::empty());
        assert(trimmed(lines_spec(v@)) =~= views(out@) + trimmed(lines_spec(v@.skip(0))));
    }
    while pos < v.len()
        invariant
            pos <= v.len(),
            v@ == stdout@,
            trimmed(lines_spec(v@)) == views(out@) + trimmed(lines_spec(v@.skip(pos as int))),
        decreases v.len() - pos,
    {
        let (end, next) = next_line(&v, pos);
        let (lo, hi) = trim_bounds(&v, pos, end);
        let line = string_of(&v, lo, hi);
        proof {
            let rest = lines_spec(v@.skip(next as int));
            let first = v@.subrange(pos as int, end as int);
            assert(trimmed(seq![first] + rest) =~= seq![trim_spec(first)] + trimmed(rest));
        }
        let ghost before = views(out@);
        out.push(line);
        proof {
            assert(views(out@) =~= before.push(line@));
            assert(before + (seq![line@] + trimmed(lines_spec(v@.skip(next as int)))) =~= before.push(
                line@,
            ) + trimmed(lines_spec(v@.skip(next as int))));
        }
        pos = next;
    }
    proof {
        lemma_lines_of_end(v@);
        assert(trimmed(Seq::<Seq<char>>::empty()) =~= Seq::<Seq<char>>::empty());
        assert(views(out@) + Seq::<Seq<char>>::empty() =~= views(out@));
    }
    out
}

pub open spec fn is_harness(a: Artifact, name: Seq<char>) -> bool {
    a.is_test && a.name@ == name && has_kind_spec(a, "test"@)
}

pub open spec fn is_bin(a: Artifact, name: Seq<char>) -> bool {
    a.name@ == name && has_kind_spec(a, "bin"@)
}

/// The compiled test harness for one integration test target: the first
/// artifact built under the test profile with that name and a `test` kind.
pub fn test_binary<'a>(artifacts: &'a [Artifact], name: &str) -> (r: Option<&'a Artifact>)
    ensures
        match r {
            Some(a) => exists|i: int|
                0 <= i < artifacts@.len() && *a == artifacts@[i] && is_harness(artifacts@[i], name@)
                    && forall|j: int| 0 <= j < i ==> !is_harness(#[trigger] artifacts@[j], name@),
            None => forall|j: int| 0 <= j < artifacts@.len() ==> !is_harness(#[trigger] artifacts@[j], name@),
        },
{
    let mut i: usize = 0;
    while i < artifacts.len()
        invariant
            i <= artifacts@.len(),
            forall|j: int| 0 <= j < i ==> !is_harness(#[trigger] artifacts@[j], name@),
        decreases artifacts@.len() - i,
    {
        let a = &artifacts[i];
        if a.is_test && str_eq(a.name.as_str(), name) && a.has_kind("test") {
            return Some(a);
        }
        i = i + 1;
    }
    None
}

/// The application binary: the first artifact with that name and a `bin`
/// kind, which is built under the test profile too, as the suite's dependency.
pub fn bin<'a>(artifacts: &'a [Artifact], name: &str) -> (r: Option<&'a Artifact>)
    ensures
        match r {
            Some(a) => exists|i: int|
                0 <= i < artifacts@.len() && *a == artifacts@[i] && is_bin(artifacts@[i], name@)
                    && forall|j: int| 0 <= j < i ==> !is_bin(#[trigger] artifacts@[j], name@),
            None => forall|j: int| 0 <= j < artifacts@.len() ==> !is_bin(#[trigger] artifacts@[j], name@),
        },
{
    let mut i: usize = 0;
    while i < artifacts.len()
        invariant
            i <= artifacts@.len(),
            forall|j: int| 0 <= j < i ==> !is_bin(#[trigger] artifacts@[j], name@),
        decreases artifacts@.len() - i,
    {
        let a = &artifacts[i];
        if str_eq(a.name.as_str(), name) && a.has_kind("bin") {
            return Some(a);
        }
        i = i + 1;
    }
    None
}

} // verus!
