//! Finding the UEFI firmware QEMU needs for a Windows guest.
//!
//! Every distribution and every QEMU build puts OVMF somewhere different,
//! under a name of its own, and there is no API to ask: this is the list of
//! places and names, checked in order. Whether a file is there is the caller's
//! question to put to the filesystem.

use vstd::prelude::*;

use crate::provider::target::HostOs;
use crate::text::{join, join_spec, owned, views};

verus! {

/// The two halves of an OVMF installation: the shared read-only code, and the
/// per-VM variables store the firmware writes to while booting.
#[derive(Debug, Clone, PartialEq, Eq)]
pub struct Firmware {
    pub code: String,
    pub vars: String,
}

/// The `(code, vars)` file names one installation goes by, most likely first.
/// The halves are paired by name because they have to match.
pub const NAMES: [(&'static str, &'static str); 4] = [
    ("OVMF_CODE_4M.fd", "OVMF_VARS_4M.fd"),
    ("OVMF_CODE.4m.fd", "OVMF_VARS.4m.fd"),
    ("OVMF_CODE.fd", "OVMF_VARS.fd"),
    ("edk2-x86_64-code.fd", "edk2-i386-vars.fd"),
];

/// The directories a distribution installs it into.
pub const LINUX_DIRS: [&'static str; 5] = [
    "/usr/share/OVMF",
    "/usr/share/edk2/ovmf",
    "/usr/share/edk2/x64",
    "/usr/share/edk2-ovmf/x64",
    "/usr/share/qemu",
];

/// Whether `c` separates path components on this host.
pub open spec fn is_host_sep(host: HostOs, c: char) -> bool {
    c == '/' || (host == HostOs::Windows && c == '\\')
}

/// `name` inside `dir`, the way this host spells a path.
pub open spec fn host_join(host: HostOs, dir: Seq<char>, name: Seq<char>) -> Seq<char> {
    if dir.len() == 0 || is_host_sep(host, dir.last()) {
        dir + name
    } else if host == HostOs::Windows {
        dir + "\\"@ + name
    } else {
        dir + "/"@ + name
    }
}

pub fn join_path(host: HostOs, dir: &str, name: &str) -> (r: String)
    ensures
        r@ == host_join(host, dir@, name@),
{
    let mut r = owned(dir);
    let n = dir.unicode_len();
    if n > 0 {
        let last = dir.get_char(n - 1);
        let sep = last == '/' || (host == HostOs::Windows && last == '\\');
        if !sep {
            if host == HostOs::Windows {
                r.append("\\");
            } else {
                r.append("/");
            }
        }
    }
    r.append(name);
    r
}

pub open spec fn linux_dirs() -> Seq<Seq<char>> {
    LINUX_DIRS@.map_values(|d: &'static str| d@)
}

/// The directories to search on this host, most likely first: the QEMU
/// binary's own directory (its `share` first) where there is one, then, on
/// Linux, the distribution locations.
pub open spec fn dirs_spec(host: HostOs, qemu_dir: Option<Seq<char>>) -> Seq<Seq<char>> {
    let beside = match qemu_dir {
        Some(d) => seq![host_join(host, d, "share"@), d],
        None => Seq::empty(),
    };
    if host == HostOs::Linux {
        beside + linux_dirs()
    } else {
        beside
    }
}

/// The directories to search; `qemu_dir` is the directory the QEMU binary is
/// in, when one is known.
pub fn dirs(host: HostOs, qemu_dir: Option<&str>) -> (r: Vec<String>)
    ensures
        views(r@) == dirs_spec(host, match qemu_dir {
            Some(d) => Some(d@),
            None => None,
        }),
{
    let mut out: Vec<String> = Vec::new();
    if let Some(d) = qemu_dir {
        out.push(join_path(host, d, "share"));
        out.push(owned(d));
    }
    if host == HostOs::Linux {
        let mut i: usize = 0;
        let ghost start = views(out@);
        while i < 5
            invariant
                i <= 5,
                views(out@) == start + linux_dirs().take(i as int),
            decreases 5 - i,
        {
            let d = LINUX_DIRS[i];
            assert(LINUX_DIRS@.len() == 5);
            let ghost before = views(out@);
            out.push(owned(d));
            assert(views(out@) =~= before.push(d@));
            assert(linux_dirs().take(i + 1) =~= linux_dirs().take(i as int).push(d@));
            i = i + 1;
        }
        assert(linux_dirs().take(5) =~= linux_dirs());
    }
    let ghost q = match qemu_dir {
        Some(d) => Some(d@),
        None => None::<Seq<char>>,
    };
    assert(views(out@) =~= dirs_spec(host, q));
    out
}

pub open spec fn name_pairs() -> Seq<(Seq<char>, Seq<char>)> {
    NAMES@.map_values(|p: (&'static str, &'static str)| (p.0@, p.1@))
}

pub open spec fn pair_view(p: (String, String)) -> (Seq<char>, Seq<char>) {
    (p.0@, p.1@)
}

/// Candidate `(code, vars)` pairs for this host, most likely first: every pair
/// of names in every directory, directory by directory.
pub open spec fn candidates_spec(host: HostOs, ds: Seq<Seq<char>>) -> Seq<(Seq<char>, Seq<char>)> {
    Seq::new(
        ds.len() * 4,
        |k: int|
            (
                host_join(host, ds[k / 4], name_pairs()[k % 4].0),
                host_join(host, ds[k / 4], name_pairs()[k % 4].1),
            ),
    )
}

pub fn candidates(host: HostOs, qemu_dir: Option<&str>) -> (r: Vec<(String, String)>)
    ensures
        r@.map_values(|p: (String, String)| pair_view(p)) == candidates_spec(
            host,
            dirs_spec(host, match qemu_dir {
                Some(d) => Some(d@),
                None => None,
            }),
        ),
{
    let ds = dirs(host, qemu_dir);
    let ghost dv = views(ds@);
    let mut out: Vec<(String, String)> = Vec::new();
    let mut i: usize = 0;
    while i < ds.len()
        invariant
            i <= ds.len(),
            dv == views(ds@),
            out@.len() == i * 4,
            forall|k: int|
                0 <= k < out@.len() ==> pair_view(#[trigger] out@[k]) == candidates_spec(host, dv)[k],
        decreases ds.len() - i,
    {
        let mut n: usize = 0;
        while n < 4
            invariant
                i < ds.len(),
                n <= 4,
                dv == views(ds@),
                out@.len() == i * 4 + n,
                forall|k: int|
                    0 <= k < out@.len() ==> pair_view(#[trigger] out@[k]) == candidates_spec(host, dv)[k],
            decreases 4 - n,
        {
            let (code, vars) = NAMES[n];
            let c = join_path(host, ds[i].as_str(), code);
            let v = join_path(host, ds[i].as_str(), vars);
            proof {
                let k = i * 4 + n;
                assert(k / 4 == i) by (nonlinear_arith)
                    requires
                        k == i * 4 + n,
                        n < 4,
                ;
                assert(k % 4 == n) by (nonlinear_arith)
                    requires
                        k == i * 4 + n,
                        n < 4,
                ;
                assert(dv[i as int] == ds@[i as int]@);
            }
            out.push((c, v));
            n = n + 1;
        }
        i = i + 1;
    }
    let ghost q = match qemu_dir {
        Some(d) => Some(d@),
        None => None::<Seq<char>>,
    };
    assert(out@.map_values(|p: (String, String)| pair_view(p)) =~= candidates_spec(host, dv));
    out
}

/// The first candidate whose halves both exist, asking `present` about each
/// path: both halves are needed, since a firmware without its variables store
/// cannot boot an installed Windows.
pub fn find<F: Fn(&String) -> bool>(candidates: &[(String, String)], present: &F) -> (r: Option<Firmware>)
    requires
        forall|p: &String| present.requires((p,)),
    ensures
        match r {
            Some(fw) => exists|i: int|
                0 <= i < candidates@.len() && fw.code@ == candidates@[i].0@ && fw.vars@
                    == candidates@[i].1@ && present.ensures((&(#[trigger] candidates@[i]).0,), true)
                    && present.ensures((&candidates@[i].1,), true) && forall|j: int|
                    0 <= j < i ==> (present.ensures((&(#[trigger] candidates@[j]).0,), false)
                        || present.ensures((&candidates@[j].1,), false)),
            None => forall|j: int|
                0 <= j < candidates@.len() ==> (present.ensures((&(#[trigger] candidates@[j]).0,), false)
                    || present.ensures((&candidates@[j].1,), false)),
        },
{
    let mut i: usize = 0;
    while i < candidates.len()
        invariant
            i <= candidates@.len(),
            forall|p: &String| present.requires((p,)),
            forall|j: int|
                0 <= j < i ==> (present.ensures((&(#[trigger] candidates@[j]).0,), false)
                    || present.ensures((&candidates@[j].1,), false)),
        decreases candidates@.len() - i,
    {
        let (code, vars) = &candidates[i];
        let has_code = present(code);
        if has_code {
            let has_vars = present(vars);
            if has_vars {
                return Some(Firmware { code: owned(code.as_str()), vars: owned(vars.as_str()) });
            }
        }
        i = i + 1;
    }
    None
}

/// `is_file` answered `answer` when asked about a file at `path`.
pub open spec fn said_of<E: Fn(&String) -> bool>(is_file: E, path: Seq<char>, answer: bool) -> bool {
    exists|s: String| s@ == path && #[trigger] is_file.ensures((&s,), answer)
}

/// `is_file` said of one half of `pair` that it is not there.
pub open spec fn half_missing<E: Fn(&String) -> bool>(is_file: E, pair: (Seq<char>, Seq<char>)) -> bool {
    said_of(is_file, pair.0, false) || said_of(is_file, pair.1, false)
}

/// What `locate` may answer, given the candidates in order: the first pair
/// both of whose halves were said to be there, every earlier one having a half
/// said to be missing, or nothing when every pair lacks one.
pub open spec fn located<E: Fn(&String) -> bool>(
    cands: Seq<(Seq<char>, Seq<char>)>,
    is_file: E,
    r: Option<Firmware>,
) -> bool {
    match r {
        Some(fw) => exists|i: int|
            0 <= i < cands.len() && #[trigger] cands[i] == (fw.code@, fw.vars@) && said_of(is_file, cands[i].0, true)
                && said_of(is_file, cands[i].1, true) && forall|j: int|
                0 <= j < i ==> half_missing(is_file, #[trigger] cands[j]),
        None => forall|j: int| 0 <= j < cands.len() ==> half_missing(is_file, #[trigger] cands[j]),
    }
}

/// Locate the firmware on this host: the first candidate pair both of whose
/// halves `is_file` says are there.
pub fn locate<E: Fn(&String) -> bool>(host: HostOs, qemu_dir: Option<&str>, is_file: &E) -> (r: Option<Firmware>)
    requires
        forall|p: &String| is_file.requires((p,)),
    ensures
        located(
            candidates_spec(host, dirs_spec(host, match qemu_dir {
                Some(d) => Some(d@),
                None => None,
            })),
            *is_file,
            r,
        ),
{
    let found = candidates(host, qemu_dir);
    let ghost cands = candidates_spec(host, dirs_spec(host, match qemu_dir {
        Some(d) => Some(d@),
        None => None,
    }));
    let r = find(found.as_slice(), is_file);
    proof {
        assert(found@.len() == found@.map_values(|p: (String, String)| pair_view(p)).len());
        assert forall|j: int| 0 <= j < found@.len() implies cands[j] == (found@[j].0@, found@[j].1@) by {
            assert(found@.map_values(|p: (String, String)| pair_view(p))[j] == pair_view(found@[j]));
        }
        assert forall|j: int|
            0 <= j < found@.len() && (is_file.ensures((&found@[j].0,), false) || is_file.ensures(
                (&found@[j].1,),
                false,
            )) implies half_missing(*is_file, #[trigger] cands[j]) by {
            if is_file.ensures((&found@[j].0,), false) {
                assert(said_of(*is_file, cands[j].0, false));
            } else {
                assert(said_of(*is_file, cands[j].1, false));
            }
        }
        if r is Some {
            let fw = r->0;
            let i = choose|i: int|
                0 <= i < found@.len() && fw.code@ == found@[i].0@ && fw.vars@ == found@[i].1@
                    && is_file.ensures((&(#[trigger] found@[i]).0,), true) && is_file.ensures((&found@[i].1,), true)
                    && forall|j: int|
                    0 <= j < i ==> (is_file.ensures((&(#[trigger] found@[j]).0,), false)
                        || is_file.ensures((&found@[j].1,), false));
            assert(cands[i] == (fw.code@, fw.vars@));
            assert(said_of(*is_file, cands[i].0, true));
            assert(said_of(*is_file, cands[i].1, true));
        }
    }
    r
}

pub open spec fn code_names() -> Seq<Seq<char>> {
    NAMES@.map_values(|p: (&'static str, &'static str)| p.0@)
}

/// Where the search looked: every code-half name, then every directory.
pub open spec fn searched_spec(host: HostOs, qemu_dir: Option<Seq<char>>) -> Seq<char> {
    join_spec(code_names(), ", "@) + ", each beside its matching variables half, in "@ + join_spec(
        dirs_spec(host, qemu_dir),
        ", "@,
    )
}

pub fn searched(host: HostOs, qemu_dir: Option<&str>) -> (r: String)
    ensures
        r@ == searched_spec(host, match qemu_dir {
            Some(d) => Some(d@),
            None => None,
        }),
{
    let names = vec![owned(NAMES[0].0), owned(NAMES[1].0), owned(NAMES[2].0), owned(NAMES[3].0)];
    assert(views(names@) =~= code_names());
    let ds = dirs(host, qemu_dir);
    let mut r = join(&names, ", ");
    r.append(", each beside its matching variables half, in ");
    let d = join(&ds, ", ");
    r.append(d.as_str());
    r
}

pub open spec fn missing_message_spec(host: HostOs) -> Seq<char> {
    "no UEFI firmware found, and the Windows guest needs it under QEMU: "@ + match host {
        HostOs::Windows => "it ships with QEMU, in the `share` directory beside qemu-system-x86_64.exe"@,
        _ => "install the ovmf package, which `cargo xtask vm setup` also does"@,
    } + ". `cargo xtask vm doctor` lists where it looked."@
}

/// What to say when it is not there: where it comes from on this host.
pub fn missing_message(host: HostOs) -> (r: String)
    ensures
        r@ == missing_message_spec(host),
{
    let mut r = owned("no UEFI firmware found, and the Windows guest needs it under QEMU: ");
    match host {
        HostOs::Windows => r.append(
            "it ships with QEMU, in the `share` directory beside qemu-system-x86_64.exe",
        ),
        _ => r.append("install the ovmf package, which `cargo xtask vm setup` also does"),
    }
    r.append(". `cargo xtask vm doctor` lists where it looked.");
    r
}

/// Every candidate pairs the two halves of one build: both are the same pair
/// of names in the same directory. A Windows host with no QEMU directory has
/// no candidates at all.
pub proof fn lemma_candidates_pair_one_build(host: HostOs, ds: Seq<Seq<char>>, k: int)
    requires
        0 <= k < candidates_spec(host, ds).len(),
    ensures
        exists|i: int, j: int|
            #![trigger ds[i], name_pairs()[j]]
            0 <= i < ds.len() && 0 <= j < name_pairs().len() && candidates_spec(host, ds)[k] == (
                host_join(host, ds[i], name_pairs()[j].0),
                host_join(host, ds[i], name_pairs()[j].1),
            ),
        candidates_spec(HostOs::Windows, dirs_spec(HostOs::Windows, None)).len() == 0,
{
    assert(name_pairs().len() == 4);
    let i = k / 4;
    let j = k % 4;
    assert(0 <= i < ds.len());
    assert(candidates_spec(host, ds)[k] == (
        host_join(host, ds[i], name_pairs()[j].0),
        host_join(host, ds[i], name_pairs()[j].1),
    ));
}

} // verus!
