//! Building the guest's binaries on the host, and getting them in.
//!
//! A Windows host builds the Windows guest's binaries natively and the Linux
//! guest's through WSL; a Linux host builds the Windows guest's in a builder
//! guest. What is decided here: which builder, what each one is told to run,
//! which two of Cargo's artifacts matter, and where they land in the guest.

use vstd::prelude::*;

use crate::guest::cargo_json::{self, is_bin, is_harness, Artifact};
use crate::guest::ssh::{name_start, name_start_of};
use crate::provider::target::{builder_image, host_name, image_slug, image_target, target_slug, HostOs, Image, Target};
use crate::provider::{
    guest_bin, guest_root, guest_root_spec, guest_textures, under_root, GUEST_ROOT_LINUX, GUEST_ROOT_WINDOWS,
};
use crate::fmt::{format_bytes, format_bytes_spec, i32_string, int_dec};
use crate::host::facts::WSL_DISTRO;
use crate::paths::{file_name_is, file_name_of};
use crate::runner::{Cmd, CommandOutput};
use crate::text::{
    chars_of, dec, dec_string, join, join_spec, owned, replace_char, replace_char_spec, replace_str,
    replace_str_spec, string_of, trim, trim_spec, views,
};

verus! {

/// The Cargo package and test target the suite lives in.
pub const PACKAGE: &'static str = "sunlit-earth";

pub const TEST_TARGET: &'static str = "e2e";

/// Where the builder guest's job leaves Cargo's machine-readable output, inside
/// the results directory that comes back to the host.
pub const CARGO_JSON: &'static str = "cargo.json";

/// The directory under the guest's root a builder guest compiles into, kept
/// between runs.
pub const GUEST_TARGET_DIR: &'static str = "cargo-target";

/// Where a Windows builder guest has `libclang`, which bindgen asks for.
pub const LIBCLANG_DIR: &'static str = "C:\\Program Files\\LLVM\\bin";

/// What the guest needs, on the host.
#[derive(Debug, Clone, PartialEq, Eq)]
pub struct HostArtifacts {
    pub app: String,
    pub harness: String,
    pub fixtures: String,
    /// The repository's texture directory, when it holds the real assets.
    /// `None` is not a failure: the suite then runs against the procedural grid.
    pub textures: Option<String>,
}

/// The texture files the app resolves, and therefore the ones the guest needs.
pub const TEXTURE_FILES: [&'static str; 4] = [
    "world.topo.200405.jxl",
    "BlackMarble_2016.jxl",
    "lroc_color_poles_1k.jxl",
    "milkyway_2020_4k.jxl",
];

/// Smaller than any real asset and far larger than a Git LFS pointer.
pub const TEXTURE_MIN_BYTES: u64 = 65536;

pub open spec fn texture_name(i: int) -> Seq<char> {
    TEXTURE_FILES@[i]@
}

/// A texture file of this size is the asset and not a pointer to it.
pub open spec fn texture_ok(size: Option<u64>) -> bool {
    match size {
        Some(bytes) => bytes >= TEXTURE_MIN_BYTES,
        None => false,
    }
}

/// Why a texture file of this size will not do.
pub open spec fn texture_refusal(name: Seq<char>, size: Option<u64>) -> Seq<char> {
    match size {
        None => "there is no "@ + name + " in it"@,
        Some(bytes) => name + " is "@ + dec(bytes as nat)
            + " bytes, which is a Git LFS pointer rather than the asset; `git lfs pull` fetches it"@,
    }
}

/// Whether a textures directory holds the assets or something that only looks
/// like them, given the size of each of `TEXTURE_FILES` in order (`None` where
/// the file is missing). The first file that falls short is the one reported.
pub fn textures_verdict(sizes: [Option<u64>; 4]) -> (r: Result<(), String>)
    ensures
        match r {
            Ok(()) => forall|i: int| 0 <= i < 4 ==> texture_ok(#[trigger] sizes@[i]),
            Err(e) => exists|i: int|
                0 <= i < 4 && !texture_ok(sizes@[i]) && e@ == texture_refusal(texture_name(i), sizes@[i])
                    && forall|j: int| 0 <= j < i ==> texture_ok(#[trigger] sizes@[j]),
        },
{
    let mut i: usize = 0;
    while i < 4
        invariant
            i <= 4,
            forall|j: int| 0 <= j < i ==> texture_ok(#[trigger] sizes@[j]),
        decreases 4 - i,
    {
        let name = TEXTURE_FILES[i];
        assert(name@ == texture_name(i as int));
        let size = sizes[i];
        assert(size == sizes@[i as int]);
        match size {
            None => {
                let mut e = owned("there is no ");
                e.append(name);
                e.append(" in it");
                assert(e@ == texture_refusal(texture_name(i as int), sizes@[i as int]));
                return Err(e);
            },
            Some(bytes) => {
                if bytes < TEXTURE_MIN_BYTES {
                    let mut e = owned(name);
                    e.append(" is ");
                    let n = dec_string(bytes);
                    e.append(n.as_str());
                    e.append(
                        " bytes, which is a Git LFS pointer rather than the asset; `git lfs pull` fetches it",
                    );
                    assert(e@ == texture_refusal(texture_name(i as int), sizes@[i as int]));
                    return Err(e);
                }
            },
        }
        i = i + 1;
    }
    Ok(())
}

/// The arguments of the `cargo` invocation that builds the suite without
/// running it.
pub open spec fn build_args_spec() -> Seq<Seq<char>> {
    seq![
        "test"@,
        "--no-run"@,
        "--locked"@,
        "--message-format=json"@,
        "-p"@,
        PACKAGE@,
        "--test"@,
        TEST_TARGET@,
    ]
}

pub fn build_args() -> (r: Vec<String>)
    ensures
        views(r@) == build_args_spec(),
{
    let r = vec![
        owned("test"),
        owned("--no-run"),
        owned("--locked"),
        owned("--message-format=json"),
        owned("-p"),
        owned(PACKAGE),
        owned("--test"),
        owned(TEST_TARGET),
    ];
    assert(views(r@) =~= build_args_spec());
    r
}

/// A value single-quoted for `sh`, each quote inside closed, escaped and
/// reopened.
pub open spec fn shell_quote_spec(s: Seq<char>) -> Seq<char> {
    "'"@ + replace_str_spec(s, '\'', "'\\''"@) + "'"@
}

pub fn shell_quote(value: &str) -> (r: String)
    ensures
        r@ == shell_quote_spec(value@),
{
    let mut r = owned("'");
    let inner = replace_str(value, '\'', "'\\''");
    r.append(inner.as_str());
    r.append("'");
    r
}

/// A Windows path prepared for a program inside WSL: `wsl.exe` eats single
/// backslashes on the way in, and both sides accept forward slashes.
pub fn wsl_arg(path: &str) -> (r: String)
    ensures
        r@ == replace_char_spec(path@, '\\', '/'),
{
    replace_char(path, '\\', '/')
}

/// The script WSL's bash runs to build the Linux binaries, with Cargo's target
/// directory inside the distribution's own filesystem.
pub open spec fn wsl_build_script(repo: Seq<char>) -> Seq<char> {
    "cd "@ + shell_quote_spec(repo) + " && CARGO_TARGET_DIR=$HOME/sunlit-target cargo "@ + join_spec(
        build_args_spec(),
        " "@,
    )
}

/// The command line that builds the Linux binaries inside WSL.
pub fn wsl_build_command(distro: &str, repo_wsl_path: &str) -> (r: Cmd)
    ensures
        r.program@ == "wsl.exe"@,
        views(r.args@) == seq!["-d"@, distro@, "--"@, "bash"@, "-lc"@, wsl_build_script(repo_wsl_path@)],
        r.cwd is None,
        !r.inherit_stderr,
        !r.interactive,
{
    let mut script = owned("cd ");
    let q = shell_quote(repo_wsl_path);
    script.append(q.as_str());
    script.append(" && CARGO_TARGET_DIR=$HOME/sunlit-target cargo ");
    let args = build_args();
    let joined = join(&args, " ");
    script.append(joined.as_str());
    let v = vec![owned("-d"), owned(distro), owned("--"), owned("bash"), owned("-lc"), script];
    let r = Cmd::new("wsl.exe").args(v);
    assert(views(r.args@) =~= seq![
        "-d"@,
        distro@,
        "--"@,
        "bash"@,
        "-lc"@,
        wsl_build_script(repo_wsl_path@),
    ]);
    r
}

/// `wslpath` inside the distribution, asked to translate one path.
pub fn wslpath_command(distro: &str, flag: &str, path: &str) -> (r: Cmd)
    ensures
        r.program@ == "wsl.exe"@,
        views(r.args@) == seq![
            "-d"@,
            distro@,
            "--"@,
            "wslpath"@,
            flag@,
            replace_char_spec(path@, '\\', '/'),
        ],
        r.cwd is None,
        !r.inherit_stderr,
        !r.interactive,
{
    let v = vec![owned("-d"), owned(distro), owned("--"), owned("wslpath"), owned(flag), wsl_arg(path)];
    let r = Cmd::new("wsl.exe").args(v);
    assert(views(r.args@) =~= seq![
        "-d"@,
        distro@,
        "--"@,
        "wslpath"@,
        flag@,
        replace_char_spec(path@, '\\', '/'),
    ]);
    r
}

/// What compiles a guest's binaries on this host.
#[derive(Debug, Clone, Copy, PartialEq, Eq, Structural)]
pub enum Builder {
    /// The host's own cargo.
    Native,
    /// The WSL distribution: a Windows host building the Linux guest's binaries.
    Wsl,
    /// A builder guest of the target's own operating system, booted for the
    /// build and taken down again: a Linux host building the Windows guest's.
    Guest(Image),
}

pub open spec fn builder_for_spec(host: HostOs, target: Target) -> Option<Builder> {
    match (host, target) {
        (HostOs::Windows, Target::Windows) => Some(Builder::Native),
        (HostOs::Linux, Target::Linux) => Some(Builder::Native),
        (HostOs::Windows, Target::Linux) => Some(Builder::Wsl),
        (HostOs::Linux, Target::Windows) => Some(Builder::Guest(builder_image(target))),
        _ => None,
    }
}

pub open spec fn no_builder_refusal(host: HostOs, target: Target) -> Seq<char> {
    "a "@ + host_name(host) + " host cannot build binaries for a "@ + target_slug(target) + " guest"@
}

/// Which builder this host uses for `target`, without asking whether it is
/// ready to be used.
pub fn builder_for(host: HostOs, target: Target) -> (r: Result<Builder, String>)
    ensures
        match builder_for_spec(host, target) {
            Some(b) => r == Ok::<Builder, String>(b),
            None => r matches Err(e) && e@ == no_builder_refusal(host, target),
        },
{
    match (host, target) {
        (HostOs::Windows, Target::Windows) => Ok(Builder::Native),
        (HostOs::Linux, Target::Linux) => Ok(Builder::Native),
        (HostOs::Windows, Target::Linux) => Ok(Builder::Wsl),
        (HostOs::Linux, Target::Windows) => Ok(Builder::Guest(Image::builder(target))),
        _ => {
            let mut e = owned("a ");
            e.append(host.name());
            e.append(" host cannot build binaries for a ");
            e.append(target.slug());
            e.append(" guest");
            Err(e)
        },
    }
}

/// What the image store says about an image, as far as booting it goes.
#[derive(Debug, Clone, PartialEq, Eq)]
pub struct ImageCondition {
    /// A short word for the state it is in.
    pub label: String,
    /// The sentence that goes with it.
    pub detail: String,
    /// Whether a guest cannot be booted from it in this state.
    pub blocks_boot: bool,
}

pub open spec fn build_image_hint(image: Image) -> Seq<char> {
    ". `cargo xtask vm build-image "@ + image_slug(image) + "` makes it"@
}

pub open spec fn builder_prefix(host: HostOs, target: Target, image: Image) -> Seq<char> {
    "the "@ + target_slug(target) + " guest's binaries are built in the "@ + image_slug(image)
        + " guest on a "@ + host_name(host) + " host, and "@
}

pub open spec fn unusable_builder_refusal(
    host: HostOs,
    target: Target,
    image: Image,
    condition: Option<(Seq<char>, Seq<char>)>,
) -> Seq<char> {
    match condition {
        Some((label, detail)) => builder_prefix(host, target, image) + "that image is "@ + label
            + ": "@ + detail + build_image_hint(image),
        None => builder_prefix(host, target, image) + "nothing is known about that image"@
            + build_image_hint(image),
    }
}

/// The builder, and whether it can be used right now. The one thing that can
/// be missing is a builder guest's image: `condition` is what the store knows
/// about it, `None` where it knows nothing.
pub fn usable_builder(host: HostOs, target: Target, condition: Option<&ImageCondition>) -> (r: Result<
    Builder,
    String,
>)
    ensures
        match builder_for_spec(host, target) {
            None => r matches Err(e) && e@ == no_builder_refusal(host, target),
            Some(Builder::Guest(image)) => match condition {
                Some(c) => if c.blocks_boot {
                    r matches Err(e) && e@ == unusable_builder_refusal(
                        host,
                        target,
                        image,
                        Some((c.label@, c.detail@)),
                    )
                } else {
                    r == Ok::<Builder, String>(Builder::Guest(image))
                },
                None => r matches Err(e) && e@ == unusable_builder_refusal(host, target, image, None),
            },
            Some(b) => r == Ok::<Builder, String>(b),
        },
{
    let builder = match builder_for(host, target) {
        Ok(b) => b,
        Err(e) => return Err(e),
    };
    if let Builder::Guest(image) = builder {
        let mut e = owned("the ");
        e.append(target.slug());
        e.append(" guest's binaries are built in the ");
        e.append(image.slug());
        e.append(" guest on a ");
        e.append(host.name());
        e.append(" host, and ");
        match condition {
            Some(c) => {
                if !c.blocks_boot {
                    return Ok(builder);
                }
                e.append("that image is ");
                e.append(c.label.as_str());
                e.append(": ");
                e.append(c.detail.as_str());
            },
            None => {
                e.append("nothing is known about that image");
            },
        }
        e.append(". `cargo xtask vm build-image ");
        e.append(image.slug());
        e.append("` makes it");
        return Err(e);
    }
    Ok(builder)
}

pub open spec fn no_app_refusal() -> Seq<char> {
    "cargo built no "@ + PACKAGE@ + " binary"@
}

pub open spec fn no_harness_refusal() -> Seq<char> {
    "cargo built no "@ + TEST_TARGET@ + " test harness"@
}

/// `app` and `harness` are what Cargo reported for the application binary and
/// the suite's harness: the first artifact of each kind.
pub open spec fn selected(artifacts: Seq<Artifact>, app: Seq<char>, harness: Seq<char>) -> bool {
    &&& exists|i: int|
        0 <= i < artifacts.len() && is_bin(artifacts[i], PACKAGE@) && app == artifacts[i].executable@
            && forall|j: int| 0 <= j < i ==> !is_bin(#[trigger] artifacts[j], PACKAGE@)
    &&& exists|i: int|
        0 <= i < artifacts.len() && is_harness(artifacts[i], TEST_TARGET@) && harness
            == artifacts[i].executable@ && forall|j: int| 0 <= j < i ==> !is_harness(#[trigger] artifacts[j], TEST_TARGET@)
}

/// `e` says which of the two Cargo did not report, the application first.
pub open spec fn not_selected(artifacts: Seq<Artifact>, e: Seq<char>) -> bool {
    ||| (forall|j: int| 0 <= j < artifacts.len() ==> !is_bin(#[trigger] artifacts[j], PACKAGE@)) && e
        == no_app_refusal()
    ||| (exists|i: int| 0 <= i < artifacts.len() && is_bin(artifacts[i], PACKAGE@)) && (forall|j: int|
        0 <= j < artifacts.len() ==> !is_harness(#[trigger] artifacts[j], TEST_TARGET@)) && e == no_harness_refusal()
}

/// Pick the two executables out of what Cargo reported: the application
/// binary and the suite's harness, in that order.
pub fn select(artifacts: &[Artifact]) -> (r: Result<(String, String), String>)
    ensures
        match r {
            Ok((app, harness)) => selected(artifacts@, app@, harness@),
            Err(e) => not_selected(artifacts@, e@),
        },
{
    let app = match cargo_json::bin(artifacts, PACKAGE) {
        Some(a) => a,
        None => {
            let mut e = owned("cargo built no ");
            e.append(PACKAGE);
            e.append(" binary");
            return Err(e);
        },
    };
    let harness = match cargo_json::test_binary(artifacts, TEST_TARGET) {
        Some(a) => a,
        None => {
            let mut e = owned("cargo built no ");
            e.append(TEST_TARGET);
            e.append(" test harness");
            return Err(e);
        },
    };
    Ok((owned(app.executable.as_str()), owned(harness.executable.as_str())))
}

pub open spec fn native_build_failure() -> Seq<char> {
    "building the e2e suite failed; the output above says why"@
}

/// What a build on the host itself gave: `success` is whether Cargo exited
/// cleanly, `artifacts` what it reported; the fixtures and textures are the
/// repository's own.
pub fn native_build_result(
    success: bool,
    artifacts: &[Artifact],
    fixtures: String,
    textures: Option<String>,
) -> (r: Result<HostArtifacts, String>)
    ensures
        !success ==> (r matches Err(e) && e@ == native_build_failure()),
        success ==> match r {
            Ok(h) => selected(artifacts@, h.app@, h.harness@) && h.fixtures == fixtures && h.textures == textures,
            Err(e) => not_selected(artifacts@, e@),
        },
{
    if !success {
        return Err(owned("building the e2e suite failed; the output above says why"));
    }
    match select(artifacts) {
        Ok((app, harness)) => Ok(HostArtifacts { app, harness, fixtures, textures }),
        Err(e) => Err(e),
    }
}

pub open spec fn wsl_build_failure() -> Seq<char> {
    "building the Linux e2e suite in "@ + WSL_DISTRO@ + " failed; the output above says why"@
}

/// What the build inside the WSL distribution gave: the paths, inside the
/// distribution, of the two executables to copy out.
pub fn wsl_build_outcome(success: bool, artifacts: &[Artifact]) -> (r: Result<(String, String), String>)
    ensures
        !success ==> (r matches Err(e) && e@ == wsl_build_failure()),
        success ==> match r {
            Ok((app, harness)) => selected(artifacts@, app@, harness@),
            Err(e) => not_selected(artifacts@, e@),
        },
{
    if !success {
        let mut e = owned("building the Linux e2e suite in ");
        e.append(WSL_DISTRO);
        e.append(" failed; the output above says why");
        return Err(e);
    }
    select(artifacts)
}

pub open spec fn wsl_copy_script(app: Seq<char>, harness: Seq<char>, dest: Seq<char>) -> Seq<char> {
    "cp "@ + shell_quote_spec(app) + " "@ + shell_quote_spec(harness) + " "@ + shell_quote_spec(dest) + "/"@
}

/// Copying the two executables out of the distribution into the staging
/// directory, given as the distribution spells it.
pub fn wsl_copy_command(app: &str, harness: &str, dest: &str) -> (r: Cmd)
    ensures
        r.program@ == "wsl.exe"@,
        views(r.args@) == seq!["-d"@, WSL_DISTRO@, "--"@, "bash"@, "-lc"@, wsl_copy_script(app@, harness@, dest@)],
        r.cwd is None,
        !r.inherit_stderr,
        !r.interactive,
{
    let mut script = owned("cp ");
    script.append(shell_quote(app).as_str());
    script.append(" ");
    script.append(shell_quote(harness).as_str());
    script.append(" ");
    script.append(shell_quote(dest).as_str());
    script.append("/");
    let args = vec![owned("-d"), owned(WSL_DISTRO), owned("--"), owned("bash"), owned("-lc"), script];
    assert(views(args@) =~= seq!["-d"@, WSL_DISTRO@, "--"@, "bash"@, "-lc"@, wsl_copy_script(app@, harness@, dest@)]);
    Cmd::new("wsl.exe").args(args)
}

/// Whether the copy out of the distribution worked, and why not.
pub fn wsl_copy_outcome(run: &Result<CommandOutput, String>) -> (r: Result<(), String>)
    ensures
        match run {
            Err(e) => r matches Err(m) && m@ == "cannot run wsl.exe: "@ + e@,
            Ok(out) => if out.code == Some(0i32) {
                r is Ok
            } else {
                r matches Err(m) && m@ == "copying the Linux binaries out of "@ + WSL_DISTRO@ + " failed: "@ + trim_spec(
                    out.stderr@,
                )
            },
        },
{
    match run {
        Err(e) => {
            let mut m = owned("cannot run wsl.exe: ");
            m.append(e.as_str());
            Err(m)
        },
        Ok(out) => {
            if out.success() {
                Ok(())
            } else {
                let mut m = owned("copying the Linux binaries out of ");
                m.append(WSL_DISTRO);
                m.append(" failed: ");
                m.append(trim(out.stderr.as_str()).as_str());
                Err(m)
            }
        },
    }
}

/// What `wslpath` answered for `path`: the translation, trimmed, or why there
/// is none.
pub fn wslpath_outcome(path: &str, run: &Result<CommandOutput, String>) -> (r: Result<String, String>)
    ensures
        match run {
            Err(e) => r matches Err(m) && m@ == "cannot run wsl.exe: "@ + e@,
            Ok(out) => if out.code == Some(0i32) {
                r matches Ok(t) && t@ == trim_spec(out.stdout@)
            } else {
                r matches Err(m) && m@ == "wslpath could not translate "@ + path@ + ": "@ + trim_spec(out.stderr@)
            },
        },
{
    match run {
        Err(e) => {
            let mut m = owned("cannot run wsl.exe: ");
            m.append(e.as_str());
            Err(m)
        },
        Ok(out) => {
            if out.success() {
                Ok(out.trimmed())
            } else {
                let mut m = owned("wslpath could not translate ");
                m.append(path);
                m.append(": ");
                m.append(trim(out.stderr.as_str()).as_str());
                Err(m)
            }
        },
    }
}

/// The line a build in a builder guest starts with: which guest it is for,
/// which guest it runs in, and why.
pub open spec fn guest_build_line_spec(builder: Image) -> Seq<char> {
    "building the e2e suite for the "@ + target_slug(image_target(builder)) + " guest in the "@ + image_slug(builder)
        + " guest, because this host has no "@ + target_slug(image_target(builder)) + " toolchain"@
}

pub fn guest_build_line(builder: Image) -> (r: String)
    ensures
        r@ == guest_build_line_spec(builder),
{
    let t = builder.target().slug();
    let mut r = owned("building the e2e suite for the ");
    r.append(t);
    r.append(" guest in the ");
    r.append(builder.slug());
    r.append(" guest, because this host has no ");
    r.append(t);
    r.append(" toolchain");
    r
}

/// The line saying how much source went to the builder: the working tree, not
/// `HEAD`.
pub fn worktree_line(bytes: u64) -> (r: String)
    ensures
        r@ == "  the working tree is "@ + format_bytes_spec(bytes as nat)
            + " of source, not HEAD: what is staged is what is in the tree now"@,
{
    let mut r = owned("  the working tree is ");
    r.append(format_bytes(bytes).as_str());
    r.append(" of source, not HEAD: what is staged is what is in the tree now");
    r
}

pub open spec fn guest_build_exit_spec(builder: Image, code: i32, results: Seq<char>) -> Seq<char> {
    "building the e2e suite in the "@ + image_slug(builder) + " guest exited "@ + int_dec(code as int)
        + "; its output is above and "@ + results + " has what it wrote"@
}

/// What a build in a builder guest came to, once its results are back in
/// `results`: the job's exit code decides, and a clean exit is read for the
/// two executables Cargo reported, as paths inside the guest.
pub fn guest_build_outcome(builder: Image, code: i32, results: &str, artifacts: &[Artifact]) -> (r: Result<
    (String, String),
    String,
>)
    ensures
        code != 0 ==> (r matches Err(e) && e@ == guest_build_exit_spec(builder, code, results@)),
        code == 0 ==> match r {
            Ok((app, harness)) => selected(artifacts@, app@, harness@),
            Err(e) => not_selected(artifacts@, e@),
        },
{
    if code != 0 {
        let mut e = owned("building the e2e suite in the ");
        e.append(builder.slug());
        e.append(" guest exited ");
        e.append(i32_string(code).as_str());
        e.append("; its output is above and ");
        e.append(results);
        e.append(" has what it wrote");
        return Err(e);
    }
    select(artifacts)
}

/// The script that archives the working tree, not `HEAD`, for a builder guest:
/// tracked files with their working-tree content plus new files that are not
/// ignored, under `src/`, without the textures.
pub open spec fn worktree_archive_script_spec(output: Seq<char>) -> Seq<char> {
    "set -euo pipefail\ngit ls-files -z --cached --others --exclude-standard -- ':!textures' | tar --null --files-from - --transform 's,^,src/,' --create --file "@
        + shell_quote_spec(output) + "\n"@
}

pub fn worktree_archive_script(output: &str) -> (r: String)
    ensures
        r@ == worktree_archive_script_spec(output@),
{
    let mut r = owned(
        "set -euo pipefail\ngit ls-files -z --cached --others --exclude-standard -- ':!textures' | tar --null --files-from - --transform 's,^,src/,' --create --file ",
    );
    let q = shell_quote(output);
    r.append(q.as_str());
    r.append("\n");
    r
}

/// The `cmd.exe` job that builds the suite inside a Windows builder guest with
/// the pinned toolchain, keeping the archive's modification times and writing
/// Cargo's JSON into the results directory.
pub open spec fn guest_build_job_spec(channel: Seq<char>) -> Seq<char> {
    "@echo off\r\nset ROOT="@ + GUEST_ROOT_WINDOWS@ + "\r\nset CARGO_NET_RETRY=5\r\nset CARGO_TERM_COLOR=never\r\nset LIBCLANG_PATH="@
        + LIBCLANG_DIR@ + "\r\nset CARGO_TARGET_DIR=%ROOT%\\"@ + GUEST_TARGET_DIR@
        + "\r\nset CARGO=%USERPROFILE%\\.cargo\\bin\\cargo.exe\r\nset RUSTUP=%USERPROFILE%\\.cargo\\bin\\rustup.exe\r\n\"%RUSTUP%\" toolchain install "@
        + channel
        + " --profile minimal || exit /b 1\r\nif exist \"%ROOT%\\src\" rmdir /s /q \"%ROOT%\\src\"\r\ntar.exe -xf \"%ROOT%\\src.tar\" -C \"%ROOT%\" || exit /b 1\r\ncd /d \"%ROOT%\\src\" || exit /b 1\r\n\"%CARGO%\" +"@
        + channel + " "@ + join_spec(build_args_spec(), " "@)
        + " > \"%SUNLIT_E2E_ARTIFACTS%\\"@ + CARGO_JSON@ + "\" || exit /b 1\r\nexit /b 0\r\n"@
}

pub fn guest_build_job(channel: &str) -> (r: String)
    ensures
        r@ == guest_build_job_spec(channel@),
{
    let mut r = owned("@echo off\r\nset ROOT=");
    r.append(GUEST_ROOT_WINDOWS);
    r.append("\r\nset CARGO_NET_RETRY=5\r\nset CARGO_TERM_COLOR=never\r\nset LIBCLANG_PATH=");
    r.append(LIBCLANG_DIR);
    r.append("\r\nset CARGO_TARGET_DIR=%ROOT%\\");
    r.append(GUEST_TARGET_DIR);
    r.append(
        "\r\nset CARGO=%USERPROFILE%\\.cargo\\bin\\cargo.exe\r\nset RUSTUP=%USERPROFILE%\\.cargo\\bin\\rustup.exe\r\n\"%RUSTUP%\" toolchain install ",
    );
    r.append(channel);
    r.append(
        " --profile minimal || exit /b 1\r\nif exist \"%ROOT%\\src\" rmdir /s /q \"%ROOT%\\src\"\r\ntar.exe -xf \"%ROOT%\\src.tar\" -C \"%ROOT%\" || exit /b 1\r\ncd /d \"%ROOT%\\src\" || exit /b 1\r\n\"%CARGO%\" +",
    );
    r.append(channel);
    r.append(" ");
    let args = build_args();
    let joined = join(&args, " ");
    r.append(joined.as_str());
    r.append(" > \"%SUNLIT_E2E_ARTIFACTS%\\");
    r.append(CARGO_JSON);
    r.append("\" || exit /b 1\r\nexit /b 0\r\n");
    r
}

/// The last component of a path the guest spelled, split on either separator,
/// since a Windows guest's paths do not follow a Linux host's rules.
pub open spec fn guest_leaf_spec(path: Seq<char>) -> Seq<char> {
    path.skip(name_start(path))
}

pub fn guest_leaf(path: &str) -> (r: String)
    ensures
        r@ == guest_leaf_spec(path@),
{
    let v = chars_of(path);
    let at = name_start_of(&v);
    let r = string_of(&v, at, v.len());
    assert(v@.subrange(at as int, v.len() as int) =~= v@.skip(at as int));
    r
}

/// Where each artifact lands inside the guest.
#[derive(Debug, Clone, PartialEq, Eq)]
pub struct GuestPaths {
    pub app: String,
    pub harness: String,
    pub fixtures: String,
    /// Where the textures landed, when there were any to stage.
    pub textures: Option<String>,
}

pub open spec fn sep_of(target: Target) -> Seq<char> {
    match target {
        Target::Windows => "\\"@,
        Target::Linux => "/"@,
    }
}

/// The guest-side paths for a target, given the host file names.
pub fn guest_paths(target: Target, app: &str, harness: &str, textures: bool) -> (r: GuestPaths)
    ensures
        r.app@ == under_root(target, "bin"@) + sep_of(target) + app@,
        r.harness@ == under_root(target, "bin"@) + sep_of(target) + harness@,
        r.fixtures@ == under_root(target, "fixtures"@),
        match r.textures {
            Some(t) => textures && t@ == under_root(target, "textures"@),
            None => !textures,
        },
{
    let sep = match target {
        Target::Windows => "\\",
        Target::Linux => "/",
    };
    let mut a = guest_bin(target);
    a.append(sep);
    a.append(app);
    let mut h = guest_bin(target);
    h.append(sep);
    h.append(harness);
    let mut f = match target {
        Target::Windows => owned(GUEST_ROOT_WINDOWS),
        Target::Linux => owned(GUEST_ROOT_LINUX),
    };
    f.append(sep);
    f.append("fixtures");
    let t = if textures {
        Some(guest_textures(target))
    } else {
        None
    };
    GuestPaths { app: a, harness: h, fixtures: f, textures: t }
}

/// What staging a build into a guest does: what is copied where, the command
/// that makes the binaries executable where the copy does not carry the bit,
/// and where everything then is.
#[derive(Debug, Clone, PartialEq, Eq)]
pub struct StagePlan {
    /// `(host path, guest directory)`, in the order they are copied.
    pub copies: Vec<(String, String)>,
    /// Run in a Linux guest after the copies: scp does not carry the
    /// executable bit onto every filesystem.
    pub chmod: Option<String>,
    pub paths: GuestPaths,
}

pub open spec fn copy_view(c: (String, String)) -> (Seq<char>, Seq<char>) {
    (c.0@, c.1@)
}

/// The copies staging makes: both binaries into the guest's `bin`, and the
/// fixtures and any textures into its root.
pub open spec fn stage_copies_spec(target: Target, built: HostArtifacts) -> Seq<(Seq<char>, Seq<char>)> {
    let root = guest_root_spec(target) + "/"@;
    let base = seq![
        (built.app@, under_root(target, "bin"@)),
        (built.harness@, under_root(target, "bin"@)),
        (built.fixtures@, root),
    ];
    match built.textures {
        Some(t) => base.push((t@, root)),
        None => base,
    }
}

/// Plan the staging of a build into a guest of `target`. The binaries keep
/// the file names the host gives them.
pub fn stage_plan(target: Target, built: &HostArtifacts) -> (r: StagePlan)
    ensures
        r.copies@.map_values(|c: (String, String)| copy_view(c)) == stage_copies_spec(target, *built),
        exists|a: Seq<char>, h: Seq<char>|
            #![trigger file_name_is(built.app@, a), file_name_is(built.harness@, h)]
            file_name_is(built.app@, a) && file_name_is(built.harness@, h) && r.paths.app@ == under_root(
                target,
                "bin"@,
            ) + sep_of(target) + a && r.paths.harness@ == under_root(target, "bin"@) + sep_of(target) + h,
        r.paths.fixtures@ == under_root(target, "fixtures"@),
        (r.paths.textures is Some) == (built.textures is Some),
        r.paths.textures matches Some(t) ==> t@ == under_root(target, "textures"@),
        match target {
            Target::Linux => r.chmod matches Some(c) && c@ == "chmod +x "@ + r.paths.app@ + " "@
                + r.paths.harness@,
            Target::Windows => r.chmod is None,
        },
{
    let bin = guest_bin(target);
    let mut root = owned(guest_root(target));
    root.append("/");
    let mut copies: Vec<(String, String)> = Vec::new();
    copies.push((owned(built.app.as_str()), owned(bin.as_str())));
    copies.push((owned(built.harness.as_str()), owned(bin.as_str())));
    copies.push((owned(built.fixtures.as_str()), owned(root.as_str())));
    match &built.textures {
        Some(t) => copies.push((owned(t.as_str()), owned(root.as_str()))),
        None => {},
    }
    let app = file_name_of(built.app.as_str());
    let harness = file_name_of(built.harness.as_str());
    let paths = guest_paths(target, app.as_str(), harness.as_str(), built.textures.is_some());
    let chmod = match target {
        Target::Linux => {
            let mut c = owned("chmod +x ");
            c.append(paths.app.as_str());
            c.append(" ");
            c.append(paths.harness.as_str());
            Some(c)
        },
        Target::Windows => None,
    };
    let ghost want = stage_copies_spec(target, *built);
    assert(copies@.map_values(|c: (String, String)| copy_view(c)) =~= want);
    StagePlan { copies, chmod, paths }
}

} // verus!
