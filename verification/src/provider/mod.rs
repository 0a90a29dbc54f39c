//! The hypervisors, and what both of them share about the guest.

use vstd::prelude::*;

use crate::provider::target::{Image, Target, target_slug};
use crate::text::owned;

pub mod console;
pub mod desktop;
pub mod firmware;
pub mod hyperv;
pub mod qemu;
pub mod qmp;
pub mod target;

verus! {

/// Where a Linux guest keeps everything.
pub const GUEST_ROOT_LINUX: &'static str = "/var/lib/sunlit-e2e";

/// Where a Windows guest keeps everything.
pub const GUEST_ROOT_WINDOWS: &'static str = "C:\\sunlit-e2e";

/// What a destroy actually had to do.
#[derive(Debug, Clone, Copy, PartialEq, Eq, Structural)]
pub enum Stopped {
    /// A running VM was stopped.
    Stopped,
    /// There was nothing running, though there may have been something
    /// registered to remove.
    WasNotRunning,
    /// The guest was asked to stop and did, closing its disk itself.
    ShutDown,
    /// The guest had to be killed, so a disk that is kept needs a repair pass.
    Killed,
}

pub open spec fn guest_root_spec(t: Target) -> Seq<char> {
    match t {
        Target::Windows => GUEST_ROOT_WINDOWS@,
        Target::Linux => GUEST_ROOT_LINUX@,
    }
}

/// The separator the guest's own paths use.
pub open spec fn sep_spec(t: Target) -> Seq<char> {
    match t {
        Target::Windows => "\\"@,
        Target::Linux => "/"@,
    }
}

/// A directory directly under the guest's root, spelled the guest's way.
pub open spec fn under_root(t: Target, leaf: Seq<char>) -> Seq<char> {
    guest_root_spec(t) + sep_spec(t) + leaf
}

/// The guest's root directory, per target.
pub fn guest_root(target: Target) -> (r: &'static str)
    ensures
        r@ == guest_root_spec(target),
{
    match target {
        Target::Windows => GUEST_ROOT_WINDOWS,
        Target::Linux => GUEST_ROOT_LINUX,
    }
}

/// `leaf` under the guest's root.
pub fn guest_path(target: Target, leaf: &str) -> (r: String)
    ensures
        r@ == under_root(target, leaf@),
{
    let mut r = owned(guest_root(target));
    match target {
        Target::Windows => r.append("\\"),
        Target::Linux => r.append("/"),
    }
    r.append(leaf);
    r
}

/// Where results land inside the guest.
pub fn guest_results(target: Target) -> (r: String)
    ensures
        r@ == under_root(target, "results"@),
{
    guest_path(target, "results")
}

/// Where binaries are copied to inside the guest.
pub fn guest_bin(target: Target) -> (r: String)
    ensures
        r@ == under_root(target, "bin"@),
{
    guest_path(target, "bin")
}

/// Where the texture assets are copied to inside the guest.
pub fn guest_textures(target: Target) -> (r: String)
    ensures
        r@ == under_root(target, "textures"@),
{
    guest_path(target, "textures")
}

/// Memory in MiB and processors for a guest of an image. The desktop guests
/// get what their sessions need, a Windows one more than a Linux one; the
/// Windows builder is a child of the Windows desktop image and gets the same,
/// and the Linux builder twice the Linux desktop guest's memory, for the
/// compiler it carries.
pub open spec fn resources_spec(image: Image) -> (u32, u32) {
    match image {
        Image::Windows => (6144, 4),
        Image::WindowsBuilder => (6144, 4),
        Image::Linux => (4096, 2),
        Image::LinuxBuilder => (8192, 2),
    }
}

pub fn resources_for(image: Image) -> (r: (u32, u32))
    ensures
        r == resources_spec(image),
{
    match image {
        Image::Windows => (6144, 4),
        Image::WindowsBuilder => (6144, 4),
        Image::Linux => (4096, 2),
        Image::LinuxBuilder => (8192, 2),
    }
}

/// A path the guest reads the same from anywhere: one under the root of its
/// own operating system's filesystem.
pub open spec fn absolute_in(t: Target, path: Seq<char>) -> bool {
    match t {
        Target::Windows => crate::text::starts_with_spec(path, "C:"@),
        Target::Linux => crate::text::starts_with_spec(path, "/"@),
    }
}

/// Every guest path is absolute: the root and everything under it, so that a
/// path used both as a copy's destination and inside a script the guest runs
/// names the same place in both.
pub proof fn lemma_guest_paths_are_absolute(t: Target, leaf: Seq<char>)
    ensures
        absolute_in(t, guest_root_spec(t)),
        absolute_in(t, under_root(t, leaf)),
{
    reveal_strlit("C:");
    reveal_strlit("/");
    reveal_strlit("C:\\sunlit-e2e");
    reveal_strlit("/var/lib/sunlit-e2e");
    assert(guest_root_spec(t).subrange(0, 2) =~= "C:"@ || t == Target::Linux);
    assert(under_root(t, leaf).subrange(0, guest_root_spec(t).len() as int) =~= guest_root_spec(t));
    if t == Target::Windows {
        assert(under_root(t, leaf).subrange(0, 2) =~= guest_root_spec(t).subrange(0, 2));
    } else {
        assert(guest_root_spec(t).subrange(0, 1) =~= "/"@);
        assert(under_root(t, leaf).subrange(0, 1) =~= guest_root_spec(t).subrange(0, 1));
    }
}

} // verus!
