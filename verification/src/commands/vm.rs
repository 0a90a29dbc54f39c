//! The VM lifecycle commands' own decisions and texts: what a boot may be
//! asked for, what may run beside what, what is cleared away and what is
//! kept, and what each command says about the guest it leaves behind.
//!
//! `vm up` and `e2e --target <t>` share the whole boot path, which is what
//! makes an interactive guest and a test guest the same guest. The commands
//! themselves run processes and read files; everything they decide from what
//! they read is here.

use vstd::prelude::*;

use crate::fmt::{format_bytes, format_bytes_spec, round_secs, round_secs_spec};
use crate::guest::artifacts::{builder_for_spec, usable_builder, Builder, ImageCondition};
use crate::guest::handover::{
    linux_launcher_path, linux_launcher_path_spec, APP_SHORTCUT, ENTRY_NAME, FOLDER_SHORTCUT,
    WINDOWS_SLINT_BACKEND,
};
use crate::provider::desktop::{
    current_desktop_spec, desktop_flag, env_value, login_label, login_refusal, session_mismatch,
    session_spec, session_type_flag, some_piece_ic, Desktop, Login, SessionType,
};
use crate::provider::hyperv::CREDENTIAL_DIALOG_CAVEAT;
use crate::provider::target::{
    builder_image, desktop_image, image_console_label, image_has_desktop, image_is_builder, image_slug,
    image_target, target_slug, vm_name_spec, HostOs, Image, ProviderKind, Target,
};
use crate::provider::{resources_for, resources_spec, Stopped, GUEST_ROOT_LINUX};
use crate::split::{lines_of, strip_prefix, trim_end_matches, trim_end_matches_spec, words, words_spec};
use crate::state::{cost_of_ending_spec, RunState, StartReason};
use crate::text::{
    all_digits, chars_of, dec, dec_string, find_char, is_digit, join, join_spec, lines_spec,
    owned, split_once2, split_once2_spec, starts_with_spec, str_eq, string_of, trim, trim_spec,
    views,
};

verus! {

/// A `Result` with its error taken by view.
pub open spec fn res_view<T>(r: Result<T, String>) -> Result<T, Seq<char>> {
    match r {
        Ok(v) => Ok(v),
        Err(e) => Err(e@),
    }
}

/// A `Result` of two strings, both taken by view.
pub open spec fn text_res_view(r: Result<String, String>) -> Result<Seq<char>, Seq<char>> {
    match r {
        Ok(v) => Ok(v@),
        Err(e) => Err(e@),
    }
}

// ---------------------------------------------------------------------------
// Waiting for a guest
// ---------------------------------------------------------------------------

pub open spec fn readiness_wait_spec(image: Image) -> Seq<char> {
    if image_has_desktop(image) {
        "waiting for the desktop session"@
    } else {
        "waiting for the guest to be ready for a job"@
    }
}

/// What the wait after SSH is waiting for, per image.
///
/// One marker, and what writes it differs: an image with a session writes it
/// from the session that logs on, and the Linux builder from a oneshot unit at
/// boot, because it has no session to write it from. The Windows builder is a
/// child of the desktop image and inherits its logon, so it waits for one.
pub fn readiness_wait_line(image: Image) -> (r: &'static str)
    ensures
        r@ == readiness_wait_spec(image),
{
    if image.has_desktop() {
        "waiting for the desktop session"
    } else {
        "waiting for the guest to be ready for a job"
    }
}

pub open spec fn readiness_ready_spec(image: Image, elapsed_ms: u64) -> Seq<char> {
    "  "@
        + (if image_has_desktop(image) { "the desktop"@ } else { "the guest"@ })
        + " was ready after "@
        + (round_secs_spec(elapsed_ms))
        + "s"@
}

/// The line that closes that wait, with what it cost, in whole seconds.
pub fn readiness_ready_line(image: Image, elapsed_ms: u64) -> (r: String)
    ensures
        r@ == readiness_ready_spec(image, elapsed_ms),
{
    let mut r = String::new();
    r.append("  ");
    if image.has_desktop() { r.append("the desktop"); } else { r.append("the guest"); }
    r.append(" was ready after ");
    { let t = round_secs(elapsed_ms); r.append(t.as_str()); }
    r.append("s");
    r
}

// ---------------------------------------------------------------------------
// Refusals about the image
// ---------------------------------------------------------------------------

pub open spec fn expired_help_spec(image: Image, summary: Seq<char>) -> Seq<char> {
    "The "@
        + (image_slug(image))
        + " golden image's evaluation has expired.\n\n"@
        + (summary)
        + "\n\nAn expired evaluation does not refuse to boot. Windows starts shutting itself down about once an hour, so a run inside it fails in the middle of whatever it was doing rather than failing cleanly. That is why this is checked before booting instead of diagnosed afterwards.\n\nRebuild it:  cargo xtask vm build-image "@
        + (image_slug(image))
        + "\nBoot anyway: add --allow-expired-image"@
}

/// The help text an expired evaluation image gets, around the summary of its
/// evaluation state.
///
/// Expiry is not a hard refusal: it stops before booting and says how to
/// proceed anyway, because the failure it prevents is flakiness rather than an
/// error.
pub fn expired_help(image: Image, summary: &str) -> (r: String)
    ensures
        r@ == expired_help_spec(image, summary@),
{
    let mut r = String::new();
    r.append("The ");
    r.append(image.slug());
    r.append(" golden image's evaluation has expired.\n\n");
    r.append(summary);
    r.append("\n\nAn expired evaluation does not refuse to boot. Windows starts shutting itself down about once an hour, so a run inside it fails in the middle of whatever it was doing rather than failing cleanly. That is why this is checked before booting instead of diagnosed afterwards.\n\nRebuild it:  cargo xtask vm build-image ");
    r.append(image.slug());
    r.append("\nBoot anyway: add --allow-expired-image");
    r
}

pub open spec fn detached_help_spec(image: Image, detail: Seq<char>) -> Seq<char> {
    "the "@
        + (image_slug(image))
        + " layer is detached from its parent: "@
        + (detail)
        + ".\n\nA layer holds only what its own build changed, so it cannot be read without the disk it was built over. Hyper-V refuses to attach a child whose parent's identifier moved, and qcow2 reads garbage without saying so, which is why this is checked here rather than left to the hypervisor. Nothing can be repaired in place: the blocks the parent used to hold are the ones that are gone.\n\nRebuild it over the parent that is there now: cargo xtask vm build-image "@
        + (image_slug(image))
}

/// The help text a layer whose parent moved gets.
///
/// This is the refusal that has to say what a layer is: the disk is intact and
/// its own checksum matches, and it is still unreadable, because a differencing
/// child holds only what its own build changed.
pub fn detached_help(image: Image, detail: &str) -> (r: String)
    ensures
        r@ == detached_help_spec(image, detail@),
{
    let mut r = String::new();
    r.append("the ");
    r.append(image.slug());
    r.append(" layer is detached from its parent: ");
    r.append(detail);
    r.append(".\n\nA layer holds only what its own build changed, so it cannot be read without the disk it was built over. Hyper-V refuses to attach a child whose parent's identifier moved, and qcow2 reads garbage without saying so, which is why this is checked here rather than left to the hypervisor. Nothing can be repaired in place: the blocks the parent used to hold are the ones that are gone.\n\nRebuild it over the parent that is there now: cargo xtask vm build-image ");
    r.append(image.slug());
    r
}

pub open spec fn keep_command_spec(image: Image) -> Seq<char> {
    match image_is_builder(image) {
        true => "cargo xtask dist --target "@
            + (target_slug(image_target(image)))
            + " --keep --no-verify"@,
        false => "cargo xtask e2e --target "@
            + (target_slug(image_target(image)))
            + " --keep"@,
    }
}

/// The command that leaves a guest of this image behind to look at.
///
/// Both take a target rather than an image, and which of the two it is follows
/// from what the image is for: the e2e suite runs in a desktop image and a
/// release build in a builder. `dist` needs `--no-verify` as well, because a run
/// that verifies boots the desktop image after the builder, and only the last
/// guest of a run is kept.
pub fn keep_command(image: Image) -> (r: String)
    ensures
        r@ == keep_command_spec(image),
{
    match image.is_builder() {
        true => {
            let mut r = String::new();
            r.append("cargo xtask dist --target ");
            r.append(image.target().slug());
            r.append(" --keep --no-verify");
            r
        },
        false => {
            let mut r = String::new();
            r.append("cargo xtask e2e --target ");
            r.append(image.target().slug());
            r.append(" --keep");
            r
        },
    }
}

// ---------------------------------------------------------------------------
// One guest at a time
// ---------------------------------------------------------------------------

/// Whether these two images may hold guests at the same time: when either is
/// a builder, which compiles for a guest under test rather than being one.
/// Two desktop guests are the pair that oversubscribes a host.
pub open spec fn may_run_beside_spec(booting: Image, other: Image) -> bool {
    image_is_builder(booting) || image_is_builder(other)
}

pub fn may_run_beside(booting: Image, other: Image) -> (r: bool)
    ensures
        r == may_run_beside_spec(booting, other),
{
    booting.is_builder() || other.is_builder()
}

pub open spec fn beside_line_spec(booting: Image, other: Image) -> Seq<char> {
    (vm_name_spec(other))
        + " is up as well, which a builder may be: the two hold "@
        + (format_bytes_spec(((resources_spec(booting).0 + resources_spec(other).0) * 1048576) as nat))
        + " of this host's memory between them"@
}

/// The one line a boot prints when it is not the only guest on this host,
/// with what the two guests hold between them: the figure rather than a
/// reassurance, because a smaller host is the case that breaks.
pub fn beside_line(booting: Image, other: Image) -> (r: String)
    ensures
        r@ == beside_line_spec(booting, other),
{
    let mut r = String::new();
    { let t = other.vm_name(); r.append(t.as_str()); }
    r.append(" is up as well, which a builder may be: the two hold ");
    { let t = format_bytes((resources_for(booting).0 as u64 + resources_for(other).0 as u64) * 1048576); r.append(t.as_str()); }
    r.append(" of this host's memory between them");
    r
}

pub open spec fn other_vm_refusal_spec(vm_name: Seq<char>, other: Image, reason: StartReason) -> Seq<char> {
    (vm_name)
        + " is already running, and only one VM runs at a time (every guest assumes the whole host's memory and cores).\n`cargo xtask vm down "@
        + (image_slug(other))
        + "` frees it"@
        + (match cost_of_ending_spec(reason) { Some(c) => ", which "@ + c, None => Seq::<char>::empty() })
        + "."@
}

/// The refusal a boot gets when another guest it may not run beside is up,
/// naming the command that frees it and, for a guest whose work would be lost,
/// what that command ends.
pub fn other_vm_refusal(vm_name: &str, other: Image, reason: StartReason) -> (r: String)
    ensures
        r@ == other_vm_refusal_spec(vm_name@, other, reason),
{
    let mut r = String::new();
    r.append(vm_name);
    r.append(" is already running, and only one VM runs at a time (every guest assumes the whole host's memory and cores).\n`cargo xtask vm down ");
    r.append(other.slug());
    r.append("` frees it");
    match reason.cost_of_ending() { Some(c) => { r.append(", which "); r.append(c); }, None => {} }
    r.append(".");
    r
}

// ---------------------------------------------------------------------------
// What a boot may be asked for
// ---------------------------------------------------------------------------

pub open spec fn desktop_option_refusal_spec(image: Image, desktop: Desktop) -> Seq<char> {
    "--desktop "@
        + (desktop_flag(desktop))
        + " is a Debian 13 guest option; the "@
        + (image_slug(image))
        + " image has one desktop and no way to choose another"@
}

fn desktop_option_refusal(image: Image, desktop: Desktop) -> (r: String)
    ensures
        r@ == desktop_option_refusal_spec(image, desktop),
{
    let mut r = String::new();
    r.append("--desktop ");
    r.append(desktop.flag());
    r.append(" is a Debian 13 guest option; the ");
    r.append(image.slug());
    r.append(" image has one desktop and no way to choose another");
    r
}

pub open spec fn no_desktop_refusal_spec(image: Image, desktop: Desktop) -> Seq<char> {
    "--desktop "@
        + (desktop_flag(desktop))
        + " asks for a session the "@
        + (image_slug(image))
        + " image does not have: it carries no desktop at all, which is what keeps it small and what keeps a compiler out of the images the suite runs in"@
}

fn no_desktop_refusal(image: Image, desktop: Desktop) -> (r: String)
    ensures
        r@ == no_desktop_refusal_spec(image, desktop),
{
    let mut r = String::new();
    r.append("--desktop ");
    r.append(desktop.flag());
    r.append(" asks for a session the ");
    r.append(image.slug());
    r.append(" image does not have: it carries no desktop at all, which is what keeps it small and what keeps a compiler out of the images the suite runs in");
    r
}

pub open spec fn session_option_refusal_spec(image: Image, session_type: SessionType) -> Seq<char> {
    "--session-type "@
        + (session_type_flag(session_type))
        + " is a Debian 13 guest option; the "@
        + (image_slug(image))
        + "              image has one session and no way to choose another"@
}

fn session_option_refusal(image: Image, session_type: SessionType) -> (r: String)
    ensures
        r@ == session_option_refusal_spec(image, session_type),
{
    let mut r = String::new();
    r.append("--session-type ");
    r.append(session_type.flag());
    r.append(" is a Debian 13 guest option; the ");
    r.append(image.slug());
    r.append("              image has one session and no way to choose another");
    r
}

pub open spec fn no_session_refusal_spec(image: Image, session_type: SessionType) -> Seq<char> {
    "--session-type "@
        + (session_type_flag(session_type))
        + " asks for a session the "@
        + (image_slug(image))
        + " image does              not have: it carries no desktop at all"@
}

fn no_session_refusal(image: Image, session_type: SessionType) -> (r: String)
    ensures
        r@ == no_session_refusal_spec(image, session_type),
{
    let mut r = String::new();
    r.append("--session-type ");
    r.append(session_type.flag());
    r.append(" asks for a session the ");
    r.append(image.slug());
    r.append(" image does              not have: it carries no desktop at all");
    r
}

pub open spec fn wayland_screens_refusal_spec(screens: u16, label: Seq<char>) -> Seq<char> {
    "--screens "@
        + (dec(screens as nat))
        + " with --session-type wayland asks for a layout                  nothing here can make: the screens are placed with xrandr and the                  pointer mapped with xinput, and neither can move "@
        + (label)
        + "'s outputs.                  --session-type x11 gives "@
        + (dec(screens as nat))
        + " screens, and a Wayland session                  runs on one"@
}

fn wayland_screens_refusal(screens: u16, label: &str) -> (r: String)
    ensures
        r@ == wayland_screens_refusal_spec(screens, label@),
{
    let mut r = String::new();
    r.append("--screens ");
    { let t = dec_string(screens as u64); r.append(t.as_str()); }
    r.append(" with --session-type wayland asks for a layout                  nothing here can make: the screens are placed with xrandr and the                  pointer mapped with xinput, and neither can move ");
    r.append(label);
    r.append("'s outputs.                  --session-type x11 gives ");
    { let t = dec_string(screens as u64); r.append(t.as_str()); }
    r.append(" screens, and a Wayland session                  runs on one");
    r
}

pub open spec fn no_screens_refusal_spec() -> Seq<char> {
    "--screens 0 asks for a guest with no console at all; the fewest screens a guest can have is 1"@
}

fn no_screens_refusal() -> (r: String)
    ensures
        r@ == no_screens_refusal_spec(),
{
    let mut r = String::new();
    r.append("--screens 0 asks for a guest with no console at all; the fewest screens a guest can have is 1");
    r
}

pub open spec fn too_many_screens_refusal_spec(requested: u16) -> Seq<char> {
    "--screens "@
        + (dec(requested as nat))
        + " is more than the "@
        + (dec(MAX_SCREENS as nat))
        + " a guest may be asked for; every screen past the first is another VNC server and another share of a software renderer"@
}

fn too_many_screens_refusal(requested: u16) -> (r: String)
    ensures
        r@ == too_many_screens_refusal_spec(requested),
{
    let mut r = String::new();
    r.append("--screens ");
    { let t = dec_string(requested as u64); r.append(t.as_str()); }
    r.append(" is more than the ");
    { let t = dec_string(MAX_SCREENS as u64); r.append(t.as_str()); }
    r.append(" a guest may be asked for; every screen past the first is another VNC server and another share of a software renderer");
    r
}

pub open spec fn one_head_refusal_spec(image: Image, requested: u16) -> Seq<char> {
    "--screens "@
        + (dec(requested as nat))
        + " asks the "@
        + (image_slug(image))
        + " image for something its video adapter does not have: one head, whichever hypervisor is holding it. A second screen in a Windows guest is an indirect display driver installed inside it, not a flag out here"@
}

fn one_head_refusal(image: Image, requested: u16) -> (r: String)
    ensures
        r@ == one_head_refusal_spec(image, requested),
{
    let mut r = String::new();
    r.append("--screens ");
    { let t = dec_string(requested as u64); r.append(t.as_str()); }
    r.append(" asks the ");
    r.append(image.slug());
    r.append(" image for something its video adapter does not have: one head, whichever hypervisor is holding it. A second screen in a Windows guest is an indirect display driver installed inside it, not a flag out here");
    r
}

pub open spec fn no_session_screens_refusal_spec(image: Image, requested: u16) -> Seq<char> {
    "--screens "@
        + (dec(requested as nat))
        + " asks for screens the "@
        + (image_slug(image))
        + " image has no session to put in front of: it carries no desktop at all, which is what keeps it small"@
}

fn no_session_screens_refusal(image: Image, requested: u16) -> (r: String)
    ensures
        r@ == no_session_screens_refusal_spec(image, requested),
{
    let mut r = String::new();
    r.append("--screens ");
    { let t = dec_string(requested as u64); r.append(t.as_str()); }
    r.append(" asks for screens the ");
    r.append(image.slug());
    r.append(" image has no session to put in front of: it carries no desktop at all, which is what keeps it small");
    r
}

/// The most screens a guest may be asked for: more than any layout worth
/// testing, since every screen past the first costs a VNC server, a loopback
/// port, and a share of a software renderer.
pub const MAX_SCREENS: u16 = 4;

pub open spec fn desktop_for_spec(image: Image, requested: Option<Desktop>) -> Result<Option<Desktop>, Seq<char>> {
    match requested {
        None => Ok(None),
        Some(d) => if image == Image::Linux {
            Ok(Some(d))
        } else if image_has_desktop(image) {
            Err(desktop_option_refusal_spec(image, d))
        } else {
            Err(no_desktop_refusal_spec(image, d))
        },
    }
}

/// Which desktop a guest may be asked to boot into, and whether it may be
/// asked at all.
///
/// Only the Debian 13 image carries more than one, so the flag is refused for
/// every other image rather than ignored: a run whose `--desktop` did nothing
/// is a run whose results are about a desktop nobody chose. The Linux builder
/// is the sharper case, because it has no session at all to choose one for.
pub fn desktop_for(image: Image, requested: Option<Desktop>) -> (r: Result<Option<Desktop>, String>)
    ensures
        res_view(r) == desktop_for_spec(image, requested),
{
    match requested {
        None => Ok(None),
        Some(desktop) => match image {
            Image::Linux => Ok(Some(desktop)),
            _ => if image.has_desktop() {
                Err(desktop_option_refusal(image, desktop))
            } else {
                Err(no_desktop_refusal(image, desktop))
            },
        },
    }
}

/// A login as the pair it stands for.
pub open spec fn login_pair(l: Login) -> (Desktop, SessionType) {
    (l.desktop_spec(), l.session_type_spec())
}

pub open spec fn login_view(r: Result<Option<Login>, String>) -> Result<Option<(Desktop, SessionType)>, Seq<char>> {
    match r {
        Ok(Some(l)) => Ok(Some(login_pair(l))),
        Ok(None) => Ok(None),
        Err(e) => Err(e@),
    }
}

/// What `Login::new` gives for a pair, as the pair or its refusal.
pub open spec fn login_new_spec(d: Desktop, t: SessionType) -> Result<Option<(Desktop, SessionType)>, Seq<char>> {
    if session_spec(d, t).is_some() {
        Ok(Some((d, t)))
    } else {
        Err(login_refusal(d, t))
    }
}

pub open spec fn login_for_spec(
    image: Image,
    desktop: Option<Desktop>,
    session_type: Option<SessionType>,
) -> Result<Option<(Desktop, SessionType)>, Seq<char>> {
    match desktop_for_spec(image, desktop) {
        Err(e) => Err(e),
        Ok(chosen) => match session_type {
            None => if image == Image::Linux {
                match chosen {
                    Some(d) => login_new_spec(d, SessionType::X11),
                    None => Ok(None),
                }
            } else {
                Ok(None)
            },
            Some(t) => if image == Image::Linux {
                login_new_spec(
                    match chosen {
                        Some(d) => d,
                        None => Desktop::Kde,
                    },
                    t,
                )
            } else if image_has_desktop(image) {
                Err(session_option_refusal_spec(image, t))
            } else {
                Err(no_session_refusal_spec(image, t))
            },
        },
    }
}

/// Which session a guest may be asked to log into, and whether it may be asked
/// at all.
///
/// A session type with no desktop is the image default's desktop, KDE, on that
/// type, and a desktop with no session type is its X11 session. The refusals
/// off the Linux image mirror `desktop_for`'s, for the same reason.
pub fn login_for(image: Image, desktop: Option<Desktop>, session_type: Option<SessionType>) -> (r: Result<
    Option<Login>,
    String,
>)
    ensures
        login_view(r) == login_for_spec(image, desktop, session_type),
{
    let chosen = match desktop_for(image, desktop) {
        Ok(c) => c,
        Err(e) => return Err(e),
    };
    match session_type {
        None => match image {
            Image::Linux => match chosen {
                Some(d) => match Login::new(d, SessionType::X11) {
                    Ok(l) => Ok(Some(l)),
                    Err(e) => Err(e),
                },
                None => Ok(None),
            },
            _ => Ok(None),
        },
        Some(t) => match image {
            Image::Linux => {
                let d = match chosen {
                    Some(d) => d,
                    None => Login::image_default().desktop(),
                };
                match Login::new(d, t) {
                    Ok(l) => Ok(Some(l)),
                    Err(e) => Err(e),
                }
            },
            _ => if image.has_desktop() {
                Err(session_option_refusal(image, t))
            } else {
                Err(no_session_refusal(image, t))
            },
        },
    }
}

pub open spec fn screens_for_spec(image: Image, requested: u16) -> Result<u16, Seq<char>> {
    if requested == 0 {
        Err(no_screens_refusal_spec())
    } else if requested == 1 {
        Ok(1)
    } else {
        match image {
            Image::Linux => if requested <= MAX_SCREENS {
                Ok(requested)
            } else {
                Err(too_many_screens_refusal_spec(requested))
            },
            Image::Windows | Image::WindowsBuilder => Err(one_head_refusal_spec(image, requested)),
            Image::LinuxBuilder => Err(no_session_screens_refusal_spec(image, requested)),
        }
    }
}

/// How many screens a guest may be asked for, and whether it may be asked at
/// all.
///
/// One is never refused, because one is what every guest already has. More
/// than one is the Debian 13 guest's alone, up to `MAX_SCREENS`: the Windows
/// guest's adapter has a single head under either hypervisor, and the
/// builders have no session to put a second screen in front of.
pub fn screens_for(image: Image, requested: u16) -> (r: Result<u16, String>)
    ensures
        res_view(r) == screens_for_spec(image, requested),
{
    if requested == 0 {
        return Err(no_screens_refusal());
    }
    if requested == 1 {
        return Ok(1);
    }
    match image {
        Image::Linux => if requested <= MAX_SCREENS {
            Ok(requested)
        } else {
            Err(too_many_screens_refusal(requested))
        },
        Image::Windows | Image::WindowsBuilder => Err(one_head_refusal(image, requested)),
        Image::LinuxBuilder => Err(no_session_screens_refusal(image, requested)),
    }
}

/// What a boot is asked for beyond the image itself.
#[derive(Debug, Clone, Copy, PartialEq, Eq, Structural)]
pub struct BootRequest {
    pub desktop: Option<Desktop>,
    pub session_type: Option<SessionType>,
    pub screens: u16,
}

pub open spec fn check_spec(req: BootRequest, image: Image) -> Result<(Option<(Desktop, SessionType)>, u16), Seq<char>> {
    match login_for_spec(image, req.desktop, req.session_type) {
        Err(e) => Err(e),
        Ok(login) => match screens_for_spec(image, req.screens) {
            Err(e) => Err(e),
            Ok(screens) => match login {
                Some((d, t)) => if screens > 1 && t == SessionType::Wayland {
                    Err(wayland_screens_refusal_spec(screens, login_label(d, t)))
                } else {
                    Ok((login, screens))
                },
                None => Ok((login, screens)),
            },
        },
    }
}

pub open spec fn check_view(r: Result<(Option<Login>, u16), String>) -> Result<(Option<(Desktop, SessionType)>, u16), Seq<char>> {
    match r {
        Ok((Some(l), n)) => Ok((Some(login_pair(l)), n)),
        Ok((None, n)) => Ok((None, n)),
        Err(e) => Err(e@),
    }
}

impl BootRequest {
    /// The image as it was built: its own default session on one screen.
    pub fn plain() -> (r: BootRequest)
        ensures
            r.desktop is None,
            r.session_type is None,
            r.screens == 1,
    {
        BootRequest { desktop: None, session_type: None, screens: 1 }
    }

    /// The request checked against the image: the session to name, if any, and
    /// how many screens.
    ///
    /// More than one screen is refused under Wayland because both halves of
    /// placing them are X11 commands: `xrandr` moves the outputs and `xinput`
    /// maps the pointer, and neither reaches a Wayland compositor's outputs.
    pub fn check(self, image: Image) -> (r: Result<(Option<Login>, u16), String>)
        ensures
            check_view(r) == check_spec(self, image),
    {
        let login = match login_for(image, self.desktop, self.session_type) {
            Ok(l) => l,
            Err(e) => return Err(e),
        };
        let screens = match screens_for(image, self.screens) {
            Ok(n) => n,
            Err(e) => return Err(e),
        };
        if screens > 1 {
            match login {
                Some(l) => match l.session_type() {
                    SessionType::Wayland => {
                        return Err(wayland_screens_refusal(screens, l.label()));
                    },
                    _ => {},
                },
                None => {},
            }
        }
        Ok((login, screens))
    }
}

// ---------------------------------------------------------------------------
// Stopping, starting and resuming
// ---------------------------------------------------------------------------

pub open spec fn resume_left_running_spec(image: Image, vm_name: Seq<char>) -> Seq<char> {
    (vm_name)
        + " did not answer, and nothing in it was deleted: it is still running and its overlay is untouched, build directory and all. A resume that takes longer than a cold boot is usually a guest still doing something to itself.\n  ssh:     cargo xtask vm ssh "@
        + (image_slug(image))
        + "\n  "@
        + (image_console_label(image))
        + ": cargo xtask vm view "@
        + (image_slug(image))
        + "\n  stop:    cargo xtask vm stop "@
        + (image_slug(image))
        + " puts it back, and `cargo xtask vm start "@
        + (image_slug(image))
        + "` tries again\n  down:    cargo xtask vm down "@
        + (image_slug(image))
        + " gives it up, and the build directory with it"@
}

/// What a resume whose guest is up and did not answer says: it is left
/// running and untouched, with how to look at it, put it back, or give it up.
pub fn resume_left_running(image: Image, vm_name: &str) -> (r: String)
    ensures
        r@ == resume_left_running_spec(image, vm_name@),
{
    let mut r = String::new();
    r.append(vm_name);
    r.append(" did not answer, and nothing in it was deleted: it is still running and its overlay is untouched, build directory and all. A resume that takes longer than a cold boot is usually a guest still doing something to itself.\n  ssh:     cargo xtask vm ssh ");
    r.append(image.slug());
    r.append("\n  ");
    r.append(image.console_label());
    r.append(": cargo xtask vm view ");
    r.append(image.slug());
    r.append("\n  stop:    cargo xtask vm stop ");
    r.append(image.slug());
    r.append(" puts it back, and `cargo xtask vm start ");
    r.append(image.slug());
    r.append("` tries again\n  down:    cargo xtask vm down ");
    r.append(image.slug());
    r.append(" gives it up, and the build directory with it");
    r
}

pub open spec fn resume_left_stopped_spec(image: Image, vm_name: Seq<char>) -> Seq<char> {
    (vm_name)
        + " did not come up, and it is recorded as stopped again with its overlay untouched. `cargo xtask vm start "@
        + (image_slug(image))
        + "` tries again, `cargo xtask vm down "@
        + (image_slug(image))
        + "` gives it up and frees the build directory with it."@
}

/// What a resume whose guest never came up says, once its record is put back
/// to stopped.
pub fn resume_left_stopped(image: Image, vm_name: &str) -> (r: String)
    ensures
        r@ == resume_left_stopped_spec(image, vm_name@),
{
    let mut r = String::new();
    r.append(vm_name);
    r.append(" did not come up, and it is recorded as stopped again with its overlay untouched. `cargo xtask vm start ");
    r.append(image.slug());
    r.append("` tries again, `cargo xtask vm down ");
    r.append(image.slug());
    r.append("` gives it up and frees the build directory with it.");
    r
}

pub open spec fn resume_unrecorded_spec(image: Image, vm_name: Seq<char>, error: Seq<char>) -> Seq<char> {
    (vm_name)
        + " did not come back and is not running. Its overlay is untouched, but the record could not be put back to stopped ("@
        + (error)
        + "), so `cargo xtask vm status` will call it crashed. Mind that before running `cargo xtask vm down "@
        + (image_slug(image))
        + "`, which is what deletes the build directory."@
}

/// What a resume whose guest never came up says when its record could not be
/// put back to stopped either.
pub fn resume_unrecorded(image: Image, vm_name: &str, error: &str) -> (r: String)
    ensures
        r@ == resume_unrecorded_spec(image, vm_name@, error@),
{
    let mut r = String::new();
    r.append(vm_name);
    r.append(" did not come back and is not running. Its overlay is untouched, but the record could not be put back to stopped (");
    r.append(error);
    r.append("), so `cargo xtask vm status` will call it crashed. Mind that before running `cargo xtask vm down ");
    r.append(image.slug());
    r.append("`, which is what deletes the build directory.");
    r
}

pub open spec fn persistence_refusal_spec(image: Image) -> Seq<char> {
    "the "@
        + (image_slug(image))
        + " image is one the e2e suite runs in, and every guest of one is a pristine overlay: that is what makes a result from it worth having, and a guest resumed from where it was left is not that. It is the same argument that keeps a compiler out of this image.\n`cargo xtask vm down "@
        + (image_slug(image))
        + "` ends it and the next `cargo xtask vm up "@
        + (image_slug(image))
        + "` boots a clean one. The builders are what `vm stop` and `vm start` are for, because what a builder keeps is a build directory."@
}

/// Why `vm start` and `vm stop` are for the builder images only.
///
/// The refusal quotes the reason rather than hiding behind "unsupported": every
/// boot of a desktop guest is a pristine overlay, and that is what makes a
/// result from one worth having.
pub fn persistence_refusal(image: Image) -> (r: String)
    ensures
        r@ == persistence_refusal_spec(image),
{
    let mut r = String::new();
    r.append("the ");
    r.append(image.slug());
    r.append(" image is one the e2e suite runs in, and every guest of one is a pristine overlay: that is what makes a result from it worth having, and a guest resumed from where it was left is not that. It is the same argument that keeps a compiler out of this image.\n`cargo xtask vm down ");
    r.append(image.slug());
    r.append("` ends it and the next `cargo xtask vm up ");
    r.append(image.slug());
    r.append("` boots a clean one. The builders are what `vm stop` and `vm start` are for, because what a builder keeps is a build directory.");
    r
}

pub open spec fn no_record_spec(image: Image) -> Seq<char> {
    "no "@
        + (image_slug(image))
        + " VM is recorded, so there is nothing to stop or resume. `cargo xtask vm up "@
        + (image_slug(image))
        + "` boots one."@
}

/// What `vm stop` and `vm start` say when there is nothing recorded to act on.
pub fn no_record(image: Image) -> (r: String)
    ensures
        r@ == no_record_spec(image),
{
    let mut r = String::new();
    r.append("no ");
    r.append(image.slug());
    r.append(" VM is recorded, so there is nothing to stop or resume. `cargo xtask vm up ");
    r.append(image.slug());
    r.append("` boots one.");
    r
}

pub open spec fn stopped_line_spec(image: Image, vm_name: Seq<char>, stopped: Stopped, overlay_bytes: Option<u64>) -> Seq<char> {
    (vm_name)
        + " "@
        + (match stopped { Stopped::Killed => "would not shut down and was killed: the memory is back and"@, Stopped::WasNotRunning => "was not running; it is recorded as stopped and"@, _ => "is stopped: the memory is back and"@ })
        + " "@
        + (match overlay_bytes { Some(b) => "its overlay stays, "@ + format_bytes_spec(b as nat) + " of it"@, None => "its overlay stays"@ })
        + "."@
        + (if stopped == Stopped::Killed { " Its filesystem was not closed, so the next start begins with a repair pass."@ } else { Seq::<char>::empty() })
        + " `cargo xtask vm start "@
        + (image_slug(image))
        + "` resumes it, `cargo xtask vm down "@
        + (image_slug(image))
        + "` frees it."@
}

/// The one line a stop prints.
///
/// It says what the stop kept as well as what it freed, because a kept overlay
/// is gigabytes and the command that reclaims it is the one thing a person who
/// never runs it will wish they had been told. A guest that had to be killed
/// is told of the repair pass its next start begins with.
pub fn stopped_line(image: Image, vm_name: &str, stopped: Stopped, overlay_bytes: Option<u64>) -> (r: String)
    ensures
        r@ == stopped_line_spec(image, vm_name@, stopped, overlay_bytes),
{
    let mut r = String::new();
    r.append(vm_name);
    r.append(" ");
    match stopped { Stopped::Killed => { r.append("would not shut down and was killed: the memory is back and"); }, Stopped::WasNotRunning => { r.append("was not running; it is recorded as stopped and"); }, _ => { r.append("is stopped: the memory is back and"); } }
    r.append(" ");
    match overlay_bytes { Some(b) => { r.append("its overlay stays, "); let t = format_bytes(b); r.append(t.as_str()); r.append(" of it"); }, None => { r.append("its overlay stays"); } }
    r.append(".");
    match stopped { Stopped::Killed => { r.append(" Its filesystem was not closed, so the next start begins with a repair pass."); }, _ => {} }
    r.append(" `cargo xtask vm start ");
    r.append(image.slug());
    r.append("` resumes it, `cargo xtask vm down ");
    r.append(image.slug());
    r.append("` frees it.");
    r
}

pub open spec fn not_running_hint_spec(image: Image, state: RunState) -> Seq<char> {
    match state.stopped {
        true => (state.vm_name@)
            + " is stopped. `cargo xtask vm start "@
            + (image_slug(image))
            + "` resumes it with what it was holding."@,
        false => (state.vm_name@)
            + " is recorded but not running. `cargo xtask vm down "@
            + (image_slug(image))
            + "` clears it and `cargo xtask vm up "@
            + (image_slug(image))
            + "` starts a fresh one."@,
    }
}

/// What to say about a guest that is recorded and not running.
///
/// The two cases want opposite advice, which is why the record says which is
/// which: a stopped builder is resumed, and a crashed guest is cleared away.
pub fn not_running_hint(image: Image, state: &RunState) -> (r: String)
    ensures
        r@ == not_running_hint_spec(image, *state),
{
    match state.stopped {
        true => {
            let mut r = String::new();
            r.append(state.vm_name.as_str());
            r.append(" is stopped. `cargo xtask vm start ");
            r.append(image.slug());
            r.append("` resumes it with what it was holding.");
            r
        },
        false => {
            let mut r = String::new();
            r.append(state.vm_name.as_str());
            r.append(" is recorded but not running. `cargo xtask vm down ");
            r.append(image.slug());
            r.append("` clears it and `cargo xtask vm up ");
            r.append(image.slug());
            r.append("` starts a fresh one.");
            r
        },
    }
}

// ---------------------------------------------------------------------------
// Screens
// ---------------------------------------------------------------------------

pub open spec fn place_screens_command_spec() -> Seq<char> {
    "set -a; . "@
        + (GUEST_ROOT_LINUX@)
        + "/session.env 2>/dev/null; set +a; export DISPLAY=\"${DISPLAY:-:0}\"; prev=; for out in $(xrandr --query | awk '/ connected/ {print $1}'); do if [ -z \"$prev\" ]; then xrandr --output \"$out\" --auto --primary; else xrandr --output \"$out\" --auto --right-of \"$prev\"; fi; prev=\"$out\"; done; xrandr --query"@
}

/// The command that lays a session's outputs out in a row and prints the result.
///
/// X leaves every connected output at the origin, which is one screen shown
/// twice, so the session is told. The session's environment comes from the
/// file the guest contract writes at login, since an SSH command starts with
/// no `DISPLAY`. No `set -e`: an output that refuses its mode must not stop the
/// ones after it, and the answer is the `xrandr --query` at the end.
pub fn place_screens_command() -> (r: String)
    ensures
        r@ == place_screens_command_spec(),
{
    let mut r = String::new();
    r.append("set -a; . ");
    r.append(GUEST_ROOT_LINUX);
    r.append("/session.env 2>/dev/null; set +a; export DISPLAY=\"${DISPLAY:-:0}\"; prev=; for out in $(xrandr --query | awk '/ connected/ {print $1}'); do if [ -z \"$prev\" ]; then xrandr --output \"$out\" --auto --primary; else xrandr --output \"$out\" --auto --right-of \"$prev\"; fi; prev=\"$out\"; done; xrandr --query");
    r
}

/// The marker the pointer mapping prints, followed by the output it mapped to
/// or `none`.
pub const POINTER_MARK: &'static str = "SUNLIT_POINTER=";

pub open spec fn map_pointer_command_spec() -> Seq<char> {
    "set -a; . "@
        + (GUEST_ROOT_LINUX@)
        + "/session.env 2>/dev/null; set +a; export DISPLAY=\"${DISPLAY:-:0}\"; out=$(xrandr --query | awk '/ connected primary/ {print $1; exit}'); [ -n \"$out\" ] || out=$(xrandr --query | awk '/ connected/ {print $1; exit}'); id=$(xinput list 2>/dev/null | sed -n 's/.*QEMU Virtio Tablet.*id=\\([0-9][0-9]*\\).*/\\1/p' | head -1); if [ -n \"$id\" ] && [ -n \"$out\" ] && xinput --map-to-output \"$id\" \"$out\"; then echo \""@
        + (POINTER_MARK@)
        + "$out\"; else echo \""@
        + (POINTER_MARK@)
        + "none\"; fi"@
}

/// The command that confines the guest's tablet to one screen, and says which.
///
/// A guest with two screens has one absolute pointer for a desktop twice its
/// width; this maps it to the primary output, found by name out of `xinput
/// list`. A guest without `xinput` prints `none`, and the boot says what that
/// costs rather than failing.
pub fn map_pointer_command() -> (r: String)
    ensures
        r@ == map_pointer_command_spec(),
{
    let mut r = String::new();
    r.append("set -a; . ");
    r.append(GUEST_ROOT_LINUX);
    r.append("/session.env 2>/dev/null; set +a; export DISPLAY=\"${DISPLAY:-:0}\"; out=$(xrandr --query | awk '/ connected primary/ {print $1; exit}'); [ -n \"$out\" ] || out=$(xrandr --query | awk '/ connected/ {print $1; exit}'); id=$(xinput list 2>/dev/null | sed -n 's/.*QEMU Virtio Tablet.*id=\\([0-9][0-9]*\\).*/\\1/p' | head -1); if [ -n \"$id\" ] && [ -n \"$out\" ] && xinput --map-to-output \"$id\" \"$out\"; then echo \"");
    r.append(POINTER_MARK);
    r.append("$out\"; else echo \"");
    r.append(POINTER_MARK);
    r.append("none\"; fi");
    r
}

pub open spec fn no_pointer_mapping_spec() -> Seq<char> {
    "warning: the pointer covers the whole desktop, so a click lands at twice the x it was aimed at. Mapping it to one screen needs `xinput`, which this image does not carry."@
}

fn no_pointer_mapping() -> (r: String)
    ensures
        r@ == no_pointer_mapping_spec(),
{
    let mut r = String::new();
    r.append("warning: the pointer covers the whole desktop, so a click lands at twice the x it was aimed at. Mapping it to one screen needs `xinput`, which this image does not carry.");
    r
}

pub open spec fn pointer_mapped_spec(mapped: Seq<char>) -> Seq<char> {
    "pointer: mapped to "@
        + (mapped)
        + ", so that screen's window clicks where it points. The other screens are for looking at: QEMU sends every screen's pointer to the same device, so their windows drive "@
        + (mapped)
        + " too."@
}

fn pointer_mapped(mapped: &str) -> (r: String)
    ensures
        r@ == pointer_mapped_spec(mapped@),
{
    let mut r = String::new();
    r.append("pointer: mapped to ");
    r.append(mapped);
    r.append(", so that screen's window clicks where it points. The other screens are for looking at: QEMU sends every screen's pointer to the same device, so their windows drive ");
    r.append(mapped);
    r.append(" too.");
    r
}

pub open spec fn no_connected_output_spec() -> Seq<char> {
    "screens: the session reports no connected output"@
}

fn no_connected_output() -> (r: String)
    ensures
        r@ == no_connected_output_spec(),
{
    let mut r = String::new();
    r.append("screens: the session reports no connected output");
    r
}

pub open spec fn fewer_screens_warning_spec(asked: u16, have: nat) -> Seq<char> {
    "\nwarning: "@
        + (dec(asked as nat))
        + " screens were asked for and the session has "@
        + (dec(have))
        + ". The guest is up; `cargo xtask vm ssh linux \"xrandr --query\"` is what it sees."@
}

fn fewer_screens_warning(asked: u16, have: usize) -> (r: String)
    ensures
        r@ == fewer_screens_warning_spec(asked, have as nat),
{
    let mut r = String::new();
    r.append("\nwarning: ");
    { let t = dec_string(asked as u64); r.append(t.as_str()); }
    r.append(" screens were asked for and the session has ");
    { let t = dec_string(have as u64); r.append(t.as_str()); }
    r.append(". The guest is up; `cargo xtask vm ssh linux \"xrandr --query\"` is what it sees.");
    r
}

pub open spec fn stacked_warning_spec() -> Seq<char> {
    "\nwarning: two screens share an origin, so they are one picture shown twice rather than a desktop across both. Placing them again by hand is `cargo xtask vm ssh linux \"xrandr --output <b> --right-of <a>\"`."@
}

fn stacked_warning() -> (r: String)
    ensures
        r@ == stacked_warning_spec(),
{
    let mut r = String::new();
    r.append("\nwarning: two screens share an origin, so they are one picture shown twice rather than a desktop across both. Placing them again by hand is `cargo xtask vm ssh linux \"xrandr --output <b> --right-of <a>\"`.");
    r
}

/// Where the mapping went: what follows the marker on the first line that
/// carries it, trimmed, or `none` where no line does.
pub open spec fn mapped_output(lines: Seq<Seq<char>>) -> Seq<char>
    decreases lines.len(),
{
    if lines.len() == 0 {
        "none"@
    } else if starts_with_spec(trim_spec(lines[0]), POINTER_MARK@) {
        trim_spec(lines[0]).skip(POINTER_MARK@.len() as int)
    } else {
        mapped_output(lines.skip(1))
    }
}

pub open spec fn pointer_report_spec(stdout: Seq<char>) -> Seq<char> {
    let mapped = mapped_output(lines_spec(stdout));
    if mapped == "none"@ {
        no_pointer_mapping_spec()
    } else {
        pointer_mapped_spec(mapped)
    }
}

fn mapped_in(lines: &Vec<String>) -> (r: String)
    ensures
        r@ == mapped_output(views(lines@)),
{
    let mut i: usize = 0;
    assert(views(lines@).skip(0) =~= views(lines@));
    while i < lines.len()
        invariant
            i <= lines.len(),
            mapped_output(views(lines@)) == mapped_output(views(lines@).skip(i as int)),
        decreases lines.len() - i,
    {
        let t = trim(lines[i].as_str());
        proof {
            let rest = views(lines@).skip(i as int);
            assert(rest[0] == lines@[i as int]@);
            assert(rest.skip(1) =~= views(lines@).skip(i + 1));
        }
        match strip_prefix(t.as_str(), POINTER_MARK) {
            Some(after) => {
                return after;
            },
            None => {},
        }
        i = i + 1;
    }
    proof {
        assert(views(lines@).skip(i as int) =~= Seq::<Seq<char>>::empty());
    }
    owned("none")
}

/// What the mapping did, as a line to print: the output the pointer drives,
/// and that the other screens only show; or a warning that it covers the
/// whole desktop.
pub fn pointer_report(stdout: &str) -> (r: String)
    ensures
        r@ == pointer_report_spec(stdout@),
{
    let lines = lines_of(stdout);
    let mapped = mapped_in(&lines);
    if str_eq(mapped.as_str(), "none") {
        no_pointer_mapping()
    } else {
        pointer_mapped(mapped.as_str())
    }
}

/// One connected output of a Linux guest, as `xrandr --query` prints it.
#[derive(Debug, Clone, PartialEq, Eq)]
pub struct Screen {
    pub name: String,
    /// `1920x1080+1920+0`, or empty for a connected output with no mode
    /// assigned, which is a screen the session has not put anything on.
    pub geometry: String,
}

pub open spec fn screen_view(s: Screen) -> (Seq<char>, Seq<char>) {
    (s.name@, s.geometry@)
}

pub open spec fn screens_view(v: Seq<Screen>) -> Seq<(Seq<char>, Seq<char>)> {
    v.map_values(|s: Screen| screen_view(s))
}

/// `1920x1080+0+0`: digits, an `x`, digits, and two offsets; not the mode
/// list's `1920x1080` or anything with words in it.
pub open spec fn is_geometry_spec(t: Seq<char>) -> bool {
    match split_once2_spec(t, '+', '+') {
        None => false,
        Some((size, offsets)) => match split_once2_spec(size, 'x', 'x') {
            None => false,
            Some((w, h)) => w.len() > 0 && all_digits(w) && h.len() > 0 && all_digits(h)
                && offsets.contains('+'),
        },
    }
}

/// The first token shaped like a geometry, or nothing.
pub open spec fn first_geometry(ws: Seq<Seq<char>>) -> Seq<char>
    decreases ws.len(),
{
    if ws.len() == 0 {
        Seq::empty()
    } else if is_geometry_spec(ws[0]) {
        ws[0]
    } else {
        first_geometry(ws.skip(1))
    }
}

/// The screen a line of `xrandr --query` describes: a name, then the word
/// `connected`, then somewhere a geometry.
pub open spec fn screen_of_line(l: Seq<char>) -> Option<(Seq<char>, Seq<char>)> {
    let w = words_spec(l);
    if w.len() >= 2 && w[1] == "connected"@ {
        Some((w[0], first_geometry(w.skip(2))))
    } else {
        None
    }
}

pub open spec fn screens_spec(lines: Seq<Seq<char>>) -> Seq<(Seq<char>, Seq<char>)>
    decreases lines.len(),
{
    if lines.len() == 0 {
        Seq::empty()
    } else {
        let rest = screens_spec(lines.drop_last());
        match screen_of_line(lines.last()) {
            Some(s) => rest.push(s),
            None => rest,
        }
    }
}

/// Whether `v[lo..hi]` is all ASCII digits.
fn digits_only(v: &Vec<char>, lo: usize, hi: usize) -> (r: bool)
    requires
        lo <= hi <= v.len(),
    ensures
        r == all_digits(v@.subrange(lo as int, hi as int)),
{
    let mut i = lo;
    while i < hi
        invariant
            lo <= i <= hi <= v.len(),
            forall|k: int| lo <= k < i ==> is_digit(v@[k]),
        decreases hi - i,
    {
        if !(v[i] >= '0' && v[i] <= '9') {
            assert(!is_digit(v@.subrange(lo as int, hi as int)[i - lo]));
            return false;
        }
        i = i + 1;
    }
    assert forall|k: int| 0 <= k < hi - lo implies is_digit(#[trigger] v@.subrange(lo as int, hi as int)[k]) by {
        assert(v@.subrange(lo as int, hi as int)[k] == v@[lo + k]);
    }
    true
}

/// Whether `v[lo..hi]` holds the character `c`.
fn holds_char(v: &Vec<char>, lo: usize, hi: usize, c: char) -> (r: bool)
    requires
        lo <= hi <= v.len(),
    ensures
        r == v@.subrange(lo as int, hi as int).contains(c),
{
    match find_char(v, lo, hi, c) {
        Some(k) => {
            assert(v@.subrange(lo as int, hi as int)[k - lo] == c);
            true
        },
        None => {
            assert forall|k: int| 0 <= k < hi - lo implies #[trigger] v@.subrange(lo as int, hi as int)[k] != c by {
                assert(v@.subrange(lo as int, hi as int)[k] == v@[lo + k]);
            }
            false
        },
    }
}

/// Whether `v[0..p]` is a size: digits, an `x`, digits.
fn is_size(v: &Vec<char>, p: usize) -> (r: bool)
    requires
        p <= v.len(),
    ensures
        r == match split_once2_spec(v@.subrange(0, p as int), 'x', 'x') {
            None => false,
            Some((w, h)) => w.len() > 0 && all_digits(w) && h.len() > 0 && all_digits(h),
        },
{
    match split_once2(v, 0, p, 'x', 'x') {
        None => false,
        Some(x) => x > 0 && digits_only(v, 0, x) && x + 1 < p && digits_only(v, x + 1, p),
    }
}

/// Whether a token is a geometry, as `is_geometry_spec` says.
pub fn is_geometry(token: &str) -> (r: bool)
    ensures
        r == is_geometry_spec(token@),
{
    let v = chars_of(token);
    assert(v@.subrange(0, v.len() as int) =~= v@);
    match split_once2(&v, 0, v.len(), '+', '+') {
        None => false,
        Some(p) => is_size(&v, p) && holds_char(&v, p + 1, v.len(), '+'),
    }
}

/// The first geometry among `ws[from..]`, or an empty string.
fn first_geometry_from(ws: &Vec<String>, from: usize) -> (r: String)
    requires
        from <= ws.len(),
    ensures
        r@ == first_geometry(views(ws@).skip(from as int)),
{
    let mut i = from;
    while i < ws.len()
        invariant
            from <= i <= ws.len(),
            first_geometry(views(ws@).skip(from as int)) == first_geometry(views(ws@).skip(i as int)),
        decreases ws.len() - i,
    {
        proof {
            let rest = views(ws@).skip(i as int);
            assert(rest[0] == ws@[i as int]@);
            assert(rest.skip(1) =~= views(ws@).skip(i + 1));
        }
        if is_geometry(ws[i].as_str()) {
            return owned(ws[i].as_str());
        }
        i = i + 1;
    }
    proof {
        assert(views(ws@).skip(i as int) =~= Seq::<Seq<char>>::empty());
    }
    String::new()
}

/// The connected outputs in `xrandr --query` output, in the order it listed
/// them.
///
/// `connected` as its own word, so `disconnected` is not one of them, and the
/// geometry is the first token shaped like one, so the word `primary` between
/// the two changes nothing and the free text after it is not mistaken for more
/// of it.
pub fn parse_screens(text: &str) -> (r: Vec<Screen>)
    ensures
        screens_view(r@) == screens_spec(lines_spec(text@)),
{
    let lines = lines_of(text);
    let mut out: Vec<Screen> = Vec::new();
    let mut i: usize = 0;
    while i < lines.len()
        invariant
            i <= lines.len(),
            views(lines@) == lines_spec(text@),
            screens_view(out@) == screens_spec(views(lines@).take(i as int)),
        decreases lines.len() - i,
    {
        let ws = words(lines[i].as_str());
        proof {
            let upto = views(lines@).take(i + 1);
            assert(upto.drop_last() =~= views(lines@).take(i as int));
            assert(upto.last() == lines@[i as int]@);
        }
        if ws.len() >= 2 && str_eq(ws[1].as_str(), "connected") {
            let geometry = first_geometry_from(&ws, 2);
            let screen = Screen { name: owned(ws[0].as_str()), geometry };
            proof {
                assert(views(ws@)[0] == ws@[0]@);
                assert(views(ws@)[1] == ws@[1]@);
            }
            let ghost before = out@;
            out.push(screen);
            proof {
                assert(screens_view(out@) =~= screens_view(before).push(screen_view(screen)));
            }
        } else {
            proof {
                if ws.len() >= 2 {
                    assert(views(ws@)[1] == ws@[1]@);
                }
            }
        }
        i = i + 1;
    }
    proof {
        assert(views(lines@).take(lines.len() as int) =~= views(lines@));
    }
    out
}

/// Where a screen's top left corner is, as xrandr wrote it: what follows the
/// first `+` of its geometry.
pub open spec fn origin_of(geometry: Seq<char>) -> Option<Seq<char>> {
    match split_once2_spec(geometry, '+', '+') {
        Some((_, offsets)) => Some(offsets),
        None => None,
    }
}

pub open spec fn origins_spec(screens: Seq<(Seq<char>, Seq<char>)>) -> Seq<Seq<char>>
    decreases screens.len(),
{
    if screens.len() == 0 {
        Seq::empty()
    } else {
        let rest = origins_spec(screens.drop_last());
        match origin_of(screens.last().1) {
            Some(o) => rest.push(o),
            None => rest,
        }
    }
}

/// Whether two entries of `s` are the same.
pub open spec fn has_repeat(s: Seq<Seq<char>>) -> bool {
    exists|i: int, j: int| 0 <= i < j < s.len() && #[trigger] s[i] == #[trigger] s[j]
}

pub open spec fn listed_spec(s: (Seq<char>, Seq<char>)) -> Seq<char> {
    s.0 + " "@ + if s.1.len() == 0 {
        "no mode"@
    } else {
        s.1
    }
}

pub open spec fn screen_report_spec(screens: Seq<(Seq<char>, Seq<char>)>, asked: u16) -> Seq<char> {
    let head = if screens.len() == 0 {
        no_connected_output_spec()
    } else {
        "screens: "@ + join_spec(screens.map_values(|s: (Seq<char>, Seq<char>)| listed_spec(s)), ", "@)
    };
    if screens.len() < asked {
        head + fewer_screens_warning_spec(asked, screens.len())
    } else if has_repeat(origins_spec(screens)) {
        head + stacked_warning_spec()
    } else {
        head
    }
}

impl Screen {
    /// Where this screen's top left corner is, as xrandr wrote it.
    pub fn origin(&self) -> (r: Option<String>)
        ensures
            match origin_of(self.geometry@) {
                Some(o) => r matches Some(s) && s@ == o,
                None => r is None,
            },
    {
        let v = chars_of(self.geometry.as_str());
        assert(v@.subrange(0, v.len() as int) =~= v@);
        match split_once2(&v, 0, v.len(), '+', '+') {
            Some(p) => Some(string_of(&v, p + 1, v.len())),
            None => None,
        }
    }
}

/// Whether two strings of `v` are the same.
fn any_repeat(v: &Vec<String>) -> (r: bool)
    ensures
        r == has_repeat(views(v@)),
{
    let ghost s = views(v@);
    let mut i: usize = 0;
    while i < v.len()
        invariant
            i <= v.len(),
            s == views(v@),
            forall|a: int, b: int| 0 <= a < i && a < b < s.len() ==> s[a] != s[b],
        decreases v.len() - i,
    {
        let mut j: usize = i + 1;
        while j < v.len()
            invariant
                i < v.len(),
                i + 1 <= j <= v.len(),
                s == views(v@),
                forall|a: int, b: int| 0 <= a < i && a < b < s.len() ==> s[a] != s[b],
                forall|b: int| i < b < j ==> s[i as int] != s[b],
            decreases v.len() - j,
        {
            if str_eq(v[i].as_str(), v[j].as_str()) {
                proof {
                    assert(s[i as int] == v@[i as int]@);
                    assert(s[j as int] == v@[j as int]@);
                    assert(0 <= i < j < s.len() && s[i as int] == s[j as int]);
                }
                return true;
            }
            proof {
                assert(s[i as int] == v@[i as int]@);
                assert(s[j as int] == v@[j as int]@);
            }
            j = j + 1;
        }
        i = i + 1;
    }
    false
}

/// What the session has, and what is wrong with it if anything is.
///
/// A count is not evidence: two screens stacked on one origin are what X does
/// on its own, and they read as two everywhere except on the console, so the
/// origins are checked as well as the number. Neither failure ends the boot.
pub fn screen_report(screens: &Vec<Screen>, asked: u16) -> (r: String)
    ensures
        r@ == screen_report_spec(screens_view(screens@), asked),
{
    let ghost sv = screens_view(screens@);
    let mut listed: Vec<String> = Vec::new();
    let mut origins: Vec<String> = Vec::new();
    let mut i: usize = 0;
    while i < screens.len()
        invariant
            i <= screens.len(),
            sv == screens_view(screens@),
            views(listed@) == sv.take(i as int).map_values(|s: (Seq<char>, Seq<char>)| listed_spec(s)),
            views(origins@) == origins_spec(sv.take(i as int)),
        decreases screens.len() - i,
    {
        let screen = &screens[i];
        let mut line = owned(screen.name.as_str());
        line.append(" ");
        if screen.geometry.as_str().unicode_len() == 0 {
            line.append("no mode");
        } else {
            line.append(screen.geometry.as_str());
        }
        proof {
            assert(sv[i as int] == screen_view(screens@[i as int]));
            assert(sv.take(i + 1).drop_last() =~= sv.take(i as int));
            assert(sv.take(i + 1).last() == sv[i as int]);
        }
        let ghost before_listed = listed@;
        listed.push(line);
        proof {
            assert(views(listed@) =~= views(before_listed).push(line@));
            assert(sv.take(i + 1).map_values(|s: (Seq<char>, Seq<char>)| listed_spec(s))
                =~= sv.take(i as int).map_values(|s: (Seq<char>, Seq<char>)| listed_spec(s)).push(listed_spec(sv[i as int])));
        }
        match screen.origin() {
            Some(o) => {
                let ghost before = origins@;
                origins.push(o);
                proof {
                    assert(views(origins@) =~= views(before).push(o@));
                }
            },
            None => {},
        }
        i = i + 1;
    }
    proof {
        assert(sv.take(screens.len() as int) =~= sv);
    }
    let mut report = if screens.len() == 0 {
        no_connected_output()
    } else {
        let mut r = owned("screens: ");
        let j = join(&listed, ", ");
        r.append(j.as_str());
        r
    };
    if screens.len() < asked as usize {
        let w = fewer_screens_warning(asked, screens.len());
        report.append(w.as_str());
        return report;
    }
    if any_repeat(&origins) {
        let w = stacked_warning();
        report.append(w.as_str());
    }
    report
}

// ---------------------------------------------------------------------------
// Clearing away what an earlier run left
// ---------------------------------------------------------------------------

pub open spec fn build_running_refusal_spec(image: Image) -> Seq<char> {
    "an image build is running in the "@
        + (image_slug(image))
        + " VM, and clearing it away would throw away the install it is partway through.\nWait for it, or `cargo xtask vm down "@
        + (image_slug(image))
        + "` to end it deliberately."@
}

fn build_running_refusal(image: Image) -> (r: String)
    ensures
        r@ == build_running_refusal_spec(image),
{
    let mut r = String::new();
    r.append("an image build is running in the ");
    r.append(image.slug());
    r.append(" VM, and clearing it away would throw away the install it is partway through.\nWait for it, or `cargo xtask vm down ");
    r.append(image.slug());
    r.append("` to end it deliberately.");
    r
}

/// Whether a recorded VM may be taken down to make room for a new one.
///
/// Everything else holds nothing worth keeping. An image build is the
/// exception: it is tens of minutes of install whose disk is not an image yet.
/// A build that is recorded and no longer running is a crashed one, and
/// clearing that away is exactly what clearing is for.
pub fn may_clear(image: Image, reason: StartReason, running: bool) -> (r: Result<(), String>)
    ensures
        match r {
            Ok(()) => !(reason == StartReason::Build && running),
            Err(e) => reason == StartReason::Build && running && e@ == build_running_refusal_spec(image),
        },
{
    match reason {
        StartReason::Build => if running {
            return Err(build_running_refusal(image));
        },
        _ => {},
    }
    Ok(())
}

pub open spec fn clearing_line_spec(image: Image, state: RunState) -> Seq<char> {
    match state.stopped {
        true => "discarding the stopped "@
            + (image_slug(image))
            + " guest with the build directory in it; this boot wants a pristine overlay, and `cargo xtask vm start "@
            + (image_slug(image))
            + "` is what resumes one instead"@,
        false => "clearing the "@
            + (image_slug(image))
            + " VM left behind by an earlier run"@,
    }
}

/// What a boot says about the guest it is clearing away to make room.
///
/// A stopped builder is not a leftover: it is a build directory somebody kept,
/// so the line names what is going and the command that would have kept it.
pub fn clearing_line(image: Image, state: &RunState) -> (r: String)
    ensures
        r@ == clearing_line_spec(image, *state),
{
    match state.stopped {
        true => {
            let mut r = String::new();
            r.append("discarding the stopped ");
            r.append(image.slug());
            r.append(" guest with the build directory in it; this boot wants a pristine overlay, and `cargo xtask vm start ");
            r.append(image.slug());
            r.append("` is what resumes one instead");
            r
        },
        false => {
            let mut r = String::new();
            r.append("clearing the ");
            r.append(image.slug());
            r.append(" VM left behind by an earlier run");
            r
        },
    }
}

// ---------------------------------------------------------------------------
// What a guest is left as
// ---------------------------------------------------------------------------

/// Whether the current binaries went into the guest, and if not, whose answer
/// that is.
#[derive(Debug, Clone, Copy, PartialEq, Eq, Structural)]
pub enum Staging {
    /// Staging ran, so the binaries, the launcher and the desktop shortcuts
    /// went into the guest.
    Done,
    /// Nothing was staged, and nothing about this host stopped it: the command
    /// that booted this guest had no binaries to put in it.
    Skipped,
    /// Nothing was staged and nothing could be, because what would compile the
    /// binaries is not there.
    Impossible,
}

/// What was done to the guest a closing text is about: what was staged in it,
/// which hypervisor shows its console, and whether it offers an enhanced
/// `vmconnect` session.
#[derive(Debug, Clone, Copy, PartialEq, Eq, Structural)]
pub struct Prepared {
    pub staged: Staging,
    /// Which hypervisor is showing this guest's console: `vmconnect` under
    /// Hyper-V, a VNC framebuffer under QEMU.
    pub console: ProviderKind,
    /// The guest confirmed it can offer an enhanced `vmconnect` session.
    pub enhanced_session: bool,
}

/// Whether this host can build a target's binaries now, given whether what
/// the store knows of the builder guest's image blocks a boot (`None` where it
/// knows nothing).
pub open spec fn builder_usable(host: HostOs, target: Target, blocks: Option<bool>) -> bool {
    match builder_for_spec(host, target) {
        None => false,
        Some(Builder::Guest(_)) => match blocks {
            Some(b) => !b,
            None => false,
        },
        Some(_) => true,
    }
}

pub open spec fn condition_blocks(condition: Option<&ImageCondition>) -> Option<bool> {
    match condition {
        Some(c) => Some(c.blocks_boot),
        None => None,
    }
}

impl Staging {
    /// What a boot that staged nothing should say about it: the command's
    /// answer where this host could have staged something, and the host's
    /// where it could not.
    pub fn skipped_for(host: HostOs, target: Target, condition: Option<&ImageCondition>) -> (r: Staging)
        ensures
            r == (if builder_usable(host, target, condition_blocks(condition)) {
                Staging::Skipped
            } else {
                Staging::Impossible
            }),
    {
        match usable_builder(host, target, condition) {
            Ok(_) => Staging::Skipped,
            Err(_) => Staging::Impossible,
        }
    }
}

impl Prepared {
    /// A guest left as it stood: nothing staged in it and nothing handed over.
    pub fn bare(host: HostOs, console: ProviderKind, target: Target, condition: Option<&ImageCondition>) -> (r: Prepared)
        ensures
            r.staged == (if builder_usable(host, target, condition_blocks(condition)) {
                Staging::Skipped
            } else {
                Staging::Impossible
            }),
            r.console == console,
            !r.enhanced_session,
    {
        Prepared { staged: Staging::skipped_for(host, target, condition), console, enhanced_session: false }
    }
}

pub open spec fn guest_memory_spec(image: Image) -> Seq<char> {
    (format_bytes_spec((resources_spec(image).0 * 1048576) as nat))
}

/// How much of the host a guest of this image holds while it is up: the
/// memory it is given, so that a figure printed to argue for a teardown is the
/// real one.
fn guest_memory(image: Image) -> (r: String)
    ensures
        r@ == guest_memory_spec(image),
{
    let mut r = String::new();
    { let t = format_bytes(resources_for(image).0 as u64 * 1048576); r.append(t.as_str()); }
    r
}

pub open spec fn view_note_spec(console: ProviderKind, image: Image, enhanced_session: bool) -> Seq<char> {
    match (console, image_target(image), enhanced_session) {
        (ProviderKind::HyperV, Target::Windows, true) => "\n\nIts desktop opens in an enhanced session, which is the one that can be resized: drag the window and the guest's desktop follows. The dialog asks for the guest's account, `tester`, with no password at all, so leave that field empty and connect. A guest with a test run in it offers none of this and opens a basic session instead, because an enhanced one would take the console session out from under the run.\n\nAn enhanced session is RDP, so it carries the clipboard: text can be pasted straight in. Files go in over `vm ssh` and scp."@,
        (ProviderKind::HyperV, Target::Windows, false) => "\n\nIts desktop opens in a basic session: nothing to type, and fixed at the console resolution, because only an enhanced session can be resized and this guest is not offering one. `vm up` and `e2e --keep` are what turn that on.\n\nA basic session carries no clipboard, so text and files go in over `vm ssh` and scp.\n\n"@
            + (CREDENTIAL_DIALOG_CAVEAT@),
        _ => "\n\nThe console carries no clipboard integration, so text and files go in over `vm ssh` and scp."@,
    }
}

/// How to look at this guest, per hypervisor and per what it is offering.
///
/// `vmconnect` can open a session that resizes, for a guest that was handed
/// over; any other gets the basic session and the same credential caveat `vm
/// view` gives. A VNC viewer on a QEMU guest has no such choice to explain.
fn view_note(console: ProviderKind, image: Image, enhanced_session: bool) -> (r: String)
    ensures
        r@ == view_note_spec(console, image, enhanced_session),
{
    match (console, image.target(), enhanced_session) {
        (ProviderKind::HyperV, Target::Windows, true) => {
            let mut r = String::new();
            r.append("\n\nIts desktop opens in an enhanced session, which is the one that can be resized: drag the window and the guest's desktop follows. The dialog asks for the guest's account, `tester`, with no password at all, so leave that field empty and connect. A guest with a test run in it offers none of this and opens a basic session instead, because an enhanced one would take the console session out from under the run.\n\nAn enhanced session is RDP, so it carries the clipboard: text can be pasted straight in. Files go in over `vm ssh` and scp.");
            r
        },
        (ProviderKind::HyperV, Target::Windows, false) => {
            let mut r = String::new();
            r.append("\n\nIts desktop opens in a basic session: nothing to type, and fixed at the console resolution, because only an enhanced session can be resized and this guest is not offering one. `vm up` and `e2e --keep` are what turn that on.\n\nA basic session carries no clipboard, so text and files go in over `vm ssh` and scp.\n\n");
            r.append(CREDENTIAL_DIALOG_CAVEAT);
            r
        },
        _ => {
            let mut r = String::new();
            r.append("\n\nThe console carries no clipboard integration, so text and files go in over `vm ssh` and scp.");
            r
        },
    }
}

pub open spec fn guest_environment_note_spec(image: Image, staged: Staging) -> Seq<char> {
    match (image_target(image), staged) {
        (Target::Windows, Staging::Done) => "\n\nTwo shortcuts are on its desktop. `"@
            + (trim_end_matches_spec(APP_SHORTCUT@, ".lnk"@))
            + "` starts the app through a launcher that sets `SLINT_BACKEND="@
            + (WINDOWS_SLINT_BACKEND@)
            + "` for it: this guest has no OpenGL, and without that the app exits before a window appears. `"@
            + (trim_end_matches_spec(FOLDER_SHORTCUT@, ".lnk"@))
            + "` opens the directory the binaries, fixtures and results are in."@,
        (Target::Windows, Staging::Impossible) => "\n\nNothing of ours is in it: nothing on this host can compile Windows binaries as it stands, so its desktop is empty and there is no app in it to start. `cargo xtask vm build-image "@
            + (image_slug(builder_image(Target::Windows)))
            + "` gives this host a guest that can, and the boot after that stages them. Meanwhile what this one is good for is the image itself: `cargo xtask vm view "@
            + (image_slug(image))
            + "` shows its console and `cargo xtask vm ssh "@
            + (image_slug(image))
            + "` is a shell in it."@,
        (Target::Windows, Staging::Skipped) => "\n\nNothing of ours was staged in it, so its desktop is empty and there is no app in it to start. `cargo xtask vm up "@
            + (image_slug(image))
            + "` boots a guest with the binaries, the launcher and the shortcuts, and `"@
            + (keep_command_spec(image))
            + "` leaves one behind after a run."@,
        (Target::Linux, Staging::Done) => "\n\nWhat this boot staged is in `"@
            + (GUEST_ROOT_LINUX@)
            + "`, which is outside any home directory: the app and the test harness in `bin/`, the fixtures, and a run's results. `"@
            + (linux_launcher_path_spec())
            + "` starts the app from there, naming the staged textures directory when there is one, and it is what the `"@
            + (ENTRY_NAME@)
            + "` entry runs. Both entries are in the applications menu, and on the desktop itself where the desktop shows icons, which Plasma, XFCE and Cinnamon do and GNOME does not. From a shell: `"@
            + (linux_launcher_path_spec())
            + "`."@,
        (Target::Linux, _) => "\n\nNothing of ours was staged in it, so there is no app in `"@
            + (GUEST_ROOT_LINUX@)
            + "` to start and no entry for one. `cargo xtask vm up "@
            + (image_slug(image))
            + "` boots a guest with the binaries, the launcher and the desktop entries, and `"@
            + (keep_command_spec(image))
            + "` leaves one behind after a run."@,
    }
}

/// What is waiting on the desktop of a guest that has just been handed over.
///
/// A Windows guest has no OpenGL, so what the app needs is said where the guest
/// is handed over; a Linux guest's root is outside any home directory, so it is
/// named. A guest nothing was staged in is told what would put it there: on a
/// host that cannot build the binaries, that is the builder image and not the
/// command that just ran.
fn guest_environment_note(image: Image, staged: Staging) -> (r: String)
    ensures
        r@ == guest_environment_note_spec(image, staged),
{
    match (image.target(), staged) {
        (Target::Windows, Staging::Done) => {
            let mut r = String::new();
            r.append("\n\nTwo shortcuts are on its desktop. `");
            { proof { reveal_strlit(".lnk"); } let t = trim_end_matches(APP_SHORTCUT, ".lnk"); r.append(t.as_str()); }
            r.append("` starts the app through a launcher that sets `SLINT_BACKEND=");
            r.append(WINDOWS_SLINT_BACKEND);
            r.append("` for it: this guest has no OpenGL, and without that the app exits before a window appears. `");
            { proof { reveal_strlit(".lnk"); } let t = trim_end_matches(FOLDER_SHORTCUT, ".lnk"); r.append(t.as_str()); }
            r.append("` opens the directory the binaries, fixtures and results are in.");
            r
        },
        (Target::Windows, Staging::Impossible) => {
            let mut r = String::new();
            r.append("\n\nNothing of ours is in it: nothing on this host can compile Windows binaries as it stands, so its desktop is empty and there is no app in it to start. `cargo xtask vm build-image ");
            r.append(Image::builder(Target::Windows).slug());
            r.append("` gives this host a guest that can, and the boot after that stages them. Meanwhile what this one is good for is the image itself: `cargo xtask vm view ");
            r.append(image.slug());
            r.append("` shows its console and `cargo xtask vm ssh ");
            r.append(image.slug());
            r.append("` is a shell in it.");
            r
        },
        (Target::Windows, Staging::Skipped) => {
            let mut r = String::new();
            r.append("\n\nNothing of ours was staged in it, so its desktop is empty and there is no app in it to start. `cargo xtask vm up ");
            r.append(image.slug());
            r.append("` boots a guest with the binaries, the launcher and the shortcuts, and `");
            { let t = keep_command(image); r.append(t.as_str()); }
            r.append("` leaves one behind after a run.");
            r
        },
        (Target::Linux, Staging::Done) => {
            let mut r = String::new();
            r.append("\n\nWhat this boot staged is in `");
            r.append(GUEST_ROOT_LINUX);
            r.append("`, which is outside any home directory: the app and the test harness in `bin/`, the fixtures, and a run's results. `");
            { let t = linux_launcher_path(); r.append(t.as_str()); }
            r.append("` starts the app from there, naming the staged textures directory when there is one, and it is what the `");
            r.append(ENTRY_NAME);
            r.append("` entry runs. Both entries are in the applications menu, and on the desktop itself where the desktop shows icons, which Plasma, XFCE and Cinnamon do and GNOME does not. From a shell: `");
            { let t = linux_launcher_path(); r.append(t.as_str()); }
            r.append("`.");
            r
        },
        (Target::Linux, _) => {
            let mut r = String::new();
            r.append("\n\nNothing of ours was staged in it, so there is no app in `");
            r.append(GUEST_ROOT_LINUX);
            r.append("` to start and no entry for one. `cargo xtask vm up ");
            r.append(image.slug());
            r.append("` boots a guest with the binaries, the launcher and the desktop entries, and `");
            { let t = keep_command(image); r.append(t.as_str()); }
            r.append("` leaves one behind after a run.");
            r
        },
    }
}

pub open spec fn desktop_explainer_spec(image: Image, prepared: Prepared) -> Seq<char> {
    "\n"@
        + (vm_name_spec(image))
        + " is up.\n  ssh:     cargo xtask vm ssh "@
        + (image_slug(image))
        + "\n  "@
        + (image_console_label(image))
        + ": cargo xtask vm view "@
        + (image_slug(image))
        + "\n  down:    cargo xtask vm down "@
        + (image_slug(image))
        + "\n\n`vm down` is the stop, and an idle guest is worth stopping: it holds "@
        + (guest_memory_spec(image))
        + " of this host's memory for as long as it is up. What there is no way to do is save or pause one, and nothing in here is worth saving, so ending a guest and discarding it are the same act: the teardown frees the memory and the overlay, leaves the golden image untouched, and the next `vm up` boots something pristine.\n\nWatching a run is harmless; clicking during one perturbs it."@
        + (view_note_spec(prepared.console, image, prepared.enhanced_session))
        + (guest_environment_note_spec(image, prepared.staged))
}

fn desktop_explainer(image: Image, prepared: Prepared) -> (r: String)
    ensures
        r@ == desktop_explainer_spec(image, prepared),
{
    let mut r = String::new();
    r.append("\n");
    { let t = image.vm_name(); r.append(t.as_str()); }
    r.append(" is up.\n  ssh:     cargo xtask vm ssh ");
    r.append(image.slug());
    r.append("\n  ");
    r.append(image.console_label());
    r.append(": cargo xtask vm view ");
    r.append(image.slug());
    r.append("\n  down:    cargo xtask vm down ");
    r.append(image.slug());
    r.append("\n\n`vm down` is the stop, and an idle guest is worth stopping: it holds ");
    { let t = guest_memory(image); r.append(t.as_str()); }
    r.append(" of this host's memory for as long as it is up. What there is no way to do is save or pause one, and nothing in here is worth saving, so ending a guest and discarding it are the same act: the teardown frees the memory and the overlay, leaves the golden image untouched, and the next `vm up` boots something pristine.\n\nWatching a run is harmless; clicking during one perturbs it.");
    { let t = view_note(prepared.console, image, prepared.enhanced_session); r.append(t.as_str()); }
    { let t = guest_environment_note(image, prepared.staged); r.append(t.as_str()); }
    r
}

pub open spec fn builder_explainer_spec(image: Image) -> Seq<char> {
    "\n"@
        + (vm_name_spec(image))
        + " is up.\n  ssh:     cargo xtask vm ssh "@
        + (image_slug(image))
        + "\n  "@
        + (image_console_label(image))
        + ": cargo xtask vm view "@
        + (image_slug(image))
        + "\n  stop:    cargo xtask vm stop "@
        + (image_slug(image))
        + "\n  start:   cargo xtask vm start "@
        + (image_slug(image))
        + "\n  down:    cargo xtask vm down "@
        + (image_slug(image))
        + "\n\nIt holds "@
        + (guest_memory_spec(image))
        + " of this host's memory while it runs, and `vm stop` gives that back and keeps the overlay: what is in there is a cargo build directory and a crate registry, which is what makes the next build in it a link rather than a compile. `vm down` frees the overlay with it, and the build after that starts from nothing."@
}

/// What a builder guest's boot closes with: shorter than a desktop guest's,
/// because less of it is true here. A builder has nothing staged in it and no
/// session to explain; what it has is a lifetime, so its stop and start are in
/// the list.
fn builder_explainer(image: Image) -> (r: String)
    ensures
        r@ == builder_explainer_spec(image),
{
    let mut r = String::new();
    r.append("\n");
    { let t = image.vm_name(); r.append(t.as_str()); }
    r.append(" is up.\n  ssh:     cargo xtask vm ssh ");
    r.append(image.slug());
    r.append("\n  ");
    r.append(image.console_label());
    r.append(": cargo xtask vm view ");
    r.append(image.slug());
    r.append("\n  stop:    cargo xtask vm stop ");
    r.append(image.slug());
    r.append("\n  start:   cargo xtask vm start ");
    r.append(image.slug());
    r.append("\n  down:    cargo xtask vm down ");
    r.append(image.slug());
    r.append("\n\nIt holds ");
    { let t = guest_memory(image); r.append(t.as_str()); }
    r.append(" of this host's memory while it runs, and `vm stop` gives that back and keeps the overlay: what is in there is a cargo build directory and a crate registry, which is what makes the next build in it a link rather than a compile. `vm down` frees the overlay with it, and the build after that starts from nothing.");
    r
}

pub open spec fn lifecycle_explainer_spec(image: Image, prepared: Prepared) -> Seq<char> {
    if image_is_builder(image) {
        builder_explainer_spec(image)
    } else {
        desktop_explainer_spec(image, prepared)
    }
}

/// What `vm up` prints when it is done.
///
/// `vm down` is the stop; what is missing is a save or a pause, and a guest
/// holds nothing worth saving. The memory figure is the guest's own, because
/// an idle guest holding gigabytes is the reason to take it down.
pub fn lifecycle_explainer(image: Image, prepared: Prepared) -> (r: String)
    ensures
        r@ == lifecycle_explainer_spec(image, prepared),
{
    if image.is_builder() {
        builder_explainer(image)
    } else {
        desktop_explainer(image, prepared)
    }
}

/// Whether a boot of this image puts the current binaries in the guest: every
/// image the suite runs in, and no builder.
pub fn stages_binaries(image: Image) -> (r: bool)
    ensures
        r == !image_is_builder(image),
{
    !image.is_builder()
}

pub open spec fn reason_when_kept_spec(reason: StartReason) -> StartReason {
    match reason {
        StartReason::Run | StartReason::Dist => StartReason::Keep,
        other => other,
    }
}

/// What a guest's record says once the work it was booted for is over: the
/// two reasons that describe work in progress become the one that describes a
/// guest waiting for somebody, and everything else is left alone.
pub fn reason_when_kept(reason: StartReason) -> (r: StartReason)
    ensures
        r == reason_when_kept_spec(reason),
{
    match reason {
        StartReason::Run | StartReason::Dist => StartReason::Keep,
        other => other,
    }
}


/// A boot asked for nothing beyond the image is never refused: no desktop, no
/// session type and one screen fit every image, because a flag that changes
/// nothing is not worth a refusal.
pub proof fn lemma_a_plain_boot_fits_every_image(image: Image)
    ensures
        desktop_for_spec(image, None) == Ok::<Option<Desktop>, Seq<char>>(None),
        screens_for_spec(image, 1) == Ok::<u16, Seq<char>>(1),
        check_spec(BootRequest { desktop: None, session_type: None, screens: 1 }, image) == Ok::<
            (Option<(Desktop, SessionType)>, u16),
            Seq<char>,
        >((None, 1)),
{
}

/// Whether two guests may run side by side does not depend on which of them
/// booted first; a target's builder may run beside any guest, and two desktop
/// guests never may.
pub proof fn lemma_beside_is_mutual(a: Image, b: Image, t: Target, u: Target)
    ensures
        may_run_beside_spec(a, b) == may_run_beside_spec(b, a),
        may_run_beside_spec(builder_image(t), a),
        !may_run_beside_spec(desktop_image(t), desktop_image(u)),
{
}

/// Keeping a guest settles its record: keeping it again changes nothing, and
/// a kept guest's record warns of no work lost by ending it, unless it is an
/// image build, which nothing hands over.
pub proof fn lemma_kept_records_are_settled(reason: StartReason)
    ensures
        reason_when_kept_spec(reason_when_kept_spec(reason)) == reason_when_kept_spec(reason),
        reason != StartReason::Build ==> cost_of_ending_spec(reason_when_kept_spec(reason)) is None,
{
}

pub open spec fn reach_hint_spec(image: Image) -> Seq<char> {
    "  ssh:     cargo xtask vm ssh "@
        + (image_slug(image))
        + "\n  "@
        + (image_console_label(image))
        + ": cargo xtask vm view "@
        + (image_slug(image))
        + "\n  down:    cargo xtask vm down "@
        + (image_slug(image))
}

/// How to reach and get rid of a guest of this image, for when something has
/// gone wrong and it is still running.
pub fn reach_hint(image: Image) -> (r: String)
    ensures
        r@ == reach_hint_spec(image),
{
    let mut r = String::new();
    r.append("  ssh:     cargo xtask vm ssh ");
    r.append(image.slug());
    r.append("\n  ");
    r.append(image.console_label());
    r.append(": cargo xtask vm view ");
    r.append(image.slug());
    r.append("\n  down:    cargo xtask vm down ");
    r.append(image.slug());
    r
}

pub open spec fn after_failure_spec(image: Image, vm_name: Seq<char>, keep: bool, teardown: Result<(), Seq<char>>) -> Seq<char> {
    (if keep { vm_name + " is still running, because --keep was given.\n"@ + reach_hint_spec(image) } else { match teardown { Ok(()) => vm_name + " was destroyed."@, Err(e) => vm_name + " could not be destroyed ("@ + e + "), and is still running.\n"@ + reach_hint_spec(image) } })
}

/// What is said of a guest after something went wrong with it: kept and named
/// with the way to reach it, destroyed, or still running because the teardown
/// failed, with the same hint. `teardown` is what the teardown answered, and is
/// not read for a guest that is kept.
pub fn after_failure_line(image: Image, vm_name: &str, keep: bool, teardown: &Result<(), String>) -> (r: String)
    ensures
        r@ == after_failure_spec(image, vm_name@, keep, res_view(*teardown)),
{
    let mut r = String::new();
    if keep { r.append(vm_name); r.append(" is still running, because --keep was given.\n"); let t = reach_hint(image); r.append(t.as_str()); } else { match teardown { Ok(()) => { r.append(vm_name); r.append(" was destroyed."); }, Err(e) => { r.append(vm_name); r.append(" could not be destroyed ("); r.append(e.as_str()); r.append("), and is still running.\n"); let t = reach_hint(image); r.append(t.as_str()); } } }
    r
}

pub open spec fn session_check_spec(d: Desktop, t: SessionType, session_env: Seq<char>) -> Result<Seq<char>, Seq<char>> {
    let lines = lines_spec(session_env);
    let observed_type = env_value(lines, "XDG_SESSION_TYPE"@);
    let observed_desktop = env_value(lines, "XDG_CURRENT_DESKTOP"@);
    if observed_type == session_type_flag(t) && some_piece_ic(observed_desktop, ':', current_desktop_spec(d)) {
        Ok("  the session is "@ + login_label(d, t))
    } else {
        Err(session_mismatch(d, t, observed_desktop, observed_type))
    }
}

/// Whether the session that came up is the one this guest was asked for, read
/// from the `session.env` the session wrote. A boot that named nothing is held
/// to the image default.
pub fn session_line(recorded: Option<Login>, session_env: &str) -> (r: Result<String, String>)
    ensures
        text_res_view(r) == ({
            let (d, t) = match recorded {
                Some(l) => login_pair(l),
                None => (Desktop::Kde, SessionType::X11),
            };
            session_check_spec(d, t, session_env@)
        }),
{
    let expected = match recorded {
        Some(l) => l,
        None => Login::image_default(),
    };
    match expected.check_session_env(session_env) {
        Ok(()) => {
            let mut r = owned("  the session is ");
            r.append(expected.label());
            Ok(r)
        },
        Err(e) => Err(e),
    }
}

pub open spec fn smoke_script_spec(image: Image) -> Seq<char> {
    match image_target(image) {
        Target::Windows => "@echo off\r\necho sunlit-e2e smoke\r\nhostname\r\nwhoami\r\necho %SUNLIT_E2E_ARTIFACTS%\r\n"@
            + (if image_is_builder(image) { "\"%USERPROFILE%\\.cargo\\bin\\cargo.exe\" -V || exit /b 1\r\n"@ } else { Seq::<char>::empty() })
            + "echo smoke > %SUNLIT_E2E_ARTIFACTS%\\smoke.txt\r\n"@,
        Target::Linux => "#!/usr/bin/env bash\nset -eux\necho 'sunlit-e2e smoke'\nhostname\nid\necho \"DISPLAY=$DISPLAY\"\n"@
            + (if image_is_builder(image) { "\"$HOME/.cargo/bin/cargo\" -V\n"@ } else { "xdpyinfo -display \"$DISPLAY\" | head -3\n"@ })
            + "echo smoke > \"$SUNLIT_E2E_ARTIFACTS/smoke.txt\"\n"@,
    }
}

/// The trivial job the smoke test runs.
///
/// A builder of either target is asked for its toolchain, the Debian desktop
/// image to prove there is an X server the job can reach, and the Windows
/// desktop image neither, because getting this far is the proof.
pub fn smoke_script(image: Image) -> (r: String)
    ensures
        r@ == smoke_script_spec(image),
{
    match image.target() {
        Target::Windows => {
            let mut r = String::new();
            r.append("@echo off\r\necho sunlit-e2e smoke\r\nhostname\r\nwhoami\r\necho %SUNLIT_E2E_ARTIFACTS%\r\n");
            if image.is_builder() { r.append("\"%USERPROFILE%\\.cargo\\bin\\cargo.exe\" -V || exit /b 1\r\n"); } else {  }
            r.append("echo smoke > %SUNLIT_E2E_ARTIFACTS%\\smoke.txt\r\n");
            r
        },
        Target::Linux => {
            let mut r = String::new();
            r.append("#!/usr/bin/env bash\nset -eux\necho 'sunlit-e2e smoke'\nhostname\nid\necho \"DISPLAY=$DISPLAY\"\n");
            if image.is_builder() { r.append("\"$HOME/.cargo/bin/cargo\" -V\n"); } else { r.append("xdpyinfo -display \"$DISPLAY\" | head -3\n"); }
            r.append("echo smoke > \"$SUNLIT_E2E_ARTIFACTS/smoke.txt\"\n");
            r
        },
    }
}

// ---------------------------------------------------------------------------
// What the interactive commands say
// ---------------------------------------------------------------------------

pub open spec fn ssh_no_record_spec(image: Image) -> Seq<char> {
    "no "@
        + (image_slug(image))
        + " VM is recorded. `cargo xtask vm up "@
        + (image_slug(image))
        + "` starts one."@
}

/// What `vm ssh` says when no guest of the image is recorded.
pub fn ssh_no_record(image: Image) -> (r: String)
    ensures
        r@ == ssh_no_record_spec(image),
{
    let mut r = String::new();
    r.append("no ");
    r.append(image.slug());
    r.append(" VM is recorded. `cargo xtask vm up ");
    r.append(image.slug());
    r.append("` starts one.");
    r
}

pub open spec fn view_no_record_spec(image: Image) -> Seq<char> {
    "no "@
        + (image_slug(image))
        + " VM is running. `cargo xtask vm up "@
        + (image_slug(image))
        + "` starts one, and `"@
        + (keep_command_spec(image))
        + "` leaves the aftermath of a run to look at."@
}

/// What `vm view` says when no guest of the image is recorded.
pub fn view_no_record(image: Image) -> (r: String)
    ensures
        r@ == view_no_record_spec(image),
{
    let mut r = String::new();
    r.append("no ");
    r.append(image.slug());
    r.append(" VM is running. `cargo xtask vm up ");
    r.append(image.slug());
    r.append("` starts one, and `");
    { let t = keep_command(image); r.append(t.as_str()); }
    r.append("` leaves the aftermath of a run to look at.");
    r
}

pub open spec fn no_console_spec(image: Image, state: RunState) -> Seq<char> {
    "there is no console to attach to: "@
        + (not_running_hint_spec(image, state))
}

/// What `vm view` says about a guest that is recorded and not running.
pub fn no_console(image: Image, state: &RunState) -> (r: String)
    ensures
        r@ == no_console_spec(image, *state),
{
    let mut r = String::new();
    r.append("there is no console to attach to: ");
    { let t = not_running_hint(image, state); r.append(t.as_str()); }
    r
}

pub open spec fn shell_line_spec(vm_name: Seq<char>, host: Seq<char>, port: u16) -> Seq<char> {
    "opening a shell on "@
        + (vm_name)
        + " ("@
        + (host)
        + ":"@
        + (dec(port as nat))
        + "); `exit` or Ctrl-D leaves it"@
}

/// The line `vm ssh` prints before it hands over the terminal.
pub fn shell_line(vm_name: &str, host: &str, port: u16) -> (r: String)
    ensures
        r@ == shell_line_spec(vm_name@, host@, port),
{
    let mut r = String::new();
    r.append("opening a shell on ");
    r.append(vm_name);
    r.append(" (");
    r.append(host);
    r.append(":");
    { let t = dec_string(port as u64); r.append(t.as_str()); }
    r.append("); `exit` or Ctrl-D leaves it");
    r
}

pub open spec fn already_running_line_spec(image: Image, vm_name: Seq<char>) -> Seq<char> {
    (vm_name)
        + " is already running; `cargo xtask vm ssh "@
        + (image_slug(image))
        + "` is a shell in it"@
}

/// What `vm start` says of a builder that is up already.
pub fn already_running_line(image: Image, vm_name: &str) -> (r: String)
    ensures
        r@ == already_running_line_spec(image, vm_name@),
{
    let mut r = String::new();
    r.append(vm_name);
    r.append(" is already running; `cargo xtask vm ssh ");
    r.append(image.slug());
    r.append("` is a shell in it");
    r
}

pub open spec fn up_again_line_spec(image: Image, vm_name: Seq<char>) -> Seq<char> {
    (vm_name)
        + " is up again, with what it was holding; `cargo xtask vm stop "@
        + (image_slug(image))
        + "` puts it back"@
}

/// What `vm start` says once the builder is back.
pub fn up_again_line(image: Image, vm_name: &str) -> (r: String)
    ensures
        r@ == up_again_line_spec(image, vm_name@),
{
    let mut r = String::new();
    r.append(vm_name);
    r.append(" is up again, with what it was holding; `cargo xtask vm stop ");
    r.append(image.slug());
    r.append("` puts it back");
    r
}

pub open spec fn remote_command_spec(extra: Seq<Seq<char>>) -> Option<Seq<char>> {
    if extra.len() == 0 {
        None
    } else {
        Some(join_spec(extra, " "@))
    }
}

/// The command `vm ssh` runs in the guest: the words it was given, joined with
/// spaces, or none for an interactive shell.
pub fn remote_command(extra: &Vec<String>) -> (r: Option<String>)
    ensures
        match remote_command_spec(views(extra@)) {
            Some(c) => r matches Some(s) && s@ == c,
            None => r is None,
        },
{
    if extra.len() == 0 {
        None
    } else {
        Some(join(extra, " "))
    }
}

/// The states of a golden image a boot tells apart. Which of them stop a boot
/// is part of each: an image that is fine or merely stale does not, the named
/// failures do, and any other state says for itself.
#[derive(Debug, Clone, PartialEq, Eq)]
pub enum ImageState {
    /// Nothing at all is recorded about the image.
    Unknown,
    Fine,
    Stale { detail: String },
    /// The evaluation licence ran out; `summary` says when and what it costs.
    Expired { summary: String },
    Missing,
    /// There is no manifest to read the build time from.
    Unmanifested { detail: String },
    /// The image does not match its manifest.
    Corrupt { detail: String },
    /// A layer whose parent has changed under it.
    Detached { detail: String },
    Other { label: String, detail: String, blocks_boot: bool },
}

pub open spec fn unmanifested_spec(image: Image, detail: Seq<char>) -> Seq<char> {
    "the "@ + image_slug(image) + " image has no usable manifest: "@ + detail
        + ".\n\nThe manifest is where the build timestamp lives, and that is the only record of when the evaluation licence started running. Without it there is no telling an image with two months left from one that will start shutting itself down mid-run, which is the failure this check exists to prevent.\n\nRebuild it: cargo xtask vm build-image "@
        + image_slug(image)
}

/// What a boot says about the image it is asked to boot from: the warnings it
/// prints, and whether it goes ahead. A stale image and any other state that
/// does not stop a boot are warned about rather than passed in silence; an
/// expired one boots only when that was allowed, with two lines saying so.
pub open spec fn image_verdict_spec(image: Image, state: ImageState, allow_expired: bool) -> (
    Seq<Seq<char>>,
    Result<(), Seq<char>>,
) {
    match state {
        ImageState::Unknown => (Seq::empty(), Err("nothing is known about the "@ + image_slug(image) + " image"@)),
        ImageState::Fine => (Seq::empty(), Ok(())),
        ImageState::Stale { detail } => (
            seq![
                "warning: the "@ + image_slug(image) + " image is stale: "@ + detail@,
                "it still runs; `cargo xtask vm build-image "@ + image_slug(image) + "` brings it up to date"@,
            ],
            Ok(()),
        ),
        ImageState::Expired { summary } => if allow_expired {
            (seq!["warning: "@ + summary@, "proceeding because --allow-expired-image was given"@], Ok(()))
        } else {
            (Seq::empty(), Err(expired_help_spec(image, summary@)))
        },
        ImageState::Missing => (
            Seq::empty(),
            Err("no "@ + image_slug(image) + " golden image yet. `cargo xtask vm build-image "@ + image_slug(image)
                + "` builds one."@),
        ),
        ImageState::Unmanifested { detail } => (Seq::empty(), Err(unmanifested_spec(image, detail@))),
        ImageState::Corrupt { detail } => (
            Seq::empty(),
            Err("the "@ + image_slug(image) + " golden image does not match its manifest: "@ + detail@
                + ". `cargo xtask vm build-image "@ + image_slug(image) + "` rebuilds it."@),
        ),
        ImageState::Detached { detail } => (Seq::empty(), Err(detached_help_spec(image, detail@))),
        ImageState::Other { label, detail, blocks_boot } => if blocks_boot {
            (Seq::empty(), Err("the "@ + image_slug(image) + " image is not usable: "@ + detail@))
        } else {
            (seq!["warning: the "@ + image_slug(image) + " image is "@ + label@ + ": "@ + detail@], Ok(()))
        },
    }
}

/// Refuse to boot from an image that cannot produce a trustworthy run, and
/// say what is worth knowing about one that can.
pub fn image_verdict(image: Image, state: &ImageState, allow_expired: bool) -> (r: (Vec<String>, Result<(), String>))
    ensures
        views(r.0@) == image_verdict_spec(image, *state, allow_expired).0,
        res_view(r.1) == image_verdict_spec(image, *state, allow_expired).1,
{
    let slug = image.slug();
    let mut lines: Vec<String> = Vec::new();
    match state {
        ImageState::Unknown => {
            let mut e = owned("nothing is known about the ");
            e.append(slug);
            e.append(" image");
            assert(views(lines@) =~= Seq::<Seq<char>>::empty());
            (lines, Err(e))
        },
        ImageState::Fine => {
            assert(views(lines@) =~= Seq::<Seq<char>>::empty());
            (lines, Ok(()))
        },
        ImageState::Stale { detail } => {
            let mut a = owned("warning: the ");
            a.append(slug);
            a.append(" image is stale: ");
            a.append(detail.as_str());
            let mut b = owned("it still runs; `cargo xtask vm build-image ");
            b.append(slug);
            b.append("` brings it up to date");
            lines.push(a);
            lines.push(b);
            assert(views(lines@) =~= image_verdict_spec(image, *state, allow_expired).0);
            (lines, Ok(()))
        },
        ImageState::Expired { summary } => {
            if allow_expired {
                let mut a = owned("warning: ");
                a.append(summary.as_str());
                lines.push(a);
                lines.push(owned("proceeding because --allow-expired-image was given"));
                assert(views(lines@) =~= image_verdict_spec(image, *state, allow_expired).0);
                (lines, Ok(()))
            } else {
                assert(views(lines@) =~= Seq::<Seq<char>>::empty());
                (lines, Err(expired_help(image, summary.as_str())))
            }
        },
        ImageState::Missing => {
            let mut e = owned("no ");
            e.append(slug);
            e.append(" golden image yet. `cargo xtask vm build-image ");
            e.append(slug);
            e.append("` builds one.");
            assert(views(lines@) =~= Seq::<Seq<char>>::empty());
            (lines, Err(e))
        },
        ImageState::Unmanifested { detail } => {
            let mut e = owned("the ");
            e.append(slug);
            e.append(" image has no usable manifest: ");
            e.append(detail.as_str());
            e.append(
                ".\n\nThe manifest is where the build timestamp lives, and that is the only record of when the evaluation licence started running. Without it there is no telling an image with two months left from one that will start shutting itself down mid-run, which is the failure this check exists to prevent.\n\nRebuild it: cargo xtask vm build-image ",
            );
            e.append(slug);
            assert(views(lines@) =~= Seq::<Seq<char>>::empty());
            (lines, Err(e))
        },
        ImageState::Corrupt { detail } => {
            let mut e = owned("the ");
            e.append(slug);
            e.append(" golden image does not match its manifest: ");
            e.append(detail.as_str());
            e.append(". `cargo xtask vm build-image ");
            e.append(slug);
            e.append("` rebuilds it.");
            assert(views(lines@) =~= Seq::<Seq<char>>::empty());
            (lines, Err(e))
        },
        ImageState::Detached { detail } => {
            assert(views(lines@) =~= Seq::<Seq<char>>::empty());
            (lines, Err(detached_help(image, detail.as_str())))
        },
        ImageState::Other { label, detail, blocks_boot } => {
            if *blocks_boot {
                let mut e = owned("the ");
                e.append(slug);
                e.append(" image is not usable: ");
                e.append(detail.as_str());
                assert(views(lines@) =~= Seq::<Seq<char>>::empty());
                (lines, Err(e))
            } else {
                let mut a = owned("warning: the ");
                a.append(slug);
                a.append(" image is ");
                a.append(label.as_str());
                a.append(": ");
                a.append(detail.as_str());
                lines.push(a);
                assert(views(lines@) =~= image_verdict_spec(image, *state, allow_expired).0);
                (lines, Ok(()))
            }
        },
    }
}

/// What the smoke test has just learned about its guest.
#[derive(Debug, PartialEq, Eq)]
pub enum SmokeEvent {
    /// The guest booted.
    Booted,
    /// The trivial job finished with this exit code, or could not be run.
    JobDone(Result<i32, String>),
    /// The job's results came back, or could not be collected.
    Collected(Result<(), String>),
}

/// What the smoke test does next.
#[derive(Debug, Clone, PartialEq, Eq)]
pub enum SmokeAction {
    /// Run the trivial job.
    RunJob,
    /// Bring the results directory back.
    Collect,
    /// The guest exists and something failed: say what became of it (kept
    /// where `keep` asks for that), and end with this error.
    Fail(String),
    /// Report, then keep the guest where `keep` asks for that and destroy it
    /// otherwise; the command exits with `exit`.
    Finish { keep: bool, exit: u8 },
}

/// The smoke test's decisions: boot, run a trivial job, collect it, and keep
/// or destroy the guest. `code` is the job's exit code where it has finished,
/// which decides what the command exits with: 0 for a job that exited 0 and 1
/// otherwise. Any failure once the guest exists ends the run with it.
pub open spec fn smoke_next_spec(keep: bool, code: Option<i32>, ev: SmokeEvent) -> SmokeAction {
    match ev {
        SmokeEvent::Booted => SmokeAction::RunJob,
        SmokeEvent::JobDone(Ok(_)) => SmokeAction::Collect,
        SmokeEvent::JobDone(Err(e)) => SmokeAction::Fail(e),
        SmokeEvent::Collected(Err(e)) => SmokeAction::Fail(e),
        SmokeEvent::Collected(Ok(())) => SmokeAction::Finish {
            keep,
            exit: if code == Some(0i32) {
                0
            } else {
                1
            },
        },
    }
}

pub fn smoke_next(keep: bool, code: Option<i32>, ev: SmokeEvent) -> (r: SmokeAction)
    ensures
        r == smoke_next_spec(keep, code, ev),
{
    match ev {
        SmokeEvent::Booted => SmokeAction::RunJob,
        SmokeEvent::JobDone(Ok(_)) => SmokeAction::Collect,
        SmokeEvent::JobDone(Err(e)) => SmokeAction::Fail(e),
        SmokeEvent::Collected(Err(e)) => SmokeAction::Fail(e),
        SmokeEvent::Collected(Ok(())) => {
            let exit: u8 = match code {
                Some(c) => if c == 0 {
                    0
                } else {
                    1
                },
                None => 1,
            };
            SmokeAction::Finish { keep, exit }
        },
    }
}

/// The line the smoke test reports its job with.
pub fn smoke_exit_line(code: i32, elapsed_ms: u64) -> (r: String)
    ensures
        r@ == "the job exited "@ + crate::fmt::int_dec(code as int) + " after "@ + round_secs_spec(elapsed_ms)
            + "s total"@,
{
    let mut r = owned("the job exited ");
    r.append(crate::fmt::i32_string(code).as_str());
    r.append(" after ");
    r.append(round_secs(elapsed_ms).as_str());
    r.append("s total");
    r
}

/// Whether `vm up` builds binaries before it boots, and what it says where it
/// cannot: an image that takes binaries gets them where a builder can be used,
/// and otherwise boots as the image built it, saying why.
pub fn up_build_plan(image: Image, builder: &Result<Builder, String>) -> (r: (bool, Vec<String>))
    ensures
        !image_is_builder(image) && builder is Ok ==> r.0 && r.1@.len() == 0,
        image_is_builder(image) ==> !r.0 && r.1@.len() == 0,
        !image_is_builder(image) && builder is Err ==> !r.0 && views(r.1@) == seq![
            "nothing of ours goes into this guest: "@ + builder->Err_0@,
            "it boots as the image built it"@,
        ],
{
    if !stages_binaries(image) {
        return (false, Vec::new());
    }
    match builder {
        Ok(_) => (true, Vec::new()),
        Err(reason) => {
            let mut a = owned("nothing of ours goes into this guest: ");
            a.append(reason.as_str());
            let v = vec![a, owned("it boots as the image built it")];
            assert(views(v@) =~= seq![
                "nothing of ours goes into this guest: "@ + builder->Err_0@,
                "it boots as the image built it"@,
            ]);
            (false, v)
        },
    }
}

/// What `vm up` staged, once the guest is up: `staged` is how staging the
/// binaries went, where there were any to stage. A staging that failed ends
/// the command with its error, and the guest is kept: it is still worth
/// looking at.
pub fn up_staging(image: Image, staged: Option<Result<(), String>>) -> (r: Result<Staging, String>)
    ensures
        match staged {
            Some(Ok(())) => r == Ok::<Staging, String>(Staging::Done),
            Some(Err(e)) => r == Err::<Staging, String>(e),
            None => if image_is_builder(image) {
                r == Ok::<Staging, String>(Staging::Skipped)
            } else {
                r == Ok::<Staging, String>(Staging::Impossible)
            },
        },
{
    match staged {
        Some(Ok(())) => Ok(Staging::Done),
        Some(Err(e)) => Err(e),
        None => {
            if !stages_binaries(image) {
                Ok(Staging::Skipped)
            } else {
                Ok(Staging::Impossible)
            }
        },
    }
}

/// Whether a login is a Wayland one.
pub open spec fn is_wayland(login: Option<(Desktop, SessionType)>) -> bool {
    match login {
        Some((_, t)) => t == SessionType::Wayland,
        None => false,
    }
}

/// What a boot may be asked for. One screen is always granted, and more only
/// to the Debian 13 guest, up to `MAX_SCREENS`; a granted count is the count
/// asked for. Only that guest may be asked for a desktop, and not asking is
/// always fine. A request as a whole is granted exactly when its login and its
/// screens are, unless it asks for more than one screen under Wayland.
pub proof fn lemma_what_a_boot_may_ask_for(image: Image, n: u16, d: Desktop, req: BootRequest)
    ensures
        (screens_for_spec(image, n) is Ok) == (n == 1 || (image == Image::Linux && 2 <= n <= MAX_SCREENS)),
        screens_for_spec(image, n) is Ok ==> screens_for_spec(image, n) == Ok::<u16, Seq<char>>(n),
        desktop_for_spec(image, None) == Ok::<Option<Desktop>, Seq<char>>(None),
        desktop_for_spec(Image::Linux, Some(d)) == Ok::<Option<Desktop>, Seq<char>>(Some(d)),
        image != Image::Linux ==> desktop_for_spec(image, Some(d)) is Err,
        (check_spec(req, image) is Ok) == (login_for_spec(image, req.desktop, req.session_type) is Ok
            && screens_for_spec(image, req.screens) is Ok && !(screens_for_spec(image, req.screens)->Ok_0 > 1
            && is_wayland(login_for_spec(image, req.desktop, req.session_type)->Ok_0))),
{
}

} // verus!
