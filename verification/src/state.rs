//! The record that sits next to a VM's overlay.
//!
//! Everything the xtask creates has to be findable again after the
//! orchestrator that created it is gone, so a crashed run, a kept run and an
//! interactive guest all leave the same small record, and `vm status` and
//! `vm down` work from it rather than by scanning the host.

use vstd::prelude::*;

use crate::provider::desktop::{from_record_spec, Login};
use crate::provider::target::{
    image_slug, image_target, parse_image_spec, parse_provider_spec, provider_name, target_slug,
    vm_name_spec, Image, ProviderKind, Target, VM_NAME_PREFIX,
};
use crate::text::{owned, starts_with_spec, str_eq, vec_starts_with, chars_of};

verus! {

pub const STATE_VERSION: u32 = 1;

/// Why a VM exists, which is what `vm status` reports and what tells a reader
/// whether something was left behind deliberately.
#[derive(Debug, Clone, Copy, PartialEq, Eq, Structural)]
pub enum StartReason {
    /// A test run currently in progress.
    Run,
    /// A test run that finished and was kept with `--keep`.
    Keep,
    /// An interactive guest from `vm up`.
    Up,
    /// A golden image being installed by `vm build-image`.
    Build,
    /// A builder guest compiling a release for `dist`.
    Dist,
    /// A builder guest compiling the test suite for a run in another guest.
    Suite,
}

pub open spec fn reason_label(r: StartReason) -> Seq<char> {
    match r {
        StartReason::Run => "test run"@,
        StartReason::Keep => "kept after a test run (--keep)"@,
        StartReason::Up => "interactive (vm up)"@,
        StartReason::Build => "image build (vm build-image)"@,
        StartReason::Dist => "release build (dist)"@,
        StartReason::Suite => "test suite build"@,
    }
}

/// What taking a guest down costs beyond the guest itself, for the reasons
/// whose work would be lost: an install that is not an image yet, and a
/// release build in progress.
pub open spec fn cost_of_ending_spec(r: StartReason) -> Option<Seq<char>> {
    match r {
        StartReason::Build => Some("ends the image build, and the next one starts over from the media"@),
        StartReason::Dist => Some("ends the release build in it, and the next one compiles from the start"@),
        _ => None,
    }
}

impl StartReason {
    pub fn label(self) -> (r: &'static str)
        ensures
            r@ == reason_label(self),
    {
        match self {
            StartReason::Run => "test run",
            StartReason::Keep => "kept after a test run (--keep)",
            StartReason::Up => "interactive (vm up)",
            StartReason::Build => "image build (vm build-image)",
            StartReason::Dist => "release build (dist)",
            StartReason::Suite => "test suite build",
        }
    }

    /// The clause a refusal or a teardown adds about what ending this guest
    /// throws away, where that is more than the guest.
    pub fn cost_of_ending(self) -> (r: Option<&'static str>)
        ensures
            match cost_of_ending_spec(self) {
                Some(c) => r matches Some(s) && s@ == c,
                None => r is None,
            },
    {
        match self {
            StartReason::Build => Some("ends the image build, and the next one starts over from the media"),
            StartReason::Dist => Some("ends the release build in it, and the next one compiles from the start"),
            _ => None,
        }
    }
}

/// What one running or left-behind VM is, and how to reach it.
#[derive(Debug, Clone, PartialEq, Eq)]
pub struct RunState {
    pub format_version: u32,
    pub target: String,
    /// The image slug, which the target alone does not say once an operating
    /// system has more than one image.
    pub image: String,
    pub provider: String,
    pub vm_name: String,
    pub overlay: String,
    pub ssh_host: String,
    pub ssh_port: u16,
    pub ssh_user: String,
    /// The always-on localhost VNC address of a QEMU guest, if any.
    pub vnc: Option<String>,
    /// One VNC address per screen of a guest with more than one, first first.
    pub vnc_heads: Vec<String>,
    pub qmp_port: Option<u16>,
    /// The QEMU process id. `Hyper-V` guests have none.
    pub pid: Option<u32>,
    pub started_unix: u64,
    pub reason: StartReason,
    /// Whether the guest was shut down on purpose and kept.
    pub stopped: bool,
    /// How many screens the guest was given, when more than one.
    pub screens: Option<u16>,
    /// The desktop and session type a Linux guest was asked to log into.
    pub desktop: Option<String>,
    pub session_type: Option<String>,
    /// Whether the guest was handed over with an enhanced session.
    pub handed_over: bool,
}

/// Whether a record describes something the xtask created: a VM name with the
/// prefix, and a target that is one of ours.
pub open spec fn is_ours_spec(s: RunState) -> bool {
    starts_with_spec(s.vm_name@, VM_NAME_PREFIX@) && (s.target@ == target_slug(Target::Windows)
        || s.target@ == target_slug(Target::Linux))
}

/// Every record a boot writes is one the teardowns recognise as theirs: the
/// name it gives a guest of any image carries the prefix, and the target it
/// records is that image's.
pub proof fn lemma_written_records_are_ours(s: RunState, image: Image)
    requires
        s.vm_name@ == vm_name_spec(image),
        s.target@ == target_slug(image_target(image)),
    ensures
        is_ours_spec(s),
{
    assert(s.vm_name@.subrange(0, VM_NAME_PREFIX@.len() as int) =~= VM_NAME_PREFIX@);
}

pub open spec fn opt_view(o: Option<String>) -> Option<Seq<char>> {
    match o {
        Some(s) => Some(s@),
        None => None,
    }
}

impl RunState {
    /// A fresh record for a guest of `target`, before anything reaches it.
    pub fn new(
        target: Target,
        provider: ProviderKind,
        overlay: String,
        reason: StartReason,
        started_unix: u64,
    ) -> (r: RunState)
        ensures
            r.format_version == STATE_VERSION,
            r.target@ == target_slug(target),
            r.image@ == target_slug(target),
            r.provider@ == provider_name(provider),
            r.vm_name@ == VM_NAME_PREFIX@ + target_slug(target),
            r.overlay == overlay,
            r.ssh_host@ == Seq::<char>::empty(),
            r.ssh_port == 0,
            r.ssh_user@ == Seq::<char>::empty(),
            r.vnc is None,
            r.vnc_heads@.len() == 0,
            r.qmp_port is None,
            r.pid is None,
            r.started_unix == started_unix,
            r.reason == reason,
            !r.stopped,
            r.screens is None,
            r.desktop is None,
            r.session_type is None,
            !r.handed_over,
    {
        let mut vm_name = owned(VM_NAME_PREFIX);
        vm_name.append(target.slug());
        RunState {
            format_version: STATE_VERSION,
            target: owned(target.slug()),
            image: owned(target.slug()),
            provider: owned(provider.name()),
            vm_name,
            overlay,
            ssh_host: String::new(),
            ssh_port: 0,
            ssh_user: String::new(),
            vnc: None,
            vnc_heads: Vec::new(),
            qmp_port: None,
            pid: None,
            started_unix,
            reason,
            stopped: false,
            screens: None,
            desktop: None,
            session_type: None,
            handed_over: false,
        }
    }

    /// The same, for a guest of one image, which names the image as well as
    /// the operating system inside it.
    pub fn for_image(
        image: Image,
        provider: ProviderKind,
        overlay: String,
        reason: StartReason,
        started_unix: u64,
    ) -> (r: RunState)
        ensures
            r.target@ == target_slug(image_target(image)),
            r.image@ == image_slug(image),
            r.provider@ == provider_name(provider),
            r.vm_name@ == vm_name_spec(image),
            r.overlay == overlay,
            r.ssh_port == 0,
            r.vnc is None,
            r.vnc_heads@.len() == 0,
            r.qmp_port is None,
            r.pid is None,
            r.started_unix == started_unix,
            r.reason == reason,
            !r.stopped,
            r.screens is None,
            r.desktop is None,
            r.session_type is None,
            !r.handed_over,
    {
        let mut state = RunState::new(image.target(), provider, overlay, reason, started_unix);
        state.image = owned(image.slug());
        state.vm_name = image.vm_name();
        state
    }

    pub fn provider_kind(&self) -> (r: Option<ProviderKind>)
        ensures
            r == parse_provider_spec(self.provider@),
    {
        ProviderKind::parse(self.provider.as_str())
    }

    /// The image the record names.
    pub fn image(&self) -> (r: Option<Image>)
        ensures
            r == parse_image_spec(self.image@),
    {
        Image::parse(self.image.as_str())
    }

    /// How many screens the guest has: one unless the record says more.
    pub fn screen_count(&self) -> (r: u16)
        ensures
            r == match self.screens {
                Some(n) => if n == 0 {
                    1
                } else {
                    n
                },
                None => 1,
            },
    {
        match self.screens {
            Some(n) => if n == 0 {
                1
            } else {
                n
            },
            None => 1,
        }
    }

    /// Every console address the record holds, first screen first.
    pub fn consoles(&self) -> (r: Vec<String>)
        ensures
            r@ == (if self.vnc_heads@.len() > 0 {
                self.vnc_heads@
            } else {
                match self.vnc {
                    Some(a) => seq![a],
                    None => Seq::empty(),
                }
            }),
    {
        if self.vnc_heads.len() > 0 {
            return self.vnc_heads.clone();
        }
        let mut v = Vec::new();
        match &self.vnc {
            Some(a) => v.push(a.clone()),
            None => {},
        }
        v
    }

    /// The login the record asks for, read back from its two fields.
    pub fn login(&self) -> (r: Option<Login>)
        ensures
            match from_record_spec(opt_view(self.desktop), opt_view(self.session_type)) {
                Some((d, t)) => r matches Some(l) && l.desktop_spec() == d && l.session_type_spec()
                    == t,
                None => r is None,
            },
    {
        let desktop: Option<&str> = match &self.desktop {
            Some(d) => Some(d.as_str()),
            None => None,
        };
        let session_type: Option<&str> = match &self.session_type {
            Some(t) => Some(t.as_str()),
            None => None,
        };
        Login::from_record(desktop, session_type)
    }

    /// Whether this record describes something the xtask created: a VM name
    /// with the prefix, and a target that is one of ours.
    pub fn is_ours(&self) -> (r: bool)
        ensures
            r == is_ours_spec(*self),
    {
        let name = chars_of(self.vm_name.as_str());
        let prefix = chars_of(VM_NAME_PREFIX);
        assert(name@.subrange(0, name.len() as int) == name@);
        let prefixed = vec_starts_with(&name, 0, name.len(), &prefix);
        prefixed && (str_eq(self.target.as_str(), Target::Windows.slug()) || str_eq(
            self.target.as_str(),
            Target::Linux.slug(),
        ))
    }
}

} // verus!
