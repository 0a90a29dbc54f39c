//! Guest targets, the images that hold them, host operating systems, and the
//! provider matrix that pairs them.

use vstd::prelude::*;

use crate::text::{owned, str_eq, trim, trim_spec};

verus! {

/// A guest the desktop e2e suite can run in.
#[derive(Debug, Clone, Copy, PartialEq, Eq, Hash, Structural)]
pub enum Target {
    /// The Windows 11 Enterprise evaluation guest.
    Windows,
    /// The Debian 13 guest.
    Linux,
}

pub open spec fn target_slug(t: Target) -> Seq<char> {
    match t {
        Target::Windows => "windows"@,
        Target::Linux => "linux"@,
    }
}

impl Target {
    /// Both targets, in the order reports list them.
    pub fn all() -> (r: Vec<Target>)
        ensures
            r@ == seq![Target::Windows, Target::Linux],
    {
        let mut v = Vec::new();
        v.push(Target::Windows);
        v.push(Target::Linux);
        v
    }

    /// The lowercase name used in paths, VM names, and manifests.
    pub fn slug(self) -> (r: &'static str)
        ensures
            r@ == target_slug(self),
    {
        match self {
            Target::Windows => "windows",
            Target::Linux => "linux",
        }
    }

    /// Read one back out of a record, which stores [`Self::slug`].
    pub fn parse(value: &str) -> (r: Option<Target>)
        ensures
            r == parse_target_spec(value@),
    {
        let v = trim(value);
        if str_eq(v.as_str(), "windows") {
            Some(Target::Windows)
        } else if str_eq(v.as_str(), "linux") {
            Some(Target::Linux)
        } else {
            None
        }
    }
}

pub open spec fn parse_target_spec(s: Seq<char>) -> Option<Target> {
    let t = trim_spec(s);
    if t == "windows"@ {
        Some(Target::Windows)
    } else if t == "linux"@ {
        Some(Target::Linux)
    } else {
        None
    }
}

/// The prefix every VM, overlay directory, and guest artifact the xtask creates
/// carries. Nothing without it is ever stopped, deleted, or reported.
pub const VM_NAME_PREFIX: &'static str = "sunlit-e2e-";

/// An image in the store: a base installed from media, or a layer provisioned
/// over a named parent.
#[derive(Debug, Clone, Copy, PartialEq, Eq, Hash, Structural)]
pub enum Image {
    /// Windows 11 Enterprise evaluation with a desktop session.
    Windows,
    /// Debian 13 with four desktops.
    Linux,
    /// The Windows desktop image plus a build toolchain, as a differencing child
    /// of it.
    WindowsBuilder,
    /// Ubuntu 22.04 with a build toolchain and no graphics stack.
    LinuxBuilder,
}

pub open spec fn image_slug(i: Image) -> Seq<char> {
    match i {
        Image::Windows => "windows"@,
        Image::Linux => "linux"@,
        Image::WindowsBuilder => "windows-builder"@,
        Image::LinuxBuilder => "linux-builder"@,
    }
}

pub open spec fn image_target(i: Image) -> Target {
    match i {
        Image::Windows | Image::WindowsBuilder => Target::Windows,
        Image::Linux | Image::LinuxBuilder => Target::Linux,
    }
}

pub open spec fn image_parent(i: Image) -> Option<Image> {
    match i {
        Image::WindowsBuilder => Some(Image::Windows),
        _ => None,
    }
}

/// All four images, in the order reports list them.
pub open spec fn all_images() -> Seq<Image> {
    seq![Image::Windows, Image::WindowsBuilder, Image::Linux, Image::LinuxBuilder]
}

pub open spec fn image_has_desktop(i: Image) -> bool {
    i != Image::LinuxBuilder
}

pub open spec fn image_is_builder(i: Image) -> bool {
    i == Image::WindowsBuilder || i == Image::LinuxBuilder
}

pub open spec fn image_label(i: Image) -> Seq<char> {
    match i {
        Image::Windows => "Windows 11 desktop guest"@,
        Image::Linux => "Debian 13 desktop guest"@,
        Image::WindowsBuilder => "Windows release builder"@,
        Image::LinuxBuilder => "Ubuntu 22.04 release builder"@,
    }
}

pub open spec fn image_console_label(i: Image) -> Seq<char> {
    if image_has_desktop(i) {
        "desktop"@
    } else {
        "console"@
    }
}

pub open spec fn vm_name_spec(i: Image) -> Seq<char> {
    VM_NAME_PREFIX@ + image_slug(i)
}

pub open spec fn desktop_image(t: Target) -> Image {
    match t {
        Target::Windows => Image::Windows,
        Target::Linux => Image::Linux,
    }
}

pub open spec fn builder_image(t: Target) -> Image {
    match t {
        Target::Windows => Image::WindowsBuilder,
        Target::Linux => Image::LinuxBuilder,
    }
}

pub open spec fn parse_image_spec(s: Seq<char>) -> Option<Image> {
    let t = trim_spec(s);
    if t == "windows"@ {
        Some(Image::Windows)
    } else if t == "windows-builder"@ {
        Some(Image::WindowsBuilder)
    } else if t == "linux"@ {
        Some(Image::Linux)
    } else if t == "linux-builder"@ {
        Some(Image::LinuxBuilder)
    } else {
        None
    }
}

impl Image {
    /// All four, each base followed by its builder.
    pub fn all() -> (r: Vec<Image>)
        ensures
            r@ == all_images(),
    {
        let mut v = Vec::new();
        v.push(Image::Windows);
        v.push(Image::WindowsBuilder);
        v.push(Image::Linux);
        v.push(Image::LinuxBuilder);
        v
    }

    /// The lowercase name used in paths, VM names, manifests and run records.
    pub fn slug(self) -> (r: &'static str)
        ensures
            r@ == image_slug(self),
    {
        match self {
            Image::Windows => "windows",
            Image::Linux => "linux",
            Image::WindowsBuilder => "windows-builder",
            Image::LinuxBuilder => "linux-builder",
        }
    }

    /// The operating system inside it.
    pub fn target(self) -> (r: Target)
        ensures
            r == image_target(self),
    {
        match self {
            Image::Windows | Image::WindowsBuilder => Target::Windows,
            Image::Linux | Image::LinuxBuilder => Target::Linux,
        }
    }

    /// The image this one is a differencing child of, if any.
    pub fn parent(self) -> (r: Option<Image>)
        ensures
            r == image_parent(self),
    {
        match self {
            Image::WindowsBuilder => Some(Image::Windows),
            Image::Windows | Image::Linux | Image::LinuxBuilder => None,
        }
    }

    pub fn is_layer(self) -> (r: bool)
        ensures
            r == image_parent(self).is_some(),
    {
        self.parent().is_some()
    }

    /// The images that are differencing children of this one, in report order.
    pub fn children(self) -> (r: Vec<Image>)
        ensures
            r@ == all_images().filter(|c: Image| image_parent(c) == Some(self)),
    {
        let all = Image::all();
        let mut out: Vec<Image> = Vec::new();
        let mut i: usize = 0;
        while i < all.len()
            invariant
                all@ == all_images(),
                i <= all.len(),
                out@ == all_images().take(i as int).filter(
                    |c: Image| image_parent(c) == Some(self),
                ),
            decreases all.len() - i,
        {
            let image = all[i];
            let ghost pred = |c: Image| image_parent(c) == Some(self);
            proof {
                assert(all_images().take(i + 1).drop_last() == all_images().take(i as int));
                reveal(Seq::filter);
            }
            if image.parent() == Some(self) {
                out.push(image);
            }
            i = i + 1;
        }
        assert(all_images().take(4) == all_images());
        out
    }

    /// The stem of the image's disk files.
    pub fn disk_stem(self) -> (r: &'static str)
        ensures
            r@ == (if image_parent(self).is_some() {
                "layer"@
            } else {
                "golden"@
            }),
    {
        if self.is_layer() {
            "layer"
        } else {
            "golden"
        }
    }

    /// The VM name this image's guest runs under.
    pub fn vm_name(self) -> (r: String)
        ensures
            r@ == vm_name_spec(self),
    {
        let mut r = owned(VM_NAME_PREFIX);
        r.append(self.slug());
        r
    }

    /// Whether this image sits on an evaluation licence that expires.
    pub fn has_eval_expiry(self) -> (r: bool)
        ensures
            r == (image_target(self) == Target::Windows),
    {
        match self {
            Image::Windows | Image::WindowsBuilder => true,
            _ => false,
        }
    }

    /// Whether a desktop session logs on in this image.
    pub fn has_desktop(self) -> (r: bool)
        ensures
            r == image_has_desktop(self),
    {
        match self {
            Image::Windows | Image::Linux | Image::WindowsBuilder => true,
            Image::LinuxBuilder => false,
        }
    }

    /// Whether this is an image a release binary is built in.
    pub fn is_builder(self) -> (r: bool)
        ensures
            r == image_is_builder(self),
    {
        match self {
            Image::WindowsBuilder | Image::LinuxBuilder => true,
            _ => false,
        }
    }

    /// What `vm view` opens for this image.
    pub fn console_label(self) -> (r: &'static str)
        ensures
            r@ == image_console_label(self),
    {
        if self.has_desktop() {
            "desktop"
        } else {
            "console"
        }
    }

    /// The desktop image the e2e suite runs in.
    pub fn desktop(target: Target) -> (r: Image)
        ensures
            r == desktop_image(target),
    {
        match target {
            Target::Windows => Image::Windows,
            Target::Linux => Image::Linux,
        }
    }

    /// The image a release binary for `target` is built in.
    pub fn builder(target: Target) -> (r: Image)
        ensures
            r == builder_image(target),
    {
        match target {
            Target::Windows => Image::WindowsBuilder,
            Target::Linux => Image::LinuxBuilder,
        }
    }

    /// What a report calls this image.
    pub fn label(self) -> (r: &'static str)
        ensures
            r@ == image_label(self),
    {
        match self {
            Image::Windows => "Windows 11 desktop guest",
            Image::Linux => "Debian 13 desktop guest",
            Image::WindowsBuilder => "Windows release builder",
            Image::LinuxBuilder => "Ubuntu 22.04 release builder",
        }
    }

    /// Read one back out of a manifest or a run record.
    pub fn parse(value: &str) -> (r: Option<Image>)
        ensures
            r == parse_image_spec(value@),
    {
        let v = trim(value);
        if str_eq(v.as_str(), "windows") {
            Some(Image::Windows)
        } else if str_eq(v.as_str(), "windows-builder") {
            Some(Image::WindowsBuilder)
        } else if str_eq(v.as_str(), "linux") {
            Some(Image::Linux)
        } else if str_eq(v.as_str(), "linux-builder") {
            Some(Image::LinuxBuilder)
        } else {
            None
        }
    }
}

/// The host this xtask is running on.
#[derive(Debug, Clone, Copy, PartialEq, Eq, Structural)]
pub enum HostOs {
    Windows,
    Linux,
    /// Anything else, macOS in practice.
    Other,
}

pub open spec fn host_name(h: HostOs) -> Seq<char> {
    match h {
        HostOs::Windows => "windows"@,
        HostOs::Linux => "linux"@,
        HostOs::Other => "unsupported"@,
    }
}

impl HostOs {
    pub fn name(self) -> (r: &'static str)
        ensures
            r@ == host_name(self),
    {
        match self {
            HostOs::Windows => "windows",
            HostOs::Linux => "linux",
            HostOs::Other => "unsupported",
        }
    }
}

/// Which hypervisor drives a given guest.
#[derive(Debug, Clone, Copy, PartialEq, Eq, Structural)]
pub enum ProviderKind {
    HyperV,
    Qemu,
}

pub open spec fn provider_name(k: ProviderKind) -> Seq<char> {
    match k {
        ProviderKind::HyperV => "hyperv"@,
        ProviderKind::Qemu => "qemu"@,
    }
}

pub open spec fn parse_provider_spec(s: Seq<char>) -> Option<ProviderKind> {
    let t = crate::text::lower_seq(trim_spec(s));
    if t == "hyperv"@ || t == "hyper-v"@ {
        Some(ProviderKind::HyperV)
    } else if t == "qemu"@ {
        Some(ProviderKind::Qemu)
    } else {
        None
    }
}

impl ProviderKind {
    pub fn name(self) -> (r: &'static str)
        ensures
            r@ == provider_name(self),
    {
        match self {
            ProviderKind::HyperV => "hyperv",
            ProviderKind::Qemu => "qemu",
        }
    }

    /// Parse the `SUNLIT_EARTH_VM_PROVIDER` override.
    pub fn parse(value: &str) -> (r: Option<ProviderKind>)
        ensures
            r == parse_provider_spec(value@),
    {
        let v = crate::text::lowercase(trim(value).as_str());
        if str_eq(v.as_str(), "hyperv") || str_eq(v.as_str(), "hyper-v") {
            Some(ProviderKind::HyperV)
        } else if str_eq(v.as_str(), "qemu") {
            Some(ProviderKind::Qemu)
        } else {
            None
        }
    }
}

/// The provider matrix: `Hyper-V` for the Windows guest on a Windows host,
/// QEMU everywhere else.
pub open spec fn provider_for_spec(host: HostOs, target: Target) -> Option<ProviderKind> {
    match (host, target) {
        (HostOs::Windows, Target::Windows) => Some(ProviderKind::HyperV),
        (HostOs::Windows, Target::Linux) | (HostOs::Linux, _) => Some(ProviderKind::Qemu),
        (HostOs::Other, _) => None,
    }
}

pub fn provider_for(host: HostOs, target: Target) -> (r: Option<ProviderKind>)
    ensures
        r == provider_for_spec(host, target),
{
    match (host, target) {
        (HostOs::Windows, Target::Windows) => Some(ProviderKind::HyperV),
        (HostOs::Windows, Target::Linux) | (HostOs::Linux, _) => Some(ProviderKind::Qemu),
        (HostOs::Other, _) => None,
    }
}

pub open spec fn override_refusal(raw: Seq<char>) -> Seq<char> {
    "SUNLIT_EARTH_VM_PROVIDER="@ + raw + " is not one of: hyperv, qemu"@
}

pub open spec fn no_provider_refusal(host: HostOs, target: Target) -> Seq<char> {
    "no VM provider for a "@ + target_slug(target) + " guest on a "@ + host_name(host)
        + " host; macOS coverage runs on hosted CI runners, not in local VMs"@
}

/// The provider to use, honoring an explicit override.
pub fn resolve_provider(host: HostOs, target: Target, override_value: Option<&str>) -> (r: Result<
    ProviderKind,
    String,
>)
    ensures
        match override_value {
            Some(raw) => match parse_provider_spec(raw@) {
                Some(k) => r == Ok::<ProviderKind, String>(k),
                None => r matches Err(e) && e@ == override_refusal(raw@),
            },
            None => match provider_for_spec(host, target) {
                Some(k) => r == Ok::<ProviderKind, String>(k),
                None => r matches Err(e) && e@ == no_provider_refusal(host, target),
            },
        },
{
    if let Some(raw) = override_value {
        return match ProviderKind::parse(raw) {
            Some(k) => Ok(k),
            None => {
                let mut e = owned("SUNLIT_EARTH_VM_PROVIDER=");
                e.append(raw);
                e.append(" is not one of: hyperv, qemu");
                Err(e)
            },
        };
    }
    match provider_for(host, target) {
        Some(k) => Ok(k),
        None => {
            let mut e = owned("no VM provider for a ");
            e.append(target.slug());
            e.append(" guest on a ");
            e.append(host.name());
            e.append(" host; macOS coverage runs on hosted CI runners, not in local VMs");
            Err(e)
        },
    }
}

/// Every image's slug reads back as that image, every target's as that target,
/// and every hypervisor's name as that hypervisor: what a record or a command
/// line names is what was written into it.
pub proof fn lemma_names_read_back(i: Image, t: Target, k: ProviderKind)
    ensures
        parse_image_spec(image_slug(i)) == Some(i),
        parse_target_spec(target_slug(t)) == Some(t),
        parse_provider_spec(provider_name(k)) == Some(k),
{
    reveal_strlit("windows");
    reveal_strlit("linux");
    reveal_strlit("windows-builder");
    reveal_strlit("linux-builder");
    reveal_strlit("hyperv");
    reveal_strlit("hyper-v");
    reveal_strlit("qemu");
    assert(crate::text::lower_seq("hyperv"@) =~= "hyperv"@);
    assert(crate::text::lower_seq("qemu"@) =~= "qemu"@);
}

/// A target's builder compiles for the operating system it is itself: the
/// desktop image and the builder of a target are both that target's, and only
/// the second is a builder.
pub proof fn lemma_builder_matches_its_target(t: Target)
    ensures
        image_target(desktop_image(t)) == t,
        image_target(builder_image(t)) == t,
        image_is_builder(builder_image(t)),
        !image_is_builder(desktop_image(t)),
        image_has_desktop(desktop_image(t)),
{
}

} // verus!
