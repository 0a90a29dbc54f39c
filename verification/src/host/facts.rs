//! What the host looks like: the facts the doctor and the setup command
//! reason about, read out of text that a probe printed.
//!
//! Running the probes is the caller's business; turning what they printed into
//! facts, and the questions asked of the facts, are here.

use vstd::prelude::*;

use crate::paths::{parent_dir, plain_split};
use crate::provider::target::HostOs;
use crate::fmt::{debug_opt_i32, debug_opt_i32_spec};
use crate::runner::{ps_quote, ps_quote_spec, CommandOutput};
use crate::split::{
    eq_ignore_case, lines_of, remove_char, remove_char_spec, replace_all, replace_all_spec,
    split_char, split_spec, strip_prefix, trim2, trim_end2, trim_start2, words, words_spec,
};
use crate::text::{
    chars_of, contains, contains_spec, eq_ic, lines_spec, lower_seq, lowercase, owned, parse_i32,
    parse_i32_spec, parse_u32, parse_uint, parse_uint_spec, split_once2, split_once2_spec,
    starts_with_spec, str_eq, string_of, trim, trim_spec, trim_start, trim_start_spec,
    vec_starts_with, views,
};

verus! {

/// Tools every flow needs, whichever guest is being driven.
pub const REQUIRED_TOOLS: [&'static str; 6] = [
    "qemu-system-x86_64",
    "qemu-img",
    "packer",
    "ssh",
    "scp",
    "ssh-keygen",
];

/// The ISO-building tools Packer looks for, in the order it tries them.
pub const PACKER_ISO_TOOLS: [&'static str; 4] = ["xorriso", "mkisofs", "hdiutil", "oscdimg"];

/// VNC clients tried in order for `vm view` of a QEMU guest.
pub const VNC_VIEWERS: [&'static str; 5] = [
    "vncviewer",
    "tigervnc",
    "remmina",
    "vinagre",
    "TightVNC.Viewer",
];

/// Where the winget QEMU package puts its binaries, off `PATH`.
pub const WINDOWS_QEMU_DIRS: [&'static str; 2] = [
    "C:\\Program Files\\qemu",
    "C:\\Program Files (x86)\\qemu",
];

/// The SID of the local `Hyper-V Administrators` group.
pub const HYPERV_ADMINS_SID: &'static str = "S-1-5-32-578";

/// The optional-feature names the doctor asks about.
pub const FEATURE_HYPERV: &'static str = "Microsoft-Hyper-V-All";

pub const FEATURE_WHPX: &'static str = "HypervisorPlatform";

/// The WSL distribution the Linux guest's binaries are built in.
pub const WSL_DISTRO: &'static str = "Ubuntu-22.04";

/// Whether some entry of `available` is `tool`.
pub open spec fn offered(available: Seq<&str>, tool: Seq<char>) -> bool {
    exists|j: int| 0 <= j < available.len() && (#[trigger] available[j])@ == tool
}

/// Which of the ISO builders Packer would pick from those present: the first
/// of Packer's own list that is there.
pub fn packer_iso_tool<'a>(available: &[&'a str]) -> (r: Option<&'a str>)
    ensures
        match r {
            Some(t) => exists|i: int|
                0 <= i < 4 && t@ == PACKER_ISO_TOOLS@[i]@ && offered(available@, PACKER_ISO_TOOLS@[i]@)
                    && forall|k: int| 0 <= k < i ==> !offered(available@, #[trigger] PACKER_ISO_TOOLS@[k]@),
            None => forall|k: int| 0 <= k < 4 ==> !offered(available@, #[trigger] PACKER_ISO_TOOLS@[k]@),
        },
{
    let mut i: usize = 0;
    while i < 4
        invariant
            i <= 4,
            forall|k: int| 0 <= k < i ==> !offered(available@, #[trigger] PACKER_ISO_TOOLS@[k]@),
        decreases 4 - i,
    {
        let wanted = PACKER_ISO_TOOLS[i];
        let mut j: usize = 0;
        while j < available.len()
            invariant
                i < 4,
                j <= available@.len(),
                wanted == PACKER_ISO_TOOLS@[i as int],
                forall|k: int| 0 <= k < i ==> !offered(available@, #[trigger] PACKER_ISO_TOOLS@[k]@),
                forall|m: int| 0 <= m < j ==> (#[trigger] available@[m])@ != wanted@,
            decreases available@.len() - j,
        {
            if str_eq(available[j], wanted) {
                proof {
                    assert(available@[j as int]@ == PACKER_ISO_TOOLS@[i as int]@);
                    assert(offered(available@, PACKER_ISO_TOOLS@[i as int]@));
                }
                return Some(available[j]);
            }
            j = j + 1;
        }
        i = i + 1;
    }
    None
}

/// `Win32_OptionalFeature.InstallState`.
#[derive(Debug, Clone, Copy, PartialEq, Eq, Structural)]
pub enum FeatureState {
    Enabled,
    Disabled,
    Absent,
    Unknown,
}

pub open spec fn feature_from_code(code: int) -> FeatureState {
    if code == 1 {
        FeatureState::Enabled
    } else if code == 2 {
        FeatureState::Disabled
    } else if code == 3 {
        FeatureState::Absent
    } else {
        FeatureState::Unknown
    }
}

pub open spec fn feature_label(s: FeatureState) -> Seq<char> {
    match s {
        FeatureState::Enabled => "enabled"@,
        FeatureState::Disabled => "disabled"@,
        FeatureState::Absent => "not available on this edition"@,
        FeatureState::Unknown => "could not be determined"@,
    }
}

impl FeatureState {
    pub fn from_code(code: i32) -> (r: FeatureState)
        ensures
            r == feature_from_code(code as int),
    {
        match code {
            1 => FeatureState::Enabled,
            2 => FeatureState::Disabled,
            3 => FeatureState::Absent,
            _ => FeatureState::Unknown,
        }
    }

    pub fn label(self) -> (r: &'static str)
        ensures
            r@ == feature_label(self),
    {
        match self {
            FeatureState::Enabled => "enabled",
            FeatureState::Disabled => "disabled",
            FeatureState::Absent => "not available on this edition",
            FeatureState::Unknown => "could not be determined",
        }
    }
}

/// One WSL distribution as `wsl --list --verbose` reports it.
#[derive(Debug, Clone, PartialEq, Eq)]
pub struct WslDistro {
    pub name: String,
    pub state: String,
    pub version: u32,
}

/// What the Windows probe found.
#[derive(Debug, Clone, PartialEq, Eq)]
pub struct WindowsFacts {
    pub caption: String,
    pub version: String,
    pub sku: u32,
    pub hypervisor_present: bool,
    /// Consulted only when no hypervisor is running: it can read false while
    /// `Hyper-V` owns VT-x.
    pub virtualization_firmware_enabled: Option<bool>,
    /// Each feature asked about and its state; where a name comes twice, the
    /// later entry is the one that counts.
    pub features: Vec<(String, FeatureState)>,
    pub vmms_state: Option<String>,
    pub in_hyperv_admins: bool,
    pub elevated: bool,
    pub wsl_distros: Vec<WslDistro>,
    /// The machine `PATH`.
    pub machine_path: String,
}

impl Default for WindowsFacts {
    fn default() -> (r: WindowsFacts)
        ensures
            r.caption@.len() == 0,
            r.version@.len() == 0,
            r.sku == 0,
            !r.hypervisor_present,
            r.virtualization_firmware_enabled is None,
            r.features@.len() == 0,
            r.vmms_state is None,
            !r.in_hyperv_admins,
            !r.elevated,
            r.wsl_distros@.len() == 0,
            r.machine_path@.len() == 0,
    {
        WindowsFacts {
            caption: String::new(),
            version: String::new(),
            sku: 0,
            hypervisor_present: false,
            virtualization_firmware_enabled: None,
            features: Vec::new(),
            vmms_state: None,
            in_hyperv_admins: false,
            elevated: false,
            wsl_distros: Vec::new(),
            machine_path: String::new(),
        }
    }
}

/// The state recorded for `name`: the last entry with that name, `Unknown`
/// where there is none.
pub open spec fn feature_in(fs: Seq<(String, FeatureState)>, name: Seq<char>) -> FeatureState
    decreases fs.len(),
{
    if fs.len() == 0 {
        FeatureState::Unknown
    } else if fs.last().0@ == name {
        fs.last().1
    } else {
        feature_in(fs.drop_last(), name)
    }
}

/// A Home edition, by SKU (98 to 101) or by name.
pub open spec fn is_home(sku: u32, caption: Seq<char>) -> bool {
    (98 <= sku && sku <= 101) || contains_spec(lower_seq(caption), " home"@)
}

/// A `PATH` entry and a directory name compared the way Windows does:
/// case-insensitively, with trailing separators ignored, the entry trimmed.
pub open spec fn same_dir(entry: Seq<char>, dir: Seq<char>) -> bool {
    eq_ic(trim_end2(trim_spec(entry), '\\', '/'), trim_end2(dir, '\\', '/'))
}

impl WindowsFacts {
    pub fn feature(&self, name: &str) -> (r: FeatureState)
        ensures
            r == feature_in(self.features@, name@),
    {
        let mut i = self.features.len();
        assert(self.features@.take(i as int) =~= self.features@);
        while i > 0
            invariant
                i <= self.features@.len(),
                feature_in(self.features@, name@) == feature_in(self.features@.take(i as int), name@),
            decreases i,
        {
            proof {
                assert(self.features@.take(i as int).drop_last() =~= self.features@.take(i - 1));
                assert(self.features@.take(i as int).last() == self.features@[i - 1]);
            }
            if str_eq(self.features[i - 1].0.as_str(), name) {
                return self.features[i - 1].1;
            }
            i = i - 1;
        }
        FeatureState::Unknown
    }

    /// Whether the edition can run `Hyper-V` at all. Home cannot.
    pub fn edition_supports_hyperv(&self) -> (r: bool)
        ensures
            r == !is_home(self.sku, self.caption@),
    {
        if 98 <= self.sku && self.sku <= 101 {
            return false;
        }
        let lower = lowercase(self.caption.as_str());
        !contains(lower.as_str(), " home")
    }

    /// The distribution with this name, compared without regard to case.
    pub fn distro(&self, name: &str) -> (r: Option<&WslDistro>)
        ensures
            match r {
                Some(d) => exists|i: int|
                    0 <= i < self.wsl_distros@.len() && *d == self.wsl_distros@[i] && eq_ic(
                        self.wsl_distros@[i].name@,
                        name@,
                    ) && forall|k: int|
                        0 <= k < i ==> !eq_ic((#[trigger] self.wsl_distros@[k]).name@, name@),
                None => forall|k: int|
                    0 <= k < self.wsl_distros@.len() ==> !eq_ic(
                        (#[trigger] self.wsl_distros@[k]).name@,
                        name@,
                    ),
            },
    {
        let mut i: usize = 0;
        while i < self.wsl_distros.len()
            invariant
                i <= self.wsl_distros@.len(),
                forall|k: int| 0 <= k < i ==> !eq_ic((#[trigger] self.wsl_distros@[k]).name@, name@),
            decreases self.wsl_distros@.len() - i,
        {
            if eq_ignore_case(self.wsl_distros[i].name.as_str(), name) {
                return Some(&self.wsl_distros[i]);
            }
            i = i + 1;
        }
        None
    }

    /// Whether a directory is already on the machine `PATH`.
    pub fn path_contains(&self, dir: &str) -> (r: bool)
        ensures
            r == exists|i: int|
                0 <= i < split_spec(self.machine_path@, ';').len() && same_dir(
                    #[trigger] split_spec(self.machine_path@, ';')[i],
                    dir@,
                ),
    {
        let entries = split_char(self.machine_path.as_str(), ';');
        let want = trim2(dir, '\\', '/', false, true);
        let mut i: usize = 0;
        while i < entries.len()
            invariant
                i <= entries@.len(),
                views(entries@) == split_spec(self.machine_path@, ';'),
                want@ == trim_end2(dir@, '\\', '/'),
                forall|k: int| 0 <= k < i ==> !same_dir(#[trigger] views(entries@)[k], dir@),
            decreases entries@.len() - i,
        {
            let t = trim(entries[i].as_str());
            let e = trim2(t.as_str(), '\\', '/', false, true);
            if eq_ignore_case(e.as_str(), want.as_str()) {
                assert(same_dir(views(entries@)[i as int], dir@));
                return true;
            }
            i = i + 1;
        }
        false
    }
}

/// What the Linux probes found.
#[derive(Debug, Clone, PartialEq, Eq)]
pub struct LinuxFacts {
    pub pretty_name: String,
    pub kvm_present: bool,
    pub kvm_writable: bool,
    pub groups: Vec<String>,
}

impl Default for LinuxFacts {
    fn default() -> (r: LinuxFacts)
        ensures
            r.pretty_name@.len() == 0,
            !r.kvm_present,
            !r.kvm_writable,
            r.groups@.len() == 0,
    {
        LinuxFacts { pretty_name: String::new(), kvm_present: false, kvm_writable: false, groups: Vec::new() }
    }
}

impl LinuxFacts {
    pub fn in_kvm_group(&self) -> (r: bool)
        ensures
            r == exists|i: int| 0 <= i < self.groups@.len() && (#[trigger] self.groups@[i])@ == "kvm"@,
    {
        let mut i: usize = 0;
        while i < self.groups.len()
            invariant
                i <= self.groups@.len(),
                forall|k: int| 0 <= k < i ==> (#[trigger] self.groups@[k])@ != "kvm"@,
            decreases self.groups@.len() - i,
        {
            if str_eq(self.groups[i].as_str(), "kvm") {
                return true;
            }
            i = i + 1;
        }
        false
    }
}

/// Everything the doctor and the setup command reason about.
#[derive(Debug, Clone, PartialEq, Eq)]
pub struct HostFacts {
    pub os: Option<HostOs>,
    pub description: String,
    pub windows: Option<WindowsFacts>,
    pub linux: Option<LinuxFacts>,
    /// Each tool looked for and where it was found, `None` when it was not;
    /// where a name comes twice, the later entry is the one that counts.
    pub tools: Vec<(String, Option<String>)>,
    pub vnc_viewer: Option<String>,
    /// The ISO builders on `PATH`, of the ones Packer knows how to drive.
    pub iso_tools: Vec<String>,
    /// Free space where the image store lives, or the nearest existing parent.
    pub free_bytes: Option<u64>,
    /// Why the host probe failed, when it did.
    pub probe_error: Option<String>,
}

impl Default for HostFacts {
    fn default() -> (r: HostFacts)
        ensures
            r.os is None,
            r.description@.len() == 0,
            r.windows is None,
            r.linux is None,
            r.tools@.len() == 0,
            r.vnc_viewer is None,
            r.iso_tools@.len() == 0,
            r.free_bytes is None,
            r.probe_error is None,
    {
        HostFacts {
            os: None,
            description: String::new(),
            windows: None,
            linux: None,
            tools: Vec::new(),
            vnc_viewer: None,
            iso_tools: Vec::new(),
            free_bytes: None,
            probe_error: None,
        }
    }
}

/// Where `name` was found: the last entry with that name; `None` where it was
/// not looked for or not found.
pub open spec fn tool_in(ts: Seq<(String, Option<String>)>, name: Seq<char>) -> Option<Seq<char>>
    decreases ts.len(),
{
    if ts.len() == 0 {
        None
    } else if ts.last().0@ == name {
        match ts.last().1 {
            Some(p) => Some(p@),
            None => None,
        }
    } else {
        tool_in(ts.drop_last(), name)
    }
}

impl HostFacts {
    pub fn os(&self) -> (r: HostOs)
        ensures
            r == match self.os {
                Some(h) => h,
                None => HostOs::Other,
            },
    {
        match self.os {
            Some(h) => h,
            None => HostOs::Other,
        }
    }

    pub fn tool(&self, name: &str) -> (r: Option<&str>)
        ensures
            match r {
                Some(p) => tool_in(self.tools@, name@) == Some(p@),
                None => tool_in(self.tools@, name@) is None,
            },
    {
        let mut i = self.tools.len();
        assert(self.tools@.take(i as int) =~= self.tools@);
        while i > 0
            invariant
                i <= self.tools@.len(),
                tool_in(self.tools@, name@) == tool_in(self.tools@.take(i as int), name@),
            decreases i,
        {
            proof {
                assert(self.tools@.take(i as int).drop_last() =~= self.tools@.take(i - 1));
                assert(self.tools@.take(i as int).last() == self.tools@[i - 1]);
            }
            if str_eq(self.tools[i - 1].0.as_str(), name) {
                return match &self.tools[i - 1].1 {
                    Some(p) => Some(p.as_str()),
                    None => None,
                };
            }
            i = i - 1;
        }
        None
    }

    /// The ISO builder Packer would use, if any is present.
    pub fn iso_tool(&self) -> (r: Option<&'static str>)
        ensures
            match r {
                Some(t) => exists|i: int|
                    0 <= i < 4 && t@ == PACKER_ISO_TOOLS@[i]@ && views(self.iso_tools@).contains(
                        PACKER_ISO_TOOLS@[i]@,
                    ) && forall|k: int|
                        0 <= k < i ==> !views(self.iso_tools@).contains(#[trigger] PACKER_ISO_TOOLS@[k]@),
                None => forall|k: int|
                    0 <= k < 4 ==> !views(self.iso_tools@).contains(#[trigger] PACKER_ISO_TOOLS@[k]@),
            },
    {
        let mut i: usize = 0;
        while i < 4
            invariant
                i <= 4,
                forall|k: int|
                    0 <= k < i ==> !views(self.iso_tools@).contains(#[trigger] PACKER_ISO_TOOLS@[k]@),
            decreases 4 - i,
        {
            let wanted = PACKER_ISO_TOOLS[i];
            let mut j: usize = 0;
            while j < self.iso_tools.len()
                invariant
                    i < 4,
                    j <= self.iso_tools@.len(),
                    wanted == PACKER_ISO_TOOLS@[i as int],
                    forall|k: int|
                        0 <= k < i ==> !views(self.iso_tools@).contains(#[trigger] PACKER_ISO_TOOLS@[k]@),
                    forall|m: int| 0 <= m < j ==> (#[trigger] self.iso_tools@[m])@ != wanted@,
                decreases self.iso_tools@.len() - j,
            {
                if str_eq(self.iso_tools[j].as_str(), wanted) {
                    proof {
                        assert(views(self.iso_tools@)[j as int] == wanted@);
                        assert(views(self.iso_tools@).contains(PACKER_ISO_TOOLS@[i as int]@));
                    }
                    return Some(wanted);
                }
                j = j + 1;
            }
            proof {
                assert forall|m: int| 0 <= m < views(self.iso_tools@).len() implies views(
                    self.iso_tools@,
                )[m] != wanted@ by {
                    assert(views(self.iso_tools@)[m] == self.iso_tools@[m]@);
                }
            }
            i = i + 1;
        }
        None
    }
}

/// The probe script. One invocation, one JSON document, no state changed.
/// Lists travel as strings rather than JSON arrays, because Windows
/// `PowerShell` 5.1 collapses a one-element array to a scalar.
pub const WINDOWS_PROBE: &'static str = r#"
$os = Get-CimInstance Win32_OperatingSystem
$cs = Get-CimInstance Win32_ComputerSystem
$cpu = Get-CimInstance Win32_Processor | Select-Object -First 1

$pairs = @()
foreach ($name in @('Microsoft-Hyper-V-All','HypervisorPlatform')) {
  $feature = Get-CimInstance -ClassName Win32_OptionalFeature -Filter "Name='$name'" -ErrorAction SilentlyContinue
  # 4 is Unknown. A query that returned nothing means the question could not
  # be answered, which is a different thing from the feature not existing on
  # this edition, and reporting it as absent sent people to buy Windows Pro.
  $state = if ($feature) { [int]$feature.InstallState } else { 4 }
  $pairs += "$name=$state"
}

$service = Get-Service -Name vmms -ErrorAction SilentlyContinue
$vmms = if ($service) { $service.Status.ToString() } else { '' }

$identity = [Security.Principal.WindowsIdentity]::GetCurrent()
$inHyperV = @($identity.Groups | Where-Object { $_.Value -eq 'S-1-5-32-578' }).Count -gt 0
$principal = New-Object Security.Principal.WindowsPrincipal($identity)
$elevated = $principal.IsInRole([Security.Principal.WindowsBuiltinRole]::Administrator)

$env:WSL_UTF8 = '1'
$wsl = ''
try { $wsl = (& wsl.exe --list --verbose 2>&1 | Out-String) } catch { $wsl = '' }

$free = $null
try {
  $qualifier = Split-Path -Qualifier __STORE__
  $free = (New-Object System.IO.DriveInfo($qualifier + '\')).AvailableFreeSpace
} catch { $free = $null }

[pscustomobject]@{
  caption = [string]$os.Caption
  version = [string]$os.Version
  sku = [int]$os.OperatingSystemSKU
  hypervisor_present = [bool]$cs.HypervisorPresent
  virtualization_firmware_enabled = $cpu.VirtualizationFirmwareEnabled
  features = ($pairs -join ';')
  vmms_state = $vmms
  in_hyperv_admins = $inHyperV
  elevated = $elevated
  wsl_raw = $wsl
  free_bytes = $free
  machine_path = [string][Environment]::GetEnvironmentVariable('Path','Machine')
} | ConvertTo-Json -Compress
"#;

/// The probe script with the store path filled in.
pub fn windows_probe_script(store_root: &str) -> (r: String)
    ensures
        r@ == replace_all_spec(WINDOWS_PROBE@, "__STORE__"@, ps_quote_spec(store_root@)),
{
    let q = ps_quote(store_root);
    proof {
        reveal_strlit("__STORE__");
    }
    replace_all(WINDOWS_PROBE, "__STORE__", q.as_str())
}

pub open spec fn windows_fallbacks(tool: Seq<char>) -> Seq<Seq<char>> {
    let qemu = if starts_with_spec(tool, "qemu"@) {
        seq![
            WINDOWS_QEMU_DIRS@[0]@ + "\\"@ + tool + ".exe"@,
            WINDOWS_QEMU_DIRS@[1]@ + "\\"@ + tool + ".exe"@,
        ]
    } else {
        Seq::empty()
    };
    let known = if tool == "vmconnect"@ {
        seq!["C:\\Windows\\System32\\vmconnect.exe"@]
    } else if tool == "ssh"@ || tool == "scp"@ || tool == "ssh-keygen"@ {
        seq!["C:\\Windows\\System32\\OpenSSH\\"@ + tool + ".exe"@]
    } else if tool == "wsl"@ {
        seq!["C:\\Windows\\System32\\wsl.exe"@]
    } else {
        Seq::empty()
    };
    qemu + known
}

/// Well-known absolute locations for a tool, by name and host: a Windows host
/// has them for QEMU, `vmconnect`, OpenSSH and WSL, another host none.
pub fn fallback_candidates(tool: &str, host: HostOs) -> (r: Vec<String>)
    ensures
        views(r@) == if host == HostOs::Windows {
            windows_fallbacks(tool@)
        } else {
            Seq::empty()
        },
{
    let mut out: Vec<String> = Vec::new();
    if host != HostOs::Windows {
        assert(views(out@) =~= Seq::<Seq<char>>::empty());
        return out;
    }
    let tv = chars_of(tool);
    let q = chars_of("qemu");
    let is_qemu = vec_starts_with(&tv, 0, tv.len(), &q);
    assert(tv@.subrange(0, tv.len() as int) =~= tv@);
    if is_qemu {
        let mut a = owned(WINDOWS_QEMU_DIRS[0]);
        a.append("\\");
        a.append(tool);
        a.append(".exe");
        out.push(a);
        let mut b = owned(WINDOWS_QEMU_DIRS[1]);
        b.append("\\");
        b.append(tool);
        b.append(".exe");
        out.push(b);
    }
    if str_eq(tool, "vmconnect") {
        out.push(owned("C:\\Windows\\System32\\vmconnect.exe"));
    } else if str_eq(tool, "ssh") || str_eq(tool, "scp") || str_eq(tool, "ssh-keygen") {
        let mut p = owned("C:\\Windows\\System32\\OpenSSH\\");
        p.append(tool);
        p.append(".exe");
        out.push(p);
    } else if str_eq(tool, "wsl") {
        out.push(owned("C:\\Windows\\System32\\wsl.exe"));
    }
    assert(views(out@) =~= windows_fallbacks(tool@));
    out
}

pub open spec fn fallbacks_spec(tool: Seq<char>, host: HostOs) -> Seq<Seq<char>> {
    if host == HostOs::Windows {
        windows_fallbacks(tool)
    } else {
        Seq::empty()
    }
}

/// `path` is the executable of `tool` in a Windows directory: some directory
/// on drive `C:`, then the tool's own name with `.exe`.
pub open spec fn exe_of(path: Seq<char>, tool: Seq<char>) -> bool {
    exists|dir: Seq<char>| #[trigger] starts_with_spec(dir, "C:\\"@) && path == dir + tool + ".exe"@
}

/// Only a Windows host has well-known locations for a tool; each is that
/// tool's own executable, somewhere on `C:`; a QEMU tool is looked for first
/// where the QEMU installer puts it; and a tool none of these are known for
/// has none.
pub proof fn lemma_fallbacks_are_the_tools_own(tool: Seq<char>, host: HostOs)
    ensures
        host != HostOs::Windows ==> fallbacks_spec(tool, host).len() == 0,
        forall|i: int|
            0 <= i < fallbacks_spec(tool, host).len() ==> exe_of(#[trigger] fallbacks_spec(tool, host)[i], tool),
        host == HostOs::Windows && starts_with_spec(tool, "qemu"@) ==> fallbacks_spec(tool, host)[0]
            == "C:\\Program Files\\qemu\\"@ + tool + ".exe"@,
        !starts_with_spec(tool, "qemu"@) && tool != "vmconnect"@ && tool != "ssh"@ && tool != "scp"@ && tool
            != "ssh-keygen"@ && tool != "wsl"@ ==> fallbacks_spec(tool, host).len() == 0,
{
    reveal_strlit("C:\\");
    reveal_strlit("C:\\Program Files\\qemu");
    reveal_strlit("C:\\Program Files (x86)\\qemu");
    reveal_strlit("C:\\Program Files\\qemu\\");
    reveal_strlit("\\");
    reveal_strlit("C:\\Windows\\System32\\");
    reveal_strlit("C:\\Windows\\System32\\OpenSSH\\");
    reveal_strlit("C:\\Windows\\System32\\vmconnect.exe");
    reveal_strlit("C:\\Windows\\System32\\wsl.exe");
    reveal_strlit("vmconnect");
    reveal_strlit("wsl");
    reveal_strlit("ssh");
    reveal_strlit("scp");
    reveal_strlit("ssh-keygen");
    reveal_strlit("qemu");
    reveal_strlit(".exe");
    if host == HostOs::Windows {
        let fb = fallbacks_spec(tool, host);
        let q0: Seq<char> = WINDOWS_QEMU_DIRS@[0]@ + "\\"@;
        let q1: Seq<char> = WINDOWS_QEMU_DIRS@[1]@ + "\\"@;
        let sys: Seq<char> = "C:\\Windows\\System32\\"@;
        let ossh: Seq<char> = "C:\\Windows\\System32\\OpenSSH\\"@;
        assert(WINDOWS_QEMU_DIRS@[0] == "C:\\Program Files\\qemu");
        assert(WINDOWS_QEMU_DIRS@[1] == "C:\\Program Files (x86)\\qemu");
        assert(q0.subrange(0, 3) =~= "C:\\"@);
        assert(q1.subrange(0, 3) =~= "C:\\"@);
        assert(sys.subrange(0, 3) =~= "C:\\"@);
        assert(ossh.subrange(0, 3) =~= "C:\\"@);
        assert(starts_with_spec(q0, "C:\\"@));
        assert(starts_with_spec(q1, "C:\\"@));
        assert(starts_with_spec(sys, "C:\\"@));
        assert(starts_with_spec(ossh, "C:\\"@));
        assert(q0 =~= "C:\\Program Files\\qemu\\"@);
        assert forall|i: int| 0 <= i < fb.len() implies exe_of(#[trigger] fb[i], tool) by {
            let qemu_n: int = if starts_with_spec(tool, "qemu"@) { 2 } else { 0 };
            if i < qemu_n {
                if i == 0 {
                    assert(fb[i] =~= q0 + tool + ".exe"@);
                } else {
                    assert(fb[i] =~= q1 + tool + ".exe"@);
                }
            } else if tool == "vmconnect"@ {
                assert(fb[i] =~= sys + tool + ".exe"@);
            } else if tool == "wsl"@ {
                assert(tool[0] == 'w' && "ssh"@[0] == 's' && "scp"@[0] == 's');
                assert(tool.len() != "ssh-keygen"@.len() && tool.len() != "vmconnect"@.len());
                assert(fb[i] =~= sys + tool + ".exe"@);
            } else {
                assert(fb[i] =~= ossh + tool + ".exe"@);
            }
        }
        if starts_with_spec(tool, "qemu"@) {
            assert(fb[0] =~= "C:\\Program Files\\qemu\\"@ + tool + ".exe"@);
        }
    }
}

/// `is_file` answered `answer` when asked about a file at `path`.
pub open spec fn answered_for<E: Fn(&String) -> bool>(is_file: E, path: Seq<char>, answer: bool) -> bool {
    exists|s: String| s@ == path && #[trigger] is_file.ensures((&s,), answer)
}

/// Find a tool: where `PATH` has it (`on_path`, what looking it up answered),
/// and otherwise the first of its well-known locations that is
/// a file (what `is_file` answers), since a package manager may put it there without putting it on
/// `PATH`.
pub fn resolve_tool<E: Fn(&String) -> bool>(tool: &str, host: HostOs, on_path: Option<String>, is_file: &E) -> (r: Option<String>)
    requires
        forall|p: &String| is_file.requires((p,)),
    ensures
        match on_path {
            Some(p) => r == Some(p),
            None => match r {
                Some(found) => exists|i: int|
                    0 <= i < fallbacks_spec(tool@, host).len() && found@ == #[trigger] fallbacks_spec(tool@, host)[i]
                        && answered_for(*is_file, found@, true) && forall|j: int|
                        0 <= j < i ==> answered_for(*is_file, #[trigger] fallbacks_spec(tool@, host)[j], false),
                None => forall|j: int|
                    0 <= j < fallbacks_spec(tool@, host).len() ==> answered_for(
                        *is_file,
                        #[trigger] fallbacks_spec(tool@, host)[j],
                        false,
                    ),
            },
        },
{
    match on_path {
        Some(p) => Some(p),
        None => {
            let candidates = fallback_candidates(tool, host);
            let ghost fb = fallbacks_spec(tool@, host);
            let mut i: usize = 0;
            while i < candidates.len()
                invariant
                    on_path is None,
                    i <= candidates.len(),
                    views(candidates@) == fb,
                    fb == fallbacks_spec(tool@, host),
                    forall|p: &String| is_file.requires((p,)),
                    forall|j: int| 0 <= j < i ==> answered_for(*is_file, #[trigger] fb[j], false),
                decreases candidates.len() - i,
            {
                let here = is_file(&candidates[i]);
                proof {
                    assert(fb[i as int] == candidates@[i as int]@);
                    assert(answered_for(*is_file, fb[i as int], here));
                }
                if here {
                    return Some(owned(candidates[i].as_str()));
                }
                i = i + 1;
            }
            None
        },
    }
}

/// `chain` walks up from `path`: it starts there, each entry is a strictly
/// shorter leading part of the one before, and where the one before is a plain
/// path, it is that path's parent.
pub open spec fn walks_up(chain: Seq<Seq<char>>, path: Seq<char>) -> bool {
    &&& chain.len() > 0
    &&& chain[0] == path
    &&& forall|k: int|
        0 <= k < chain.len() - 1 ==> (#[trigger] chain[k + 1]).len() < chain[k].len() && chain[k + 1]
            == chain[k].take(chain[k + 1].len() as int) && (plain_split(chain[k]) matches Some((d, _))
            ==> chain[k + 1] == d)
}

/// The deepest existing directory at or above `path`, asking `is_dir` of each
/// in turn, from `path` itself up through its parents: a store that has never
/// been created still sits on a filesystem whose free space is the answer.
/// Where nothing answered, the walk ended at a path with no parent: for a
/// plain path that is never the case, so a walk only stops short at a root, an
/// empty path, or a path the platform reads in its own way.
pub fn existing_ancestor<E: Fn(&String) -> bool>(path: &str, is_dir: &E) -> (r: Option<String>)
    requires
        forall|p: &String| is_dir.requires((p,)),
    ensures
        exists|chain: Seq<Seq<char>>|
            {
                &&& walks_up(chain, path@)
                &&& forall|k: int|
                    0 <= k < chain.len() - 1 ==> answered_for(*is_dir, #[trigger] chain[k], false)
                &&& match r {
                    Some(a) => a@ == chain.last() && answered_for(*is_dir, a@, true),
                    None => answered_for(*is_dir, chain.last(), false) && plain_split(chain.last()) is None,
                }
            },
{
    let mut here = owned(path);
    let ghost mut chain: Seq<Seq<char>> = seq![path@];
    loop
        invariant
            forall|p: &String| is_dir.requires((p,)),
            walks_up(chain, path@),
            here@ == chain.last(),
            forall|k: int| 0 <= k < chain.len() - 1 ==> answered_for(*is_dir, #[trigger] chain[k], false),
        decreases here@.len(),
    {
        let found = is_dir(&here);
        proof {
            assert(answered_for(*is_dir, here@, found));
        }
        if found {
            return Some(here);
        }
        match parent_dir(here.as_str()) {
            Some(up) => {
                proof {
                    let before = chain;
                    chain = chain.push(up@);
                    assert forall|k: int| 0 <= k < chain.len() - 1 implies (#[trigger] chain[k + 1]).len()
                        < chain[k].len() && chain[k + 1] == chain[k].take(chain[k + 1].len() as int) && (
                    plain_split(chain[k]) matches Some((d, _)) ==> chain[k + 1] == d) by {
                        if k < before.len() - 1 {
                            assert(chain[k] == before[k] && chain[k + 1] == before[k + 1]);
                        } else {
                            assert(chain[k] == before.last() && chain[k + 1] == up@);
                        }
                    }
                    assert forall|k: int| 0 <= k < chain.len() - 1 implies answered_for(
                        *is_dir,
                        #[trigger] chain[k],
                        false,
                    ) by {
                        if k < before.len() - 1 {
                            assert(chain[k] == before[k]);
                        }
                    }
                }
                here = up;
            },
            None => {
                return None;
            },
        }
    }
}

/// What the Windows host probe came to: the line describing the host, the
/// free space, the facts, or why there are none.
#[derive(Debug, Clone, PartialEq, Eq)]
pub struct ProbeFacts {
    pub description: String,
    pub free_bytes: Option<u64>,
    pub windows: Option<WindowsFacts>,
    pub probe_error: Option<String>,
}

/// Why a probe whose output could not be read failed: the reader's reason,
/// with the probe's stderr beside it where it wrote any, since a script read
/// from stdin reports success even when it died on its first statement.
pub open spec fn unreadable_probe_spec(reason: Seq<char>, stderr: Seq<char>) -> Seq<char> {
    if trim_spec(stderr).len() == 0 {
        reason
    } else {
        reason + " (stderr: "@ + trim_spec(stderr) + ")"@
    }
}

/// What running the probe gave, as facts: `run` is how the run went, and
/// `read` what reading its trimmed output as the probe's document gave, which
/// counts only where the run succeeded.
pub fn probe_facts(run: &Result<CommandOutput, String>, read: Result<(WindowsFacts, Option<u64>), String>) -> (r: ProbeFacts)
    ensures
        match run {
            Err(e) => r.description@.len() == 0 && r.free_bytes is None && r.windows is None && r.probe_error is Some && r.probe_error->0@ == "cannot run powershell.exe: "@ + e@,
            Ok(out) => if out.code != Some(0i32) {
                r.description@.len() == 0 && r.free_bytes is None && r.windows is None && r.probe_error is Some
                    && r.probe_error->0@ == "the host probe failed (exit "@ + debug_opt_i32_spec(out.code) + "): "@
                    + trim_spec(out.stderr@)
            } else {
                match read {
                    Ok((w, free)) => r.description@ == w.caption@ + " "@ + w.version@ && r.free_bytes == free
                        && r.windows == Some(w) && r.probe_error is None,
                    Err(e) => r.description@.len() == 0 && r.free_bytes is None && r.windows is None
                        && r.probe_error is Some && r.probe_error->0@ == unreadable_probe_spec(e@, out.stderr@),
                }
            },
        },
{
    match run {
        Err(e) => {
            let mut m = owned("cannot run powershell.exe: ");
            m.append(e.as_str());
            ProbeFacts { description: String::new(), free_bytes: None, windows: None, probe_error: Some(m) }
        },
        Ok(out) => {
            if !out.success() {
                let mut m = owned("the host probe failed (exit ");
                m.append(debug_opt_i32(out.code).as_str());
                m.append("): ");
                m.append(trim(out.stderr.as_str()).as_str());
                return ProbeFacts { description: String::new(), free_bytes: None, windows: None, probe_error: Some(m) };
            }
            match read {
                Ok((w, free)) => {
                    let mut d = owned(w.caption.as_str());
                    d.append(" ");
                    d.append(w.version.as_str());
                    ProbeFacts { description: d, free_bytes: free, windows: Some(w), probe_error: None }
                },
                Err(e) => {
                    let stderr = trim(out.stderr.as_str());
                    let m = if stderr.unicode_len() == 0 {
                        e
                    } else {
                        let mut m = e;
                        m.append(" (stderr: ");
                        m.append(stderr.as_str());
                        m.append(")");
                        m
                    };
                    ProbeFacts { description: String::new(), free_bytes: None, windows: None, probe_error: Some(m) }
                },
            }
        },
    }
}

/// How a Linux host describes itself: its `PRETTY_NAME`, or `Linux` where
/// `os-release` gave none.
pub fn linux_description(pretty_name: &str) -> (r: String)
    ensures
        r@ == (if pretty_name@.len() == 0 {
            "Linux"@
        } else {
            pretty_name@
        }),
{
    if pretty_name.unicode_len() == 0 {
        owned("Linux")
    } else {
        owned(pretty_name)
    }
}

/// The groups `id -nG` named, or none where it failed or could not run.
pub fn groups_from(run: &Result<CommandOutput, String>) -> (r: Vec<String>)
    ensures
        views(r@) == match run {
            Ok(out) => if out.code == Some(0i32) {
                words_spec(trim_spec(out.stdout@))
            } else {
                Seq::empty()
            },
            Err(_) => Seq::empty(),
        },
{
    match run {
        Ok(out) => {
            if out.success() {
                let t = out.trimmed();
                words(t.as_str())
            } else {
                Vec::new()
            }
        },
        Err(_) => Vec::new(),
    }
}

pub open spec fn tools_to_resolve_spec(host: HostOs) -> Seq<Seq<char>> {
    let required = REQUIRED_TOOLS@.map_values(|t: &'static str| t@);
    if host == HostOs::Windows {
        required + seq!["wsl"@, "vmconnect"@]
    } else {
        required
    }
}

/// The tools looked for on this host, in order: the ones every flow needs,
/// and on Windows also `wsl` and `vmconnect`.
pub fn tools_to_resolve(host: HostOs) -> (r: Vec<String>)
    ensures
        views(r@) == tools_to_resolve_spec(host),
{
    let mut out: Vec<String> = Vec::new();
    let mut i: usize = 0;
    while i < 6
        invariant
            i <= 6,
            views(out@) == REQUIRED_TOOLS@.map_values(|t: &'static str| t@).take(i as int),
        decreases 6 - i,
    {
        let ghost before = views(out@);
        out.push(owned(REQUIRED_TOOLS[i]));
        assert(views(out@) =~= before.push(REQUIRED_TOOLS@[i as int]@));
        assert(REQUIRED_TOOLS@.map_values(|t: &'static str| t@).take(i + 1) =~= REQUIRED_TOOLS@.map_values(
            |t: &'static str| t@,
        ).take(i as int).push(REQUIRED_TOOLS@[i as int]@));
        i = i + 1;
    }
    assert(REQUIRED_TOOLS@.map_values(|t: &'static str| t@).take(6) =~= REQUIRED_TOOLS@.map_values(
        |t: &'static str| t@,
    ));
    if host == HostOs::Windows {
        let ghost before = views(out@);
        out.push(owned("wsl"));
        out.push(owned("vmconnect"));
        assert(views(out@) =~= before + seq!["wsl"@, "vmconnect"@]);
    }
    out
}

/// The first viewer that was found, in the order they were looked for.
pub open spec fn first_found(found: Seq<Option<Seq<char>>>) -> Option<Seq<char>>
    decreases found.len(),
{
    if found.len() == 0 {
        None
    } else if found[0] is Some {
        found[0]
    } else {
        first_found(found.drop_first())
    }
}

/// Where a viewer was found, as text.
pub open spec fn found_view(o: Option<String>) -> Option<Seq<char>> {
    match o {
        Some(s) => Some(s@),
        None => None,
    }
}

/// The ISO tools whose flag says `PATH` has them, in Packer's order.
pub open spec fn iso_on_path_spec(on_path: Seq<bool>, k: int) -> Seq<Seq<char>>
    decreases k,
{
    if k <= 0 {
        Seq::empty()
    } else {
        let before = iso_on_path_spec(on_path, k - 1);
        if on_path[k - 1] {
            before.push(PACKER_ISO_TOOLS@[k - 1]@)
        } else {
            before
        }
    }
}

/// Everything gathered about the host, put together: the tools as they were
/// resolved, the first VNC viewer found, the ISO tools `PATH` has (only a real
/// `PATH` hit counts, since Packer looks there itself), and per host what its
/// own probe found: for Windows what the probe came to, for Linux its own facts
/// and the free space at the store, and for any other host only its name.
pub fn facts_from(
    host: HostOs,
    tools: Vec<(String, Option<String>)>,
    viewers: &Vec<Option<String>>,
    iso_on_path: [bool; 4],
    probe: Option<ProbeFacts>,
    linux: Option<(LinuxFacts, Option<u64>)>,
    os_name: &str,
) -> (r: HostFacts)
    ensures
        r.os == Some(host),
        r.tools == tools,
        found_view(r.vnc_viewer) == first_found(viewers@.map_values(|o: Option<String>| found_view(o))),
        views(r.iso_tools@) == iso_on_path_spec(iso_on_path@, 4),
        match host {
            HostOs::Windows => match probe {
                Some(p) => r.description == p.description && r.free_bytes == p.free_bytes && r.windows
                    == p.windows && r.probe_error == p.probe_error && r.linux is None,
                None => r.description@.len() == 0 && r.free_bytes is None && r.windows is None
                    && r.probe_error is None && r.linux is None,
            },
            HostOs::Linux => match linux {
                Some((l, free)) => r.description@ == (if l.pretty_name@.len() == 0 {
                    "Linux"@
                } else {
                    l.pretty_name@
                }) && r.linux == Some(l) && r.free_bytes == free && r.windows is None && r.probe_error is None,
                None => r.description@.len() == 0 && r.linux is None && r.free_bytes is None && r.windows is None
                    && r.probe_error is None,
            },
            HostOs::Other => r.description@ == os_name@ && r.windows is None && r.linux is None
                && r.free_bytes is None && r.probe_error is None,
        },
{
    let ghost fv = viewers@.map_values(|o: Option<String>| found_view(o));
    let mut viewer: Option<String> = None;
    let mut i: usize = 0;
    assert(fv.skip(0) =~= fv);
    while i < viewers.len()
        invariant
            i <= viewers@.len(),
            fv == viewers@.map_values(|o: Option<String>| found_view(o)),
            viewer is None ==> first_found(fv) == first_found(fv.skip(i as int)),
            viewer is Some ==> found_view(viewer) == first_found(fv),
        decreases viewers@.len() - i,
    {
        if viewer.is_none() {
            proof {
                assert(fv.skip(i as int).drop_first() =~= fv.skip(i + 1));
                assert(fv.skip(i as int)[0] == found_view(viewers@[i as int]));
            }
            match &viewers[i] {
                Some(v) => {
                    viewer = Some(owned(v.as_str()));
                },
                None => {},
            }
        }
        i = i + 1;
    }
    proof {
        assert(fv.skip(viewers@.len() as int) =~= Seq::<Option<Seq<char>>>::empty());
    }
    let mut iso: Vec<String> = Vec::new();
    let mut k: usize = 0;
    while k < 4
        invariant
            k <= 4,
            views(iso@) == iso_on_path_spec(iso_on_path@, k as int),
        decreases 4 - k,
    {
        if iso_on_path[k] {
            let ghost before = views(iso@);
            iso.push(owned(PACKER_ISO_TOOLS[k]));
            assert(views(iso@) =~= before.push(PACKER_ISO_TOOLS@[k as int]@));
        }
        k = k + 1;
    }
    let mut r = HostFacts {
        os: Some(host),
        description: String::new(),
        windows: None,
        linux: None,
        tools,
        vnc_viewer: viewer,
        iso_tools: iso,
        free_bytes: None,
        probe_error: None,
    };
    match host {
        HostOs::Windows => {
            if let Some(p) = probe {
                r.description = p.description;
                r.free_bytes = p.free_bytes;
                r.windows = p.windows;
                r.probe_error = p.probe_error;
            }
        },
        HostOs::Linux => {
            if let Some((l, free)) = linux {
                r.description = linux_description(l.pretty_name.as_str());
                r.linux = Some(l);
                r.free_bytes = free;
            }
        },
        HostOs::Other => {
            r.description = owned(os_name);
        },
    }
    r
}

// ---------------------------------------------------------------------------
// Reading what the probes printed
// ---------------------------------------------------------------------------

/// One `key=value` piece, trimmed, when it has an `=` and a key.
pub open spec fn pair_of(piece: Seq<char>) -> Option<(Seq<char>, Seq<char>)> {
    match split_once2_spec(piece, '=', '=') {
        Some((k, v)) => if trim_spec(k).len() > 0 {
            Some((trim_spec(k), trim_spec(v)))
        } else {
            None
        },
        None => None,
    }
}

pub open spec fn pairs_spec(pieces: Seq<Seq<char>>) -> Seq<(Seq<char>, Seq<char>)>
    decreases pieces.len(),
{
    if pieces.len() == 0 {
        Seq::empty()
    } else {
        let rest = pairs_spec(pieces.drop_last());
        match pair_of(pieces.last()) {
            Some(p) => rest.push(p),
            None => rest,
        }
    }
}

pub open spec fn string_pair(p: (String, String)) -> (Seq<char>, Seq<char>) {
    (p.0@, p.1@)
}

/// Split an `a=1;b=2` string, tolerating blanks and stray separators.
pub fn parse_pairs(text: &str) -> (r: Vec<(String, String)>)
    ensures
        r@.map_values(|p: (String, String)| string_pair(p)) == pairs_spec(split_spec(text@, ';')),
{
    let pieces = split_char(text, ';');
    let ghost pv = views(pieces@);
    let mut out: Vec<(String, String)> = Vec::new();
    let mut i: usize = 0;
    while i < pieces.len()
        invariant
            i <= pieces@.len(),
            pv == views(pieces@),
            out@.map_values(|p: (String, String)| string_pair(p)) == pairs_spec(pv.take(i as int)),
        decreases pieces@.len() - i,
    {
        proof {
            assert(pv.take(i + 1).drop_last() =~= pv.take(i as int));
            assert(pv.take(i + 1).last() == pieces@[i as int]@);
        }
        let v = chars_of(pieces[i].as_str());
        assert(v@.subrange(0, v.len() as int) =~= v@);
        let ghost before = out@.map_values(|p: (String, String)| string_pair(p));
        match split_once2(&v, 0, v.len(), '=', '=') {
            Some(at) => {
                let k0 = string_of(&v, 0, at);
                let k = trim(k0.as_str());
                if k.as_str().unicode_len() > 0 {
                    let v0 = string_of(&v, at + 1, v.len());
                    let val = trim(v0.as_str());
                    out.push((k, val));
                    assert(out@.map_values(|p: (String, String)| string_pair(p)) =~= before.push(
                        pair_of(pv[i as int])->0,
                    ));
                }
            },
            None => {},
        }
        i = i + 1;
        assert(out@.map_values(|p: (String, String)| string_pair(p)) =~= pairs_spec(pv.take(i as int)));
    }
    assert(pv.take(pieces@.len() as int) =~= pv);
    out
}

/// A line of `wsl --list --verbose`, read as name, state and version, once
/// the `*` default marker is gone; the header and anything that is not a
/// table row read as nothing.
pub open spec fn wsl_row(line: Seq<char>) -> Option<(Seq<char>, Seq<char>, nat)> {
    let l = trim_spec(trim_start2(trim_start_spec(line), '*', '*'));
    let f = words_spec(l);
    if l.len() == 0 || starts_with_spec(l, "NAME"@) || f.len() == 0 {
        None
    } else {
        let name = f[0];
        let state = if f.len() > 1 {
            f[1]
        } else {
            Seq::empty()
        };
        let version: nat = if f.len() > 2 {
            match parse_uint_spec(f[2], 0xffff_ffff) {
                Some(v) => v,
                None => 0,
            }
        } else {
            0
        };
        if !contains_spec(name, ":"@) && version > 0 {
            Some((name, state, version))
        } else {
            None
        }
    }
}

pub open spec fn wsl_rows(lines: Seq<Seq<char>>) -> Seq<(Seq<char>, Seq<char>, nat)>
    decreases lines.len(),
{
    if lines.len() == 0 {
        Seq::empty()
    } else {
        let rest = wsl_rows(lines.drop_last());
        match wsl_row(lines.last()) {
            Some(d) => rest.push(d),
            None => rest,
        }
    }
}

pub open spec fn distro_view(d: WslDistro) -> (Seq<char>, Seq<char>, nat) {
    (d.name@, d.state@, d.version as nat)
}

fn wsl_row_of(line: &str) -> (r: Option<WslDistro>)
    ensures
        match r {
            Some(d) => wsl_row(line@) == Some(distro_view(d)),
            None => wsl_row(line@) is None,
        },
{
    let a = trim_start(line);
    let b = trim2(a.as_str(), '*', '*', true, false);
    let l = trim(b.as_str());
    let f = words(l.as_str());
    let lv = chars_of(l.as_str());
    let nv = chars_of("NAME");
    let header = vec_starts_with(&lv, 0, lv.len(), &nv);
    assert(lv@.subrange(0, lv.len() as int) =~= lv@);
    if lv.len() == 0 || header || f.len() == 0 {
        return None;
    }
    let name = owned(f[0].as_str());
    let state = if f.len() > 1 {
        owned(f[1].as_str())
    } else {
        String::new()
    };
    let version: u32 = if f.len() > 2 {
        match parse_u32(f[2].as_str()) {
            Some(v) => v,
            None => 0,
        }
    } else {
        0
    };
    assert(views(f@)[0] == f@[0]@);
    if f.len() > 1 {
        assert(views(f@)[1] == f@[1]@);
    }
    if f.len() > 2 {
        assert(views(f@)[2] == f@[2]@);
    }
    if !contains(name.as_str(), ":") && version > 0 {
        Some(WslDistro { name, state, version })
    } else {
        None
    }
}

/// Parse `wsl --list --verbose` output, any NUL bytes of a UTF-16 stream
/// taken out first.
pub fn parse_wsl_list(text: &str) -> (r: Vec<WslDistro>)
    ensures
        r@.map_values(|d: WslDistro| distro_view(d)) == wsl_rows(lines_spec(remove_char_spec(text@, '\0'))),
{
    let clean = remove_char(text, '\0');
    let lines = lines_of(clean.as_str());
    let ghost lv = views(lines@);
    let mut out: Vec<WslDistro> = Vec::new();
    let mut i: usize = 0;
    while i < lines.len()
        invariant
            i <= lines@.len(),
            lv == views(lines@),
            out@.map_values(|d: WslDistro| distro_view(d)) == wsl_rows(lv.take(i as int)),
        decreases lines@.len() - i,
    {
        proof {
            assert(lv.take(i + 1).drop_last() =~= lv.take(i as int));
            assert(lv.take(i + 1).last() == lines@[i as int]@);
        }
        let ghost before = out@.map_values(|d: WslDistro| distro_view(d));
        match wsl_row_of(lines[i].as_str()) {
            Some(d) => {
                out.push(d);
                assert(out@.map_values(|d: WslDistro| distro_view(d)) =~= before.push(
                    wsl_row(lv[i as int])->0,
                ));
            },
            None => {},
        }
        i = i + 1;
        assert(out@.map_values(|d: WslDistro| distro_view(d)) =~= wsl_rows(lv.take(i as int)));
    }
    assert(lv.take(lines@.len() as int) =~= lv);
    out
}

/// The value of the first `PRETTY_NAME=` line, trimmed and unquoted.
pub open spec fn pretty_name_in(lines: Seq<Seq<char>>) -> Option<Seq<char>>
    decreases lines.len(),
{
    if lines.len() == 0 {
        None
    } else if starts_with_spec(lines[0], "PRETTY_NAME="@) {
        Some(trim_end2(trim_start2(trim_spec(lines[0].skip(12)), '"', '"'), '"', '"'))
    } else {
        pretty_name_in(lines.drop_first())
    }
}

/// `PRETTY_NAME` from `/etc/os-release`.
pub fn parse_os_release_pretty_name(text: &str) -> (r: Option<String>)
    ensures
        match r {
            Some(n) => pretty_name_in(lines_spec(text@)) == Some(n@),
            None => pretty_name_in(lines_spec(text@)) is None,
        },
{
    let lines = lines_of(text);
    let ghost lv = views(lines@);
    let mut i: usize = 0;
    assert(lv.skip(0) =~= lv);
    while i < lines.len()
        invariant
            i <= lines@.len(),
            lv == views(lines@),
            lv == lines_spec(text@),
            pretty_name_in(lv) == pretty_name_in(lv.skip(i as int)),
        decreases lines@.len() - i,
    {
        proof {
            assert(lv.skip(i as int)[0] == lines@[i as int]@);
            assert(lv.skip(i as int).drop_first() =~= lv.skip(i + 1));
        }
        match strip_prefix(lines[i].as_str(), "PRETTY_NAME=") {
            Some(value) => {
                proof {
                    reveal_strlit("PRETTY_NAME=");
                    assert("PRETTY_NAME="@.len() == 12);
                    assert(starts_with_spec(lv.skip(i as int)[0], "PRETTY_NAME="@));
                }
                let t = trim(value.as_str());
                let n = trim2(t.as_str(), '"', '"', true, true);
                proof {
                    let first = lv.skip(i as int)[0];
                    assert(lv.skip(i as int).len() > 0);
                    assert(value@ == first.skip(12));
                    assert(pretty_name_in(lv.skip(i as int)) == Some(
                        trim_end2(trim_start2(trim_spec(first.skip(12)), '"', '"'), '"', '"'),
                    ));
                }
                return Some(n);
            },
            None => {},
        }
        i = i + 1;
    }
    assert(lv.skip(lines@.len() as int) =~= Seq::<Seq<char>>::empty());
    None
}

/// The `Available` column of `df -kP`, in bytes: the fourth field of the
/// second line, in KiB; nothing where it is missing, not a number, or too
/// large to count in bytes.
pub open spec fn df_available(text: Seq<char>) -> Option<nat> {
    let ls = lines_spec(text);
    if ls.len() < 2 {
        None
    } else {
        let w = words_spec(ls[1]);
        if w.len() < 4 {
            None
        } else {
            match parse_uint_spec(w[3], 0xffff_ffff_ffff_ffff) {
                Some(v) => if v * 1024 <= 0xffff_ffff_ffff_ffff {
                    Some(v * 1024)
                } else {
                    None
                },
                None => None,
            }
        }
    }
}

pub fn parse_df_available_bytes(text: &str) -> (r: Option<u64>)
    ensures
        match r {
            Some(b) => df_available(text@) == Some(b as nat),
            None => df_available(text@) is None,
        },
{
    let lines = lines_of(text);
    if lines.len() < 2 {
        return None;
    }
    assert(views(lines@)[1] == lines@[1]@);
    let w = words(lines[1].as_str());
    if w.len() < 4 {
        return None;
    }
    assert(views(w@)[3] == w@[3]@);
    let v = chars_of(w[3].as_str());
    assert(v@.subrange(0, v.len() as int) =~= v@);
    match parse_uint(&v, 0, v.len(), 0xffff_ffff_ffff_ffff) {
        Some(kib) => kib.checked_mul(1024),
        None => None,
    }
}

/// The probe's document as read, each field at its default where the
/// document did not carry it.
#[derive(Debug, Clone, PartialEq, Eq)]
pub struct RawWindowsFacts {
    pub caption: String,
    pub version: String,
    pub sku: u32,
    pub hypervisor_present: bool,
    pub virtualization_firmware_enabled: Option<bool>,
    /// `name=state;name=state`, each state an `InstallState` number.
    pub features: String,
    pub vmms_state: String,
    pub in_hyperv_admins: bool,
    pub elevated: bool,
    pub wsl_raw: String,
    pub free_bytes: Option<u64>,
    pub machine_path: String,
}

/// A feature's state as the probe wrote it: its number, `Unknown` where it is
/// not one.
pub open spec fn feature_of_text(t: Seq<char>) -> FeatureState {
    match parse_i32_spec(t) {
        Some(c) => feature_from_code(c),
        None => FeatureState::Unknown,
    }
}

pub open spec fn feature_entry(p: (String, FeatureState)) -> (Seq<char>, FeatureState) {
    (p.0@, p.1)
}

/// The facts a probe document stands for, with the free-space figure beside
/// them: texts trimmed, an empty service state read as none, the feature
/// pairs and the WSL table parsed.
pub fn windows_facts_from(raw: &RawWindowsFacts) -> (r: (WindowsFacts, Option<u64>))
    ensures
        r.0.caption@ == trim_spec(raw.caption@),
        r.0.version@ == trim_spec(raw.version@),
        r.0.sku == raw.sku,
        r.0.hypervisor_present == raw.hypervisor_present,
        r.0.virtualization_firmware_enabled == raw.virtualization_firmware_enabled,
        r.0.features@.map_values(|p: (String, FeatureState)| feature_entry(p)) == pairs_spec(
            split_spec(raw.features@, ';'),
        ).map_values(|p: (Seq<char>, Seq<char>)| (p.0, feature_of_text(p.1))),
        match r.0.vmms_state {
            Some(s) => s@ == trim_spec(raw.vmms_state@) && s@.len() > 0,
            None => trim_spec(raw.vmms_state@).len() == 0,
        },
        r.0.in_hyperv_admins == raw.in_hyperv_admins,
        r.0.elevated == raw.elevated,
        r.0.wsl_distros@.map_values(|d: WslDistro| distro_view(d)) == wsl_rows(
            lines_spec(remove_char_spec(raw.wsl_raw@, '\0')),
        ),
        r.0.machine_path@ == raw.machine_path@,
        r.1 == raw.free_bytes,
{
    let pairs = parse_pairs(raw.features.as_str());
    let ghost pv = pairs@.map_values(|p: (String, String)| string_pair(p));
    let mut features: Vec<(String, FeatureState)> = Vec::new();
    let mut i: usize = 0;
    while i < pairs.len()
        invariant
            i <= pairs@.len(),
            pv == pairs@.map_values(|p: (String, String)| string_pair(p)),
            features@.map_values(|p: (String, FeatureState)| feature_entry(p)) == pv.take(
                i as int,
            ).map_values(|p: (Seq<char>, Seq<char>)| (p.0, feature_of_text(p.1))),
        decreases pairs@.len() - i,
    {
        let v = chars_of(pairs[i].1.as_str());
        assert(v@.subrange(0, v.len() as int) =~= v@);
        let state = match parse_i32(&v, 0, v.len()) {
            Some(c) => FeatureState::from_code(c),
            None => FeatureState::Unknown,
        };
        let ghost before = features@.map_values(|p: (String, FeatureState)| feature_entry(p));
        proof {
            assert(pv[i as int] == string_pair(pairs@[i as int]));
            assert(state == feature_of_text(pv[i as int].1));
            assert(pv.take(i + 1) =~= pv.take(i as int).push(pv[i as int]));
        }
        features.push((owned(pairs[i].0.as_str()), state));
        assert(features@.map_values(|p: (String, FeatureState)| feature_entry(p)) =~= before.push(
            (pv[i as int].0, feature_of_text(pv[i as int].1)),
        ));
        i = i + 1;
        assert(features@.map_values(|p: (String, FeatureState)| feature_entry(p)) =~= pv.take(
            i as int,
        ).map_values(|p: (Seq<char>, Seq<char>)| (p.0, feature_of_text(p.1))));
    }
    assert(pv.take(pairs@.len() as int) =~= pv);
    let vmms = trim(raw.vmms_state.as_str());
    let vmms_state = if vmms.as_str().unicode_len() > 0 {
        Some(vmms)
    } else {
        None
    };
    let facts = WindowsFacts {
        caption: trim(raw.caption.as_str()),
        version: trim(raw.version.as_str()),
        sku: raw.sku,
        hypervisor_present: raw.hypervisor_present,
        virtualization_firmware_enabled: raw.virtualization_firmware_enabled,
        features,
        vmms_state,
        in_hyperv_admins: raw.in_hyperv_admins,
        elevated: raw.elevated,
        wsl_distros: parse_wsl_list(raw.wsl_raw.as_str()),
        machine_path: owned(raw.machine_path.as_str()),
    };
    (facts, raw.free_bytes)
}

/// What a VNC viewer is handed to connect to an address: a `vnc://` URL for
/// the viewer that wants one, the address itself for the rest.
pub fn vnc_viewer_argument(viewer: &str, address: &str) -> (r: String)
    ensures
        r@ == if viewer@ == "krdc"@ {
            "vnc://"@ + address@
        } else {
            address@
        },
{
    if str_eq(viewer, "krdc") {
        let mut r = owned("vnc://");
        r.append(address);
        r
    } else {
        owned(address)
    }
}

} // verus!
