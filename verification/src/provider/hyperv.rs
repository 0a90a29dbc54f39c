//! The `Hyper-V` provider's half that is text: the `PowerShell` it runs, the
//! settings it writes for `vmconnect`, and the reading of what came back.
//!
//! Everything here goes through `powershell.exe`; starting it and waiting on
//! it belong to the caller.

use vstd::prelude::*;

use crate::fmt::{debug_opt_i32, debug_opt_i32_spec};
use crate::provider::console::{parse_resolution_spec, RESOLUTION_MAX, RESOLUTION_MIN};
use crate::provider::Stopped;
use crate::runner::{ps_quote, ps_quote_spec, CommandOutput};
use crate::split::{eq_ignore_case, lines_of, split_char, split_spec, strip_prefix};
use crate::text::{
    contains, contains_spec, dec, dec_string, ends_with_spec, eq_ic, lines_spec, owned,
    starts_with_spec, str_eq, trim, trim_spec, views,
};

verus! {

/// The virtual switch every client Windows has out of the box.
pub const SWITCH: &'static str = "Default Switch";

/// How long to wait for the guest to report an address, in seconds.
pub const ADDRESS_TIMEOUT_SECS: u64 = 300;

/// The account the golden image creates.
pub const GUEST_USER: &'static str = "tester";

/// Memory and processors for the guest.
pub const MEMORY_BYTES: u64 = 6442450944;

pub const CPUS: u32 = 4;

/// Overrides the guest console's resolution, as `WxH`.
pub const RESOLUTION_ENV: &'static str = "SUNLIT_EARTH_VM_RESOLUTION";

/// The modes the automatic choice picks from, smallest first: each one is in
/// the list the guest's synthetic adapter advertises.
pub const CONSOLE_MODES: [(u32, u32); 6] = [
    (1024, 768),
    (1280, 800),
    (1440, 900),
    (1600, 900),
    (1680, 1050),
    (1920, 1080),
];

/// Room to leave between the guest's framebuffer and the edges of the host's
/// work area: the window's borders across, its title bar and `vmconnect`'s
/// bars down.
pub const WINDOW_MARGIN: (u32, u32) = (32, 120);

/// Parse a `WxH` resolution, rejecting anything that is not one.
pub fn parse_resolution(value: &str) -> (r: Option<(u32, u32)>)
    ensures
        r == parse_resolution_spec(value@),
{
    crate::provider::console::parse_resolution(value)
}

/// Whether a mode fits inside the work area less the window's furniture.
pub open spec fn fits(mode: (u32, u32), area: (u32, u32)) -> bool {
    mode.0 + WINDOW_MARGIN.0 <= area.0 && mode.1 + WINDOW_MARGIN.1 <= area.1
}

/// The resolution to give a guest's console: what was asked for, outright;
/// else the largest mode that fits the host's work area; else, where the work
/// area is unknown or nothing fits, the smallest mode.
pub open spec fn console_resolution_spec(
    requested: Option<(u32, u32)>,
    area: Option<(u32, u32)>,
) -> (u32, u32) {
    match requested {
        Some(size) => size,
        None => match area {
            None => CONSOLE_MODES@[0],
            Some(a) => if exists|i: int| 0 <= i < 6 && fits(CONSOLE_MODES@[i], a) {
                let i = choose|i: int|
                    0 <= i < 6 && fits(CONSOLE_MODES@[i], a) && forall|k: int|
                        i < k < 6 ==> !fits(#[trigger] CONSOLE_MODES@[k], a);
                CONSOLE_MODES@[i]
            } else {
                CONSOLE_MODES@[0]
            },
        },
    }
}

pub fn console_resolution(requested: Option<(u32, u32)>, host_work_area: Option<(u32, u32)>) -> (r: (
    u32,
    u32,
))
    ensures
        r == console_resolution_spec(requested, host_work_area),
{
    if let Some(size) = requested {
        return size;
    }
    let area = match host_work_area {
        Some(a) => a,
        None => return CONSOLE_MODES[0],
    };
    let width_budget = area.0.saturating_sub(WINDOW_MARGIN.0);
    let height_budget = area.1.saturating_sub(WINDOW_MARGIN.1);
    let mut i: usize = 6;
    while i > 0
        invariant
            i <= 6,
            requested is None,
            host_work_area == Some(area),
            width_budget == if area.0 >= 32 { area.0 - 32 } else { 0 },
            height_budget == if area.1 >= 120 { area.1 - 120 } else { 0 },
            forall|k: int| i <= k < 6 ==> !fits(#[trigger] CONSOLE_MODES@[k], area),
        decreases i,
    {
        let mode = CONSOLE_MODES[i - 1];
        if mode.0 <= width_budget && mode.1 <= height_budget {
            proof {
                let w = i - 1;
                assert(fits(CONSOLE_MODES@[w], area));
                assert(0 <= w < 6 && fits(CONSOLE_MODES@[w], area) && forall|k: int|
                    w < k < 6 ==> !fits(#[trigger] CONSOLE_MODES@[k], area));
                let j = choose|j: int|
                    0 <= j < 6 && fits(CONSOLE_MODES@[j], area) && forall|k: int|
                        j < k < 6 ==> !fits(#[trigger] CONSOLE_MODES@[k], area);
                assert(j == w) by {
                    if j < w {
                        assert(!fits(CONSOLE_MODES@[w], area));
                    }
                    if j > w {
                        assert(!fits(CONSOLE_MODES@[j], area));
                    }
                }
                assert(mode == CONSOLE_MODES@[w]);
                assert(host_work_area == Some(area));
                assert(console_resolution_spec(requested, host_work_area) == CONSOLE_MODES@[j]);
            }
            return mode;
        }
        proof {
            assert(!fits(CONSOLE_MODES@[i - 1], area));
        }
        i = i - 1;
    }
    CONSOLE_MODES[0]
}

/// The marker the work-area query prints.
pub const WORK_AREA_MARK: &'static str = "WORKAREA=";

pub open spec fn work_area_script_spec() -> Seq<char> {
    "Add-Type -AssemblyName System.Windows.Forms\n$screen = [System.Windows.Forms.Screen]::PrimaryScreen\nif ($screen) {\n  $area = $screen.WorkingArea\n  Write-Output ('"@
        + (WORK_AREA_MARK@)
        + "{0}x{1}' -f $area.Width, $area.Height)\n}\n"@
}

/// The script that prints the primary screen's work area, which already
/// excludes the taskbar, after the marker.
pub fn work_area_script() -> (r: String)
    ensures
        r@ == work_area_script_spec(),
{
    let mut r = String::new();
    r.append("Add-Type -AssemblyName System.Windows.Forms\n$screen = [System.Windows.Forms.Screen]::PrimaryScreen\nif ($screen) {\n  $area = $screen.WorkingArea\n  Write-Output ('");
    r.append(WORK_AREA_MARK);
    r.append("{0}x{1}' -f $area.Width, $area.Height)\n}\n");
    r
}

/// The value of the first line that, trimmed, starts with `mark`.
pub open spec fn marked_value(lines: Seq<Seq<char>>, mark: Seq<char>) -> Option<Seq<char>>
    decreases lines.len(),
{
    if lines.len() == 0 {
        None
    } else if starts_with_spec(trim_spec(lines[0]), mark) {
        Some(trim_spec(lines[0]).skip(mark.len() as int))
    } else {
        marked_value(lines.drop_first(), mark)
    }
}

/// The text after the marker on the first line that carries it.
pub fn marked_line(stdout: &str, mark: &str) -> (r: Option<String>)
    ensures
        match r {
            Some(v) => marked_value(lines_spec(stdout@), mark@) == Some(v@),
            None => marked_value(lines_spec(stdout@), mark@) is None,
        },
{
    let lines = lines_of(stdout);
    let ghost lv = views(lines@);
    let mut i: usize = 0;
    assert(lv.skip(0) =~= lv);
    while i < lines.len()
        invariant
            i <= lines@.len(),
            lv == views(lines@),
            lv == lines_spec(stdout@),
            marked_value(lv, mark@) == marked_value(lv.skip(i as int), mark@),
        decreases lines@.len() - i,
    {
        proof {
            assert(lv.skip(i as int)[0] == lines@[i as int]@);
            assert(lv.skip(i as int).drop_first() =~= lv.skip(i + 1));
        }
        let t = trim(lines[i].as_str());
        match strip_prefix(t.as_str(), mark) {
            Some(v) => {
                return Some(v);
            },
            None => {},
        }
        i = i + 1;
    }
    assert(lv.skip(lines@.len() as int) =~= Seq::<Seq<char>>::empty());
    None
}

/// The work area out of the query's output, if it printed one that parses.
pub fn parse_work_area(stdout: &str) -> (r: Option<(u32, u32)>)
    ensures
        r == match marked_value(lines_spec(stdout@), WORK_AREA_MARK@) {
            Some(v) => parse_resolution_spec(v),
            None => None,
        },
{
    match marked_line(stdout, WORK_AREA_MARK) {
        Some(v) => parse_resolution(v.as_str()),
        None => None,
    }
}

pub open spec fn video_script_spec(name: Seq<char>, size: (u32, u32)) -> Seq<char> {
    "Set-VMVideo -VMName "@
        + (ps_quote_spec(name))
        + " -ResolutionType Single -HorizontalResolution "@
        + (dec(size.0 as nat))
        + " -VerticalResolution "@
        + (dec(size.1 as nat))
        + "\n"@
}

/// The line that fixes the guest's console resolution to one mode, run while
/// the VM is still off.
pub fn video_script(name: &str, size: (u32, u32)) -> (r: String)
    ensures
        r@ == video_script_spec(name@, size),
{
    let mut r = String::new();
    r.append("Set-VMVideo -VMName ");
    { let q = ps_quote(name); r.append(q.as_str()); }
    r.append(" -ResolutionType Single -HorizontalResolution ");
    { let n = dec_string(size.0 as u64); r.append(n.as_str()); }
    r.append(" -VerticalResolution ");
    { let n = dec_string(size.1 as u64); r.append(n.as_str()); }
    r.append("\n");
    r
}

pub open spec fn create_script_spec(name: Seq<char>, golden: Seq<char>, overlay: Seq<char>, console: (u32, u32)) -> Seq<char> {
    "New-VHD -Path "@
        + (ps_quote_spec(overlay))
        + " -ParentPath "@
        + (ps_quote_spec(golden))
        + " -Differencing | Out-Null\nNew-VM -Name "@
        + (ps_quote_spec(name))
        + " -Generation 2 -MemoryStartupBytes "@
        + (dec(MEMORY_BYTES as nat))
        + " -VHDPath "@
        + (ps_quote_spec(overlay))
        + " -SwitchName "@
        + (ps_quote_spec(SWITCH@))
        + " | Out-Null\nSet-VM -Name "@
        + (ps_quote_spec(name))
        + " -ProcessorCount "@
        + (dec(CPUS as nat))
        + " -AutomaticCheckpointsEnabled $false -AutomaticStartAction Nothing -AutomaticStopAction TurnOff\nSet-VMFirmware -VMName "@
        + (ps_quote_spec(name))
        + " -EnableSecureBoot Off\n$drive = Get-VMHardDiskDrive -VMName "@
        + (ps_quote_spec(name))
        + "\nSet-VMFirmware -VMName "@
        + (ps_quote_spec(name))
        + " -FirstBootDevice $drive\nSet-VMMemory -VMName "@
        + (ps_quote_spec(name))
        + " -DynamicMemoryEnabled $false\n"@
        + (video_script_spec(name, console))
}

/// What the creation script makes of its disks: it first creates a disk as a
/// differencing child of the golden image, and that disk, the overlay and
/// nothing else, is the one `New-VM` attaches.
pub open spec fn attaches_overlay(script: Seq<char>, golden: Seq<char>, overlay: Seq<char>) -> bool {
    exists|mid: Seq<char>, post: Seq<char>|
        script == "New-VHD -Path "@ + ps_quote_spec(overlay) + " -ParentPath "@ + ps_quote_spec(golden) + mid
            + " -VHDPath "@ + ps_quote_spec(overlay) + " -SwitchName "@ + post
}

/// The VM the creation script makes boots from the overlay it has just made
/// from the golden image, never from the golden image itself.
#[verifier::rlimit(40)]
pub proof fn lemma_the_vm_boots_from_the_overlay(name: Seq<char>, golden: Seq<char>, overlay: Seq<char>, console: (u32, u32))
    ensures
        attaches_overlay(create_script_spec(name, golden, overlay, console), golden, overlay),
{
    let full = create_script_spec(name, golden, overlay, console);
    let qo = ps_quote_spec(overlay);
    let qg = ps_quote_spec(golden);
    let qn = ps_quote_spec(name);
    let mid = " -Differencing | Out-Null\nNew-VM -Name "@ + qn + " -Generation 2 -MemoryStartupBytes "@ + dec(
        MEMORY_BYTES as nat,
    );
    let head = "New-VHD -Path "@ + qo + " -ParentPath "@ + qg + " -Differencing | Out-Null\nNew-VM -Name "@ + qn
        + " -Generation 2 -MemoryStartupBytes "@ + dec(MEMORY_BYTES as nat) + " -VHDPath "@ + qo + " -SwitchName "@;
    let law = "New-VHD -Path "@ + qo + " -ParentPath "@ + qg + mid + " -VHDPath "@ + qo + " -SwitchName "@;
    assert(head =~= law);
    let post = full.skip(head.len() as int);
    assert(full.take(head.len() as int) =~= head);
    assert(full =~= full.take(head.len() as int) + post);
    assert(full == law + post);
}

/// The script that creates the VM: a differencing child of the read-only golden
/// VHDX, generation 2 with Secure Boot off, fixed memory, no automatic start or
/// checkpoints, booting its disk, with the console sized.
pub fn create_script(name: &str, golden: &str, overlay: &str, console: (u32, u32)) -> (r: String)
    ensures
        r@ == create_script_spec(name@, golden@, overlay@, console),
{
    let mut r = String::new();
    r.append("New-VHD -Path ");
    { let q = ps_quote(overlay); r.append(q.as_str()); }
    r.append(" -ParentPath ");
    { let q = ps_quote(golden); r.append(q.as_str()); }
    r.append(" -Differencing | Out-Null\nNew-VM -Name ");
    { let q = ps_quote(name); r.append(q.as_str()); }
    r.append(" -Generation 2 -MemoryStartupBytes ");
    { let n = dec_string(MEMORY_BYTES as u64); r.append(n.as_str()); }
    r.append(" -VHDPath ");
    { let q = ps_quote(overlay); r.append(q.as_str()); }
    r.append(" -SwitchName ");
    { let q = ps_quote(SWITCH); r.append(q.as_str()); }
    r.append(" | Out-Null\nSet-VM -Name ");
    { let q = ps_quote(name); r.append(q.as_str()); }
    r.append(" -ProcessorCount ");
    { let n = dec_string(CPUS as u64); r.append(n.as_str()); }
    r.append(" -AutomaticCheckpointsEnabled $false -AutomaticStartAction Nothing -AutomaticStopAction TurnOff\nSet-VMFirmware -VMName ");
    { let q = ps_quote(name); r.append(q.as_str()); }
    r.append(" -EnableSecureBoot Off\n$drive = Get-VMHardDiskDrive -VMName ");
    { let q = ps_quote(name); r.append(q.as_str()); }
    r.append("\nSet-VMFirmware -VMName ");
    { let q = ps_quote(name); r.append(q.as_str()); }
    r.append(" -FirstBootDevice $drive\nSet-VMMemory -VMName ");
    { let q = ps_quote(name); r.append(q.as_str()); }
    r.append(" -DynamicMemoryEnabled $false\n");
    { let t = video_script(name, console); r.append(t.as_str()); }
    r
}

/// What a guest that offers no enhanced session may still show: the
/// credential dialog of an image built before Remote Desktop Services was
/// turned off in it, and what to do about it. Every text about such a console
/// carries this sentence.
pub const CREDENTIAL_DIALOG_CAVEAT: &'static str = "If a credential dialog appears anyway, this guest's golden image predates the one that disables Remote Desktop Services: cancel it rather than signing in, for that same reason, and `cargo xtask vm build-image windows` brings the image up to date.";

pub open spec fn view_note_spec(handed_over: bool) -> Seq<char> {
    if handed_over {
        "It will offer an enhanced session, which is the one that can be resized: the guest's desktop follows the window. The dialog wants the guest's account, `tester`, and no password at all, so leave that field empty and connect. A basic session needs nothing typed but is fixed at the console resolution.\nEnhanced is RDP, and RDP takes the console session over. That is harmless here, because nothing of ours is running in this guest."@
    } else {
        "This guest was not handed over, so it offers no enhanced session and asks for nothing: what opens is a basic session showing the console desktop as it is. That is deliberate for a guest with a run in it. An enhanced session is RDP, and connecting would take the console session out from under the job, which is where its windows are.\n"@
            + CREDENTIAL_DIALOG_CAVEAT@ + "\nWatching is harmless; clicking during a run perturbs it."@
    }
}

/// What to say about the session `vmconnect` is about to open: an enhanced one
/// with an empty password for a guest that was handed over, and the basic one
/// that asks for nothing for any other.
pub fn view_note(handed_over: bool) -> (r: String)
    ensures
        r@ == view_note_spec(handed_over),
{
    if handed_over {
        owned("It will offer an enhanced session, which is the one that can be resized: the guest's desktop follows the window. The dialog wants the guest's account, `tester`, and no password at all, so leave that field empty and connect. A basic session needs nothing typed but is fixed at the console resolution.\nEnhanced is RDP, and RDP takes the console session over. That is harmless here, because nothing of ours is running in this guest.")
    } else {
        {
        let mut r = owned("This guest was not handed over, so it offers no enhanced session and asks for nothing: what opens is a basic session showing the console desktop as it is. That is deliberate for a guest with a run in it. An enhanced session is RDP, and connecting would take the console session out from under the job, which is where its windows are.\n");
        r.append(CREDENTIAL_DIALOG_CAVEAT);
        r.append("\nWatching is harmless; clicking during a run perturbs it.");
        r
    }
    }
}

/// The line a query script prints to prove it ran, since `PowerShell`'s exit
/// code cannot tell a missing VM from a failed query.
pub const QUERY_OK: &'static str = "QUERY=ok";

pub open spec fn query_script_spec(name: Seq<char>, body: Seq<char>) -> Seq<char> {
    "$vm = @(Get-VM) | Where-Object { $_.Name -eq "@
        + (ps_quote_spec(name))
        + " } | Select-Object -First 1\n"@
        + (body)
        + "Write-Output '"@
        + (QUERY_OK@)
        + "'\n"@
}

/// A query script: find our VM among all of them, so that its absence is an
/// answer rather than an error, run `body`, and print the marker.
pub fn query_script(name: &str, body: &str) -> (r: String)
    ensures
        r@ == query_script_spec(name@, body@),
{
    let mut r = String::new();
    r.append("$vm = @(Get-VM) | Where-Object { $_.Name -eq ");
    { let q = ps_quote(name); r.append(q.as_str()); }
    r.append(" } | Select-Object -First 1\n");
    r.append(body);
    r.append("Write-Output '");
    r.append(QUERY_OK);
    r.append("'\n");
    r
}

/// Whether a query script's own answer arrived: some line, trimmed, is the
/// marker.
pub fn answered(stdout: &str) -> (r: bool)
    ensures
        r == exists|i: int|
            0 <= i < lines_spec(stdout@).len() && trim_spec(#[trigger] lines_spec(stdout@)[i]) == QUERY_OK@,
{
    let lines = lines_of(stdout);
    let mut i: usize = 0;
    while i < lines.len()
        invariant
            i <= lines@.len(),
            views(lines@) == lines_spec(stdout@),
            forall|k: int| 0 <= k < i ==> trim_spec(#[trigger] views(lines@)[k]) != QUERY_OK@,
        decreases lines@.len() - i,
    {
        let t = trim(lines[i].as_str());
        if str_eq(t.as_str(), QUERY_OK) {
            assert(trim_spec(views(lines@)[i as int]) == QUERY_OK@);
            return true;
        }
        i = i + 1;
    }
    false
}

/// The script that reports a VM's state, or nothing if it does not exist.
pub fn state_script(name: &str) -> (r: String)
    ensures
        r@ == query_script_spec(name@, "if ($vm) { Write-Output \"STATE=$($vm.State)\" }\n"@),
{
    query_script(name, "if ($vm) { Write-Output \"STATE=$($vm.State)\" }\n")
}

/// The script that reports the VM's own identifier.
pub fn id_script(name: &str) -> (r: String)
    ensures
        r@ == query_script_spec(name@, "if ($vm) { Write-Output \"ID=$($vm.Id)\" }\n"@),
{
    query_script(name, "if ($vm) { Write-Output \"ID=$($vm.Id)\" }\n")
}

/// The script that reports the guest's addresses, read from the integration
/// services of the VM object in hand.
pub fn address_script(name: &str) -> (r: String)
    ensures
        r@ == query_script_spec(name@, "if ($vm) {\n  $vm | Get-VMNetworkAdapter | ForEach-Object { $_.IPAddresses } | ForEach-Object { Write-Output \"IP=$_\" }\n}\n"@),
{
    query_script(name, "if ($vm) {\n  $vm | Get-VMNetworkAdapter | ForEach-Object { $_.IPAddresses } | ForEach-Object { Write-Output \"IP=$_\" }\n}\n")
}

pub open spec fn destroy_body_spec(name: Seq<char>) -> Seq<char> {
    "if ($vm) {\n  if ($vm.State -ne 'Off') { Stop-VM -Name "@
        + (ps_quote_spec(name))
        + " -TurnOff -Force }\n  Remove-VM -Name "@
        + (ps_quote_spec(name))
        + " -Force\n}\n"@
}

/// What the teardown query runs: turn the VM off if it is on and remove it,
/// each cmdlet naming it.
pub fn destroy_body(name: &str) -> (r: String)
    ensures
        r@ == destroy_body_spec(name@),
{
    let mut r = String::new();
    r.append("if ($vm) {\n  if ($vm.State -ne 'Off') { Stop-VM -Name ");
    { let q = ps_quote(name); r.append(q.as_str()); }
    r.append(" -TurnOff -Force }\n  Remove-VM -Name ");
    { let q = ps_quote(name); r.append(q.as_str()); }
    r.append(" -Force\n}\n");
    r
}

/// The script that tears the VM down, without a graceful shutdown.
pub fn destroy_script(name: &str) -> (r: String)
    ensures
        r@ == query_script_spec(name@, destroy_body_spec(name@)),
{
    let body = destroy_body(name);
    query_script(name, body.as_str())
}

/// Read the `ID=` line out of the identifier script's output: trimmed, and
/// nothing where it is empty.
pub fn parse_id(stdout: &str) -> (r: Option<String>)
    ensures
        match r {
            Some(id) => marked_value(lines_spec(stdout@), "ID="@) matches Some(v) && id@ == trim_spec(v)
                && id@.len() > 0,
            None => marked_value(lines_spec(stdout@), "ID="@) matches Some(v) ==> trim_spec(v).len() == 0,
        },
{
    match marked_line(stdout, "ID=") {
        Some(v) => {
            let t = trim(v.as_str());
            if t.as_str().unicode_len() > 0 {
                Some(t)
            } else {
                None
            }
        },
        None => None,
    }
}

/// Read `STATE=` out of the state script's output.
pub fn parse_state(stdout: &str) -> (r: Option<String>)
    ensures
        match r {
            Some(s) => marked_value(lines_spec(stdout@), "STATE="@) matches Some(v) && s@ == trim_spec(v),
            None => marked_value(lines_spec(stdout@), "STATE="@) is None,
        },
{
    match marked_line(stdout, "STATE=") {
        Some(v) => Some(trim(v.as_str())),
        None => None,
    }
}

/// The non-empty `IP=` values of a stream of lines, each trimmed, in order.
pub open spec fn addresses_in(lines: Seq<Seq<char>>) -> Seq<Seq<char>>
    decreases lines.len(),
{
    if lines.len() == 0 {
        Seq::empty()
    } else {
        let rest = addresses_in(lines.drop_last());
        let t = trim_spec(lines.last());
        if starts_with_spec(t, "IP="@) && trim_spec(t.skip(3)).len() > 0 {
            rest.push(trim_spec(t.skip(3)))
        } else {
            rest
        }
    }
}

/// Read the `IP=` lines out of the address script's output.
pub fn parse_addresses(stdout: &str) -> (r: Vec<String>)
    ensures
        views(r@) == addresses_in(lines_spec(stdout@)),
{
    let lines = lines_of(stdout);
    let ghost lv = views(lines@);
    let mut out: Vec<String> = Vec::new();
    let mut i: usize = 0;
    while i < lines.len()
        invariant
            i <= lines@.len(),
            lv == views(lines@),
            views(out@) == addresses_in(lv.take(i as int)),
        decreases lines@.len() - i,
    {
        proof {
            assert(lv.take(i + 1).drop_last() =~= lv.take(i as int));
            assert(lv.take(i + 1).last() == lines@[i as int]@);
            reveal_strlit("IP=");
        }
        let t = trim(lines[i].as_str());
        let ghost before = views(out@);
        match strip_prefix(t.as_str(), "IP=") {
            Some(v) => {
                let ip = trim(v.as_str());
                if ip.as_str().unicode_len() > 0 {
                    out.push(ip);
                    assert(views(out@) =~= before.push(trim_spec(t@.skip(3))));
                }
            },
            None => {},
        }
        i = i + 1;
    }
    assert(lv.take(lines@.len() as int) =~= lv);
    out
}

/// An address worth connecting to: IPv4, with four parts, and not a
/// link-local one handed out while DHCP is still going.
pub open spec fn usable_ipv4(a: Seq<char>) -> bool {
    !contains_spec(a, ":"@) && !starts_with_spec(a, "169.254."@) && split_spec(a, '.').len() == 4
}

/// The first usable IPv4 address, which is the one to connect to.
pub fn first_usable_ipv4(addresses: &[String]) -> (r: Option<String>)
    ensures
        match r {
            Some(a) => exists|i: int|
                0 <= i < addresses@.len() && a@ == addresses@[i]@ && usable_ipv4(addresses@[i]@) && forall|k: int|
                    0 <= k < i ==> !usable_ipv4(#[trigger] addresses@[k]@),
            None => forall|k: int| 0 <= k < addresses@.len() ==> !usable_ipv4(#[trigger] addresses@[k]@),
        },
{
    let mut i: usize = 0;
    while i < addresses.len()
        invariant
            i <= addresses@.len(),
            forall|k: int| 0 <= k < i ==> !usable_ipv4(#[trigger] addresses@[k]@),
        decreases addresses@.len() - i,
    {
        let a = addresses[i].as_str();
        let parts = split_char(a, '.');
        let link_local = {
            let v = crate::text::chars_of(a);
            let p = crate::text::chars_of("169.254.");
            assert(v@.subrange(0, v.len() as int) =~= v@);
            crate::text::vec_starts_with(&v, 0, v.len(), &p)
        };
        if !contains(a, ":") && !link_local && parts.len() == 4 {
            return Some(owned(a));
        }
        i = i + 1;
    }
    None
}

/// The host `vmconnect` is pointed at, as an argument and in its settings.
pub const VMCONNECT_SERVER: &'static str = "localhost";

/// The prefix and suffix of a per-VM settings file's name.
pub const SETTINGS_PREFIX: &'static str = "vmconnect.rdp.";

pub const SETTINGS_SUFFIX: &'static str = ".config";

pub open spec fn settings_dir_spec(app_data: Seq<char>) -> Seq<char> {
    app_data + "\\Microsoft\\Windows\\Hyper-V\\Client\\1.0"@
}

/// The directory `vmconnect` keeps its per-VM settings in, in the roaming
/// profile.
pub fn vmconnect_settings_dir(app_data: &str) -> (r: String)
    ensures
        r@ == settings_dir_spec(app_data@),
{
    let mut r = owned(app_data);
    r.append("\\Microsoft\\Windows\\Hyper-V\\Client\\1.0");
    r
}

/// `str::to_uppercase` of a text, as std computes it.
pub uninterp spec fn uppercase_of(s: Seq<char>) -> Seq<char>;

/// Whether every character of a text is ASCII.
pub open spec fn ascii_only(s: Seq<char>) -> bool {
    forall|i: int| 0 <= i < s.len() ==> (#[trigger] s[i] as u32) < 0x80
}

/// The uppercase of an ASCII character: `a` to `z` become `A` to `Z`, and
/// everything else stays.
pub open spec fn ascii_upper(c: char) -> char {
    if 'a' <= c && c <= 'z' {
        ((c as u32) - 32) as char
    } else {
        c
    }
}

/// `str::to_uppercase`.
///
/// What it returns is named by `uppercase_of`, a function of the text alone.
/// For a text of ASCII characters, which is what a VM identifier is, the
/// uppercase is the text with `a` to `z` made `A` to `Z`; what the Unicode case
/// mapping does with other characters is not stated here.
#[verifier::external_body]
fn to_uppercase(s: &str) -> (r: String)
    ensures
        r@ == uppercase_of(s@),
        ascii_only(s@) ==> r@ == s@.map_values(|c: char| ascii_upper(c)),
{
    s.to_uppercase()
}

/// Where `vmconnect` keeps its settings for one VM: the identifier upper-cased
/// between the prefix and the suffix.
pub fn vmconnect_settings_path(app_data: &str, vm_id: &str) -> (r: String)
    ensures
        r@ == settings_dir_spec(app_data@) + "\\"@ + SETTINGS_PREFIX@ + uppercase_of(vm_id@) + SETTINGS_SUFFIX@,
        ascii_only(vm_id@) ==> uppercase_of(vm_id@) == vm_id@.map_values(|c: char| ascii_upper(c)),
{
    let mut r = vmconnect_settings_dir(app_data);
    r.append("\\");
    r.append(SETTINGS_PREFIX);
    let up = to_uppercase(vm_id);
    r.append(up.as_str());
    r.append(SETTINGS_SUFFIX);
    r
}

pub open spec fn looks_like_settings_spec(name: Seq<char>) -> bool {
    starts_with_spec(name, SETTINGS_PREFIX@) && ends_with_spec(name, SETTINGS_SUFFIX@)
}

/// Whether a file name in that directory is a per-VM settings document.
pub fn looks_like_settings(file_name: &str) -> (r: bool)
    ensures
        r == looks_like_settings_spec(file_name@),
{
    let v = crate::text::chars_of(file_name);
    let p = crate::text::chars_of(SETTINGS_PREFIX);
    let s = crate::text::chars_of(SETTINGS_SUFFIX);
    assert(v@.subrange(0, v.len() as int) =~= v@);
    crate::text::vec_starts_with(&v, 0, v.len(), &p) && crate::text::vec_ends_with(&v, 0, v.len(), &s)
}

pub open spec fn is_our_settings_spec(file_name: Seq<char>, text: Seq<char>, vm_name: Seq<char>) -> bool {
    looks_like_settings_spec(file_name) && contains_spec(text, "<value>"@ + vm_name + "</value>"@)
}

/// Whether one such file is a settings document of ours, naming this VM.
pub fn is_our_settings(file_name: &str, text: &str, vm_name: &str) -> (r: bool)
    ensures
        r == is_our_settings_spec(file_name@, text@, vm_name@),
{
    if !looks_like_settings(file_name) {
        return false;
    }
    let mut want = owned("<value>");
    want.append(vm_name);
    want.append("</value>");
    contains(text, want.as_str())
}

/// Whether the sweep deletes one file of the settings directory: a settings
/// document of ours, read successfully (`text`), and not the one to keep,
/// compared by name without regard to case.
pub fn should_forget(file_name: &str, text: Option<&str>, vm_name: &str, keep: Option<&str>) -> (r: bool)
    ensures
        r == (looks_like_settings_spec(file_name@) && !(match keep {
            Some(k) => eq_ic(k@, file_name@),
            None => false,
        }) && match text {
            Some(t) => is_our_settings_spec(file_name@, t@, vm_name@),
            None => false,
        }),
{
    if !looks_like_settings(file_name) {
        return false;
    }
    if let Some(k) = keep {
        if eq_ignore_case(k, file_name) {
            return false;
        }
    }
    match text {
        Some(t) => is_our_settings(file_name, t, vm_name),
        None => false,
    }
}

pub open spec fn vmconnect_settings_spec(vm_name: Seq<char>, size: (u32, u32)) -> Seq<char> {
    "<?xml version=\"1.0\" encoding=\"utf-8\"?>\n<configuration>\n    <Microsoft.Virtualization.Client.RdpOptions>\n        <setting name=\"SavedConfigExists\" type=\"System.Boolean\">\n            <value>True</value>\n        </setting>\n        <setting name=\"SaveButtonChecked\" type=\"System.Boolean\">\n            <value>True</value>\n        </setting>\n        <setting name=\"DesktopSize\" type=\"System.Drawing.Size\">\n            <value>"@
        + (dec(size.0 as nat))
        + ", "@
        + (dec(size.1 as nat))
        + "</value>\n        </setting>\n        <setting name=\"VmName\" type=\"System.String\">\n            <value>"@
        + (vm_name)
        + "</value>\n        </setting>\n        <setting name=\"VmServerName\" type=\"System.String\">\n            <value>"@
        + (VMCONNECT_SERVER@)
        + "</value>\n        </setting>\n        <setting name=\"ClipboardRedirection\" type=\"System.Boolean\">\n            <value>True</value>\n        </setting>\n        <setting name=\"PrinterRedirection\" type=\"System.Boolean\">\n            <value>True</value>\n        </setting>\n        <setting name=\"EnablePrinterRedirection\" type=\"System.Boolean\">\n            <value>True</value>\n        </setting>\n        <setting name=\"SmartCardsRedirection\" type=\"System.Boolean\">\n            <value>True</value>\n        </setting>\n        <setting name=\"WebAuthnRedirection\" type=\"System.Boolean\">\n            <value>True</value>\n        </setting>\n        <setting name=\"AudioCaptureRedirectionMode\" type=\"System.Boolean\">\n            <value>False</value>\n        </setting>\n        <setting name=\"AudioPlaybackRedirectionMode\" type=\"Microsoft.Virtualization.Client.RdpOptions+AudioPlaybackRedirectionType\">\n            <value>AUDIO_MODE_REDIRECT</value>\n        </setting>\n        <setting name=\"FullScreen\" type=\"System.Boolean\">\n            <value>False</value>\n        </setting>\n        <setting name=\"UseAllMonitors\" type=\"System.Boolean\">\n            <value>False</value>\n        </setting>\n        <setting name=\"RedirectedDrives\" type=\"System.String\">\n            <value></value>\n        </setting>\n        <setting name=\"RedirectedUsbDevices\" type=\"System.String\">\n            <value></value>\n        </setting>\n        <setting name=\"RedirectedPnpDevices\" type=\"System.String\">\n            <value></value>\n        </setting>\n    </Microsoft.Virtualization.Client.RdpOptions>\n</configuration>"@
}

/// `vmconnect`'s settings for one VM with its connection dialog already
/// answered: saved and checked, the desktop at the console's size, this VM on
/// this server, and nothing of the host's redirected but what the dialog shares.
pub fn vmconnect_settings(vm_name: &str, size: (u32, u32)) -> (r: String)
    ensures
        r@ == vmconnect_settings_spec(vm_name@, size),
{
    let mut r = String::new();
    r.append("<?xml version=\"1.0\" encoding=\"utf-8\"?>\n<configuration>\n    <Microsoft.Virtualization.Client.RdpOptions>\n        <setting name=\"SavedConfigExists\" type=\"System.Boolean\">\n            <value>True</value>\n        </setting>\n        <setting name=\"SaveButtonChecked\" type=\"System.Boolean\">\n            <value>True</value>\n        </setting>\n        <setting name=\"DesktopSize\" type=\"System.Drawing.Size\">\n            <value>");
    { let n = dec_string(size.0 as u64); r.append(n.as_str()); }
    r.append(", ");
    { let n = dec_string(size.1 as u64); r.append(n.as_str()); }
    r.append("</value>\n        </setting>\n        <setting name=\"VmName\" type=\"System.String\">\n            <value>");
    r.append(vm_name);
    r.append("</value>\n        </setting>\n        <setting name=\"VmServerName\" type=\"System.String\">\n            <value>");
    r.append(VMCONNECT_SERVER);
    r.append("</value>\n        </setting>\n        <setting name=\"ClipboardRedirection\" type=\"System.Boolean\">\n            <value>True</value>\n        </setting>\n        <setting name=\"PrinterRedirection\" type=\"System.Boolean\">\n            <value>True</value>\n        </setting>\n        <setting name=\"EnablePrinterRedirection\" type=\"System.Boolean\">\n            <value>True</value>\n        </setting>\n        <setting name=\"SmartCardsRedirection\" type=\"System.Boolean\">\n            <value>True</value>\n        </setting>\n        <setting name=\"WebAuthnRedirection\" type=\"System.Boolean\">\n            <value>True</value>\n        </setting>\n        <setting name=\"AudioCaptureRedirectionMode\" type=\"System.Boolean\">\n            <value>False</value>\n        </setting>\n        <setting name=\"AudioPlaybackRedirectionMode\" type=\"Microsoft.Virtualization.Client.RdpOptions+AudioPlaybackRedirectionType\">\n            <value>AUDIO_MODE_REDIRECT</value>\n        </setting>\n        <setting name=\"FullScreen\" type=\"System.Boolean\">\n            <value>False</value>\n        </setting>\n        <setting name=\"UseAllMonitors\" type=\"System.Boolean\">\n            <value>False</value>\n        </setting>\n        <setting name=\"RedirectedDrives\" type=\"System.String\">\n            <value></value>\n        </setting>\n        <setting name=\"RedirectedUsbDevices\" type=\"System.String\">\n            <value></value>\n        </setting>\n        <setting name=\"RedirectedPnpDevices\" type=\"System.String\">\n            <value></value>\n        </setting>\n    </Microsoft.Virtualization.Client.RdpOptions>\n</configuration>");
    r
}

pub open spec fn refused_spec(code: Option<i32>, stderr: Seq<char>) -> Seq<char> {
    "Hyper-V refused: exit "@ + debug_opt_i32_spec(code) + ": "@ + trim_spec(stderr)
}

/// What a `PowerShell` run came to: its standard output where it exited zero,
/// else a refusal naming the exit and what it printed to stderr.
pub fn script_outcome(out: &CommandOutput) -> (r: Result<String, String>)
    ensures
        match r {
            Ok(s) => out.code == Some(0i32) && s@ == out.stdout@,
            Err(e) => out.code != Some(0i32) && e@ == refused_spec(out.code, out.stderr@),
        },
{
    if out.success() {
        return Ok(owned(out.stdout.as_str()));
    }
    let mut e = owned("Hyper-V refused: exit ");
    let c = debug_opt_i32(out.code);
    e.append(c.as_str());
    e.append(": ");
    let t = trim(out.stderr.as_str());
    e.append(t.as_str());
    Err(e)
}

pub open spec fn unanswered_spec(name: Seq<char>, stdout: Seq<char>) -> Seq<char> {
    "the query about "@ + name + " did not run to the end, so whether it exists is unknown. Its output was: "@
        + trim_spec(stdout)
}

/// The state a state query reported: the VM's state, or none where it does not
/// exist; an error where the query did not say it ran.
pub fn state_answer(name: &str, stdout: &str) -> (r: Result<Option<String>, String>)
    ensures
        match r {
            Ok(s) => (exists|i: int|
                0 <= i < lines_spec(stdout@).len() && trim_spec(#[trigger] lines_spec(stdout@)[i]) == QUERY_OK@)
                && match s {
                Some(st) => marked_value(lines_spec(stdout@), "STATE="@) matches Some(v) && st@ == trim_spec(v),
                None => marked_value(lines_spec(stdout@), "STATE="@) is None,
            },
            Err(e) => !(exists|i: int|
                0 <= i < lines_spec(stdout@).len() && trim_spec(#[trigger] lines_spec(stdout@)[i]) == QUERY_OK@)
                && e@ == unanswered_spec(name@, stdout@),
        },
{
    if !answered(stdout) {
        let mut e = owned("the query about ");
        e.append(name);
        e.append(" did not run to the end, so whether it exists is unknown. Its output was: ");
        let t = trim(stdout);
        e.append(t.as_str());
        return Err(e);
    }
    Ok(parse_state(stdout))
}

/// Whether a VM in this state is running.
pub fn is_running_state(state: Option<&str>) -> (r: bool)
    ensures
        r == (state matches Some(s) && eq_ic(s@, "Running"@)),
{
    match state {
        Some(s) => eq_ignore_case(s, "Running"),
        None => false,
    }
}

/// What a destroy of a VM in this state did: nothing to stop where it was off,
/// a stop where it was anything else.
pub fn stopped_from(before: &str) -> (r: Stopped)
    ensures
        r == if eq_ic(before@, "Off"@) {
            Stopped::WasNotRunning
        } else {
            Stopped::Stopped
        },
{
    if eq_ignore_case(before, "Off") {
        Stopped::WasNotRunning
    } else {
        Stopped::Stopped
    }
}

pub open spec fn still_registered_spec(name: Seq<char>) -> Seq<char> {
    name + " is still registered after Remove-VM"@
}

/// The refusal for a VM the teardown could not make go away.
pub fn still_registered(name: &str) -> (r: String)
    ensures
        r@ == still_registered_spec(name@),
{
    let mut e = owned(name);
    e.append(" is still registered after Remove-VM");
    e
}

pub open spec fn start_script_spec(name: Seq<char>) -> Seq<char> {
    "Start-VM -Name "@ + ps_quote_spec(name)
}

/// The script that starts the VM.
pub fn start_script(name: &str) -> (r: String)
    ensures
        r@ == start_script_spec(name@),
{
    let mut r = owned("Start-VM -Name ");
    let q = ps_quote(name);
    r.append(q.as_str());
    r
}

pub open spec fn view_text_spec(name: Seq<char>, handed_over: bool) -> Seq<char> {
    "vmconnect is opening "@ + name + ".\n"@ + view_note_spec(handed_over)
}

/// What `vm view` says once `vmconnect` is starting.
pub fn view_text(name: &str, handed_over: bool) -> (r: String)
    ensures
        r@ == view_text_spec(name@, handed_over),
{
    let mut r = owned("vmconnect is opening ");
    r.append(name);
    r.append(".\n");
    let n = view_note(handed_over);
    r.append(n.as_str());
    r
}

/// Every query finds the VM by its own quoted name, so that nothing it does
/// reaches past the guest it was written for, and every query says it ran;
/// a teardown's two cmdlets each name the VM too, so no pipeline can widen
/// what they act on.
pub proof fn lemma_scripts_name_their_vm(name: Seq<char>, body: Seq<char>)
    ensures
        crate::text::contains_spec(query_script_spec(name, body), ps_quote_spec(name)),
        crate::text::contains_spec(query_script_spec(name, body), QUERY_OK@),
        crate::text::contains_spec(destroy_body_spec(name), "Stop-VM -Name "@ + ps_quote_spec(name)),
        crate::text::contains_spec(destroy_body_spec(name), "Remove-VM -Name "@ + ps_quote_spec(name)),
{
    let q = ps_quote_spec(name);
    let head = "$vm = @(Get-VM) | Where-Object { $_.Name -eq "@;
    let script = query_script_spec(name, body);
    assert(script.subrange(head.len() as int, (head.len() + q.len()) as int) =~= q);
    assert(crate::text::occurs_at(script, q, head.len() as int));
    let before_ok: int = (head.len() + q.len() + " } | Select-Object -First 1\n"@.len() + body.len() + "Write-Output '"@.len()) as int;
    assert(script.subrange(before_ok, before_ok + QUERY_OK@.len()) =~= QUERY_OK@);
    assert(crate::text::occurs_at(script, QUERY_OK@, before_ok));

    let destroy = destroy_body_spec(name);
    let stop_head = "if ($vm) {\n  if ($vm.State -ne 'Off') { "@;
    let stop = "Stop-VM -Name "@ + q;
    reveal_strlit("if ($vm) {\n  if ($vm.State -ne 'Off') { Stop-VM -Name ");
    reveal_strlit("if ($vm) {\n  if ($vm.State -ne 'Off') { ");
    reveal_strlit("Stop-VM -Name ");
    assert("if ($vm) {\n  if ($vm.State -ne 'Off') { Stop-VM -Name "@ =~= stop_head + "Stop-VM -Name "@);
    assert(destroy.subrange(stop_head.len() as int, (stop_head.len() + stop.len()) as int) =~= stop);
    assert(crate::text::occurs_at(destroy, stop, stop_head.len() as int));
    let remove_at: int = ("if ($vm) {\n  if ($vm.State -ne 'Off') { Stop-VM -Name "@.len() + q.len() + " -TurnOff -Force }\n  "@.len()) as int;
    let remove = "Remove-VM -Name "@ + q;
    reveal_strlit(" -TurnOff -Force }\n  Remove-VM -Name ");
    reveal_strlit(" -TurnOff -Force }\n  ");
    reveal_strlit("Remove-VM -Name ");
    assert(" -TurnOff -Force }\n  Remove-VM -Name "@ =~= " -TurnOff -Force }\n  "@ + "Remove-VM -Name "@);
    assert(destroy.subrange(remove_at, remove_at + remove.len()) =~= remove);
    assert(crate::text::occurs_at(destroy, remove, remove_at));
}

} // verus!
