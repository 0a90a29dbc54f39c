//! The QEMU provider's decisions: the command line a guest is started with,
//! how its record maps onto consoles, whose process a recorded id now is, and
//! what is said when a guest has to be ended or has died.
//!
//! Starting QEMU, binding ports and talking to its monitor are the caller's.

use vstd::prelude::*;

use crate::provider::desktop::{from_record_spec, fw_cfg_args, login_label, session_spec, Login, FW_CFG_NAME};
use crate::provider::firmware::Firmware;
use crate::provider::target::{image_has_desktop, image_target, vm_name_spec, HostOs, Image, Target};
use crate::provider::{resources_for, resources_spec, Stopped};
use crate::runner::{image_matches, image_matches_spec, ProcessIdentity};
use crate::split::{lines_of, split_char, split_spec, strip_prefix};
use crate::state::{opt_view, RunState};
use crate::fmt::{round_secs, round_secs_spec};
use crate::text::{
    all_digits, append_views, chars_of, contains, is_digit, lemma_dec_reads_back, contains_spec, dec, dec_string, join, join_spec, lines_spec,
    owned, parse_uint, parse_uint_spec, push_view, starts_with_spec, string_of, trim_end_spec,
    trim_spec, views,
};

verus! {

/// The ports every guest asks for first, one VM at a time.
pub const SSH_PORT: u16 = 2222;

pub const QMP_PORT: u16 = 4444;

pub const VNC_DISPLAY: u16 = 0;

/// VNC display 0 is TCP port 5900, and so on.
pub const VNC_BASE_PORT: u16 = 5900;

/// How far past its preferred port a pick may walk before giving up.
pub const PORT_WALK: u16 = 250;

/// The port a VNC display listens on.
pub fn vnc_port(display: u16) -> (r: u16)
    requires
        display + VNC_BASE_PORT <= u16::MAX,
    ensures
        r == display + VNC_BASE_PORT,
{
    VNC_BASE_PORT + display
}

/// The address of a console on loopback.
pub fn loopback_address(port: u16) -> (r: String)
    ensures
        r@ == "127.0.0.1:"@ + dec(port as nat),
{
    let mut r = owned("127.0.0.1:");
    let p = dec_string(port as u64);
    r.append(p.as_str());
    r
}

/// The text after the last `c` in `s`, or all of it where there is none.
pub open spec fn after_last(s: Seq<char>, c: char) -> Seq<char>
    decreases s.len(),
{
    if s.len() == 0 {
        s
    } else if s.last() == c {
        Seq::empty()
    } else {
        after_last(s.drop_last(), c).push(s.last())
    }
}

proof fn lemma_after_last_digits(a: Seq<char>, d: Seq<char>)
    requires
        a.len() > 0,
        a.last() == ':',
        all_digits(d),
    ensures
        after_last(a + d, ':') == d,
    decreases d.len(),
{
    if d.len() == 0 {
        assert(a + d =~= a);
    } else {
        assert((a + d).drop_last() =~= a + d.drop_last());
        assert((a + d).last() == d.last());
        assert(is_digit(d[d.len() - 1]));
        assert forall|i: int| 0 <= i < d.drop_last().len() implies is_digit(#[trigger] d.drop_last()[i]) by {
            assert(d.drop_last()[i] == d[i]);
        }
        lemma_after_last_digits(a, d.drop_last());
        assert(d.drop_last().push(d.last()) =~= d);
    }
}

/// The address recorded for a display reads back as that display: what a
/// viewer connects to and what QEMU is told are the same screen.
pub proof fn lemma_a_console_address_reads_back(display: u16)
    requires
        display + VNC_BASE_PORT <= 0xffff,
    ensures
        display_of_address_spec("127.0.0.1:"@ + dec((display + VNC_BASE_PORT) as nat)) == display,
{
    let port = (display + VNC_BASE_PORT) as nat;
    reveal_strlit("127.0.0.1:");
    lemma_dec_reads_back(port);
    assert(is_digit(dec(port)[0]));
    lemma_after_last_digits("127.0.0.1:"@, dec(port));
}

/// The display number behind a recorded viewer address: its port less 5900,
/// not below zero, or display 0 where the port does not read as one.
pub open spec fn display_of_address_spec(address: Seq<char>) -> u16 {
    match parse_uint_spec(after_last(address, ':'), 0xffff) {
        Some(port) => if port >= VNC_BASE_PORT {
            (port - VNC_BASE_PORT) as u16
        } else {
            0
        },
        None => VNC_DISPLAY,
    }
}

pub fn display_of_address(address: &str) -> (r: u16)
    ensures
        r == display_of_address_spec(address@),
{
    let v = chars_of(address);
    let mut i = v.len();
    assert(v@.take(i as int) =~= v@);
    while i > 0 && v[i - 1] != ':'
        invariant
            i <= v.len(),
            after_last(v@, ':') == after_last(v@.take(i as int), ':') + v@.skip(i as int),
        decreases i,
    {
        proof {
            let t = v@.take(i as int);
            assert(t.drop_last() =~= v@.take(i - 1));
            assert(t.last() == v@[i - 1]);
            assert(v@.skip(i - 1) =~= seq![v@[i - 1]] + v@.skip(i as int));
            assert(after_last(t.drop_last(), ':').push(t.last()) + v@.skip(i as int) =~= after_last(
                t.drop_last(),
                ':',
            ) + v@.skip(i - 1));
        }
        i = i - 1;
    }
    proof {
        let t = v@.take(i as int);
        if i > 0 {
            assert(t.last() == ':');
        }
        assert(after_last(t, ':') =~= Seq::<char>::empty());
        assert(v@.subrange(i as int, v.len() as int) =~= v@.skip(i as int));
        assert(Seq::<char>::empty() + v@.skip(i as int) =~= v@.skip(i as int));
    }
    match parse_uint(&v, i, v.len(), 0xffff) {
        Some(port) => if port >= VNC_BASE_PORT as u64 {
            (port - VNC_BASE_PORT as u64) as u16
        } else {
            0
        },
        None => VNC_DISPLAY,
    }
}

/// The `-vnc` display number behind a record's viewer address.
pub fn vnc_display_of(state: &RunState) -> (r: u16)
    ensures
        r == match state.vnc {
            Some(a) => display_of_address_spec(a@),
            None => VNC_DISPLAY,
        },
{
    match &state.vnc {
        Some(a) => display_of_address(a.as_str()),
        None => VNC_DISPLAY,
    }
}

/// The consoles a record names, first screen first.
pub open spec fn consoles_spec(state: RunState) -> Seq<String> {
    if state.vnc_heads@.len() > 0 {
        state.vnc_heads@
    } else {
        match state.vnc {
            Some(a) => seq![a],
            None => Seq::empty(),
        }
    }
}

/// The display number of every screen a record names, first screen first;
/// never empty, since a record with no console still describes one screen.
pub open spec fn vnc_displays_spec(state: RunState) -> Seq<u16> {
    let c = consoles_spec(state);
    if c.len() == 0 {
        seq![VNC_DISPLAY]
    } else {
        c.map_values(|a: String| display_of_address_spec(a@))
    }
}

pub fn vnc_displays_of(state: &RunState) -> (r: Vec<u16>)
    ensures
        r@ == vnc_displays_spec(*state),
{
    let consoles = state.consoles();
    let mut out: Vec<u16> = Vec::new();
    let mut i: usize = 0;
    while i < consoles.len()
        invariant
            i <= consoles@.len(),
            consoles@ == consoles_spec(*state),
            out@ == consoles@.take(i as int).map_values(|a: String| display_of_address_spec(a@)),
        decreases consoles@.len() - i,
    {
        out.push(display_of_address(consoles[i].as_str()));
        i = i + 1;
        assert(out@ =~= consoles@.take(i as int).map_values(|a: String| display_of_address_spec(a@)));
    }
    if out.len() == 0 {
        return vec![VNC_DISPLAY];
    }
    assert(consoles@.take(consoles@.len() as int) =~= consoles@);
    out
}

/// How much of a dead QEMU's log its post-mortem quotes.
pub const LOG_TAIL_LINES: usize = 5;

/// The lines that are not blank, each without its trailing whitespace.
pub open spec fn spoken(lines: Seq<Seq<char>>) -> Seq<Seq<char>>
    decreases lines.len(),
{
    if lines.len() == 0 {
        Seq::empty()
    } else {
        let rest = spoken(lines.drop_last());
        if trim_spec(lines.last()).len() > 0 {
            rest.push(trim_end_spec(lines.last()))
        } else {
            rest
        }
    }
}

/// The last words in a VM log: up to five lines that are not blank, without
/// the first line, which is the command line written there rather than
/// anything QEMU said.
pub open spec fn log_tail_spec(text: Seq<char>) -> Seq<Seq<char>> {
    let ls = lines_spec(text);
    let s = spoken(if ls.len() > 0 {
        ls.skip(1)
    } else {
        ls
    });
    if s.len() > LOG_TAIL_LINES {
        s.skip(s.len() - LOG_TAIL_LINES)
    } else {
        s
    }
}

pub fn log_tail(text: &str) -> (r: Vec<String>)
    ensures
        views(r@) == log_tail_spec(text@),
{
    let lines = lines_of(text);
    let ghost lv = views(lines@);
    let ghost rest = if lv.len() > 0 {
        lv.skip(1)
    } else {
        lv
    };
    let mut kept: Vec<String> = Vec::new();
    let mut i: usize = if lines.len() > 0 {
        1
    } else {
        0
    };
    assert(lv.subrange(i as int, i as int) =~= Seq::<Seq<char>>::empty());
    while i < lines.len()
        invariant
            1 <= i <= lines@.len() || (i == 0 && lines@.len() == 0),
            lv == views(lines@),
            lv == lines_spec(text@),
            rest == (if lv.len() > 0 {
                lv.skip(1)
            } else {
                lv
            }),
            views(kept@) == spoken(lv.subrange(if lv.len() > 0 {
                1int
            } else {
                0int
            }, i as int)),
        decreases lines@.len() - i,
    {
        let ghost start: int = 1;
        proof {
            assert(lv.subrange(start, i + 1).drop_last() =~= lv.subrange(start, i as int));
            assert(lv.subrange(start, i + 1).last() == lines@[i as int]@);
        }
        let v = chars_of(lines[i].as_str());
        let (lo, hi) = crate::text::trim_bounds(&v, 0, v.len());
        assert(v@.subrange(0, v.len() as int) =~= v@);
        if lo < hi {
            let mut end = v.len();
            while end > 0 && crate::text::is_ws_char(v[end - 1])
                invariant
                    end <= v.len(),
                    trim_end_spec(v@) == trim_end_spec(v@.take(end as int)),
                decreases end,
            {
                proof {
                    assert(v@.take(end as int).drop_last() =~= v@.take(end - 1));
                    assert(v@.take(end as int).last() == v@[end - 1]);
                }
                end = end - 1;
            }
            proof {
                if end > 0 {
                    assert(v@.take(end as int).last() == v@[end - 1]);
                }
                assert(trim_end_spec(v@.take(end as int)) == v@.take(end as int));
                assert(v@.subrange(0, end as int) =~= v@.take(end as int));
            }
            push_view(&mut kept, string_of(&v, 0, end));
        }
        i = i + 1;
    }
    proof {
        if lv.len() > 0 {
            assert(lv.subrange(1, lv.len() as int) =~= lv.skip(1));
        } else {
            assert(lv.subrange(0, 0) =~= lv);
        }
    }
    if kept.len() <= LOG_TAIL_LINES {
        return kept;
    }
    let mut out: Vec<String> = Vec::new();
    let from = kept.len() - LOG_TAIL_LINES;
    let mut k = from;
    while k < kept.len()
        invariant
            from <= k <= kept@.len(),
            from == kept@.len() - LOG_TAIL_LINES,
            views(out@) == views(kept@).subrange(from as int, k as int),
        decreases kept@.len() - k,
    {
        push_view(&mut out, owned(kept[k].as_str()));
        k = k + 1;
        assert(views(out@) =~= views(kept@).subrange(from as int, k as int));
    }
    assert(views(kept@).subrange(from as int, kept@.len() as int) =~= views(kept@).skip(from as int));
    out
}

/// The account the golden images create.
pub const GUEST_USER: &'static str = "tester";

/// The process a QEMU guest of ours is.
pub const QEMU_IMAGE: &'static str = "qemu-system-x86_64";

/// How long to wait for QEMU to be gone after being asked to stop, in
/// milliseconds.
pub const QUIT_GRACE_MS: u64 = 20000;

/// Whether the process a state file points at is still the one it recorded.
#[derive(Debug, Clone, PartialEq, Eq)]
pub enum Ownership {
    /// The recorded process is running and is ours.
    Ours,
    /// Nothing is running under that id.
    Gone,
    /// Something else is running under that id, which is what a reused id
    /// looks like.
    Foreign(String),
}

/// Whose a process is: gone where there is none; a stranger where its image
/// is not QEMU's, or where its command line does not name this VM; ours
/// otherwise, the image name being the whole answer where there is no command
/// line.
pub open spec fn classify_spec(identity: Option<ProcessIdentity>, vm_name: Seq<char>) -> Option<Option<Seq<char>>> {
    match identity {
        None => None,
        Some(id) => if !image_matches_spec(id.image@, QEMU_IMAGE@) {
            Some(Some(id.image@))
        } else {
            match id.command_line {
                Some(line) => if !contains_spec(line@, vm_name) {
                    Some(Some(id.image@ + " running something else ("@ + line@ + ")"@))
                } else {
                    Some(None)
                },
                None => Some(None),
            }
        },
    }
}

pub open spec fn ownership_view(o: Ownership) -> Option<Option<Seq<char>>> {
    match o {
        Ownership::Gone => None,
        Ownership::Foreign(what) => Some(Some(what@)),
        Ownership::Ours => Some(None),
    }
}

pub fn classify(identity: Option<&ProcessIdentity>, vm_name: &str) -> (r: Ownership)
    ensures
        ownership_view(r) == classify_spec(
            match identity {
                Some(i) => Some(*i),
                None => None,
            },
            vm_name@,
        ),
{
    let id = match identity {
        Some(i) => i,
        None => return Ownership::Gone,
    };
    if !image_matches(id.image.as_str(), QEMU_IMAGE) {
        return Ownership::Foreign(owned(id.image.as_str()));
    }
    match &id.command_line {
        Some(line) => {
            if !contains(line.as_str(), vm_name) {
                let mut what = owned(id.image.as_str());
                what.append(" running something else (");
                what.append(line.as_str());
                what.append(")");
                Ownership::Foreign(what)
            } else {
                Ownership::Ours
            }
        },
        None => Ownership::Ours,
    }
}

/// The console resolution a QEMU guest gets unless one is asked for.
pub const DEFAULT_CONSOLE: (u32, u32) = (1920, 1080);

pub open spec fn vga_spec(target: Target) -> Seq<char> {
    match target {
        Target::Windows => "std"@,
        Target::Linux => "virtio-vga"@,
    }
}

/// The display device model: the Linux guest's in-kernel virtio one, the
/// emulated VGA a stock Windows has a driver for.
pub fn vga_for(target: Target) -> (r: &'static str)
    ensures
        r@ == vga_spec(target),
{
    match target {
        Target::Windows => "std",
        Target::Linux => "virtio-vga",
    }
}

/// The id the display device of a multi-screen guest carries.
pub const DISPLAY_DEVICE_ID: &'static str = "gpu";

/// One screen's entry in the display device's `outputs` list.
pub open spec fn output_json(screen: nat, console: (u32, u32)) -> Seq<char> {
    "{\"name\":\"screen-"@ + dec(screen) + "\",\"xres\":"@ + dec(console.0 as nat) + ",\"yres\":"@ + dec(
        console.1 as nat,
    ) + "}"@
}

/// The entries of the first `n` screens, comma-separated.
pub open spec fn outputs_json(n: nat, console: (u32, u32)) -> Seq<char>
    decreases n,
{
    if n == 0 {
        Seq::empty()
    } else if n == 1 {
        output_json(0, console)
    } else {
        outputs_json((n - 1) as nat, console) + ","@ + output_json((n - 1) as nat, console)
    }
}

/// The whole display device as the JSON `-device` takes a list property in,
/// its keys in order.
pub open spec fn device_json(console: (u32, u32), screens: u16) -> Seq<char> {
    "{\"driver\":\"virtio-vga\",\"id\":\""@ + DISPLAY_DEVICE_ID@ + "\",\"max_outputs\":"@ + dec(
        screens as nat,
    ) + ",\"outputs\":["@ + outputs_json(screens as nat, console) + "],\"xres\":"@ + dec(
        console.0 as nat,
    ) + ",\"yres\":"@ + dec(console.1 as nat) + "}"@
}

pub open spec fn display_args_spec(target: Target, console: (u32, u32), screens: u16) -> Seq<Seq<char>> {
    match target {
        Target::Windows => seq!["-vga"@, "std"@],
        Target::Linux => if screens > 1 {
            seq!["-device"@, device_json(console, screens)]
        } else {
            seq!["-device"@, "virtio-vga,xres="@ + dec(console.0 as nat) + ",yres="@ + dec(console.1 as nat)]
        },
    }
}

fn append_output(r: &mut String, screen: u16, console: (u32, u32))
    ensures
        final(r)@ == old(r)@ + output_json(screen as nat, console),
{
    r.append("{\"name\":\"screen-");
    let s = dec_string(screen as u64);
    r.append(s.as_str());
    r.append("\",\"xres\":");
    let w = dec_string(console.0 as u64);
    r.append(w.as_str());
    r.append(",\"yres\":");
    let h = dec_string(console.1 as u64);
    r.append(h.as_str());
    r.append("}");
}

/// How the guest's display is attached, and at what size: the Windows guest's
/// emulated VGA takes no size; a one-screen Linux guest is told its size; a
/// Linux guest with more screens gets the device as JSON with one sized
/// output per screen and an id its further screens are addressed by.
pub fn display_args(target: Target, console: (u32, u32), screens: u16) -> (r: Vec<String>)
    ensures
        views(r@) == display_args_spec(target, console, screens),
{
    let mut out: Vec<String> = Vec::new();
    match target {
        Target::Windows => {
            push_view(&mut out, owned("-vga"));
            push_view(&mut out, owned("std"));
        },
        Target::Linux => {
            push_view(&mut out, owned("-device"));
            if screens > 1 {
                let mut j = owned("{\"driver\":\"virtio-vga\",\"id\":\"");
                j.append(DISPLAY_DEVICE_ID);
                j.append("\",\"max_outputs\":");
                let n = dec_string(screens as u64);
                j.append(n.as_str());
                j.append(",\"outputs\":[");
                let ghost before = j@;
                let mut s: u16 = 0;
                while s < screens
                    invariant
                        s <= screens,
                        j@ == before + outputs_json(s as nat, console),
                    decreases screens - s,
                {
                    if s > 0 {
                        j.append(",");
                    }
                    append_output(&mut j, s, console);
                    s = s + 1;
                }
                j.append("],\"xres\":");
                let w = dec_string(console.0 as u64);
                j.append(w.as_str());
                j.append(",\"yres\":");
                let h = dec_string(console.1 as u64);
                j.append(h.as_str());
                j.append("}");
                push_view(&mut out, j);
            } else {
                let mut d = owned("virtio-vga,xres=");
                let w = dec_string(console.0 as u64);
                d.append(w.as_str());
                d.append(",yres=");
                let h = dec_string(console.1 as u64);
                d.append(h.as_str());
                push_view(&mut out, d);
            }
        },
    }
    assert(views(out@) =~= display_args_spec(target, console, screens));
    out
}

/// The USB controller a Windows guest's tablet hangs off.
pub const USB_CONTROLLER: &'static str = "qemu-xhci";

pub open spec fn pointer_args_spec(target: Target) -> Seq<Seq<char>> {
    match target {
        Target::Windows => seq!["-device"@, USB_CONTROLLER@ + ",id=xhci"@, "-device"@, "usb-tablet,bus=xhci.0"@],
        Target::Linux => seq!["-device"@, "virtio-tablet-pci"@],
    }
}

/// The devices that give a guest one absolute pointer: a USB tablet on its own
/// controller for Windows, a virtio tablet for Linux.
pub fn pointer_args(target: Target) -> (r: Vec<String>)
    ensures
        views(r@) == pointer_args_spec(target),
{
    let mut out: Vec<String> = Vec::new();
    match target {
        Target::Windows => {
            push_view(&mut out, owned("-device"));
            let mut c = owned(USB_CONTROLLER);
            c.append(",id=xhci");
            push_view(&mut out, c);
            push_view(&mut out, owned("-device"));
            push_view(&mut out, owned("usb-tablet,bus=xhci.0"));
        },
        Target::Linux => {
            push_view(&mut out, owned("-device"));
            push_view(&mut out, owned("virtio-tablet-pci"));
        },
    }
    assert(views(out@) =~= pointer_args_spec(target));
    out
}

/// The interfaces `-drive if=` accepts.
pub const DRIVE_INTERFACES: [&'static str; 9] = [
    "none",
    "ide",
    "scsi",
    "sd",
    "mtd",
    "floppy",
    "pflash",
    "virtio",
    "xen",
];

pub open spec fn disk_device_spec(target: Target) -> Seq<char> {
    match target {
        Target::Windows => "ide-hd"@,
        Target::Linux => "virtio-blk-pci"@,
    }
}

/// The device model the guest's disk is attached through.
pub fn disk_device_for(target: Target) -> (r: &'static str)
    ensures
        r@ == disk_device_spec(target),
{
    match target {
        Target::Windows => "ide-hd",
        Target::Linux => "virtio-blk-pci",
    }
}

pub open spec fn nic_device_spec(target: Target) -> Seq<char> {
    match target {
        Target::Windows => "e1000"@,
        Target::Linux => "virtio-net-pci"@,
    }
}

/// The network device model, the one each image was installed with.
pub fn nic_device_for(target: Target) -> (r: &'static str)
    ensures
        r@ == nic_device_spec(target),
{
    match target {
        Target::Windows => "e1000",
        Target::Linux => "virtio-net-pci",
    }
}

/// The accelerator a host runs guests on: WHPX on Windows, KVM elsewhere.
pub fn accelerator_for(host: HostOs) -> (r: &'static str)
    ensures
        r@ == if host == HostOs::Windows {
            "whpx"@
        } else {
            "kvm"@
        },
{
    if host == HostOs::Windows {
        "whpx"
    } else {
        "kvm"
    }
}

/// Everything a `qemu-system-x86_64` command line needs.
#[derive(Debug, PartialEq, Eq)]
pub struct Launch {
    pub name: String,
    pub overlay: String,
    /// Which image this guest is a child of.
    pub image: Image,
    pub memory_mb: u32,
    pub cpus: u32,
    pub accelerator: String,
    pub ssh_port: u16,
    pub qmp_port: u16,
    /// One VNC display number per screen, first screen first.
    pub vnc_displays: Vec<u16>,
    /// UEFI firmware, which the Windows guest requires.
    pub firmware: Option<Firmware>,
    /// The console's size, which the Linux guest is told.
    pub console: (u32, u32),
    /// Which session the Linux guest logs into, when one was asked for.
    pub login: Option<Login>,
}

/// How many screens a launch has: one per display, at least one.
pub open spec fn screens_spec(n: nat) -> u16 {
    if n == 0 {
        1
    } else if n > 0xffff {
        0xffff
    } else {
        n as u16
    }
}

/// One `-vnc` server's argument: on a guest with more than one screen it names
/// the device and the head it shows.
pub open spec fn vnc_arg(display: u16, head: nat, multi: bool) -> Seq<char> {
    if multi {
        "127.0.0.1:"@ + dec(display as nat) + ",display="@ + DISPLAY_DEVICE_ID@ + ",head="@ + dec(head)
    } else {
        "127.0.0.1:"@ + dec(display as nat)
    }
}

pub open spec fn vnc_args_spec(ds: Seq<u16>, multi: bool) -> Seq<Seq<char>>
    decreases ds.len(),
{
    if ds.len() == 0 {
        Seq::empty()
    } else {
        vnc_args_spec(ds.drop_last(), multi) + seq!["-vnc"@, vnc_arg(ds.last(), (ds.len() - 1) as nat, multi)]
    }
}

pub open spec fn base_args(l: Launch) -> Seq<Seq<char>> {
    seq![
        "-name"@,
        l.name@,
        "-machine"@,
        "q35,accel="@ + l.accelerator@,
        "-cpu"@,
        "max"@,
        "-m"@,
        dec(l.memory_mb as nat),
        "-smp"@,
        dec(l.cpus as nat),
        "-drive"@,
        "file="@ + l.overlay@ + ",if=none,id=hd0,format=qcow2"@,
        "-device"@,
        disk_device_spec(image_target(l.image)) + ",drive=hd0"@,
        "-netdev"@,
        "user,id=net0,hostfwd=tcp:127.0.0.1:"@ + dec(l.ssh_port as nat) + "-:22"@,
        "-device"@,
        nic_device_spec(image_target(l.image)) + ",netdev=net0"@,
        "-display"@,
        "none"@,
        "-qmp"@,
        "tcp:127.0.0.1:"@ + dec(l.qmp_port as nat) + ",server=on,wait=off"@,
        "-rtc"@,
        "base=utc"@,
    ]
}

pub open spec fn login_args_spec(login: Option<Login>) -> Seq<Seq<char>> {
    match login {
        Some(l) => seq![
            "-fw_cfg"@,
            "name="@ + FW_CFG_NAME@ + ",string="@ + session_spec(l.desktop_spec(), l.session_type_spec()).unwrap(),
        ],
        None => Seq::empty(),
    }
}

pub open spec fn firmware_args_spec(firmware: Option<Firmware>) -> Seq<Seq<char>> {
    match firmware {
        Some(f) => seq![
            "-drive"@,
            "if=pflash,format=raw,unit=0,readonly=on,file="@ + f.code@,
            "-drive"@,
            "if=pflash,format=raw,unit=1,file="@ + f.vars@,
        ],
        None => Seq::empty(),
    }
}

/// The whole command line of a launch.
pub open spec fn launch_args_spec(l: Launch) -> Seq<Seq<char>> {
    let screens = screens_spec(l.vnc_displays@.len());
    base_args(l) + vnc_args_spec(l.vnc_displays@, screens > 1) + display_args_spec(
        image_target(l.image),
        l.console,
        screens,
    ) + pointer_args_spec(image_target(l.image)) + login_args_spec(l.login) + firmware_args_spec(
        l.firmware,
    )
}

/// `value` follows `flag` somewhere in `args`.
pub open spec fn given_as(args: Seq<Seq<char>>, flag: Seq<char>, value: Seq<char>) -> bool {
    exists|i: int| 0 <= i && i + 1 < args.len() && #[trigger] args[i] == flag && args[i + 1] == value
}

/// A guest gets the memory and the processors its launch asks for: the value
/// after `-m` is the launch's memory in MiB, and the value after `-smp` is its
/// processor count. It boots from the launch's overlay, its SSH port on the
/// host loopback reaches the guest's port 22, and its monitor listens on the
/// launch's QMP port.
pub proof fn lemma_the_guest_gets_its_memory_and_cpus(l: Launch)
    ensures
        given_as(launch_args_spec(l), "-m"@, dec(l.memory_mb as nat)),
        given_as(launch_args_spec(l), "-smp"@, dec(l.cpus as nat)),
        given_as(launch_args_spec(l), "-drive"@, "file="@ + l.overlay@ + ",if=none,id=hd0,format=qcow2"@),
        given_as(launch_args_spec(l), "-netdev"@, "user,id=net0,hostfwd=tcp:127.0.0.1:"@ + dec(l.ssh_port as nat) + "-:22"@),
        given_as(launch_args_spec(l), "-qmp"@, "tcp:127.0.0.1:"@ + dec(l.qmp_port as nat) + ",server=on,wait=off"@),
{
    let args = launch_args_spec(l);
    let b = base_args(l);
    assert(args.take(b.len() as int) =~= b) by {
        let screens = screens_spec(l.vnc_displays@.len());
        assert(args =~= b + (vnc_args_spec(l.vnc_displays@, screens > 1) + display_args_spec(
            image_target(l.image),
            l.console,
            screens,
        ) + pointer_args_spec(image_target(l.image)) + login_args_spec(l.login) + firmware_args_spec(l.firmware)));
    }
    assert(args[6] == b[6] && args[7] == b[7] && args[8] == b[8] && args[9] == b[9]);
    assert(args[6] == "-m"@ && args[7] == dec(l.memory_mb as nat));
    assert(args[8] == "-smp"@ && args[9] == dec(l.cpus as nat));
    assert(args[10] == b[10] && args[11] == b[11] && args[14] == b[14] && args[15] == b[15]);
    assert(args[20] == b[20] && args[21] == b[21]);
    assert(args[10] == "-drive"@ && args[11] == "file="@ + l.overlay@ + ",if=none,id=hd0,format=qcow2"@);
    assert(args[14] == "-netdev"@);
    assert(args[20] == "-qmp"@);
}

impl Launch {
    /// How many screens this machine has, which is how many consoles it has.
    pub fn screens(&self) -> (r: u16)
        ensures
            r == screens_spec(self.vnc_displays@.len()),
    {
        let n = self.vnc_displays.len();
        if n == 0 {
            1
        } else if n > 0xffff {
            0xffff
        } else {
            n as u16
        }
    }

    /// The command line: the machine, its disk and network, the monitor and the
    /// clock; one VNC server per screen; the display; the pointer; the session
    /// asked for; and the firmware, where there is some.
    pub fn args(&self) -> (r: Vec<String>)
        ensures
            views(r@) == launch_args_spec(*self),
    {
        let mut a: Vec<String> = Vec::new();
        push_view(&mut a, owned("-name"));
        push_view(&mut a, owned(self.name.as_str()));
        push_view(&mut a, owned("-machine"));
        let mut m = owned("q35,accel=");
        m.append(self.accelerator.as_str());
        push_view(&mut a, m);
        push_view(&mut a, owned("-cpu"));
        push_view(&mut a, owned("max"));
        push_view(&mut a, owned("-m"));
        push_view(&mut a, dec_string(self.memory_mb as u64));
        push_view(&mut a, owned("-smp"));
        push_view(&mut a, dec_string(self.cpus as u64));
        push_view(&mut a, owned("-drive"));
        let mut d = owned("file=");
        d.append(self.overlay.as_str());
        d.append(",if=none,id=hd0,format=qcow2");
        push_view(&mut a, d);
        push_view(&mut a, owned("-device"));
        let target = self.image.target();
        let mut disk = owned(disk_device_for(target));
        disk.append(",drive=hd0");
        push_view(&mut a, disk);
        push_view(&mut a, owned("-netdev"));
        let mut net = owned("user,id=net0,hostfwd=tcp:127.0.0.1:");
        let sp = dec_string(self.ssh_port as u64);
        net.append(sp.as_str());
        net.append("-:22");
        push_view(&mut a, net);
        push_view(&mut a, owned("-device"));
        let mut nic = owned(nic_device_for(target));
        nic.append(",netdev=net0");
        push_view(&mut a, nic);
        push_view(&mut a, owned("-display"));
        push_view(&mut a, owned("none"));
        push_view(&mut a, owned("-qmp"));
        let mut q = owned("tcp:127.0.0.1:");
        let qp = dec_string(self.qmp_port as u64);
        q.append(qp.as_str());
        q.append(",server=on,wait=off");
        push_view(&mut a, q);
        push_view(&mut a, owned("-rtc"));
        push_view(&mut a, owned("base=utc"));
        assert(views(a@) =~= base_args(*self));
        let screens = self.screens();
        let multi = screens > 1;
        let ghost base = views(a@);
        let mut h: usize = 0;
        while h < self.vnc_displays.len()
            invariant
                h <= self.vnc_displays@.len(),
                multi == (screens_spec(self.vnc_displays@.len()) > 1),
                views(a@) == base + vnc_args_spec(self.vnc_displays@.take(h as int), multi),
            decreases self.vnc_displays@.len() - h,
        {
            let display = self.vnc_displays[h];
            push_view(&mut a, owned("-vnc"));
            let mut v = owned("127.0.0.1:");
            let dp = dec_string(display as u64);
            v.append(dp.as_str());
            if multi {
                v.append(",display=");
                v.append(DISPLAY_DEVICE_ID);
                v.append(",head=");
                let hp = dec_string(h as u64);
                v.append(hp.as_str());
            }
            push_view(&mut a, v);
            proof {
                let t = self.vnc_displays@.take(h + 1);
                assert(t.drop_last() =~= self.vnc_displays@.take(h as int));
                assert(t.last() == display);
                assert(views(a@) =~= base + vnc_args_spec(t, multi));
            }
            h = h + 1;
        }
        assert(self.vnc_displays@.take(self.vnc_displays@.len() as int) =~= self.vnc_displays@);
        append_views(&mut a, display_args(target, self.console, screens));
        append_views(&mut a, pointer_args(target));
        let ghost before_login = views(a@);
        if let Some(login) = self.login {
            append_views(&mut a, fw_cfg_args(login));
        }
        assert(views(a@) =~= before_login + login_args_spec(self.login));
        let ghost before_fw = views(a@);
        if let Some(fw) = &self.firmware {
            push_view(&mut a, owned("-drive"));
            let mut c = owned("if=pflash,format=raw,unit=0,readonly=on,file=");
            c.append(fw.code.as_str());
            push_view(&mut a, c);
            push_view(&mut a, owned("-drive"));
            let mut v = owned("if=pflash,format=raw,unit=1,file=");
            v.append(fw.vars.as_str());
            push_view(&mut a, v);
        }
        assert(views(a@) =~= before_fw + firmware_args_spec(self.firmware));
        assert(views(a@) =~= launch_args_spec(*self));
        a
    }

    /// Check the command line before spawning it: every `if=` field of every
    /// argument names an interface QEMU accepts.
    pub fn validate(&self) -> (r: Result<(), String>)
        ensures
            match r {
                Ok(()) => forall|i: int|
                    0 <= i < launch_args_spec(*self).len() ==> interfaces_ok(
                        #[trigger] launch_args_spec(*self)[i],
                    ),
                Err(e) => exists|i: int|
                    0 <= i < launch_args_spec(*self).len() && first_bad_interface(
                        #[trigger] launch_args_spec(*self)[i],
                        e@,
                    ) && forall|k: int| 0 <= k < i ==> interfaces_ok(#[trigger] launch_args_spec(*self)[k]),
            },
    {
        let args = self.args();
        let mut i: usize = 0;
        while i < args.len()
            invariant
                i <= args@.len(),
                views(args@) == launch_args_spec(*self),
                forall|k: int| 0 <= k < i ==> interfaces_ok(#[trigger] views(args@)[k]),
            decreases args@.len() - i,
        {
            match bad_interface(args[i].as_str()) {
                Some(value) => {
                    let mut e = owned("the drive interface '");
                    e.append(value.as_str());
                    e.append("' is not one QEMU accepts (");
                    let known = drive_interfaces();
                    let j = join(&known, ", ");
                    e.append(j.as_str());
                    e.append("); this is a bug in the xtask, not in the host");
                    assert(views(args@)[i as int] == args@[i as int]@);
                    assert(e@ == interface_refusal(value@));
                    assert(first_bad_interface(views(args@)[i as int], e@));
                    return Err(e);
                },
                None => {},
            }
            i = i + 1;
        }
        Ok(())
    }
}

/// Whether `value` is one of the interfaces `-drive if=` accepts.
pub open spec fn known_interface(value: Seq<char>) -> bool {
    exists|k: int| 0 <= k < 9 && (#[trigger] DRIVE_INTERFACES@[k])@ == value
}

/// Whether every comma-separated field of an argument that is an `if=` names
/// an interface QEMU accepts.
pub open spec fn interfaces_ok(arg: Seq<char>) -> bool {
    forall|i: int|
        0 <= i < split_spec(arg, ',').len() && starts_with_spec(#[trigger] split_spec(arg, ',')[i], "if="@)
            ==> known_interface(split_spec(arg, ',')[i].skip(3))
}

/// The interfaces QEMU accepts, as text.
pub open spec fn drive_interface_names() -> Seq<Seq<char>> {
    DRIVE_INTERFACES@.map_values(|s: &'static str| s@)
}

/// The refusal of a drive interface QEMU would not accept: the value, the
/// list it accepts, and whose mistake it is.
pub open spec fn interface_refusal(value: Seq<char>) -> Seq<char> {
    "the drive interface '"@ + value + "' is not one QEMU accepts ("@ + join_spec(drive_interface_names(), ", "@)
        + "); this is a bug in the xtask, not in the host"@
}

/// `e` refuses the first `if=` field of `arg` that names an interface QEMU
/// does not accept.
pub open spec fn first_bad_interface(arg: Seq<char>, e: Seq<char>) -> bool {
    let fields = split_spec(arg, ',');
    exists|j: int|
        0 <= j < fields.len() && starts_with_spec(#[trigger] fields[j], "if="@) && !known_interface(
            fields[j].skip(3),
        ) && e == interface_refusal(fields[j].skip(3)) && forall|m: int|
            0 <= m < j && starts_with_spec(#[trigger] fields[m], "if="@) ==> known_interface(
                fields[m].skip(3),
            )
}

fn drive_interfaces() -> (r: Vec<String>)
    ensures
        views(r@) == drive_interface_names(),
{
    let mut out: Vec<String> = Vec::new();
    let mut k: usize = 0;
    while k < 9
        invariant
            k <= 9,
            views(out@) == drive_interface_names().take(k as int),
        decreases 9 - k,
    {
        let ghost before = views(out@);
        out.push(owned(DRIVE_INTERFACES[k]));
        assert(views(out@) =~= before.push(DRIVE_INTERFACES[k as int]@));
        assert(drive_interface_names().take(k + 1) =~= drive_interface_names().take(k as int).push(
            DRIVE_INTERFACES[k as int]@,
        ));
        k = k + 1;
    }
    assert(drive_interface_names().take(9) =~= drive_interface_names());
    out
}

/// The first `if=` value in an argument that QEMU would refuse.
fn bad_interface(arg: &str) -> (r: Option<String>)
    ensures
        r is None <==> interfaces_ok(arg@),
        match r {
            Some(v) => first_bad_interface(arg@, interface_refusal(v@)),
            None => true,
        },
{
    let fields = split_char(arg, ',');
    let mut i: usize = 0;
    proof {
        reveal_strlit("if=");
    }
    while i < fields.len()
        invariant
            i <= fields@.len(),
            views(fields@) == split_spec(arg@, ','),
            "if="@.len() == 3,
            forall|k: int|
                0 <= k < i && starts_with_spec(#[trigger] views(fields@)[k], "if="@) ==> known_interface(
                    views(fields@)[k].skip(3),
                ),
        decreases fields@.len() - i,
    {
        match strip_prefix(fields[i].as_str(), "if=") {
            Some(value) => {
                let mut k: usize = 0;
                let mut known = false;
                while k < 9
                    invariant
                        k <= 9,
                        known ==> known_interface(value@),
                        !known ==> forall|m: int| 0 <= m < k ==> (#[trigger] DRIVE_INTERFACES@[m])@ != value@,
                    decreases 9 - k,
                {
                    if !known && crate::text::str_eq(DRIVE_INTERFACES[k], value.as_str()) {
                        known = true;
                        assert(DRIVE_INTERFACES@[k as int]@ == value@);
                    }
                    k = k + 1;
                }
                if !known {
                    assert(views(fields@)[i as int] == fields@[i as int]@);
                    assert(starts_with_spec(split_spec(arg@, ',')[i as int], "if="@));
                    return Some(value);
                }
            },
            None => {},
        }
        i = i + 1;
    }
    None
}

/// The launch parameters of a guest, from its record: the ports it recorded,
/// with the usual ones standing in for a record written before ports could
/// move; its consoles; the session it asked for.
pub fn launch_for(
    image: Image,
    state: &RunState,
    accelerator: &str,
    firmware: Option<Firmware>,
    console: (u32, u32),
) -> (r: Launch)
    ensures
        r.name@ == vm_name_spec(image),
        r.overlay@ == state.overlay@,
        r.image == image,
        (r.memory_mb, r.cpus) == resources_spec(image),
        r.accelerator@ == accelerator@,
        r.ssh_port == if state.ssh_port == 0 {
            SSH_PORT
        } else {
            state.ssh_port
        },
        r.qmp_port == match state.qmp_port {
            Some(p) => p,
            None => QMP_PORT,
        },
        r.vnc_displays@ == vnc_displays_spec(*state),
        r.firmware == firmware,
        r.console == console,
        match from_record_spec(opt_view(state.desktop), opt_view(state.session_type)) {
            Some((d, t)) => r.login matches Some(l) && l.desktop_spec() == d && l.session_type_spec() == t,
            None => r.login is None,
        },
{
    let (memory_mb, cpus) = resources_for(image);
    Launch {
        name: image.vm_name(),
        overlay: owned(state.overlay.as_str()),
        image,
        memory_mb,
        cpus,
        accelerator: owned(accelerator),
        ssh_port: if state.ssh_port == 0 {
            SSH_PORT
        } else {
            state.ssh_port
        },
        qmp_port: match state.qmp_port {
            Some(p) => p,
            None => QMP_PORT,
        },
        vnc_displays: vnc_displays_of(state),
        firmware,
        console,
        login: state.login(),
    }
}

pub open spec fn insist_line_spec(vm_name: Seq<char>, asked: bool, grace_ms: u64) -> Seq<char> {
    "  "@ + vm_name + " "@ + (if asked {
        "has not shut down in "@ + round_secs_spec(grace_ms) + "s"@
    } else {
        "could not be asked to shut down over QMP"@
    }) + "; killing it, so its disk will need a repair pass"@
}

/// What a stop or a destroy says at the moment it stops asking: a guest that
/// was asked and did not comply in the grace, or one that could not be asked.
pub fn insist_line(vm_name: &str, asked: bool, grace_ms: u64) -> (r: String)
    ensures
        r@ == insist_line_spec(vm_name@, asked, grace_ms),
{
    let mut r = owned("  ");
    r.append(vm_name);
    r.append(" ");
    if asked {
        r.append("has not shut down in ");
        let g = round_secs(grace_ms);
        r.append(g.as_str());
        r.append("s");
    } else {
        r.append("could not be asked to shut down over QMP");
    }
    r.append("; killing it, so its disk will need a repair pass");
    r
}

/// `qemu-img create` for a differencing child of another disk, the backing
/// format stated.
pub fn overlay_args(golden: &str, overlay: &str) -> (r: Vec<String>)
    ensures
        views(r@) == seq!["create"@, "-f"@, "qcow2"@, "-F"@, "qcow2"@, "-b"@, golden@, overlay@],
{
    let mut a: Vec<String> = Vec::new();
    push_view(&mut a, owned("create"));
    push_view(&mut a, owned("-f"));
    push_view(&mut a, owned("qcow2"));
    push_view(&mut a, owned("-F"));
    push_view(&mut a, owned("qcow2"));
    push_view(&mut a, owned("-b"));
    push_view(&mut a, owned(golden));
    push_view(&mut a, owned(overlay));
    assert(views(a@) =~= seq!["create"@, "-f"@, "qcow2"@, "-F"@, "qcow2"@, "-b"@, golden@, overlay@]);
    a
}

/// The address of a recorded console, as a record writes it.
pub fn console_address(port: u16) -> (r: String)
    ensures
        r@ == "127.0.0.1:"@ + dec(port as nat),
{
    loopback_address(port)
}

/// What a Linux guest is booting into, as the start line says it.
pub open spec fn booting_into(image: Image, login: Option<Login>) -> Seq<char> {
    if image_has_desktop(image) {
        match login {
            Some(l) => "the "@ + login_label(l.desktop_spec(), l.session_type_spec()) + " session"@,
            None => "the image's own default desktop"@,
        }
    } else {
        "a text console, since this image has no desktop"@
    }
}

pub open spec fn console_line_spec(l: Launch) -> Seq<char> {
    let n = screens_spec(l.vnc_displays@.len());
    "console: "@ + dec(l.console.0 as nat) + "x"@ + dec(l.console.1 as nat) + (if n == 1 {
        Seq::<char>::empty()
    } else {
        ", "@ + dec(n as nat) + " screens"@
    }) + ", into "@ + booting_into(l.image, l.login)
}

/// The line a start prints about a Linux guest's console: its size, its
/// screens past the first, and the session it boots into. A Windows guest's
/// start prints none.
pub fn console_line(launch: &Launch) -> (r: Option<String>)
    ensures
        match image_target(launch.image) {
            Target::Linux => r matches Some(s) && s@ == console_line_spec(*launch),
            Target::Windows => r is None,
        },
{
    match launch.image.target() {
        Target::Windows => None,
        Target::Linux => {
            let mut r = owned("console: ");
            let w = dec_string(launch.console.0 as u64);
            r.append(w.as_str());
            r.append("x");
            let h = dec_string(launch.console.1 as u64);
            r.append(h.as_str());
            let n = launch.screens();
            if n != 1 {
                r.append(", ");
                let t = dec_string(n as u64);
                r.append(t.as_str());
                r.append(" screens");
            }
            r.append(", into ");
            if launch.image.has_desktop() {
                match launch.login {
                    Some(l) => {
                        r.append("the ");
                        r.append(l.label());
                        r.append(" session");
                    },
                    None => r.append("the image's own default desktop"),
                }
            } else {
                r.append("a text console, since this image has no desktop");
            }
            Some(r)
        },
    }
}

/// Record how the guest is reached: three loopback ports, picked by the
/// caller, and the account the images create.
pub fn fill_in_address(state: &mut RunState, ssh_port: u16, qmp_port: u16, vnc_port: u16)
    ensures
        final(state).ssh_host@ == "127.0.0.1"@,
        final(state).ssh_user@ == GUEST_USER@,
        final(state).ssh_port == ssh_port,
        final(state).qmp_port == Some(qmp_port),
        final(state).vnc matches Some(v) && v@ == "127.0.0.1:"@ + dec(vnc_port as nat),
        final(state).vnc_heads == old(state).vnc_heads,
        final(state).pid == old(state).pid,
        final(state).image == old(state).image,
        final(state).vm_name == old(state).vm_name,
        final(state).overlay == old(state).overlay,
        final(state).screens == old(state).screens,
{
    state.ssh_host = owned("127.0.0.1");
    state.ssh_user = owned(GUEST_USER);
    state.ssh_port = ssh_port;
    state.qmp_port = Some(qmp_port);
    state.vnc = Some(loopback_address(vnc_port));
}

/// The port the walk for the next console starts from: one past the port of
/// the display before it, or the last port there is.
pub open spec fn port_after(display: u16) -> u16 {
    if display as int + VNC_BASE_PORT as int + 1 > 0xffff {
        0xffff
    } else {
        (display + VNC_BASE_PORT + 1) as u16
    }
}

/// The display a port is, or the first one below the first VNC port.
pub open spec fn display_of_port(port: u16) -> u16 {
    if port >= VNC_BASE_PORT {
        (port - VNC_BASE_PORT) as u16
    } else {
        0
    }
}

/// The display of a record's first console.
pub open spec fn first_display(state: RunState) -> u16 {
    match state.vnc {
        Some(a) => display_of_address_spec(a@),
        None => VNC_DISPLAY,
    }
}

/// A record's first console: its address, or display 0's where it has none.
pub open spec fn first_console(state: RunState) -> Seq<char> {
    match state.vnc {
        Some(a) => a@,
        None => "127.0.0.1:"@ + dec((VNC_BASE_PORT + VNC_DISPLAY) as nat),
    }
}

/// How many screens a record asks for: one unless it says more.
pub open spec fn screens_of(state: RunState) -> u16 {
    match state.screens {
        Some(n) => if n == 0 {
            1
        } else {
            n
        },
        None => 1,
    }
}

/// Where a walk for a free port from `preferred` stops: `PORT_WALK` ports on,
/// or at the last port there is.
pub open spec fn walk_end(preferred: u16) -> u16 {
    if preferred as int + PORT_WALK as int > 0xffff {
        0xffff
    } else {
        (preferred + PORT_WALK) as u16
    }
}

/// The refusal when no port of a walk from `preferred` could be bound.
pub open spec fn walk_refusal(preferred: u16) -> Seq<char> {
    "no bindable TCP port on 127.0.0.1 between "@ + dec(preferred as nat) + " and "@ + dec(
        walk_end(preferred) as nat,
    )
        + ": every one is in use or reserved. On a Windows host, `netsh interface ipv4 show excludedportrange protocol=tcp` lists the reserved blocks."@
}

/// A walk from `preferred` that `can_bind` answered ended on `port`: the first
/// port from there, before the walk's end, that could be bound.
#[verifier::opaque]
pub open spec fn walked_to<B: Fn(u16) -> bool>(can_bind: B, preferred: u16, port: u16) -> bool {
    &&& preferred <= port < walk_end(preferred)
    &&& can_bind.ensures((port,), true)
    &&& forall|q: u16| preferred <= q < port ==> #[trigger] can_bind.ensures((q,), false)
}

/// Every port of the walk from `preferred` was refused.
pub open spec fn walk_refused<B: Fn(u16) -> bool>(can_bind: B, preferred: u16) -> bool {
    forall|q: u16| preferred <= q < walk_end(preferred) ==> #[trigger] can_bind.ensures((q,), false)
}

/// The first port at or after `preferred`, within `PORT_WALK` of it, that can
/// be bound on loopback now, asking `can_bind` of each in turn. Binding is how
/// it is asked, because the two ways a port can be refused (something listens
/// on it, or the host has reserved it) look alike from anywhere else.
pub fn free_port_from<B: Fn(u16) -> bool>(preferred: u16, can_bind: &B) -> (r: Result<u16, String>)
    requires
        forall|p: u16| #[trigger] can_bind.requires((p,)),
    ensures
        match r {
            Ok(p) => walked_to(*can_bind, preferred, p),
            Err(e) => walk_refused(*can_bind, preferred) && e@ == walk_refusal(preferred),
        },
{
    let end: u16 = if preferred as u32 + PORT_WALK as u32 > 0xffff {
        0xffff
    } else {
        preferred + PORT_WALK
    };
    let mut port = preferred;
    while port < end
        invariant
            preferred <= port <= end,
            end == walk_end(preferred),
            forall|p: u16| #[trigger] can_bind.requires((p,)),
            forall|q: u16| preferred <= q < port ==> #[trigger] can_bind.ensures((q,), false),
        decreases end - port,
    {
        let free = can_bind(port);
        if free {
            proof {
                reveal(walked_to);
            }
            return Ok(port);
        }
        port = port + 1;
    }
    let mut e = owned("no bindable TCP port on 127.0.0.1 between ");
    e.append(dec_string(preferred as u64).as_str());
    e.append(" and ");
    e.append(dec_string(end as u64).as_str());
    e.append(
        ": every one is in use or reserved. On a Windows host, `netsh interface ipv4 show excludedportrange protocol=tcp` lists the reserved blocks.",
    );
    Err(e)
}

/// Whether `ports` are what a walk from display `first` picked, asking
/// `can_bind`: each one where the walk from one past the port before ended.
pub open spec fn picked_walk<B: Fn(u16) -> bool>(can_bind: B, first: u16, ports: Seq<u16>) -> bool {
    forall|k: int| 0 <= k < ports.len() ==> #[trigger] walked_to(can_bind, walk_start(first, ports, k), ports[k])
}

/// Where the walk for the `k`th further console starts: one past the port of
/// the console before it.
pub open spec fn walk_start(first: u16, ports: Seq<u16>, k: int) -> u16 {
    port_after(
        if k == 0 {
            first
        } else {
            display_of_port(ports[k - 1])
        },
    )
}

/// Where a walk ends lies within the walk.
proof fn lemma_walked_to_range<B: Fn(u16) -> bool>(can_bind: B, preferred: u16, port: u16)
    requires
        walked_to(can_bind, preferred, port),
    ensures
        preferred <= port < walk_end(preferred),
{
    reveal(walked_to);
}

/// One more port walked from one past the last keeps a walk a walk, and keeps
/// its ports rising.
proof fn lemma_walk_extends<B: Fn(u16) -> bool>(can_bind: B, first: u16, ports: Seq<u16>, port: u16)
    requires
        picked_walk(can_bind, first, ports),
        forall|k: int| #![trigger ports[k - 1], ports[k]] 0 < k < ports.len() ==> ports[k - 1] < ports[k],
        ports.len() > 0 ==> display_of_port(ports.last()) as int + VNC_BASE_PORT as int == ports.last() as int,
        walked_to(can_bind, walk_start(first, ports, ports.len() as int), port),
    ensures
        picked_walk(can_bind, first, ports.push(port)),
        forall|k: int|
            #![trigger ports.push(port)[k - 1], ports.push(port)[k]]
            0 < k < ports.push(port).len() ==> ports.push(port)[k - 1] < ports.push(port)[k],
{
    let next = ports.push(port);
    let n = ports.len() as int;
    lemma_walked_to_range(can_bind, walk_start(first, ports, n), port);
    assert forall|k: int| 0 <= k < next.len() implies #[trigger] walked_to(can_bind, walk_start(first, next, k), next[k]) by {
        if k < n {
            assert(next[k] == ports[k]);
            assert(walk_start(first, next, k) == walk_start(first, ports, k));
            assert(walked_to(can_bind, walk_start(first, ports, k), ports[k]));
        } else {
            assert(walk_start(first, next, k) == walk_start(first, ports, n));
        }
    }
    assert forall|k: int| #![trigger next[k - 1], next[k]] 0 < k < next.len() implies next[k - 1] < next[k] by {
        if k < n {
            assert(next[k] == ports[k] && next[k - 1] == ports[k - 1]);
        } else {
            assert(next[k - 1] == ports.last());
        }
    }
}

/// Give a guest one console per screen, on top of the first one
/// `fill_in_address` already picked; nothing for a single-screen guest.
///
/// Each further port is the first free one from one past the last, which
/// keeps two screens off the same port and the displays rising. Whether a port
/// is free is `can_bind`'s to say, because it is found out by binding it.
pub fn fill_in_consoles<B: Fn(u16) -> bool>(state: &mut RunState, can_bind: &B) -> (r: Result<(), String>)
    requires
        forall|p: u16| #[trigger] can_bind.requires((p,)),
    ensures
        final(state).vnc == old(state).vnc,
        final(state).screens == old(state).screens,
        final(state).ssh_port == old(state).ssh_port,
        final(state).qmp_port == old(state).qmp_port,
        final(state).pid == old(state).pid,
        final(state).vm_name == old(state).vm_name,
        final(state).image == old(state).image,
        final(state).overlay == old(state).overlay,
        final(state).reason == old(state).reason,
        final(state).stopped == old(state).stopped,
        screens_of(*old(state)) < 2 ==> r is Ok && *final(state) == *old(state),
        *final(state) == (RunState { vnc_heads: final(state).vnc_heads, ..*old(state) }),
        screens_of(*old(state)) >= 2 && r is Ok ==> exists|ports: Seq<u16>|
            ports.len() + 1 == screens_of(*old(state)) && picked_walk(*can_bind, first_display(*old(state)), ports)
                && (forall|k: int| #![trigger ports[k - 1], ports[k]] 0 < k < ports.len() ==> ports[k - 1] < ports[k])
                && views(final(state).vnc_heads@) == seq![first_console(*old(state))] + ports.map_values(
                |p: u16| "127.0.0.1:"@ + dec(p as nat),
            ),
        r is Err ==> *final(state) == *old(state),
        match r {
            Err(e) => exists|from: u16| walk_refused(*can_bind, from) && e@ == #[trigger] walk_refusal(from),
            Ok(()) => true,
        },
{
    let screens = state.screen_count() as usize;
    if screens < 2 {
        return Ok(());
    }
    let ghost st = *state;
    let first = match &state.vnc {
        Some(a) => owned(a.as_str()),
        None => loopback_address(vnc_port(VNC_DISPLAY)),
    };
    let mut last: u16 = match &state.vnc {
        Some(a) => display_of_address(a.as_str()),
        None => VNC_DISPLAY,
    };
    let mut heads: Vec<String> = Vec::new();
    heads.push(first);
    let ghost mut ports: Seq<u16> = Seq::empty();
    assert(views(heads@) =~= seq![first_console(st)] + ports.map_values(|p: u16| "127.0.0.1:"@ + dec(p as nat)));
    while heads.len() < screens
        invariant
            st == *state,
            st == *old(state),
            2 <= screens <= 0xffff,
            screens == screens_of(st),
            1 <= heads.len() <= screens,
            heads.len() == ports.len() + 1,
            views(heads@) == seq![first_console(st)] + ports.map_values(|p: u16| "127.0.0.1:"@ + dec(p as nat)),
            last as int + VNC_BASE_PORT as int <= 0xffff,
            last == (if ports.len() == 0 {
                first_display(st)
            } else {
                display_of_port(ports.last())
            }),
            ports.len() > 0 ==> display_of_port(ports.last()) as int + VNC_BASE_PORT as int == ports.last() as int,
            picked_walk(*can_bind, first_display(st), ports),
            forall|k: int| #![trigger ports[k - 1], ports[k]] 0 < k < ports.len() ==> ports[k - 1] < ports[k],
            forall|p: u16| #[trigger] can_bind.requires((p,)),
        decreases screens - heads.len(),
    {
        let here = vnc_port(last);
        let preferred = if here == 0xffff {
            here
        } else {
            here + 1
        };
        assert(preferred == port_after(last));
        assert(preferred == walk_start(first_display(st), ports, ports.len() as int));
        let answer = free_port_from(preferred, can_bind);
        match answer {
            Err(e) => {
                assert(walk_refusal(preferred) == e@);
                return Err(e);
            },
            Ok(port) => {
                last = if port >= VNC_BASE_PORT {
                    port - VNC_BASE_PORT
                } else {
                    0
                };
                let address = loopback_address(port);
                let ghost before = heads@;
                heads.push(address);
                proof {
                    let old_ports = ports;
                    ports = ports.push(port);
                    assert(ports.map_values(|p: u16| "127.0.0.1:"@ + dec(p as nat)) =~= old_ports.map_values(
                        |p: u16| "127.0.0.1:"@ + dec(p as nat),
                    ).push("127.0.0.1:"@ + dec(port as nat)));
                    assert(views(heads@) =~= views(before).push(address@));
                    lemma_walked_to_range(*can_bind, preferred, port);
                    lemma_walk_extends(*can_bind, first_display(st), old_ports, port);
                }
            },
        }
    }
    state.vnc_heads = heads;
    Ok(())
}

pub open spec fn post_mortem_spec(name: Seq<char>, log: Seq<char>, text: Option<Seq<char>>) -> Seq<char> {
    match text {
        Some(t) => if log_tail_spec(t).len() == 0 {
            name + "'s qemu process has exited without printing anything; its command line is the first line of "@
                + log
        } else {
            name + "'s qemu process has exited. Its log ends with:\n    "@ + join_spec(log_tail_spec(t), "\n    "@)
                + "\n  the full log is "@ + log
        },
        None => name + "'s qemu process has exited, and there is no log at "@ + log,
    }
}

/// What there is to say about a QEMU that is no longer running: its last
/// words, read from its log (`text`, where the log could be read).
pub fn post_mortem(name: &str, log: &str, text: Option<&str>) -> (r: String)
    ensures
        r@ == post_mortem_spec(name@, log@, match text {
            Some(t) => Some(t@),
            None => None,
        }),
{
    let mut r = owned(name);
    match text {
        Some(t) => {
            let tail = log_tail(t);
            if tail.len() == 0 {
                r.append("'s qemu process has exited without printing anything; its command line is the first line of ");
                r.append(log);
            } else {
                r.append("'s qemu process has exited. Its log ends with:\n    ");
                let j = join(&tail, "\n    ");
                r.append(j.as_str());
                r.append("\n  the full log is ");
                r.append(log);
            }
        },
        None => {
            r.append("'s qemu process has exited, and there is no log at ");
            r.append(log);
        },
    }
    r
}

/// The first step of ending a guest, decided from what its recorded process is.
#[derive(Debug, Clone, PartialEq, Eq)]
pub enum EndStep {
    /// There is nothing to end.
    Finished(Stopped),
    /// The id is someone else's now, so nothing may be ended or deleted.
    Refused(String),
    /// The process is ours: ask it over QMP, then insist.
    Ask,
}

pub open spec fn reused_refusal(pid: u32, found: Seq<char>, state_file: Seq<char>) -> Seq<char> {
    "pid "@ + dec(pid as nat) + " is now "@ + found
        + ", not this VM's QEMU; the process id was reused, so nothing was stopped and nothing was deleted. Remove "@
        + state_file + " by hand once you are sure it is idle."@
}

pub fn end_first_step(pid: Option<u32>, ownership: &Ownership, state_file: &str) -> (r: EndStep)
    ensures
        match pid {
            None => r == EndStep::Finished(Stopped::WasNotRunning),
            Some(p) => match ownership {
                Ownership::Gone => r == EndStep::Finished(Stopped::WasNotRunning),
                Ownership::Foreign(found) => r matches EndStep::Refused(e) && e@ == reused_refusal(
                    p,
                    found@,
                    state_file@,
                ),
                Ownership::Ours => r == EndStep::Ask,
            },
        },
{
    let p = match pid {
        Some(p) => p,
        None => return EndStep::Finished(Stopped::WasNotRunning),
    };
    match ownership {
        Ownership::Gone => EndStep::Finished(Stopped::WasNotRunning),
        Ownership::Foreign(found) => {
            let mut e = owned("pid ");
            let n = dec_string(p as u64);
            e.append(n.as_str());
            e.append(" is now ");
            e.append(found.as_str());
            e.append(
                ", not this VM's QEMU; the process id was reused, so nothing was stopped and nothing was deleted. Remove ",
            );
            e.append(state_file);
            e.append(" by hand once you are sure it is idle.");
            EndStep::Refused(e)
        },
        Ownership::Ours => EndStep::Ask,
    }
}

pub open spec fn unkillable_spec(pid: u32) -> Seq<char> {
    "pid "@ + dec(pid as nat) + " is still running after being asked and then told to stop"@
}

/// How an end that had to insist came out: killed where the process went
/// away, an error where it did not.
pub fn kill_outcome(pid: u32, gone: bool) -> (r: Result<Stopped, String>)
    ensures
        match r {
            Ok(s) => gone && s == Stopped::Killed,
            Err(e) => !gone && e@ == unkillable_spec(pid),
        },
{
    if gone {
        Ok(Stopped::Killed)
    } else {
        let mut e = owned("pid ");
        let n = dec_string(pid as u64);
        e.append(n.as_str());
        e.append(" is still running after being asked and then told to stop");
        Err(e)
    }
}

/// Whether a guest whose process is this is still running.
pub fn running(ownership: &Ownership) -> (r: bool)
    ensures
        r == (*ownership == Ownership::Ours),
{
    match ownership {
        Ownership::Ours => true,
        _ => false,
    }
}

/// The addresses a viewer is pointed at: every console the record names, or
/// the first display's where it names none.
pub fn console_addresses(state: &RunState) -> (r: Vec<String>)
    ensures
        views(r@) == if consoles_spec(*state).len() == 0 {
            seq!["127.0.0.1:"@ + dec(VNC_BASE_PORT as nat)]
        } else {
            views(consoles_spec(*state))
        },
{
    let c = state.consoles();
    if c.len() == 0 {
        let mut out: Vec<String> = Vec::new();
        push_view(&mut out, loopback_address(VNC_BASE_PORT));
        assert(views(out@) =~= seq!["127.0.0.1:"@ + dec(VNC_BASE_PORT as nat)]);
        return out;
    }
    c
}

pub open spec fn viewer_note_spec(viewer: Seq<char>, addresses: Seq<Seq<char>>) -> Seq<char> {
    viewer + " is connecting to "@ + join_spec(addresses, " and "@)
}

/// What `vm view` says once a viewer is starting on every console.
pub fn viewer_note(viewer: &str, addresses: &Vec<String>) -> (r: String)
    ensures
        r@ == viewer_note_spec(viewer@, views(addresses@)),
{
    let mut r = owned(viewer);
    r.append(" is connecting to ");
    let j = join(addresses, " and ");
    r.append(j.as_str());
    r
}

pub open spec fn no_viewer_note_spec(addresses: Seq<Seq<char>>) -> Seq<char> {
    "no VNC viewer found. The "@ + (if addresses.len() == 1 {
        "console is"@
    } else {
        "consoles are"@
    }) + " at "@ + join_spec(addresses, " and "@) + ", with no password; point any VNC client at "@ + (if addresses.len()
        == 1 {
        "it"@
    } else {
        "them"@
    }) + ". `cargo xtask vm doctor` lists the names looked for."@
}

/// What `vm view` says when no viewer is installed: the addresses, which are
/// all the answer there is.
pub fn no_viewer_note(addresses: &Vec<String>) -> (r: String)
    ensures
        r@ == no_viewer_note_spec(views(addresses@)),
{
    let one = addresses.len() == 1;
    let mut r = owned("no VNC viewer found. The ");
    if one {
        r.append("console is");
    } else {
        r.append("consoles are");
    }
    r.append(" at ");
    let j = join(addresses, " and ");
    r.append(j.as_str());
    r.append(", with no password; point any VNC client at ");
    if one {
        r.append("it");
    } else {
        r.append("them");
    }
    r.append(". `cargo xtask vm doctor` lists the names looked for.");
    r
}

pub open spec fn viewer_failure_spec(viewer: Seq<char>, opened: nat, address: Seq<char>, error: Seq<char>) -> Seq<char> {
    if opened == 0 {
        "cannot start "@ + viewer + ": "@ + error
    } else if opened == 1 {
        "cannot start "@ + viewer + " for the screen at "@ + address + ": "@ + error
            + ". The viewer already open on the first screen stays open."@
    } else {
        "cannot start "@ + viewer + " for the screen at "@ + address + ": "@ + error + ". The "@ + dec(opened)
            + " viewers already open stay open."@
    }
}

/// The refusal for a viewer that would not start on one of the screens,
/// naming the ones already open.
pub fn viewer_failure(viewer: &str, opened: usize, address: &str, error: &str) -> (r: String)
    ensures
        r@ == viewer_failure_spec(viewer@, opened as nat, address@, error@),
{
    let mut r = owned("cannot start ");
    r.append(viewer);
    if opened == 0 {
        r.append(": ");
        r.append(error);
    } else {
        r.append(" for the screen at ");
        r.append(address);
        r.append(": ");
        r.append(error);
        if opened == 1 {
            r.append(". The viewer already open on the first screen stays open.");
        } else {
            r.append(". The ");
            let n = dec_string(opened as u64);
            r.append(n.as_str());
            r.append(" viewers already open stay open.");
        }
    }
    r
}

} // verus!
