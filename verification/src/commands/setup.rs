//! What `setup` decides before and around the plan it carries out: whether
//! this host can be set up by this account at all, how each step of the plan
//! is shown, and whether the WSL distribution is ready to build.

use vstd::prelude::*;

use crate::host::facts::WSL_DISTRO;
use crate::provider::target::{host_name, HostOs};
use crate::runner::{Cmd, CommandOutput};
use crate::text::{contains, contains_spec, owned, views};

verus! {

/// Whether setup goes on to make a plan for this host.
#[derive(Debug, Clone, PartialEq, Eq)]
pub enum SetupGate {
    /// Make the plan.
    Plan,
    /// A Windows host, in a shell that is not elevated: say how to get one,
    /// and exit 1.
    NotElevated,
    /// A host no guest runs on, refused with this reason.
    Unsupported(String),
}

pub open spec fn unsupported_host_spec() -> Seq<char> {
    "this host is not a supported VM host; macOS coverage runs on hosted CI runners"@
}

/// Setup needs an elevated shell on Windows, and a host that is Windows or
/// Linux at all.
pub fn setup_gate(host: HostOs, elevated: bool) -> (r: SetupGate)
    ensures
        match host {
            HostOs::Windows => r == (if elevated {
                SetupGate::Plan
            } else {
                SetupGate::NotElevated
            }),
            HostOs::Linux => r == SetupGate::Plan,
            HostOs::Other => r matches SetupGate::Unsupported(e) && e@ == unsupported_host_spec(),
        },
{
    match host {
        HostOs::Windows => {
            if elevated {
                SetupGate::Plan
            } else {
                SetupGate::NotElevated
            }
        },
        HostOs::Linux => SetupGate::Plan,
        HostOs::Other => SetupGate::Unsupported(
            owned("this host is not a supported VM host; macOS coverage runs on hosted CI runners"),
        ),
    }
}

/// The line heading the plan: the host, and where the store is.
pub fn plan_header(host: HostOs, store_root: &str) -> (r: String)
    ensures
        r@ == "setup plan for "@ + host_name(host) + " ("@ + store_root@ + ")"@,
{
    let mut r = owned("setup plan for ");
    r.append(host.name());
    r.append(" (");
    r.append(store_root);
    r.append(")");
    r
}

/// One step of the plan as it is shown: whether it runs, its name, its note.
pub fn step_line(needed: bool, name: &str, note: &str) -> (r: String)
    ensures
        r@ == "  ["@ + (if needed {
            "run "@
        } else {
            "skip"@
        }) + "] "@ + name@ + ": "@ + note@,
{
    let mut r = owned("  [");
    if needed {
        r.append("run ");
    } else {
        r.append("skip");
    }
    r.append("] ");
    r.append(name);
    r.append(": ");
    r.append(note);
    r
}

/// What setup exits with: 1 where a step failed, 0 otherwise.
pub fn setup_exit(failed: usize) -> (r: u8)
    ensures
        r == (if failed == 0 {
            0u8
        } else {
            1u8
        }),
{
    if failed == 0 {
        0
    } else {
        1
    }
}

/// What the WSL readiness probe prints when the distribution can build.
pub const WSL_READY_MARK: &'static str = "READY";

pub open spec fn wsl_probe_script() -> Seq<char> {
    "command -v cargo >/dev/null && command -v clang >/dev/null && echo READY"@
}

/// Asking the distribution, as the account that will build, whether it has
/// the toolchain and the build dependencies.
pub fn wsl_probe_command() -> (r: Cmd)
    ensures
        r.program@ == "wsl.exe"@,
        views(r.args@) == seq!["-d"@, WSL_DISTRO@, "--"@, "bash"@, "-lc"@, wsl_probe_script()],
        r.cwd is None,
        !r.inherit_stderr,
        !r.interactive,
{
    let args = vec![
        owned("-d"),
        owned(WSL_DISTRO),
        owned("--"),
        owned("bash"),
        owned("-lc"),
        owned("command -v cargo >/dev/null && command -v clang >/dev/null && echo READY"),
    ];
    assert(views(args@) =~= seq!["-d"@, WSL_DISTRO@, "--"@, "bash"@, "-lc"@, wsl_probe_script()]);
    Cmd::new("wsl.exe").args(args)
}

/// Whether the distribution is ready to build: it is installed, and the probe
/// ran and printed the mark. `probe` is `None` where it was not run, since
/// there is no asking a distribution that is not there.
pub fn wsl_ready_answer(has_distro: bool, probe: &Option<Result<CommandOutput, String>>) -> (r: bool)
    ensures
        r == (has_distro && match probe {
            Some(Ok(out)) => contains_spec(out.stdout@, WSL_READY_MARK@),
            _ => false,
        }),
{
    if !has_distro {
        return false;
    }
    match probe {
        Some(Ok(out)) => contains(out.stdout.as_str(), WSL_READY_MARK),
        _ => false,
    }
}

} // verus!
