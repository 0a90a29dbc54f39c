//! Reaching a guest: the OpenSSH client, driven as a process.
//!
//! Both providers use the same client and the same options, so the argument
//! lists live here rather than in either of them.

use vstd::prelude::*;

use crate::paths::{plain_name, renamed, with_file_name};
use crate::fmt::{debug_opt_i32, debug_opt_i32_spec, round_secs, round_secs_spec};
use crate::runner::{Cmd, CommandOutput};
use crate::state::RunState;
use crate::text::{
    chars_of, contains, contains_spec, dec, dec_string, owned, replace_char, replace_char_spec,
    string_of, trim, trim_spec, views,
};

verus! {

/// Where a guest is and how to authenticate to it.
#[derive(Debug, Clone, PartialEq, Eq)]
pub struct SshTarget {
    pub user: String,
    pub host: String,
    pub port: u16,
    pub key: String,
}

impl SshTarget {
    pub fn from_state(state: &RunState, key: &str) -> (r: SshTarget)
        ensures
            r.user@ == state.ssh_user@,
            r.host@ == state.ssh_host@,
            r.port == state.ssh_port,
            r.key@ == key@,
    {
        SshTarget {
            user: owned(state.ssh_user.as_str()),
            host: owned(state.ssh_host.as_str()),
            port: state.ssh_port,
            key: owned(key),
        }
    }

    pub fn destination(&self) -> (r: String)
        ensures
            r@ == destination_spec(self.user@, self.host@),
    {
        let mut r = owned(self.user.as_str());
        r.append("@");
        r.append(self.host.as_str());
        r
    }
}

pub open spec fn destination_spec(user: Seq<char>, host: Seq<char>) -> Seq<char> {
    user + "@"@ + host
}

/// Where the last component of a path starts: after its last `/` or `\`.
pub open spec fn name_start(p: Seq<char>) -> int
    decreases p.len(),
{
    if p.len() == 0 {
        0
    } else if p.last() == '/' || p.last() == '\\' {
        p.len() as int
    } else {
        name_start(p.drop_last())
    }
}

pub(crate) fn name_start_of(v: &Vec<char>) -> (r: usize)
    ensures
        r == name_start(v@),
        r <= v.len(),
{
    let mut i = v.len();
    assert(v@.take(i as int) =~= v@);
    while i > 0 && v[i - 1] != '/' && v[i - 1] != '\\'
        invariant
            i <= v.len(),
            name_start(v@) == name_start(v@.take(i as int)),
        decreases i,
    {
        proof {
            assert(v@.take(i as int).drop_last() == v@.take(i - 1));
        }
        i = i - 1;
    }
    proof {
        if i > 0 {
            assert(v@.take(i as int).last() == v@[i - 1]);
        }
    }
    i
}

/// Where the host keys these connections collect are kept: beside the key pair
/// the guests trust, inside the image store. It is the key's path with its
/// file name replaced by `known_hosts`.
pub fn known_hosts(key: &str) -> (r: String)
    ensures
        hosts_of(key@, r@),
{
    proof {
        reveal_strlit("known_hosts");
        reveal_strlit(".");
        reveal_strlit("..");
        let n = "known_hosts"@;
        assert(n =~= seq!['k', 'n', 'o', 'w', 'n', '_', 'h', 'o', 's', 't', 's']);
        assert forall|i: int| 0 <= i < n.len() implies n[i] != '/' && n[i] != '\\' && n[i] != ':' by {
            assert(0 <= i < 11);
            if i == 0 {} else if i == 1 {} else if i == 2 {} else if i == 3 {} else if i == 4 {} else if i == 5 {}
            else if i == 6 {} else if i == 7 {} else if i == 8 {} else if i == 9 {} else {}
        }
        assert(n != "."@ && n != ".."@);
        assert(plain_name(n));
    }
    with_file_name(key, "known_hosts")
}

/// A known-hosts path as the option value `ssh` parses: double-quoted when it
/// has a space in it, since the option takes a whitespace-separated list of
/// files, and plain otherwise.
pub open spec fn hosts_option_spec(path: Seq<char>) -> Seq<char> {
    if contains_spec(path, " "@) {
        "UserKnownHostsFile=\""@ + path + "\""@
    } else {
        "UserKnownHostsFile="@ + path
    }
}

pub fn hosts_option(path: &str) -> (r: String)
    ensures
        r@ == hosts_option_spec(path@),
{
    if contains(path, " ") {
        let mut r = owned("UserKnownHostsFile=\"");
        r.append(path);
        r.append("\"");
        r
    } else {
        let mut r = owned("UserKnownHostsFile=");
        r.append(path);
        r
    }
}

/// The option naming the known-hosts file beside `key`.
pub fn known_hosts_option(key: &str) -> (r: String)
    ensures
        exists|p: Seq<char>| #[trigger] hosts_of(key@, p) && r@ == hosts_option_spec(p),
{
    let path = known_hosts(key);
    hosts_option(path.as_str())
}

pub open spec fn common_options_spec(key: Seq<char>, hosts: Seq<char>) -> Seq<Seq<char>> {
    seq![
        "-o"@,
        "StrictHostKeyChecking=no"@,
        "-o"@,
        hosts_option_spec(hosts),
        "-o"@,
        "BatchMode=yes"@,
        "-o"@,
        "IdentitiesOnly=yes"@,
        "-o"@,
        "ConnectTimeout=10"@,
        "-o"@,
        "LogLevel=ERROR"@,
        "-i"@,
        key,
    ]
}

/// The known-hosts file beside `key`: the key's path with its file name
/// replaced by `known_hosts`, which for a plain key path is the key's
/// directory, the platform's separator, and `known_hosts`.
pub open spec fn hosts_of(key: Seq<char>, hosts: Seq<char>) -> bool {
    renamed(key, "known_hosts"@, hosts)
}

/// The options every connection uses: no host-key prompt, the xtask's own
/// known-hosts file, and never a password or passphrase prompt.
pub fn common_options(key: &str) -> (r: Vec<String>)
    ensures
        exists|h: Seq<char>| #[trigger] hosts_of(key@, h) && views(r@) == common_options_spec(key@, h),
{
    let hosts = known_hosts(key);
    let mut v: Vec<String> = Vec::new();
    v.push(owned("-o"));
    v.push(owned("StrictHostKeyChecking=no"));
    v.push(owned("-o"));
    v.push(hosts_option(hosts.as_str()));
    v.push(owned("-o"));
    v.push(owned("BatchMode=yes"));
    v.push(owned("-o"));
    v.push(owned("IdentitiesOnly=yes"));
    v.push(owned("-o"));
    v.push(owned("ConnectTimeout=10"));
    v.push(owned("-o"));
    v.push(owned("LogLevel=ERROR"));
    v.push(owned("-i"));
    v.push(owned(key));
    assert(views(v@) =~= common_options_spec(key@, hosts@));
    assert(hosts_of(key@, hosts@));
    v
}

pub open spec fn ssh_args_spec(t: SshTarget, hosts: Seq<char>, remote: Option<Seq<char>>) -> Seq<Seq<char>> {
    let base = common_options_spec(t.key@, hosts) + seq![
        "-p"@,
        dec(t.port as nat),
        destination_spec(t.user@, t.host@),
    ];
    match remote {
        Some(c) => base.push(c),
        None => base,
    }
}

/// `value` follows `flag` somewhere in `args`.
pub open spec fn passed_as(args: Seq<Seq<char>>, flag: Seq<char>, value: Seq<char>) -> bool {
    exists|i: int| 0 <= i && i + 1 < args.len() && #[trigger] args[i] == flag && args[i + 1] == value
}

/// Every connection authenticates with the key its target names: in the
/// options, in every `ssh` invocation and in every `scp` one, the identity
/// after `-i` is the target's key, whatever the known-hosts file is. And each
/// goes to the target's port, `ssh` to its user at its host.
pub proof fn lemma_the_identity_is_the_key(t: SshTarget, hosts: Seq<char>, remote: Option<Seq<char>>, path: Seq<char>)
    ensures
        passed_as(common_options_spec(t.key@, hosts), "-i"@, t.key@),
        passed_as(ssh_args_spec(t, hosts, remote), "-i"@, t.key@),
        passed_as(scp_head(t, hosts) + seq![path, remote_spec(t, path)], "-i"@, t.key@),
        passed_as(scp_head(t, hosts) + seq![remote_spec(t, path), path], "-i"@, t.key@),
        passed_as(ssh_args_spec(t, hosts, remote), "-p"@, dec(t.port as nat)),
        ssh_args_spec(t, hosts, remote)[16] == t.user@ + "@"@ + t.host@,
        passed_as(scp_head(t, hosts), "-P"@, dec(t.port as nat)),
{
    let o = common_options_spec(t.key@, hosts);
    assert(o[12] == "-i"@ && o[13] == t.key@);
    let base = o + seq!["-p"@, dec(t.port as nat), destination_spec(t.user@, t.host@)];
    assert(base[12] == "-i"@ && base[13] == t.key@);
    let a = ssh_args_spec(t, hosts, remote);
    match remote {
        Some(c) => {
            assert(a[12] == base[12] && a[13] == base[13]);
        },
        None => {},
    }
    assert(a[12] == "-i"@ && a[13] == t.key@);
    assert(a[14] == base[14] && a[15] == base[15] && a[16] == base[16]);
    assert(a[14] == "-p"@ && a[15] == dec(t.port as nat));
    let h = scp_head(t, hosts);
    assert(h[12] == "-i"@ && h[13] == t.key@);
    assert(h[14] == "-P"@ && h[15] == dec(t.port as nat));
    let to = h + seq![path, remote_spec(t, path)];
    let from = h + seq![remote_spec(t, path), path];
    assert(to[12] == "-i"@ && to[13] == t.key@);
    assert(from[12] == "-i"@ && from[13] == t.key@);
}

/// `ssh [options] -p port user@host [command]`.
pub fn ssh_command(target: &SshTarget, remote: Option<&str>) -> (r: Cmd)
    ensures
        r.program@ == "ssh"@,
        exists|h: Seq<char>|
            #[trigger] hosts_of(target.key@, h) && views(r.args@) == ssh_args_spec(
                *target,
                h,
                match remote {
                    Some(c) => Some(c@),
                    None => None,
                },
            ),
        r.cwd is None,
        !r.inherit_stderr,
        !r.interactive,
{
    let mut args = common_options(target.key.as_str());
    let ghost base = views(args@);
    let ghost h = choose|h: Seq<char>| #[trigger] hosts_of(target.key@, h) && base == common_options_spec(target.key@, h);
    args.push(owned("-p"));
    args.push(dec_string(target.port as u64));
    args.push(target.destination());
    let ghost mid = views(args@);
    assert(mid =~= base + seq!["-p"@, dec(target.port as nat), destination_spec(target.user@, target.host@)]);
    if let Some(command) = remote {
        args.push(owned(command));
        assert(views(args@) =~= mid.push(command@));
    }
    assert(views(args@) == ssh_args_spec(
        *target,
        h,
        match remote {
            Some(c) => Some(c@),
            None => None,
        },
    ));
    Cmd::new("ssh").args(args)
}

/// Normalize a remote path for `scp`: forward slashes throughout.
pub fn scp_remote_path(remote: &str) -> (r: String)
    ensures
        r@ == replace_char_spec(remote@, '\\', '/'),
{
    replace_char(remote, '\\', '/')
}

pub open spec fn remote_spec(t: SshTarget, remote: Seq<char>) -> Seq<char> {
    destination_spec(t.user@, t.host@) + ":"@ + replace_char_spec(remote, '\\', '/')
}

fn remote_arg(target: &SshTarget, remote: &str) -> (r: String)
    ensures
        r@ == remote_spec(*target, remote@),
{
    let mut r = target.destination();
    r.append(":");
    r.append(scp_remote_path(remote).as_str());
    r
}

pub open spec fn scp_head(t: SshTarget, hosts: Seq<char>) -> Seq<Seq<char>> {
    common_options_spec(t.key@, hosts) + seq!["-P"@, dec(t.port as nat), "-r"@]
}

fn scp_head_args(target: &SshTarget) -> (r: Vec<String>)
    ensures
        exists|h: Seq<char>| #[trigger] hosts_of(target.key@, h) && views(r@) == scp_head(*target, h),
{
    let mut args = common_options(target.key.as_str());
    let ghost base = views(args@);
    let ghost h = choose|h: Seq<char>| #[trigger] hosts_of(target.key@, h) && base == common_options_spec(target.key@, h);
    args.push(owned("-P"));
    args.push(dec_string(target.port as u64));
    args.push(owned("-r"));
    assert(views(args@) =~= scp_head(*target, h));
    args
}

/// `scp [options] -P port -r <local> user@host:<remote>`.
pub fn scp_to_command(target: &SshTarget, local: &str, remote: &str) -> (r: Cmd)
    ensures
        r.program@ == "scp"@,
        exists|h: Seq<char>|
            #[trigger] hosts_of(target.key@, h) && views(r.args@) == scp_head(*target, h) + seq![local@, remote_spec(*target, remote@)],
        !r.interactive,
{
    let mut args = scp_head_args(target);
    let ghost head = views(args@);
    let ghost h = choose|h: Seq<char>| #[trigger] hosts_of(target.key@, h) && head == scp_head(*target, h);
    args.push(owned(local));
    args.push(remote_arg(target, remote));
    assert(views(args@) =~= head + seq![local@, remote_spec(*target, remote@)]);
    Cmd::new("scp").args(args)
}

/// `scp [options] -P port -r user@host:<remote> <local>`.
pub fn scp_from_command(target: &SshTarget, remote: &str, local: &str) -> (r: Cmd)
    ensures
        r.program@ == "scp"@,
        exists|h: Seq<char>|
            #[trigger] hosts_of(target.key@, h) && views(r.args@) == scp_head(*target, h) + seq![remote_spec(*target, remote@), local@],
        !r.interactive,
{
    let mut args = scp_head_args(target);
    let ghost head = views(args@);
    let ghost h = choose|h: Seq<char>| #[trigger] hosts_of(target.key@, h) && head == scp_head(*target, h);
    args.push(remote_arg(target, remote));
    args.push(owned(local));
    assert(views(args@) =~= head + seq![remote_spec(*target, remote@), local@]);
    Cmd::new("scp").args(args)
}

/// What the readiness probe asks the guest to say back.
pub const READY_MARKER: &'static str = "sunlit-e2e-ssh-ready";

/// The command one readiness probe runs: a real command rather than a port
/// check, because an SSH server can accept connections before the account is
/// usable.
pub fn probe_command(target: &SshTarget) -> (r: Cmd)
    ensures
        r.program@ == "ssh"@,
        exists|h: Seq<char>|
            #[trigger] hosts_of(target.key@, h) && views(r.args@) == ssh_args_spec(
                *target,
                h,
                Some("echo "@ + READY_MARKER@),
            ),
{
    let mut command = owned("echo ");
    command.append(READY_MARKER);
    ssh_command(target, Some(command.as_str()))
}

/// What a probe's answer says: the marker came back, or the reason it did not.
pub open spec fn probe_verdict(out: Result<CommandOutput, String>) -> Result<(), Seq<char>> {
    match out {
        Ok(o) => if contains_spec(o.stdout@, READY_MARKER@) {
            Ok(())
        } else {
            Err("exit "@ + debug_opt_i32_spec(o.code) + ": "@ + trim_spec(o.stderr@))
        },
        Err(e) => Err(e@),
    }
}

/// One readiness probe's verdict, from what running [`probe_command`] gave.
///
/// The error carries the reason, so a caller that gives up can say what the
/// last attempt looked like.
pub fn probe_ready(outcome: Result<CommandOutput, String>) -> (r: Result<(), String>)
    ensures
        match (r, probe_verdict(outcome)) {
            (Ok(()), Ok(())) => true,
            (Err(e), Err(m)) => e@ == m,
            _ => false,
        },
{
    match outcome {
        Ok(out) => {
            if contains(out.stdout.as_str(), READY_MARKER) {
                Ok(())
            } else {
                let mut e = owned("exit ");
                e.append(debug_opt_i32(out.code).as_str());
                e.append(": ");
                e.append(trim(out.stderr.as_str()).as_str());
                Err(e)
            }
        },
        Err(e) => Err(e),
    }
}

/// What a wait does after one poll.
#[derive(Debug, Clone, PartialEq, Eq)]
pub enum WaitStep {
    /// It is over, successfully.
    Ready,
    /// It is over, and this is why.
    GiveUp(String),
    /// Sleep a poll interval and ask again.
    Again,
}

pub open spec fn ready_wait_spec(
    probe: Result<(), Seq<char>>,
    dead: Option<Seq<char>>,
    elapsed_ms: u64,
    timeout_ms: u64,
    host: Seq<char>,
    port: u16,
) -> Result<bool, Seq<char>> {
    match probe {
        Ok(()) => Ok(true),
        Err(last) => match dead {
            Some(reason) => Err("the guest is not coming up: "@ + reason),
            None => if elapsed_ms >= timeout_ms {
                Err("the guest did not answer on "@ + host + ":"@ + dec(port as nat)
                    + " within "@ + round_secs_spec(timeout_ms) + "s; last attempt: "@ + last)
            } else {
                Ok(false)
            },
        },
    }
}

/// The decision `wait_ready` makes after each probe: a guest that answered is
/// ready whatever a stale process table says, one reported dead ends the wait
/// with the reason, and one that is merely not there yet is asked again until
/// the timeout, after which the last attempt is what the error quotes.
pub fn ready_wait_step(
    probe: Result<(), String>,
    dead: Option<String>,
    elapsed_ms: u64,
    timeout_ms: u64,
    target: &SshTarget,
) -> (r: WaitStep)
    ensures
        match ready_wait_spec(
            match probe {
                Ok(()) => Ok(()),
                Err(e) => Err(e@),
            },
            match dead {
                Some(d) => Some(d@),
                None => None,
            },
            elapsed_ms,
            timeout_ms,
            target.host@,
            target.port,
        ) {
            Ok(true) => r == WaitStep::Ready,
            Ok(false) => r == WaitStep::Again,
            Err(m) => r matches WaitStep::GiveUp(e) && e@ == m,
        },
{
    match probe {
        Ok(()) => WaitStep::Ready,
        Err(last) => match dead {
            Some(reason) => {
                let mut e = owned("the guest is not coming up: ");
                e.append(reason.as_str());
                WaitStep::GiveUp(e)
            },
            None => {
                if elapsed_ms >= timeout_ms {
                    let mut e = owned("the guest did not answer on ");
                    e.append(target.host.as_str());
                    e.append(":");
                    e.append(dec_string(target.port as u64).as_str());
                    e.append(" within ");
                    e.append(round_secs(timeout_ms).as_str());
                    e.append("s; last attempt: ");
                    e.append(last.as_str());
                    WaitStep::GiveUp(e)
                } else {
                    WaitStep::Again
                }
            },
        },
    }
}

} // verus!
