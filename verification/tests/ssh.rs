use std::path::Path;

use xtask_vm::guest::ssh::{
    common_options, hosts_option, known_hosts, known_hosts_option, probe_ready, ready_wait_step, scp_from_command,
    scp_remote_path, scp_to_command, ssh_command, SshTarget, WaitStep,
};
use xtask_vm::runner::CommandOutput;

fn target() -> SshTarget {
    SshTarget {
        user: "tester".to_owned(),
        host: "127.0.0.1".to_owned(),
        port: 2222,
        key: "/srv/vm/ssh/id_ed25519".to_owned(),
    }
}

#[test]
fn the_known_hosts_file_sits_beside_the_key_and_never_in_the_home_directory() {
    let expected = Path::new("/srv/vm/ssh").join("known_hosts").display().to_string();
    assert_eq!(known_hosts("/srv/vm/ssh/id_ed25519"), expected);
    let options = common_options("/srv/vm/ssh/id_ed25519");
    assert!(options.contains(&format!("UserKnownHostsFile={expected}")), "{options:?}");
    for option in &options {
        assert!(
            !option.contains("NUL") && !option.contains("/dev/null"),
            "{option} names a null device only one of the two clients understands"
        );
    }
}

#[test]
fn a_store_under_a_directory_with_a_space_is_quoted_for_ssh() {
    let spaced = "/home/Ada Byron/.local/SunlitEarth/vm/ssh/id_ed25519";
    let option = known_hosts_option(spaced);
    assert!(option.starts_with("UserKnownHostsFile=\""), "{option}");
    assert!(option.ends_with("known_hosts\""), "{option}");
    let plain = "/srv/vm/ssh/id_ed25519";
    assert_eq!(
        known_hosts_option(plain),
        format!("UserKnownHostsFile={}", Path::new("/srv/vm/ssh").join("known_hosts").display())
    );
}

#[test]
fn every_connection_refuses_to_prompt_for_anything() {
    let options = common_options("/k");
    assert!(options.contains(&"BatchMode=yes".to_owned()));
    assert!(options.contains(&"IdentitiesOnly=yes".to_owned()));
    assert!(options.contains(&"StrictHostKeyChecking=no".to_owned()));
}

#[test]
fn the_ssh_command_puts_the_remote_command_last() {
    let cmd = ssh_command(&target(), Some("whoami"));
    assert_eq!(cmd.program, "ssh");
    assert_eq!(cmd.args.last().map(String::as_str), Some("whoami"));
    let destination = cmd.args.len() - 2;
    assert_eq!(cmd.args[destination], "tester@127.0.0.1");
    assert!(cmd.args.contains(&"-p".to_owned()));
    assert!(cmd.args.contains(&"2222".to_owned()));
}

#[test]
fn an_interactive_session_passes_no_remote_command() {
    let cmd = ssh_command(&target(), None);
    assert_eq!(cmd.args.last().map(String::as_str), Some("tester@127.0.0.1"));
}

#[test]
fn scp_spells_the_port_with_a_capital_p_in_both_directions() {
    let to = scp_to_command(&target(), "/tmp/app", "/var/lib/sunlit-e2e/bin/");
    assert_eq!(to.program, "scp");
    assert!(to.args.contains(&"-P".to_owned()), "{:?}", to.args);
    assert!(!to.args.contains(&"-p".to_owned()), "{:?}", to.args);
    assert_eq!(to.args.last().map(String::as_str), Some("tester@127.0.0.1:/var/lib/sunlit-e2e/bin/"));

    let from = scp_from_command(&target(), "/var/lib/sunlit-e2e/results", "/tmp/out");
    assert!(from.args.contains(&"-P".to_owned()));
    assert_eq!(from.args.last().map(String::as_str), Some("/tmp/out"));
    let remote = from.args.len() - 2;
    assert_eq!(from.args[remote], "tester@127.0.0.1:/var/lib/sunlit-e2e/results");
}

#[test]
fn a_windows_guest_path_reaches_scp_with_forward_slashes() {
    assert_eq!(scp_remote_path(r"C:\sunlit-e2e\bin"), "C:/sunlit-e2e/bin");
    assert_eq!(scp_remote_path("/var/lib/sunlit-e2e/results"), "/var/lib/sunlit-e2e/results");
    let cmd = scp_to_command(&target(), "/tmp/app", r"C:\sunlit-e2e\bin");
    assert_eq!(cmd.args.last().map(String::as_str), Some("tester@127.0.0.1:C:/sunlit-e2e/bin"));
}

#[test]
fn copies_are_recursive_so_a_results_directory_comes_back_whole() {
    let from = scp_from_command(&target(), "r", "/tmp/out");
    assert!(from.args.contains(&"-r".to_owned()));
}

#[test]
fn an_interactive_shell_inherits_stdin_and_a_remote_command_does_not_change_that() {
    let reachable = SshTarget {
        user: "tester".to_owned(),
        host: "127.0.0.1".to_owned(),
        port: 2222,
        key: "/srv/vm/ssh/id_ed25519".to_owned(),
    };
    let shell = ssh_command(&reachable, None).interactive();
    assert!(shell.interactive, "a shell nobody can type into is not a shell");
    let probe = ssh_command(&reachable, Some("echo hi"));
    assert!(!probe.interactive);
}

fn answer(code: i32, stdout: &str, stderr: &str) -> CommandOutput {
    CommandOutput { code: Some(code), stdout: stdout.to_owned(), stderr: stderr.to_owned() }
}

#[test]
fn waiting_succeeds_as_soon_as_the_guest_answers() {
    let probe = probe_ready(Ok(answer(0, "sunlit-e2e-ssh-ready\n", "")));
    assert_eq!(probe, Ok(()));
    assert_eq!(ready_wait_step(probe, None, 0, 50, &target()), WaitStep::Ready);
}

#[test]
fn waiting_gives_up_with_the_last_error_rather_than_a_bare_timeout() {
    let probe = probe_ready(Ok(answer(255, "", "Connection refused")));
    assert!(probe.is_err());
    let WaitStep::GiveUp(err) = ready_wait_step(probe, None, 5, 5, &target()) else {
        panic!("the timeout has passed")
    };
    assert!(err.contains("127.0.0.1:2222"), "{err}");
    assert!(err.contains("Connection refused"), "{err}");
}

#[test]
fn a_guest_reported_dead_ends_the_wait_with_the_reason() {
    // An hour of timeout: the wait ends on the verdict rather than on it.
    let probe = probe_ready(Ok(answer(255, "", "Connection refused")));
    let step = ready_wait_step(probe, Some("qemu has exited".to_owned()), 0, 3_600_000, &target());
    let WaitStep::GiveUp(err) = step else { panic!("a dead guest is waited for") };
    assert!(err.contains("not coming up"), "{err}");
    assert!(err.contains("qemu has exited"), "{err}");
}

#[test]
fn a_guest_that_answers_is_never_asked_whether_it_died() {
    // The probe settles it: a guest that answered is alive whatever a stale
    // process table would have said.
    let probe = probe_ready(Ok(answer(0, "sunlit-e2e-ssh-ready\n", "")));
    let step = ready_wait_step(probe, Some("a stale verdict".to_owned()), 0, 50, &target());
    assert_eq!(step, WaitStep::Ready);
}

#[test]
fn the_known_hosts_file_replaces_the_last_component_of_the_key_path() {
    assert_eq!(known_hosts("/a/b/"), Path::new("/a").join("known_hosts").display().to_string());
    assert_eq!(known_hosts("id_ed25519"), "known_hosts");
}

#[test]
fn a_known_hosts_path_is_quoted_only_when_it_has_a_space() {
    assert_eq!(hosts_option("/srv/vm/ssh/known_hosts"), "UserKnownHostsFile=/srv/vm/ssh/known_hosts");
    assert_eq!(hosts_option("/a b/known_hosts"), "UserKnownHostsFile=\"/a b/known_hosts\"");
}

#[test]
fn the_known_hosts_file_is_inside_the_image_store() {
    // Which is what makes it the xtask's own junk rather than the developer's,
    // and what a purge of the whole store would take with it.
    let store = "/srv/vm";
    let key = format!("{store}/ssh/id_ed25519");
    let hosts = known_hosts(&key);
    assert!(Path::new(&hosts).starts_with(store), "{hosts}");
    assert_eq!(Path::new(&hosts), Path::new(store).join("ssh").join("known_hosts"));
}
