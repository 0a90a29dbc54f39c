use xtask_vm::guest::job::{
    exit_code_command, exit_code_poll, job_destination, job_file, job_wait_step, launch_command,
    output_log_command, parse_exit_code, session_answered, session_ready_command, session_wait_step,
    OutputTail, Poll, SESSION_READY_MARKER,
};
use xtask_vm::guest::ssh::WaitStep;
use xtask_vm::runner::CommandOutput;
use xtask_vm::provider::target::Target;

#[test]
fn the_windows_job_goes_through_the_scheduled_task() {
    assert!(launch_command(Target::Windows).contains("schtasks /run"));
    assert!(launch_command(Target::Windows).contains("sunlit-e2e-job"));
}

#[test]
fn the_linux_job_is_detached_from_the_ssh_session() {
    let command = launch_command(Target::Linux);
    assert!(command.contains("setsid"), "{command}");
    assert!(command.contains("</dev/null"), "{command}");
    assert!(command.trim_end().ends_with("echo started"), "{command}");
}

#[test]
fn the_job_file_matches_the_guests_shell() {
    assert_eq!(job_file(Target::Windows), "job.cmd");
    assert_eq!(job_file(Target::Linux), "job.sh");
    assert_eq!(job_destination(Target::Windows), r"C:\sunlit-e2e\job.cmd");
    assert_eq!(job_destination(Target::Linux), "/var/lib/sunlit-e2e/job.sh");
}

#[test]
fn the_exit_code_probe_is_quiet_when_the_file_is_not_there_yet() {
    let windows = exit_code_command(Target::Windows);
    assert!(windows.starts_with("if exist "), "{windows}");
    let linux = exit_code_command(Target::Linux);
    assert!(linux.contains("2>/dev/null"), "{linux}");
    assert!(linux.contains("|| true"), "{linux}");
}

#[test]
fn a_tail_prints_each_line_once_and_survives_a_restarted_job() {
    let mut tail = OutputTail::new();
    assert_eq!(tail.absorb("").as_deref(), None);
    assert_eq!(tail.absorb("Compiling wgpu\n").as_deref(), Some("Compiling wgpu\n"));
    assert_eq!(tail.absorb("Compiling wgpu\n").as_deref(), None);
    assert_eq!(
        tail.absorb("Compiling wgpu\nCompiling slint\n").as_deref(),
        Some("Compiling slint\n")
    );
    assert_eq!(tail.absorb("Compiling se\n").as_deref(), Some("Compiling se\n"));
    assert_eq!(tail.absorb("Compiling se\n").as_deref(), None);
}

#[test]
fn a_character_caught_half_written_neither_panics_nor_swallows_the_line() {
    for (half, whole) in [
        ("Compiling \u{fffd}", "Compiling \u{1f389}"),
        ("Compiling \u{fffd}", "Compiling \u{20ac}b"),
        ("Compiling \u{fffd}", "Compiling \u{e9}b"),
    ] {
        let mut tail = OutputTail::new();
        let mut printed = String::new();
        if let Some(fresh) = tail.absorb(half) {
            printed.push_str(&fresh);
        }
        if let Some(fresh) = tail.absorb(whole) {
            printed.push_str(&fresh);
        }
        assert_eq!(printed, whole, "{whole:?}");
        assert_eq!(tail.absorb(whole), None, "{whole:?}");
    }
}

#[test]
fn the_log_probe_is_quiet_when_there_is_no_log_yet() {
    let windows = output_log_command(Target::Windows);
    assert!(windows.starts_with("if exist "), "{windows}");
    assert!(windows.contains("type "), "{windows}");
    let linux = output_log_command(Target::Linux);
    assert!(linux.contains("cat "), "{linux}");
    assert!(linux.contains("|| true"), "{linux}");
    for target in Target::all() {
        assert!(output_log_command(target).contains("output.log"), "{}", target.slug());
    }
}

#[test]
fn an_absent_exit_code_reads_as_still_running() {
    assert_eq!(parse_exit_code(""), Ok(None));
    assert_eq!(parse_exit_code("   \n"), Ok(None));
}

#[test]
fn an_exit_code_is_read_from_the_first_line() {
    assert_eq!(parse_exit_code("0\n"), Ok(Some(0)));
    assert_eq!(parse_exit_code("101\r\n"), Ok(Some(101)));
    assert_eq!(parse_exit_code(" 3 \nextra\n"), Ok(Some(3)));
}

#[test]
fn a_broken_exit_code_is_an_error_rather_than_a_pass() {
    let err = parse_exit_code("Access is denied.").unwrap_err();
    assert!(err.contains("unreadable exit code"), "{err}");
    assert!(parse_exit_code("0x1").is_err());
}

#[test]
fn the_session_probe_looks_for_the_marker_the_image_writes() {
    for target in Target::all() {
        assert!(session_ready_command(target).contains(SESSION_READY_MARKER), "{}", target.slug());
        assert!(session_ready_command(target).contains("ready"), "{}", target.slug());
    }
}

fn answered(stdout: &str) -> CommandOutput {
    CommandOutput { code: Some(0), stdout: stdout.to_owned(), stderr: String::new() }
}

fn refused(code: i32, stderr: &str) -> CommandOutput {
    CommandOutput { code: Some(code), stdout: String::new(), stderr: stderr.to_owned() }
}

#[test]
fn a_dead_guest_ends_the_session_wait_with_the_providers_reason() {
    // Refused, which is what a dead guest's forwarded port answers with; the
    // death verdict wins long before the timeout.
    let probe = Ok(refused(255, "Connection refused"));
    assert!(!session_answered(&probe));
    let step = session_wait_step(
        session_answered(&probe),
        Some("qemu has exited: port taken".to_owned()),
        0,
        200,
        Target::Linux,
    );
    let WaitStep::GiveUp(err) = step else { panic!("a dead guest is waited for") };
    assert!(err.contains("stopped before its desktop session"), "{err}");
    assert!(err.contains("qemu has exited: port taken"), "{err}");
}

#[test]
fn a_session_that_answers_outranks_a_stale_death_verdict() {
    let probe = Ok(answered(&format!("{SESSION_READY_MARKER}\n")));
    let step = session_wait_step(
        session_answered(&probe),
        Some("a stale verdict".to_owned()),
        0,
        200,
        Target::Linux,
    );
    assert_eq!(step, WaitStep::Ready, "the marker answers");
}

#[test]
fn a_dead_guest_ends_the_job_wait_rather_than_the_timeout() {
    // An empty exit-code file reads as "still running", which is exactly the
    // answer a dead guest would leave in place forever.
    assert_eq!(exit_code_poll(Ok(answered("")), 0, 200), Poll::NotYet);
    let step = job_wait_step(Some("qemu has exited".to_owned()), 0, 200, Target::Linux);
    let WaitStep::GiveUp(err) = step else { panic!("a dead guest is waited for") };
    assert!(err.contains("stopped while the job was running"), "{err}");
    assert!(err.contains("qemu has exited"), "{err}");
}

#[test]
fn an_exit_code_outranks_a_stale_death_verdict() {
    // The exit code is read before anything asks whether the guest died.
    assert_eq!(exit_code_poll(Ok(answered("0\n")), 0, 200), Poll::Finished(0));
}

#[test]
fn the_last_of_the_output_survives_a_job_that_ends_mid_poll() {
    // The log is read, the exit code arrives, and the log is read once more:
    // the tail prints what came after the first read, and nothing is owed.
    let mut tail = OutputTail::new();
    assert_eq!(
        tail.absorb("cache: packing the build directory\n").as_deref(),
        Some("cache: packing the build directory\n")
    );
    assert_eq!(exit_code_poll(Ok(answered("0\n")), 0, 200), Poll::Finished(0));
    assert_eq!(
        tail.absorb("cache: packing the build directory\ncache: packed in 63s\n").as_deref(),
        Some("cache: packed in 63s\n")
    );
    assert_eq!(tail.absorb("cache: packing the build directory\ncache: packed in 63s\n"), None);
}
