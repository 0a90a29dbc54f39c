use xtask_vm::commands::setup::{
    plan_header, setup_exit, setup_gate, step_line, wsl_probe_command, wsl_ready_answer, SetupGate,
};
use xtask_vm::commands::vm::{
    image_verdict, smoke_exit_line, smoke_next, up_build_plan, up_staging, ImageState, SmokeAction,
    SmokeEvent, Staging,
};
use xtask_vm::guest::artifacts::{
    guest_build_line, guest_build_outcome, native_build_result, worktree_line, wsl_build_outcome,
    wsl_copy_command, wsl_copy_outcome, wslpath_outcome, Builder,
};
use xtask_vm::guest::cargo_json::Artifact;
use xtask_vm::guest::toolchain::{toolchain_from, RawPin};
use xtask_vm::host::facts::{tools_to_resolve, facts_from, groups_from, linux_description, probe_facts, LinuxFacts, WindowsFacts};
use xtask_vm::provider::target::{HostOs, Image};
use xtask_vm::runner::CommandOutput;

fn output(code: Option<i32>, stdout: &str, stderr: &str) -> CommandOutput {
    CommandOutput { code, stdout: stdout.to_owned(), stderr: stderr.to_owned() }
}

fn artifact(name: &str, kind: &str, executable: &str, is_test: bool) -> Artifact {
    Artifact { name: name.to_owned(), kinds: vec![kind.to_owned()], executable: executable.to_owned(), is_test }
}

fn built() -> Vec<Artifact> {
    vec![
        artifact("sunlit-earth", "bin", "/t/sunlit-earth", false),
        artifact("e2e", "test", "/t/deps/e2e-1a2b", true),
    ]
}

#[test]
fn a_probe_that_ran_and_read_describes_the_host() {
    let mut w = WindowsFacts::default();
    w.caption = "Microsoft Windows 11 Pro".to_owned();
    w.version = "10.0.26100".to_owned();
    let facts = probe_facts(&Ok(output(Some(0), "{}", "")), Ok((w.clone(), Some(42))));
    assert_eq!(facts.description, "Microsoft Windows 11 Pro 10.0.26100");
    assert_eq!(facts.free_bytes, Some(42));
    assert_eq!(facts.windows, Some(w));
    assert_eq!(facts.probe_error, None);
}

#[test]
fn a_probe_that_failed_says_how() {
    let read = Err("unused".to_owned());
    let failed = probe_facts(&Ok(output(Some(1), "", " denied \n")), read.clone());
    assert_eq!(failed.probe_error.as_deref(), Some("the host probe failed (exit Some(1)): denied"));
    assert_eq!(failed.windows, None);
    let not_run = probe_facts(&Err("not found".to_owned()), read);
    assert_eq!(not_run.probe_error.as_deref(), Some("cannot run powershell.exe: not found"));
    let quiet = probe_facts(&Ok(output(Some(0), "", "  ")), Err("EOF while parsing".to_owned()));
    assert_eq!(quiet.probe_error.as_deref(), Some("EOF while parsing"));
    let noisy = probe_facts(&Ok(output(Some(0), "", "boom\n")), Err("EOF while parsing".to_owned()));
    assert_eq!(noisy.probe_error.as_deref(), Some("EOF while parsing (stderr: boom)"));
}

#[test]
fn a_linux_host_is_described_by_its_pretty_name() {
    assert_eq!(linux_description("Debian GNU/Linux 13 (trixie)"), "Debian GNU/Linux 13 (trixie)");
    assert_eq!(linux_description(""), "Linux");
    assert_eq!(groups_from(&Ok(output(Some(0), " me kvm  libvirt\n", ""))), ["me", "kvm", "libvirt"]);
    assert!(groups_from(&Ok(output(Some(1), "me kvm", ""))).is_empty());
    assert!(groups_from(&Err("no id".to_owned())).is_empty());
}

#[test]
fn a_native_build_hands_back_the_two_executables() {
    let ok = native_build_result(true, &built(), "/repo/fixtures".to_owned(), None).expect("built");
    assert_eq!(ok.app, "/t/sunlit-earth");
    assert_eq!(ok.harness, "/t/deps/e2e-1a2b");
    assert_eq!(ok.fixtures, "/repo/fixtures");
    assert_eq!(
        native_build_result(false, &built(), "/f".to_owned(), None),
        Err("building the e2e suite failed; the output above says why".to_owned())
    );
    assert_eq!(
        native_build_result(true, &built()[1..], "/f".to_owned(), None),
        Err("cargo built no sunlit-earth binary".to_owned())
    );
}

#[test]
fn a_wsl_build_is_read_copied_and_its_failures_named() {
    assert_eq!(
        wsl_build_outcome(false, &built()),
        Err("building the Linux e2e suite in Ubuntu-22.04 failed; the output above says why".to_owned())
    );
    assert_eq!(
        wsl_build_outcome(true, &built()),
        Ok(("/t/sunlit-earth".to_owned(), "/t/deps/e2e-1a2b".to_owned()))
    );
    let copy = wsl_copy_command("/t/app", "/t/e2e", "/mnt/c/store/artifacts");
    assert_eq!(copy.program, "wsl.exe");
    assert_eq!(copy.args[..5], ["-d", "Ubuntu-22.04", "--", "bash", "-lc"]);
    assert!(copy.args[5].starts_with("cp "), "{}", copy.args[5]);
    assert!(copy.args[5].ends_with("/"), "{}", copy.args[5]);
    assert_eq!(wsl_copy_outcome(&Ok(output(Some(0), "", ""))), Ok(()));
    assert_eq!(
        wsl_copy_outcome(&Ok(output(Some(1), "", "no space\n"))),
        Err("copying the Linux binaries out of Ubuntu-22.04 failed: no space".to_owned())
    );
    assert_eq!(wslpath_outcome("C:\\r", &Ok(output(Some(0), "/mnt/c/r\n", ""))), Ok("/mnt/c/r".to_owned()));
    assert_eq!(
        wslpath_outcome("C:\\r", &Ok(output(Some(1), "", "bad\n"))),
        Err("wslpath could not translate C:\\r: bad".to_owned())
    );
    assert_eq!(wslpath_outcome("C:\\r", &Err("gone".to_owned())), Err("cannot run wsl.exe: gone".to_owned()));
}

#[test]
fn a_guest_build_says_where_it_runs_and_reads_its_exit_code() {
    assert_eq!(
        guest_build_line(Image::WindowsBuilder),
        "building the e2e suite for the windows guest in the windows-builder guest, because this host has no windows toolchain"
    );
    assert_eq!(
        worktree_line(2048),
        "  the working tree is 2.0 KiB of source, not HEAD: what is staged is what is in the tree now"
    );
    assert_eq!(
        guest_build_outcome(Image::WindowsBuilder, 101, "/s/results", &built()),
        Err("building the e2e suite in the windows-builder guest exited 101; its output is above and /s/results has what it wrote".to_owned())
    );
    assert_eq!(
        guest_build_outcome(Image::WindowsBuilder, 0, "/s/results", &built()),
        Ok(("/t/sunlit-earth".to_owned(), "/t/deps/e2e-1a2b".to_owned()))
    );
}

#[test]
fn an_image_is_refused_or_warned_about_by_its_state() {
    let (lines, ok) = image_verdict(Image::Linux, &ImageState::Fine, false);
    assert!(lines.is_empty());
    assert_eq!(ok, Ok(()));
    let (lines, ok) = image_verdict(Image::Linux, &ImageState::Stale { detail: "built 40 days ago".to_owned() }, false);
    assert_eq!(lines[0], "warning: the linux image is stale: built 40 days ago");
    assert_eq!(lines[1], "it still runs; `cargo xtask vm build-image linux` brings it up to date");
    assert_eq!(ok, Ok(()));
    let expired = ImageState::Expired { summary: "the evaluation ended 3 days ago".to_owned() };
    let (lines, ok) = image_verdict(Image::Windows, &expired, true);
    assert_eq!(lines, ["warning: the evaluation ended 3 days ago", "proceeding because --allow-expired-image was given"]);
    assert_eq!(ok, Ok(()));
    let (_, refused) = image_verdict(Image::Windows, &expired, false);
    assert!(refused.unwrap_err().contains("evaluation has expired"));
    let (_, missing) = image_verdict(Image::Linux, &ImageState::Missing, false);
    assert_eq!(missing, Err("no linux golden image yet. `cargo xtask vm build-image linux` builds one.".to_owned()));
    let (_, unmanifested) = image_verdict(Image::Linux, &ImageState::Unmanifested { detail: "gone".to_owned() }, true);
    let text = unmanifested.unwrap_err();
    assert!(text.starts_with("the linux image has no usable manifest: gone.\n\n"), "{text}");
    assert!(text.ends_with("Rebuild it: cargo xtask vm build-image linux"), "{text}");
    let other = ImageState::Other { label: "odd".to_owned(), detail: "d".to_owned(), blocks_boot: false };
    let (lines, ok) = image_verdict(Image::Linux, &other, false);
    assert_eq!(lines, ["warning: the linux image is odd: d"]);
    assert_eq!(ok, Ok(()));
}

#[test]
fn the_smoke_test_fails_on_any_step_and_exits_by_the_job() {
    assert_eq!(smoke_next(false, None, SmokeEvent::Booted), SmokeAction::RunJob);
    assert_eq!(smoke_next(false, None, SmokeEvent::JobDone(Ok(3))), SmokeAction::Collect);
    assert_eq!(
        smoke_next(true, None, SmokeEvent::JobDone(Err("lost".to_owned()))),
        SmokeAction::Fail("lost".to_owned())
    );
    assert_eq!(
        smoke_next(true, Some(0), SmokeEvent::Collected(Ok(()))),
        SmokeAction::Finish { keep: true, exit: 0 }
    );
    assert_eq!(
        smoke_next(false, Some(3), SmokeEvent::Collected(Ok(()))),
        SmokeAction::Finish { keep: false, exit: 1 }
    );
    assert_eq!(smoke_exit_line(0, 41_600), "the job exited 0 after 42s total");
}

#[test]
fn vm_up_builds_where_it_can_and_says_when_it_cannot() {
    assert_eq!(up_build_plan(Image::Linux, &Ok(Builder::Native)), (true, vec![]));
    let (build, lines) = up_build_plan(Image::Windows, &Err("no builder".to_owned()));
    assert!(!build);
    assert_eq!(lines, ["nothing of ours goes into this guest: no builder", "it boots as the image built it"]);
    assert_eq!(up_build_plan(Image::LinuxBuilder, &Ok(Builder::Native)), (false, vec![]));
    assert_eq!(up_staging(Image::Linux, Some(Ok(()))), Ok(Staging::Done));
    assert_eq!(up_staging(Image::Linux, Some(Err("scp".to_owned()))), Err("scp".to_owned()));
    assert_eq!(up_staging(Image::Linux, None), Ok(Staging::Impossible));
    assert_eq!(up_staging(Image::LinuxBuilder, None), Ok(Staging::Skipped));
}

#[test]
fn setup_asks_for_an_elevated_shell_and_a_supported_host() {
    assert_eq!(setup_gate(HostOs::Windows, false), SetupGate::NotElevated);
    assert_eq!(setup_gate(HostOs::Windows, true), SetupGate::Plan);
    assert_eq!(setup_gate(HostOs::Linux, false), SetupGate::Plan);
    assert!(matches!(setup_gate(HostOs::Other, true), SetupGate::Unsupported(e) if e.contains("macOS")));
    assert_eq!(plan_header(HostOs::Linux, "/srv/vm"), "setup plan for linux (/srv/vm)");
    assert_eq!(step_line(true, "kvm", "join the group"), "  [run ] kvm: join the group");
    assert_eq!(step_line(false, "kvm", "done"), "  [skip] kvm: done");
    assert_eq!(setup_exit(0), 0);
    assert_eq!(setup_exit(2), 1);
}

#[test]
fn the_wsl_distribution_is_ready_only_when_it_says_so() {
    let probe = wsl_probe_command();
    assert_eq!(probe.program, "wsl.exe");
    assert!(probe.args[5].ends_with("echo READY"));
    assert!(wsl_ready_answer(true, &Some(Ok(output(Some(0), "READY\n", "")))));
    assert!(!wsl_ready_answer(true, &Some(Ok(output(Some(0), "", "")))));
    assert!(!wsl_ready_answer(false, &Some(Ok(output(Some(0), "READY", "")))));
    assert!(!wsl_ready_answer(true, &None));
}

#[test]
fn a_refused_channel_is_named_in_the_refusal() {
    let pin = |c: &str| RawPin { channel: Some(c.to_owned()), profile: None, components: vec![] };
    assert_eq!(toolchain_from(&pin("  ")).unwrap_err(), "rust-toolchain.toml names no channel");
    let err = toolchain_from(&pin("$(id)")).unwrap_err();
    assert!(err.starts_with("rust-toolchain.toml channel \"$(id)\" contains '$'"), "{err}");
}

#[test]
fn the_host_facts_are_put_together_per_host() {
    let tools = vec![("ssh".to_owned(), Some("/usr/bin/ssh".to_owned())), ("packer".to_owned(), None)];
    let viewers = vec![None, Some("/usr/bin/tigervnc".to_owned()), Some("/usr/bin/remmina".to_owned())];
    let mut linux = LinuxFacts::default();
    linux.pretty_name = "Fedora Linux 42".to_owned();
    let facts = facts_from(
        HostOs::Linux,
        tools.clone(),
        &viewers,
        [true, false, false, true],
        None,
        Some((linux.clone(), Some(7))),
        "linux",
    );
    assert_eq!(facts.os, Some(HostOs::Linux));
    assert_eq!(facts.tools, tools);
    assert_eq!(facts.vnc_viewer.as_deref(), Some("/usr/bin/tigervnc"));
    assert_eq!(facts.iso_tools, ["xorriso", "oscdimg"]);
    assert_eq!(facts.description, "Fedora Linux 42");
    assert_eq!(facts.linux, Some(linux));
    assert_eq!(facts.free_bytes, Some(7));
    let other = facts_from(HostOs::Other, vec![], &vec![None], [false; 4], None, None, "macos");
    assert_eq!(other.description, "macos");
    assert_eq!(other.vnc_viewer, None);
    assert!(other.iso_tools.is_empty());
}

#[test]
fn an_image_nothing_is_known_about_is_refused() {
    let (lines, refused) = image_verdict(Image::Windows, &ImageState::Unknown, true);
    assert!(lines.is_empty());
    assert_eq!(refused, Err("nothing is known about the windows image".to_owned()));
}

#[test]
fn windows_also_looks_for_wsl_and_vmconnect() {
    let linux = tools_to_resolve(HostOs::Linux);
    assert_eq!(linux, ["qemu-system-x86_64", "qemu-img", "packer", "ssh", "scp", "ssh-keygen"]);
    let windows = tools_to_resolve(HostOs::Windows);
    assert_eq!(&windows[..6], &linux[..]);
    assert_eq!(&windows[6..], ["wsl", "vmconnect"]);
}
