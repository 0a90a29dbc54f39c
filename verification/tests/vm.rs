use xtask_vm::commands::vm::{
    beside_line, desktop_for, detached_help, expired_help, keep_command, lifecycle_explainer,
    login_for, map_pointer_command, may_clear, may_run_beside, no_record, not_running_hint,
    other_vm_refusal, parse_screens, persistence_refusal, place_screens_command, pointer_report,
    reach_hint, readiness_ready_line, readiness_wait_line, reason_when_kept, resume_left_running,
    resume_left_stopped, screen_report, screens_for, smoke_script, stages_binaries, stopped_line,
    clearing_line, after_failure_line, session_line, BootRequest, Prepared, Screen, Staging,
    MAX_SCREENS, POINTER_MARK, remote_command, shell_line, ssh_no_record, view_no_record, no_console,
    already_running_line, up_again_line,
};
use xtask_vm::fmt::format_bytes;
use xtask_vm::guest::artifacts::ImageCondition;
use xtask_vm::guest::handover::{linux_launcher_path, APP_SHORTCUT, ENTRY_NAME, WINDOWS_SLINT_BACKEND};
use xtask_vm::provider::desktop::{Desktop, Login, SessionType};
use xtask_vm::provider::hyperv::{view_note as hyperv_view_note, CREDENTIAL_DIALOG_CAVEAT};
use xtask_vm::provider::target::{HostOs, Image, ProviderKind, Target};
use xtask_vm::provider::{resources_for, Stopped, GUEST_ROOT_LINUX};
use xtask_vm::state::{RunState, StartReason};

/// A guest's closing-text facts, every one of them stated.
fn prepared(console: ProviderKind, staged: Staging, enhanced_session: bool) -> Prepared {
    Prepared { staged, console, enhanced_session }
}

/// The same, for a guest with nothing of ours in it.
fn bare(console: ProviderKind, staged: Staging) -> Prepared {
    prepared(console, staged, false)
}

/// A record of a guest of this image, as a boot would first write it.
fn state(image: Image, reason: StartReason) -> RunState {
    RunState::for_image(
        image,
        ProviderKind::Qemu,
        format!("/srv/vm/run/{}/overlay.qcow2", image.slug()),
        reason,
        0,
    )
}

fn gib(mib: u32) -> String {
    format_bytes(u64::from(mib) * 1024 * 1024)
}

#[test]
fn the_expiry_help_explains_the_symptom_and_both_ways_out() {
    let text = expired_help(Image::Windows, "the evaluation ran out 5 days ago");
    assert!(text.contains("expired"), "{text}");
    assert!(text.contains("once an hour"), "{text}");
    assert!(text.contains("cargo xtask vm build-image windows"), "{text}");
    assert!(text.contains("--allow-expired-image"), "{text}");
}

#[test]
fn the_smoke_job_asks_each_image_about_what_it_has() {
    let desktop = smoke_script(Image::Linux);
    assert!(desktop.contains("xdpyinfo"), "{desktop}");
    assert!(!desktop.contains("cargo"), "{desktop}");

    let builder = smoke_script(Image::LinuxBuilder);
    assert!(builder.contains(".cargo/bin/cargo"), "{builder}");
    assert!(!builder.contains("xdpyinfo"), "{builder}");

    let windows = smoke_script(Image::WindowsBuilder);
    assert!(windows.contains(r"\.cargo\bin\cargo.exe"), "{windows}");
    assert!(windows.contains("exit /b 1"), "{windows}");
    assert!(!smoke_script(Image::Windows).contains("cargo"));

    for image in Image::all() {
        assert_eq!(smoke_script(image).contains("cargo"), image.is_builder(), "{}", image.slug());
    }

    for image in Image::all() {
        let script = smoke_script(image);
        assert!(script.contains("smoke.txt"), "{}", image.slug());
        if image.target() == Target::Windows {
            assert!(script.contains("\r\n"), "{}", image.slug());
        } else {
            assert!(!script.contains('\r'), "{}", image.slug());
        }
    }
}

#[test]
fn a_running_image_build_is_not_cleared_away_to_make_room() {
    let running = may_clear(Image::Windows, StartReason::Build, true).unwrap_err();
    assert!(running.contains("image build is running"), "{running}");
    assert!(running.contains("vm down windows"), "{running}");
    let linux = may_clear(Image::Linux, StartReason::Build, true).unwrap_err();
    assert!(linux.contains("vm down linux"), "{linux}");
    assert!(!linux.contains("windows"), "{linux}");
    assert!(may_clear(Image::Windows, StartReason::Build, false).is_ok());
    for reason in [StartReason::Run, StartReason::Keep, StartReason::Up] {
        for image in Image::all() {
            assert!(may_clear(image, reason, true).is_ok(), "{reason:?}");
            assert!(may_clear(image, reason, false).is_ok(), "{reason:?}");
        }
    }
}

#[test]
fn being_told_to_end_a_build_says_what_that_ends() {
    let build = StartReason::Build
        .cost_of_ending()
        .expect("ending a build costs something");
    assert!(build.contains("ends the image build"), "{build}");
    assert!(build.contains("over from the media"), "{build}");
    for reason in [StartReason::Run, StartReason::Keep, StartReason::Up] {
        assert_eq!(reason.cost_of_ending(), None, "{reason:?}");
    }
}

#[test]
fn the_lifecycle_explainer_names_the_stop_and_what_it_frees() {
    let text = lifecycle_explainer(Image::Linux, prepared(ProviderKind::Qemu, Staging::Done, false));
    assert!(text.contains("`vm down` is the stop"), "{text}");
    assert!(!text.contains("no stop or pause"), "{text}");
    assert!(text.contains("no way to do is save or pause"), "{text}");
    assert!(text.contains("4.0 GiB of this host's memory"), "{text}");
    assert!(text.contains("golden image untouched"), "{text}");
    assert!(text.contains("cargo xtask vm down linux"), "{text}");
    assert!(text.contains("clicking during one perturbs it"), "{text}");
    assert!(text.contains("clipboard"), "{text}");
    assert!(!text.contains("SLINT_BACKEND"), "{text}");
}

#[test]
fn the_memory_a_guest_is_said_to_hold_is_the_memory_it_gets() {
    for image in Image::all() {
        let (mib, _) = resources_for(image);
        let expected = gib(mib);
        assert!(
            lifecycle_explainer(image, bare(ProviderKind::Qemu, Staging::Skipped))
                .contains(&format!("{expected} of this host's memory")),
            "{} is described as holding something other than {expected}",
            image.slug()
        );
    }
    let desktop = lifecycle_explainer(Image::Linux, bare(ProviderKind::Qemu, Staging::Skipped));
    let builder = lifecycle_explainer(Image::LinuxBuilder, bare(ProviderKind::Qemu, Staging::Skipped));
    let (desktop_mib, _) = resources_for(Image::Linux);
    let (builder_mib, _) = resources_for(Image::LinuxBuilder);
    assert!(builder_mib > desktop_mib);
    assert!(!desktop.contains(&gib(builder_mib)), "{desktop}");
    assert!(!builder.contains(&gib(desktop_mib)), "{builder}");
}

#[test]
fn handing_over_a_linux_guest_says_where_the_app_is_and_how_to_start_it() {
    let text = lifecycle_explainer(Image::Linux, prepared(ProviderKind::Qemu, Staging::Done, false));
    assert!(text.contains(GUEST_ROOT_LINUX), "{text}");
    assert!(text.contains(&linux_launcher_path()), "{text}");
    assert!(text.contains(ENTRY_NAME), "{text}");
    assert!(text.contains("applications menu"), "{text}");
    assert!(text.contains("GNOME does not"), "{text}");
}

#[test]
fn a_windows_guest_with_no_builder_image_names_the_image_and_not_vm_up() {
    let text = lifecycle_explainer(Image::Windows, bare(ProviderKind::Qemu, Staging::Impossible));
    assert!(!text.contains("cargo xtask vm up windows"), "{text}");
    assert!(text.contains("cargo xtask vm build-image windows-builder"), "{text}");
    assert!(text.contains("cargo xtask vm view windows"), "{text}");
    assert!(text.contains("cargo xtask vm ssh windows"), "{text}");
    for staged in [Staging::Skipped, Staging::Done] {
        let text = lifecycle_explainer(Image::Windows, bare(ProviderKind::HyperV, staged));
        assert!(!text.contains("can compile"), "{text}");
    }
}

#[test]
fn a_windows_guest_under_qemu_is_described_as_the_vnc_console_it_has() {
    let text = lifecycle_explainer(Image::Windows, bare(ProviderKind::Qemu, Staging::Impossible));
    assert!(!text.contains("basic session"), "{text}");
    assert!(!text.contains("enhanced session"), "{text}");
    assert!(!text.contains(CREDENTIAL_DIALOG_CAVEAT), "{text}");
    assert!(text.contains("no clipboard integration"), "{text}");
}

#[test]
fn a_bare_linux_guest_promises_no_launcher_and_names_what_would_stage_one() {
    let text = lifecycle_explainer(Image::Linux, bare(ProviderKind::Qemu, Staging::Skipped));
    assert!(text.contains("Nothing of ours was staged"), "{text}");
    assert!(!text.contains(ENTRY_NAME), "{text}");
    assert!(!text.contains(&linux_launcher_path()), "{text}");
    assert!(text.contains("cargo xtask vm up linux"), "{text}");
    assert!(text.contains(&keep_command(Image::Linux)), "{text}");
}

#[test]
fn a_linux_builder_is_never_promised_a_menu_or_a_desktop_entry() {
    for prepared in [
        bare(ProviderKind::Qemu, Staging::Skipped),
        prepared(ProviderKind::Qemu, Staging::Done, false),
    ] {
        let text = lifecycle_explainer(Image::LinuxBuilder, prepared);
        assert!(!text.contains("desktop entries"), "{text}");
        assert!(!text.contains(ENTRY_NAME), "{text}");
        assert!(!text.contains("applications menu"), "{text}");
        assert!(text.contains("vm ssh linux-builder"), "{text}");
    }
    let desktop = lifecycle_explainer(Image::Linux, prepared(ProviderKind::Qemu, Staging::Done, false));
    assert!(desktop.contains("applications menu"), "{desktop}");
}

#[test]
fn a_guest_kept_after_its_work_is_no_longer_named_as_that_work() {
    assert_eq!(reason_when_kept(StartReason::Run), StartReason::Keep);
    assert_eq!(reason_when_kept(StartReason::Dist), StartReason::Keep);
    assert!(reason_when_kept(StartReason::Dist).cost_of_ending().is_none());
    assert_eq!(reason_when_kept(StartReason::Build), StartReason::Build);
    assert_eq!(reason_when_kept(StartReason::Up), StartReason::Up);
    assert_eq!(reason_when_kept(StartReason::Keep), StartReason::Keep);
}

#[test]
fn only_an_image_with_a_desktop_is_said_to_be_waiting_for_one() {
    for image in Image::all() {
        let waiting = readiness_wait_line(image);
        let ready = readiness_ready_line(image, 6_000);
        assert_eq!(waiting.contains("desktop"), image.has_desktop(), "{}", image.slug());
        assert_eq!(ready.contains("desktop"), image.has_desktop(), "{}", image.slug());
        assert!(ready.contains("after 6s"), "{}: {ready}", image.slug());
    }
    assert_eq!(readiness_wait_line(Image::WindowsBuilder), "waiting for the desktop session");
    assert_eq!(
        readiness_wait_line(Image::LinuxBuilder),
        "waiting for the guest to be ready for a job"
    );
}

#[test]
fn handing_over_a_windows_guest_says_what_the_app_needs_in_it() {
    let text = lifecycle_explainer(Image::Windows, prepared(ProviderKind::HyperV, Staging::Done, true));
    assert!(text.contains(&format!("SLINT_BACKEND={}", WINDOWS_SLINT_BACKEND)), "{text}");
    assert!(text.contains("no OpenGL"), "{text}");
    assert!(text.contains("Sunlit Earth"), "{text}");
    assert!(text.contains("sunlit-e2e"), "{text}");
    assert!(!text.contains(".lnk"), "{text}");
    assert!(text.contains("carries the clipboard"), "{text}");
}

#[test]
fn a_guest_that_was_left_as_it_stood_promises_neither_shortcuts_nor_a_session() {
    let text = lifecycle_explainer(Image::Windows, bare(ProviderKind::HyperV, Staging::Skipped));
    assert!(text.contains("`vm down` is the stop"), "{text}");
    assert!(!text.contains("Sunlit Earth"), "{text}");
    assert!(!text.contains("SLINT_BACKEND"), "{text}");
    assert!(text.contains("cargo xtask vm up windows"), "{text}");
    assert!(text.contains("basic session"), "{text}");
    assert!(!text.contains("leave that field empty"), "{text}");
    assert!(text.contains("no clipboard"), "{text}");
}

#[test]
fn every_text_about_a_guest_that_offers_no_enhanced_session_carries_the_same_caveat() {
    let caveat = CREDENTIAL_DIALOG_CAVEAT;
    for prepared in [
        bare(ProviderKind::HyperV, Staging::Skipped),
        prepared(ProviderKind::HyperV, Staging::Done, false),
    ] {
        let text = lifecycle_explainer(Image::Windows, prepared);
        assert!(text.contains(caveat), "{text}");
    }
    assert!(hyperv_view_note(false).contains(caveat));

    let handed_over = lifecycle_explainer(Image::Windows, prepared(ProviderKind::HyperV, Staging::Done, true));
    assert!(!handed_over.contains(caveat), "{handed_over}");
    assert!(!hyperv_view_note(true).contains(caveat));
    assert!(!lifecycle_explainer(Image::Linux, prepared(ProviderKind::Qemu, Staging::Done, false)).contains(caveat));
}

#[test]
fn only_the_linux_guest_can_be_asked_which_desktop_to_boot() {
    for desktop in Desktop::all() {
        assert_eq!(desktop_for(Image::Linux, Some(desktop)), Ok(Some(desktop)), "{}", desktop.flag());
        let refusal = desktop_for(Image::Windows, Some(desktop)).expect_err("the Windows image has one desktop");
        assert!(refusal.contains(desktop.flag()), "{refusal}");
        assert!(refusal.contains("Debian 13 guest option"), "{refusal}");

        let refusal = desktop_for(Image::LinuxBuilder, Some(desktop)).expect_err("the Linux builder has no desktop");
        assert!(refusal.contains("no desktop at all"), "{refusal}");
        let refusal = desktop_for(Image::WindowsBuilder, Some(desktop)).expect_err("the Windows builder has one desktop");
        assert!(refusal.contains("Debian 13 guest option"), "{refusal}");
        assert!(!refusal.contains("no desktop at all"), "{refusal}");
    }
    for image in Image::all() {
        assert_eq!(desktop_for(image, None), Ok(None), "{}", image.slug());
    }
}

#[test]
fn a_session_type_is_asked_of_the_linux_guest_alone_and_defaults_to_kde() {
    let wayland = Some(SessionType::Wayland);
    assert_eq!(
        login_for(Image::Linux, None, wayland),
        Ok(Login::new(Desktop::Kde, SessionType::Wayland).ok())
    );
    assert_eq!(
        login_for(Image::Linux, Some(Desktop::Gnome), wayland),
        Ok(Login::new(Desktop::Gnome, SessionType::Wayland).ok())
    );
    assert_eq!(
        login_for(Image::Linux, Some(Desktop::Xfce), None),
        Ok(Login::new(Desktop::Xfce, SessionType::X11).ok()),
        "a desktop alone is its X11 session, as it always was"
    );
    assert_eq!(login_for(Image::Linux, None, None), Ok(None));
    let refusal = login_for(Image::Linux, Some(Desktop::Cinnamon), wayland)
        .expect_err("Cinnamon has no Wayland session here");
    assert!(refusal.contains("--desktop gnome"), "{refusal}");

    let refusal = login_for(Image::Windows, None, wayland).expect_err("the Windows image has one");
    assert!(refusal.contains("Debian 13 guest option"), "{refusal}");
    let refusal = login_for(Image::Windows, None, Some(SessionType::X11)).expect_err("even the one it would have anyway");
    assert!(refusal.contains("--session-type x11"), "{refusal}");
    let refusal = login_for(Image::LinuxBuilder, None, wayland).expect_err("the Linux builder has no desktop");
    assert!(refusal.contains("no desktop at all"), "{refusal}");
}

#[test]
fn a_wayland_guest_is_refused_a_second_screen_and_an_x11_one_is_not() {
    let request = |session_type, screens| BootRequest {
        desktop: Some(Desktop::Gnome),
        session_type,
        screens,
    };
    let refusal = request(Some(SessionType::Wayland), 2)
        .check(Image::Linux)
        .expect_err("xrandr cannot place a Wayland session's outputs");
    assert!(refusal.contains("--screens 2"), "{refusal}");
    assert!(refusal.contains("--session-type x11"), "{refusal}");
    assert!(refusal.contains("GNOME (Wayland)"), "{refusal}");
    assert!(request(Some(SessionType::Wayland), 1).check(Image::Linux).is_ok());
    assert!(request(Some(SessionType::X11), 2).check(Image::Linux).is_ok());
    assert!(request(None, 2).check(Image::Linux).is_ok());
    assert_eq!(BootRequest::plain().check(Image::Windows), Ok((None, 1)));
}

#[test]
fn only_the_linux_guest_can_be_asked_for_more_than_one_screen() {
    assert_eq!(screens_for(Image::Linux, 2), Ok(2));
    assert_eq!(screens_for(Image::Linux, MAX_SCREENS), Ok(MAX_SCREENS));

    let refusal = screens_for(Image::Windows, 2).expect_err("one head, one screen");
    assert!(refusal.contains("--screens 2"), "{refusal}");
    assert!(refusal.contains("display driver"), "{refusal}");
    let refusal = screens_for(Image::LinuxBuilder, 2).expect_err("no session to put a screen in");
    assert!(refusal.contains("no desktop at all"), "{refusal}");

    let refusal = screens_for(Image::Linux, MAX_SCREENS + 1).expect_err("past the cap");
    assert!(refusal.contains(&MAX_SCREENS.to_string()), "{refusal}");
    let refusal = screens_for(Image::Linux, 0).expect_err("a guest has at least one screen");
    assert!(refusal.contains("--screens 0"), "{refusal}");

    for image in Image::all() {
        assert_eq!(screens_for(image, 1), Ok(1), "{}", image.slug());
    }
}

/// Real `xrandr --query` output from the Linux guest's shape: the connected
/// output with its mode, the mode list indented under it, and the head with
/// nothing on it.
const XRANDR: &str = "\
Screen 0: minimum 320 x 200, current 3840 x 1080, maximum 16384 x 16384
Virtual-1 connected primary 1920x1080+0+0 (normal left inverted right x axis y axis) 0mm x 0mm
   1920x1080     59.96*+
   1280x800      59.81
Virtual-2 connected 1920x1080+1920+0 (normal left inverted right x axis y axis) 0mm x 0mm
   1920x1080     59.96*+
Virtual-3 disconnected (normal left inverted right x axis y axis)
";

#[test]
fn the_screens_are_the_connected_outputs_with_their_places() {
    let screens = parse_screens(XRANDR);
    assert_eq!(
        screens,
        vec![
            Screen { name: "Virtual-1".to_owned(), geometry: "1920x1080+0+0".to_owned() },
            Screen { name: "Virtual-2".to_owned(), geometry: "1920x1080+1920+0".to_owned() },
        ],
        "the disconnected head or the mode list got in"
    );
}

#[test]
fn a_connected_output_with_no_mode_is_a_screen_with_nowhere_to_draw() {
    let screens = parse_screens("Virtual-2 connected (normal left inverted right x axis y axis)\n   1920x1080 59.96\n");
    assert_eq!(screens.len(), 1);
    assert!(screens[0].geometry.is_empty(), "{:?}", screens[0]);
    assert!(
        screen_report(&screens, 1).contains("no mode"),
        "a screen with nothing on it reads as one that has something"
    );
}

#[test]
fn a_session_that_came_up_with_fewer_screens_than_were_asked_for_says_so() {
    let report = screen_report(&parse_screens(XRANDR), 3);
    assert!(report.contains("warning:"), "{report}");
    assert!(report.contains("3 screens were asked for"), "{report}");
    assert!(report.contains("has 2"), "{report}");
}

#[test]
fn two_screens_stacked_on_one_origin_are_not_a_desktop_across_both() {
    let stacked = "\
Virtual-1 connected primary 1920x1080+0+0 (normal left inverted right x axis y axis) 0mm x 0mm
Virtual-2 connected 1920x1080+0+0 (normal left inverted right x axis y axis) 0mm x 0mm
";
    let report = screen_report(&parse_screens(stacked), 2);
    assert!(report.contains("share an origin"), "{report}");

    let placed = screen_report(&parse_screens(XRANDR), 2);
    assert!(!placed.contains("warning:"), "{placed}");
    assert!(placed.contains("Virtual-1 1920x1080+0+0"), "{placed}");
    assert!(placed.contains("Virtual-2 1920x1080+1920+0"), "{placed}");
}

#[test]
fn the_pointer_says_which_screen_it_clicks_on_and_which_it_does_not() {
    let mapped = pointer_report(&format!("something first\n{POINTER_MARK}Virtual-1\n"));
    assert!(mapped.contains("Virtual-1"), "{mapped}");
    assert!(!mapped.contains("warning"), "{mapped}");
    assert!(mapped.contains("looking at"), "{mapped}");

    for answer in [format!("{POINTER_MARK}none"), String::new()] {
        let missing = pointer_report(&answer);
        assert!(missing.contains("warning"), "{missing}");
        assert!(missing.contains("xinput"), "{missing}");
    }
}

#[test]
fn the_screen_placement_takes_the_sessions_own_environment() {
    let command = place_screens_command();
    assert!(command.contains(&format!(". {}/session.env", GUEST_ROOT_LINUX)), "{command}");
    assert!(command.contains("DISPLAY"), "{command}");
    assert!(command.contains("--right-of"), "{command}");
    assert!(command.trim_end().ends_with("xrandr --query"), "{command}");
}

#[test]
fn a_failed_hand_over_still_describes_the_console_the_guest_has() {
    let text = lifecycle_explainer(Image::Windows, prepared(ProviderKind::HyperV, Staging::Done, false));
    assert!(text.contains("Sunlit Earth"), "{text}");
    assert!(text.contains("basic session"), "{text}");
    assert!(!text.contains("leave that field empty"), "{text}");
}

#[test]
fn the_command_that_keeps_a_guest_is_the_one_that_runs_in_that_image() {
    assert_eq!(keep_command(Image::Linux), "cargo xtask e2e --target linux --keep");
    assert_eq!(
        keep_command(Image::WindowsBuilder),
        "cargo xtask dist --target windows --keep --no-verify"
    );
    for image in Image::all() {
        let text = keep_command(image);
        assert!(!text.contains("--image"), "{text}");
        assert!(!text.contains("builder"), "{text}");
    }
}

#[test]
fn the_line_that_offers_a_console_calls_it_what_the_image_has() {
    for image in Image::all() {
        let expected = if image.has_desktop() {
            "desktop: cargo xtask vm view"
        } else {
            "console: cargo xtask vm view"
        };
        let text = lifecycle_explainer(image, bare(ProviderKind::Qemu, Staging::Skipped));
        assert!(text.contains(expected), "{text}");
        let hint = reach_hint(image);
        assert!(hint.contains(expected), "{hint}");
    }
    let linux = lifecycle_explainer(Image::Linux, bare(ProviderKind::Qemu, Staging::Skipped));
    assert!(linux.contains("no app in"), "{linux}");
    assert!(lifecycle_explainer(Image::WindowsBuilder, bare(ProviderKind::HyperV, Staging::Skipped))
        .contains("desktop: cargo xtask vm view windows-builder"));
}

#[test]
fn neither_failed_resume_message_says_anything_was_destroyed() {
    for image in Image::all().into_iter().filter(|image| image.is_builder()) {
        for text in [
            resume_left_running(image, "sunlit-e2e-x"),
            resume_left_stopped(image, "sunlit-e2e-x"),
        ] {
            assert!(!text.contains("was destroyed"), "{text}");
            assert!(text.contains("untouched"), "{text}");
            assert!(text.contains(&format!("cargo xtask vm down {}", image.slug())), "{text}");
        }
    }
}

#[test]
fn a_builder_may_run_beside_a_guest_under_test_and_two_desktop_guests_may_not() {
    for target in Target::all() {
        let desktop = Image::desktop(target);
        let builder = Image::builder(target);
        assert!(may_run_beside(desktop, builder), "{}", target.slug());
        assert!(may_run_beside(builder, desktop), "{}", target.slug());
    }
    assert!(may_run_beside(Image::Linux, Image::WindowsBuilder));
    assert!(may_run_beside(Image::WindowsBuilder, Image::LinuxBuilder));
    assert!(!may_run_beside(Image::Windows, Image::Linux));
    assert!(!may_run_beside(Image::Linux, Image::Windows));
}

#[test]
fn a_boot_beside_another_guest_names_it_and_what_the_two_hold() {
    let line = beside_line(Image::Windows, Image::WindowsBuilder);
    assert!(line.contains("sunlit-e2e-windows-builder"), "{line}");
    let total = u64::from(resources_for(Image::Windows).0) + u64::from(resources_for(Image::WindowsBuilder).0);
    assert!(line.contains(&format_bytes(total * 1024 * 1024)), "{line}");
    assert_eq!(line.lines().count(), 1, "{line}");
}

#[test]
fn stopping_a_guest_the_suite_runs_in_is_refused_by_naming_the_pristine_overlay() {
    for image in Image::all().into_iter().filter(|image| !image.is_builder()) {
        let text = persistence_refusal(image);
        assert!(text.contains("pristine overlay"), "{text}");
        assert!(text.contains(&format!("cargo xtask vm down {}", image.slug())), "{text}");
        assert!(text.contains("The builders are what"), "{text}");
        assert!(text.contains("build directory"), "{text}");
    }
}

#[test]
fn a_boot_that_discards_a_stopped_builder_says_so_rather_than_calling_it_a_leftover() {
    let mut state = state(Image::WindowsBuilder, StartReason::Suite);
    let crashed = clearing_line(Image::WindowsBuilder, &state);
    assert!(crashed.contains("left behind by an earlier run"), "{crashed}");

    state.stopped = true;
    let stopped = clearing_line(Image::WindowsBuilder, &state);
    assert!(stopped.contains("build directory"), "{stopped}");
    assert!(stopped.contains("cargo xtask vm start windows-builder"), "{stopped}");
    assert_eq!(stopped.lines().count(), 1, "{stopped}");
}

#[test]
fn a_stop_says_what_it_kept_what_it_freed_and_what_reclaims_it() {
    let line = stopped_line(
        Image::WindowsBuilder,
        "sunlit-e2e-windows-builder",
        Stopped::ShutDown,
        Some(6 * 1024 * 1024 * 1024),
    );
    assert!(line.contains("is stopped"), "{line}");
    assert!(line.contains("6.0 GiB"), "{line}");
    assert!(line.contains("cargo xtask vm start windows-builder"), "{line}");
    assert!(line.contains("cargo xtask vm down windows-builder"), "{line}");
    assert_eq!(line.lines().count(), 1, "{line}");

    let gone = stopped_line(Image::LinuxBuilder, "sunlit-e2e-linux-builder", Stopped::WasNotRunning, None);
    assert!(gone.contains("was not running"), "{gone}");

    let killed = stopped_line(
        Image::WindowsBuilder,
        "sunlit-e2e-windows-builder",
        Stopped::Killed,
        Some(6 * 1024 * 1024 * 1024),
    );
    assert!(killed.contains("was killed"), "{killed}");
    assert!(killed.contains("repair pass"), "{killed}");
    assert!(killed.contains("6.0 GiB"), "{killed}");
    assert!(killed.contains("cargo xtask vm start windows-builder"), "{killed}");
    assert_eq!(killed.lines().count(), 1, "{killed}");
}

#[test]
fn a_stopped_guest_is_offered_a_resume_and_a_crashed_one_a_teardown() {
    let mut state = state(Image::WindowsBuilder, StartReason::Suite);
    let crashed = not_running_hint(Image::WindowsBuilder, &state);
    assert!(crashed.contains("cargo xtask vm down windows-builder"), "{crashed}");
    assert!(!crashed.contains("vm start"), "{crashed}");

    state.stopped = true;
    let stopped = not_running_hint(Image::WindowsBuilder, &state);
    assert!(stopped.contains("cargo xtask vm start windows-builder"), "{stopped}");
    assert!(!stopped.contains("vm down"), "{stopped}");
}

#[test]
fn a_boot_stages_binaries_into_the_guests_the_suite_runs_in_and_no_others() {
    for image in Image::all() {
        assert_eq!(stages_binaries(image), !image.is_builder(), "{}", image.slug());
    }
}

#[test]
fn a_builders_closing_text_drops_every_part_of_a_desktop_guests_that_is_not_true_of_it() {
    for image in Image::all().into_iter().filter(|image| image.is_builder()) {
        let text = lifecycle_explainer(image, bare(ProviderKind::HyperV, Staging::Skipped));
        assert!(!text.contains(ENTRY_NAME), "{text}");
        assert!(!text.contains(APP_SHORTCUT.trim_end_matches(".lnk")), "{text}");
        assert!(!text.contains("SLINT_BACKEND"), "{text}");
        assert!(!text.contains("enhanced session"), "{text}");
        assert!(!text.contains("basic session"), "{text}");
        assert!(!text.contains("clipboard"), "{text}");
        assert!(!text.contains(CREDENTIAL_DIALOG_CAVEAT), "{text}");
        assert!(!text.contains("Watching a run"), "{text}");
        assert!(!text.contains("no way to do is save or pause"), "{text}");
        assert!(text.contains(&format!("cargo xtask vm stop {}", image.slug())), "{text}");
        assert!(text.contains(&format!("cargo xtask vm start {}", image.slug())), "{text}");
        assert!(text.contains(&format!("cargo xtask vm down {}", image.slug())), "{text}");

        let desktop = lifecycle_explainer(
            Image::desktop(image.target()),
            prepared(ProviderKind::HyperV, Staging::Done, true),
        );
        assert!(
            text.len() < desktop.len(),
            "the {} text is longer than the desktop guest's: {text}",
            image.slug()
        );
    }
}

#[test]
fn a_detached_layer_is_refused_by_naming_the_rebuild_of_the_layer() {
    let text = detached_help(
        Image::WindowsBuilder,
        "the windows image was rebuilt: golden.vhdx is crc32:1 now and this \
         layer was built over crc32:2",
    );
    assert!(text.contains("cargo xtask vm build-image windows-builder"), "{text}");
    assert!(text.contains("was rebuilt"), "{text}");
    assert!(text.contains("only what its own build changed"), "{text}");
}

// ---------------------------------------------------------------------------
// Beyond the cases above
// ---------------------------------------------------------------------------

#[test]
fn sizes_are_written_in_the_largest_binary_unit_they_reach() {
    assert_eq!(format_bytes(0), "0 B");
    assert_eq!(format_bytes(1023), "1023 B");
    assert_eq!(format_bytes(1024), "1.0 KiB");
    assert_eq!(format_bytes(1536), "1.5 KiB");
    assert_eq!(format_bytes(4 * 1024 * 1024 * 1024), "4.0 GiB");
    assert_eq!(format_bytes(12 * 1024 * 1024 * 1024), "12.0 GiB");
    assert_eq!(format_bytes(3 * 1024 * 1024 * 1024 * 1024), "3.0 TiB");
    // A half rounds up.
    assert_eq!(format_bytes(1024 + 51), "1.0 KiB");
    assert_eq!(format_bytes(1024 + 52), "1.1 KiB");
}

#[test]
fn the_ready_line_rounds_to_the_nearest_second() {
    assert_eq!(readiness_ready_line(Image::Linux, 6_499), "  the desktop was ready after 6s");
    assert_eq!(readiness_ready_line(Image::LinuxBuilder, 6_501), "  the guest was ready after 7s");
}

#[test]
fn a_second_desktop_guest_is_refused_with_what_ending_the_first_costs() {
    let plain = other_vm_refusal("sunlit-e2e-linux", Image::Linux, StartReason::Up);
    assert!(plain.contains("sunlit-e2e-linux is already running"), "{plain}");
    assert!(plain.ends_with("`cargo xtask vm down linux` frees it."), "{plain}");
    let build = other_vm_refusal("sunlit-e2e-windows", Image::Windows, StartReason::Build);
    assert!(build.contains("frees it, which ends the image build"), "{build}");
}

#[test]
fn a_guest_kept_after_a_failure_is_named_with_the_way_to_reach_it() {
    let kept = after_failure_line(Image::Linux, "sunlit-e2e-linux", true, &Ok(()));
    assert!(kept.contains("still running, because --keep was given"), "{kept}");
    assert!(kept.contains("cargo xtask vm ssh linux"), "{kept}");
    let gone = after_failure_line(Image::Linux, "sunlit-e2e-linux", false, &Ok(()));
    assert_eq!(gone, "sunlit-e2e-linux was destroyed.");
    let stuck = after_failure_line(Image::Linux, "sunlit-e2e-linux", false, &Err("busy".to_owned()));
    assert!(stuck.contains("could not be destroyed (busy)"), "{stuck}");
    assert!(stuck.contains("cargo xtask vm down linux"), "{stuck}");
}

#[test]
fn the_session_check_holds_an_unnamed_boot_to_the_image_default() {
    let kde = "XDG_SESSION_TYPE=x11\nXDG_CURRENT_DESKTOP=KDE\n";
    assert_eq!(session_line(None, kde), Ok("  the session is KDE Plasma (X11)".to_owned()));
    let gnome = Login::new(Desktop::Gnome, SessionType::Wayland).ok();
    let refusal = session_line(gnome, kde).expect_err("a KDE session is not GNOME on Wayland");
    assert!(refusal.contains("GNOME (Wayland)"), "{refusal}");
}

#[test]
fn a_host_that_cannot_build_the_binaries_is_the_reason_nothing_was_staged() {
    let missing = ImageCondition { label: "missing".to_owned(), detail: "no disk".to_owned(), blocks_boot: true };
    let fine = ImageCondition { label: "ok".to_owned(), detail: String::new(), blocks_boot: false };
    assert_eq!(Staging::skipped_for(HostOs::Linux, Target::Windows, None), Staging::Impossible);
    assert_eq!(Staging::skipped_for(HostOs::Linux, Target::Windows, Some(&missing)), Staging::Impossible);
    assert_eq!(Staging::skipped_for(HostOs::Linux, Target::Windows, Some(&fine)), Staging::Skipped);
    for (host, target) in [
        (HostOs::Linux, Target::Linux),
        (HostOs::Windows, Target::Windows),
        (HostOs::Windows, Target::Linux),
    ] {
        assert_eq!(Staging::skipped_for(host, target, None), Staging::Skipped);
    }
    let bare = Prepared::bare(HostOs::Linux, ProviderKind::Qemu, Target::Windows, None);
    assert_eq!(bare.staged, Staging::Impossible);
    assert!(!bare.enhanced_session);
}

#[test]
fn the_pointer_mapping_marks_its_answer() {
    let command = map_pointer_command();
    assert!(command.contains(&format!("echo \"{POINTER_MARK}$out\"")), "{command}");
    assert!(command.contains(&format!("echo \"{POINTER_MARK}none\"")), "{command}");
    assert!(command.contains("xinput --map-to-output"), "{command}");
}

#[test]
fn a_stop_or_start_with_nothing_recorded_names_the_boot() {
    let text = no_record(Image::LinuxBuilder);
    assert!(text.contains("no linux-builder VM is recorded"), "{text}");
    assert!(text.contains("cargo xtask vm up linux-builder"), "{text}");
}

#[test]
fn a_remote_command_is_the_words_given_and_a_shell_is_none() {
    assert_eq!(remote_command(&Vec::new()), None);
    let words = vec!["xrandr".to_owned(), "--query".to_owned()];
    assert_eq!(remote_command(&words), Some("xrandr --query".to_owned()));
}

#[test]
fn the_interactive_commands_name_what_to_run_next() {
    assert_eq!(
        ssh_no_record(Image::Linux),
        "no linux VM is recorded. `cargo xtask vm up linux` starts one."
    );
    let view = view_no_record(Image::Windows);
    assert!(view.contains("cargo xtask vm up windows"), "{view}");
    assert!(view.contains("cargo xtask e2e --target windows --keep"), "{view}");
    let record = state(Image::LinuxBuilder, StartReason::Up);
    let console = no_console(Image::LinuxBuilder, &record);
    assert!(console.starts_with("there is no console to attach to: "), "{console}");
    assert!(console.contains("cargo xtask vm down linux-builder"), "{console}");
    assert_eq!(
        shell_line("sunlit-e2e-linux", "127.0.0.1", 2222),
        "opening a shell on sunlit-e2e-linux (127.0.0.1:2222); `exit` or Ctrl-D leaves it"
    );
    assert!(already_running_line(Image::LinuxBuilder, "sunlit-e2e-linux-builder")
        .contains("`cargo xtask vm ssh linux-builder` is a shell in it"));
    assert!(up_again_line(Image::LinuxBuilder, "sunlit-e2e-linux-builder")
        .contains("`cargo xtask vm stop linux-builder` puts it back"));
}

#[test]
fn the_command_that_keeps_a_builder_is_one_that_keeps_a_builder() {
    for image in Image::all() {
        let text = keep_command(image);
        if !image.is_builder() {
            assert!(!text.contains("--no-verify"), "{text}");
            continue;
        }
        // The flag on its own keeps the last guest of a verifying run, the
        // desktop one; keeping the builder takes dropping the verification.
        assert!(text.contains("--keep"), "{text}");
        assert!(text.contains("--no-verify"), "{text}");
        assert!(text.contains(&format!("--target {}", image.target().slug())), "{text}");
    }
}
