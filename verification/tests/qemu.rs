use xtask_vm::provider::desktop::{Desktop, Login, SessionType};
use xtask_vm::provider::firmware::Firmware;
use xtask_vm::provider::qemu::{
    classify, console_addresses, console_line, fill_in_consoles, free_port_from, disk_device_for, display_args, display_of_address, end_first_step, fill_in_address,
    insist_line, kill_outcome, launch_for, log_tail, nic_device_for, no_viewer_note, overlay_args, post_mortem,
    running, vga_for, viewer_failure, viewer_note, vnc_display_of, vnc_displays_of,
    vnc_port, EndStep, Launch, Ownership, DEFAULT_CONSOLE, DISPLAY_DEVICE_ID, DRIVE_INTERFACES,
    GUEST_USER, LOG_TAIL_LINES, PORT_WALK, QMP_PORT, SSH_PORT, USB_CONTROLLER, VNC_DISPLAY,
};
use xtask_vm::provider::target::{Image, ProviderKind, Target};
use xtask_vm::provider::{resources_for, Stopped};
use xtask_vm::host::facts::vnc_viewer_argument;
use xtask_vm::runner::ProcessIdentity;
use xtask_vm::state::{RunState, StartReason};

fn launch(image: Image) -> Launch {
    let (memory_mb, cpus) = resources_for(image);
    Launch {
        name: image.vm_name(),
        overlay: "/srv/vm/run/linux/overlay.qcow2".to_owned(),
        image,
        memory_mb,
        cpus,
        accelerator: "kvm".to_owned(),
        ssh_port: SSH_PORT,
        qmp_port: QMP_PORT,
        vnc_displays: vec![VNC_DISPLAY],
        firmware: None,
        console: DEFAULT_CONSOLE,
        login: None,
    }
}

fn joined(image: Image) -> String {
    launch(image).args().join(" ")
}

fn recorded_state() -> RunState {
    RunState::for_image(
        Image::Linux,
        ProviderKind::Qemu,
        "/srv/vm/run/linux/overlay.qcow2".to_owned(),
        StartReason::Run,
        0,
    )
}

fn two_screen_state() -> RunState {
    let mut state = recorded_state();
    state.vnc_heads = vec!["127.0.0.1:5919".to_owned(), "127.0.0.1:5920".to_owned()];
    state.screens = Some(2);
    state
}

fn qemu_process(command_line: &str) -> ProcessIdentity {
    ProcessIdentity {
        image: "qemu-system-x86_64".to_owned(),
        command_line: Some(command_line.to_owned()),
    }
}

#[test]
fn a_two_screen_guest_opens_a_viewer_on_each_of_them() {
    let addresses = console_addresses(&two_screen_state());
    assert_eq!(addresses.len(), 2, "{addresses:?}");
    let spawned: Vec<String> =
        addresses.iter().map(|a| vnc_viewer_argument("vncviewer", a)).collect();
    assert!(spawned[0].contains("127.0.0.1:5919"), "{spawned:?}");
    assert!(spawned[1].contains("127.0.0.1:5920"), "{spawned:?}");
    let said = viewer_note("vncviewer", &addresses);
    assert!(said.contains("127.0.0.1:5919 and 127.0.0.1:5920"), "{said}");
}

#[test]
fn a_viewer_that_fails_on_a_later_screen_says_what_is_already_open() {
    let refusal = viewer_failure("vncviewer", 1, "127.0.0.1:5920", "spawn refused");
    assert!(refusal.contains("127.0.0.1:5920"), "{refusal}");
    assert!(refusal.contains("already open"), "{refusal}");
    let third = viewer_failure("vncviewer", 2, "127.0.0.1:5921", "spawn refused");
    assert!(third.contains("The 2 viewers already open stay open."), "{third}");
    assert_eq!(viewer_failure("vncviewer", 0, "x", "e"), "cannot start vncviewer: e");
}

#[test]
fn two_consoles_with_no_viewer_are_both_named() {
    let said = no_viewer_note(&console_addresses(&two_screen_state()));
    assert!(said.contains("127.0.0.1:5919 and 127.0.0.1:5920"), "{said}");
    assert!(said.contains("consoles are"), "{said}");
    assert!(said.contains("point any VNC client at them"), "{said}");
    let one = no_viewer_note(&console_addresses(&recorded_state()));
    assert!(one.contains("The console is at 127.0.0.1:5900"), "{one}");
    assert!(one.contains("point any VNC client at it."), "{one}");
}

#[test]
fn a_qemu_guest_is_running_only_while_its_own_process_is() {
    let ours = qemu_process("qemu-system-x86_64 -name sunlit-e2e-linux -m 4096");
    // No pid recorded, or a pid nothing runs under.
    assert!(!running(&classify(None, "sunlit-e2e-linux")));
    assert!(running(&classify(Some(&ours), "sunlit-e2e-linux")));
}

#[test]
fn a_reused_pid_is_not_mistaken_for_our_vm() {
    assert_eq!(classify(None, "sunlit-e2e-linux"), Ownership::Gone);

    let editor = ProcessIdentity {
        image: "vim".to_owned(),
        command_line: Some("vim notes.txt".to_owned()),
    };
    assert_eq!(classify(Some(&editor), "sunlit-e2e-linux"), Ownership::Foreign("vim".to_owned()));

    let other_vm = ProcessIdentity {
        image: "qemu-system-x86".to_owned(),
        command_line: Some("qemu-system-x86_64 -name someone-elses-vm".to_owned()),
    };
    assert!(matches!(classify(Some(&other_vm), "sunlit-e2e-linux"), Ownership::Foreign(_)));

    let ours = ProcessIdentity {
        image: "qemu-system-x86".to_owned(),
        command_line: Some("qemu-system-x86_64 -name sunlit-e2e-linux".to_owned()),
    };
    assert_eq!(classify(Some(&ours), "sunlit-e2e-linux"), Ownership::Ours);
}

#[test]
fn without_a_command_line_the_image_name_is_the_whole_answer() {
    let windows = ProcessIdentity {
        image: "qemu-system-x86_64.exe".to_owned(),
        command_line: None,
    };
    assert_eq!(classify(Some(&windows), "sunlit-e2e-windows"), Ownership::Ours);
}

#[test]
fn destroying_a_reused_pid_refuses_rather_than_killing_it() {
    let postgres = ProcessIdentity {
        image: "postgres".to_owned(),
        command_line: Some("postgres -D /data".to_owned()),
    };
    let ownership = classify(Some(&postgres), "sunlit-e2e-linux");
    match end_first_step(Some(4242), &ownership, "/srv/vm/run/linux/vm.json") {
        EndStep::Refused(err) => assert!(err.contains("was reused"), "{err}"),
        other => panic!("it went on to end something: {other:?}"),
    }
}

#[test]
fn destroying_a_running_guest_stops_it_and_reports_that_it_did() {
    let ownership = classify(
        Some(&qemu_process("qemu-system-x86_64 -name sunlit-e2e-linux")),
        "sunlit-e2e-linux",
    );
    assert!(running(&ownership));
    assert_eq!(end_first_step(Some(4242), &ownership, "vm.json"), EndStep::Ask);
    // No QMP port, so nothing was asked, the process was terminated, and it
    // was gone afterwards.
    assert_eq!(kill_outcome(4242, true), Ok(Stopped::Killed));
    assert!(!running(&classify(None, "sunlit-e2e-linux")));
}

#[test]
fn a_stop_that_cannot_ask_the_guest_still_ends_it() {
    let ownership = classify(
        Some(&qemu_process("qemu-system-x86_64 -name sunlit-e2e-windows-builder")),
        "sunlit-e2e-windows-builder",
    );
    assert_eq!(end_first_step(Some(4242), &ownership, "vm.json"), EndStep::Ask);
    assert_eq!(kill_outcome(4242, true), Ok(Stopped::Killed));
    // A guest already gone is nothing to stop.
    assert_eq!(
        end_first_step(Some(4242), &Ownership::Gone, "vm.json"),
        EndStep::Finished(Stopped::WasNotRunning)
    );
    assert_eq!(
        kill_outcome(4242, false),
        Err("pid 4242 is still running after being asked and then told to stop".to_owned())
    );
}

#[test]
fn a_resumed_guest_picks_its_ports_again() {
    let mut state = RunState::for_image(
        Image::WindowsBuilder,
        ProviderKind::Qemu,
        "/srv/vm/run/windows-builder/overlay.qcow2".to_owned(),
        StartReason::Keep,
        0,
    );
    state.ssh_port = 0;
    state.qmp_port = None;
    state.vnc = None;

    fill_in_address(&mut state, SSH_PORT, QMP_PORT, vnc_port(VNC_DISPLAY));
    assert!(state.ssh_port >= SSH_PORT, "{}", state.ssh_port);
    assert_eq!(state.ssh_host, "127.0.0.1");
    assert_eq!(state.ssh_user, GUEST_USER);
    assert!(state.qmp_port.is_some_and(|port| port >= QMP_PORT));
    assert!(state.vnc.as_deref().is_some_and(|vnc| vnc.starts_with("127.0.0.1:")), "{:?}", state.vnc);
}

#[test]
fn the_line_before_a_kill_names_which_of_the_two_it_is() {
    let asked = insist_line("sunlit-e2e-windows-builder", true, 60_000);
    assert!(asked.contains("has not shut down in 60s"), "{asked}");
    assert!(asked.contains("repair pass"), "{asked}");

    let unasked = insist_line("sunlit-e2e-windows-builder", false, 60_000);
    assert!(unasked.contains("could not be asked"), "{unasked}");
    assert!(!unasked.contains("60s"), "{unasked}");
    assert!(unasked.contains("repair pass"), "{unasked}");
}

#[test]
fn destroying_a_vm_that_is_already_gone_is_not_a_stop() {
    assert_eq!(
        end_first_step(Some(4242), &classify(None, "sunlit-e2e-linux"), "vm.json"),
        EndStep::Finished(Stopped::WasNotRunning)
    );
    assert_eq!(
        end_first_step(None, &Ownership::Ours, "vm.json"),
        EndStep::Finished(Stopped::WasNotRunning)
    );
}

#[test]
fn vnc_display_zero_is_port_5900() {
    assert_eq!(vnc_port(0), 5900);
    assert_eq!(vnc_port(3), 5903);
}

#[test]
fn the_three_port_walks_cannot_meet() {
    assert!(u32::from(SSH_PORT) + u32::from(PORT_WALK) <= u32::from(QMP_PORT));
    assert!(u32::from(QMP_PORT) + u32::from(PORT_WALK) <= u32::from(vnc_port(VNC_DISPLAY)));
}

#[test]
fn the_command_line_is_built_from_the_record() {
    let mut state = recorded_state();
    state.ssh_port = 2224;
    state.qmp_port = Some(4446);
    state.vnc = Some("127.0.0.1:5903".to_owned());
    let text = launch_for(Image::Linux, &state, "kvm", None, DEFAULT_CONSOLE).args().join(" ");
    assert!(text.contains("hostfwd=tcp:127.0.0.1:2224-:22"), "{text}");
    assert!(text.contains("-qmp tcp:127.0.0.1:4446,server=on,wait=off"), "{text}");
    assert!(text.contains("-vnc 127.0.0.1:3"), "{text}");
}

#[test]
fn the_viewer_is_handed_the_address_in_the_form_it_accepts() {
    let mut state = recorded_state();
    state.vnc = Some("127.0.0.1:5903".to_owned());
    let addresses = console_addresses(&state);
    assert_eq!(addresses.len(), 1);
    assert!(vnc_viewer_argument("krdc", &addresses[0]).contains("vnc://127.0.0.1:5903"));
    assert!(viewer_note("krdc", &addresses).contains("127.0.0.1:5903"));
    assert!(!vnc_viewer_argument("vncviewer", &addresses[0]).contains("vnc://"));
}

#[test]
fn a_record_from_before_ports_could_move_launches_on_the_usual_ones() {
    let mut state = recorded_state();
    state.ssh_port = 0;
    state.qmp_port = None;
    state.vnc = None;
    let text = launch_for(Image::Linux, &state, "kvm", None, DEFAULT_CONSOLE).args().join(" ");
    assert!(text.contains("hostfwd=tcp:127.0.0.1:2222-:22"), "{text}");
    assert!(text.contains("tcp:127.0.0.1:4444,server=on"), "{text}");
    assert!(text.contains("-vnc 127.0.0.1:0"), "{text}");
}

#[test]
fn the_recorded_vnc_address_names_the_display_qemu_is_given() {
    let mut state = recorded_state();
    state.vnc = Some("127.0.0.1:5903".to_owned());
    assert_eq!(vnc_display_of(&state), 3);
    state.vnc = Some("127.0.0.1:5900".to_owned());
    assert_eq!(vnc_display_of(&state), 0);
    state.vnc = None;
    assert_eq!(vnc_display_of(&state), 0);
    state.vnc = Some("not an address".to_owned());
    assert_eq!(vnc_display_of(&state), 0);
    assert_eq!(display_of_address("127.0.0.1:80"), 0);
}

#[test]
fn the_log_tail_skips_the_command_line_and_keeps_the_last_words() {
    let text = "qemu-system-x86_64 -name x\n\nline one\nline two\n";
    assert_eq!(log_tail(text), vec!["line one", "line two"]);

    let mut long = String::from("the command line\n");
    for i in 0..20 {
        long.push_str(&format!("line {i}\n"));
    }
    let tail = log_tail(&long);
    assert_eq!(tail.len(), LOG_TAIL_LINES);
    assert_eq!(tail.last().map(String::as_str), Some("line 19"));

    assert!(log_tail("the command line\n").is_empty());
    assert!(log_tail("").is_empty());
}

#[test]
fn a_running_guest_is_not_defunct() {
    let ownership = classify(
        Some(&qemu_process("qemu-system-x86_64 -name sunlit-e2e-linux")),
        "sunlit-e2e-linux",
    );
    assert!(running(&ownership));
}

#[test]
fn a_dead_qemu_reports_its_last_words_from_the_log() {
    let log = "/srv/vm/run/linux/vm.log";
    let text = "qemu-system-x86_64.exe -name sunlit-e2e-linux -qmp tcp:127.0.0.1:4444\n\
                qemu-system-x86_64.exe: -qmp tcp:127.0.0.1:4444,server=on,wait=off: \
                Failed to bind socket: Input/output error\n";
    let reason = post_mortem("sunlit-e2e-linux", log, Some(text));
    assert!(reason.contains("Failed to bind socket"), "{reason}");
    assert!(reason.contains(log), "{reason}");
    assert!(!reason.contains("-name sunlit-e2e-linux"), "{reason}");
}

#[test]
fn a_dead_qemu_with_no_log_still_names_where_it_would_be() {
    let reason = post_mortem("sunlit-e2e-linux", "/srv/vm/nowhere/run/linux/vm.log", None);
    assert!(reason.contains("has exited"), "{reason}");
    assert!(reason.contains("vm.log"), "{reason}");
    let silent = post_mortem("sunlit-e2e-linux", "/l/vm.log", Some("cmd\n\n"));
    assert!(silent.contains("without printing anything"), "{silent}");
}

#[test]
fn the_command_line_forwards_ssh_to_loopback_only() {
    let text = joined(Image::Linux);
    assert!(text.contains("hostfwd=tcp:127.0.0.1:2222-:22"), "{text}");
    assert!(!text.contains("hostfwd=tcp::"), "{text}");
}

#[test]
fn the_console_is_always_available_on_loopback_vnc() {
    let text = joined(Image::Linux);
    assert!(text.contains("-display none"), "{text}");
    assert!(text.contains("-vnc 127.0.0.1:0"), "{text}");
}

#[test]
fn a_second_screen_is_a_second_console_and_a_scanout_with_a_size() {
    let mut launch = launch(Image::Linux);
    launch.vnc_displays = vec![0, 1];
    let text = launch.args().join(" ");
    assert!(text.contains(&format!("-vnc 127.0.0.1:0,display={DISPLAY_DEVICE_ID},head=0")), "{text}");
    assert!(text.contains(&format!("-vnc 127.0.0.1:1,display={DISPLAY_DEVICE_ID},head=1")), "{text}");

    let device = display_args(Target::Linux, (1920, 1080), 2);
    let spec: serde_json::Value =
        serde_json::from_str(&device[1]).expect("the device is written as JSON");
    assert_eq!(spec["driver"], "virtio-vga");
    assert_eq!(spec["max_outputs"], 2);
    assert_eq!(spec["id"], DISPLAY_DEVICE_ID, "{spec}");
    let outputs = spec["outputs"].as_array().expect("one entry per screen");
    assert_eq!(outputs.len(), 2, "{spec}");
    for output in outputs {
        assert_eq!(output["xres"], 1920, "{spec}");
        assert_eq!(output["yres"], 1080, "{spec}");
        assert!(output["name"].as_str().is_some_and(|n| !n.is_empty()), "{spec}");
    }
}

#[test]
fn the_display_device_is_written_the_way_serde_json_writes_it() {
    let device = display_args(Target::Linux, (1920, 1080), 2);
    let value: serde_json::Value = serde_json::from_str(&device[1]).expect("JSON");
    assert_eq!(device[1], value.to_string());
}

#[test]
fn a_screen_that_had_to_move_keeps_its_place_in_the_order() {
    let mut launch = launch(Image::Linux);
    launch.vnc_displays = vec![3, 9];
    let text = launch.args().join(" ");
    assert!(text.contains(&format!("-vnc 127.0.0.1:3,display={DISPLAY_DEVICE_ID},head=0")), "{text}");
    assert!(text.contains(&format!("-vnc 127.0.0.1:9,display={DISPLAY_DEVICE_ID},head=1")), "{text}");
}

#[test]
fn a_one_screen_guest_gets_the_command_line_it_always_got() {
    let text = joined(Image::Linux);
    assert_eq!(text.matches("-vnc ").count(), 1, "{text}");
    assert!(!text.contains("max_outputs"), "{text}");
    assert!(
        text.contains(&format!(
            "-device virtio-vga,xres={},yres={}",
            DEFAULT_CONSOLE.0, DEFAULT_CONSOLE.1
        )),
        "{text}"
    );
}

#[test]
fn the_windows_display_takes_no_outputs_whatever_it_is_asked() {
    let args = display_args(Target::Windows, (1920, 1080), 2).join(" ");
    assert_eq!(args, "-vga std");
}

#[test]
fn a_record_with_one_console_describes_one_screen() {
    let mut state = recorded_state();
    state.vnc = Some("127.0.0.1:5903".to_owned());
    assert_eq!(vnc_displays_of(&state), vec![3]);
    state.vnc = None;
    assert_eq!(vnc_displays_of(&state), vec![VNC_DISPLAY]);
}

#[test]
fn a_record_with_two_consoles_describes_them_in_order() {
    let mut state = recorded_state();
    state.vnc = Some("127.0.0.1:5903".to_owned());
    state.vnc_heads = vec!["127.0.0.1:5903".to_owned(), "127.0.0.1:5907".to_owned()];
    assert_eq!(vnc_displays_of(&state), vec![3, 7]);
    assert_eq!(vnc_display_of(&state), 3);
}

#[test]
fn the_guest_cpu_is_asked_for_rather_than_left_to_qemu() {
    for image in Image::all() {
        assert!(joined(image).contains("-cpu max"), "{image:?}");
    }
}

#[test]
fn qmp_listens_without_blocking_the_boot() {
    let text = joined(Image::Linux);
    assert!(text.contains("-qmp tcp:127.0.0.1:4444,server=on,wait=off"), "{text}");
}

#[test]
fn the_windows_guest_gets_devices_it_has_drivers_for() {
    assert_eq!(vga_for(Target::Windows), "std");
    assert_eq!(vga_for(Target::Linux), "virtio-vga");
    assert!(joined(Image::Windows).contains("-device ide-hd,drive=hd0"), "{}", joined(Image::Windows));
    assert!(
        joined(Image::Linux).contains("-device virtio-blk-pci,drive=hd0"),
        "{}",
        joined(Image::Linux)
    );
    for image in Image::all() {
        assert!(joined(image).contains("if=none,id=hd0"), "{image:?}");
    }
}

#[test]
fn a_bad_drive_interface_is_refused_before_anything_is_spawned() {
    let mut broken = launch(Image::Windows);
    broken.overlay = "/srv/vm/o.qcow2,if=ahci".to_owned();
    let err = broken.validate().unwrap_err();
    assert!(err.contains("'ahci' is not one QEMU accepts"), "{err}");
    assert!(launch(Image::Linux).validate().is_ok());
}

#[test]
fn every_drive_uses_an_interface_qemu_accepts() {
    let mut with_firmware = launch(Image::Windows);
    with_firmware.firmware = Some(Firmware {
        code: "/fw/code.fd".to_owned(),
        vars: "/fw/vars.fd".to_owned(),
    });
    for launch in [launch(Image::Linux), launch(Image::Windows), with_firmware] {
        for arg in launch.args() {
            for field in arg.split(',') {
                let Some(value) = field.strip_prefix("if=") else {
                    continue;
                };
                assert!(DRIVE_INTERFACES.contains(&value), "if={value} is not one of {DRIVE_INTERFACES:?}");
            }
        }
    }
}

#[test]
fn the_windows_guest_gets_more_memory_than_the_linux_one() {
    let (windows, _) = resources_for(Image::Windows);
    let (linux, _) = resources_for(Image::Linux);
    assert!(windows > linux);
}

#[test]
fn firmware_is_passed_only_when_there_is_some() {
    assert!(!joined(Image::Linux).contains("pflash"));
    let mut with_firmware = launch(Image::Windows);
    with_firmware.firmware = Some(Firmware {
        code: "/usr/share/OVMF/OVMF_CODE.fd".to_owned(),
        vars: "/srv/vm/run/windows/efi-vars.fd".to_owned(),
    });
    let text = with_firmware.args().join(" ");
    assert!(
        text.contains("if=pflash,format=raw,unit=0,readonly=on,file=/usr/share/OVMF/OVMF_CODE.fd"),
        "{text}"
    );
    assert!(text.contains("if=pflash,format=raw,unit=1,file=/srv/vm/run/windows/efi-vars.fd"), "{text}");
}

#[test]
fn the_guest_clock_starts_from_utc() {
    assert!(joined(Image::Linux).contains("-rtc base=utc"));
}

#[test]
fn the_vm_carries_the_ownership_prefix_into_qemu() {
    assert!(joined(Image::Linux).contains("-name sunlit-e2e-linux"));
}

#[test]
fn every_guest_gets_an_absolute_pointer_so_the_cursor_is_where_the_host_put_it() {
    assert!(joined(Image::Linux).contains("-device virtio-tablet-pci"), "{}", joined(Image::Linux));
    for image in [Image::Windows, Image::WindowsBuilder] {
        let text = joined(image);
        assert!(text.contains("-device usb-tablet,bus=xhci.0"), "{text}");
        let controller = text.find(USB_CONTROLLER).expect("a USB controller");
        assert!(controller < text.find("usb-tablet").expect("a tablet"), "{text}");
        assert!(!text.contains("virtio-tablet"), "{text}");
    }
}

#[test]
fn a_guest_with_two_screens_still_has_one_pointer() {
    let mut launch = launch(Image::Linux);
    launch.vnc_displays = vec![0, 1];
    let text = launch.args().join(" ");
    assert_eq!(text.matches("virtio-tablet-pci").count(), 1, "{text}");
    assert!(!text.contains("virtio-tablet-pci,display"), "{text}");
}

#[test]
fn a_screens_vnc_server_names_the_device_its_head_is_on() {
    let mut launch = launch(Image::Linux);
    launch.vnc_displays = vec![0, 1];
    let text = launch.args().join(" ");
    for head in 0..2 {
        assert!(
            text.contains(&format!("-vnc 127.0.0.1:{head},display={DISPLAY_DEVICE_ID},head={head}")),
            "{text}"
        );
    }
    let single = joined(Image::Linux);
    assert!(single.contains("-vnc 127.0.0.1:0 "), "{single}");
    assert!(!single.contains("display=gpu"), "{single}");
}

#[test]
fn the_linux_console_is_a_size_the_host_chose_rather_than_one_the_guest_picked() {
    let args = launch(Image::Linux).args();
    assert!(args.join(" ").contains("-device virtio-vga,xres=1920,yres=1080"), "{args:?}");
    assert!(!args.iter().any(|arg| arg == "-vga"), "{args:?}");

    let mut small = launch(Image::Linux);
    small.console = (1280, 800);
    assert!(small.args().join(" ").contains("xres=1280,yres=800"), "{:?}", small.args());

    let windows = joined(Image::Windows);
    assert!(windows.contains("-vga std"), "{windows}");
    assert!(!windows.contains("xres="), "{windows}");
}

#[test]
fn the_desktop_reaches_the_guest_through_fw_cfg_and_only_when_one_was_asked_for() {
    assert!(!joined(Image::Linux).contains("fw_cfg"), "{}", joined(Image::Linux));

    let mut with_desktop = launch(Image::Linux);
    with_desktop.login = Login::new(Desktop::Gnome, SessionType::X11).ok();
    let text = with_desktop.args().join(" ");
    assert!(text.contains("-fw_cfg name=opt/sunlit/desktop,string=gnome-xorg"), "{text}");
    with_desktop.login = Login::new(Desktop::Gnome, SessionType::Wayland).ok();
    let text = with_desktop.args().join(" ");
    assert!(text.contains("-fw_cfg name=opt/sunlit/desktop,string=gnome-wayland"), "{text}");
}

#[test]
fn the_overlay_is_a_child_with_the_backing_format_stated() {
    let args = overlay_args(
        "/srv/vm/images/linux/golden.qcow2",
        "/srv/vm/run/linux/overlay.qcow2",
    );
    assert_eq!(args[0], "create");
    assert!(args.contains(&"-F".to_owned()), "{args:?}");
    assert!(args.contains(&"qcow2".to_owned()));
    assert_eq!(args.last().map(String::as_str), Some("/srv/vm/run/linux/overlay.qcow2"));
    let backing = args.iter().position(|a| a == "-b").expect("backing flag");
    assert_eq!(args[backing + 1], "/srv/vm/images/linux/golden.qcow2");
}

#[test]
fn the_windows_guest_boots_devices_a_stock_install_has_drivers_for() {
    assert_eq!(nic_device_for(Target::Windows), "e1000");
    assert_eq!(disk_device_for(Target::Windows), "ide-hd");
    assert_ne!(nic_device_for(Target::Windows), nic_device_for(Target::Linux));
}

/// Every port is free here, which is what a host with nothing listening on
/// loopback answers.
fn every_port_free(_: u16) -> bool {
    true
}

#[test]
fn the_extra_consoles_are_picked_past_the_one_that_came_first() {
    let mut state = recorded_state();
    state.vnc = Some("127.0.0.1:5900".to_owned());
    state.screens = Some(3);
    fill_in_consoles(&mut state, &every_port_free).expect("three loopback ports");
    assert_eq!(state.vnc_heads.len(), 3, "{:?}", state.vnc_heads);
    assert_eq!(state.vnc_heads[0], "127.0.0.1:5900");
    let displays = vnc_displays_of(&state);
    assert!(
        displays.windows(2).all(|pair| pair[0] < pair[1]),
        "the screens share a port or went backwards: {displays:?}"
    );
}

#[test]
fn a_one_screen_guest_is_left_with_the_console_it_was_given() {
    let mut state = recorded_state();
    state.vnc = Some("127.0.0.1:5900".to_owned());
    let before = state.clone();
    fill_in_consoles(&mut state, &every_port_free).expect("nothing to pick");
    assert_eq!(state, before);
    assert!(state.vnc_heads.is_empty(), "{:?}", state.vnc_heads);
    assert_eq!(state.consoles(), vec!["127.0.0.1:5900"]);
}

#[test]
fn a_console_walk_skips_a_port_that_is_taken_and_passes_on_a_refusal() {
    let mut state = recorded_state();
    state.vnc = Some("127.0.0.1:5900".to_owned());
    state.screens = Some(3);
    // 5901 is taken, so the walk from it lands on 5902, and the next one
    // starts past that.
    let skip_one = |port: u16| port != 5901;
    fill_in_consoles(&mut state, &skip_one).expect("ports");
    assert_eq!(state.vnc_heads, vec!["127.0.0.1:5900", "127.0.0.1:5902", "127.0.0.1:5903"]);

    let mut refused = recorded_state();
    refused.screens = Some(2);
    let none = |_: u16| false;
    assert_eq!(
        fill_in_consoles(&mut refused, &none),
        Err("no bindable TCP port on 127.0.0.1 between 5901 and 6151: every one is in use or reserved. \
             On a Windows host, `netsh interface ipv4 show excludedportrange protocol=tcp` lists the reserved blocks."
            .to_owned())
    );
    assert!(refused.vnc_heads.is_empty());
}

#[test]
fn a_free_port_is_taken_as_it_is() {
    assert_eq!(free_port_from(40000, &every_port_free), Ok(40000));
}

#[test]
fn a_taken_port_is_walked_past() {
    let taken = 40000;
    let picked = free_port_from(taken, &|p: u16| p > taken + 3).expect("a later port is free");
    assert!(picked > taken, "{picked} is not past {taken}");
    assert!(picked < taken + PORT_WALK, "{picked} left the walk");
    assert_eq!(picked, taken + 4);
}

#[test]
fn a_walk_stops_at_its_end_and_at_the_last_port() {
    let err = free_port_from(65_500, &|_: u16| false).unwrap_err();
    assert!(err.contains("between 65500 and 65535"), "{err}");
    assert!(free_port_from(100, &|p: u16| p >= 100 + PORT_WALK).is_err());
}

#[test]
fn the_start_line_says_the_console_and_the_session_a_linux_guest_boots_into() {
    let mut linux = launch(Image::Linux);
    linux.console = (1280, 800);
    assert_eq!(
        console_line(&linux).as_deref(),
        Some("console: 1280x800, into the image's own default desktop")
    );
    linux.login = Login::new(Desktop::Gnome, SessionType::Wayland).ok();
    linux.vnc_displays = vec![0, 1];
    assert_eq!(
        console_line(&linux).as_deref(),
        Some("console: 1280x800, 2 screens, into the GNOME (Wayland) session")
    );
    let builder = launch(Image::LinuxBuilder);
    assert!(console_line(&builder).expect("a Linux guest").ends_with("into a text console, since this image has no desktop"));
    assert_eq!(console_line(&launch(Image::Windows)), None);
}

#[test]
fn a_drive_interface_refusal_lists_what_qemu_accepts_and_whose_mistake_it_is() {
    let mut broken = launch(Image::Windows);
    broken.overlay = "/srv/vm/o.qcow2,if=ahci".to_owned();
    let expected = format!(
        "the drive interface 'ahci' is not one QEMU accepts ({}); this is a bug in the xtask, not in the host",
        xtask_vm::provider::qemu::DRIVE_INTERFACES.join(", ")
    );
    assert_eq!(broken.validate(), Err(expected));
}
