use xtask_vm::provider::hyperv::{
    address_script, answered, console_resolution, create_script, destroy_script, first_usable_ipv4,
    id_script, is_our_settings, looks_like_settings, parse_addresses, parse_id, parse_resolution,
    parse_state, parse_work_area, should_forget, state_script, view_note, vmconnect_settings,
    vmconnect_settings_path, work_area_script, CONSOLE_MODES, QUERY_OK, VMCONNECT_SERVER,
    WORK_AREA_MARK,
};
use xtask_vm::provider::target::Image;

#[test]
fn the_vm_is_a_differencing_child_of_the_golden_image() {
    let script = create_script(
        "sunlit-e2e-windows",
        r"C:\vm\images\windows\golden.vhdx",
        r"C:\vm\run\windows\overlay.vhdx",
        (1920, 1080),
    );
    assert!(script.contains("-Differencing"), "{script}");
    assert!(script.contains(r"-ParentPath 'C:\vm\images\windows\golden.vhdx'"), "{script}");
    assert!(!script.contains("Set-VHD"), "{script}");
}

#[test]
fn the_saved_connection_settings_answer_the_dialog() {
    let text = vmconnect_settings("sunlit-e2e-windows", (1920, 1080));
    assert!(text.starts_with("<?xml version="), "{text}");
    assert!(text.contains("<Microsoft.Virtualization.Client.RdpOptions>"), "{text}");
    for name in ["SavedConfigExists", "SaveButtonChecked"] {
        let setting = format!("<setting name=\"{name}\" type=\"System.Boolean\">");
        let at = text.find(&setting).expect("the setting is there");
        assert!(
            text[at..].starts_with(&format!("{setting}\n            <value>True</value>")),
            "{name} is what stops the dialog opening: {text}"
        );
    }
    assert!(text.contains("<value>1920, 1080</value>"), "{text}");
    assert!(text.contains("<value>sunlit-e2e-windows</value>"), "{text}");
    assert!(text.contains(&format!("<value>{VMCONNECT_SERVER}</value>")), "{text}");
    for shared in ["RedirectedDrives", "RedirectedUsbDevices", "RedirectedPnpDevices"] {
        let setting = format!("<setting name=\"{shared}\" type=\"System.String\">");
        let at = text.find(&setting).expect("the setting is there");
        assert!(
            text[at..].starts_with(&format!("{setting}\n            <value></value>")),
            "{shared} should be empty: {text}"
        );
    }
}

#[test]
fn the_settings_file_is_named_after_the_vm_identifier() {
    let path = vmconnect_settings_path(
        r"C:\Users\me\AppData\Roaming",
        "2333c8fa-26e0-41a5-9023-f95fffcc1c53",
    );
    assert_eq!(
        path,
        r"C:\Users\me\AppData\Roaming\Microsoft\Windows\Hyper-V\Client\1.0\vmconnect.rdp.2333C8FA-26E0-41A5-9023-F95FFFCC1C53.config"
    );
}

#[test]
fn the_vm_identifier_comes_out_of_the_query() {
    assert!(id_script("sunlit-e2e-windows").contains("$vm.Id"), "the query asks for it");
    assert_eq!(
        parse_id(&format!("ID=2333c8fa-26e0-41a5-9023-f95fffcc1c53\n{QUERY_OK}\n")),
        Some("2333c8fa-26e0-41a5-9023-f95fffcc1c53".to_owned())
    );
    assert_eq!(parse_id(&format!("{QUERY_OK}\n")), None);
    assert_eq!(parse_id("ID=\n"), None);
}

#[test]
fn the_vm_is_generation_two_because_windows_11_needs_uefi() {
    let script = create_script("sunlit-e2e-windows", "g.vhdx", "o.vhdx", (1920, 1080));
    assert!(script.contains("-Generation 2"), "{script}");
    assert!(script.contains("-EnableSecureBoot Off"), "{script}");
    assert!(script.contains("FirstBootDevice"), "{script}");
}

#[test]
fn the_vm_uses_the_switch_every_client_windows_has() {
    let script = create_script("sunlit-e2e-windows", "g.vhdx", "o.vhdx", (1920, 1080));
    assert!(script.contains("-SwitchName 'Default Switch'"), "{script}");
    assert!(!script.contains("New-VMSwitch"), "{script}");
}

#[test]
fn the_vm_never_starts_itself_or_takes_checkpoints() {
    let script = create_script("sunlit-e2e-windows", "g.vhdx", "o.vhdx", (1920, 1080));
    assert!(script.contains("-AutomaticCheckpointsEnabled $false"), "{script}");
    assert!(script.contains("-AutomaticStartAction Nothing"), "{script}");
}

#[test]
fn the_create_script_gives_the_guest_six_gibibytes_and_four_processors() {
    let script = create_script("vm", "g", "o", (1024, 768));
    assert!(script.contains("-MemoryStartupBytes 6442450944 "), "{script}");
    assert!(script.contains("-ProcessorCount 4 "), "{script}");
}

#[test]
fn what_the_console_offers_depends_on_whether_the_guest_was_handed_over() {
    let handed_over = view_note(true);
    assert!(handed_over.contains("resized"), "{handed_over}");
    assert!(handed_over.contains("tester"), "{handed_over}");
    assert!(handed_over.contains("no password"), "{handed_over}");

    let not = view_note(false);
    assert!(not.contains("no enhanced session"), "{not}");
    assert!(not.contains("asks for nothing"), "{not}");
    assert!(!not.contains("leave that field empty"), "{not}");
    assert!(not.contains("cancel it"), "{not}");
    assert!(not.contains("build-image windows"), "{not}");
}

#[test]
fn only_a_settings_document_naming_our_vm_is_ours_to_delete() {
    let ours = vmconnect_settings("sunlit-e2e-windows", (1920, 1080));
    assert!(is_our_settings(
        "vmconnect.rdp.2333C8FA-26E0-41A5-9023-F95FFFCC1C53.config",
        &ours,
        "sunlit-e2e-windows"
    ));
    assert!(!is_our_settings(
        "vmconnect.rdp.2333C8FA-26E0-41A5-9023-F95FFFCC1C53.config",
        &ours,
        "sunlit-e2e-linux"
    ));
    let theirs = vmconnect_settings("dev-box", (1024, 768));
    assert!(!is_our_settings(
        "vmconnect.rdp.9E1B0A77-0000-0000-0000-000000000001.config",
        &theirs,
        "sunlit-e2e-windows"
    ));
    assert!(!looks_like_settings("vmconnect.config"));
    assert!(!is_our_settings("vmconnect.config", &ours, "sunlit-e2e-windows"));
    assert!(!is_our_settings(
        "vmconnect.rdp.2333C8FA-26E0-41A5-9023-F95FFFCC1C53.config",
        "<?xml version=\"1.0\"?>",
        "sunlit-e2e-windows"
    ));
}

#[test]
fn the_sweep_keeps_the_file_in_use_under_either_spelling_and_what_it_cannot_read() {
    let ours = vmconnect_settings("sunlit-e2e-windows", (1920, 1080));
    let name = "vmconnect.rdp.2333C8FA-0000-0000-0000-000000000001.config";
    assert!(should_forget(name, Some(&ours), "sunlit-e2e-windows", None));
    assert!(!should_forget(name, Some(&ours), "sunlit-e2e-windows", Some(name)));
    assert!(!should_forget(
        name,
        Some(&ours),
        "sunlit-e2e-windows",
        Some(&name.to_lowercase())
    ));
    assert!(!should_forget(name, None, "sunlit-e2e-windows", None));
    assert!(!should_forget("vmconnect.config", Some(&ours), "sunlit-e2e-windows", None));
}

#[test]
fn the_console_is_sized_in_the_create_script() {
    let script = create_script("sunlit-e2e-windows", "g.vhdx", "o.vhdx", (1920, 1080));
    assert!(
        script.contains(
            "Set-VMVideo -VMName 'sunlit-e2e-windows' -ResolutionType Single \
             -HorizontalResolution 1920 -VerticalResolution 1080"
        ),
        "{script}"
    );
    let video = script.find("Set-VMVideo").expect("the video line is there");
    let start = script.find("New-VM").expect("the VM is created");
    assert!(video > start, "{script}");
    assert!(!script.contains("-ResolutionType Maximum"), "{script}");
}

#[test]
fn the_console_grows_to_the_host_screen_and_no_further() {
    assert_eq!(console_resolution(None, Some((3440, 1400))), (1920, 1080));
    assert_eq!(console_resolution(None, Some((1920, 1040))), (1600, 900));
    assert_eq!(console_resolution(None, Some((1366, 728))), (1024, 768));
    assert_eq!(console_resolution(None, None), CONSOLE_MODES[0]);
    assert_eq!(console_resolution(Some((2560, 1440)), Some((1366, 728))), (2560, 1440));
}

#[test]
fn a_screen_too_small_for_any_mode_keeps_the_smallest() {
    assert_eq!(console_resolution(None, Some((800, 600))), (1024, 768));
    assert_eq!(console_resolution(None, Some((10, 10))), (1024, 768));
}

#[test]
fn hyperv_a_resolution_is_two_numbers_and_anything_else_is_not_one() {
    assert_eq!(parse_resolution("1920x1080"), Some((1920, 1080)));
    assert_eq!(parse_resolution(" 2560 X 1440 "), Some((2560, 1440)));
    for bad in [
        "",
        "1920",
        "1920x",
        "x1080",
        "1920*1080",
        "1920x1080x60",
        "huge",
        "320x240",
        "99999x1080",
    ] {
        assert_eq!(parse_resolution(bad), None, "{bad}");
    }
}

#[test]
fn the_work_area_query_and_its_parser_agree() {
    let script = work_area_script();
    assert!(script.contains(WORK_AREA_MARK), "{script}");
    assert_eq!(
        parse_work_area(&format!("noise\n{WORK_AREA_MARK}3440x1400\n")),
        Some((3440, 1400))
    );
    assert_eq!(parse_work_area("nothing here"), None);
    assert_eq!(parse_work_area(&format!("{WORK_AREA_MARK}wide")), None);
}

#[test]
fn every_script_names_a_vm_of_ours() {
    let name = Image::Windows.vm_name();
    for script in [
        create_script(&name, "g", "o", (1920, 1080)),
        state_script(&name),
        address_script(&name),
        destroy_script(&name),
    ] {
        assert!(script.contains("sunlit-e2e-windows"), "{script}");
    }
}

#[test]
fn a_name_with_an_apostrophe_cannot_break_out_of_the_script() {
    let script = destroy_script("sunlit-e2e-o'brien");
    assert!(script.contains("'sunlit-e2e-o''brien'"), "{script}");
}

#[test]
fn destroying_stops_first_and_removes_only_what_exists() {
    let script = destroy_script("sunlit-e2e-windows");
    assert!(script.contains("$_.Name -eq 'sunlit-e2e-windows'"), "{script}");
    assert!(script.contains("if ($vm)"), "{script}");
    assert!(script.contains("-TurnOff -Force"), "{script}");
    assert!(script.contains("Stop-VM -Name 'sunlit-e2e-windows'"), "{script}");
    assert!(script.contains("Remove-VM -Name 'sunlit-e2e-windows'"), "{script}");
}

#[test]
fn no_query_asks_for_a_vm_by_name_or_hides_an_error_behind_an_exit_code() {
    for script in [
        state_script("sunlit-e2e-windows"),
        address_script("sunlit-e2e-windows"),
        destroy_script("sunlit-e2e-windows"),
    ] {
        assert!(!script.contains("Get-VM -Name"), "a by-name lookup makes a missing VM an error: {script}");
        assert!(
            !script.contains("-ErrorAction SilentlyContinue"),
            "a suppressed error still decides the exit code: {script}"
        );
        assert!(script.contains(QUERY_OK), "a query has to say it ran: {script}");
    }
    assert!(!address_script("vm").contains("Get-VMNetworkAdapter -VMName"));
}

#[test]
fn a_query_that_did_not_run_is_told_from_one_that_found_nothing() {
    assert!(answered("QUERY=ok\n"));
    assert!(answered("STATE=Running\nQUERY=ok"));
    assert!(!answered(""));
    assert!(!answered("STATE=Running\n"));
    assert!(!answered("Get-VM : access denied\n"));
}

#[test]
fn the_scripts_interpolate_rather_than_format() {
    for script in [state_script("vm"), address_script("vm")] {
        assert!(!script.contains("\" -f "), "{script}");
    }
    assert!(state_script("vm").contains("$($vm.State)"));
}

#[test]
fn the_state_is_read_from_the_marker_line() {
    assert_eq!(parse_state("STATE=Running\n"), Some("Running".to_owned()));
    assert_eq!(parse_state("noise\nSTATE=Off"), Some("Off".to_owned()));
    assert_eq!(parse_state(""), None);
    assert_eq!(parse_state("Get-VM : not found"), None);
}

#[test]
fn addresses_are_read_from_the_marker_lines() {
    let out = "IP=fe80::1%5\nIP=192.168.1.20\nIP=\n";
    assert_eq!(parse_addresses(out), vec!["fe80::1%5".to_owned(), "192.168.1.20".to_owned()]);
    assert!(parse_addresses("").is_empty());
}

#[test]
fn only_a_real_ipv4_address_counts_as_reachable() {
    let boot = vec!["fe80::215:5dff:fe00:1%12".to_owned(), "169.254.10.2".to_owned()];
    assert_eq!(first_usable_ipv4(&boot), None);

    let ready = vec![
        "fe80::215:5dff:fe00:1%12".to_owned(),
        "169.254.10.2".to_owned(),
        "172.28.144.5".to_owned(),
    ];
    assert_eq!(first_usable_ipv4(&ready), Some("172.28.144.5".to_owned()));
    assert_eq!(first_usable_ipv4(&[]), None);
}
