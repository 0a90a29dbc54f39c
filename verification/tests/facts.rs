use xtask_vm::host::facts::resolve_tool;
use xtask_vm::host::facts::{existing_ancestor, 
    fallback_candidates, packer_iso_tool, parse_df_available_bytes, parse_os_release_pretty_name,
    parse_pairs, parse_wsl_list, windows_facts_from, windows_probe_script, FeatureState, LinuxFacts,
    RawWindowsFacts, WindowsFacts, FEATURE_HYPERV, FEATURE_WHPX, HYPERV_ADMINS_SID, PACKER_ISO_TOOLS,
    WSL_DISTRO,
};
use xtask_vm::provider::target::HostOs;

/// A probe document from a Windows 11 Pro host, as its fields.
fn probe() -> RawWindowsFacts {
    RawWindowsFacts {
        caption: "Microsoft Windows 11 Pro".to_owned(),
        version: "10.0.26200".to_owned(),
        sku: 48,
        hypervisor_present: true,
        virtualization_firmware_enabled: None,
        features: "Microsoft-Hyper-V-All=1;HypervisorPlatform=2".to_owned(),
        vmms_state: "Running".to_owned(),
        in_hyperv_admins: true,
        elevated: false,
        wsl_raw: "  NAME            STATE           VERSION\r\n* Ubuntu-22.04    Stopped         2\r\n  docker-desktop  Running         2\r\n".to_owned(),
        free_bytes: Some(274877906944),
        machine_path: "C:\\Windows\\system32;C:\\Program Files\\qemu\\".to_owned(),
    }
}

fn empty_probe() -> RawWindowsFacts {
    RawWindowsFacts {
        caption: String::new(),
        version: String::new(),
        sku: 0,
        hypervisor_present: false,
        virtualization_firmware_enabled: None,
        features: String::new(),
        vmms_state: String::new(),
        in_hyperv_admins: false,
        elevated: false,
        wsl_raw: String::new(),
        free_bytes: None,
        machine_path: String::new(),
    }
}

#[test]
fn the_probe_output_parses_into_facts() {
    let (facts, free) = windows_facts_from(&probe());
    assert_eq!(facts.caption, "Microsoft Windows 11 Pro");
    assert_eq!(facts.sku, 48);
    assert!(facts.hypervisor_present);
    assert_eq!(facts.virtualization_firmware_enabled, None);
    assert_eq!(facts.feature(FEATURE_HYPERV), FeatureState::Enabled);
    assert_eq!(facts.feature(FEATURE_WHPX), FeatureState::Disabled);
    assert_eq!(facts.vmms_state.as_deref(), Some("Running"));
    assert!(facts.in_hyperv_admins);
    assert!(!facts.elevated);
    assert_eq!(free, Some(274_877_906_944));
    assert_eq!(facts.distro(WSL_DISTRO).map(|d| d.version), Some(2));
}

#[test]
fn path_membership_ignores_case_and_a_trailing_separator() {
    let (facts, _) = windows_facts_from(&probe());
    assert!(facts.path_contains(r"C:\Program Files\qemu"));
    assert!(facts.path_contains(r"c:\program files\qemu\"));
    assert!(!facts.path_contains(r"C:\Program Files\packer"));
    assert!(!WindowsFacts::default().path_contains(r"C:\Program Files\qemu"));
}

#[test]
fn an_unasked_feature_reads_as_unknown_rather_than_absent() {
    let (facts, _) = windows_facts_from(&probe());
    assert_eq!(facts.feature("Containers"), FeatureState::Unknown);
}

#[test]
fn a_probe_missing_fields_still_parses_with_defaults() {
    let mut raw = empty_probe();
    raw.caption = "Windows".to_owned();
    let (facts, free) = windows_facts_from(&raw);
    assert_eq!(facts.caption, "Windows");
    assert!(!facts.hypervisor_present);
    assert_eq!(free, None);
    assert!(facts.wsl_distros.is_empty());
    assert_eq!(facts.vmms_state, None);
}

#[test]
fn a_feature_query_that_failed_is_unknown_rather_than_absent() {
    let mut raw = empty_probe();
    raw.features = "Microsoft-Hyper-V-All=4;HypervisorPlatform=1".to_owned();
    let (facts, _) = windows_facts_from(&raw);
    assert_eq!(facts.feature(FEATURE_HYPERV), FeatureState::Unknown);
    assert_eq!(FeatureState::Unknown.label(), "could not be determined");
    assert!(!FeatureState::Unknown.label().contains("edition"));
}

#[test]
fn feature_codes_map_to_states() {
    assert_eq!(FeatureState::from_code(1), FeatureState::Enabled);
    assert_eq!(FeatureState::from_code(2), FeatureState::Disabled);
    assert_eq!(FeatureState::from_code(3), FeatureState::Absent);
    assert_eq!(FeatureState::from_code(4), FeatureState::Unknown);
    assert_eq!(FeatureState::from_code(-1), FeatureState::Unknown);
}

#[test]
fn home_editions_are_recognized_by_sku_and_by_name() {
    let mut facts = WindowsFacts {
        sku: 48,
        caption: "Microsoft Windows 11 Pro".to_owned(),
        ..WindowsFacts::default()
    };
    assert!(facts.edition_supports_hyperv());

    facts.sku = 101;
    assert!(!facts.edition_supports_hyperv());

    facts.sku = 48;
    facts.caption = "Microsoft Windows 11 Home".to_owned();
    assert!(!facts.edition_supports_hyperv());
}

#[test]
fn pairs_survive_blanks_and_stray_separators() {
    assert_eq!(parse_pairs(""), Vec::new());
    assert_eq!(
        parse_pairs("a=1;;b=2;"),
        vec![("a".to_owned(), "1".to_owned()), ("b".to_owned(), "2".to_owned())]
    );
    assert_eq!(parse_pairs("novalue"), Vec::new());
}

#[test]
fn a_later_feature_entry_overrides_an_earlier_one() {
    let mut raw = empty_probe();
    raw.features = "HypervisorPlatform=1; HypervisorPlatform = 3 ;=2".to_owned();
    let (facts, _) = windows_facts_from(&raw);
    assert_eq!(facts.feature(FEATURE_WHPX), FeatureState::Absent);
    assert_eq!(facts.features.len(), 2);
}

#[test]
fn the_wsl_table_parses_and_drops_the_header_and_marker() {
    let distros = parse_wsl_list(
        "  NAME            STATE           VERSION\n\
         * Ubuntu-22.04    Running         2\n\
           legacy          Stopped         1\n",
    );
    assert_eq!(distros.len(), 2);
    assert_eq!(distros[0].name, "Ubuntu-22.04");
    assert_eq!(distros[0].state, "Running");
    assert_eq!(distros[0].version, 2);
    assert_eq!(distros[1].version, 1);
}

#[test]
fn a_utf16_wsl_table_still_parses() {
    let raw = "\u{0}N\u{0}A\u{0}M\u{0}E\u{0}\n\u{0}*\u{0} \u{0}U\u{0}b\u{0}u\u{0}n\u{0}t\u{0}u\u{0}-\u{0}2\u{0}2\u{0}.\u{0}0\u{0}4\u{0} \u{0} \u{0}R\u{0}u\u{0}n\u{0}n\u{0}i\u{0}n\u{0}g\u{0} \u{0} \u{0}2\u{0}\n";
    let distros = parse_wsl_list(raw);
    assert_eq!(distros.len(), 1);
    assert_eq!(distros[0].name, "Ubuntu-22.04");
}

#[test]
fn a_wsl_error_message_is_not_mistaken_for_a_distro() {
    let distros = parse_wsl_list(
        "Windows Subsystem for Linux has no installed distributions.\n\
         Error: 0x8004032d\n",
    );
    assert!(distros.is_empty(), "{distros:?}");
    assert!(parse_wsl_list("").is_empty());
}

#[test]
fn os_release_yields_the_pretty_name() {
    let text = "NAME=\"Ubuntu\"\nPRETTY_NAME=\"Ubuntu 22.04.4 LTS\"\nID=ubuntu\n";
    assert_eq!(parse_os_release_pretty_name(text).as_deref(), Some("Ubuntu 22.04.4 LTS"));
    assert_eq!(parse_os_release_pretty_name("ID=ubuntu"), None);
}

#[test]
fn df_output_is_read_from_the_available_column() {
    let text = "Filesystem     1024-blocks      Used Available Capacity Mounted on\n\
                /dev/sda1        263174212 100000000 149000000      41% /\n";
    assert_eq!(parse_df_available_bytes(text), Some(149_000_000 * 1024));
    assert_eq!(parse_df_available_bytes("header only\n"), None);
    assert_eq!(parse_df_available_bytes(""), None);
}

#[test]
fn a_df_figure_too_large_to_count_in_bytes_is_no_figure() {
    let text = "h\n/dev/x 1 2 18446744073709551615 3% /\n";
    assert_eq!(parse_df_available_bytes(text), None);
}

#[test]
fn kvm_group_membership_is_read_from_the_group_list() {
    let facts = LinuxFacts {
        groups: vec!["dev".to_owned(), "kvm".to_owned()],
        ..LinuxFacts::default()
    };
    assert!(facts.in_kvm_group());
    assert!(!LinuxFacts::default().in_kvm_group());
}

#[test]
fn packer_picks_the_first_of_its_own_order_that_is_present() {
    assert_eq!(packer_iso_tool(&["oscdimg", "xorriso"]), Some("xorriso"));
    assert_eq!(packer_iso_tool(&["mkisofs", "oscdimg"]), Some("mkisofs"));
    assert_eq!(packer_iso_tool(&["oscdimg"]), Some("oscdimg"));
    assert_eq!(packer_iso_tool(&[]), None);
    assert_eq!(packer_iso_tool(&["genisoimage"]), None);
}

#[test]
fn the_iso_tool_list_is_the_one_packer_looks_for() {
    assert_eq!(PACKER_ISO_TOOLS, ["xorriso", "mkisofs", "hdiutil", "oscdimg"]);
}

#[test]
fn windows_tool_fallbacks_cover_the_winget_qemu_install_location() {
    let candidates = fallback_candidates("qemu-system-x86_64", HostOs::Windows);
    assert!(
        candidates.iter().any(|p| p == r"C:\Program Files\qemu\qemu-system-x86_64.exe"),
        "{candidates:?}"
    );
    assert!(fallback_candidates("qemu-img", HostOs::Linux).is_empty());
    assert!(
        fallback_candidates("vmconnect", HostOs::Windows)
            .iter()
            .any(|p| p.ends_with("vmconnect.exe"))
    );
}

#[test]
fn the_probe_script_carries_the_store_path_and_the_group_sid() {
    let script = windows_probe_script(r"C:\vm");
    assert!(script.contains(r"'C:\vm'"));
    assert!(script.contains(HYPERV_ADMINS_SID));
    assert!(!script.contains("__STORE__"));
    for forbidden in ["Enable-Windows", "Set-", "New-Item", "Add-LocalGroupMember"] {
        assert!(!script.contains(forbidden), "probe must be read-only: {forbidden}");
    }
}

#[test]
fn a_tool_on_path_wins_and_otherwise_the_first_known_location_that_exists() {
    let nothing = |_: &String| false;
    let on_path = resolve_tool("qemu-img", HostOs::Windows, Some("D:\\q\\qemu-img.exe".to_owned()), &nothing);
    assert_eq!(on_path, Some("D:\\q\\qemu-img.exe".to_owned()));
    assert_eq!(resolve_tool("qemu-img", HostOs::Windows, None, &nothing), None);
    let winget = |p: &String| p.starts_with("C:\\Program Files\\qemu");
    let found = resolve_tool("qemu-img", HostOs::Windows, None, &winget).expect("a known location");
    assert!(found.ends_with("qemu-img.exe"), "{found}");
    let everything = |_: &String| true;
    assert_eq!(resolve_tool("qemu-img", HostOs::Linux, None, &everything), None);
}

#[test]
fn the_nearest_existing_directory_above_a_missing_store_is_found() {
    let is_dir = |p: &String| p == "/home/me" || p == "/home" || p == "/";
    assert_eq!(
        existing_ancestor("/home/me/.local/share/store", &is_dir),
        Some("/home/me".to_owned())
    );
    assert_eq!(existing_ancestor("/home/me", &is_dir), Some("/home/me".to_owned()));
    assert_eq!(existing_ancestor("relative/dir", &|_: &String| false), None);
    assert_eq!(existing_ancestor("/nowhere/at/all", &|p: &String| p == "/"), Some("/".to_owned()));
}

#[test]
fn the_walk_up_visits_every_parent_in_turn() {
    let asked = std::cell::RefCell::new(Vec::new());
    let is_dir = |p: &String| {
        asked.borrow_mut().push(p.clone());
        p == "/"
    };
    assert_eq!(existing_ancestor("/a/b/c", &is_dir), Some("/".to_owned()));
    assert_eq!(*asked.borrow(), ["/a/b/c", "/a/b", "/a", "/"]);
}
