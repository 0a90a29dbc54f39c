use std::path::Path;

use xtask_vm::provider::firmware::{candidates, find, locate, missing_message, searched, Firmware, LINUX_DIRS, NAMES};
use xtask_vm::provider::target::HostOs;

#[test]
fn the_search_starts_beside_the_qemu_binary() {
    // The caller hands over the directory the binary is in.
    let candidates = candidates(HostOs::Windows, Some(r"C:\Program Files\qemu"));
    let share = r"C:\Program Files\qemu\share";
    assert!(
        candidates
            .iter()
            .take(NAMES.len())
            .all(|(code, _)| code.starts_with(&format!("{share}\\"))
                && !code[share.len() + 1..].contains('\\')),
        "{candidates:?}"
    );
    assert!(
        candidates.iter().any(|(code, vars)| *code == format!(r"{share}\edk2-x86_64-code.fd")
            && *vars == format!(r"{share}\edk2-i386-vars.fd")),
        "{candidates:?}"
    );
}

#[test]
fn a_linux_host_also_looks_in_the_distribution_locations() {
    let candidates = candidates(HostOs::Linux, None);
    assert!(
        candidates.iter().any(|(code, _)| code == "/usr/share/OVMF/OVMF_CODE.fd"),
        "{candidates:?}"
    );
}

#[test]
fn the_debian_four_megabyte_pair_is_a_candidate() {
    let candidates = candidates(HostOs::Linux, None);
    assert!(
        candidates.contains(&(
            "/usr/share/OVMF/OVMF_CODE_4M.fd".to_owned(),
            "/usr/share/OVMF/OVMF_VARS_4M.fd".to_owned(),
        )),
        "{candidates:?}"
    );
}

#[test]
fn every_candidate_pairs_the_two_halves_of_one_build() {
    for (code, vars) in candidates(HostOs::Linux, None) {
        let file = |p: &str| Path::new(p).file_name().unwrap().to_string_lossy().into_owned();
        assert!(
            NAMES.iter().any(|(c, v)| *c == file(&code) && *v == file(&vars)),
            "{code:?} paired with {vars:?}"
        );
        assert_eq!(Path::new(&code).parent(), Path::new(&vars).parent());
    }
}

#[test]
fn a_windows_host_does_not_look_in_linux_locations() {
    let candidates = candidates(HostOs::Windows, None);
    assert!(candidates.is_empty());
}

#[test]
fn both_halves_have_to_be_there() {
    let candidates = vec![
        ("/a/code.fd".to_owned(), "/a/vars.fd".to_owned()),
        ("/b/code.fd".to_owned(), "/b/vars.fd".to_owned()),
    ];
    let exists = |p: &String| p != "/a/vars.fd";
    assert_eq!(
        find(&candidates, &exists),
        Some(Firmware {
            code: "/b/code.fd".to_owned(),
            vars: "/b/vars.fd".to_owned(),
        })
    );
    assert_eq!(find(&candidates, &|_: &String| false), None);
}

#[test]
fn the_missing_message_says_where_it_comes_from_on_this_host() {
    assert!(missing_message(HostOs::Windows).contains("ships with QEMU"));
    assert!(missing_message(HostOs::Linux).contains("ovmf"));
}

#[test]
fn what_was_searched_names_every_directory_and_every_name() {
    let searched = searched(HostOs::Linux, None);
    for dir in LINUX_DIRS {
        assert!(searched.contains(dir), "{searched}");
    }
    for (code, _) in NAMES {
        assert!(searched.contains(code), "{searched}");
    }
}

#[test]
fn the_binarys_own_directory_comes_before_the_distribution_ones() {
    let candidates = candidates(HostOs::Linux, Some("/opt/qemu/bin"));
    assert_eq!(candidates.len(), (2 + LINUX_DIRS.len()) * NAMES.len());
    assert_eq!(candidates[0].0, "/opt/qemu/bin/share/OVMF_CODE_4M.fd");
    assert_eq!(candidates[4].1, "/opt/qemu/bin/OVMF_VARS_4M.fd");
    assert_eq!(
        searched(HostOs::Linux, Some("/opt/qemu/bin")),
        "OVMF_CODE_4M.fd, OVMF_CODE.4m.fd, OVMF_CODE.fd, edk2-x86_64-code.fd, each beside its \
         matching variables half, in /opt/qemu/bin/share, /opt/qemu/bin, /usr/share/OVMF, \
         /usr/share/edk2/ovmf, /usr/share/edk2/x64, /usr/share/edk2-ovmf/x64, /usr/share/qemu"
    );
}

#[test]
fn locating_takes_the_first_complete_pair_on_the_host() {
    let present = |p: &String| p.starts_with("/usr/share/edk2/ovmf/") && p.contains("4m");
    assert_eq!(
        locate(HostOs::Linux, None, &present),
        Some(Firmware {
            code: "/usr/share/edk2/ovmf/OVMF_CODE.4m.fd".to_owned(),
            vars: "/usr/share/edk2/ovmf/OVMF_VARS.4m.fd".to_owned(),
        })
    );
    assert_eq!(locate(HostOs::Windows, None, &|_: &String| true), None);
    assert_eq!(
        locate(HostOs::Windows, Some("C:\\qemu"), &|_: &String| true),
        Some(Firmware {
            code: "C:\\qemu\\share\\OVMF_CODE_4M.fd".to_owned(),
            vars: "C:\\qemu\\share\\OVMF_VARS_4M.fd".to_owned(),
        })
    );
}
