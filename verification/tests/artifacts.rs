use xtask_vm::guest::artifacts::{stage_plan, HostArtifacts as Built};
use xtask_vm::guest::artifacts::{
    build_args, builder_for, guest_build_job, guest_leaf, guest_paths, select, shell_quote,
    textures_verdict, usable_builder, worktree_archive_script, wsl_arg, wsl_build_command,
    wslpath_command, Builder, ImageCondition, CARGO_JSON,
};
use xtask_vm::guest::cargo_json::Artifact;
use xtask_vm::host::facts::WSL_DISTRO;
use xtask_vm::provider::target::{HostOs, Image, Target};
use xtask_vm::runner::Cmd;

#[test]
fn the_guest_build_shows_its_progress_while_its_json_is_captured() {
    let native = Cmd::new("cargo").args(build_args()).show_stderr();
    assert!(native.inherit_stderr);
    assert!(wsl_build_command(WSL_DISTRO, "/mnt/c/x").show_stderr().inherit_stderr);
    assert!(
        build_args().contains(&"--message-format=json".to_owned()),
        "{:?}",
        build_args()
    );
}

#[test]
fn every_host_and_target_pair_names_what_compiles_it() {
    assert_eq!(builder_for(HostOs::Linux, Target::Linux), Ok(Builder::Native));
    assert_eq!(builder_for(HostOs::Windows, Target::Windows), Ok(Builder::Native));
    assert_eq!(builder_for(HostOs::Windows, Target::Linux), Ok(Builder::Wsl));
    assert_eq!(
        builder_for(HostOs::Linux, Target::Windows),
        Ok(Builder::Guest(Image::WindowsBuilder))
    );
    assert!(builder_for(HostOs::Other, Target::Linux).is_err());
}

#[test]
fn a_builder_guest_that_has_not_been_built_is_named_along_with_the_command() {
    // Nothing is known about the image: the store has never seen it.
    let err = usable_builder(HostOs::Linux, Target::Windows, None).unwrap_err();
    assert!(err.contains("windows-builder"), "{err}");
    assert!(err.contains("cargo xtask vm build-image windows-builder"), "{err}");
    assert_eq!(usable_builder(HostOs::Linux, Target::Linux, None), Ok(Builder::Native));
    assert_eq!(usable_builder(HostOs::Windows, Target::Linux, None), Ok(Builder::Wsl));
}

#[test]
fn a_builder_image_that_can_boot_is_used_and_one_that_cannot_is_described() {
    let ready = ImageCondition { label: "ready".to_owned(), detail: String::new(), blocks_boot: false };
    assert_eq!(
        usable_builder(HostOs::Linux, Target::Windows, Some(&ready)),
        Ok(Builder::Guest(Image::WindowsBuilder))
    );
    let expired = ImageCondition {
        label: "expired".to_owned(),
        detail: "the evaluation period is over".to_owned(),
        blocks_boot: true,
    };
    assert_eq!(
        usable_builder(HostOs::Linux, Target::Windows, Some(&expired)),
        Err("the windows guest's binaries are built in the windows-builder guest on a linux host, \
             and that image is expired: the evaluation period is over. \
             `cargo xtask vm build-image windows-builder` makes it"
            .to_owned())
    );
}

#[test]
fn the_builder_guest_is_sent_the_working_tree_and_not_head() {
    let script = worktree_archive_script("/srv/vm/run/windows-builder/src.tar");
    assert!(script.contains("git ls-files"), "{script}");
    assert!(script.contains("--others --exclude-standard"), "{script}");
    assert!(!script.contains("HEAD"), "{script}");
    assert!(script.contains("'s,^,src/,'"), "{script}");
    assert!(script.contains("':!textures'"), "{script}");
}

#[test]
fn a_guest_path_is_split_on_the_guests_own_separator() {
    assert_eq!(
        guest_leaf(r"C:\sunlit-e2e\cargo-target\debug\sunlit-earth.exe"),
        "sunlit-earth.exe"
    );
    assert_eq!(
        guest_leaf(r"C:\sunlit-e2e\cargo-target\debug\deps\e2e-9f1c2b3a4d5e6f70.exe"),
        "e2e-9f1c2b3a4d5e6f70.exe"
    );
    assert_eq!(guest_leaf("/home/tester/sunlit-target/debug/e2e-1a2b"), "e2e-1a2b");
    assert_eq!(guest_leaf("bare.exe"), "bare.exe");
}

#[test]
fn the_guest_build_job_keeps_cargos_json_where_the_results_come_from() {
    let job = guest_build_job("1.94.0");
    for arg in build_args() {
        assert!(job.contains(&arg), "{arg} missing from {job}");
    }
    assert!(job.contains(&format!("%SUNLIT_E2E_ARTIFACTS%\\{CARGO_JSON}")), "{job}");
    assert!(job.contains("toolchain install 1.94.0"), "{job}");
    assert!(job.contains("+1.94.0"), "{job}");
    assert!(job.contains("\r\n"), "{job}");
    assert!(!job.contains("--release"), "{job}");
    assert!(job.contains("tar.exe -xf "), "{job}");
    assert!(!job.contains("-xmf"), "{job}");
}

#[test]
fn the_build_never_runs_the_tests_and_pins_the_lockfile() {
    let args = build_args();
    assert!(args.contains(&"--no-run".to_owned()), "{args:?}");
    assert!(args.contains(&"--locked".to_owned()), "{args:?}");
    assert!(args.contains(&"--message-format=json".to_owned()), "{args:?}");
    assert!(args.contains(&"e2e".to_owned()), "{args:?}");
}

#[test]
fn the_wsl_build_keeps_its_target_directory_out_of_the_windows_one() {
    let cmd = wsl_build_command("Ubuntu-22.04", "/mnt/c/work/sunlit-earth");
    let script = cmd.args.last().expect("the script");
    assert!(script.contains("CARGO_TARGET_DIR=$HOME/sunlit-target"), "{script}");
    assert!(script.contains("cd '/mnt/c/work/sunlit-earth'"), "{script}");
    assert!(script.contains("--no-run"), "{script}");
    assert!(cmd.args.contains(&"Ubuntu-22.04".to_owned()));
}

#[test]
fn shell_quoting_survives_an_apostrophe_in_a_path() {
    assert_eq!(shell_quote("/mnt/c/Users/o'brien"), r"'/mnt/c/Users/o'\''brien'");
    assert_eq!(shell_quote("/plain"), "'/plain'");
}

#[test]
fn wslpath_is_asked_rather_than_the_translation_guessed() {
    let cmd = wslpath_command("Ubuntu-22.04", "-u", r"C:\work");
    assert_eq!(cmd.program, "wsl.exe");
    assert!(cmd.args.contains(&"wslpath".to_owned()));
}

#[test]
fn a_windows_path_reaches_wsl_with_its_separators_intact() {
    assert_eq!(wsl_arg(r"C:\Workspace\rustrover"), "C:/Workspace/rustrover");
    assert_eq!(wsl_arg("/already/unix"), "/already/unix");
    assert_eq!(
        wslpath_command("Ubuntu-22.04", "-u", r"C:\work\sunlit").args.last().map(String::as_str),
        Some("C:/work/sunlit")
    );
}

fn artifact(name: &str, kind: &str, executable: &str, is_test: bool) -> Artifact {
    Artifact {
        name: name.to_owned(),
        kinds: vec![kind.to_owned()],
        executable: executable.to_owned(),
        is_test,
    }
}

#[test]
fn selecting_needs_both_the_app_and_the_harness() {
    let artifacts = vec![
        artifact("sunlit-earth", "bin", "/t/sunlit-earth", false),
        artifact("e2e", "test", "/t/deps/e2e-1", true),
    ];
    let (app, harness) = select(&artifacts).expect("both");
    assert_eq!(app, "/t/sunlit-earth");
    assert_eq!(harness, "/t/deps/e2e-1");

    let only_app = &artifacts[..1];
    assert!(select(only_app).unwrap_err().contains("e2e test harness"));
    assert_eq!(select(&[]).unwrap_err(), "cargo built no sunlit-earth binary");
}

#[test]
fn guest_paths_follow_each_operating_systems_separator() {
    let linux = guest_paths(Target::Linux, "sunlit-earth", "e2e-1a2b", true);
    assert_eq!(linux.app, "/var/lib/sunlit-e2e/bin/sunlit-earth");
    assert_eq!(linux.harness, "/var/lib/sunlit-e2e/bin/e2e-1a2b");
    assert_eq!(linux.fixtures, "/var/lib/sunlit-e2e/fixtures");
    assert_eq!(linux.textures.as_deref(), Some("/var/lib/sunlit-e2e/textures"));

    let windows = guest_paths(Target::Windows, "sunlit-earth.exe", "e2e-1a2b.exe", true);
    assert_eq!(windows.app, r"C:\sunlit-e2e\bin\sunlit-earth.exe");
    assert_eq!(windows.harness, r"C:\sunlit-e2e\bin\e2e-1a2b.exe");
    assert_eq!(windows.fixtures, r"C:\sunlit-e2e\fixtures");
    assert_eq!(windows.textures.as_deref(), Some(r"C:\sunlit-e2e\textures"));

    for target in Target::all() {
        assert_eq!(guest_paths(target, "a", "h", false).textures, None);
    }
}

#[test]
fn a_git_lfs_pointer_is_not_mistaken_for_a_texture() {
    let real = [Some(2_574_413), Some(1_382_310), Some(285_458), Some(9_874_855)];
    assert_eq!(textures_verdict(real), Ok(()));

    let mut pointer = real;
    pointer[0] = Some(130);
    let err = textures_verdict(pointer).unwrap_err();
    assert!(err.contains("world.topo.200405.jxl"), "{err}");
    assert!(err.contains("git lfs pull"), "{err}");

    let mut absent = real;
    absent[1] = None;
    let err = textures_verdict(absent).unwrap_err();
    assert!(err.contains("BlackMarble_2016.jxl"), "{err}");
    assert!(!err.contains("pointer"), "{err}");

    let mut moon = real;
    moon[2] = Some(130);
    let err = textures_verdict(moon).unwrap_err();
    assert!(err.contains("lroc_color_poles_1k.jxl"), "{err}");
    assert!(err.contains("git lfs pull"), "{err}");

    let mut panorama = real;
    panorama[3] = Some(130);
    let err = textures_verdict(panorama).unwrap_err();
    assert!(err.contains("milkyway_2020_4k.jxl"), "{err}");
    assert!(err.contains("git lfs pull"), "{err}");
}

#[test]
fn a_texture_exactly_at_the_floor_is_accepted_and_one_byte_under_is_not() {
    let mut sizes = [Some(65_536), Some(65_536), Some(65_536), Some(65_536)];
    assert_eq!(textures_verdict(sizes), Ok(()));
    sizes[3] = Some(65_535);
    assert_eq!(
        textures_verdict(sizes),
        Err("milkyway_2020_4k.jxl is 65535 bytes, which is a Git LFS pointer rather than the \
             asset; `git lfs pull` fetches it"
            .to_owned())
    );
}

#[test]
fn staging_copies_the_build_where_the_guest_looks_for_it() {
    let built = Built {
        app: "/home/dev/t/release/sunlit-earth".to_owned(),
        harness: "/home/dev/t/release/deps/e2e-9f3c".to_owned(),
        fixtures: "/home/dev/repo/fixtures".to_owned(),
        textures: Some("/home/dev/repo/textures".to_owned()),
    };
    let plan = stage_plan(Target::Linux, &built);
    assert_eq!(
        plan.copies,
        vec![
            (built.app.clone(), "/var/lib/sunlit-e2e/bin".to_owned()),
            (built.harness.clone(), "/var/lib/sunlit-e2e/bin".to_owned()),
            (built.fixtures.clone(), "/var/lib/sunlit-e2e/".to_owned()),
            ("/home/dev/repo/textures".to_owned(), "/var/lib/sunlit-e2e/".to_owned()),
        ]
    );
    assert_eq!(plan.paths.app, "/var/lib/sunlit-e2e/bin/sunlit-earth");
    assert_eq!(
        plan.chmod.as_deref(),
        Some("chmod +x /var/lib/sunlit-e2e/bin/sunlit-earth /var/lib/sunlit-e2e/bin/e2e-9f3c")
    );

    let windows = stage_plan(
        Target::Windows,
        &Built { textures: None, ..built.clone() },
    );
    assert_eq!(windows.copies.len(), 3);
    assert_eq!(windows.paths.app, "C:\\sunlit-e2e\\bin\\sunlit-earth");
    assert_eq!(windows.chmod, None);
    assert_eq!(windows.paths.textures, None);
}
