use xtask_vm::provider::target::{Image, ProviderKind, Target};
use xtask_vm::state::{RunState, StartReason};

fn sample() -> RunState {
    let mut state = RunState::new(
        Target::Linux,
        ProviderKind::Qemu,
        "/srv/vm/run/linux/overlay.qcow2".to_owned(),
        StartReason::Keep,
        1_755_600_000,
    );
    state.ssh_host = "127.0.0.1".to_owned();
    state.ssh_port = 2222;
    state.ssh_user = "tester".to_owned();
    state.vnc = Some("127.0.0.1:5900".to_owned());
    state.qmp_port = Some(4444);
    state.pid = Some(1234);
    state
}

#[test]
fn a_state_file_naming_a_foreign_vm_is_not_ours() {
    let mut state = sample();
    state.vm_name = "production-db".to_owned();
    assert!(!state.is_ours());

    let mut other = sample();
    other.target = "solaris".to_owned();
    assert!(!other.is_ours());
    assert!(sample().is_ours());
    assert_eq!(sample().provider_kind(), Some(ProviderKind::Qemu));
}

#[test]
fn every_record_a_boot_writes_is_one_the_teardowns_recognise() {
    for image in Image::all() {
        for provider in [ProviderKind::Qemu, ProviderKind::HyperV] {
            let state = RunState::for_image(image, provider, "overlay".to_owned(), StartReason::Up, 0);
            assert!(state.is_ours(), "{}", image.slug());
            assert_eq!(state.image(), Some(image));
            assert_eq!(state.provider_kind(), Some(provider));
        }
    }
}
