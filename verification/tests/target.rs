use xtask_vm::provider::target::{provider_for, resolve_provider, HostOs, Image, ProviderKind, Target, VM_NAME_PREFIX};

#[test]
fn vm_names_carry_the_ownership_prefix() {
    assert_eq!(Image::Windows.vm_name(), "sunlit-e2e-windows");
    assert_eq!(Image::Linux.vm_name(), "sunlit-e2e-linux");
    assert_eq!(Image::WindowsBuilder.vm_name(), "sunlit-e2e-windows-builder");
    for image in Image::all() {
        assert!(image.vm_name().starts_with(VM_NAME_PREFIX));
    }
}

#[test]
fn only_the_windows_installation_has_an_evaluation_clock() {
    assert!(Image::Windows.has_eval_expiry());
    assert!(Image::WindowsBuilder.has_eval_expiry());
    assert!(!Image::Linux.has_eval_expiry());
    assert!(!Image::LinuxBuilder.has_eval_expiry());
}

#[test]
fn every_image_has_a_slug_a_name_and_a_label_of_its_own() {
    let all = Image::all();
    for (index, image) in all.iter().copied().enumerate() {
        assert_eq!(Image::parse(image.slug()), Some(image));
        for other in &all[index + 1..] {
            assert_ne!(image.slug(), other.slug());
            assert_ne!(image.vm_name(), other.vm_name());
            assert_ne!(image.label(), other.label());
        }
    }
    assert_eq!(Image::parse("Windows"), None, "records store the slug");
    assert_eq!(Image::parse(""), None);
    assert_eq!(Image::parse("macos"), None);
}

#[test]
fn the_desktop_images_keep_the_slugs_the_store_was_built_with() {
    assert_eq!(Image::Windows.slug(), Target::Windows.slug());
    assert_eq!(Image::Linux.slug(), Target::Linux.slug());
}

#[test]
fn a_builder_is_the_same_operating_system_as_the_guest_it_builds_for() {
    for target in Target::all() {
        assert_eq!(Image::builder(target).target(), target);
        assert_eq!(Image::desktop(target).target(), target);
        assert_ne!(Image::builder(target), Image::desktop(target));
        assert!(Image::builder(target).is_builder());
        assert!(!Image::desktop(target).is_builder());
    }
    for image in Image::all() {
        assert_eq!(image.is_builder(), image == Image::builder(image.target()));
    }
}

#[test]
fn only_the_linux_builder_has_no_session_and_both_builders_are_builders() {
    assert!(Image::WindowsBuilder.has_desktop());
    assert!(Image::WindowsBuilder.is_builder());
    assert!(!Image::LinuxBuilder.has_desktop());
    for image in Image::all() {
        assert_eq!(image.has_desktop(), image != Image::LinuxBuilder, "{}", image.slug());
    }
}

#[test]
fn only_the_windows_builder_is_a_layer_and_it_names_its_parent() {
    assert_eq!(Image::WindowsBuilder.parent(), Some(Image::Windows));
    assert!(Image::WindowsBuilder.is_layer());
    assert_eq!(Image::Windows.children(), vec![Image::WindowsBuilder]);
    for image in [Image::Windows, Image::Linux, Image::LinuxBuilder] {
        assert_eq!(image.parent(), None, "{}", image.slug());
        assert!(!image.is_layer(), "{}", image.slug());
    }
    assert!(Image::Linux.children().is_empty());
    assert_eq!(Image::WindowsBuilder.disk_stem(), "layer");
    assert_eq!(Image::Windows.disk_stem(), "golden");
    for image in Image::all() {
        assert_ne!(image.parent(), Some(image), "{}", image.slug());
    }
}

#[test]
fn the_provider_matrix_matches_the_retrospective() {
    assert_eq!(provider_for(HostOs::Windows, Target::Windows), Some(ProviderKind::HyperV));
    assert_eq!(provider_for(HostOs::Windows, Target::Linux), Some(ProviderKind::Qemu));
    assert_eq!(provider_for(HostOs::Linux, Target::Windows), Some(ProviderKind::Qemu));
    assert_eq!(provider_for(HostOs::Linux, Target::Linux), Some(ProviderKind::Qemu));
    assert_eq!(provider_for(HostOs::Other, Target::Linux), None);
}

#[test]
fn only_the_image_with_no_session_offers_a_console() {
    assert_eq!(Image::Linux.console_label(), "desktop");
    assert_eq!(Image::Windows.console_label(), "desktop");
    assert_eq!(Image::WindowsBuilder.console_label(), "desktop");
    assert_eq!(Image::LinuxBuilder.console_label(), "console");
    for image in Image::all() {
        assert_eq!(image.console_label().len(), 7, "{}", image.slug());
    }
}

#[test]
fn an_unsupported_host_explains_itself_rather_than_defaulting() {
    let err = resolve_provider(HostOs::Other, Target::Windows, None).unwrap_err();
    assert!(err.contains("hosted CI runners"), "{err}");
}

#[test]
fn the_provider_override_wins_and_rejects_nonsense() {
    assert_eq!(
        resolve_provider(HostOs::Windows, Target::Windows, Some("qemu")),
        Ok(ProviderKind::Qemu)
    );
    assert_eq!(
        resolve_provider(HostOs::Linux, Target::Windows, Some("Hyper-V")),
        Ok(ProviderKind::HyperV)
    );
    let err = resolve_provider(HostOs::Windows, Target::Windows, Some("virtualbox")).unwrap_err();
    assert!(err.contains("hyperv, qemu"), "{err}");
}
