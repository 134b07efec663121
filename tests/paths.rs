use firefox_native_manifests::{join_path, parent_path, target_path, ManifestType, Platform};

#[test]
fn join_relative_and_absolute() {
    assert_eq!(join_path("/var/x", "host"), "/var/x/host");
    assert_eq!(join_path("/var/x/", "host"), "/var/x/host");
    assert_eq!(join_path("", "host"), "host");
    assert_eq!(join_path("/var/x", "/usr/bin/host"), "/usr/bin/host");
    assert_eq!(join_path("/var/x", ""), "/var/x/");
}

#[test]
fn parent_of_canonical_paths() {
    assert_eq!(parent_path("/var/x/native.json"), "/var/x");
    assert_eq!(parent_path("/native.json"), "/");
    assert_eq!(parent_path("native.json"), "");
}

#[test]
fn host_resolves_from_directory_module_from_file() {
    let file = "/var/x/native.json";
    let host = target_path(Platform::Unix, ManifestType::NativeMessagingHosts, file, "./host");
    let module = target_path(Platform::Unix, ManifestType::Pkcs11Modules, file, "./host");
    assert_eq!(host.as_deref(), Some("/var/x/./host"));
    assert_eq!(module.as_deref(), Some("/var/x/native.json/./host"));
    assert_ne!(host, module);
}

#[test]
fn absolute_target_is_kept() {
    let file = "/var/x/native.json";
    for ty in [ManifestType::NativeMessagingHosts, ManifestType::Pkcs11Modules] {
        let r = target_path(Platform::MacOs, ty, file, "/opt/host");
        assert_eq!(r.as_deref(), Some("/opt/host"));
    }
}

#[test]
fn nothing_resolved_on_windows_or_for_storage() {
    let file = "/var/x/native.json";
    assert_eq!(target_path(Platform::Windows, ManifestType::NativeMessagingHosts, file, "h"), None);
    assert_eq!(target_path(Platform::Windows, ManifestType::Pkcs11Modules, file, "h"), None);
    assert_eq!(target_path(Platform::Unix, ManifestType::ManagedStorage, file, "h"), None);
}
