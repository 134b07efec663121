use firefox_native_manifests::{
    base_dir, path_name, publication, register_managed_storage, register_native_messaging,
    register_pkcs11_modules, Error, ManagedStorageManifest, ManagedStorageType, ManifestType,
    NativeMessagingManifest, NativeMessagingType, Pkcs11Manifest, Pkcs11Type, Platform,
    Publication, RootKey, Visibility,
};

fn host(name: &str, path: &str) -> NativeMessagingManifest {
    NativeMessagingManifest {
        name: name.to_string(),
        description: "d".to_string(),
        path: path.to_string(),
        ty: NativeMessagingType::Stdio,
        allowed_extensions: vec!["ext@id".to_string()],
    }
}

fn module(name: &str, path: &str) -> Pkcs11Manifest {
    Pkcs11Manifest {
        name: name.to_string(),
        description: "d".to_string(),
        path: path.to_string(),
        ty: Pkcs11Type::Pkcs11,
        allowed_extensions: vec!["ext@id".to_string()],
    }
}

fn storage(name: &str) -> ManagedStorageManifest<u32> {
    ManagedStorageManifest {
        name: name.to_string(),
        description: "d".to_string(),
        ty: ManagedStorageType::Storage,
        data: 7,
    }
}

fn file_of<M>(r: &Result<Publication<M>, Error>) -> String {
    match r {
        Ok(Publication::File { file, .. }) => file.clone(),
        other => panic!("not a file publication: {:?}", other.as_ref().err()),
    }
}

fn home() -> Option<String> {
    home::home_dir().and_then(|p| p.into_os_string().into_string().ok())
}

#[test]
fn folder_names_per_platform() {
    assert_eq!(path_name(Platform::Unix, ManifestType::NativeMessagingHosts), "native-messaging-hosts");
    assert_eq!(path_name(Platform::Unix, ManifestType::ManagedStorage), "managed-storage");
    assert_eq!(path_name(Platform::Unix, ManifestType::Pkcs11Modules), "pkcs11-modules");
    assert_eq!(path_name(Platform::MacOs, ManifestType::NativeMessagingHosts), "NativeMessagingHosts");
    assert_eq!(path_name(Platform::MacOs, ManifestType::ManagedStorage), "ManagedStorage");
    assert_eq!(path_name(Platform::Windows, ManifestType::Pkcs11Modules), "PKCS11Modules");
}

#[test]
fn base_dirs() {
    assert_eq!(base_dir(Platform::Unix, Visibility::Global, "/home/u"), "/usr/lib/mozilla");
    assert_eq!(base_dir(Platform::Unix, Visibility::PerUser, "/home/u"), "/home/u/.mozilla");
    assert_eq!(
        base_dir(Platform::MacOs, Visibility::Global, "/Users/u"),
        "/Library/Application Support/Mozilla"
    );
    assert_eq!(
        base_dir(Platform::MacOs, Visibility::PerUser, "/Users/u"),
        "/Users/u/Library/Application Support/Mozilla"
    );
}

#[test]
fn file_publication_for_one_user() {
    let r = publication(
        Platform::Unix,
        Visibility::PerUser,
        ManifestType::NativeMessagingHosts,
        host("com.example.host", "/var/m/host_bin"),
        "/var/m/native.json",
        Some("/home/u".to_string()),
    );
    match r {
        Ok(Publication::File { dir, file, manifest }) => {
            assert_eq!(dir, "/home/u/.mozilla/native-messaging-hosts");
            assert_eq!(file, "/home/u/.mozilla/native-messaging-hosts/com.example.host.json");
            assert_eq!(manifest.path, "/var/m/host_bin");
        }
        other => panic!("{other:?}"),
    }
}

#[test]
fn file_publication_machine_wide_on_macos() {
    let r = publication(
        Platform::MacOs,
        Visibility::Global,
        ManifestType::Pkcs11Modules,
        module("my.module", "/opt/m.so"),
        "/var/m/native.json",
        None,
    );
    assert_eq!(file_of(&r), "/Library/Application Support/Mozilla/PKCS11Modules/my.module.json");
}

#[test]
fn registry_publication() {
    let r = publication(
        Platform::Windows,
        Visibility::PerUser,
        ManifestType::ManagedStorage,
        storage("ext.id"),
        "C:\\m\\native.json",
        None,
    );
    match r {
        Ok(Publication::Registry { root, subkey, value }) => {
            assert_eq!(root, RootKey::CurrentUser);
            assert_eq!(subkey, "SOFTWARE\\Mozilla\\ManagedStorage\\ext.id");
            assert_eq!(value, "C:\\m\\native.json");
        }
        other => panic!("{other:?}"),
    }
    let g = register_native_messaging(
        Platform::Windows,
        Visibility::Global,
        host("com.example.host", "host.exe"),
        "C:\\m\\native.json",
        None,
    );
    match g {
        Ok(Publication::Registry { root, subkey, value }) => {
            assert_eq!(root, RootKey::LocalMachine);
            assert_eq!(subkey, "SOFTWARE\\Mozilla\\NativeMessagingHosts\\com.example.host");
            assert_eq!(value, "C:\\m\\native.json");
        }
        other => panic!("{other:?}"),
    }
}

#[test]
fn unknown_home_for_one_user() {
    let r = publication(
        Platform::Unix,
        Visibility::PerUser,
        ManifestType::ManagedStorage,
        storage("ext.id"),
        "/var/m/native.json",
        None,
    );
    assert!(matches!(r, Err(Error::UnknownHome)));
}

#[test]
fn registering_twice_lands_on_the_same_file() {
    let first = register_pkcs11_modules(
        Platform::Unix,
        Visibility::Global,
        module("my.module", "a.so"),
        "/var/m/native.json",
        Some("/opt/a.so".to_string()),
    );
    let second = register_pkcs11_modules(
        Platform::Unix,
        Visibility::Global,
        module("my.module", "b.so"),
        "/var/other/native.json",
        Some("/opt/b.so".to_string()),
    );
    assert_eq!(file_of(&first), "/usr/lib/mozilla/pkcs11-modules/my.module.json");
    assert_eq!(file_of(&first), file_of(&second));
}

#[test]
fn global_and_per_user_do_not_collide() {
    let name = "com.example.host";
    let global = publication(
        Platform::MacOs,
        Visibility::Global,
        ManifestType::NativeMessagingHosts,
        host(name, "/h"),
        "/var/m/native.json",
        None,
    );
    let user = publication(
        Platform::MacOs,
        Visibility::PerUser,
        ManifestType::NativeMessagingHosts,
        host(name, "/h"),
        "/var/m/native.json",
        Some("/Users/u".to_string()),
    );
    assert_ne!(file_of(&global), file_of(&user));
    let wg = publication(
        Platform::Windows,
        Visibility::Global,
        ManifestType::NativeMessagingHosts,
        host(name, "/h"),
        "C:\\m.json",
        None,
    );
    let wu = publication(
        Platform::Windows,
        Visibility::PerUser,
        ManifestType::NativeMessagingHosts,
        host(name, "/h"),
        "C:\\m.json",
        None,
    );
    match (wg, wu) {
        (
            Ok(Publication::Registry { root: a, subkey: ka, .. }),
            Ok(Publication::Registry { root: b, subkey: kb, .. }),
        ) => {
            assert_eq!(ka, kb);
            assert_ne!(a, b);
        }
        _ => panic!("expected registry publications"),
    }
}

#[test]
fn invalid_name_is_rejected_first() {
    for platform in [Platform::Unix, Platform::MacOs, Platform::Windows] {
        let r = register_native_messaging(
            platform,
            Visibility::PerUser,
            host("a..b", "./host"),
            "/var/m/native.json",
            None,
        );
        assert!(matches!(r, Err(Error::InvalidName)));
        let r = register_pkcs11_modules(
            platform,
            Visibility::Global,
            module("a/b", "./m.so"),
            "/var/m/native.json",
            Some("/var/m.so".to_string()),
        );
        assert!(matches!(r, Err(Error::InvalidName)));
        let r = register_managed_storage(platform, Visibility::Global, storage(".x"), "/var/m.json");
        assert!(matches!(r, Err(Error::InvalidName)));
    }
}

#[test]
fn missing_target_is_an_io_error() {
    let r = register_native_messaging(
        Platform::Unix,
        Visibility::Global,
        host("com.example.host", "./missing"),
        "/var/m/native.json",
        None,
    );
    assert!(matches!(r, Err(Error::Io)));
    let r = register_pkcs11_modules(
        Platform::MacOs,
        Visibility::PerUser,
        module("my.module", "./missing"),
        "/var/m/native.json",
        None,
    );
    assert!(matches!(r, Err(Error::Io)));
}

#[test]
fn managed_storage_is_published_unchanged() {
    let r = register_managed_storage(
        Platform::Unix,
        Visibility::Global,
        storage("ext.id"),
        "/var/m/native.json",
    );
    match r {
        Ok(Publication::File { file, manifest, .. }) => {
            assert_eq!(file, "/usr/lib/mozilla/managed-storage/ext.id.json");
            assert_eq!(manifest.data, 7);
            assert_eq!(manifest.name, "ext.id");
        }
        other => panic!("{:?}", other.err()),
    }
}

#[test]
fn end_to_end_native_messaging_per_user() {
    let r = register_native_messaging(
        Platform::Unix,
        Visibility::PerUser,
        host("com.example.host", "./host_bin"),
        "/var/m/native.json",
        Some("/var/m/host_bin".to_string()),
    );
    match home() {
        Some(h) => match r {
            Ok(Publication::File { dir, file, manifest }) => {
                let root = format!("{}/.mozilla/native-messaging-hosts", h.trim_end_matches('/'));
                assert_eq!(dir, root);
                assert_eq!(file, format!("{root}/com.example.host.json"));
                assert_eq!(manifest.path, "/var/m/host_bin");
                assert_eq!(manifest.name, "com.example.host");
                assert_eq!(manifest.description, "d");
                assert_eq!(manifest.allowed_extensions, vec!["ext@id".to_string()]);
            }
            other => panic!("{:?}", other.err()),
        },
        None => assert!(matches!(r, Err(Error::UnknownHome))),
    }
}
