use crate::model::{
    Error, ManagedStorageManifest, Manifest, NativeMessagingManifest, Pkcs11Manifest, Visibility,
};
use crate::name::{valid_name, validate_name};
use crate::publish::{
    home_dir, publication, published_as, ManifestType, Platform, Publication,
};
use vstd::prelude::*;

verus! {

impl NativeMessagingManifest {
    /// The manifest with its `path` replaced.
    pub open spec fn with_path(self, path: String) -> Self {
        NativeMessagingManifest {
            name: self.name,
            description: self.description,
            path,
            ty: self.ty,
            allowed_extensions: self.allowed_extensions,
        }
    }
}

impl Pkcs11Manifest {
    /// The manifest with its `path` replaced.
    pub open spec fn with_path(self, path: String) -> Self {
        Pkcs11Manifest {
            name: self.name,
            description: self.description,
            path,
            ty: self.ty,
            allowed_extensions: self.allowed_extensions,
        }
    }
}

/// Whether a manifest's `path` is resolved, and must exist, on `platform`.
pub open spec fn resolves_path(platform: Platform) -> bool {
    platform != Platform::Windows
}

/// The home directory of the user, looked up only where the publication
/// needs it.
fn home_if_needed(platform: Platform, vis: Visibility) -> (r: Option<String>)
    ensures
        platform == Platform::Windows || vis == Visibility::Global ==> r is None,
{
    if platform != Platform::Windows && vis == Visibility::PerUser {
        home_dir()
    } else {
        None
    }
}

/// Registers a native messaging host manifest with Firefox.
///
/// `manifest_file` is the canonical path of the manifest file. Where the
/// platform keeps manifests in a directory tree, `resolved_path` is the
/// canonical form of the manifest's `path` as `target_path` resolves it
/// against the directory of the manifest file, or `None` where that path
/// could not be canonicalized; the manifest is then published with that
/// path. On Windows the registry points to `manifest_file`.
pub fn register_native_messaging(
    platform: Platform,
    vis: Visibility,
    manifest: NativeMessagingManifest,
    manifest_file: &str,
    resolved_path: Option<String>,
) -> (r: Result<Publication<NativeMessagingManifest>, Error>)
    ensures
        !valid_name(manifest.name@) ==> r matches Err(Error::InvalidName),
        valid_name(manifest.name@) && resolves_path(platform) && resolved_path is None ==> r matches Err(
            Error::Io,
        ),
        valid_name(manifest.name@) && !resolves_path(platform) ==> exists|h: Option<Seq<char>>|
            published_as(
                r,
                platform,
                vis,
                ManifestType::NativeMessagingHosts,
                manifest,
                manifest_file@,
                h,
            ),
        valid_name(manifest.name@) && resolves_path(platform) && resolved_path is Some ==> exists|
            h: Option<Seq<char>>,
        |
            published_as(
                r,
                platform,
                vis,
                ManifestType::NativeMessagingHosts,
                manifest.with_path(resolved_path->0),
                manifest_file@,
                h,
            ),
{
    if validate_name(manifest.name.as_str()).is_err() {
        return Err(Error::InvalidName);
    }
    let mut manifest = manifest;
    if platform != Platform::Windows {
        match resolved_path {
            Some(p) => {
                manifest.path = p;
            },
            None => {
                return Err(Error::Io);
            },
        }
    }
    let home = home_if_needed(platform, vis);
    let r = publication(
        platform,
        vis,
        ManifestType::NativeMessagingHosts,
        manifest,
        manifest_file,
        home,
    );
    assert(published_as(
        r,
        platform,
        vis,
        ManifestType::NativeMessagingHosts,
        manifest,
        manifest_file@,
        crate::publish::opt_view(home),
    ));
    r
}

/// Registers a managed storage manifest with Firefox.
///
/// `manifest_file` is the canonical path of the manifest file. Where the
/// platform keeps manifests in a directory tree the manifest is published
/// as it is; on Windows the registry points to `manifest_file`.
pub fn register_managed_storage<T>(
    platform: Platform,
    vis: Visibility,
    manifest: ManagedStorageManifest<T>,
    manifest_file: &str,
) -> (r: Result<Publication<ManagedStorageManifest<T>>, Error>)
    ensures
        !valid_name(manifest.name@) ==> r matches Err(Error::InvalidName),
        valid_name(manifest.name@) ==> exists|h: Option<Seq<char>>|
            published_as(
                r,
                platform,
                vis,
                ManifestType::ManagedStorage,
                manifest,
                manifest_file@,
                h,
            ),
{
    if validate_name(manifest.name.as_str()).is_err() {
        return Err(Error::InvalidName);
    }
    let home = home_if_needed(platform, vis);
    let r = publication(platform, vis, ManifestType::ManagedStorage, manifest, manifest_file, home);
    assert(published_as(
        r,
        platform,
        vis,
        ManifestType::ManagedStorage,
        manifest,
        manifest_file@,
        crate::publish::opt_view(home),
    ));
    r
}

/// Registers a PKCS #11 module manifest with Firefox.
///
/// `manifest_file` is the canonical path of the manifest file. Where the
/// platform keeps manifests in a directory tree, `resolved_path` is the
/// canonical form of the manifest's `path` as `target_path` resolves it
/// against the manifest file itself, or `None` where that path could not
/// be canonicalized; the manifest is then published with that path. On
/// Windows the path is left as it is and the registry points to
/// `manifest_file`.
pub fn register_pkcs11_modules(
    platform: Platform,
    vis: Visibility,
    manifest: Pkcs11Manifest,
    manifest_file: &str,
    resolved_path: Option<String>,
) -> (r: Result<Publication<Pkcs11Manifest>, Error>)
    ensures
        !valid_name(manifest.name@) ==> r matches Err(Error::InvalidName),
        valid_name(manifest.name@) && resolves_path(platform) && resolved_path is None ==> r matches Err(
            Error::Io,
        ),
        valid_name(manifest.name@) && !resolves_path(platform) ==> exists|h: Option<Seq<char>>|
            published_as(
                r,
                platform,
                vis,
                ManifestType::Pkcs11Modules,
                manifest,
                manifest_file@,
                h,
            ),
        valid_name(manifest.name@) && resolves_path(platform) && resolved_path is Some ==> exists|
            h: Option<Seq<char>>,
        |
            published_as(
                r,
                platform,
                vis,
                ManifestType::Pkcs11Modules,
                manifest.with_path(resolved_path->0),
                manifest_file@,
                h,
            ),
{
    if validate_name(manifest.name.as_str()).is_err() {
        return Err(Error::InvalidName);
    }
    let mut manifest = manifest;
    if platform != Platform::Windows {
        match resolved_path {
            Some(p) => {
                manifest.path = p;
            },
            None => {
                return Err(Error::Io);
            },
        }
    }
    let home = home_if_needed(platform, vis);
    let r = publication(platform, vis, ManifestType::Pkcs11Modules, manifest, manifest_file, home);
    assert(published_as(
        r,
        platform,
        vis,
        ManifestType::Pkcs11Modules,
        manifest,
        manifest_file@,
        crate::publish::opt_view(home),
    ));
    r
}

} // verus!
