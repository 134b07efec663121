use vstd::prelude::*;

verus! {

/// Why a registration failed.
#[derive(Debug, Clone, Copy, PartialEq, Eq, Structural)]
#[non_exhaustive]
pub enum Error {
    /// Reading the manifest, resolving a path it names, or writing failed.
    Io,
    /// The manifest is not valid JSON of the expected shape.
    Serde,
    /// The name in the manifest is invalid.
    InvalidName,
    /// The home directory of the user cannot be determined.
    UnknownHome,
}

/// Visibility of native manifests registered.
#[derive(Debug, Clone, Copy, PartialEq, Eq, Structural)]
pub enum Visibility {
    /// Machine-wide.
    Global,
    /// For the current user only.
    PerUser,
}

/// A manifest of any kind: what every kind exposes to the publisher.
pub trait Manifest: Sized {
    /// The name of the manifest, as a sequence of characters.
    spec fn name_view(&self) -> Seq<char>;

    /// The name of the manifest.
    fn name(&self) -> (r: &str)
        ensures
            r@ == self.name_view(),
    ;
}

/// Manifest object for native messaging, by which an extension can
/// communicate with a native app installed on the device.
#[derive(Debug)]
pub struct NativeMessagingManifest {
    /// Name of the native application; it must be a valid name.
    pub name: String,
    /// Description of the native application.
    pub description: String,
    /// Path to the native application.
    pub path: String,
    /// Method used to connect the extension with the app.
    pub ty: NativeMessagingType,
    /// The extensions allowed to communicate with the native application.
    pub allowed_extensions: Vec<String>,
}

/// Method used to connect the extension with the app.
#[derive(Debug, Clone, Copy, PartialEq, Eq, Structural)]
pub enum NativeMessagingType {
    /// Messages travel over standard input and standard output.
    Stdio,
}

/// Read-only data that an extension can access through the managed storage API.
#[derive(Debug)]
pub struct ManagedStorageManifest<T> {
    /// The ID of the extension that can access this storage.
    pub name: String,
    /// Human readable description, ignored by Firefox.
    pub description: String,
    /// This must be "storage".
    pub ty: ManagedStorageType,
    /// The data of the managed storage area, not inspected here.
    pub data: T,
}

/// The type tag of a managed storage manifest.
#[derive(Debug, Clone, Copy, PartialEq, Eq, Structural)]
pub enum ManagedStorageType {
    Storage,
}

/// Enables an extension to install a PKCS #11 security module in Firefox.
#[derive(Debug)]
pub struct Pkcs11Manifest {
    /// Name of the PKCS #11 module; it must be a valid name.
    pub name: String,
    /// Description of the module.
    pub description: String,
    /// Path to the module.
    pub path: String,
    /// This must be "pkcs11".
    pub ty: Pkcs11Type,
    /// The extensions allowed to interact with the module.
    pub allowed_extensions: Vec<String>,
}

/// The type tag of a PKCS #11 manifest.
#[derive(Debug, Clone, Copy, PartialEq, Eq, Structural)]
pub enum Pkcs11Type {
    Pkcs11,
}

impl Manifest for NativeMessagingManifest {
    open spec fn name_view(&self) -> Seq<char> {
        self.name@
    }

    fn name(&self) -> (r: &str) {
        self.name.as_str()
    }
}

impl<T> Manifest for ManagedStorageManifest<T> {
    open spec fn name_view(&self) -> Seq<char> {
        self.name@
    }

    fn name(&self) -> (r: &str) {
        self.name.as_str()
    }
}

impl Manifest for Pkcs11Manifest {
    open spec fn name_view(&self) -> Seq<char> {
        self.name@
    }

    fn name(&self) -> (r: &str) {
        self.name.as_str()
    }
}

} // verus!
