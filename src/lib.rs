//! Registration of Firefox native manifests: native messaging hosts,
//! managed storage and PKCS #11 modules.
//!
//! The library validates a parsed manifest, resolves the paths it refers to,
//! and decides where and how the manifest is published for the browser to
//! find it: as a JSON file in a directory tree, or as a registry value.
//! Reading, canonicalizing and writing files is left to the caller.

mod model;
mod name;
mod path;
mod publish;
mod register;

pub use model::{
    Error, ManagedStorageManifest, ManagedStorageType, Manifest, NativeMessagingManifest,
    NativeMessagingType, Pkcs11Manifest, Pkcs11Type, Visibility,
};
pub use name::{ascii_word_char, valid_name, validate_name, word_char};
pub use path::{is_absolute, join, join_path, last_sep, parent, parent_path};
pub use publish::{
    base_dir, dest_dir, lemma_hosts_and_modules_resolve_apart, lemma_same_name_same_place,
    lemma_visibilities_apart, dest_file, file_root, global_root, kind_folder, opt_view, path_name,
    per_user_root, publication, published_as, registry_subkey, resolve_target, root_key,
    target_path, ManifestType, Place, Platform, Publication, RootKey,
};
pub use register::{
    register_managed_storage, register_native_messaging, register_pkcs11_modules, resolves_path,
};
