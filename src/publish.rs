use crate::model::{Error, Manifest, Visibility};
use crate::path::{is_absolute, join, join_path, lemma_parent_shorter, parent, parent_path};
use vstd::prelude::*;
use vstd::string::*;

verus! {

/// The platform whose browser is to find the manifest.
#[derive(Debug, Clone, Copy, PartialEq, Eq, Structural)]
pub enum Platform {
    /// macOS: a directory tree under `Library/Application Support/Mozilla`.
    MacOs,
    /// Other Unix-like systems: a directory tree under `mozilla`.
    Unix,
    /// Windows: a key in the registry.
    Windows,
}

/// The kinds of manifest.
#[derive(Debug, Clone, Copy, PartialEq, Eq, Structural)]
pub enum ManifestType {
    NativeMessagingHosts,
    ManagedStorage,
    Pkcs11Modules,
}

/// A predefined registry root key.
#[derive(Debug, Clone, Copy, PartialEq, Eq, Structural)]
pub enum RootKey {
    /// `HKEY_LOCAL_MACHINE`
    LocalMachine,
    /// `HKEY_CURRENT_USER`
    CurrentUser,
}

/// What to write so that the browser finds a manifest.
#[derive(Debug)]
pub enum Publication<M> {
    /// Create the directory `dir` with its parents, then write `manifest` as
    /// pretty-printed JSON to the file `file` in it, replacing any file there.
    File { dir: String, file: String, manifest: M },
    /// Create or open the key `subkey` under `root`, and set its default value
    /// to the string `value`, the path of the manifest file.
    Registry { root: RootKey, subkey: String, value: String },
}

/// Where a publication lands.
pub enum Place {
    File(Seq<char>),
    Key(RootKey, Seq<char>),
}

impl<M> Publication<M> {
    /// The file or registry key that the publication writes.
    pub open spec fn place(&self) -> Place {
        match self {
            Publication::File { file, .. } => Place::File(file@),
            Publication::Registry { root, subkey, .. } => Place::Key(*root, subkey@),
        }
    }
}

/// The directory, or registry folder, of a kind of manifest on a platform.
pub open spec fn kind_folder(platform: Platform, ty: ManifestType) -> Seq<char> {
    match platform {
        Platform::Unix => match ty {
            ManifestType::NativeMessagingHosts => "native-messaging-hosts"@,
            ManifestType::ManagedStorage => "managed-storage"@,
            ManifestType::Pkcs11Modules => "pkcs11-modules"@,
        },
        _ => match ty {
            ManifestType::NativeMessagingHosts => "NativeMessagingHosts"@,
            ManifestType::ManagedStorage => "ManagedStorage"@,
            ManifestType::Pkcs11Modules => "PKCS11Modules"@,
        },
    }
}

/// The machine-wide root directory of a platform with a directory tree.
pub open spec fn global_root(platform: Platform) -> Seq<char> {
    match platform {
        Platform::MacOs => "/Library/Application Support/Mozilla"@,
        _ => "/usr/lib/mozilla"@,
    }
}

/// The root directory, relative to the home directory, for one user.
pub open spec fn per_user_root(platform: Platform) -> Seq<char> {
    match platform {
        Platform::MacOs => "Library/Application Support/Mozilla"@,
        _ => ".mozilla"@,
    }
}

/// The root directory for a visibility; `home` matters for one user only.
pub open spec fn file_root(platform: Platform, vis: Visibility, home: Seq<char>) -> Seq<char> {
    match vis {
        Visibility::Global => global_root(platform),
        Visibility::PerUser => join(home, per_user_root(platform)),
    }
}

/// The directory that a manifest of kind `ty` is written to.
pub open spec fn dest_dir(
    platform: Platform,
    vis: Visibility,
    ty: ManifestType,
    home: Seq<char>,
) -> Seq<char> {
    join(file_root(platform, vis, home), kind_folder(platform, ty))
}

/// The file that the manifest named `name` of kind `ty` is written to.
pub open spec fn dest_file(
    platform: Platform,
    vis: Visibility,
    ty: ManifestType,
    name: Seq<char>,
    home: Seq<char>,
) -> Seq<char> {
    join(dest_dir(platform, vis, ty, home), name + ".json"@)
}

/// The registry root key of a visibility.
pub open spec fn root_key(vis: Visibility) -> RootKey {
    match vis {
        Visibility::Global => RootKey::LocalMachine,
        Visibility::PerUser => RootKey::CurrentUser,
    }
}

/// The registry key, under the root key, of the manifest named `name`.
pub open spec fn registry_subkey(ty: ManifestType, name: Seq<char>) -> Seq<char> {
    "SOFTWARE\\Mozilla\\"@ + kind_folder(Platform::Windows, ty) + "\\"@ + name
}

/// The path that a manifest's own `path` field is resolved to, before it is
/// canonicalized, given the canonical path `file` of the manifest file.
/// A native messaging host is found from the directory of the manifest, a
/// PKCS #11 module from the manifest file itself. On Windows, and for
/// managed storage, nothing is resolved.
pub open spec fn resolve_target(
    platform: Platform,
    ty: ManifestType,
    file: Seq<char>,
    path: Seq<char>,
) -> Option<Seq<char>> {
    if platform == Platform::Windows {
        None
    } else {
        match ty {
            ManifestType::NativeMessagingHosts => Some(join(parent(file), path)),
            ManifestType::Pkcs11Modules => Some(join(file, path)),
            ManifestType::ManagedStorage => None,
        }
    }
}

pub open spec fn opt_view(o: Option<String>) -> Option<Seq<char>> {
    match o {
        Some(s) => Some(s@),
        None => None,
    }
}

/// How `manifest` of kind `ty`, read from the canonical path `file`, is
/// published for `vis` on `platform`, when the home directory of the user
/// is `home` (`None` when it cannot be determined).
pub open spec fn published_as<M: Manifest>(
    r: Result<Publication<M>, Error>,
    platform: Platform,
    vis: Visibility,
    ty: ManifestType,
    manifest: M,
    file: Seq<char>,
    home: Option<Seq<char>>,
) -> bool {
    if platform == Platform::Windows {
        &&& r matches Ok(Publication::Registry { root, subkey, value })
        &&& root == root_key(vis)
        &&& subkey@ == registry_subkey(ty, manifest.name_view())
        &&& value@ == file
    } else if vis == Visibility::PerUser && home is None {
        r matches Err(Error::UnknownHome)
    } else {
        let h = match home {
            Some(h) => h,
            None => Seq::empty(),
        };
        &&& r matches Ok(Publication::File { dir, file: f, manifest: m })
        &&& m == manifest
        &&& dir@ == dest_dir(platform, vis, ty, h)
        &&& f@ == dest_file(platform, vis, ty, manifest.name_view(), h)
    }
}

/// The directory, or registry folder, of a kind of manifest on a platform.
pub fn path_name(platform: Platform, ty: ManifestType) -> (r: &'static str)
    ensures
        r@ == kind_folder(platform, ty),
{
    match platform {
        Platform::Unix => match ty {
            ManifestType::NativeMessagingHosts => "native-messaging-hosts",
            ManifestType::ManagedStorage => "managed-storage",
            ManifestType::Pkcs11Modules => "pkcs11-modules",
        },
        _ => match ty {
            ManifestType::NativeMessagingHosts => "NativeMessagingHosts",
            ManifestType::ManagedStorage => "ManagedStorage",
            ManifestType::Pkcs11Modules => "PKCS11Modules",
        },
    }
}

/// The root directory of manifests for `vis`, on a platform with a
/// directory tree.
pub fn base_dir(platform: Platform, vis: Visibility, home: &str) -> (r: String)
    ensures
        r@ == file_root(platform, vis, home@),
{
    match vis {
        Visibility::Global => match platform {
            Platform::MacOs => String::from_str("/Library/Application Support/Mozilla"),
            _ => String::from_str("/usr/lib/mozilla"),
        },
        Visibility::PerUser => match platform {
            Platform::MacOs => join_path(home, "Library/Application Support/Mozilla"),
            _ => join_path(home, ".mozilla"),
        },
    }
}

/// The path to canonicalize for the `path` field of a manifest of kind
/// `ty`, read from the canonical path `manifest_file`; `None` where the
/// field is left as it is.
pub fn target_path(platform: Platform, ty: ManifestType, manifest_file: &str, path: &str) -> (r:
    Option<String>)
    ensures
        opt_view(r) == resolve_target(platform, ty, manifest_file@, path@),
{
    if platform == Platform::Windows {
        return None;
    }
    match ty {
        ManifestType::NativeMessagingHosts => {
            let dir = parent_path(manifest_file);
            Some(join_path(dir.as_str(), path))
        },
        ManifestType::Pkcs11Modules => Some(join_path(manifest_file, path)),
        ManifestType::ManagedStorage => None,
    }
}

/// Where and how `manifest` of kind `ty`, read from the canonical path
/// `manifest_file`, is published for `vis` on `platform`, given the home
/// directory of the user (`None` when it cannot be determined).
pub fn publication<M: Manifest>(
    platform: Platform,
    vis: Visibility,
    ty: ManifestType,
    manifest: M,
    manifest_file: &str,
    home: Option<String>,
) -> (r: Result<Publication<M>, Error>)
    ensures
        published_as(r, platform, vis, ty, manifest, manifest_file@, opt_view(home)),
{
    if platform == Platform::Windows {
        let root = match vis {
            Visibility::Global => RootKey::LocalMachine,
            Visibility::PerUser => RootKey::CurrentUser,
        };
        let subkey = String::from_str("SOFTWARE\\Mozilla\\").concat(path_name(platform, ty)).concat(
            "\\",
        ).concat(manifest.name());
        return Ok(Publication::Registry { root, subkey, value: String::from_str(manifest_file) });
    }
    let h = match home {
        Some(h) => h,
        None => {
            if vis == Visibility::PerUser {
                return Err(Error::UnknownHome);
            }
            String::new()
        },
    };
    let root = base_dir(platform, vis, h.as_str());
    let dir = join_path(root.as_str(), path_name(platform, ty));
    let file_name = String::from_str(manifest.name()).concat(".json");
    let file = join_path(dir.as_str(), file_name.as_str());
    Ok(Publication::File { dir, file, manifest })
}

/// Relies on home::home_dir: the home directory of the current user, from
/// the environment or the system, if it can be determined. Nothing is known
/// of its value; one that is not valid Unicode counts as unknown.
#[verifier::external_body]
pub(crate) fn home_dir() -> (r: Option<String>) {
    match home::home_dir() {
        Some(p) => p.into_os_string().into_string().ok(),
        None => None,
    }
}

/// For a relative `path`, a native messaging host and a PKCS #11 module are
/// resolved to different paths wherever paths are resolved: the first from
/// the directory of the manifest file, the second from the file itself.
pub proof fn lemma_hosts_and_modules_resolve_apart(
    platform: Platform,
    file: Seq<char>,
    path: Seq<char>,
)
    requires
        platform != Platform::Windows,
        file.len() > 0,
        file.last() != '/',
        !is_absolute(path),
    ensures
        resolve_target(platform, ManifestType::NativeMessagingHosts, file, path)
            != resolve_target(platform, ManifestType::Pkcs11Modules, file, path),
{
    lemma_parent_shorter(file);
    let host = join(parent(file), path);
    let module = join(file, path);
    assert(host.len() < module.len());
}

/// Publishing a manifest again under the same name, for the same platform,
/// kind, visibility and home directory, lands on the same file or registry
/// key: the second write replaces the first, whatever else the manifests
/// hold.
pub proof fn lemma_same_name_same_place<M: Manifest>(
    platform: Platform,
    vis: Visibility,
    ty: ManifestType,
    first: M,
    second: M,
    first_file: Seq<char>,
    second_file: Seq<char>,
    home: Option<Seq<char>>,
    r1: Result<Publication<M>, Error>,
    r2: Result<Publication<M>, Error>,
)
    requires
        first.name_view() == second.name_view(),
        published_as(r1, platform, vis, ty, first, first_file, home),
        published_as(r2, platform, vis, ty, second, second_file, home),
        r1 is Ok,
    ensures
        r2 is Ok,
        r1->Ok_0.place() == r2->Ok_0.place(),
{
}

proof fn lemma_cancel_suffix(a: Seq<char>, b: Seq<char>, s: Seq<char>)
    requires
        a + s == b + s,
    ensures
        a == b,
{
    assert((a + s).len() == a.len() + s.len());
    assert((b + s).len() == b.len() + s.len());
    assert(a =~= (a + s).subrange(0, a.len() as int));
    assert(b =~= (b + s).subrange(0, b.len() as int));
}

/// A manifest file under a root that does not end with a separator is the
/// root followed by the same suffix, whatever the root.
proof fn lemma_dest_file_under_root(
    platform: Platform,
    vis: Visibility,
    ty: ManifestType,
    name: Seq<char>,
    home: Seq<char>,
)
    requires
        platform != Platform::Windows,
        !is_absolute(name),
        file_root(platform, vis, home).len() > 0,
        file_root(platform, vis, home).last() != '/',
    ensures
        dest_file(platform, vis, ty, name, home) == file_root(platform, vis, home) + (seq!['/']
            + kind_folder(platform, ty) + seq!['/'] + (name + ".json"@)),
{
    reveal_strlit("native-messaging-hosts");
    reveal_strlit("managed-storage");
    reveal_strlit("pkcs11-modules");
    reveal_strlit("NativeMessagingHosts");
    reveal_strlit("ManagedStorage");
    reveal_strlit("PKCS11Modules");
    reveal_strlit(".json");
    let root = file_root(platform, vis, home);
    let folder = kind_folder(platform, ty);
    let n = name + ".json"@;
    assert(!is_absolute(n)) by {
        if name.len() > 0 {
            assert(n[0] == name[0]);
        } else {
            assert(n[0] == '.');
        }
    }
    let dir = root + seq!['/'] + folder;
    assert(dest_dir(platform, vis, ty, home) == dir);
    assert(dir.last() == folder.last());
    assert(dest_file(platform, vis, ty, name, home) == dir + seq!['/'] + n);
    assert(dir + seq!['/'] + n =~= root + (seq!['/'] + folder + seq!['/'] + n));
}

/// The machine-wide root and a user's root differ, but on macOS for a user
/// whose home directory is the root directory.
proof fn lemma_roots_apart(platform: Platform, home: Seq<char>)
    requires
        platform != Platform::Windows,
        platform == Platform::MacOs ==> home != seq!['/'],
    ensures
        file_root(platform, Visibility::Global, home) != file_root(
            platform,
            Visibility::PerUser,
            home,
        ),
        file_root(platform, Visibility::Global, home).len() > 0,
        file_root(platform, Visibility::Global, home).last() != '/',
        file_root(platform, Visibility::PerUser, home).len() > 0,
        file_root(platform, Visibility::PerUser, home).last() != '/',
{
    reveal_strlit("/Library/Application Support/Mozilla");
    reveal_strlit("Library/Application Support/Mozilla");
    reveal_strlit("/usr/lib/mozilla");
    reveal_strlit(".mozilla");
    let global = file_root(platform, Visibility::Global, home);
    let rel = per_user_root(platform);
    let user = join(home, rel);
    let lead = if home.len() == 0 || home.last() == '/' {
        home
    } else {
        home + seq!['/']
    };
    assert(user =~= lead + rel);
    assert(user.last() == rel.last());
    if platform == Platform::MacOs {
        if global == user {
            assert(lead.len() == 1);
            if home.len() == 0 {
                assert(lead =~= seq!['/']);
                assert(user[0] == rel[0]);
            } else if home.last() == '/' {
                assert(home =~= seq!['/']);
            }
        }
    } else {
        assert(user[user.len() - 8] == '.');
        assert(global[global.len() - 8] == '/');
    }
}

/// Publishing the same name machine-wide and for one user lands on two
/// different files or registry keys, so neither replaces the other. On
/// macOS this needs the user's home directory not to be the root directory,
/// and it needs a name that is not an absolute path.
pub proof fn lemma_visibilities_apart<M: Manifest>(
    platform: Platform,
    ty: ManifestType,
    global: M,
    per_user: M,
    global_file: Seq<char>,
    per_user_file: Seq<char>,
    global_home: Option<Seq<char>>,
    home: Option<Seq<char>>,
    r1: Result<Publication<M>, Error>,
    r2: Result<Publication<M>, Error>,
)
    requires
        global.name_view() == per_user.name_view(),
        !is_absolute(global.name_view()),
        platform == Platform::MacOs ==> home != Some(seq!['/']),
        published_as(r1, platform, Visibility::Global, ty, global, global_file, global_home),
        published_as(r2, platform, Visibility::PerUser, ty, per_user, per_user_file, home),
        r2 is Ok,
    ensures
        r1 is Ok,
        r1->Ok_0.place() != r2->Ok_0.place(),
{
    if platform != Platform::Windows {
        let name = global.name_view();
        let gh = match global_home {
            Some(h) => h,
            None => Seq::empty(),
        };
        let h = home->0;
        lemma_roots_apart(platform, h);
        let ty_suffix = seq!['/'] + kind_folder(platform, ty) + seq!['/'] + (name + ".json"@);
        assert(file_root(platform, Visibility::Global, gh) == file_root(
            platform,
            Visibility::Global,
            h,
        ));
        lemma_dest_file_under_root(platform, Visibility::Global, ty, name, gh);
        lemma_dest_file_under_root(platform, Visibility::PerUser, ty, name, h);
        if dest_file(platform, Visibility::Global, ty, name, gh) == dest_file(
            platform,
            Visibility::PerUser,
            ty,
            name,
            h,
        ) {
            lemma_cancel_suffix(
                file_root(platform, Visibility::Global, h),
                file_root(platform, Visibility::PerUser, h),
                ty_suffix,
            );
        }
    }
}

} // verus!
