//! The bundle directory of a library and its manifest.

use vstd::prelude::*;
use vstd::string::*;

use crate::config::{LibraryConfig, LocalStorageMode};
use crate::error::{prefixed, LibraryError};
use crate::path::{join_path, joined};
use crate::text::text_eq;

verus! {

/// The format version that new manifests carry.
pub const BUNDLE_VERSION: u32 = 1;

/// The file name of the manifest inside the bundle.
pub const MANIFEST_FILE: &'static str = "library.toml";

/// The contents of `library.toml`.
#[derive(Debug)]
pub struct LibraryManifest {
    pub library: LibrarySection,
    pub local: Option<LocalSection>,
    pub immich: Option<ImmichSection>,
}

#[derive(Debug)]
pub struct LibrarySection {
    pub version: u32,
    /// `"local"` or `"immich"`.
    pub backend: String,
}

#[derive(Debug)]
pub struct LocalSection {
    /// `"managed"` or `"referenced"`.
    pub mode: String,
}

#[derive(Debug)]
pub struct ImmichSection {
    pub server_url: String,
}

/// The word for a storage mode in the manifest.
pub open spec fn mode_word(mode: LocalStorageMode) -> Seq<char> {
    match mode {
        LocalStorageMode::Managed => "managed"@,
        LocalStorageMode::Referenced => "referenced"@,
    }
}

/// Whether `m` records `config`: the backend and its section, the access token
/// left out.
pub open spec fn records(m: LibraryManifest, config: LibraryConfig) -> bool {
    &&& m.library.version == BUNDLE_VERSION
    &&& match config {
        LibraryConfig::Local { mode } => {
            &&& m.library.backend@ == "local"@
            &&& m.local matches Some(section) && section.mode@ == mode_word(mode)
            &&& m.immich is None
        },
        LibraryConfig::Immich { server_url, .. } => {
            &&& m.library.backend@ == "immich"@
            &&& m.local is None
            &&& m.immich matches Some(section) && section.server_url == server_url
        },
    }
}

impl LibraryManifest {
    /// The manifest for a configuration. It never holds the access token.
    pub fn new(config: &LibraryConfig) -> (r: Self)
        ensures
            records(r, *config),
    {
        match config {
            LibraryConfig::Local { mode } => {
                let mode = match mode {
                    LocalStorageMode::Managed => "managed".to_owned(),
                    LocalStorageMode::Referenced => "referenced".to_owned(),
                };
                LibraryManifest {
                    library: LibrarySection {
                        version: BUNDLE_VERSION,
                        backend: "local".to_owned(),
                    },
                    local: Some(LocalSection { mode }),
                    immich: None,
                }
            },
            LibraryConfig::Immich { server_url, .. } => LibraryManifest {
                library: LibrarySection { version: BUNDLE_VERSION, backend: "immich".to_owned() },
                local: None,
                immich: Some(ImmichSection { server_url: server_url.clone() }),
            },
        }
    }
}

/// Whether `r` is what a manifest configures. The local backend manages its
/// originals unless the manifest says that they are referenced; the Immich backend
/// needs its section; no other backend exists.
pub open spec fn configures(
    m: LibraryManifest,
    r: Result<LibraryConfig, LibraryError>,
) -> bool {
    if m.library.backend@ == "local"@ {
        r == Ok::<LibraryConfig, LibraryError>(
            LibraryConfig::Local {
                mode: if m.local is Some && m.local->0.mode@ == "referenced"@ {
                    LocalStorageMode::Referenced
                } else {
                    LocalStorageMode::Managed
                },
            },
        )
    } else if m.library.backend@ == "immich"@ {
        match m.immich {
            Some(section) => r matches Ok(LibraryConfig::Immich { server_url, access_token })
                && server_url == section.server_url && access_token@ == Seq::<char>::empty(),
            None => r matches Err(LibraryError::Bundle(e)) && e@
                == "[immich] section missing from library.toml"@,
        }
    } else {
        r matches Err(LibraryError::InvalidBackend(b)) && b == m.library.backend
    }
}

impl LibraryConfig {
    /// The configuration that a manifest holds. The access token is not in it: the
    /// Immich backend fetches it from the keyring.
    pub fn from_manifest(manifest: &LibraryManifest) -> (r: Result<Self, LibraryError>)
        ensures
            configures(*manifest, r),
    {
        let backend = manifest.library.backend.as_str();
        proof {
            reveal_strlit("local");
            reveal_strlit("immich");
        }
        if text_eq(backend, "local") {
            let referenced = match &manifest.local {
                Some(section) => text_eq(section.mode.as_str(), "referenced"),
                None => false,
            };
            let mode = if referenced {
                LocalStorageMode::Referenced
            } else {
                LocalStorageMode::Managed
            };
            Ok(LibraryConfig::Local { mode })
        } else if text_eq(backend, "immich") {
            match &manifest.immich {
                Some(section) => Ok(
                    LibraryConfig::Immich {
                        server_url: section.server_url.clone(),
                        access_token: String::new(),
                    },
                ),
                None => Err(
                    LibraryError::Bundle("[immich] section missing from library.toml".to_owned()),
                ),
            }
        } else {
            Err(LibraryError::InvalidBackend(manifest.library.backend.clone()))
        }
    }
}

/// A configuration comes back from its manifest unchanged, but for the access
/// token, which comes back empty.
pub proof fn manifest_roundtrip(
    config: LibraryConfig,
    manifest: LibraryManifest,
    back: Result<LibraryConfig, LibraryError>,
)
    requires
        records(manifest, config),
        configures(manifest, back),
    ensures
        match config {
            LibraryConfig::Local { mode } => back == Ok::<LibraryConfig, LibraryError>(
                LibraryConfig::Local { mode },
            ),
            LibraryConfig::Immich { server_url, .. } => back matches Ok(
                LibraryConfig::Immich { server_url: url, access_token: token },
            ) && url == server_url && token@.len() == 0,
        },
{
    reveal_strlit("local");
    reveal_strlit("immich");
    reveal_strlit("managed");
    reveal_strlit("referenced");
    assert("managed"@.len() != "referenced"@.len());
    assert("local"@.len() != "immich"@.len());
}

// ── The directory ────────────────────────────────────────────────────────────

/// An open bundle directory, with the path of each of its parts. A part is created
/// by whatever first needs it.
#[derive(Debug)]
pub struct Bundle {
    /// The bundle itself.
    pub path: String,
    /// Source files of the local backend.
    pub originals: String,
    /// Generated thumbnails.
    pub thumbnails: String,
    /// Face recognition data.
    pub faces: String,
    /// The database.
    pub database: String,
}

/// Whether `r` is the creation of a bundle at `path`, where nothing may be yet.
pub open spec fn creates(r: Result<Bundle, LibraryError>, path: Seq<char>, exists: bool) -> bool {
    if exists {
        r matches Err(LibraryError::Bundle(m)) && m@ == "bundle already exists at "@ + path
    } else {
        r matches Ok(b) && b.lies_at(path)
    }
}

/// Whether `r` is the opening of the bundle at `path`, which must be a directory.
pub open spec fn opens(r: Result<Bundle, LibraryError>, path: Seq<char>, is_dir: bool) -> bool {
    if is_dir {
        r matches Ok(b) && b.lies_at(path)
    } else {
        r matches Err(LibraryError::Bundle(m)) && m@ == "bundle not found at "@ + path
    }
}

impl Bundle {
    /// Whether the parts lie in the bundle at `path`.
    pub open spec fn lies_at(self, path: Seq<char>) -> bool {
        &&& self.path@ == path
        &&& self.originals@ == joined(path, "originals"@)
        &&& self.thumbnails@ == joined(path, "thumbnails"@)
        &&& self.faces@ == joined(path, "faces"@)
        &&& self.database@ == joined(path, "database"@)
    }

    /// Where the manifest of a bundle lies.
    pub fn manifest_path(bundle_path: &str) -> (r: String)
        ensures
            r@ == joined(bundle_path@, MANIFEST_FILE@),
    {
        join_path(bundle_path, MANIFEST_FILE)
    }

    /// The bundle at `path`.
    pub fn from_path(path: &str) -> (r: Self)
        ensures
            r.lies_at(path@),
    {
        Bundle {
            path: path.to_owned(),
            originals: join_path(path, "originals"),
            thumbnails: join_path(path, "thumbnails"),
            faces: join_path(path, "faces"),
            database: join_path(path, "database"),
        }
    }

    /// The bundle to be created at `path`, where nothing may be yet.
    pub fn create(path: &str, exists: bool) -> (r: Result<Self, LibraryError>)
        ensures
            creates(r, path@, exists),
    {
        if exists {
            Err(LibraryError::Bundle(prefixed("bundle already exists at ", path)))
        } else {
            Ok(Self::from_path(path))
        }
    }

    /// The bundle to be opened at `path`, which must be a directory.
    pub fn open(path: &str, is_dir: bool) -> (r: Result<Self, LibraryError>)
        ensures
            opens(r, path@, is_dir),
    {
        if is_dir {
            Ok(Self::from_path(path))
        } else {
            Err(LibraryError::Bundle(prefixed("bundle not found at ", path)))
        }
    }

    /// The database file of the bundle.
    pub fn database_file(&self) -> (r: String)
        ensures
            r@ == joined(self.database@, "moments.db"@),
    {
        join_path(self.database.as_str(), "moments.db")
    }
}

/// A bundle that was created opens, once its directory is there, as the same bundle and with
/// the configuration that it was created with, the access token left out; it cannot be
/// created again.
pub proof fn created_bundle_opens(
    path: Seq<char>,
    config: LibraryConfig,
    created: Result<Bundle, LibraryError>,
    manifest: LibraryManifest,
    opened: Result<Bundle, LibraryError>,
    back: Result<LibraryConfig, LibraryError>,
    again: Result<Bundle, LibraryError>,
)
    requires
        creates(created, path, false),
        records(manifest, config),
        opens(opened, path, true),
        configures(manifest, back),
        creates(again, path, true),
    ensures
        created is Ok && opened is Ok && back is Ok && again is Err,
        opened->Ok_0.path@ == created->Ok_0.path@,
        opened->Ok_0.originals@ == created->Ok_0.originals@,
        opened->Ok_0.thumbnails@ == created->Ok_0.thumbnails@,
        opened->Ok_0.faces@ == created->Ok_0.faces@,
        opened->Ok_0.database@ == created->Ok_0.database@,
        back->Ok_0.shown() == config.shown(),
        config is Local ==> back->Ok_0 == config,
{
    manifest_roundtrip(config, manifest, back);
}

} // verus!
