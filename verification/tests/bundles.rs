use moments::bundle::{Bundle, ImmichSection, LibraryManifest, LibrarySection, LocalSection};
use moments::config::{LibraryConfig, LocalStorageMode};
use moments::error::LibraryError;
use moments::event::LibraryEvent;
use moments::keyring::{keyring_error, token_label, KeyringAction};
use moments::local::{Backend, LibraryFactory, LocalLibrary};

#[test]
fn manifest_roundtrip_local() {
    let manifest = LibraryManifest::new(&LibraryConfig::Local {
        mode: LocalStorageMode::Managed,
    });
    assert_eq!(manifest.library.version, 1);
    assert_eq!(manifest.library.backend, "local");
    let config = LibraryConfig::from_manifest(&manifest).unwrap();
    assert!(matches!(config, LibraryConfig::Local { .. }));
}

#[test]
fn manifest_keeps_the_storage_mode() {
    let manifest = LibraryManifest::new(&LibraryConfig::Local {
        mode: LocalStorageMode::Referenced,
    });
    let config = LibraryConfig::from_manifest(&manifest).unwrap();
    assert!(matches!(
        config,
        LibraryConfig::Local {
            mode: LocalStorageMode::Referenced
        }
    ));
    let older = LibraryManifest {
        library: LibrarySection {
            version: 1,
            backend: "local".to_string(),
        },
        local: None,
        immich: None,
    };
    assert!(matches!(
        LibraryConfig::from_manifest(&older).unwrap(),
        LibraryConfig::Local {
            mode: LocalStorageMode::Managed
        }
    ));
    let odd = LibraryManifest {
        local: Some(LocalSection {
            mode: "elsewhere".to_string(),
        }),
        ..older
    };
    assert!(matches!(
        LibraryConfig::from_manifest(&odd).unwrap(),
        LibraryConfig::Local {
            mode: LocalStorageMode::Managed
        }
    ));
}

#[test]
fn manifest_roundtrip_immich() {
    let config = LibraryConfig::Immich {
        server_url: "http://test:2283".to_string(),
        access_token: "key".to_string(),
    };
    let manifest = LibraryManifest::new(&config);
    let restored = LibraryConfig::from_manifest(&manifest).unwrap();

    if let LibraryConfig::Immich {
        server_url,
        access_token,
    } = restored
    {
        assert_eq!(server_url, "http://test:2283");
        assert_eq!(access_token, "");
    } else {
        panic!("expected Immich config");
    }
}

#[test]
fn manifest_unknown_backend_returns_invalid_backend_error() {
    let manifest = LibraryManifest {
        library: LibrarySection {
            version: 1,
            backend: "s3".to_string(),
        },
        local: None,
        immich: None,
    };
    let result = LibraryConfig::from_manifest(&manifest);
    assert!(matches!(result, Err(LibraryError::InvalidBackend(ref b)) if b == "s3"));
}

#[test]
fn immich_manifest_missing_section_returns_bundle_error() {
    let manifest = LibraryManifest {
        library: LibrarySection {
            version: 1,
            backend: "immich".to_string(),
        },
        local: None,
        immich: None,
    };
    let result = LibraryConfig::from_manifest(&manifest);
    assert!(matches!(result, Err(LibraryError::Bundle(_))));
    let whole = LibraryManifest {
        immich: Some(ImmichSection {
            server_url: "http://a".to_string(),
        }),
        ..manifest
    };
    assert!(LibraryConfig::from_manifest(&whole).is_ok());
}

#[test]
fn local_managed_config_variant() {
    let config = LibraryConfig::Local {
        mode: LocalStorageMode::Managed,
    };
    assert!(matches!(
        config,
        LibraryConfig::Local {
            mode: LocalStorageMode::Managed
        }
    ));
}

#[test]
fn local_referenced_config_variant() {
    let config = LibraryConfig::Local {
        mode: LocalStorageMode::Referenced,
    };
    assert!(matches!(
        config,
        LibraryConfig::Local {
            mode: LocalStorageMode::Referenced
        }
    ));
}

#[test]
fn immich_config_stores_fields() {
    let config = LibraryConfig::Immich {
        server_url: "http://immich.local:2283".to_string(),
        access_token: "test-token".to_string(),
    };
    assert_eq!(LibraryFactory::backend(&config), Backend::Immich);
    if let LibraryConfig::Immich {
        server_url,
        access_token,
    } = config
    {
        assert_eq!(server_url, "http://immich.local:2283");
        assert_eq!(access_token, "test-token");
    } else {
        panic!("expected Immich variant");
    }
}

#[test]
fn access_tokens_are_not_shown() {
    let config = LibraryConfig::Immich {
        server_url: "http://immich.local:2283".to_string(),
        access_token: "test-token".to_string(),
    };
    assert_eq!(
        config.to_string(),
        "Immich { server_url: \"http://immich.local:2283\", access_token: \"[REDACTED]\" }"
    );
    let odd = LibraryConfig::Immich {
        server_url: "a\"b\\c\n".to_string(),
        access_token: String::new(),
    };
    assert_eq!(
        odd.to_string(),
        "Immich { server_url: \"a\\\"b\\\\c\\n\", access_token: \"[REDACTED]\" }"
    );
    let local = LibraryConfig::Local { mode: LocalStorageMode::Managed };
    assert_eq!(local.to_string(), "Local { mode: Managed }");
}

#[test]
fn created_bundles_can_be_opened() {
    let created = Bundle::create("/tmp/Test.library", false).unwrap();
    let opened = Bundle::open(&created.path, true).unwrap();
    assert_eq!(opened.path, created.path);
}

#[test]
fn create_over_existing_path_fails() {
    let result = Bundle::create("/tmp/Test.library", true);
    assert!(matches!(result, Err(LibraryError::Bundle(ref m))
        if m == "bundle already exists at /tmp/Test.library"));
    let bundle = Bundle::create("/tmp/Test.library", false).unwrap();
    assert_eq!(bundle.path, "/tmp/Test.library");
}

#[test]
fn open_nonexistent_bundle_fails() {
    let result = Bundle::open("/tmp/Missing.library", false);
    assert!(matches!(result, Err(LibraryError::Bundle(ref m))
        if m == "bundle not found at /tmp/Missing.library"));
}

#[test]
fn bundle_parts_lie_inside() {
    let bundle = Bundle::open("/home/a/Pictures/Moments.library", true).unwrap();
    assert_eq!(bundle.originals, "/home/a/Pictures/Moments.library/originals");
    assert_eq!(bundle.thumbnails, "/home/a/Pictures/Moments.library/thumbnails");
    assert_eq!(bundle.faces, "/home/a/Pictures/Moments.library/faces");
    assert_eq!(bundle.database, "/home/a/Pictures/Moments.library/database");
    assert_eq!(
        bundle.database_file(),
        "/home/a/Pictures/Moments.library/database/moments.db"
    );
    assert_eq!(
        Bundle::manifest_path("/home/a/Pictures/Moments.library/"),
        "/home/a/Pictures/Moments.library/library.toml"
    );
}

#[test]
fn open_sends_ready_event() {
    assert!(matches!(LocalLibrary::opening_event(), LibraryEvent::Ready));
    let library = LocalLibrary::open(Bundle::from_path("/b"), true).unwrap();
    assert_eq!(library.bundle().path, "/b");
    let refused = LocalLibrary::open(Bundle::from_path("/b"), false);
    assert!(matches!(refused, Err(LibraryError::Bundle(ref m)) if m == "event channel closed"));
}

#[test]
fn close_sends_shutdown_complete() {
    let library = LocalLibrary::open(Bundle::from_path("/b"), true).unwrap();
    assert!(matches!(library.closing_event(), LibraryEvent::ShutdownComplete));
    assert!(library.close(true).is_ok());
    assert!(matches!(library.close(false), Err(LibraryError::Bundle(_))));
    assert_eq!(
        LibraryFactory::backend(&LibraryConfig::Local {
            mode: LocalStorageMode::Managed
        }),
        Backend::Local
    );
}

#[test]
fn keyring_texts() {
    assert_eq!(
        token_label("https://immich.example.com"),
        "Moments — Immich session for https://immich.example.com"
    );
    for (action, text) in [
        (KeyringAction::Store, "failed to store token in keyring: locked"),
        (KeyringAction::Lookup, "failed to lookup token in keyring: locked"),
        (KeyringAction::Delete, "failed to delete token from keyring: locked"),
    ] {
        assert!(matches!(keyring_error(action, "locked"), LibraryError::Immich(ref m) if m == text));
    }
}

#[test]
fn open_local_bundle_returns_correct_config() {
    let path = "/tmp/Test.library";
    let created = Bundle::create(path, false).unwrap();
    let manifest = LibraryManifest::new(&LibraryConfig::Local {
        mode: LocalStorageMode::Managed,
    });
    let bundle = Bundle::open(path, true).unwrap();
    let config = LibraryConfig::from_manifest(&manifest).unwrap();
    assert_eq!(bundle.path, path);
    assert_eq!(created.database, bundle.database);
    assert!(matches!(config, LibraryConfig::Local { .. }));
}

#[test]
fn open_immich_bundle_returns_server_url() {
    let config = LibraryConfig::Immich {
        server_url: "http://immich.local:2283".to_string(),
        access_token: "secret".to_string(),
    };
    let manifest = LibraryManifest::new(&config);
    let restored = LibraryConfig::from_manifest(&manifest).unwrap();
    if let LibraryConfig::Immich { server_url, .. } = restored {
        assert_eq!(server_url, "http://immich.local:2283");
    } else {
        panic!("expected Immich config");
    }
}
