use moments::error::{LibraryError, UserMessage};
use moments::event::LibraryEvent;
use moments::import::{ImportSummary, SkipReason};
use moments::media::MediaId;

#[test]
fn error_io_error_conversion() {
    let err = LibraryError::Io("file not found".to_string());
    assert!(err.to_string().contains("I/O error"));
}

#[test]
fn error_bundle_error_message() {
    let err = LibraryError::Bundle("corrupt header".to_string());
    assert!(err.to_string().contains("Bundle error"));
    assert!(err.to_string().contains("corrupt header"));
}

#[test]
fn error_backend_not_supported_message() {
    let err = LibraryError::BackendNotSupported;
    assert!(err.to_string().contains("Backend not supported"));
}

#[test]
fn error_invalid_backend_includes_name() {
    let err = LibraryError::InvalidBackend("s3".to_string());
    assert!(err.to_string().contains("s3"));
    assert_eq!(err.to_string(), "unknown backend type 's3' in library.toml");
}

#[test]
fn mod_io_error_conversion() {
    let err = LibraryError::Io("file not found".to_string());
    assert_eq!(err.to_string(), "I/O error: file not found");
}

#[test]
fn mod_bundle_error_message() {
    let err = LibraryError::Bundle("corrupt header".to_string());
    assert_eq!(err.to_string(), "Bundle error: corrupt header");
}

#[test]
fn mod_backend_not_supported_message() {
    assert_eq!(LibraryError::BackendNotSupported.to_string(), "Backend not supported");
}

#[test]
fn mod_invalid_backend_includes_name() {
    let err = LibraryError::InvalidBackend("s3".to_string());
    assert!(err.to_string().contains("s3"));
}

#[test]
fn every_error_has_its_words() {
    let m = || "x".to_string();
    assert_eq!(LibraryError::Db(m()).to_string(), "database error: x");
    assert_eq!(LibraryError::Runtime(m()).to_string(), "runtime error: x");
    assert_eq!(LibraryError::Thumbnail(m()).to_string(), "thumbnail error: x");
    assert_eq!(LibraryError::Render(m()).to_string(), "render error: x");
    assert_eq!(LibraryError::Immich(m()).to_string(), "immich error: x");
    assert_eq!(LibraryError::Connectivity(m()).to_string(), "server unreachable: x");
}

#[test]
fn user_facing_db_is_non_technical() {
    let err = LibraryError::Db("RowNotFound".to_string());
    match err.to_user_facing() {
        UserMessage::Localized(msg) => {
            assert!(!msg.contains("RowNotFound"));
            assert!(!msg.is_empty());
            assert_eq!(msg, "A database error occurred");
        }
        UserMessage::Verbatim(_) => panic!("technical"),
    }
    assert!(matches!(
        LibraryError::Io("EACCES".to_string()).to_user_facing(),
        UserMessage::Localized(ref m) if m == "Could not read or write file"
    ));
}

#[test]
fn user_facing_runtime_is_non_technical() {
    let err = LibraryError::Runtime("task panicked".to_string());
    match err.to_user_facing() {
        UserMessage::Localized(msg) => {
            assert!(!msg.contains("panicked"));
            assert!(!msg.is_empty());
        }
        UserMessage::Verbatim(_) => panic!("technical"),
    }
}

#[test]
fn user_facing_fallback_uses_display() {
    let err = LibraryError::Bundle("corrupt header".to_string());
    match err.to_user_facing() {
        UserMessage::Verbatim(msg) => assert_eq!(msg, err.to_string()),
        UserMessage::Localized(_) => panic!("not the error's own text"),
    }
}

#[test]
fn ready_event_is_debug() {
    let event = LibraryEvent::Ready;
    assert!(format!("{event:?}").contains("Ready"));
}

#[test]
fn shutdown_complete_is_debug() {
    let event = LibraryEvent::ShutdownComplete;
    assert!(format!("{event:?}").contains("ShutdownComplete"));
}

#[test]
fn error_event_wraps_library_error() {
    let event = LibraryEvent::Error(LibraryError::Bundle("test".to_string()));
    assert!(format!("{event:?}").contains("Error"));
}

#[test]
fn asset_imported_contains_path() {
    let event = LibraryEvent::AssetImported {
        media_id: MediaId::new("abc123".to_string()),
        path: "/tmp/photo.jpg".to_string(),
    };
    assert!(format!("{event:?}").contains("AssetImported"));
}

#[test]
fn import_progress_contains_counts() {
    let event = LibraryEvent::ImportProgress {
        current: 3,
        total: 10,
        imported: 2,
        skipped: 1,
        failed: 0,
    };
    assert!(format!("{event:?}").contains("ImportProgress"));
}

#[test]
fn import_complete_contains_summary() {
    let event = LibraryEvent::ImportComplete(ImportSummary::default());
    assert!(format!("{event:?}").contains("ImportComplete"));
}

#[test]
fn import_summary_default_is_zero() {
    let s = ImportSummary::default();
    assert_eq!(s.imported, 0);
    assert_eq!(s.skipped_duplicates, 0);
    assert_eq!(s.skipped_unsupported, 0);
    assert_eq!(s.failed, 0);
}

#[test]
fn skip_reason_variants_are_distinct() {
    assert_ne!(SkipReason::Duplicate, SkipReason::UnsupportedFormat);
}
