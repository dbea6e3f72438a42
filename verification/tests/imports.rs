use std::collections::BTreeMap;

use moments::config::LocalStorageMode;
use moments::error::LibraryError;
use moments::event::AppEvent;
use moments::exif::{extract_exif, ExifInfo, ShutterSpeed};
use moments::format::{
    detect_format, DetectedFormat, FormatRegistry, StandardHandler, VideoHandler,
};
use moments::immich_client::UploadResponse;
use moments::immich_importer::{
    content_checksum, file_times, settle_upload, ImmichImportJob, UploadReply, UploadResult,
    UploadState,
};
use moments::import::{FileResult, ImportProgress, ImportSummary, SkipReason};
use moments::importer::{
    collect_candidates, complete_event, date_dir, max_thumbnail_workers, progress_event,
    resolve_collision, settle, ExifNumbers, FsNode, ImportJob, ImportOutcome, ImportReply,
    ImportState, SourceFile,
};
use moments::media::{ContentHasher, MediaId, MediaRecord, MediaType};
use moments::metadata::MediaMetadataRecord;
use moments::run::{ImportRun, RunStep, UploadRun, UploadStep};
use moments::upload::UploadStatus;

fn formats() -> FormatRegistry {
    FormatRegistry::new()
        .register(&StandardHandler.extensions(), 0)
        .register(&VideoHandler.extensions(), 1)
}

fn job(mode: LocalStorageMode) -> ImportJob {
    ImportJob {
        originals_dir: "/bundle/originals".to_string(),
        mode,
        formats: formats(),
    }
}

fn numbers() -> ExifNumbers {
    ExifNumbers {
        aperture: Some(2.8f32.to_bits()),
        focal_length: None,
        gps_lat: None,
        gps_lon: None,
        gps_alt: None,
        shutter_seconds: Some("2.5".to_string()),
    }
}

fn exif(captured_at: Option<i64>) -> ExifInfo {
    ExifInfo {
        captured_at,
        width: Some(4000),
        orientation: Some(6),
        shutter: Some(ShutterSpeed::Seconds { num: 5, denom: 2 }),
        ..ExifInfo::default()
    }
}

/// A disk and a database that the machine can be run against.
struct World {
    detected: Option<DetectedFormat>,
    captured_at: Option<i64>,
    known: bool,
    taken_targets: Vec<String>,
    asked: Vec<&'static str>,
    copied_to: Option<String>,
    record: Option<MediaRecord>,
    metadata: Option<MediaMetadataRecord>,
}

impl World {
    fn new() -> Self {
        World {
            detected: Some(DetectedFormat::Unknown),
            captured_at: None,
            known: false,
            taken_targets: Vec::new(),
            asked: Vec::new(),
            copied_to: None,
            record: None,
            metadata: None,
        }
    }

    fn run(&mut self, job: &ImportJob, path: &str) -> ImportOutcome {
        let mut state = ImportJob::import_one(SourceFile::from_path(path.to_string()));
        loop {
            let (name, reply) = match &state {
                ImportState::Sniff { .. } => ("sniff", ImportReply::Sniffed(self.detected)),
                ImportState::Probe { video, .. } => (
                    "probe",
                    if *video {
                        ImportReply::Video {
                            id: MediaId::new("hash".to_string()),
                            duration_ms: Some(1500),
                        }
                    } else {
                        ImportReply::Image {
                            id: MediaId::new("hash".to_string()),
                            exif: exif(self.captured_at),
                            numbers: numbers(),
                        }
                    },
                ),
                ImportState::CheckDuplicate { .. } => ("check", ImportReply::Exists(self.known)),
                ImportState::ReadModified { .. } => ("modified", ImportReply::Modified(86_400 * 30)),
                ImportState::TryTarget { target, .. } => (
                    "try",
                    ImportReply::Exists(self.taken_targets.iter().any(|t| target.ends_with(t))),
                ),
                ImportState::Copy { target, .. } => {
                    self.copied_to = Some(target.clone());
                    ("copy", ImportReply::Stored { size: 12, now: 99 })
                }
                ImportState::ReadSize { .. } => ("size", ImportReply::Stored { size: 12, now: 99 }),
                ImportState::Insert { record, .. } => {
                    self.record = Some(record.clone());
                    ("insert", ImportReply::Done)
                }
                ImportState::InsertMetadata { metadata, .. } => {
                    self.metadata = Some(MediaMetadataRecord {
                        media_id: metadata.media_id.clone(),
                        camera_make: None,
                        camera_model: None,
                        lens_model: None,
                        aperture: metadata.aperture,
                        shutter_str: metadata.shutter_str.clone(),
                        iso: None,
                        focal_length: None,
                        gps_lat: None,
                        gps_lon: None,
                        gps_alt: None,
                        color_space: None,
                    });
                    ("metadata", ImportReply::Done)
                }
                ImportState::Finished { .. } => break,
            };
            self.asked.push(name);
            state = job.advance(state, reply);
        }
        match state {
            ImportState::Finished { outcome } => outcome,
            _ => unreachable!(),
        }
    }
}

#[test]
fn managed_imports_are_copied_and_recorded() {
    let mut world = World::new();
    world.captured_at = Some(86_400 * 365);
    let outcome = world.run(&job(LocalStorageMode::Managed), "/src/photo.jpg");
    assert!(matches!(outcome, ImportOutcome::Imported { ref media_id, ref thumbnail_source }
        if media_id.as_str() == "hash" && Some(thumbnail_source) == world.copied_to.as_ref()));
    assert_eq!(
        world.asked,
        vec!["sniff", "probe", "check", "try", "copy", "insert", "metadata"]
    );
    let record = world.record.unwrap();
    let target = world.copied_to.unwrap();
    assert_eq!(target, format!("/bundle/originals/{}", record.relative_path));
    let parts: Vec<&str> = record.relative_path.split('/').collect();
    assert_eq!(parts.len(), 4);
    assert!(parts[0] == "1970" || parts[0] == "1971");
    assert_eq!(parts[1].len(), 2);
    assert_eq!(parts[2].len(), 2);
    assert_eq!(parts[3], "photo.jpg");
    assert_eq!(record.original_filename, "photo.jpg");
    assert_eq!(record.file_size, 12);
    assert_eq!(record.imported_at, 99);
    assert_eq!(record.media_type, MediaType::Image);
    assert_eq!(record.taken_at, Some(86_400 * 365));
    assert_eq!(record.width, Some(4000));
    assert_eq!(record.height, None);
    assert_eq!(record.orientation, 6);
    assert!(!record.is_favorite && !record.is_trashed && !record.is_moments_render);
    let metadata = world.metadata.unwrap();
    assert_eq!(metadata.media_id.as_str(), "hash");
    assert_eq!(metadata.aperture, Some(2.8f32.to_bits()));
    assert_eq!(metadata.shutter_str.as_deref(), Some("2.5"));
}

#[test]
fn import_dates_by_modification_without_capture_time() {
    let mut world = World::new();
    world.run(&job(LocalStorageMode::Managed), "/src/photo.jpg");
    assert_eq!(
        world.asked,
        vec!["sniff", "probe", "check", "modified", "try", "copy", "insert", "metadata"]
    );
    assert!(world.copied_to.unwrap().contains("/originals/1970/"));
}

#[test]
fn referenced_imports_are_recorded_where_they_are() {
    let mut world = World::new();
    world.captured_at = Some(0);
    let outcome = world.run(&job(LocalStorageMode::Referenced), "/src/photo.jpg");
    assert!(matches!(outcome, ImportOutcome::Imported { ref thumbnail_source, .. }
        if thumbnail_source == "/src/photo.jpg"));
    assert_eq!(
        world.asked,
        vec!["sniff", "probe", "check", "size", "insert", "metadata"]
    );
    assert!(world.copied_to.is_none());
    assert_eq!(world.record.unwrap().relative_path, "/src/photo.jpg");
}

#[test]
fn unsupported_files_are_only_sniffed() {
    let mut world = World::new();
    let outcome = world.run(&job(LocalStorageMode::Managed), "/src/notes.txt");
    assert!(matches!(outcome, ImportOutcome::Skipped(SkipReason::UnsupportedFormat)));
    assert_eq!(world.asked, vec!["sniff"]);
}

#[test]
fn known_content_is_not_stored() {
    let mut world = World::new();
    world.known = true;
    let outcome = world.run(&job(LocalStorageMode::Managed), "/src/photo.jpg");
    assert!(matches!(outcome, ImportOutcome::Skipped(SkipReason::Duplicate)));
    assert_eq!(world.asked, vec!["sniff", "probe", "check"]);
}

#[test]
fn videos_are_recorded_with_their_duration() {
    let mut world = World::new();
    world.run(&job(LocalStorageMode::Referenced), "/src/Clip.MOV");
    let record = world.record.unwrap();
    assert_eq!(record.media_type, MediaType::Video);
    assert_eq!(record.duration_ms, Some(1500));
    assert_eq!(record.width, None);
    assert_eq!(record.orientation, 1);
}

#[test]
fn taken_names_are_numbered() {
    let mut world = World::new();
    world.captured_at = Some(0);
    world.taken_targets = vec!["/photo.jpg".to_string(), "/photo_2.jpg".to_string()];
    world.run(&job(LocalStorageMode::Managed), "/src/photo.jpg");
    assert!(world.record.unwrap().relative_path.ends_with("/photo_3.jpg"));
    assert_eq!(resolve_collision("a.b.jpg", 2), "a.b_2.jpg");
    assert_eq!(resolve_collision("plain", 10), "plain_10");
    assert_eq!(resolve_collision(".hidden", 2), ".hidden_2");
    assert_eq!(resolve_collision("photo.jpg", 1), "photo.jpg");
}

#[test]
fn a_source_without_a_name_fails() {
    let mut world = World::new();
    world.detected = Some(DetectedFormat::Image);
    world.captured_at = Some(0);
    let outcome = world.run(&job(LocalStorageMode::Managed), "/src/..");
    assert!(matches!(outcome, ImportOutcome::Failed(LibraryError::Bundle(ref m))
        if m == "source has no filename: /src/.."));
}

#[test]
fn failures_end_the_import() {
    let job = job(LocalStorageMode::Managed);
    let state = job.advance(
        ImportState::Probe {
            source: SourceFile::from_path("/a.jpg".to_string()),
            media_type: MediaType::Image,
            video: false,
        },
        ImportReply::Failed(LibraryError::Io("gone".to_string())),
    );
    assert!(matches!(state, ImportState::Finished {
        outcome: ImportOutcome::Failed(LibraryError::Io(ref m))
    } if m == "gone"));
}

#[test]
fn directories_are_walked_in_order() {
    let file = |s: &str| FsNode::File(s.to_string());
    let other = |s: &str| FsNode::Other(s.to_string());
    let sources = vec![
        file("a.jpg"),
        FsNode::Dir(vec![
            file("d/b.jpg"),
            FsNode::Dir(vec![file("d/e/c.jpg"), FsNode::Dir(vec![])]),
            other("d/link"),
            file("d/z.jpg"),
        ]),
        other("socket"),
        file("last.jpg"),
    ];
    assert_eq!(
        collect_candidates(&sources),
        vec!["a.jpg", "d/b.jpg", "d/e/c.jpg", "d/link", "d/z.jpg", "last.jpg"]
    );
}

#[test]
fn counts_add_up() {
    let outcomes = [
        ImportOutcome::Imported {
            media_id: MediaId::new("1".to_string()),
            thumbnail_source: "/1".to_string(),
        },
        ImportOutcome::Skipped(SkipReason::Duplicate),
        ImportOutcome::Skipped(SkipReason::UnsupportedFormat),
        ImportOutcome::Failed(LibraryError::Io("disk full".to_string())),
        ImportOutcome::Imported {
            media_id: MediaId::new("2".to_string()),
            thumbnail_source: "/2".to_string(),
        },
    ];
    let mut p = ImportProgress::new(outcomes.len());
    let mut errors = Vec::new();
    for (i, outcome) in outcomes.iter().enumerate() {
        assert!(!p.is_complete());
        assert_eq!(p.next_index(), i);
        if i == 3 {
            assert!(matches!(
                progress_event(&p),
                AppEvent::ImportProgress {
                    current: 4,
                    total: 5,
                    imported: 1,
                    skipped: 2,
                    failed: 0
                }
            ));
        }
        let (next, told) = settle(p, outcome);
        p = next;
        if let Some(AppEvent::Error(m)) = told {
            errors.push(m);
        }
    }
    assert!(p.is_complete());
    assert_eq!(errors, vec!["I/O error: disk full"]);
    let expected = ImportSummary {
        imported: 2,
        skipped_duplicates: 1,
        skipped_unsupported: 1,
        failed: 1,
    };
    assert!(matches!(complete_event(&p), AppEvent::ImportComplete { summary } if summary == expected));
}

#[test]
fn thumbnail_workers_are_bounded() {
    assert_eq!(max_thumbnail_workers(None), 2);
    assert_eq!(max_thumbnail_workers(Some(1)), 2);
    assert_eq!(max_thumbnail_workers(Some(5)), 2);
    assert_eq!(max_thumbnail_workers(Some(16)), 8);
}

#[test]
fn date_directories_have_their_form() {
    let dir = date_dir(1_718_474_645);
    assert!(dir.starts_with("2024/06/1"));
    assert_eq!(dir.len(), 10);
    assert_eq!(date_dir(i64::MAX).len(), 10);
}

// ── Uploads ──────────────────────────────────────────────────────────────────

struct Server {
    status: &'static str,
    queue_fails: bool,
    asked: Vec<&'static str>,
    statuses: Vec<UploadStatus>,
    device_asset_id: Option<String>,
    record: Option<MediaRecord>,
    told: Vec<String>,
}

impl Server {
    fn new(status: &'static str) -> Self {
        Server {
            status,
            queue_fails: false,
            asked: Vec::new(),
            statuses: Vec::new(),
            device_asset_id: None,
            record: None,
            told: Vec::new(),
        }
    }

    fn queue_reply(&self) -> UploadReply {
        if self.queue_fails {
            UploadReply::Failed(LibraryError::Db("locked".to_string()))
        } else {
            UploadReply::Done
        }
    }

    fn run(&mut self, path: &str) -> UploadResult {
        let job = ImmichImportJob { formats: formats() };
        let mut state = ImmichImportJob::upload_one(SourceFile::from_path(path.to_string()));
        loop {
            let (name, reply) = match &state {
                UploadState::Sniff { .. } => ("sniff", UploadReply::Sniffed(None)),
                UploadState::Hash { .. } => ("hash", UploadReply::Hashed(content_checksum(b"abc"))),
                UploadState::StoreHash { .. } => ("store", self.queue_reply()),
                UploadState::ReadTimes { .. } => (
                    "times",
                    UploadReply::Times {
                        created: Some(0),
                        modified: None,
                    },
                ),
                UploadState::Upload { request, .. } => {
                    self.device_asset_id = Some(request.device_asset_id.clone());
                    assert_eq!(request.file_created_at, "1970-01-01T00:00:00+00:00");
                    (
                        "upload",
                        UploadReply::Uploaded(UploadResponse {
                            id: "srv-1".to_string(),
                            status: self.status.to_string(),
                        }),
                    )
                }
                UploadState::ReadSize { .. } => ("size", UploadReply::Size { size: 3, now: 50 }),
                UploadState::Upsert { record, .. } => {
                    self.record = Some(record.clone());
                    ("upsert", UploadReply::Done)
                }
                UploadState::SetStatus { status, .. } => {
                    self.statuses.push(*status);
                    ("status", self.queue_reply())
                }
                UploadState::Finished { .. } => break,
            };
            self.asked.push(name);
            let (next, told) = job.advance(state, reply);
            if let Some(AppEvent::AssetSynced { item }) = told {
                self.told.push(item.id.to_string());
            }
            state = next;
        }
        match state {
            UploadState::Finished { result } => result,
            _ => unreachable!(),
        }
    }
}

#[test]
fn created_uploads_are_cached_and_told() {
    let mut server = Server::new("created");
    server.queue_fails = true;
    assert!(matches!(server.run("/src/Clip.MP4"), UploadResult::Created));
    assert_eq!(
        server.asked,
        vec!["sniff", "hash", "store", "times", "upload", "size", "upsert", "status"]
    );
    assert_eq!(server.statuses, vec![UploadStatus::Uploaded]);
    assert_eq!(server.told, vec!["srv-1"]);
    assert_eq!(
        server.device_asset_id.as_deref(),
        Some("Clip.MP4-a9993e364706816aba3e25717850c26c9cd0d89d")
    );
    let record = server.record.unwrap();
    assert_eq!(record.id.as_str(), "srv-1");
    assert_eq!(record.relative_path, "immich/srv-1");
    assert_eq!(record.original_filename, "Clip.MP4");
    assert_eq!(record.media_type, MediaType::Video);
    assert_eq!(record.file_size, 3);
    assert_eq!(record.imported_at, 50);
    assert_eq!(record.orientation, 1);
}

#[test]
fn duplicate_uploads_are_not_cached() {
    let mut server = Server::new("duplicate");
    assert!(matches!(server.run("/src/a.jpg"), UploadResult::Duplicate));
    assert_eq!(server.statuses, vec![UploadStatus::Skipped]);
    assert!(server.record.is_none());
    assert!(server.told.is_empty());
}

#[test]
fn unsupported_files_are_not_read() {
    let mut server = Server::new("created");
    assert!(matches!(server.run("/src/a.txt"), UploadResult::Unsupported));
    assert_eq!(server.asked, vec!["sniff", "status"]);
    assert_eq!(server.statuses, vec![UploadStatus::Skipped]);
}

#[test]
fn upload_results_are_counted() {
    assert_eq!(settle_upload(&UploadResult::Created).0, FileResult::Imported);
    assert_eq!(
        settle_upload(&UploadResult::Duplicate).0,
        FileResult::Skipped(SkipReason::Duplicate)
    );
    assert_eq!(
        settle_upload(&UploadResult::Unsupported),
        (FileResult::Skipped(SkipReason::UnsupportedFormat), None)
    );
    let (counted, error) =
        settle_upload(&UploadResult::Failed(LibraryError::Immich("upload failed: x".to_string())));
    assert_eq!(counted, FileResult::Failed);
    assert_eq!(error.as_deref(), Some("immich error: upload failed: x"));
    let (created, modified) = file_times(Some(1_718_474_645), Some(u64::MAX / 4));
    assert_eq!(created, "2024-06-15T18:04:05+00:00");
    assert!(modified.len() > 20);
    let (created, modified) = file_times(None, None);
    assert!(created.len() > 20);
    assert_eq!(created, modified);
}

#[test]
fn failed_uploads_are_kept_in_the_queue() {
    let job = ImmichImportJob { formats: formats() };
    let source = || SourceFile::from_path("/src/a.jpg".to_string());
    let error = || UploadReply::Failed(LibraryError::Immich("upload failed: x".to_string()));
    let request = || moments::immich_importer::UploadRequest {
        file_name: "a.jpg".to_string(),
        device_asset_id: "a.jpg-h".to_string(),
        file_created_at: String::new(),
        file_modified_at: String::new(),
        checksum: "h".to_string(),
    };
    for state in [
        UploadState::Hash { source: source() },
        UploadState::Upload { source: source(), request: request() },
    ] {
        let (next, told) = job.advance(state, error());
        assert!(told.is_none());
        let st = next.queue_statement().unwrap();
        assert_eq!(
            st.to_sql(),
            "UPDATE upload_queue SET status = ?, error_msg = ? WHERE file_path = ?"
        );
        assert_eq!(
            format!("{:?}", st.into_binds()),
            "[Int(2), Text(\"immich error: upload failed: x\"), Text(\"/src/a.jpg\")]"
        );
        let (end, _) = job.advance(next, UploadReply::Done);
        assert!(matches!(end, UploadState::Finished { result: UploadResult::Failed(_) }));
        assert!(end.queue_statement().is_none());
    }
    let hash = UploadState::StoreHash { source: source(), checksum: "h".to_string() };
    assert_eq!(
        hash.queue_statement().unwrap().to_sql(),
        "UPDATE upload_queue SET sha1_hash = ? WHERE file_path = ?"
    );
}

#[test]
fn uploads_are_queued_first_and_cleared_last() {
    let files = vec!["/a.jpg".to_string(), "/b.jpg".to_string()];
    let mut run = UploadRun::begin(files, 7);
    let mut seen = Vec::new();
    loop {
        run = match run.step() {
            UploadStep::Queue(st) => {
                seen.push(format!("queue {:?}", st.into_binds()));
                run.after_queueing()
            }
            UploadStep::File { path, event } => {
                assert!(matches!(event, AppEvent::ImportProgress { total: 2, .. }));
                seen.push(path);
                let failed = UploadResult::Failed(LibraryError::Io("gone".to_string()));
                run.settle(&failed)
            }
            UploadStep::Clear(st) => {
                seen.push(st.to_sql());
                run.after_clearing()
            }
            UploadStep::Complete { event } => {
                assert!(matches!(event, AppEvent::ImportComplete { summary }
                    if summary.failed == 2 && summary.imported == 0));
                break;
            }
        };
    }
    assert_eq!(
        seen,
        vec![
            "queue [Text(\"/a.jpg\"), Int(7)]".to_string(),
            "queue [Text(\"/b.jpg\"), Int(7)]".to_string(),
            "/a.jpg".to_string(),
            "/b.jpg".to_string(),
            "DELETE FROM upload_queue WHERE status IN (1, 3)".to_string(),
        ]
    );
}

// ── Whole imports ────────────────────────────────────────────────────────────

/// A library in memory: the files on disk, and the rows of the database.
struct Shelf {
    mode: LocalStorageMode,
    files: BTreeMap<String, Vec<u8>>,
    copies: Vec<String>,
    rows: Vec<MediaRecord>,
    events: Vec<AppEvent>,
}

impl Shelf {
    fn new(mode: LocalStorageMode) -> Self {
        Shelf {
            mode,
            files: BTreeMap::new(),
            copies: Vec::new(),
            rows: Vec::new(),
            events: Vec::new(),
        }
    }

    fn make_file(&mut self, dir: &str, name: &str, content: &[u8]) -> FsNode {
        let path = format!("{dir}/{name}");
        self.files.insert(path.clone(), content.to_vec());
        FsNode::File(path)
    }

    fn perform(&mut self, state: &ImportState) -> ImportReply {
        match state {
            ImportState::Sniff { source } => {
                ImportReply::Sniffed(Some(detect_format(&self.files[&source.path])))
            }
            ImportState::Probe { source, video, .. } => {
                let bytes = &self.files[&source.path];
                let mut hasher = ContentHasher::new();
                hasher.update(bytes);
                let id = hasher.media_id();
                if *video {
                    ImportReply::Video { id, duration_ms: None }
                } else {
                    ImportReply::Image { id, exif: extract_exif(bytes), numbers: numbers() }
                }
            }
            ImportState::CheckDuplicate { file } => {
                ImportReply::Exists(self.rows.iter().any(|r| r.id.as_str() == file.id.as_str()))
            }
            ImportState::ReadModified { .. } => ImportReply::Modified(86_400 * 30),
            ImportState::TryTarget { target, .. } => ImportReply::Exists(self.copies.contains(target)),
            ImportState::Copy { file, target, .. } => {
                self.copies.push(target.clone());
                let size = self.files[&file.source.path].len() as u64;
                ImportReply::Stored { size, now: 1 }
            }
            ImportState::ReadSize { file } => {
                let size = self.files[&file.source.path].len() as u64;
                ImportReply::Stored { size, now: 1 }
            }
            ImportState::Insert { record, .. } => {
                self.rows.push(record.clone());
                ImportReply::Done
            }
            _ => ImportReply::Done,
        }
    }

    /// Imports files and directories.
    fn import(&mut self, sources: Vec<FsNode>) -> ImportSummary {
        let job = job(self.mode);
        let mut run = ImportRun::begin(collect_candidates(&sources));
        loop {
            match run.step() {
                RunStep::File { path, event } => {
                    self.events.push(event);
                    let mut state = ImportJob::import_one(SourceFile::from_path(path));
                    let outcome = loop {
                        if let ImportState::Finished { outcome } = state {
                            break outcome;
                        }
                        let reply = self.perform(&state);
                        state = job.advance(state, reply);
                    };
                    let (next, error) = run.settle(&outcome);
                    run = next;
                    self.events.extend(error);
                }
                RunStep::Complete { event } => {
                    let summary = match &event {
                        AppEvent::ImportComplete { summary } => *summary,
                        other => panic!("{other:?}"),
                    };
                    self.events.push(event);
                    return summary;
                }
            }
        }
    }
}

#[test]
fn import_copies_jpeg_into_originals() {
    let mut shelf = Shelf::new(LocalStorageMode::Managed);
    let photo = shelf.make_file("/src", "photo.jpg", b"fake jpeg");
    assert_eq!(shelf.import(vec![photo]).imported, 1);
    assert_eq!(shelf.copies.len(), 1);
    assert!(shelf.copies[0].starts_with("/bundle/originals/"));
    assert!(shelf.copies[0].ends_with("/photo.jpg"));
}

#[test]
fn referenced_import_does_not_copy_and_stores_absolute_path() {
    let mut shelf = Shelf::new(LocalStorageMode::Referenced);
    let photo = shelf.make_file("/src", "ref.jpg", b"referenced jpeg");
    assert_eq!(shelf.import(vec![photo]).imported, 1);
    assert!(shelf.copies.is_empty());
    assert_eq!(shelf.rows.len(), 1);
    assert_eq!(shelf.rows[0].relative_path, "/src/ref.jpg");
}

#[test]
fn unsupported_extension_is_skipped() {
    let mut shelf = Shelf::new(LocalStorageMode::Managed);
    let file = shelf.make_file("/src", "document.pdf", b"not a photo");
    let summary = shelf.import(vec![file]);
    assert_eq!(summary.imported, 0);
    assert_eq!(summary.skipped_unsupported, 1);
}

#[test]
fn same_content_is_skipped_on_second_import() {
    let mut shelf = Shelf::new(LocalStorageMode::Managed);
    let photo = shelf.make_file("/src", "dup.jpg", b"fake jpeg content");
    let photo2 = shelf.make_file("/src", "dup_renamed.jpg", b"fake jpeg content");
    assert_eq!(shelf.import(vec![photo]).imported, 1);
    assert_eq!(shelf.import(vec![photo2]).skipped_duplicates, 1);
}

#[test]
fn directory_sources_are_walked_recursively() {
    let mut shelf = Shelf::new(LocalStorageMode::Managed);
    let a = shelf.make_file("/src", "a.jpg", b"photo a");
    let b = shelf.make_file("/src/sub", "b.png", b"photo b");
    let skip = shelf.make_file("/src", "skip.txt", b"text");
    let summary = shelf.import(vec![FsNode::Dir(vec![a, FsNode::Dir(vec![b]), skip])]);
    assert_eq!(summary.imported, 2);
    assert_eq!(summary.skipped_unsupported, 1);
    let told: Vec<bool> = shelf
        .events
        .iter()
        .map(|e| matches!(e, AppEvent::ImportComplete { .. }))
        .collect();
    assert_eq!(told, vec![false, false, false, true]);
    assert!(matches!(
        shelf.events[2],
        AppEvent::ImportProgress { current: 3, total: 3, imported: 2, .. }
    ));
}

#[test]
fn video_file_is_imported_as_video_type() {
    let mut shelf = Shelf::new(LocalStorageMode::Managed);
    let clip = shelf.make_file("/src", "clip.mp4", b"fake video");
    assert_eq!(shelf.import(vec![clip]).imported, 1);
    assert_eq!(shelf.rows.len(), 1);
    assert_eq!(shelf.rows[0].media_type, MediaType::Video);
}
