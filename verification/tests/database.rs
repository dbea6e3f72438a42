use sqlx::sqlite::{SqliteArguments, SqlitePool, SqlitePoolOptions, SqliteRow};
use sqlx::Row;

use moments::album::repository::{albums_containing_media, AlbumRepository};
use moments::album::service::AlbumService;
use moments::album::{album_from_row, Album, AlbumEvent, AlbumId, AlbumRow};
use moments::commands::CommandState;
use moments::editing::EditingRepository;
use moments::error::LibraryError;
use moments::event::AppEvent;
use moments::faces::repository::FacesRepository;
use moments::faces::service::FacesService;
use moments::faces::{
    person_from_row, AssetFaceRow, FacesEvent, Person, PersonId, PersonRecord, PersonRow,
};
use moments::format::FormatRegistry;
use moments::immich_importer::{ImmichImportJob, UploadReply, UploadResult, UploadState};
use moments::importer::SourceFile;
use moments::media::flow::{DeletionReply, DeletionState, UpsertReply, UpsertState};
use moments::media::repository::{library_stats, LibraryStats, MediaRepository};
use moments::media::service::MediaService;
use moments::media::{
    MediaCursor, MediaEvent, MediaFilter, MediaId, MediaItem, MediaRecord, MediaRow, MediaType,
    Stack,
};
use moments::metadata::{MediaMetadataRecord, MetadataRepository, MetadataRow};
use moments::mutation::Mutation;
use moments::run::{UploadRun, UploadStep};
use moments::sql::{Bind, Statement};
use moments::sync::SyncRepository;
use moments::thumbnail::{ThumbnailRepository, ThumbnailStatus};
use moments::upload::{UploadQueue, UploadStatus};

const SCHEMA: [&str; 12] = [
    "CREATE TABLE media (
        id TEXT PRIMARY KEY,
        content_hash TEXT,
        external_id TEXT UNIQUE,
        relative_path TEXT NOT NULL,
        original_filename TEXT NOT NULL,
        file_size INTEGER NOT NULL,
        imported_at INTEGER NOT NULL,
        media_type INTEGER NOT NULL,
        taken_at INTEGER,
        width INTEGER,
        height INTEGER,
        orientation INTEGER NOT NULL DEFAULT 1,
        duration_ms INTEGER,
        is_favorite INTEGER NOT NULL DEFAULT 0,
        is_trashed INTEGER NOT NULL DEFAULT 0,
        trashed_at INTEGER,
        is_moments_render INTEGER NOT NULL DEFAULT 0,
        last_seen_at INTEGER NOT NULL DEFAULT 0,
        stack_id TEXT REFERENCES stacks(id) ON DELETE SET NULL
    )",
    "CREATE TABLE stacks (
        id TEXT PRIMARY KEY,
        primary_asset_id TEXT NOT NULL REFERENCES media(id) ON DELETE CASCADE,
        last_seen_at INTEGER NOT NULL DEFAULT 0
    )",
    "CREATE TABLE albums (
        id TEXT PRIMARY KEY,
        name TEXT NOT NULL,
        created_at INTEGER NOT NULL,
        updated_at INTEGER NOT NULL,
        external_id TEXT,
        is_pinned INTEGER NOT NULL DEFAULT 0,
        last_seen_at INTEGER NOT NULL DEFAULT 0
    )",
    "CREATE TABLE album_media (
        album_id TEXT NOT NULL REFERENCES albums(id),
        media_id TEXT NOT NULL REFERENCES media(id),
        added_at INTEGER NOT NULL,
        PRIMARY KEY (album_id, media_id)
    )",
    "CREATE TABLE people (
        id TEXT PRIMARY KEY,
        name TEXT NOT NULL,
        birth_date TEXT,
        is_hidden INTEGER NOT NULL DEFAULT 0,
        is_favorite INTEGER NOT NULL DEFAULT 0,
        color TEXT,
        face_asset_id TEXT,
        face_count INTEGER NOT NULL DEFAULT 0,
        synced_at INTEGER NOT NULL,
        external_id TEXT,
        last_seen_at INTEGER NOT NULL DEFAULT 0
    )",
    "CREATE TABLE asset_faces (
        id TEXT PRIMARY KEY,
        asset_id TEXT NOT NULL REFERENCES media(id),
        person_id TEXT REFERENCES people(id) ON DELETE SET NULL,
        image_width INTEGER NOT NULL,
        image_height INTEGER NOT NULL,
        bbox_x1 INTEGER NOT NULL,
        bbox_y1 INTEGER NOT NULL,
        bbox_x2 INTEGER NOT NULL,
        bbox_y2 INTEGER NOT NULL,
        source_type TEXT NOT NULL,
        is_visible INTEGER NOT NULL DEFAULT 1,
        deleted_at INTEGER,
        last_seen_at INTEGER NOT NULL DEFAULT 0
    )",
    "CREATE TABLE media_metadata (
        media_id TEXT PRIMARY KEY REFERENCES media(id),
        camera_make TEXT,
        camera_model TEXT,
        lens_model TEXT,
        aperture REAL,
        shutter_str TEXT,
        iso INTEGER,
        focal_length REAL,
        gps_lat REAL,
        gps_lon REAL,
        gps_alt REAL,
        color_space TEXT
    )",
    "CREATE TABLE edits (
        media_id TEXT PRIMARY KEY REFERENCES media(id),
        edit_json TEXT NOT NULL,
        updated_at INTEGER NOT NULL,
        rendered_at INTEGER,
        server_rendered_asset_id TEXT
    )",
    "CREATE TABLE thumbnails (
        media_id TEXT PRIMARY KEY REFERENCES media(id),
        status INTEGER NOT NULL,
        file_path TEXT,
        generated_at INTEGER
    )",
    "CREATE TABLE upload_queue (
        file_path TEXT PRIMARY KEY,
        status INTEGER NOT NULL,
        sha1_hash TEXT,
        error_msg TEXT,
        created_at INTEGER NOT NULL
    )",
    "CREATE TABLE sync_checkpoints (entity_type TEXT PRIMARY KEY, ack TEXT NOT NULL)",
    "CREATE TABLE sync_audit (
        id INTEGER PRIMARY KEY,
        entity_type TEXT NOT NULL,
        entity_id TEXT NOT NULL,
        action TEXT NOT NULL,
        error_msg TEXT,
        started_at TEXT NOT NULL,
        completed_at TEXT,
        sync_cycle TEXT NOT NULL
    )",
];

/// A database in memory that runs the library's statements.
struct Db {
    rt: tokio::runtime::Runtime,
    pool: SqlitePool,
}

fn prepared(sql: &str, binds: Vec<Bind>) -> sqlx::query::Query<'_, sqlx::Sqlite, SqliteArguments<'_>> {
    let mut q = sqlx::query(sql);
    for bind in binds {
        q = match bind {
            Bind::Null => q.bind(None::<i64>),
            Bind::Int(n) => q.bind(n),
            Bind::Text(s) => q.bind(s),
            Bind::Real32(b) => q.bind(f32::from_bits(b)),
            Bind::Real64(b) => q.bind(f64::from_bits(b)),
        };
    }
    q
}

impl Db {
    fn open() -> Self {
        let rt = tokio::runtime::Builder::new_current_thread()
            .enable_all()
            .build()
            .unwrap();
        let pool = rt
            .block_on(
                SqlitePoolOptions::new()
                    .max_connections(1)
                    .connect("sqlite::memory:"),
            )
            .unwrap();
        let db = Db { rt, pool };
        for table in SCHEMA {
            db.raw(table);
        }
        db
    }

    fn raw(&self, sql: &str) {
        self.rt
            .block_on(sqlx::query(sql).execute(&self.pool))
            .unwrap();
    }

    fn try_exec(&self, st: Statement) -> Result<u64, sqlx::Error> {
        let text = st.to_sql();
        let q = prepared(&text, st.into_binds());
        self.rt
            .block_on(q.execute(&self.pool))
            .map(|r| r.rows_affected())
    }

    fn exec(&self, st: Statement) -> u64 {
        self.try_exec(st).unwrap()
    }

    fn exec_all(&self, statements: Vec<Statement>) {
        self.rt.block_on(async {
            let mut tx = self.pool.begin().await.unwrap();
            for st in statements {
                let text = st.to_sql();
                prepared(&text, st.into_binds())
                    .execute(&mut *tx)
                    .await
                    .unwrap();
            }
            tx.commit().await.unwrap();
        });
    }

    fn rows(&self, st: Statement) -> Vec<SqliteRow> {
        let text = st.to_sql();
        let q = prepared(&text, st.into_binds());
        self.rt.block_on(q.fetch_all(&self.pool)).unwrap()
    }

    fn texts(&self, st: Statement) -> Vec<String> {
        self.rows(st).iter().map(|r| r.get(0)).collect()
    }

    fn number(&self, sql: &str) -> i64 {
        self.rt
            .block_on(sqlx::query_scalar(sql).fetch_one(&self.pool))
            .unwrap()
    }

    fn text(&self, sql: &str) -> Option<String> {
        self.rt
            .block_on(sqlx::query_scalar(sql).fetch_one(&self.pool))
            .unwrap()
    }

    // ── Media ────────────────────────────────────────────────────────────────

    fn insert(&self, r: &MediaRecord) {
        self.exec(MediaRepository::insert(r));
    }

    fn holds(&self, id: &MediaId) -> bool {
        !self.rows(MediaRepository::exists_by_id(id)).is_empty()
    }

    fn items(&self, st: Statement) -> Vec<MediaItem> {
        self.rows(st)
            .iter()
            .map(|r| {
                MediaRow {
                    id: r.get(0),
                    taken_at: r.get(1),
                    imported_at: r.get(2),
                    original_filename: r.get(3),
                    width: r.get(4),
                    height: r.get(5),
                    orientation: r.get(6),
                    media_type: r.get(7),
                    is_favorite: r.get(8),
                    is_trashed: r.get(9),
                    trashed_at: r.get(10),
                    duration_ms: r.get(11),
                    stack_id: r.get(12),
                    is_moments_render: r.get(13),
                }
                .into_item()
            })
            .collect()
    }

    fn list(&self, filter: MediaFilter, cursor: Option<MediaCursor>, limit: u32) -> Vec<MediaItem> {
        self.items(MediaRepository::list(&filter, &cursor, limit))
    }

    fn get(&self, id: &MediaId) -> Option<MediaItem> {
        self.items(MediaRepository::get(id)).pop()
    }

    fn ids(&self, st: Statement) -> Vec<MediaId> {
        self.texts(st).into_iter().map(MediaId::new).collect()
    }

    /// Stores an asset that came from the server. Returns what subscribers are told.
    fn sync(&self, r: &MediaRecord) -> MediaEvent {
        let mut state = UpsertState::begin(r.clone());
        loop {
            let rows = match state.statement() {
                Some(st) => self.rows(st),
                None => break,
            };
            let reply = match &state {
                UpsertState::Look { .. } => UpsertReply::Found(!rows.is_empty()),
                UpsertState::ReadTime { .. } => {
                    UpsertReply::ImportedAt(rows.first().map(|row| row.get(0)))
                }
                UpsertState::Displace { .. } => {
                    UpsertReply::Displaced(rows.first().map(|row| (row.get(0), row.get(1))))
                }
                _ => UpsertReply::Done,
            };
            state = state.advance(reply);
        }
        match state {
            UpsertState::Finished { event } => event,
            other => panic!("{other:?}"),
        }
    }

    /// Stores an asset that came from the server. Returns the row that it displaced.
    fn upsert(&self, r: &MediaRecord) -> Option<MediaId> {
        match self.sync(r) {
            MediaEvent::Replaced { old, .. } => Some(old),
            _ => None,
        }
    }

    /// Deletes assets for good. Returns what subscribers and the server are told.
    fn delete(&self, ids: &[MediaId], report: bool) -> (Vec<MediaEvent>, Option<Mutation>) {
        let mut state = DeletionState::begin(ids.to_vec(), report);
        loop {
            let reply = match &state {
                DeletionState::ReadServerIds { .. } => DeletionReply::ServerIds(
                    state
                        .query()
                        .map(|st| self.rows(st))
                        .unwrap_or_default()
                        .iter()
                        .map(|r| (r.get(0), r.get(1)))
                        .collect(),
                ),
                DeletionState::ReadFreed { .. } => DeletionReply::Freed(
                    state
                        .query()
                        .map(|st| self.ids(st))
                        .unwrap_or_default(),
                ),
                DeletionState::Delete { .. } => {
                    self.exec_all(state.statements());
                    DeletionReply::Done
                }
                _ => break,
            };
            state = state.advance(reply);
        }
        match state {
            DeletionState::Finished { events, mutation } => (events, mutation),
            other => panic!("{other:?}"),
        }
    }

    fn bind_to_stack(&self, id: &MediaId, stack: &str) -> Option<MediaEvent> {
        let n = self.exec(MediaRepository::set_media_stack_id(id, stack));
        MediaService::stack_id_set(id, n > 0)
    }

    fn stack(&self, id: &str, primary: &MediaId) {
        self.exec(MediaRepository::upsert_stack(&Stack {
            id: id.to_string(),
            primary_asset_id: primary.clone(),
        }));
    }

    fn stats(&self) -> LibraryStats {
        let m = &self.rows(MediaRepository::media_stats())[0];
        let albums: i64 = self.rows(MediaRepository::album_stats())[0].get(0);
        let people: i64 = self.rows(MediaRepository::people_stats())[0].get(0);
        library_stats((m.get(0), m.get(1), m.get(2), m.get(3)), albums, people)
    }

    // ── Albums ───────────────────────────────────────────────────────────────

    fn create_album(&self, name: &str) -> AlbumId {
        let id = AlbumId::new();
        self.exec(AlbumRepository::create(&id, name, 1_000));
        id
    }

    fn album_rows(&self, st: Statement) -> Vec<Album> {
        self.rows(st)
            .iter()
            .map(|r| {
                album_from_row(AlbumRow {
                    id: r.get(0),
                    name: r.get(1),
                    created_at: r.get(2),
                    updated_at: r.get(3),
                    media_count: r.get(4),
                    cover_media_id: r.get(5),
                    is_pinned: r.get(6),
                })
            })
            .collect()
    }

    fn albums(&self) -> Vec<Album> {
        self.album_rows(AlbumRepository::list())
    }

    fn album(&self, id: &AlbumId) -> Option<Album> {
        self.album_rows(AlbumRepository::get(id)).pop()
    }

    fn add_media(&self, album: &AlbumId, ids: &[MediaId]) {
        self.exec_all(AlbumRepository::add_media(album, &ids.to_vec(), 2_000));
    }

    fn album_media(&self, id: &AlbumId, cursor: Option<MediaCursor>, limit: u32) -> Vec<MediaItem> {
        self.items(AlbumRepository::list_media(id, &cursor, limit))
    }

    fn containing(&self, ids: &[MediaId]) -> Vec<(AlbumId, usize)> {
        match AlbumRepository::containing_media(&ids.to_vec()) {
            Some(st) => albums_containing_media(
                self.rows(st)
                    .iter()
                    .map(|r| (r.get(0), r.get(1)))
                    .collect(),
            ),
            None => Vec::new(),
        }
    }

    // ── People ───────────────────────────────────────────────────────────────

    fn person(&self, id: &str, name: &str, hidden: bool) {
        self.exec(FacesRepository::upsert_person(
            &PersonRecord {
                id: id.to_string(),
                name: name.to_string(),
                birth_date: None,
                is_hidden: hidden,
                is_favorite: false,
                color: None,
                face_asset_id: None,
                external_id: None,
            },
            5,
        ));
    }

    fn people(&self) -> Vec<Person> {
        self.rows(FacesRepository::list_people())
            .iter()
            .map(|r| {
                person_from_row(PersonRow {
                    id: r.get(0),
                    name: r.get(1),
                    face_count: r.get(2),
                    is_hidden: r.get(3),
                })
            })
            .collect()
    }

    fn face(&self, face: &AssetFaceRow) {
        self.exec(FacesRepository::upsert_asset_face(face));
    }

    fn count_faces(&self, person: &str) {
        self.exec(FacesRepository::update_face_count(person));
    }

    fn media_of(&self, person: &str) -> Vec<String> {
        self.texts(FacesRepository::list_media_for_person(person))
    }

    fn effective_person(&self, face: &str) -> Option<String> {
        self.rows(FacesRepository::get_asset_face_effective_person_id(face))
            .first()
            .and_then(|r| r.get(0))
    }

    // ── Metadata ─────────────────────────────────────────────────────────────

    fn metadata(&self, id: &MediaId) -> Option<MediaMetadataRecord> {
        self.rows(MetadataRepository::get(id)).first().map(|r| {
            MetadataRepository::from_row(
                id,
                MetadataRow {
                    camera_make: r.get(0),
                    camera_model: r.get(1),
                    lens_model: r.get(2),
                    aperture: r.get::<Option<f32>, _>(3).map(f32::to_bits),
                    shutter_str: r.get(4),
                    iso: r.get(5),
                    focal_length: r.get::<Option<f32>, _>(6).map(f32::to_bits),
                    gps_lat: r.get::<Option<f64>, _>(7).map(f64::to_bits),
                    gps_lon: r.get::<Option<f64>, _>(8).map(f64::to_bits),
                    gps_alt: r.get::<Option<f64>, _>(9).map(f64::to_bits),
                    color_space: r.get(10),
                },
            )
        })
    }

    fn maybe(&self, st: Option<Statement>) {
        if let Some(st) = st {
            self.exec(st);
        }
    }
}

fn id(s: &str) -> MediaId {
    MediaId::new(s.to_string())
}

fn long_id(s: &str) -> MediaId {
    MediaId::new(s.repeat(64))
}

fn test_record(id: MediaId) -> MediaRecord {
    MediaRecord {
        id,
        content_hash: None,
        external_id: None,
        relative_path: "2025/01/15/photo.jpg".to_string(),
        original_filename: "photo.jpg".to_string(),
        file_size: 1024,
        imported_at: 1_700_000_000,
        media_type: MediaType::Image,
        taken_at: None,
        width: None,
        height: None,
        orientation: 1,
        duration_ms: None,
        is_favorite: false,
        is_trashed: false,
        trashed_at: None,
        is_moments_render: false,
    }
}

fn record_with_taken_at(id: MediaId, path: &str, taken_at: Option<i64>) -> MediaRecord {
    MediaRecord {
        relative_path: path.to_string(),
        original_filename: path.split('/').next_back().unwrap_or("photo.jpg").to_string(),
        file_size: 512,
        taken_at,
        width: Some(1920),
        height: Some(1080),
        ..test_record(id)
    }
}

fn face_row(id: &str, asset_id: &str, person_id: Option<&str>) -> AssetFaceRow {
    AssetFaceRow {
        id: id.to_string(),
        asset_id: asset_id.to_string(),
        person_id: person_id.map(str::to_string),
        image_width: 100,
        image_height: 100,
        bbox_x1: 0,
        bbox_y1: 0,
        bbox_x2: 50,
        bbox_y2: 50,
        source_type: "MachineLearning".to_string(),
        is_visible: true,
        deleted_at: None,
    }
}

// ── Media ────────────────────────────────────────────────────────────────────

#[test]
fn exists_returns_false_initially() {
    let db = Db::open();
    assert!(!db.holds(&long_id("a")));
}

#[test]
fn repository_insert_and_exists_roundtrip() {
    let db = Db::open();
    let id = long_id("b");
    db.insert(&test_record(id.clone()));
    assert!(db.holds(&id));
}

#[test]
fn db_duplicate_insert_returns_error() {
    let db = Db::open();
    let record = test_record(long_id("b"));
    db.insert(&record);
    assert!(db.try_exec(MediaRepository::insert(&record)).is_err());
}

#[test]
fn get_returns_inserted_item() {
    let db = Db::open();
    let id = long_id("c");
    db.insert(&record_with_taken_at(id.clone(), "photo.jpg", Some(5000)));
    let item = db.get(&id).unwrap();
    assert_eq!(item.id, id);
    assert_eq!(item.taken_at, Some(5000));
}

#[test]
fn every_column_comes_back() {
    let db = Db::open();
    let stored = MediaRecord {
        content_hash: Some("h".to_string()),
        external_id: Some("srv".to_string()),
        media_type: MediaType::Video,
        taken_at: Some(-7),
        width: Some(40),
        height: Some(30),
        orientation: 8,
        duration_ms: Some(1500),
        is_favorite: true,
        is_trashed: true,
        trashed_at: Some(9),
        is_moments_render: true,
        ..test_record(id("x"))
    };
    db.insert(&stored);
    let item = db.get(&id("x")).unwrap();
    assert_eq!(item.taken_at, Some(-7));
    assert_eq!(item.imported_at, 1_700_000_000);
    assert_eq!(item.original_filename, "photo.jpg");
    assert_eq!((item.width, item.height), (Some(40), Some(30)));
    assert_eq!(item.orientation, 8);
    assert_eq!(item.media_type, MediaType::Video);
    assert!(item.is_favorite && item.is_trashed && item.is_moments_render);
    assert_eq!(item.trashed_at, Some(9));
    assert_eq!(item.duration_ms, Some(1500));
    let rows = db.rows(MediaRepository::get_record(&id("x")));
    let r = &rows[0];
    assert_eq!(r.get::<Option<String>, _>(1).as_deref(), Some("h"));
    assert_eq!(r.get::<Option<String>, _>(2).as_deref(), Some("srv"));
    assert_eq!(r.get::<String, _>(3), "2025/01/15/photo.jpg");
    assert_eq!(r.get::<String, _>(4), "photo.jpg");
    assert_eq!(r.get::<i64, _>(5), 1024);
    assert_eq!(r.get::<i64, _>(7), 1);
    assert_eq!(r.get::<i64, _>(16), 1);
    assert_eq!(db.texts(MediaRepository::original_filename(&id("x"))), vec!["photo.jpg"]);
    assert_eq!(db.texts(MediaRepository::relative_path(&id("x"))), vec!["2025/01/15/photo.jpg"]);
    let rows = db.rows(MediaRepository::resolve_info(&id("x")));
    assert_eq!(rows[0].get::<Option<String>, _>(2).as_deref(), Some("srv"));
    let known = db.rows(MediaRepository::external_ids(&vec![id("x"), id("y")]).unwrap());
    assert_eq!(known.len(), 1);
    assert_eq!(known[0].get::<String, _>(1), "srv");
    assert!(MediaRepository::external_ids(&vec![]).is_none());
    assert_eq!(db.texts(SyncRepository::all_media_ids()), vec!["x"]);
}

#[test]
fn list_media_empty_returns_empty_vec() {
    let db = Db::open();
    assert!(db.list(MediaFilter::All, None, 50).is_empty());
}

#[test]
fn list_ordered_reverse_chronological() {
    let db = Db::open();
    let (a, b) = (long_id("a"), long_id("b"));
    db.insert(&record_with_taken_at(a.clone(), "a.jpg", Some(1000)));
    db.insert(&record_with_taken_at(b.clone(), "b.jpg", Some(3000)));
    let items = db.list(MediaFilter::All, None, 50);
    assert_eq!(items[0].id, b);
    assert_eq!(items[1].id, a);
}

#[test]
fn db_list_media_first_page_ordered_reverse_chronological() {
    let db = Db::open();
    let (a, b, c) = (long_id("a"), long_id("b"), long_id("c"));
    db.insert(&record_with_taken_at(a.clone(), "2025/01/01/a.jpg", Some(1_000)));
    db.insert(&record_with_taken_at(b.clone(), "2025/01/02/b.jpg", Some(3_000)));
    db.insert(&record_with_taken_at(c.clone(), "2025/01/03/c.jpg", Some(2_000)));
    let items = db.list(MediaFilter::All, None, 50);
    assert_eq!(items.len(), 3);
    assert_eq!(items[0].id, b);
    assert_eq!(items[1].id, c);
    assert_eq!(items[2].id, a);
}

#[test]
fn list_media_null_taken_at_sorts_to_end() {
    let db = Db::open();
    let (dated, undated) = (long_id("d"), long_id("e"));
    db.insert(&record_with_taken_at(dated.clone(), "2025/01/01/dated.jpg", Some(5_000)));
    db.insert(&record_with_taken_at(undated.clone(), "2025/01/01/undated.jpg", None));
    let items = db.list(MediaFilter::All, None, 50);
    assert_eq!(items.len(), 2);
    assert_eq!(items[0].id, dated);
    assert_eq!(items[1].id, undated);
}

#[test]
fn db_list_media_cursor_returns_next_page() {
    let db = Db::open();
    for i in 0..5i64 {
        db.insert(&record_with_taken_at(
            MediaId::new(format!("{:0>64}", i + 1)),
            &format!("2025/01/0{}/photo.jpg", i + 1),
            Some((5 - i) * 1000),
        ));
    }
    let page1 = db.list(MediaFilter::All, None, 3);
    assert_eq!(page1.len(), 3);
    assert_eq!(page1[0].taken_at, Some(5000));
    assert_eq!(page1[2].taken_at, Some(3000));
    let cursor = MediaCursor {
        sort_key: page1[2].taken_at.unwrap_or(0),
        id: page1[2].id.clone(),
    };
    let page2 = db.list(MediaFilter::All, Some(cursor), 3);
    assert_eq!(page2.len(), 2);
    assert_eq!(page2[0].taken_at, Some(2000));
    assert_eq!(page2[1].taken_at, Some(1000));
}

/// The pages of every view, one after the other, hold each of its items once.
#[test]
fn pages_follow_one_another() {
    let db = Db::open();
    let album = db.create_album("All");
    db.person("p1", "Alice", false);
    for i in 0..23i64 {
        let mut r = record_with_taken_at(
            MediaId::new(format!("m{i:02}")),
            "a.jpg",
            if i % 5 == 0 { None } else { Some(i / 3) },
        );
        r.imported_at = i / 4;
        r.is_trashed = i % 4 == 3;
        r.trashed_at = if r.is_trashed { Some(i / 8) } else { None };
        r.is_favorite = i % 2 == 0;
        db.insert(&r);
        db.add_media(&album, &[r.id.clone()]);
        db.face(&face_row(&format!("f{i}"), r.id.as_str(), Some("p1")));
    }
    for filter in [
        MediaFilter::All,
        MediaFilter::Favorites,
        MediaFilter::Trashed,
        MediaFilter::RecentImports { since: 1 },
        MediaFilter::Album { album_id: album.clone() },
        MediaFilter::Person { person_id: PersonId::from_raw("p1".to_string()) },
    ] {
        let whole: Vec<String> = db
            .list(filter.clone(), None, 100)
            .iter()
            .map(|i| i.id.to_string())
            .collect();
        assert!(whole.len() >= 5, "{filter:?}");
        let mut paged: Vec<String> = Vec::new();
        let mut cursor = None;
        loop {
            let page = db.list(filter.clone(), cursor, 2);
            match page.last() {
                Some(last) => {
                    cursor = Some(MediaCursor::after(&filter, last));
                }
                None => break,
            }
            for item in &page {
                assert!(!filter.supports_inline_match() || filter.matches(item), "{filter:?}");
            }
            paged.extend(page.iter().map(|i| i.id.to_string()));
        }
        assert_eq!(paged, whole, "{filter:?}");
    }
}

#[test]
fn list_media_respects_limit() {
    let db = Db::open();
    for i in 0..10u64 {
        db.insert(&record_with_taken_at(
            MediaId::new(format!("{i:0>64}")),
            &format!("2025/01/{i:02}/photo.jpg"),
            Some(i as i64 * 1000),
        ));
    }
    assert_eq!(db.list(MediaFilter::All, None, 4).len(), 4);
}

#[test]
fn db_set_favorite_and_read_back() {
    let db = Db::open();
    let id = long_id("f");
    db.insert(&test_record(id.clone()));
    assert!(!db.list(MediaFilter::All, None, 10)[0].is_favorite);
    db.maybe(MediaRepository::set_favorite(&vec![id.clone()], true));
    assert!(db.list(MediaFilter::All, None, 10)[0].is_favorite);
    db.maybe(MediaRepository::set_favorite(&vec![id], false));
    assert!(!db.list(MediaFilter::All, None, 10)[0].is_favorite);
}

#[test]
fn set_favorite_multiple_ids() {
    let db = Db::open();
    let (a, b) = (long_id("1"), long_id("2"));
    db.insert(&record_with_taken_at(a.clone(), "a.jpg", Some(1000)));
    db.insert(&record_with_taken_at(b.clone(), "b.jpg", Some(2000)));
    db.maybe(MediaRepository::set_favorite(&vec![a, b], true));
    assert!(db.list(MediaFilter::All, None, 10).iter().all(|i| i.is_favorite));
    assert!(MediaRepository::set_favorite(&vec![], true).is_none());
}

#[test]
fn list_media_favorites_filter() {
    let db = Db::open();
    let (a, b) = (long_id("1"), long_id("2"));
    db.insert(&record_with_taken_at(a.clone(), "a.jpg", Some(1000)));
    db.insert(&record_with_taken_at(b.clone(), "b.jpg", Some(2000)));
    db.maybe(MediaRepository::set_favorite(&vec![a.clone()], true));
    assert_eq!(db.list(MediaFilter::All, None, 10).len(), 2);
    let favs = db.list(MediaFilter::Favorites, None, 10);
    assert_eq!(favs.len(), 1);
    assert_eq!(favs[0].id, a);
}

#[test]
fn db_trash_and_restore_roundtrip() {
    let db = Db::open();
    let id = long_id("t");
    db.insert(&test_record(id.clone()));
    assert_eq!(db.list(MediaFilter::All, None, 10).len(), 1);
    db.maybe(MediaRepository::trash(&vec![id.clone()], 77));
    assert_eq!(db.list(MediaFilter::All, None, 10).len(), 0);
    let trashed = db.list(MediaFilter::Trashed, None, 10);
    assert_eq!(trashed.len(), 1);
    assert!(trashed[0].is_trashed);
    assert_eq!(trashed[0].trashed_at, Some(77));
    db.maybe(MediaRepository::restore(&vec![id]));
    assert_eq!(db.list(MediaFilter::All, None, 10).len(), 1);
    assert_eq!(db.list(MediaFilter::Trashed, None, 10).len(), 0);
}

#[test]
fn trash_excludes_from_favorites() {
    let db = Db::open();
    let id = long_id("u");
    db.insert(&test_record(id.clone()));
    db.maybe(MediaRepository::set_favorite(&vec![id.clone()], true));
    assert_eq!(db.list(MediaFilter::Favorites, None, 10).len(), 1);
    db.maybe(MediaRepository::trash(&vec![id], 1));
    assert_eq!(db.list(MediaFilter::Favorites, None, 10).len(), 0);
}

#[test]
fn db_delete_permanently_removes_row() {
    let db = Db::open();
    let v = long_id("v");
    db.insert(&test_record(v.clone()));
    db.person("p1", "Alice", false);
    db.face(&face_row("f1", v.as_str(), Some("p1")));
    db.add_media(&db.create_album("A"), &[v.clone()]);
    db.maybe(MetadataRepository::insert(&sample_metadata(v.clone())));
    db.exec(EditingRepository::upsert_edit_state(&v, "{}", 1));
    db.exec_all(MediaRepository::delete_permanently(&vec![v.clone()]));
    assert!(!db.holds(&v));
    for table in ["album_media", "asset_faces", "media_metadata", "edits"] {
        assert_eq!(db.number(&format!("SELECT COUNT(*) FROM {table}")), 0, "{table}");
    }
    assert!(MediaRepository::delete_permanently(&vec![]).is_empty());
}

#[test]
fn expired_trash_returns_old_items() {
    let db = Db::open();
    let id = long_id("w");
    let (now, month) = (1_700_000_000i64, 30 * 24 * 60 * 60);
    db.insert(&test_record(id.clone()));
    db.maybe(MediaRepository::trash(&vec![id.clone()], now));
    assert!(db.ids(MediaRepository::expired_trash(now, month)).is_empty());
    db.maybe(MediaRepository::trash(&vec![id.clone()], now - 31 * 24 * 60 * 60));
    assert_eq!(db.ids(MediaRepository::expired_trash(now, month)), vec![id]);
}

#[test]
fn list_media_album_filter() {
    let db = Db::open();
    let album_id = db.create_album("Filter Test");
    let (inside, outside) = (long_id("i"), long_id("o"));
    db.insert(&record_with_taken_at(inside.clone(), "in.jpg", Some(2000)));
    db.insert(&record_with_taken_at(outside, "out.jpg", Some(1000)));
    db.add_media(&album_id, &[inside.clone()]);
    let items = db.list(MediaFilter::Album { album_id }, None, 50);
    assert_eq!(items.len(), 1);
    assert_eq!(items[0].id, inside);
}

#[test]
fn list_media_person_filter() {
    let db = Db::open();
    db.person("p1", "Alice", false);
    let (inside, outside) = (long_id("i"), long_id("o"));
    db.insert(&record_with_taken_at(inside.clone(), "in.jpg", Some(2000)));
    db.insert(&record_with_taken_at(outside, "out.jpg", Some(1000)));
    db.face(&face_row("f1", inside.as_str(), Some("p1")));
    let person_id = PersonId::from_raw("p1".to_string());
    let items = db.list(MediaFilter::Person { person_id }, None, 50);
    assert_eq!(items.len(), 1);
    assert_eq!(items[0].id, inside);
}

#[test]
fn upsert_inserts_and_replaces() {
    let db = Db::open();
    let id = long_id("g");
    let mut record = test_record(id.clone());
    assert!(db.upsert(&record).is_none());
    assert!(db.holds(&id));
    record.original_filename = "updated.jpg".to_string();
    assert!(db.upsert(&record).is_none());
    assert_eq!(db.get(&id).unwrap().original_filename, "updated.jpg");
}

#[test]
fn upsert_returns_replaced_local_id_when_external_id_matches() {
    let db = Db::open();
    let local_id = id("local-uuid-aaaaaaaaaaaaaaaaaaaa");
    let server_id = id("server-uuid-bbbbbbbbbbbbbbbbbbbb");
    let mut local = test_record(local_id.clone());
    local.external_id = Some(server_id.to_string());
    db.insert(&local);
    let mut from_server = test_record(server_id.clone());
    from_server.external_id = Some(server_id.to_string());
    from_server.relative_path = "from-server.jpg".to_string();
    assert_eq!(db.upsert(&from_server), Some(local_id.clone()));
    assert!(!db.holds(&local_id));
    assert!(db.holds(&server_id));
}

#[test]
fn id_by_content_hash_pending_push_only_matches_unstamped_rows() {
    let db = Db::open();
    let hash = "qZk+NkcGgWq6PiVxeFDCbJzQ2J0=";
    let pending = id("local-pending-aaaaaaaaaaaaaaaaaaa");
    let mut r = test_record(pending.clone());
    r.content_hash = Some(hash.to_string());
    db.insert(&r);
    let found = || db.ids(MediaRepository::id_by_content_hash_pending_push(hash));
    assert_eq!(found(), vec![pending.clone()]);
    r.external_id = Some("immich-uuid".to_string());
    db.upsert(&r);
    assert!(found().is_empty());
    assert!(db
        .ids(MediaRepository::id_by_content_hash_pending_push("other"))
        .is_empty());
}

#[test]
fn repository_id_by_external_id_finds_row_or_returns_none() {
    let db = Db::open();
    let local_id = id("local-uuid-eeeeeeeeeeeeeeeeeeeeeee");
    let mut r = test_record(local_id.clone());
    r.external_id = Some("server-uuid-ffffffffffffffffffffff".to_string());
    db.insert(&r);
    let found = |s: &str| db.ids(MediaRepository::id_by_external_id(s));
    assert_eq!(found("server-uuid-ffffffffffffffffffffff"), vec![local_id]);
    assert!(found("nope").is_empty());
}

#[test]
fn upsert_returns_none_when_no_external_id_match() {
    let db = Db::open();
    let mut record = test_record(id("just-a-fresh-row-cccccccccccccccccc"));
    record.external_id = Some("server-uuid-not-otherwise-known".to_string());
    assert!(db.upsert(&record).is_none());
}

#[test]
fn upsert_preserves_imported_at_for_existing_id() {
    let db = Db::open();
    let id = long_id("e");
    let mut record = test_record(id.clone());
    record.imported_at = 1_700_000_000;
    db.insert(&record);
    record.imported_at = 1_400_000_000;
    db.upsert(&record);
    assert_eq!(db.get(&id).unwrap().imported_at, 1_700_000_000);
}

#[test]
fn the_import_time_moves_to_the_server_row() {
    let db = Db::open();
    let (local_id, server_id) = (id("local"), id("server"));
    let mut local = test_record(local_id.clone());
    local.external_id = Some("server".to_string());
    local.imported_at = 1_700_000_000;
    db.insert(&local);
    let mut from_server = test_record(server_id.clone());
    from_server.external_id = Some("server".to_string());
    from_server.imported_at = 1_400_000_000;
    let event = db.sync(&from_server);
    assert!(matches!(event, MediaEvent::Replaced { ref old, ref new }
        if *old == local_id && *new == server_id));
    assert!(!db.holds(&local_id));
    assert_eq!(db.get(&server_id).unwrap().imported_at, 1_700_000_000);
}

#[test]
fn library_stats_counts() {
    let db = Db::open();
    db.insert(&record_with_taken_at(long_id("a"), "a.jpg", Some(1000)));
    db.insert(&record_with_taken_at(long_id("b"), "b.jpg", Some(2000)));
    assert_eq!(db.stats().photo_count, 2);
    db.insert(&MediaRecord {
        media_type: MediaType::Video,
        ..test_record(long_id("c"))
    });
    db.insert(&MediaRecord {
        is_trashed: true,
        ..test_record(long_id("d"))
    });
    db.create_album("A");
    db.person("p1", "Alice", false);
    db.person("p2", "", false);
    db.person("p3", "Hidden", true);
    let stats = db.stats();
    assert_eq!((stats.photo_count, stats.video_count), (2, 1));
    assert_eq!(stats.total_file_size, 512 * 2 + 1024);
    assert_eq!(stats.trashed_count, 1);
    assert_eq!((stats.album_count, stats.people_count), (1, 1));
}

#[test]
fn repository_bump_last_seen_at_writes_value() {
    let db = Db::open();
    let id = long_id("a");
    db.insert(&test_record(id.clone()));
    db.exec(MediaRepository::bump_last_seen_at(&id, 12345));
    assert_eq!(db.number("SELECT last_seen_at FROM media"), 12345);
}

#[test]
fn repository_bump_last_seen_at_missing_id_is_noop() {
    let db = Db::open();
    assert_eq!(db.exec(MediaRepository::bump_last_seen_at(&long_id("z"), 12345)), 0);
}

#[test]
fn ids_with_stale_heartbeat_finds_only_eligible_rows() {
    let db = Db::open();
    for (name, external, beat) in [
        ("a", Some("immich-uuid-a"), 100),
        ("b", Some("immich-uuid-b"), 300),
        ("c", None, 0),
    ] {
        let mut r = record_with_taken_at(long_id(name), "x.jpg", Some(1));
        r.external_id = external.map(str::to_string);
        db.insert(&r);
        db.exec(MediaRepository::bump_last_seen_at(&r.id, beat));
    }
    assert_eq!(db.ids(MediaRepository::ids_with_stale_heartbeat(200)), vec![long_id("a")]);
}

#[test]
fn exists_by_content_hash_matches_immich_pulled_row() {
    let db = Db::open();
    let mut row = record_with_taken_at(
        id("server-uuid-aaaaaaaaaaaaaaaaaaaaaa"),
        "server/photo.jpg",
        Some(1_000),
    );
    row.external_id = Some("immich-uuid".to_string());
    row.content_hash = Some("qZk+NkcGgWq6PiVxeFDCbJzQ2J0=".to_string());
    db.upsert(&row);
    let known = |h: &str| !db.rows(MediaRepository::exists_by_content_hash(h)).is_empty();
    assert!(known("qZk+NkcGgWq6PiVxeFDCbJzQ2J0="));
    assert!(!known("aGVsbG8gd29ybGQ="));
}

// ── What subscribers are told ────────────────────────────────────────────────

#[test]
fn upsert_media_emits_replaced_when_local_row_swapped_for_server() {
    let db = Db::open();
    let local_id = id("local-uuid-aaaaaaaaaaaaaaaaaaaaaaaa");
    let server_id = id("server-uuid-bbbbbbbbbbbbbbbbbbbbbbb");
    let mut local = record_with_taken_at(local_id.clone(), "local/photo.jpg", Some(1_000));
    local.external_id = Some(server_id.to_string());
    db.insert(&local);
    let mut from_server = record_with_taken_at(server_id.clone(), "server/photo.jpg", Some(1_000));
    from_server.external_id = Some(server_id.to_string());
    match db.sync(&from_server) {
        MediaEvent::Replaced { old, new } => {
            assert_eq!(old, local_id);
            assert_eq!(new, server_id);
        }
        other => panic!("expected Replaced; got {other:?}"),
    }
}

#[test]
fn upsert_media_emits_added_for_fresh_row() {
    let db = Db::open();
    let record = record_with_taken_at(
        id("fresh-server-uuid-cccccccccccccccccc"),
        "fresh/photo.jpg",
        Some(2_000),
    );
    assert!(matches!(db.sync(&record), MediaEvent::Added(ids) if ids.len() == 1));
}

#[test]
fn upsert_media_emits_updated_when_round_tripped_via_external_id() {
    let db = Db::open();
    let local_id = id("local-uuid-aaaaaaaaaaaaaaaaaaaaaaaa");
    let server_id = "server-uuid-bbbbbbbbbbbbbbbbbbbbb";
    let mut local = record_with_taken_at(local_id.clone(), "local/photo.jpg", Some(1_000));
    local.external_id = Some(server_id.to_string());
    db.insert(&local);
    assert_eq!(
        db.ids(MediaRepository::id_by_external_id(server_id)),
        vec![local_id.clone()]
    );
    assert!(matches!(db.sync(&local), MediaEvent::Updated(ids) if ids == [local_id]));
}

#[test]
fn upsert_media_emits_updated_for_known_id() {
    let db = Db::open();
    let known = id("known-id-dddddddddddddddddddddddddd");
    let record = record_with_taken_at(known.clone(), "known/photo.jpg", Some(3_000));
    db.sync(&record);
    assert!(matches!(db.sync(&record), MediaEvent::Updated(ids) if ids == [known]));
}

fn stacked(db: &Db, stack: &str, ids: &[&MediaId]) {
    for (i, id) in ids.iter().enumerate() {
        db.insert(&record_with_taken_at((*id).clone(), &format!("{i}.jpg"), None));
    }
    db.stack(stack, ids[0]);
    for id in ids {
        assert!(matches!(db.bind_to_stack(id, stack),
            Some(MediaEvent::Updated(got)) if got == [(*id).clone()]));
    }
}

#[test]
fn upsert_stack_emits_updated_for_all_members() {
    let db = Db::open();
    let (primary, sibling) = (long_id("a"), long_id("b"));
    stacked(&db, "stk", &[&primary, &sibling]);
    db.stack("stk", &sibling);
    let members = db.ids(MediaRepository::list_stack_members("stk"));
    match MediaService::stack_changed(members) {
        Some(MediaEvent::Updated(ids)) => {
            assert!(ids.contains(&primary) && ids.contains(&sibling))
        }
        other => panic!("expected Updated; got {other:?}"),
    }
    assert!(MediaService::stack_changed(vec![]).is_none());
    assert!(db.bind_to_stack(&primary, "stk").is_none());
}

#[test]
fn delete_stack_emits_updated_for_freed_members() {
    let db = Db::open();
    let (primary, sibling) = (long_id("a"), long_id("b"));
    stacked(&db, "doomed", &[&primary, &sibling]);
    let members = db.ids(MediaRepository::list_stack_members("doomed"));
    db.exec_all(MediaRepository::delete_stack("doomed"));
    assert_eq!(db.number("SELECT COUNT(*) FROM stacks"), 0);
    assert_eq!(db.number("SELECT COUNT(*) FROM media WHERE stack_id IS NULL"), 2);
    assert!(matches!(MediaService::stack_changed(members),
        Some(MediaEvent::Updated(ids)) if ids.contains(&primary) && ids.contains(&sibling)));
}

#[test]
fn delete_permanently_emits_updated_for_freed_siblings() {
    let db = Db::open();
    let (primary, sibling) = (long_id("a"), long_id("b"));
    stacked(&db, "stk", &[&primary, &sibling]);
    let (events, mutation) = db.delete(&[primary.clone()], false);
    assert_eq!(events.len(), 2);
    assert!(mutation.is_none());
    assert!(matches!(&events[0], MediaEvent::Removed(ids) if ids == &[primary]));
    assert!(matches!(&events[1], MediaEvent::Updated(ids) if ids == &[sibling]));
}

#[test]
fn server_ids_outlive_the_rows() {
    let db = Db::open();
    let mut known = test_record(id("a"));
    known.external_id = Some("srv-a".to_string());
    db.insert(&known);
    db.insert(&test_record(id("b")));
    let (events, mutation) = db.delete(&[id("a"), id("b")], true);
    assert_eq!(events.len(), 1);
    assert!(matches!(&events[0], MediaEvent::Removed(ids) if ids == &[id("a"), id("b")]));
    assert!(matches!(mutation, Some(Mutation::AssetDeleted { items })
        if items == [(id("a"), Some("srv-a".to_string())), (id("b"), None)]));
    assert!(db.list(MediaFilter::All, None, 9).is_empty());
}

#[test]
fn failed_readings_do_not_stop_a_deletion() {
    let lost = || LibraryError::Db("locked".to_string());
    let state = DeletionState::begin(vec![id("a")], true)
        .advance(DeletionReply::Failed(lost()))
        .advance(DeletionReply::Failed(lost()));
    assert_eq!(state.statements().len(), 6);
    match state.advance(DeletionReply::Done) {
        DeletionState::Finished { events, mutation } => {
            assert_eq!(events.len(), 1);
            assert!(matches!(mutation, Some(Mutation::AssetDeleted { items })
                if items == [(id("a"), None)]));
        }
        other => panic!("{other:?}"),
    }
    let state = DeletionState::begin(vec![id("a")], false).advance(DeletionReply::Freed(vec![]));
    assert!(matches!(state.advance(DeletionReply::Failed(lost())),
        DeletionState::Failed { error: LibraryError::Db(m) } if m == "locked"));
    let state = UpsertState::begin(test_record(id("a")));
    assert!(matches!(state.advance(UpsertReply::Failed(lost())), UpsertState::Failed { .. }));
}

// ── Stacks ───────────────────────────────────────────────────────────────────

#[test]
fn upsert_stack_is_idempotent_and_preserves_heartbeat() {
    let db = Db::open();
    let (a, b) = (long_id("a"), long_id("b"));
    db.insert(&record_with_taken_at(a.clone(), "a.jpg", None));
    db.insert(&record_with_taken_at(b.clone(), "b.jpg", None));
    db.stack("stk1", &a);
    db.exec(MediaRepository::bump_stack_last_seen_at("stk1", 555));
    db.stack("stk1", &b);
    assert_eq!(db.text("SELECT primary_asset_id FROM stacks"), Some(b.to_string()));
    assert_eq!(db.number("SELECT last_seen_at FROM stacks"), 555);
}

#[test]
fn ids_with_stale_stack_heartbeat_returns_only_stale() {
    let db = Db::open();
    let primary = long_id("a");
    db.insert(&test_record(primary.clone()));
    for (name, beat) in [("stale", 100), ("fresh", 300)] {
        db.stack(name, &primary);
        db.exec(MediaRepository::bump_stack_last_seen_at(name, beat));
    }
    assert_eq!(db.texts(MediaRepository::ids_with_stale_stack_heartbeat(200)), vec!["stale"]);
}

#[test]
fn delete_stacks_with_stale_heartbeat_clears_member_stack_id() {
    let db = Db::open();
    let (primary, member) = (long_id("a"), long_id("b"));
    stacked(&db, "doomed", &[&primary, &member]);
    db.exec(MediaRepository::bump_stack_last_seen_at("doomed", 50));
    let removed = db.texts(MediaRepository::ids_with_stale_stack_heartbeat(200));
    assert_eq!(removed, vec!["doomed"]);
    db.exec_all(MediaRepository::delete_stacks(&removed));
    assert_eq!(db.number("SELECT COUNT(*) FROM media WHERE stack_id IS NULL"), 2);
    assert_eq!(db.number("SELECT COUNT(*) FROM stacks"), 0);
    assert!(MediaRepository::delete_stacks(&vec![]).is_empty());
}

#[test]
fn list_hides_non_primary_stack_members() {
    let db = Db::open();
    let (primary, sibling, unstacked) = (long_id("a"), long_id("b"), long_id("c"));
    stacked(&db, "stk", &[&primary, &sibling]);
    db.insert(&record_with_taken_at(unstacked.clone(), "u.jpg", Some(3000)));
    let items = db.list(MediaFilter::All, None, 50);
    assert_eq!(items.len(), 2);
    let item = |id: &MediaId| items.iter().find(|i| &i.id == id);
    assert_eq!(item(&primary).unwrap().stack_id.as_deref(), Some("stk"));
    assert!(item(&unstacked).unwrap().stack_id.is_none());
    assert!(item(&sibling).is_none());
    let many = db.items(
        MediaRepository::get_many(&vec![sibling, primary.clone(), unstacked.clone()]).unwrap(),
    );
    assert_eq!(many.len(), 2);
    assert!(many.iter().all(|i| i.id == primary || i.id == unstacked));
    assert!(MediaRepository::get_many(&vec![]).is_none());
}

/// Stores a rendered edit.
fn render(db: &Db, id: &MediaId) {
    let mut r = record_with_taken_at(id.clone(), "r.jpg", Some(2));
    r.is_moments_render = true;
    db.insert(&r);
}

fn original(db: &Db, id: &MediaId) {
    db.insert(&record_with_taken_at(id.clone(), "o.jpg", Some(1)));
}

fn edited(db: &Db, original: &MediaId, render: &MediaId) {
    db.exec(EditingRepository::upsert_edit_state(original, "{}", 1));
    db.exec(EditingRepository::set_server_rendered_asset_id(original, render));
}

/// What the library and the trash show of some assets, which are in one album.
fn shown(db: &Db, ids: &[&MediaId]) -> (Vec<MediaId>, Vec<MediaId>) {
    let listed = |filter| -> Vec<MediaId> {
        db.list(filter, None, 50).into_iter().map(|i| i.id).collect()
    };
    let (all, trash) = (listed(MediaFilter::All), listed(MediaFilter::Trashed));
    let ids: Vec<MediaId> = ids.iter().map(|id| (*id).clone()).collect();
    let many = db.items(MediaRepository::get_many(&ids).unwrap());
    assert_eq!(many.len(), all.len() + trash.len());
    assert!(many.iter().all(|i| all.contains(&i.id) || trash.contains(&i.id)));
    let album = db.create_album("All");
    db.add_media(&album, &ids);
    let members: Vec<MediaId> = db.album_media(&album, None, 50).into_iter().map(|i| i.id).collect();
    assert_eq!(members, all);
    (all, trash)
}

#[test]
fn renders_give_way_to_their_originals() {
    let db = Db::open();
    let (r, o) = (long_id("a"), long_id("b"));
    let ids = [&r, &o];
    render(&db, &r);
    assert_eq!(shown(&db, &[&r]), (vec![r.clone()], vec![]));
    original(&db, &o);
    assert_eq!(shown(&db, &ids).0.len(), 2);
    edited(&db, &o, &r);
    assert_eq!(shown(&db, &ids), (vec![o.clone()], vec![]));
    db.stack("stk", &r);
    db.bind_to_stack(&r, "stk");
    db.bind_to_stack(&o, "stk");
    assert_eq!(shown(&db, &ids), (vec![o.clone()], vec![]));
    db.delete(&[o.clone()], false);
    assert_eq!(shown(&db, &[&r]), (vec![r.clone()], vec![]));
}

#[test]
fn renders_are_found_in_the_trash() {
    let db = Db::open();
    let (r, o) = (long_id("a"), long_id("b"));
    let ids = [&r, &o];
    render(&db, &r);
    original(&db, &o);
    edited(&db, &o, &r);
    db.maybe(MediaRepository::trash(&vec![r.clone()], 1));
    assert_eq!(shown(&db, &ids), (vec![o.clone()], vec![r.clone()]));
    db.maybe(MediaRepository::trash(&vec![o.clone()], 1));
    assert_eq!(shown(&db, &ids), (vec![], vec![o.clone()]));
    db.maybe(MediaRepository::restore(&vec![r.clone()]));
    assert_eq!(shown(&db, &ids), (vec![r.clone()], vec![o.clone()]));
    db.stack("stk", &r);
    db.bind_to_stack(&r, "stk");
    db.bind_to_stack(&o, "stk");
    assert_eq!(shown(&db, &ids), (vec![r.clone()], vec![]));
}

#[test]
fn one_row_stands_for_a_stack() {
    let db = Db::open();
    let (a, b, r) = (long_id("c"), long_id("b"), long_id("a"));
    let ids = [&a, &b, &r];
    original(&db, &a);
    original(&db, &b);
    render(&db, &r);
    edited(&db, &a, &r);
    db.stack("stk", &a);
    for id in ids {
        db.bind_to_stack(id, "stk");
    }
    assert_eq!(shown(&db, &ids).0, vec![a.clone()]);
    db.stack("stk", &b);
    assert_eq!(shown(&db, &ids).0, vec![b.clone()]);
    db.stack("stk", &r);
    assert_eq!(shown(&db, &ids).0, vec![a.clone()]);
    db.exec(EditingRepository::delete_edit_state(&a));
    assert_eq!(shown(&db, &ids).0, vec![b.clone()]);
}

#[test]
fn hidden_originals_replace_no_render() {
    let db = Db::open();
    let (a, b, r) = (long_id("c"), long_id("b"), long_id("a"));
    let ids = [&a, &b, &r];
    original(&db, &a);
    original(&db, &b);
    render(&db, &r);
    edited(&db, &a, &r);
    db.stack("stk", &b);
    db.bind_to_stack(&a, "stk");
    db.bind_to_stack(&b, "stk");
    let (all, _) = shown(&db, &ids);
    assert_eq!(all.len(), 2);
    assert!(all.contains(&b) && all.contains(&r));
}

#[test]
fn ensure_stack_stub_lets_asset_handler_bind_before_stack_arrives() {
    let db = Db::open();
    let asset = long_id("a");
    db.insert(&record_with_taken_at(asset.clone(), "a.jpg", None));
    db.exec(MediaRepository::ensure_stack_stub("late-stack", &asset, 0));
    assert!(db.bind_to_stack(&asset, "late-stack").is_some());
    assert_eq!(db.text("SELECT primary_asset_id FROM stacks"), Some(asset.to_string()));
    assert_eq!(db.number("SELECT last_seen_at FROM stacks"), 0);
    let real = long_id("b");
    db.insert(&record_with_taken_at(real.clone(), "b.jpg", None));
    db.stack("late-stack", &real);
    db.exec(MediaRepository::ensure_stack_stub("late-stack", &asset, 9));
    assert_eq!(db.text("SELECT primary_asset_id FROM stacks"), Some(real.to_string()));
    db.exec(MediaRepository::ensure_stack_stub("other", &asset, 9));
    assert_eq!(db.number("SELECT last_seen_at FROM stacks WHERE id = 'other'"), 9);
}

#[test]
fn siblings_freed_by_deletion_returns_cascade_affected_only() {
    let db = Db::open();
    let (p, a, b, u) = (long_id("a"), long_id("b"), long_id("c"), long_id("d"));
    stacked(&db, "stk", &[&p, &a, &b]);
    db.insert(&record_with_taken_at(u.clone(), "u.jpg", None));
    let freed = |ids: Vec<MediaId>| {
        let mut got = db.texts(MediaRepository::siblings_freed_by_deletion(&ids).unwrap());
        got.sort();
        got
    };
    assert_eq!(freed(vec![p.clone()]), vec![a.to_string(), b.to_string()]);
    assert_eq!(freed(vec![p, a.clone()]), vec![b.to_string()]);
    assert!(freed(vec![u]).is_empty());
    assert!(freed(vec![a]).is_empty());
    assert!(MediaRepository::siblings_freed_by_deletion(&vec![]).is_none());
}

#[test]
fn clear_media_stack_id_unbinds() {
    let db = Db::open();
    let id = long_id("a");
    stacked(&db, "stk", &[&id]);
    assert_eq!(db.exec(MediaRepository::clear_media_stack_id(&id)), 1);
    assert!(db.list(MediaFilter::All, None, 10)[0].stack_id.is_none());
    assert_eq!(db.exec(MediaRepository::clear_media_stack_id(&id)), 0);
}

// ── Albums ───────────────────────────────────────────────────────────────────

fn two_dated(db: &Db) -> (MediaId, MediaId) {
    let (a, b) = (long_id("a"), long_id("b"));
    db.insert(&record_with_taken_at(a.clone(), "a.jpg", Some(1000)));
    db.insert(&record_with_taken_at(b.clone(), "b.jpg", Some(2000)));
    (a, b)
}

#[test]
fn create_album_and_list() {
    let db = Db::open();
    let id = db.create_album("Vacation");
    let albums = db.albums();
    assert_eq!(albums.len(), 1);
    assert_eq!(albums[0].id, id);
    assert_eq!(albums[0].name, "Vacation");
    assert_eq!(albums[0].media_count, 0);
}

#[test]
fn get_album_returns_none_for_missing() {
    let db = Db::open();
    assert!(db.album(&AlbumId::from_raw("nonexistent".to_string())).is_none());
}

#[test]
fn get_album_returns_album_with_counts() {
    let db = Db::open();
    let album_id = db.create_album("Get Test");
    let (a, _) = two_dated(&db);
    db.add_media(&album_id, &[a.clone()]);
    let album = db.album(&album_id).unwrap();
    assert_eq!(album.name, "Get Test");
    assert_eq!(album.media_count, 1);
    assert_eq!(album.cover_media_id, Some(a));
}

#[test]
fn create_album_generates_unique_ids() {
    let db = Db::open();
    assert_ne!(db.create_album("Album 1"), db.create_album("Album 2"));
}

#[test]
fn upsert_preserves_is_pinned() {
    let db = Db::open();
    let id = db.create_album("Pinned");
    db.exec(AlbumRepository::set_pinned(&id, true));
    assert!(db.album(&id).unwrap().is_pinned);
    db.exec(AlbumRepository::upsert(id.as_str(), "Pinned", 0, 0, &Some("server-uuid".to_string())));
    assert!(db.album(&id).unwrap().is_pinned);
}

#[test]
fn album_id_by_external_id_finds_row_or_returns_none() {
    let db = Db::open();
    let local_id = db.create_album("Round-trip");
    let server_id = Some("server-album-uuid".to_string());
    db.exec(AlbumRepository::upsert(local_id.as_str(), "Round-trip", 0, 0, &server_id));
    let found = |s: &str| db.texts(AlbumRepository::id_by_external_id(s));
    assert_eq!(found("server-album-uuid"), vec![local_id.to_string()]);
    assert!(found("nope").is_empty());
    assert_eq!(db.texts(AlbumRepository::external_id(&local_id)), vec!["server-album-uuid"]);
}

#[test]
fn rename_album_updates_name() {
    let db = Db::open();
    let id = db.create_album("Old Name");
    db.exec(AlbumRepository::rename(&id, "New Name", 5_000));
    assert_eq!(db.albums()[0].name, "New Name");
    assert_eq!(db.albums()[0].updated_at, 5_000);
    db.exec(AlbumRepository::touch(&id, 6_000));
    assert_eq!(db.albums()[0].updated_at, 6_000);
}

#[test]
fn delete_album_removes_album_and_media_links() {
    let db = Db::open();
    let album_id = db.create_album("To Delete");
    let media_id = long_id("d");
    db.insert(&test_record(media_id.clone()));
    db.add_media(&album_id, &[media_id.clone()]);
    db.exec_all(AlbumRepository::delete(&album_id));
    assert!(db.albums().is_empty());
    assert!(db.holds(&media_id));
}

#[test]
fn add_to_album_and_list_media() {
    let db = Db::open();
    let album_id = db.create_album("My Album");
    let (a, b) = two_dated(&db);
    db.add_media(&album_id, &[a.clone(), b.clone()]);
    let items = db.album_media(&album_id, None, 50);
    assert_eq!(items.len(), 2);
    assert_eq!(items[0].id, b);
    assert_eq!(items[1].id, a);
    assert_eq!(db.album(&album_id).unwrap().updated_at, 2_000);
    let mut covers = db.texts(AlbumRepository::cover_media_ids(&album_id, 4));
    covers.sort();
    assert_eq!(covers, vec![a.to_string(), b.to_string()]);
    assert!(AlbumRepository::add_media(&album_id, &vec![], 1).is_empty());
}

#[test]
fn add_duplicate_to_album_is_idempotent() {
    let db = Db::open();
    let album_id = db.create_album("Dupes");
    let media_id = long_id("e");
    db.insert(&test_record(media_id.clone()));
    db.add_media(&album_id, &[media_id.clone()]);
    db.add_media(&album_id, &[media_id]);
    assert_eq!(db.album_media(&album_id, None, 50).len(), 1);
}

#[test]
fn remove_from_album() {
    let db = Db::open();
    let album_id = db.create_album("Remove Test");
    let (a, b) = two_dated(&db);
    db.add_media(&album_id, &[a.clone(), b.clone()]);
    db.exec_all(AlbumRepository::remove_media(&album_id, &vec![a], 3_000));
    let items = db.album_media(&album_id, None, 50);
    assert_eq!(items.len(), 1);
    assert_eq!(items[0].id, b);
    assert_eq!(db.album(&album_id).unwrap().updated_at, 3_000);
    assert!(AlbumRepository::remove_media(&album_id, &vec![], 1).is_empty());
}

#[test]
fn list_albums_includes_media_count() {
    let db = Db::open();
    let album_id = db.create_album("Counting");
    let (a, b) = two_dated(&db);
    db.add_media(&album_id, &[a, b]);
    assert_eq!(db.albums()[0].media_count, 2);
}

#[test]
fn trashed_members_are_not_counted() {
    let db = Db::open();
    let album_id = db.create_album("Counting");
    let (a, b) = two_dated(&db);
    db.add_media(&album_id, &[a.clone(), b]);
    db.maybe(MediaRepository::trash(&vec![a.clone()], 1));
    assert_eq!(db.albums()[0].media_count, 1);
    assert_eq!(db.album(&album_id).unwrap().media_count, 1);
    db.maybe(MediaRepository::restore(&vec![a]));
    assert_eq!(db.albums()[0].media_count, 2);
}

#[test]
fn the_whole_trash_is_listed() {
    let db = Db::open();
    let (a, b) = two_dated(&db);
    db.maybe(MediaRepository::trash(&vec![a.clone()], 1));
    for state in [CommandState::ListTrashToEmpty, CommandState::ListTrashToRestore] {
        let items = db.items(state.query().unwrap());
        assert_eq!(items.len(), 1);
        assert_eq!(items[0].id, a);
    }
    assert!(CommandState::Trash { ids: vec![b] }.query().is_none());
}

#[test]
fn list_albums_includes_cover_media_id() {
    let db = Db::open();
    let album_id = db.create_album("Cover");
    let (a, _) = two_dated(&db);
    db.add_media(&album_id, &[a.clone()]);
    assert_eq!(db.albums()[0].cover_media_id, Some(a));
}

#[test]
fn list_album_media_excludes_trashed() {
    let db = Db::open();
    let album_id = db.create_album("Trash Test");
    let media_id = long_id("t");
    db.insert(&test_record(media_id.clone()));
    db.add_media(&album_id, &[media_id.clone()]);
    db.maybe(MediaRepository::trash(&vec![media_id], 1));
    assert!(db.album_media(&album_id, None, 50).is_empty());
}

#[test]
fn list_album_media_cursor_pagination() {
    let db = Db::open();
    let album_id = db.create_album("Paging");
    let ids: Vec<MediaId> = (1..=5).map(|i| MediaId::new(format!("{i:0>64}"))).collect();
    for (i, id) in ids.iter().enumerate() {
        let ts = (5 - i as i64) * 1000;
        db.insert(&record_with_taken_at(id.clone(), &format!("{i}.jpg"), Some(ts)));
    }
    db.add_media(&album_id, &ids);
    let page1 = db.album_media(&album_id, None, 3);
    assert_eq!(page1.len(), 3);
    let cursor = MediaCursor {
        sort_key: page1[2].taken_at.unwrap_or(0),
        id: page1[2].id.clone(),
    };
    let page2 = db.album_media(&album_id, Some(cursor), 3);
    assert_eq!(page2.len(), 2);
    assert!(page1.iter().all(|x| page2.iter().all(|y| x.id != y.id)));
}

#[test]
fn albums_containing_media_empty_input() {
    assert!(Db::open().containing(&[]).is_empty());
}

#[test]
fn albums_containing_media_single_album() {
    let db = Db::open();
    let album_id = db.create_album("Test");
    let (a, b) = two_dated(&db);
    db.add_media(&album_id, &[a.clone(), b.clone()]);
    assert_eq!(db.containing(&[a, b]), vec![(album_id, 2)]);
}

#[test]
fn albums_containing_media_multiple_albums() {
    let db = Db::open();
    let album1 = db.create_album("Album 1");
    let album2 = db.create_album("Album 2");
    let (a, b) = two_dated(&db);
    db.add_media(&album1, &[a.clone()]);
    db.add_media(&album2, &[a.clone(), b.clone()]);
    let result = db.containing(&[a, b]);
    assert_eq!(result.len(), 2);
    assert!(result.contains(&(album1, 1)));
    assert!(result.contains(&(album2, 2)));
}

#[test]
fn albums_containing_media_partial_membership() {
    let db = Db::open();
    let album_id = db.create_album("Partial");
    let (a, b) = two_dated(&db);
    db.add_media(&album_id, &[a.clone()]);
    assert_eq!(db.containing(&[a, b]), vec![(album_id, 1)]);
}

#[test]
fn albums_containing_media_no_matches() {
    let db = Db::open();
    db.create_album("Empty Album");
    let (a, _) = two_dated(&db);
    assert!(db.containing(&[a]).is_empty());
}

#[test]
fn delete_media_removes_from_album() {
    let db = Db::open();
    let album_id = db.create_album("Cascade");
    let media_id = long_id("c");
    db.insert(&test_record(media_id.clone()));
    db.add_media(&album_id, &[media_id.clone()]);
    db.exec_all(MediaRepository::delete_permanently(&vec![media_id]));
    assert!(db.album_media(&album_id, None, 50).is_empty());
}

#[test]
fn upsert_membership_idempotent_then_delete() {
    let db = Db::open();
    let album_id = db.create_album("Sync Album");
    let media_id = id("med-1");
    db.insert(&test_record(media_id.clone()));
    for _ in 0..2 {
        db.exec(AlbumRepository::upsert_membership(&album_id, &media_id, 4_000));
        db.exec(SyncRepository::upsert_album_media(album_id.as_str(), "med-1", 4_000));
    }
    assert_eq!(db.album(&album_id).unwrap().media_count, 1);
    db.exec(AlbumRepository::delete_membership(&album_id, &media_id));
    assert_eq!(db.album(&album_id).unwrap().media_count, 0);
    db.exec(SyncRepository::upsert_album_media(album_id.as_str(), "med-1", 4_000));
    db.exec(SyncRepository::delete_album_media_entry(album_id.as_str(), "med-1"));
    assert_eq!(db.album(&album_id).unwrap().media_count, 0);
}

#[test]
fn upsert_membership_does_not_bump_updated_at() {
    let db = Db::open();
    let album_id = db.create_album("Stable Updated At");
    let baseline = db.album(&album_id).unwrap().updated_at;
    let media_id = id("med-1");
    db.insert(&test_record(media_id.clone()));
    db.exec(AlbumRepository::upsert_membership(&album_id, &media_id, baseline + 10_000));
    assert_eq!(db.album(&album_id).unwrap().updated_at, baseline);
}

#[test]
fn set_pinned_and_read_back() {
    let db = Db::open();
    let id = db.create_album("Pin Me");
    assert!(!db.album(&id).unwrap().is_pinned);
    db.exec(AlbumRepository::set_pinned(&id, true));
    assert!(db.album(&id).unwrap().is_pinned);
    db.exec(AlbumRepository::set_pinned(&id, false));
    assert!(!db.album(&id).unwrap().is_pinned);
}

#[test]
fn album_bump_last_seen_at_writes_value() {
    let db = Db::open();
    let id = db.create_album("Heartbeat");
    db.exec(AlbumRepository::bump_last_seen_at(&id, 12345));
    assert_eq!(db.number("SELECT last_seen_at FROM albums"), 12345);
    let missing = AlbumId::from_raw("nonexistent".to_string());
    assert_eq!(db.exec(AlbumRepository::bump_last_seen_at(&missing, 1)), 0);
}

#[test]
fn delete_with_stale_heartbeat_removes_only_eligible_rows() {
    let db = Db::open();
    let (media_id, _) = two_dated(&db);
    let stale = db.create_album("Stale Synced");
    let fresh = db.create_album("Fresh Synced");
    let local = db.create_album("Local Only");
    for (album, external, beat) in [(&stale, "immich-1", 100), (&fresh, "immich-2", 300)] {
        db.exec(AlbumRepository::upsert(album.as_str(), "n", 0, 0, &Some(external.to_string())));
        db.exec(AlbumRepository::bump_last_seen_at(album, beat));
    }
    db.add_media(&stale, &[media_id]);
    let doomed: Vec<AlbumId> = db
        .texts(AlbumRepository::ids_with_stale_heartbeat(200))
        .into_iter()
        .map(AlbumId::from_raw)
        .collect();
    assert_eq!(doomed, vec![stale.clone()]);
    db.exec_all(AlbumRepository::delete_with_stale_heartbeat(&doomed));
    assert!(db.album(&stale).is_none());
    assert!(db.album(&fresh).is_some());
    assert!(db.album(&local).is_some());
    assert_eq!(db.number("SELECT COUNT(*) FROM album_media"), 0);
}

#[test]
fn delete_with_stale_heartbeat_empty_returns_empty() {
    let db = Db::open();
    assert!(db.texts(AlbumRepository::ids_with_stale_heartbeat(100)).is_empty());
    assert!(AlbumRepository::delete_with_stale_heartbeat(&vec![]).is_empty());
}

#[test]
fn upsert_album_emits_updated_when_round_tripped_via_external_id() {
    let db = Db::open();
    let local_id = db.create_album("Round-trip");
    let server_id = Some("server-uuid".to_string());
    db.exec(AlbumRepository::upsert(local_id.as_str(), "Round-trip", 0, 0, &server_id));
    let resolved = db.texts(AlbumRepository::id_by_external_id("server-uuid"));
    assert_eq!(resolved, vec![local_id.to_string()]);
    let existed = db.album(&local_id).is_some();
    assert!(matches!(AlbumService::upsert_album(local_id.clone(), existed),
        AlbumEvent::AlbumUpdated(id) if id == local_id));
}

// ── People ───────────────────────────────────────────────────────────────────

#[test]
fn upsert_and_list_people() {
    let db = Db::open();
    db.person("p1", "Alice", false);
    db.person("p2", "Bob", false);
    assert_eq!(db.people().len(), 2);
    assert_eq!(db.rows(FacesRepository::get_person("p2")).len(), 1);
    assert!(db.rows(FacesRepository::get_person("p9")).is_empty());
}

#[test]
fn upsert_person_updates_on_conflict() {
    let db = Db::open();
    db.person("p1", "Alice", false);
    db.person("p1", "Alice Smith", false);
    let people = db.people();
    assert_eq!(people.len(), 1);
    assert_eq!(people[0].name, "Alice Smith");
}

#[test]
fn list_people_includes_hidden_and_unnamed() {
    let db = Db::open();
    db.person("p1", "Alice", false);
    db.person("p2", "Hidden", true);
    db.person("p3", "", false);
    assert_eq!(db.people().len(), 3);
}

#[test]
fn list_people_sorted_by_face_count() {
    let db = Db::open();
    db.person("p1", "Alice", false);
    db.person("p2", "Bob", false);
    db.insert(&record_with_taken_at(id("m1"), "a/photo1.jpg", Some(1000)));
    db.insert(&record_with_taken_at(id("m2"), "a/photo2.jpg", Some(2000)));
    db.face(&face_row("f1", "m1", Some("p2")));
    db.face(&face_row("f2", "m2", Some("p2")));
    db.face(&face_row("f3", "m1", Some("p1")));
    db.count_faces("p1");
    db.count_faces("p2");
    let people = db.people();
    assert_eq!(people[0].name, "Bob");
    assert_eq!(people[0].face_count, 2);
    assert_eq!(people[1].name, "Alice");
    assert_eq!(people[1].face_count, 1);
}

#[test]
fn delete_person() {
    let db = Db::open();
    db.person("p1", "Alice", false);
    db.exec(FacesRepository::delete_person("p1"));
    assert!(db.people().is_empty());
}

#[test]
fn rename_person() {
    let db = Db::open();
    db.person("p1", "Alice", false);
    db.exec(FacesRepository::rename_person("p1", "Alice Smith"));
    assert_eq!(db.people()[0].name, "Alice Smith");
}

#[test]
fn set_person_hidden() {
    let db = Db::open();
    db.person("p1", "Alice", false);
    db.exec(FacesRepository::set_person_hidden("p1", true));
    let all = db.people();
    assert_eq!(all.len(), 1);
    assert!(all[0].is_hidden);
}

#[test]
fn upsert_and_delete_asset_face() {
    let db = Db::open();
    db.person("p1", "Alice", false);
    db.insert(&test_record(id("m1")));
    db.face(&face_row("f1", "m1", Some("p1")));
    db.count_faces("p1");
    assert_eq!(db.media_of("p1"), vec!["m1"]);
    assert_eq!(db.texts(FacesRepository::delete_asset_face("f1")), vec!["p1"]);
    db.count_faces("p1");
    assert!(db.media_of("p1").is_empty());
    assert_eq!(db.people()[0].face_count, 0);
}

#[test]
fn hidden_and_soft_deleted_faces_are_excluded() {
    let db = Db::open();
    db.person("p1", "Alice", false);
    for (n, taken) in [(1, 1000), (2, 2000), (3, 3000)] {
        let path = format!("a/photo{n}.jpg");
        db.insert(&record_with_taken_at(MediaId::new(format!("m{n}")), &path, Some(taken)));
    }
    db.face(&face_row("f1", "m1", Some("p1")));
    db.face(&AssetFaceRow {
        is_visible: false,
        ..face_row("f2", "m2", Some("p1"))
    });
    db.face(&AssetFaceRow {
        deleted_at: Some(12345),
        ..face_row("f3", "m3", Some("p1"))
    });
    db.count_faces("p1");
    assert_eq!(db.media_of("p1"), vec!["m1"]);
    assert_eq!(db.people()[0].face_count, 1);
}

#[test]
fn hiding_and_unhiding_a_face_round_trips() {
    let db = Db::open();
    db.person("p1", "Alice", false);
    db.insert(&test_record(id("m1")));
    let shown = face_row("f1", "m1", Some("p1"));
    let hidden = AssetFaceRow {
        is_visible: false,
        ..face_row("f1", "m1", Some("p1"))
    };
    db.face(&shown);
    db.count_faces("p1");
    assert_eq!(db.media_of("p1"), vec!["m1"]);
    db.face(&hidden);
    db.count_faces("p1");
    assert!(db.media_of("p1").is_empty());
    assert_eq!(db.people()[0].face_count, 0);
    assert_eq!(db.number("SELECT COUNT(*) FROM asset_faces WHERE id = 'f1'"), 1);
    db.face(&shown);
    db.count_faces("p1");
    assert_eq!(db.media_of("p1"), vec!["m1"]);
    assert_eq!(db.people()[0].face_count, 1);
}

#[test]
fn effective_person_id_is_none_for_inactive_faces() {
    let db = Db::open();
    db.person("p1", "Alice", false);
    db.insert(&test_record(id("m1")));
    db.face(&face_row("f1", "m1", Some("p1")));
    assert_eq!(db.effective_person("f1").as_deref(), Some("p1"));
    db.face(&AssetFaceRow {
        is_visible: false,
        ..face_row("f1", "m1", Some("p1"))
    });
    assert!(db.effective_person("f1").is_none());
    db.face(&AssetFaceRow {
        deleted_at: Some(12345),
        ..face_row("f1", "m1", Some("p1"))
    });
    assert!(db.effective_person("f1").is_none());
}

#[test]
fn list_media_for_person_excludes_trashed() {
    let db = Db::open();
    db.person("p1", "Alice", false);
    db.insert(&record_with_taken_at(id("m1"), "a/photo1.jpg", Some(1000)));
    db.insert(&MediaRecord {
        is_trashed: true,
        trashed_at: Some(1),
        ..record_with_taken_at(id("m2"), "a/photo2.jpg", Some(2000))
    });
    db.face(&face_row("f1", "m1", Some("p1")));
    db.face(&face_row("f2", "m2", Some("p1")));
    assert_eq!(db.media_of("p1"), vec!["m1"]);
}

#[test]
fn delete_person_nullifies_face_person_id() {
    let db = Db::open();
    db.person("p1", "Alice", false);
    db.insert(&test_record(id("m1")));
    db.face(&face_row("f1", "m1", Some("p1")));
    db.exec(FacesRepository::delete_person("p1"));
    assert!(db.media_of("p1").is_empty());
    assert_eq!(db.number("SELECT COUNT(*) FROM asset_faces"), 1);
}

#[test]
fn bump_person_last_seen_at_writes_value() {
    let db = Db::open();
    db.person("p1", "Alice", false);
    db.exec(FacesRepository::bump_person_last_seen_at("p1", 12345));
    assert_eq!(db.number("SELECT last_seen_at FROM people"), 12345);
}

#[test]
fn bump_person_last_seen_at_missing_id_is_noop() {
    let db = Db::open();
    assert_eq!(db.exec(FacesRepository::bump_person_last_seen_at("ghost", 12345)), 0);
}

#[test]
fn bump_asset_face_last_seen_at_writes_value() {
    let db = Db::open();
    db.insert(&test_record(id("m1")));
    db.face(&face_row("f1", "m1", None));
    db.exec(FacesRepository::bump_asset_face_last_seen_at("f1", 12345));
    assert_eq!(db.number("SELECT last_seen_at FROM asset_faces"), 12345);
}

#[test]
fn bump_asset_face_last_seen_at_missing_id_is_noop() {
    let db = Db::open();
    assert_eq!(db.exec(FacesRepository::bump_asset_face_last_seen_at("ghost", 12345)), 0);
}

#[test]
fn delete_people_with_stale_heartbeat_removes_only_eligible_rows() {
    let db = Db::open();
    db.person("p1", "Stale", false);
    db.exec(FacesRepository::bump_person_last_seen_at("p1", 100));
    db.person("p2", "Fresh", false);
    db.exec(FacesRepository::bump_person_last_seen_at("p2", 300));
    assert_eq!(db.texts(FacesRepository::people_with_stale_heartbeat(200)), vec!["p1"]);
    db.exec(FacesRepository::delete_people_with_stale_heartbeat(200));
    assert_eq!(db.number("SELECT COUNT(*) FROM people"), 1);
}

#[test]
fn delete_people_with_stale_heartbeat_nullifies_referencing_face_person_id() {
    let db = Db::open();
    db.insert(&test_record(id("m1")));
    db.person("p1", "Stale", false);
    db.exec(FacesRepository::bump_person_last_seen_at("p1", 100));
    db.face(&face_row("f1", "m1", Some("p1")));
    db.exec(FacesRepository::delete_people_with_stale_heartbeat(200));
    assert_eq!(db.text("SELECT person_id FROM asset_faces WHERE id = 'f1'"), None);
}

#[test]
fn delete_people_with_stale_heartbeat_emits_person_removed_per_id() {
    let db = Db::open();
    for p in ["p1", "p2"] {
        db.person(p, p, false);
        db.exec(FacesRepository::bump_person_last_seen_at(p, 100));
    }
    let removed = db.texts(FacesRepository::people_with_stale_heartbeat(200));
    db.exec(FacesRepository::delete_people_with_stale_heartbeat(200));
    let told = FacesService::people_removed(&removed);
    assert_eq!(told.len(), 2);
    for p in ["p1", "p2"] {
        assert!(told
            .iter()
            .any(|e| matches!(e, FacesEvent::PersonRemoved(id) if id.as_str() == p)));
    }
}

#[test]
fn delete_asset_faces_with_stale_heartbeat_removes_only_eligible_rows() {
    let db = Db::open();
    db.insert(&test_record(id("m1")));
    for (face, beat) in [("stale", 100), ("fresh", 300)] {
        db.face(&face_row(face, "m1", None));
        db.exec(FacesRepository::bump_asset_face_last_seen_at(face, beat));
    }
    assert_eq!(db.exec(FacesRepository::delete_asset_faces_with_stale_heartbeat(200)), 1);
    assert_eq!(db.text("SELECT id FROM asset_faces").as_deref(), Some("fresh"));
}

#[test]
fn delete_asset_faces_with_stale_heartbeat_recomputes_face_count() {
    let db = Db::open();
    db.insert(&test_record(id("m1")));
    db.person("p1", "Alice", false);
    for (face, beat) in [("stale", 100), ("fresh", 300)] {
        db.face(&face_row(face, "m1", Some("p1")));
        db.exec(FacesRepository::bump_asset_face_last_seen_at(face, beat));
    }
    db.count_faces("p1");
    let affected = db.texts(FacesRepository::persons_with_stale_faces(200));
    assert_eq!(affected, vec!["p1"]);
    db.exec(FacesRepository::delete_asset_faces_with_stale_heartbeat(200));
    db.count_faces("p1");
    assert_eq!(db.people()[0].face_count, 1);
}

// ── Metadata, edits, queue, sync ─────────────────────────────────────────────

fn no_metadata(media_id: MediaId) -> MediaMetadataRecord {
    MediaMetadataRecord {
        media_id,
        camera_make: None,
        camera_model: None,
        lens_model: None,
        aperture: None,
        shutter_str: None,
        iso: None,
        focal_length: None,
        gps_lat: None,
        gps_lon: None,
        gps_alt: None,
        color_space: None,
    }
}

fn sample_metadata(media_id: MediaId) -> MediaMetadataRecord {
    MediaMetadataRecord {
        media_id,
        camera_make: Some("Canon".to_string()),
        camera_model: Some("EOS R5".to_string()),
        lens_model: Some("RF 50mm F1.2L".to_string()),
        aperture: Some(1.2f32.to_bits()),
        shutter_str: Some("1/500".to_string()),
        iso: Some(400),
        focal_length: Some(50.0f32.to_bits()),
        gps_lat: Some(48.8566f64.to_bits()),
        gps_lon: Some(2.3522f64.to_bits()),
        gps_alt: Some(35.0f64.to_bits()),
        color_space: Some("sRGB".to_string()),
    }
}

#[test]
fn has_data_false_when_all_none() {
    assert!(!no_metadata(id("x")).has_data());
}

#[test]
fn has_data_true_with_single_field() {
    assert!(MediaMetadataRecord {
        camera_make: Some("Canon".to_string()),
        ..no_metadata(id("x"))
    }
    .has_data());
    assert!(MediaMetadataRecord {
        gps_alt: Some(0),
        ..no_metadata(id("x"))
    }
    .has_data());
}

#[test]
fn get_returns_none_when_no_metadata() {
    let db = Db::open();
    db.insert(&test_record(long_id("a")));
    assert!(db.metadata(&long_id("a")).is_none());
}

#[test]
fn insert_and_get_roundtrip() {
    let db = Db::open();
    let id = long_id("b");
    db.insert(&test_record(id.clone()));
    db.maybe(MetadataRepository::insert(&sample_metadata(id.clone())));
    let fetched = db.metadata(&id).unwrap();
    assert_eq!(fetched.media_id, id);
    assert_eq!(fetched.camera_make.as_deref(), Some("Canon"));
    assert_eq!(fetched.camera_model.as_deref(), Some("EOS R5"));
    assert_eq!(fetched.lens_model.as_deref(), Some("RF 50mm F1.2L"));
    assert_eq!(fetched.aperture.map(f32::from_bits), Some(1.2));
    assert_eq!(fetched.shutter_str.as_deref(), Some("1/500"));
    assert_eq!(fetched.iso, Some(400));
    assert_eq!(fetched.focal_length.map(f32::from_bits), Some(50.0));
    assert_eq!(fetched.gps_lat.map(f64::from_bits), Some(48.8566));
    assert_eq!(fetched.gps_lon.map(f64::from_bits), Some(2.3522));
    assert_eq!(fetched.gps_alt.map(f64::from_bits), Some(35.0));
    assert_eq!(fetched.color_space.as_deref(), Some("sRGB"));
}

#[test]
fn insert_skips_empty_record() {
    let db = Db::open();
    let id = long_id("c");
    db.insert(&test_record(id.clone()));
    assert!(MetadataRepository::insert(&no_metadata(id.clone())).is_none());
    assert!(MetadataRepository::upsert(&no_metadata(id.clone())).is_none());
    assert!(db.metadata(&id).is_none());
}

#[test]
fn insert_updates_on_conflict() {
    let db = Db::open();
    let id = long_id("d");
    db.insert(&test_record(id.clone()));
    db.maybe(MetadataRepository::insert(&sample_metadata(id.clone())));
    db.maybe(MetadataRepository::insert(&MediaMetadataRecord {
        camera_make: Some("Nikon".to_string()),
        iso: Some(800),
        ..no_metadata(id.clone())
    }));
    let fetched = db.metadata(&id).unwrap();
    assert_eq!(fetched.camera_make.as_deref(), Some("Nikon"));
    assert_eq!(fetched.iso, Some(800));
    assert!(fetched.camera_model.is_none());
}

#[test]
fn upsert_inserts_new_record() {
    let db = Db::open();
    let id = long_id("e");
    db.insert(&test_record(id.clone()));
    db.maybe(MetadataRepository::upsert(&sample_metadata(id.clone())));
    assert_eq!(db.metadata(&id).unwrap().camera_make.as_deref(), Some("Canon"));
}

#[test]
fn upsert_replaces_existing_record() {
    let db = Db::open();
    let id = long_id("f");
    db.insert(&test_record(id.clone()));
    db.maybe(MetadataRepository::insert(&sample_metadata(id.clone())));
    db.maybe(MetadataRepository::upsert(&MediaMetadataRecord {
        camera_make: Some("Sony".to_string()),
        camera_model: Some("A7IV".to_string()),
        ..no_metadata(id.clone())
    }));
    let fetched = db.metadata(&id).unwrap();
    assert_eq!(fetched.camera_make.as_deref(), Some("Sony"));
    assert_eq!(fetched.camera_model.as_deref(), Some("A7IV"));
    assert!(fetched.lens_model.is_none());
}

#[test]
fn get_nonexistent_returns_none() {
    let db = Db::open();
    assert!(db.rows(EditingRepository::get_edit_state(&id("abc123"))).is_empty());
}

#[test]
fn upsert_and_get_round_trip() {
    let db = Db::open();
    db.insert(&test_record(id("abc123")));
    db.exec(EditingRepository::upsert_edit_state(&id("abc123"), "{\"version\":1}", 10));
    assert_eq!(
        db.texts(EditingRepository::get_edit_state(&id("abc123"))),
        vec!["{\"version\":1}"]
    );
}

#[test]
fn upsert_overwrites_and_clears_rendered() {
    let db = Db::open();
    let id = id("abc123");
    db.insert(&test_record(id.clone()));
    let pending = || !db.rows(EditingRepository::has_pending_edits(&id)).is_empty();
    db.exec(EditingRepository::upsert_edit_state(&id, "{}", 10));
    assert!(pending());
    db.exec(EditingRepository::mark_edit_rendered(&id, 10));
    assert!(!pending());
    db.exec(EditingRepository::upsert_edit_state(&id, "{}", 10));
    assert!(pending());
}

#[test]
fn delete_removes_edit_state() {
    let db = Db::open();
    let id = id("abc123");
    db.insert(&test_record(id.clone()));
    db.exec(EditingRepository::upsert_edit_state(&id, "{}", 10));
    assert_eq!(db.texts(EditingRepository::get_edit_state(&id)).len(), 1);
    db.exec(EditingRepository::delete_edit_state(&id));
    assert!(db.texts(EditingRepository::get_edit_state(&id)).is_empty());
}

#[test]
fn has_pending_edits_returns_false_when_no_edits() {
    let db = Db::open();
    assert!(db.rows(EditingRepository::has_pending_edits(&id("abc123"))).is_empty());
}

#[test]
fn renderings_are_pointed_to() {
    let db = Db::open();
    db.insert(&test_record(id("o")));
    db.exec(EditingRepository::upsert_edit_state(&id("o"), "{}", 10));
    let pointed = || -> Option<String> {
        db.rows(EditingRepository::server_rendered_asset_id(&id("o")))[0].get(0)
    };
    assert_eq!(pointed(), None);
    db.exec(EditingRepository::set_server_rendered_asset_id(&id("o"), &id("r")));
    assert_eq!(pointed().as_deref(), Some("r"));
}

#[test]
fn thumbnails_come_and_fail() {
    let db = Db::open();
    for name in ["a", "b"] {
        db.insert(&test_record(id(name)));
        db.exec(ThumbnailRepository::insert_thumbnail_pending(&id(name)));
    }
    let status = |name: &str| {
        db.rows(ThumbnailRepository::thumbnail_status(&id(name)))
            .first()
            .map(|r| ThumbnailStatus::from_i64(r.get(0)))
    };
    assert_eq!(status("a"), Some(ThumbnailStatus::Pending));
    assert_eq!(status("z"), None);
    db.exec(ThumbnailRepository::set_thumbnail_ready(&id("a"), "x/a.webp", 7));
    db.exec(ThumbnailRepository::set_thumbnail_failed(&id("b")));
    db.exec(ThumbnailRepository::insert_thumbnail_pending(&id("a")));
    assert_eq!(status("a"), Some(ThumbnailStatus::Ready));
    assert_eq!(status("b"), Some(ThumbnailStatus::Failed));
    assert_eq!(
        db.text("SELECT file_path || generated_at FROM thumbnails WHERE media_id = 'a'").as_deref(),
        Some("x/a.webp7")
    );
}

#[test]
fn failed_uploads_stay_in_the_queue() {
    let db = Db::open();
    let job = ImmichImportJob { formats: FormatRegistry::new() };
    let mut run = UploadRun::begin(vec!["/a.jpg".to_string(), "/b.jpg".to_string()], 7);
    loop {
        run = match run.step() {
            UploadStep::Queue(st) => {
                db.exec(st);
                run.after_queueing()
            }
            UploadStep::File { path, .. } => {
                let state = if path == "/a.jpg" {
                    let hash = UploadState::Hash { source: SourceFile::from_path(path) };
                    let gone = UploadReply::Failed(LibraryError::Io("gone".to_string()));
                    job.advance(hash, gone).0
                } else {
                    UploadState::SetStatus {
                        path,
                        status: UploadStatus::Uploaded,
                        result: UploadResult::Created,
                    }
                };
                db.exec(state.queue_statement().unwrap());
                match job.advance(state, UploadReply::Done).0 {
                    UploadState::Finished { result } => run.settle(&result),
                    other => panic!("{other:?}"),
                }
            }
            UploadStep::Clear(st) => {
                assert_eq!(db.exec(st), 1);
                run.after_clearing()
            }
            UploadStep::Complete { event } => {
                assert!(matches!(event, AppEvent::ImportComplete { summary }
                    if summary.imported == 1 && summary.failed == 1));
                break;
            }
        };
    }
    assert_eq!(db.text("SELECT file_path FROM upload_queue").as_deref(), Some("/a.jpg"));
    assert_eq!(db.number("SELECT status FROM upload_queue"), 2);
    assert_eq!(
        db.text("SELECT error_msg FROM upload_queue").as_deref(),
        Some("I/O error: gone")
    );
}

#[test]
fn upload_queue_keeps_what_is_not_done() {
    let db = Db::open();
    for (path, status) in [
        ("/a", UploadStatus::Pending),
        ("/b", UploadStatus::Uploaded),
        ("/c", UploadStatus::Failed),
        ("/d", UploadStatus::Skipped),
    ] {
        db.exec(UploadQueue::insert_upload_pending(path, 1));
        db.exec(UploadQueue::insert_upload_pending(path, 2));
        db.exec(UploadQueue::set_upload_hash(path, "h"));
        db.exec(UploadQueue::set_upload_status(path, status, &None));
    }
    let because = Some("no route".to_string());
    db.exec(UploadQueue::set_upload_status("/c", UploadStatus::Failed, &because));
    assert_eq!(db.exec(UploadQueue::clear_completed_uploads()), 2);
    assert_eq!(db.text("SELECT group_concat(file_path) FROM upload_queue").as_deref(), Some("/a,/c"));
    assert_eq!(
        db.text("SELECT error_msg FROM upload_queue WHERE file_path = '/c'"),
        because
    );
    assert_eq!(db.number("SELECT created_at FROM upload_queue WHERE file_path = '/a'"), 1);
    assert_eq!(
        db.text("SELECT sha1_hash FROM upload_queue WHERE file_path = '/a'").as_deref(),
        Some("h")
    );
}

#[test]
fn sync_state_is_kept() {
    let db = Db::open();
    let acks = vec![
        ("AssetV1".to_string(), "1".to_string()),
        ("AlbumV1".to_string(), "2".to_string()),
    ];
    db.maybe(SyncRepository::save_sync_checkpoints(&acks));
    db.maybe(SyncRepository::save_sync_checkpoints(&vec![(
        "AssetV1".to_string(),
        "3".to_string(),
    )]));
    assert!(SyncRepository::save_sync_checkpoints(&vec![]).is_none());
    assert_eq!(
        db.text("SELECT ack FROM sync_checkpoints WHERE entity_type = 'AssetV1'").as_deref(),
        Some("3")
    );
    assert_eq!(db.number("SELECT COUNT(*) FROM sync_checkpoints"), 2);
    db.exec(SyncRepository::clear_sync_checkpoints());
    assert_eq!(db.number("SELECT COUNT(*) FROM sync_checkpoints"), 0);
    db.exec(SyncRepository::start_sync_audit("AssetV1", "e1", "t0", "c"));
    db.exec(SyncRepository::start_sync_audit("AssetV1", "e2", "t0", "c"));
    db.exec(SyncRepository::complete_sync_audit(1, "e9", "skip", "t1"));
    db.exec(SyncRepository::fail_sync_audit(2, "broken", "t2"));
    assert_eq!(
        db.text("SELECT action || entity_id || completed_at FROM sync_audit WHERE id = 1").as_deref(),
        Some("skipe9t1")
    );
    assert_eq!(
        db.text("SELECT action || error_msg || completed_at FROM sync_audit WHERE id = 2").as_deref(),
        Some("errorbrokent2")
    );
}
