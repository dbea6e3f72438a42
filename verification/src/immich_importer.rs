//! Imports into an Immich library: local files are uploaded to the server.
//!
//! The upload of one file is a machine: a state says what is to be done next, and
//! the reply leads to the next state and to what the application is told.

use vstd::prelude::*;
use vstd::string::*;

use crate::calendar::{is_representable, writes_a_moment, writes_moment};
use crate::error::{prefixed, LibraryError};
use crate::event::AppEvent;
use crate::format::{video_extensions, DetectedFormat, FormatRegistry};
use crate::ident::is_hex_digit;
use crate::immich_client::{upload_name, uploaded_name, UploadResponse};
use crate::import::{FileResult, SkipReason};
use crate::importer::{class_extension, lower_extension, SourceFile};
use crate::media::{MediaId, MediaItem, MediaRecord, MediaType};
use crate::sql::{opt_text, text, PartData, Statement};
use crate::text::{ascii_lower, text_eq};
use crate::upload::{hash_update, status_update, UploadQueue, UploadStatus};

verus! {

// ── Outside calls ────────────────────────────────────────────────────────────

/// The SHA-1 hash of some bytes, as lower-case hexadecimal digits.
pub uninterp spec fn sha1_hex(bytes: Seq<u8>) -> Seq<char>;

/// Calls `sha1::Sha1::digest` and writes the hash in hexadecimal. The claim is that
/// it depends on the bytes alone, and that its 20 bytes make 40 lower-case digits.
#[verifier::external_body]
fn sha1_digest(bytes: &[u8]) -> (r: String)
    ensures
        r@ == sha1_hex(bytes@),
        r@.len() == 40,
        forall|i: int| 0 <= i < 40 ==> is_hex_digit(#[trigger] r@[i]),
{
    format!("{:x}", <sha1::Sha1 as sha1::Digest>::digest(bytes))
}

/// Calls `chrono::DateTime::from_timestamp` and `chrono::DateTime::to_rfc3339`, which write
/// the moment in UTC; nothing where chrono cannot represent it.
#[verifier::external_body]
fn rfc3339(seconds: i64) -> (r: Option<String>)
    ensures
        r is Some <==> is_representable(seconds),
        r matches Some(s) ==> writes_moment(s@, seconds as int),
{
    chrono::DateTime::from_timestamp(seconds, 0).map(|t| t.to_rfc3339())
}

/// Calls `chrono::Utc::now` and `chrono::DateTime::to_rfc3339`. Which moment comes is
/// left to the clock.
#[verifier::external_body]
fn rfc3339_now() -> (r: String)
    ensures
        writes_a_moment(r@),
{
    chrono::Utc::now().to_rfc3339()
}

/// The hash by which the server knows a file with the given content.
pub fn content_checksum(bytes: &[u8]) -> (r: String)
    ensures
        r@ == sha1_hex(bytes@),
        r@.len() == 40,
        forall|i: int| 0 <= i < 40 ==> is_hex_digit(#[trigger] r@[i]),
{
    sha1_digest(bytes)
}

// ── The machine ──────────────────────────────────────────────────────────────

/// What goes to the server with a file.
#[derive(Debug)]
pub struct UploadRequest {
    pub file_name: String,
    pub device_asset_id: String,
    pub file_created_at: String,
    pub file_modified_at: String,
    pub checksum: String,
}

/// What came of a file.
#[derive(Debug)]
pub enum UploadResult {
    Created,
    /// The server holds the file already.
    Duplicate,
    /// The format is not supported.
    Unsupported,
    Failed(LibraryError),
}

/// What the upload of a file needs next.
#[derive(Debug)]
pub enum UploadState {
    /// Look at the first bytes of the file.
    Sniff { source: SourceFile },
    /// Read the file and hash it with [`content_checksum`].
    Hash { source: SourceFile },
    /// Store the hash in the queue. That this fails does not matter.
    StoreHash { source: SourceFile, checksum: String },
    /// Read when the file was created and last modified.
    ReadTimes { source: SourceFile, checksum: String },
    /// Upload the file.
    Upload { source: SourceFile, request: UploadRequest },
    /// Read the size of the file.
    ReadSize { source: SourceFile, id: String },
    /// Store the asset in the local cache.
    Upsert { source: SourceFile, record: MediaRecord, item: MediaItem },
    /// Store how far the file has come in the queue. That this fails does not matter.
    SetStatus { path: String, status: UploadStatus, result: UploadResult },
    Finished { result: UploadResult },
}

/// What came back.
#[derive(Debug)]
pub enum UploadReply {
    /// What the first bytes say; nothing where they could not be read.
    Sniffed(Option<DetectedFormat>),
    /// The hash of the file.
    Hashed(String),
    /// Seconds since 1970 at which the file was created and last modified, as far as
    /// they are known.
    Times { created: Option<u64>, modified: Option<u64> },
    /// The server's answer.
    Uploaded(UploadResponse),
    /// The size of the file, 0 where it is not known, and the current time.
    Size { size: u64, now: i64 },
    Done,
    Failed(LibraryError),
}

/// Whether `s` writes a time of a file, given in seconds since 1970: the moment itself
/// where it is known and can be represented, else any other.
pub open spec fn writes_time(s: Seq<char>, seconds: Option<u64>) -> bool {
    match seconds {
        Some(n) => if is_representable(n as i64) {
            writes_moment(s, (n as i64) as int)
        } else {
            writes_a_moment(s)
        },
        None => writes_a_moment(s),
    }
}

/// The times of a file in RFC 3339: when it was created and last modified. A time that
/// cannot be written is the current one, and so is every time that is not known: of two
/// such, both are the same.
pub fn file_times(created: Option<u64>, modified: Option<u64>) -> (r: (String, String))
    ensures
        writes_time(r.0@, created),
        writes_time(r.1@, modified),
        created is None && modified is None ==> r.0@ == r.1@,
{
    let now = rfc3339_now();
    (file_time(created, &now), file_time(modified, &now))
}

fn file_time(seconds: Option<u64>, now: &String) -> (r: String)
    requires
        writes_a_moment(now@),
    ensures
        writes_time(r@, seconds),
        seconds is None ==> r@ == now@,
{
    match seconds {
        Some(n) => match rfc3339(n as i64) {
            Some(t) => t,
            None => rfc3339_now(),
        },
        None => now.clone(),
    }
}

/// The server's name for a file on this device.
pub open spec fn device_asset_id(name: Seq<char>, checksum: Seq<char>) -> Seq<char> {
    name + "-"@ + checksum
}

/// Whether `r` asks for the upload of `source`.
pub open spec fn asks_for(
    r: UploadRequest,
    source: SourceFile,
    checksum: Seq<char>,
    created: Seq<char>,
    modified: Seq<char>,
) -> bool {
    &&& r.file_name@ == uploaded_name(source.file_name)
    &&& r.device_asset_id@ == device_asset_id(uploaded_name(source.file_name), checksum)
    &&& r.file_created_at@ == created
    &&& r.file_modified_at@ == modified
    &&& r.checksum@ == checksum
}

/// Makes the request for the upload of a file.
pub fn upload_request(
    source: &SourceFile,
    checksum: String,
    created: String,
    modified: String,
) -> (r: UploadRequest)
    ensures
        asks_for(r, *source, checksum@, created@, modified@),
{
    let file_name = upload_name(&source.file_name);
    let mut id = prefixed(file_name.as_str(), "-");
    id.append(checksum.as_str());
    UploadRequest {
        file_name,
        device_asset_id: id,
        file_created_at: created,
        file_modified_at: modified,
        checksum,
    }
}

/// The kind of an uploaded file, by its extension.
pub open spec fn uploaded_kind(source: SourceFile) -> MediaType {
    if video_extensions().contains(ascii_lower(class_extension(source))) {
        MediaType::Video
    } else {
        MediaType::Image
    }
}

/// Whether `r` caches the asset that the server calls `id`: the server reads the EXIF
/// block, so nothing is known of it here.
pub open spec fn caches(
    r: MediaRecord,
    source: SourceFile,
    id: Seq<char>,
    size: u64,
    now: i64,
) -> bool {
    &&& r.id@ == id
    &&& r.content_hash is None
    &&& r.external_id is None
    &&& r.relative_path@ == "immich/"@ + id
    &&& r.original_filename@ == uploaded_name(source.file_name)
    &&& r.file_size == size as i64
    &&& r.imported_at == now
    &&& r.media_type == uploaded_kind(source)
    &&& r.taken_at is None && r.width is None && r.height is None
    &&& r.orientation == 1
    &&& r.duration_ms is None
    &&& !r.is_favorite && !r.is_trashed && r.trashed_at is None && !r.is_moments_render
}

/// Whether `i` shows the asset that `r` caches.
pub open spec fn shows(i: MediaItem, r: MediaRecord) -> bool {
    &&& i.id@ == r.id@
    &&& i.taken_at == r.taken_at
    &&& i.imported_at == r.imported_at
    &&& i.original_filename@ == r.original_filename@
    &&& i.width == r.width && i.height == r.height
    &&& i.orientation == r.orientation
    &&& i.media_type == r.media_type
    &&& i.is_favorite == r.is_favorite && i.is_trashed == r.is_trashed
    &&& i.trashed_at == r.trashed_at
    &&& i.duration_ms == r.duration_ms
    &&& i.stack_id is None
    &&& i.is_moments_render == r.is_moments_render
}

impl UploadState {
    /// Whether the state can have this reply. What the queue says never stops an
    /// upload.
    pub open spec fn admits(self, reply: UploadReply) -> bool {
        match self {
            UploadState::Sniff { .. } => reply is Sniffed,
            UploadState::Hash { .. } => reply is Hashed || reply is Failed,
            UploadState::StoreHash { .. } => reply is Done || reply is Failed,
            UploadState::ReadTimes { .. } => reply is Times,
            UploadState::Upload { .. } => reply is Uploaded || reply is Failed,
            UploadState::ReadSize { .. } => reply is Size,
            UploadState::Upsert { .. } => reply is Done || reply is Failed,
            UploadState::SetStatus { .. } => reply is Done || reply is Failed,
            UploadState::Finished { .. } => false,
        }
    }

    /// Whether a reply leads from this state to the next, telling `told`.
    ///
    /// A file of an unsupported format is not read. The queue learns of every file
    /// that came to an end here, and of the hash of every file that was read. A file
    /// that the server holds already is not cached again. A new asset is told of once
    /// it is cached.
    pub open spec fn leads_to(
        self,
        formats: Map<Seq<char>, usize>,
        reply: UploadReply,
        next: UploadState,
        told: Option<AppEvent>,
    ) -> bool {
        match (self, reply) {
            (UploadState::Sniff { source }, UploadReply::Sniffed(detected)) => {
                &&& told is None
                &&& match FormatRegistry::kind_by_content(
                    formats,
                    detected,
                    class_extension(source),
                ) {
                    None => next == (UploadState::SetStatus {
                        path: source.path,
                        status: UploadStatus::Skipped,
                        result: UploadResult::Unsupported,
                    }),
                    Some(_) => next == (UploadState::Hash { source }),
                }
            },
            (UploadState::Hash { source }, UploadReply::Hashed(checksum)) => {
                &&& told is None
                &&& next == (UploadState::StoreHash { source, checksum })
            },
            (UploadState::StoreHash { source, checksum }, _) => {
                &&& told is None
                &&& next == (UploadState::ReadTimes { source, checksum })
            },
            (
                UploadState::ReadTimes { source, checksum },
                UploadReply::Times { created, modified },
            ) => {
                &&& told is None
                &&& next matches UploadState::Upload { source: s, request }
                &&& s == source
                &&& asks_for(
                    request,
                    source,
                    checksum@,
                    request.file_created_at@,
                    request.file_modified_at@,
                )
                &&& writes_time(request.file_created_at@, created)
                &&& writes_time(request.file_modified_at@, modified)
                &&& created is None && modified is None ==> request.file_created_at@
                    == request.file_modified_at@
            },
            (UploadState::Upload { source, .. }, UploadReply::Uploaded(response)) => {
                &&& told is None
                &&& if response.status@ == "duplicate"@ {
                    next == (UploadState::SetStatus {
                        path: source.path,
                        status: UploadStatus::Skipped,
                        result: UploadResult::Duplicate,
                    })
                } else {
                    next == (UploadState::ReadSize { source, id: response.id })
                }
            },
            (UploadState::ReadSize { source, id }, UploadReply::Size { size, now }) => {
                &&& told is None
                &&& next matches UploadState::Upsert { source: s, record, item }
                &&& s == source
                &&& caches(record, source, id@, size, now)
                &&& shows(item, record)
            },
            (UploadState::Upsert { source, item, .. }, UploadReply::Done) => {
                &&& told == Some(AppEvent::AssetSynced { item })
                &&& next == (UploadState::SetStatus {
                    path: source.path,
                    status: UploadStatus::Uploaded,
                    result: UploadResult::Created,
                })
            },
            (UploadState::SetStatus { result, .. }, _) => {
                &&& told is None
                &&& next == (UploadState::Finished { result })
            },
            (_, UploadReply::Failed(e)) => {
                &&& told is None
                &&& self.source() matches Some(source)
                &&& next == (UploadState::SetStatus {
                    path: source.path,
                    status: UploadStatus::Failed,
                    result: UploadResult::Failed(e),
                })
            },
            _ => false,
        }
    }

    /// The file that is being uploaded, as long as its result is open.
    pub open spec fn source(self) -> Option<SourceFile> {
        match self {
            UploadState::Sniff { source } => Some(source),
            UploadState::Hash { source } => Some(source),
            UploadState::StoreHash { source, .. } => Some(source),
            UploadState::ReadTimes { source, .. } => Some(source),
            UploadState::Upload { source, .. } => Some(source),
            UploadState::ReadSize { source, .. } => Some(source),
            UploadState::Upsert { source, .. } => Some(source),
            _ => None,
        }
    }

    /// What the queue is to store of a result besides its status: what went wrong.
    pub open spec fn stored_error(result: UploadResult) -> PartData {
        match result {
            UploadResult::Failed(e) => text(e.text()),
            _ => opt_text(None),
        }
    }

    /// What is written into the queue in this state.
    pub open spec fn writes(self) -> Option<Seq<PartData>> {
        match self {
            UploadState::StoreHash { source, checksum } => Some(
                hash_update(source.path@, checksum@),
            ),
            UploadState::SetStatus { path, status, result } => Some(
                status_update(path@, status, Self::stored_error(result)),
            ),
            _ => None,
        }
    }

    /// The statement for the queue, where the state has one.
    pub fn queue_statement(&self) -> (r: Option<Statement>)
        ensures
            match r {
                Some(q) => self.writes() == Some(q@),
                None => self.writes() is None,
            },
    {
        match self {
            UploadState::StoreHash { source, checksum } => Some(
                UploadQueue::set_upload_hash(source.path.as_str(), checksum.as_str()),
            ),
            UploadState::SetStatus { path, status, result } => {
                let (_, error) = settle_upload(result);
                Some(UploadQueue::set_upload_status(path.as_str(), *status, &error))
            },
            _ => None,
        }
    }
}

/// Builds what is cached and told of an asset that the server has just created.
fn cached(source: SourceFile, id: String, size: u64, now: i64, video: bool) -> (r: UploadState)
    requires
        video == (uploaded_kind(source) is Video),
    ensures
        r matches UploadState::Upsert { source: s, record, item } && s == source && caches(
            record,
            source,
            id@,
            size,
            now,
        ) && shows(item, record),
{
    let media_type = if video {
        MediaType::Video
    } else {
        MediaType::Image
    };
    let record = MediaRecord {
        id: MediaId::new(id.clone()),
        content_hash: None,
        external_id: None,
        relative_path: prefixed("immich/", id.as_str()),
        original_filename: upload_name(&source.file_name),
        file_size: size as i64,
        imported_at: now,
        media_type,
        taken_at: None,
        width: None,
        height: None,
        orientation: 1,
        duration_ms: None,
        is_favorite: false,
        is_trashed: false,
        trashed_at: None,
        is_moments_render: false,
    };
    let item = MediaItem {
        id: MediaId::new(id),
        taken_at: None,
        imported_at: now,
        original_filename: upload_name(&source.file_name),
        width: None,
        height: None,
        orientation: 1,
        media_type,
        is_favorite: false,
        is_trashed: false,
        trashed_at: None,
        duration_ms: None,
        stack_id: None,
        is_moments_render: false,
    };
    UploadState::Upsert { source, record, item }
}

/// What follows from a failure: the queue learns of it.
fn failed(source: SourceFile, e: LibraryError) -> (r: UploadState)
    ensures
        r == (UploadState::SetStatus {
            path: source.path,
            status: UploadStatus::Failed,
            result: UploadResult::Failed(e),
        }),
{
    UploadState::SetStatus {
        path: source.path,
        status: UploadStatus::Failed,
        result: UploadResult::Failed(e),
    }
}

/// Uploads local files to the server.
pub struct ImmichImportJob {
    pub formats: FormatRegistry,
}

impl ImmichImportJob {
    /// Begins the upload of a file.
    pub fn upload_one(source: SourceFile) -> (r: UploadState)
        ensures
            r == (UploadState::Sniff { source }),
    {
        UploadState::Sniff { source }
    }

    /// Takes a reply.
    pub fn advance(&self, state: UploadState, reply: UploadReply) -> (r: (
        UploadState,
        Option<AppEvent>,
    ))
        requires
            state.admits(reply),
        ensures
            state.leads_to(self.formats@, reply, r.0, r.1),
            state matches UploadState::ReadSize { source, id } ==> (r.0 matches
                UploadState::Upsert { record, item, .. } && record.id@ == id@ && item.id@ == id@
                && (record.media_type is Video <==> video_extensions().contains(
                ascii_lower(class_extension(source)),
            )) && item.media_type == record.media_type),
    {
        match (state, reply) {
            (UploadState::Sniff { source }, UploadReply::Sniffed(detected)) => {
                let ext = lower_extension(&source);
                match self.formats.media_type_with_sniff(detected, ext.as_str()) {
                    None => (
                        UploadState::SetStatus {
                            path: source.path,
                            status: UploadStatus::Skipped,
                            result: UploadResult::Unsupported,
                        },
                        None,
                    ),
                    Some(_) => (UploadState::Hash { source }, None),
                }
            },
            (UploadState::Hash { source }, UploadReply::Hashed(checksum)) => (
                UploadState::StoreHash { source, checksum },
                None,
            ),
            (UploadState::StoreHash { source, checksum }, _) => (
                UploadState::ReadTimes { source, checksum },
                None,
            ),
            (
                UploadState::ReadTimes { source, checksum },
                UploadReply::Times { created, modified },
            ) => {
                let (created_at, modified_at) = file_times(created, modified);
                let request = upload_request(&source, checksum, created_at, modified_at);
                (UploadState::Upload { source, request }, None)
            },
            (
                UploadState::Upload { source, .. },
                UploadReply::Uploaded(response),
            ) => if text_eq(response.status.as_str(), "duplicate") {
                (
                    UploadState::SetStatus {
                        path: source.path,
                        status: UploadStatus::Skipped,
                        result: UploadResult::Duplicate,
                    },
                    None,
                )
            } else {
                (UploadState::ReadSize { source, id: response.id }, None)
            },
            (UploadState::ReadSize { source, id }, UploadReply::Size { size, now }) => {
                let ext = lower_extension(&source);
                let video = self.formats.is_video(ext.as_str());
                (cached(source, id, size, now, video), None)
            },
            (UploadState::Upsert { source, item, .. }, UploadReply::Done) => (
                UploadState::SetStatus {
                    path: source.path,
                    status: UploadStatus::Uploaded,
                    result: UploadResult::Created,
                },
                Some(AppEvent::AssetSynced { item }),
            ),
            (UploadState::SetStatus { result, .. }, _) => (UploadState::Finished { result }, None),
            (UploadState::Hash { source }, UploadReply::Failed(e)) => (failed(source, e), None),
            (UploadState::Upload { source, .. }, UploadReply::Failed(e)) => (
                failed(source, e),
                None,
            ),
            (UploadState::Upsert { source, .. }, UploadReply::Failed(e)) => (
                failed(source, e),
                None,
            ),
            (state, _) => (state, None),
        }
    }
}

/// How a result is counted.
pub open spec fn counted_upload(result: UploadResult) -> FileResult {
    match result {
        UploadResult::Created => FileResult::Imported,
        UploadResult::Duplicate => FileResult::Skipped(SkipReason::Duplicate),
        UploadResult::Unsupported => FileResult::Skipped(SkipReason::UnsupportedFormat),
        UploadResult::Failed(_) => FileResult::Failed,
    }
}

/// Whether `kept` is the error that the queue is to keep of a result.
pub open spec fn keeps_error(kept: Option<String>, result: UploadResult) -> bool {
    match result {
        UploadResult::Failed(e) => kept matches Some(m) && m@ == e.text(),
        _ => kept is None,
    }
}

/// How a result is counted, and the error that the queue is to keep where the upload
/// failed.
pub fn settle_upload(result: &UploadResult) -> (r: (FileResult, Option<String>))
    ensures
        r.0 == counted_upload(*result),
        keeps_error(r.1, *result),
        match *result {
            UploadResult::Failed(e) => r.1 matches Some(m) && m@ == e.text(),
            _ => r.1 is None,
        },
{
    match result {
        UploadResult::Created => (FileResult::Imported, None),
        UploadResult::Duplicate => (FileResult::Skipped(SkipReason::Duplicate), None),
        UploadResult::Unsupported => (FileResult::Skipped(SkipReason::UnsupportedFormat), None),
        UploadResult::Failed(e) => (FileResult::Failed, Some(e.to_string())),
    }
}

// ── Laws ─────────────────────────────────────────────────────────────────────

/// A run of the machine.
pub open spec fn is_upload(
    formats: Map<Seq<char>, usize>,
    states: Seq<UploadState>,
    replies: Seq<UploadReply>,
    told: Seq<Option<AppEvent>>,
) -> bool {
    &&& states.len() == replies.len() + 1
    &&& told.len() == replies.len()
    &&& states.first() is Sniff
    &&& forall|i: int|
        0 <= i < replies.len() ==> #[trigger] states[i].admits(replies[i]) && states[i].leads_to(
            formats,
            replies[i],
            states[i + 1],
            told[i],
        )
}

/// The queue never keeps an upload that came to an end as pending: the status of every
/// finished upload is stored just before, and it is the one for its result.
pub proof fn finished_uploads_leave_the_queue(
    formats: Map<Seq<char>, usize>,
    states: Seq<UploadState>,
    replies: Seq<UploadReply>,
    told: Seq<Option<AppEvent>>,
    k: int,
)
    requires
        is_upload(formats, states, replies, told),
        0 <= k < states.len(),
        states[k] is Finished,
    ensures
        k > 0,
        states[k - 1] matches UploadState::SetStatus { status, result, .. } && result
            == states[k]->Finished_result && status == status_for(result),
{
    assert(states[k - 1].admits(replies[k - 1]));
    assert(states[k - 1].leads_to(formats, replies[k - 1], states[k - 1 + 1], told[k - 1]));
    status_fits_result(formats, states, replies, told, k - 1);
}

/// The status that the queue keeps of a result.
pub open spec fn status_for(result: UploadResult) -> UploadStatus {
    match result {
        UploadResult::Created => UploadStatus::Uploaded,
        UploadResult::Failed(_) => UploadStatus::Failed,
        _ => UploadStatus::Skipped,
    }
}

proof fn status_fits_result(
    formats: Map<Seq<char>, usize>,
    states: Seq<UploadState>,
    replies: Seq<UploadReply>,
    told: Seq<Option<AppEvent>>,
    k: int,
)
    requires
        is_upload(formats, states, replies, told),
        0 <= k < states.len(),
        states[k] is SetStatus,
    ensures
        states[k]->SetStatus_status == status_for(states[k]->SetStatus_result),
{
    assert(states[k - 1].admits(replies[k - 1]));
    assert(states[k - 1].leads_to(formats, replies[k - 1], states[k - 1 + 1], told[k - 1]));
}

/// An asset is told of when, and only when, it has just been cached, and the upload
/// then counts as created.
pub proof fn created_assets_are_told(
    formats: Map<Seq<char>, usize>,
    state: UploadState,
    reply: UploadReply,
    next: UploadState,
    told: Option<AppEvent>,
)
    requires
        state.admits(reply),
        state.leads_to(formats, reply, next, told),
    ensures
        told is Some <==> state is Upsert && reply is Done,
        told is Some ==> next is SetStatus && next->SetStatus_result is Created,
{
}

} // verus!
