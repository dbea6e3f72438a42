//! What becomes of a file that is uploaded.

use vstd::prelude::*;

use crate::error::LibraryError;
use crate::event::AppEvent;
use crate::format::extensions::{all_extensions, extensions_are_distinct};
use crate::format::{raw_extensions, standard_extensions, video_extensions, DetectedFormat};
use crate::immich_client::{upload_came_to, UploadResponse};
use crate::immich_importer::{
    counted_upload, is_upload, keeps_error, status_for, writes_time, UploadReply, UploadResult, UploadState,
};
use crate::import::{FileResult, SkipReason};
use crate::importer::{class_extension, SourceFile};
use crate::sql::{num, opt_text, text, PartData};
use crate::text::ascii_lower;
use crate::upload::{clearing, queueing, status_update, UploadStatus};

verus! {

// ── What is cached ───────────────────────────────────────────────────────────

/// A file that the server has just created is cached as a video exactly where its extension,
/// in lower case, is one of the video extensions, and as an image otherwise. What is told of
/// it is of the same kind.
pub proof fn uploads_are_cached_by_their_extension(
    formats: Map<Seq<char>, usize>,
    source: SourceFile,
    id: String,
    reply: UploadReply,
    next: UploadState,
    told: Option<AppEvent>,
)
    requires
        reply is Size,
        (UploadState::ReadSize { source, id }).leads_to(formats, reply, next, told),
    ensures
        next is Upsert,
        next->Upsert_record.media_type is Video <==> video_extensions().contains(
            ascii_lower(class_extension(source)),
        ),
        next->Upsert_record.media_type is Image <==> !video_extensions().contains(
            ascii_lower(class_extension(source)),
        ),
        next->Upsert_item.media_type == next->Upsert_record.media_type,
{
}

/// A file with the extension of a picture, such as `jpg` or a RAW format, is cached as an
/// image, and one with a video extension as a video.
pub proof fn pictures_are_cached_as_images(
    formats: Map<Seq<char>, usize>,
    source: SourceFile,
    id: String,
    reply: UploadReply,
    next: UploadState,
    told: Option<AppEvent>,
    i: int,
)
    requires
        reply is Size,
        (UploadState::ReadSize { source, id }).leads_to(formats, reply, next, told),
        0 <= i < all_extensions().len(),
        class_extension(source) == all_extensions()[i],
    ensures
        next is Upsert,
        i < standard_extensions().len() + raw_extensions().len()
            ==> next->Upsert_record.media_type is Image,
        i >= standard_extensions().len() + raw_extensions().len()
            ==> next->Upsert_record.media_type is Video,
{
    let n = standard_extensions().len() + raw_extensions().len();
    let ext = all_extensions()[i];
    extensions_are_distinct(i, i);
    assert(ascii_lower(ext) == ext);
    if i < n {
        if video_extensions().contains(ext) {
            let j = choose|j: int| 0 <= j < video_extensions().len() && video_extensions()[j] == ext;
            assert(all_extensions()[n + j] == ext);
            extensions_are_distinct(i, n + j);
        }
    } else {
        assert(video_extensions()[i - n] == ext);
    }
}

/// What is cached of a new asset is what the server called it, how large the file is and when
/// it was uploaded, under the file's own name; nothing that only the server can read is made
/// up. What is told of it shows the same.
pub proof fn uploads_are_cached_as_sent(
    formats: Map<Seq<char>, usize>,
    source: SourceFile,
    id: String,
    size: u64,
    now: i64,
    next: UploadState,
    told: Option<AppEvent>,
)
    requires
        (UploadState::ReadSize { source, id }).leads_to(
            formats,
            UploadReply::Size { size, now },
            next,
            told,
        ),
    ensures
        next is Upsert,
        ({
            let r = next->Upsert_record;
            let i = next->Upsert_item;
            &&& next->Upsert_source == source
            &&& r.id@ == id@ && i.id@ == id@
            &&& r.relative_path@ == "immich/"@ + id@
            &&& source.file_name matches Some(n) ==> r.original_filename@ == n@
                && i.original_filename@ == n@
            &&& size <= i64::MAX ==> r.file_size == size
            &&& r.imported_at == now && i.imported_at == now
            &&& r.taken_at is None && i.taken_at is None
            &&& r.width is None && r.height is None && i.width is None && i.height is None
            &&& r.orientation == 1 && i.orientation == 1
            &&& r.duration_ms is None && i.duration_ms is None
            &&& !r.is_favorite && !i.is_favorite && !r.is_trashed && !i.is_trashed
            &&& r.trashed_at is None && i.trashed_at is None && i.stack_id is None
            &&& !r.is_moments_render && !i.is_moments_render
            &&& r.content_hash is None && r.external_id is None
            &&& told is None
        }),
{
}

// ── What is sent ─────────────────────────────────────────────────────────────

/// A file goes to the server under its own name, with its checksum, and with the times at
/// which it was created and last modified, each in its own place. The server's name for it
/// on this device joins the file name and the checksum.
pub proof fn requests_describe_the_file(
    formats: Map<Seq<char>, usize>,
    source: SourceFile,
    checksum: String,
    created: Option<u64>,
    modified: Option<u64>,
    next: UploadState,
    told: Option<AppEvent>,
    name: String,
)
    requires
        source.file_name == Some(name),
        (UploadState::ReadTimes { source, checksum }).leads_to(
            formats,
            UploadReply::Times { created, modified },
            next,
            told,
        ),
    ensures
        next is Upload,
        next->Upload_source == source,
        next->request.file_name@ == name@,
        next->request.checksum@ == checksum@,
        next->request.device_asset_id@ == name@ + "-"@ + checksum@,
        writes_time(next->request.file_created_at@, created),
        writes_time(next->request.file_modified_at@, modified),
{
}

/// An answer says which asset the file is: with status 200 the server had it already, with
/// any other it is new, and the id is the one in the answer.
pub proof fn answers_tell_duplicates(
    r: Result<UploadResponse, LibraryError>,
    code: u16,
    id: Seq<char>,
)
    requires
        upload_came_to(r, code, Some(Some(id))),
    ensures
        r is Ok,
        r->Ok_0.id@ == id,
        r->Ok_0.status@ == "duplicate"@ <==> code == 200,
        code != 200 ==> r->Ok_0.status@ == "created"@,
{
    reveal_strlit("duplicate");
    reveal_strlit("created");
    assert("duplicate"@.len() != "created"@.len());
}

/// A duplicate is skipped and nothing is cached of it; any other answer leads on to the
/// asset's being cached under the id that the server gave.
pub proof fn duplicates_are_not_cached(
    formats: Map<Seq<char>, usize>,
    state: UploadState,
    response: UploadResponse,
    next: UploadState,
    told: Option<AppEvent>,
)
    requires
        state is Upload,
        state.leads_to(formats, UploadReply::Uploaded(response), next, told),
    ensures
        response.status@ == "duplicate"@ ==> next == (UploadState::SetStatus {
            path: state->Upload_source.path,
            status: UploadStatus::Skipped,
            result: UploadResult::Duplicate,
        }),
        response.status@ != "duplicate"@ ==> next == (UploadState::ReadSize {
            source: state->Upload_source,
            id: response.id,
        }),
        told is None,
{
}

/// A file is read and sent only where its format is supported: what its first bytes say goes
/// before its extension. Any other is skipped.
pub proof fn unsupported_files_are_not_sent(
    formats: Map<Seq<char>, usize>,
    source: SourceFile,
    detected: Option<DetectedFormat>,
    next: UploadState,
    told: Option<AppEvent>,
)
    requires
        (UploadState::Sniff { source }).leads_to(
            formats,
            UploadReply::Sniffed(detected),
            next,
            told,
        ),
    ensures
        ({
            let ext = ascii_lower(class_extension(source));
            let told_format = detected matches Some(d) && !(d is Unknown);
            let known = video_extensions().contains(ext) || formats.contains_key(ext);
            &&& told_format || known ==> next == (UploadState::Hash { source })
            &&& !told_format && !known ==> next == (UploadState::SetStatus {
                path: source.path,
                status: UploadStatus::Skipped,
                result: UploadResult::Unsupported,
            })
        }),
{
}

/// A new asset is told of as it was cached.
pub proof fn cached_assets_are_told(
    formats: Map<Seq<char>, usize>,
    state: UploadState,
    next: UploadState,
    told: Option<AppEvent>,
)
    requires
        state is Upsert,
        state.leads_to(formats, UploadReply::Done, next, told),
    ensures
        told == Some(AppEvent::AssetSynced { item: state->Upsert_item }),
        next == (UploadState::SetStatus {
            path: state->Upsert_source.path,
            status: UploadStatus::Uploaded,
            result: UploadResult::Created,
        }),
{
}

/// A failure of the reading, the sending or the caching is kept in the queue of its file, in
/// its own words.
pub proof fn failures_are_kept(
    formats: Map<Seq<char>, usize>,
    state: UploadState,
    e: LibraryError,
    next: UploadState,
    told: Option<AppEvent>,
)
    requires
        state is Hash || state is Upload || state is Upsert,
        state.leads_to(formats, UploadReply::Failed(e), next, told),
    ensures
        next is SetStatus,
        next->SetStatus_path == state.source()->0.path,
        next->SetStatus_status is Failed,
        next->SetStatus_result == UploadResult::Failed(e),
        next.writes() matches Some(q) && q.contains(text(e.text())) && q.contains(
            text(state.source()->0.path@),
        ) && q.contains(num(2)),
{
    let q = next.writes()->0;
    assert(q[3] == text(e.text()));
    assert(q[5] == text(next->SetStatus_path@));
    assert(q[1] == num(2));
}

/// An upload is about one and the same file from beginning to end.
pub proof fn an_upload_is_about_one_file(
    formats: Map<Seq<char>, usize>,
    states: Seq<UploadState>,
    replies: Seq<UploadReply>,
    told: Seq<Option<AppEvent>>,
    k: int,
)
    requires
        is_upload(formats, states, replies, told),
        0 <= k < states.len(),
    ensures
        states[k].source() is Some ==> states[k].source() == states[0].source(),
        states[k] is SetStatus ==> states[k]->SetStatus_path == states[0].source()->0.path,
    decreases k,
{
    if k > 0 {
        an_upload_is_about_one_file(formats, states, replies, told, k - 1);
        assert(states[k - 1].admits(replies[k - 1]));
        assert(states[k - 1].leads_to(formats, replies[k - 1], states[k - 1 + 1], told[k - 1]));
    }
}

// ── What is counted and queued ───────────────────────────────────────────────

/// A result counts as what it is, and the queue keeps it as what it is: only failures stay.
pub proof fn results_count_as_they_are(result: UploadResult)
    ensures
        counted_upload(result) is Imported <==> result is Created,
        counted_upload(result) is Failed <==> result is Failed,
        counted_upload(result) == FileResult::Skipped(SkipReason::Duplicate)
            <==> result is Duplicate,
        counted_upload(result) == FileResult::Skipped(SkipReason::UnsupportedFormat)
            <==> result is Unsupported,
        status_for(result) is Failed <==> result is Failed,
        status_for(result) is Uploaded <==> result is Created,
        !(status_for(result) is Pending),
{
}

/// The numbers of the statuses differ, so that none is taken for another, and what is queued
/// begins as pending.
pub proof fn statuses_are_told_apart(a: UploadStatus, b: UploadStatus)
    ensures
        a.number() == b.number() ==> a == b,
        UploadStatus::Pending.number() == 0,
{
}

/// What is written of a file into the queue is bound to that file.
pub proof fn queue_entries_name_their_file(
    path: Seq<char>,
    at: i64,
    status: UploadStatus,
    error: PartData,
)
    ensures
        queueing(path, at).contains(text(path)),
        queueing(path, at).contains(num(at)),
        status_update(path, status, error).last() == text(path),
        status_update(path, status, error).contains(num(status.number())),
        status_update(path, status, error).contains(error),
        forall|i: int|
            0 <= i < clearing().len() ==> !(#[trigger] clearing()[i] matches PartData::Bound(b)),
{
    assert(queueing(path, at)[1] == text(path));
    assert(queueing(path, at)[3] == num(at));
    assert(status_update(path, status, error)[1] == num(status.number()));
    assert(status_update(path, status, error)[3] == error);
}

/// The queue keeps the error of an upload that failed, in its own words, and none of any other;
/// what it writes and what is handed back are the same.
pub proof fn errors_of_uploads_are_kept(kept: Option<String>, result: UploadResult)
    requires
        keeps_error(kept, result),
    ensures
        kept is Some <==> result is Failed,
        result matches UploadResult::Failed(e) ==> kept->0@ == e.text(),
        UploadState::stored_error(result) == opt_text(kept),
{
}

} // verus!
