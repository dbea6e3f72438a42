//! What becomes of a file that is imported.

use vstd::prelude::*;

use crate::error::LibraryError;
use crate::event::AppEvent;
use crate::exif::ShutterSpeed;
use crate::format::{video_extensions, DetectedFormat};
use crate::import::{counting, ImportProgress, ImportSummary, SkipReason};
use crate::importer::{
    announces, attempted_name, class_extension, counted_as, dates, files_at, files_under,
    is_import, thumbnail_workers, FsNode, ImportJob, ImportOutcome, ImportReply, ImportState,
    ProbedFile, SourceFile,
};
use crate::laws::texts::{files_are_named_last, names_are_put_together_again};
use crate::media::service::original_path_of;
use crate::media::MediaRecord;
use crate::metadata::MediaMetadataRecord;
use crate::path::{extension_of, joined, last_dot, stem_of};
use crate::text::{ascii_lower, decimal_of};

verus! {

// ── What is recorded ─────────────────────────────────────────────────────────

/// The file that is being stored, in the two states in which it is.
pub open spec fn being_stored(state: ImportState) -> Option<ProbedFile> {
    match state {
        ImportState::Copy { file, .. } => Some(file),
        ImportState::ReadSize { file } => Some(file),
        _ => None,
    }
}

/// In either storage mode, the details that are recorded of a file are those that were read
/// from it, each in its own place: the latitude is the latitude and the longitude the
/// longitude.
pub proof fn details_are_recorded_as_read(
    job: ImportJob,
    state: ImportState,
    reply: ImportReply,
    next: ImportState,
)
    requires
        being_stored(state) is Some,
        reply is Stored,
        job.leads_to(state, reply, next),
    ensures
        next is Insert,
        ({
            let f = being_stored(state)->0;
            let m = next->Insert_metadata;
            &&& m.media_id == f.id
            &&& m.gps_lat == f.numbers.gps_lat
            &&& m.gps_lon == f.numbers.gps_lon
            &&& m.gps_alt == f.numbers.gps_alt
            &&& m.aperture == f.numbers.aperture
            &&& m.focal_length == f.numbers.focal_length
            &&& m.iso == f.exif.iso
            &&& m.camera_make == f.exif.camera_make
            &&& m.camera_model == f.exif.camera_model
            &&& m.lens_model == f.exif.lens_model
            &&& m.color_space == f.exif.color_space
            &&& f.exif.shutter is None ==> m.shutter_str is None
            &&& f.exif.shutter matches Some(ShutterSpeed::Fraction(s)) ==> m.shutter_str == Some(s)
            &&& f.exif.shutter matches Some(ShutterSpeed::Seconds { .. }) ==> m.shutter_str
                == f.numbers.shutter_seconds
        }),
{
}

/// In either storage mode, the asset that is recorded is the file: under the id of its
/// content and its own name, taken when the camera says, as wide and as high as it is, and
/// upright where nothing else is known. It is new: neither a favourite nor in the trash, no
/// rendered edit, and not yet on any server.
pub proof fn assets_are_recorded_as_read(
    job: ImportJob,
    state: ImportState,
    size: u64,
    now: i64,
    next: ImportState,
)
    requires
        being_stored(state) is Some,
        job.leads_to(state, ImportReply::Stored { size, now }, next),
    ensures
        next is Insert,
        ({
            let f = being_stored(state)->0;
            let r = next->Insert_record;
            &&& r.id == f.id
            &&& f.source.file_name matches Some(n) ==> r.original_filename@ == n@
            &&& r.imported_at == now
            &&& size <= i64::MAX ==> r.file_size == size
            &&& r.media_type == f.media_type
            &&& r.taken_at == f.exif.captured_at
            &&& f.exif.width matches Some(w) ==> (r.width matches Some(n) && n == w)
            &&& f.exif.height matches Some(h) ==> (r.height matches Some(n) && n == h)
            &&& f.exif.width is None ==> r.width is None
            &&& f.exif.height is None ==> r.height is None
            &&& f.exif.orientation matches Some(o) ==> r.orientation == o
            &&& f.exif.orientation is None ==> r.orientation == 1
            &&& r.duration_ms == f.duration_ms
            &&& !r.is_favorite && !r.is_trashed && r.trashed_at is None && !r.is_moments_render
            &&& r.content_hash is None && r.external_id is None
        }),
{
}

/// The place at which an original is looked for later is the place at which the import left
/// it: the copy in a managed library, the file itself in a referenced one. The thumbnail is
/// made from there too.
pub proof fn originals_are_found_again(
    job: ImportJob,
    states: Seq<ImportState>,
    replies: Seq<ImportReply>,
    k: int,
)
    requires
        is_import(job, states, replies),
        0 <= k < states.len(),
        states[k] is Insert,
    ensures
        k > 0,
        ({
            let found = original_path_of(
                job.mode,
                job.originals_dir@,
                states[k]->Insert_record.relative_path@,
            );
            &&& found == states[k]->Insert_thumbnail_source@
            &&& job.mode is Managed ==> (states[k - 1] matches ImportState::Copy { target, .. }
                && target@ == found)
            &&& job.mode is Referenced ==> (states[0] matches ImportState::Sniff { source }
                && source.path@ == found)
        }),
{
    import_step(job, states, replies, k - 1);
    the_file_stays_the_same(job, states, replies, k - 1);
    if states[k - 1] is Copy {
        import_step(job, states, replies, k - 2);
        tried_places_are_in_originals(job, states, replies, k - 2);
        mode_is_kept(job, states, replies, k - 1);
    } else {
        mode_is_kept(job, states, replies, k - 1);
    }
}

proof fn import_step(job: ImportJob, states: Seq<ImportState>, replies: Seq<ImportReply>, i: int)
    requires
        is_import(job, states, replies),
        0 <= i + 1 < states.len(),
    ensures
        i >= 0 ==> states[i].admits(replies[i]) && job.leads_to(
            states[i],
            replies[i],
            states[i + 1],
        ),
        i < 0 ==> states[i + 1] is Sniff,
{
    if i >= 0 {
        assert(states[i].admits(replies[i]));
    }
}

proof fn tried_places_are_in_originals(
    job: ImportJob,
    states: Seq<ImportState>,
    replies: Seq<ImportReply>,
    k: int,
)
    requires
        is_import(job, states, replies),
        0 <= k < states.len(),
        states[k] is TryTarget,
    ensures
        states[k]->TryTarget_target@ == joined(
            job.originals_dir@,
            joined(
                states[k]->TryTarget_dir@,
                attempted_name(states[k]->TryTarget_name@, states[k]->TryTarget_attempt as nat),
            ),
        ),
{
    import_step(job, states, replies, k - 1);
}

proof fn mode_is_kept(
    job: ImportJob,
    states: Seq<ImportState>,
    replies: Seq<ImportReply>,
    k: int,
)
    requires
        is_import(job, states, replies),
        0 <= k < states.len(),
    ensures
        states[k] is ReadSize ==> job.mode is Referenced,
        states[k] is Copy || states[k] is TryTarget || states[k] is ReadModified
            ==> job.mode is Managed,
    decreases k,
{
    if k > 0 {
        mode_is_kept(job, states, replies, k - 1);
        import_step(job, states, replies, k - 1);
    }
}

/// The file that a state is about, once it was probed.
pub open spec fn probed(state: ImportState) -> Option<ProbedFile> {
    match state {
        ImportState::CheckDuplicate { file } => Some(file),
        ImportState::ReadModified { file } => Some(file),
        ImportState::TryTarget { file, .. } => Some(file),
        ImportState::Copy { file, .. } => Some(file),
        ImportState::ReadSize { file } => Some(file),
        _ => None,
    }
}

/// From probing to storing, an import is about one and the same file: the one it began with,
/// with what was read from it.
pub proof fn the_file_stays_the_same(
    job: ImportJob,
    states: Seq<ImportState>,
    replies: Seq<ImportReply>,
    k: int,
)
    requires
        is_import(job, states, replies),
        0 <= k < states.len(),
        probed(states[k]) is Some,
    ensures
        k >= 2,
        states[1] is Probe,
        states[0] == (ImportState::Sniff { source: probed(states[k])->0.source }),
        ({
            let f = probed(states[k])->0;
            &&& replies[1] matches ImportReply::Image { id, exif, numbers } ==> f.id == id && f.exif
                == exif && f.numbers == numbers && f.duration_ms is None
            &&& replies[1] matches ImportReply::Video { id, duration_ms } ==> f.id == id
                && f.duration_ms == duration_ms && f.exif.captured_at is None && f.exif.width is None
                && f.exif.height is None && f.numbers.gps_lat is None && f.numbers.gps_lon is None
            &&& f.media_type == states[1]->Probe_media_type
        }),
    decreases k,
{
    import_step(job, states, replies, k - 1);
    assert(k > 0);
    if states[k - 1] is Probe {
        import_step(job, states, replies, k - 2);
        assert(states[k - 2] is Sniff);
        sniffing_comes_first(job, states, replies, k - 2);
    } else {
        the_file_stays_the_same(job, states, replies, k - 1);
    }
}

proof fn sniffing_comes_first(
    job: ImportJob,
    states: Seq<ImportState>,
    replies: Seq<ImportReply>,
    k: int,
)
    requires
        is_import(job, states, replies),
        0 <= k < states.len(),
        states[k] is Sniff,
    ensures
        k == 0,
{
    if k > 0 {
        import_step(job, states, replies, k - 1);
    }
}

// ── Which files are taken ────────────────────────────────────────────────────

/// What the first bytes of a file say goes before its extension. Where they say nothing, a
/// video extension makes it a video, any other extension that has a handler an image, and a
/// file with neither is skipped.
pub proof fn files_are_told_by_content_first(
    job: ImportJob,
    source: SourceFile,
    detected: Option<DetectedFormat>,
    next: ImportState,
)
    requires
        job.leads_to(ImportState::Sniff { source }, ImportReply::Sniffed(detected), next),
    ensures
        ({
            let ext = ascii_lower(class_extension(source));
            let told = detected matches Some(d) && !(d is Unknown);
            let video = video_extensions().contains(ext);
            &&& detected matches Some(DetectedFormat::Image) ==> (next matches ImportState::Probe {
                media_type,
                ..
            } && media_type is Image)
            &&& detected matches Some(DetectedFormat::Video) ==> (next matches ImportState::Probe {
                media_type,
                ..
            } && media_type is Video)
            &&& !told && video ==> (next matches ImportState::Probe { media_type, .. }
                && media_type is Video)
            &&& !told && !video && job.formats@.contains_key(ext) ==> (next matches
                ImportState::Probe { media_type, .. } && media_type is Image)
            &&& !told && !video && !job.formats@.contains_key(ext) ==> next == (
            ImportState::Finished {
                outcome: ImportOutcome::Skipped(SkipReason::UnsupportedFormat),
            })
            &&& next matches ImportState::Probe { source: s, .. } ==> s == source
        }),
{
}

/// A file whose content the library holds is skipped as a duplicate; any other is stored.
pub proof fn duplicates_are_skipped(
    job: ImportJob,
    file: ProbedFile,
    there: bool,
    next: ImportState,
)
    requires
        job.leads_to(ImportState::CheckDuplicate { file }, ImportReply::Exists(there), next),
    ensures
        there <==> next == (ImportState::Finished {
            outcome: ImportOutcome::Skipped(SkipReason::Duplicate),
        }),
        !there && job.mode is Referenced ==> next == (ImportState::ReadSize { file }),
        !there && job.mode is Managed && file.exif.captured_at is None ==> next == (
        ImportState::ReadModified { file }),
{
}

/// A managed file goes below the day on which it was taken, or else last modified, and is
/// tried under its own name first.
pub proof fn files_go_below_their_day(
    job: ImportJob,
    file: ProbedFile,
    taken: i64,
    modified: i64,
    next: ImportState,
    name: String,
)
    requires
        job.mode is Managed,
        file.source.file_name == Some(name),
        (file.exif.captured_at == Some(taken) && job.leads_to(
            ImportState::CheckDuplicate { file },
            ImportReply::Exists(false),
            next,
        )) || (taken == modified && job.leads_to(
            ImportState::ReadModified { file },
            ImportReply::Modified(modified),
            next,
        )),
    ensures
        next is TryTarget,
        dates(next->TryTarget_dir@, taken),
        next->TryTarget_attempt == 1,
        next->TryTarget_target@ == joined(
            job.originals_dir@,
            joined(next->TryTarget_dir@, name@),
        ),
{
}

/// A place that is taken is left alone: the next attempt is under another name, and only a
/// free place is copied to.
pub proof fn taken_places_are_left_alone(
    job: ImportJob,
    state: ImportState,
    there: bool,
    next: ImportState,
)
    requires
        state is TryTarget,
        state.admits(ImportReply::Exists(there)),
        job.leads_to(state, ImportReply::Exists(there), next),
    ensures
        there ==> (next matches ImportState::TryTarget { attempt, .. } && attempt
            == state->TryTarget_attempt + 1),
        !there ==> (next matches ImportState::Copy { target, .. } && target
            == state->TryTarget_target),
        there ==> probed(next) == probed(state),
{
}

/// The first attempt is under the file's own name; the later ones have the number of the
/// attempt before the extension, which they keep.
pub proof fn later_names_are_numbered(name: Seq<char>, stem: Seq<char>, ext: Seq<char>, attempt: nat)
    requires
        name == stem + "."@ + ext,
        stem.len() > 0,
        !ext.contains('.'),
        name != ".."@,
        attempt > 1,
    ensures
        attempted_name(name, 1) == name,
        attempted_name(name, attempt) == stem + "_"@ + decimal_of(attempt) + "."@ + ext,
{
    reveal_strlit(".");
    dot_before(stem, ext);
    assert(name.take(stem.len() as int) =~= stem);
    assert(name.skip(stem.len() as int + 1) =~= ext);
    assert(attempted_name(name, attempt) =~= stem + "_"@ + decimal_of(attempt) + "."@ + ext);
}

proof fn dot_before(stem: Seq<char>, ext: Seq<char>)
    requires
        !ext.contains('.'),
    ensures
        last_dot(stem + "."@ + ext) == Some(stem.len() as int),
    decreases ext.len(),
{
    reveal_strlit(".");
    let name = stem + "."@ + ext;
    if ext.len() == 0 {
        assert(name.last() == '.');
    } else {
        assert(name.last() == ext.last());
        assert(ext.last() != '.') by {
            assert(ext[ext.len() - 1] == ext.last());
        }
        let rest = ext.drop_last();
        assert(!rest.contains('.')) by {
            if rest.contains('.') {
                let i = choose|i: int| 0 <= i < rest.len() && rest[i] == '.';
                assert(ext[i] == '.');
            }
        }
        dot_before(stem, rest);
        assert(name.drop_last() =~= stem + "."@ + rest);
    }
}

/// A failure ends the import of the file with that failure, whatever was being done.
pub proof fn failures_end_an_import(
    job: ImportJob,
    state: ImportState,
    e: crate::error::LibraryError,
    next: ImportState,
)
    requires
        job.leads_to(state, ImportReply::Failed(e), next),
    ensures
        next == (ImportState::Finished { outcome: ImportOutcome::Failed(e) }),
{
}

/// A stored file counts as imported, under the id that was recorded, once its record and its
/// details are in the database, in this order.
pub proof fn records_go_before_details(
    job: ImportJob,
    record: MediaRecord,
    metadata: MediaMetadataRecord,
    source: String,
    second: ImportState,
    last: ImportState,
)
    requires
        job.leads_to(
            ImportState::Insert { record, metadata, thumbnail_source: source },
            ImportReply::Done,
            second,
        ),
        job.leads_to(second, ImportReply::Done, last),
    ensures
        second matches ImportState::InsertMetadata { metadata: m, .. } && m == metadata,
        last == (ImportState::Finished {
            outcome: ImportOutcome::Imported { media_id: record.id, thumbnail_source: source },
        }),
{
}

// ── Candidates ───────────────────────────────────────────────────────────────

/// The files of several sources are those of each, in their order.
pub proof fn sources_add_up(a: Seq<FsNode>, b: Seq<FsNode>, nested: bool)
    ensures
        files_under(a + b, nested) == files_under(a, nested) + files_under(b, nested),
    decreases b.len(),
{
    if b.len() == 0 {
        assert(a + b =~= a);
        assert(files_under(a, nested) + files_under(b, nested) =~= files_under(a, nested));
    } else {
        assert((a + b).drop_last() =~= a + b.drop_last());
        sources_add_up(a, b.drop_last(), nested);
        assert(files_under(a + b, nested) =~= files_under(a, nested) + files_under(b, nested));
    }
}

/// A file is a candidate itself; a directory brings everything below it, however deep, that
/// is no directory; and what is neither counts only inside a directory.
pub proof fn directories_are_walked(path: String, entries: Vec<FsNode>, nested: bool)
    ensures
        files_at(FsNode::File(path), nested) == seq![path],
        files_at(FsNode::Dir(entries), nested) == files_under(entries@, true),
        files_at(FsNode::Other(path), true) == seq![path],
        files_at(FsNode::Other(path), false).len() == 0,
        files_under(Seq::empty(), nested).len() == 0,
{
}

// ── Counting ─────────────────────────────────────────────────────────────────

/// Every file is counted once and where it belongs: imported, skipped for the reason it was
/// skipped for, or failed, and the other counts stay.
pub proof fn files_are_counted_where_they_belong(s: ImportSummary, outcome: ImportOutcome)
    requires
        s.counted() < usize::MAX,
    ensures
        ({
            let after = counting(s, counted_as(outcome));
            let imported = outcome is Imported;
            let duplicate = outcome == ImportOutcome::Skipped(SkipReason::Duplicate);
            let unsupported = outcome == ImportOutcome::Skipped(SkipReason::UnsupportedFormat);
            let failed = outcome is Failed;
            &&& after.imported == s.imported + (if imported { 1int } else { 0 })
            &&& after.skipped_duplicates == s.skipped_duplicates + (if duplicate { 1int } else { 0 })
            &&& after.skipped_unsupported == s.skipped_unsupported + (if unsupported { 1int } else { 0 })
            &&& after.failed == s.failed + (if failed { 1int } else { 0 })
            &&& after.counted() == s.counted() + 1
        }),
{
}

/// What is told before a file: its number, the number of all files, and what became of those
/// before it.
pub proof fn progress_is_told_as_it_is(event: AppEvent, p: ImportProgress)
    requires
        announces(event, p),
    ensures
        event matches AppEvent::ImportProgress { current, total, imported, skipped, failed }
            && current == p.done() + 1 && total == p.total() && imported + skipped + failed
            == p.summary().counted() && imported == p.summary().imported && failed
            == p.summary().failed,
{
}

/// At least two thumbnails are made at once, never more than half the processors where those
/// are four or more, and four processors are taken for granted.
pub proof fn half_the_processors_make_thumbnails(n: usize)
    ensures
        thumbnail_workers(Some(n)) >= 2,
        n >= 4 ==> n - 1 <= 2 * thumbnail_workers(Some(n)) <= n,
        n < 4 ==> thumbnail_workers(Some(n)) == 2,
        thumbnail_workers(None) == 2,
{
}

/// The file at a path is named by the last component of the path, and its extension is what
/// follows the last dot of that name.
pub proof fn files_are_named_by_their_path(
    source: SourceFile,
    dir: Seq<char>,
    stem: Seq<char>,
    ext: Seq<char>,
)
    requires
        source.lies_at(dir.push('/') + (stem.push('.') + ext)),
        stem.len() > 0,
        forall|i: int| 0 <= i < stem.len() ==> #[trigger] stem[i] != '/',
        forall|i: int| 0 <= i < ext.len() ==> #[trigger] ext[i] != '/' && ext[i] != '.',
        ext.len() > 0,
    ensures
        source.path@ == dir.push('/') + (stem.push('.') + ext),
        source.file_name matches Some(n) && n@ == stem.push('.') + ext,
        source.extension matches Some(e) && e@ == ext,
{
    let name = stem.push('.') + ext;
    reveal_strlit(".");
    reveal_strlit("..");
    assert(name.len() > 2);
    assert forall|i: int| 0 <= i < name.len() implies #[trigger] name[i] != '/' by {
        if i < stem.len() {
            assert(name[i] == stem[i]);
        } else if i > stem.len() {
            assert(name[i] == ext[i - stem.len() - 1]);
        }
    }
    files_are_named_last(dir, name);
    names_are_put_together_again(name);
    assert(name[stem.len() as int] == '.');
    let e = extension_of(name)->0;
    let s = stem_of(name);
    assert(name == s.push('.') + e);
    if e.len() < ext.len() {
        assert(name[s.len() as int] == '.');
        assert(name[s.len() as int] == ext[s.len() - stem.len() - 1]);
    } else if e.len() > ext.len() {
        assert(name[stem.len() as int] == e[stem.len() - s.len() - 1]);
    }
    assert(e =~= ext) by {
        assert forall|i: int| 0 <= i < ext.len() implies e[i] == ext[i] by {
            assert(name[stem.len() + 1 + i] == ext[i]);
            assert(name[s.len() + 1 + i] == e[i]);
        }
    }
}

/// A file that has no name goes nowhere: its import fails, and says which file it was.
pub proof fn nameless_files_are_not_imported(
    state: ImportState,
    job: ImportJob,
    file: ProbedFile,
    dir: Seq<char>,
)
    requires
        state.goes_to(job, file, dir),
    ensures
        file.source.file_name is None ==> (state matches ImportState::Finished {
            outcome: ImportOutcome::Failed(LibraryError::Bundle(m)),
        } && m@ == "source has no filename: "@ + file.source.path@),
        file.source.file_name matches Some(n) ==> (state matches ImportState::TryTarget {
            name,
            attempt,
            target,
            ..
        } && name@ == n@ && attempt == 1 && target@ == joined(
            job.originals_dir@,
            joined(dir, n@),
        )),
{
}

} // verus!
