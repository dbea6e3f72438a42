//! Imports into the local backend: which files are taken, where they go, and what
//! is recorded of them.
//!
//! The import of one file is a machine: a state says what is to be done next on
//! disk or in the database, and the reply leads to the next state.

use vstd::prelude::*;
use vstd::string::*;

use crate::calendar::{is_representable, shows_a_day, shows_day_of};
use crate::config::LocalStorageMode;
use crate::error::{prefixed, LibraryError};
use crate::event::AppEvent;
use crate::exif::{ExifInfo, ShutterSpeed};
use crate::format::{is_video_extension, video_extensions, DetectedFormat, FormatRegistry};
use crate::import::{counting, FileResult, ImportProgress, SkipReason};
use crate::media::{MediaId, MediaRecord, MediaType};
use crate::metadata::MediaMetadataRecord;
use crate::path::{
    extension_of, file_name, file_name_of, join_path, joined, split_extension, stem_of,
};
use crate::text::{decimal, decimal_is_injective, decimal_of};

verus! {

// ── Candidates ───────────────────────────────────────────────────────────────

/// Something that a path leads to.
#[derive(Debug)]
pub enum FsNode {
    /// A regular file.
    File(String),
    /// A directory with what it holds; nothing where it could not be read.
    Dir(Vec<FsNode>),
    /// Neither: a socket, a device, or a link that leads nowhere.
    Other(String),
}

/// The files that a node leads to. Inside a directory everything that is no
/// directory counts as a file; a source named by the user has to be one.
pub open spec fn files_at(node: FsNode, nested: bool) -> Seq<String>
    decreases node,
{
    match node {
        FsNode::File(path) => seq![path],
        FsNode::Dir(entries) => files_under(entries@, true),
        FsNode::Other(path) => if nested {
            seq![path]
        } else {
            Seq::empty()
        },
    }
}

/// The files that nodes lead to, in their order.
pub open spec fn files_under(nodes: Seq<FsNode>, nested: bool) -> Seq<String>
    decreases nodes,
{
    if nodes.len() == 0 {
        Seq::empty()
    } else {
        files_under(nodes.drop_last(), nested) + files_at(nodes.last(), nested)
    }
}

/// Adds the files below a directory with the given entries.
pub fn walk_dir(entries: &Vec<FsNode>, out: &mut Vec<String>)
    ensures
        final(out)@ == old(out)@ + files_under(entries@, true),
    decreases entries,
{
    let n: usize = entries.len();
    let mut i: usize = 0;
    assert(out@ =~= old(out)@ + files_under(entries@.take(0), true));
    while i < n
        invariant
            i <= n,
            n == entries@.len(),
            out@ == old(out)@ + files_under(entries@.take(i as int), true),
        decreases n - i,
    {
        let ghost before = out@;
        match &entries[i] {
            FsNode::Dir(inner) => {
                walk_dir(inner, out);
            },
            FsNode::File(path) => {
                out.push(path.clone());
            },
            FsNode::Other(path) => {
                out.push(path.clone());
            },
        }
        assert(out@ =~= before + files_at(entries@[i as int], true));
        assert(entries@.take(i + 1).drop_last() =~= entries@.take(i as int));
        i += 1;
        assert(out@ =~= old(out)@ + files_under(entries@.take(i as int), true));
    }
    assert(entries@.take(n as int) =~= entries@);
}

/// All files reachable from the sources, directories walked to the bottom.
pub fn collect_candidates(sources: &Vec<FsNode>) -> (r: Vec<String>)
    ensures
        r@ == files_under(sources@, false),
{
    let mut out: Vec<String> = Vec::new();
    let n: usize = sources.len();
    let mut i: usize = 0;
    while i < n
        invariant
            i <= n,
            n == sources@.len(),
            out@ == files_under(sources@.take(i as int), false),
        decreases n - i,
    {
        let ghost before = out@;
        match &sources[i] {
            FsNode::File(path) => {
                out.push(path.clone());
            },
            FsNode::Dir(inner) => {
                walk_dir(inner, &mut out);
            },
            FsNode::Other(_) => {},
        }
        assert(out@ =~= before + files_at(sources@[i as int], false));
        assert(sources@.take(i + 1).drop_last() =~= sources@.take(i as int));
        i += 1;
    }
    assert(sources@.take(n as int) =~= sources@);
    out
}

// ── Target paths ─────────────────────────────────────────────────────────────

/// The layout of the directory below `originals/` that a file goes to.
pub const DATE_DIR_FORMAT: &'static str = "%Y/%m/%d";

/// Calls `chrono::DateTime::from_timestamp` and formats the moment in the
/// machine's time zone with `chrono::DateTime::format`; nothing where chrono
/// cannot represent the moment. By how much the time zone is off UTC depends on the
/// machine, but it is always less than a day.
#[verifier::external_body]
fn local_date_at(seconds: i64, format: &str) -> (r: Option<String>)
    requires
        format@ == DATE_DIR_FORMAT@,
    ensures
        r is Some <==> is_representable(seconds),
        r matches Some(s) ==> shows_day_of(s@, seconds as int),
{
    let utc = chrono::DateTime::from_timestamp(seconds, 0)?;
    Some(utc.with_timezone(&chrono::Local).format(format).to_string())
}

/// Calls `chrono::Local::now` and formats it with `chrono::DateTime::format`. Which
/// date comes depends on the clock and the time zone.
#[verifier::external_body]
fn local_date_now(format: &str) -> (r: String)
    requires
        format@ == DATE_DIR_FORMAT@,
    ensures
        shows_a_day(r@),
{
    chrono::Local::now().format(format).to_string()
}

/// Whether `s` is a directory below `originals/` for a file from the given moment: the
/// day of the moment in local time, or today where the moment cannot be represented.
pub open spec fn dates(s: Seq<char>, seconds: i64) -> bool {
    if is_representable(seconds) {
        shows_day_of(s, seconds as int)
    } else {
        shows_a_day(s)
    }
}

/// The directory below `originals/` for a file from the given moment.
pub fn date_dir(seconds: i64) -> (r: String)
    ensures
        dates(r@, seconds),
{
    match local_date_at(seconds, DATE_DIR_FORMAT) {
        Some(dir) => dir,
        None => local_date_now(DATE_DIR_FORMAT),
    }
}

/// The name under which a file is tried for the `attempt`th time: first its own,
/// then with `_2`, `_3`, … before the extension.
pub open spec fn attempted_name(name: Seq<char>, attempt: nat) -> Seq<char> {
    if attempt <= 1 {
        name
    } else {
        stem_of(name) + "_"@ + decimal_of(attempt) + match extension_of(name) {
            Some(ext) => "."@ + ext,
            None => Seq::empty(),
        }
    }
}

/// The name for the given attempt at a free one.
pub fn resolve_collision(name: &str, attempt: u64) -> (r: String)
    ensures
        r@ == attempted_name(name@, attempt as nat),
{
    if attempt <= 1 {
        return name.to_owned();
    }
    let (stem, ext) = split_extension(name);
    let mut out = stem;
    out.append("_");
    out.append(decimal(attempt).as_str());
    if let Some(e) = ext {
        out.append(".");
        out.append(e.as_str());
        assert(out@ =~= attempted_name(name@, attempt as nat));
    } else {
        assert(out@ =~= attempted_name(name@, attempt as nat));
    }
    out
}

/// No two numbered attempts try the same name, so that looking for a free one
/// always gets on.
pub proof fn attempts_differ(name: Seq<char>, a: nat, b: nat)
    requires
        a > 1,
        b > 1,
        attempted_name(name, a) == attempted_name(name, b),
    ensures
        a == b,
{
    let head = stem_of(name) + "_"@;
    let tail = match extension_of(name) {
        Some(ext) => "."@ + ext,
        None => Seq::<char>::empty(),
    };
    let x = head + decimal_of(a) + tail;
    let y = head + decimal_of(b) + tail;
    assert(x == y);
    assert(decimal_of(a).len() == decimal_of(b).len());
    assert(decimal_of(a) =~= x.subrange(
        head.len() as int,
        (head.len() + decimal_of(a).len()) as int,
    ));
    assert(decimal_of(b) =~= y.subrange(
        head.len() as int,
        (head.len() + decimal_of(b).len()) as int,
    ));
    decimal_is_injective(a, b);
}

// ── The machine ──────────────────────────────────────────────────────────────

/// A file to be imported.
#[derive(Debug)]
pub struct SourceFile {
    pub path: String,
    /// The last component of the path.
    pub file_name: Option<String>,
    /// What follows the last dot of the file name.
    pub extension: Option<String>,
}

impl SourceFile {
    /// Whether this is the file at a path.
    pub open spec fn lies_at(self, path: Seq<char>) -> bool {
        &&& self.path@ == path
        &&& match file_name_of(path) {
            Some(name) => {
                &&& self.file_name matches Some(n) && n@ == name
                &&& match extension_of(name) {
                    Some(ext) => self.extension matches Some(e) && e@ == ext,
                    None => self.extension is None,
                }
            },
            None => self.file_name is None && self.extension is None,
        }
    }

    /// The file at a path.
    pub fn from_path(path: String) -> (r: Self)
        ensures
            r.lies_at(path@),
            r.path == path,
            match file_name_of(path@) {
                Some(name) => {
                    &&& r.file_name matches Some(n) && n@ == name
                    &&& match extension_of(name) {
                        Some(ext) => r.extension matches Some(e) && e@ == ext,
                        None => r.extension is None,
                    }
                },
                None => r.file_name is None && r.extension is None,
            },
    {
        match file_name(path.as_str()) {
            Some(name) => {
                let (_, extension) = split_extension(name.as_str());
                SourceFile { path, file_name: Some(name), extension }
            },
            None => SourceFile { path, file_name: None, extension: None },
        }
    }
}

/// The fractional EXIF facts of a file, by their IEEE 754 bits, and the shutter
/// speed of a long exposure as text.
#[derive(Debug)]
pub struct ExifNumbers {
    pub aperture: Option<u32>,
    pub focal_length: Option<u32>,
    pub gps_lat: Option<u64>,
    pub gps_lon: Option<u64>,
    pub gps_alt: Option<u64>,
    pub shutter_seconds: Option<String>,
}

/// A file whose content has been looked at.
#[derive(Debug)]
pub struct ProbedFile {
    pub source: SourceFile,
    pub media_type: MediaType,
    /// Identity by content.
    pub id: MediaId,
    pub exif: ExifInfo,
    pub numbers: ExifNumbers,
    pub duration_ms: Option<u64>,
}

/// What came of a file.
#[derive(Debug)]
pub enum ImportOutcome {
    /// Imported; a thumbnail is to be made from the file at `thumbnail_source`.
    Imported { media_id: MediaId, thumbnail_source: String },
    Skipped(SkipReason),
    Failed(LibraryError),
}

/// What the import of a file needs next.
#[derive(Debug)]
pub enum ImportState {
    /// Look at the first bytes of the file.
    Sniff { source: SourceFile },
    /// Hash the file and read its EXIF block, or its duration if it is named like a
    /// video.
    Probe { source: SourceFile, media_type: MediaType, video: bool },
    /// Look for the id in the database.
    CheckDuplicate { file: ProbedFile },
    /// Read when the file was last modified.
    ReadModified { file: ProbedFile },
    /// Look whether something is at `originals/dir/attempted name`.
    TryTarget { file: ProbedFile, dir: String, name: String, attempt: u64, target: String },
    /// Create the directory of `target` and copy the file there.
    Copy { file: ProbedFile, rel: String, target: String },
    /// Read the size of the file.
    ReadSize { file: ProbedFile },
    /// Insert the record into the database.
    Insert { record: MediaRecord, metadata: MediaMetadataRecord, thumbnail_source: String },
    /// Insert the EXIF facts into the database.
    InsertMetadata { metadata: MediaMetadataRecord, media_id: MediaId, thumbnail_source: String },
    Finished { outcome: ImportOutcome },
}

/// What came back.
#[derive(Debug)]
pub enum ImportReply {
    /// What the first bytes say; nothing where they could not be read.
    Sniffed(Option<DetectedFormat>),
    /// An image: its identity and its EXIF facts.
    Image { id: MediaId, exif: ExifInfo, numbers: ExifNumbers },
    /// A video: its identity and its duration.
    Video { id: MediaId, duration_ms: Option<u64> },
    /// Whether what was looked for is there.
    Exists(bool),
    /// Seconds since 1970 of the last modification.
    Modified(i64),
    /// The size of the file in its place, and the current time in seconds since 1970.
    Stored { size: u64, now: i64 },
    Done,
    Failed(LibraryError),
}

/// `str::to_lowercase`: the text with every character folded to lower case.
pub uninterp spec fn unicode_lowercase(s: Seq<char>) -> Seq<char>;

/// Calls `str::to_lowercase`. The claim is that its result depends on the text
/// alone.
#[verifier::external_body]
pub(crate) fn lowercase(s: &str) -> (r: String)
    ensures
        r@ == unicode_lowercase(s@),
{
    s.to_lowercase()
}

/// The extension by which a file is classified: in lower case, empty where the file
/// has none.
pub open spec fn class_extension(source: SourceFile) -> Seq<char> {
    match source.extension {
        Some(e) => unicode_lowercase(e@),
        None => Seq::empty(),
    }
}

pub(crate) fn lower_extension(source: &SourceFile) -> (r: String)
    ensures
        r@ == class_extension(*source),
{
    match &source.extension {
        Some(e) => lowercase(e.as_str()),
        None => String::new(),
    }
}

/// The file name as recorded.
pub open spec fn recorded_name(source: SourceFile) -> Seq<char> {
    match source.file_name {
        Some(n) => n@,
        None => Seq::empty(),
    }
}

/// A dimension as recorded.
pub open spec fn wide(n: Option<u32>) -> Option<i64> {
    match n {
        Some(n) => Some(n as i64),
        None => None,
    }
}

/// Whether `r` records `f`, stored at `rel` with the given size at the given time: a
/// new asset that is neither a favourite nor in the trash.
pub open spec fn records_file(
    r: MediaRecord,
    f: ProbedFile,
    rel: Seq<char>,
    size: u64,
    now: i64,
) -> bool {
    &&& r.id == f.id
    &&& r.content_hash is None
    &&& r.external_id is None
    &&& r.relative_path@ == rel
    &&& r.original_filename@ == recorded_name(f.source)
    &&& r.file_size == size as i64
    &&& r.imported_at == now
    &&& r.media_type == f.media_type
    &&& r.taken_at == f.exif.captured_at
    &&& r.width == wide(f.exif.width)
    &&& r.height == wide(f.exif.height)
    &&& r.orientation == (match f.exif.orientation {
        Some(o) => o,
        None => 1,
    })
    &&& r.duration_ms == f.duration_ms
    &&& !r.is_favorite
    &&& !r.is_trashed
    &&& r.trashed_at is None
    &&& !r.is_moments_render
}

/// The shutter speed as recorded.
pub open spec fn shutter_text(shutter: Option<ShutterSpeed>, seconds: Option<String>) -> Option<
    String,
> {
    match shutter {
        Some(ShutterSpeed::Fraction(s)) => Some(s),
        Some(ShutterSpeed::Seconds { .. }) => seconds,
        None => None,
    }
}

/// Whether `m` holds the EXIF facts of `f`.
pub open spec fn details_file(m: MediaMetadataRecord, f: ProbedFile) -> bool {
    &&& m.media_id == f.id
    &&& m.camera_make == f.exif.camera_make
    &&& m.camera_model == f.exif.camera_model
    &&& m.lens_model == f.exif.lens_model
    &&& m.aperture == f.numbers.aperture
    &&& m.shutter_str == shutter_text(f.exif.shutter, f.numbers.shutter_seconds)
    &&& m.iso == f.exif.iso
    &&& m.focal_length == f.numbers.focal_length
    &&& m.gps_lat == f.numbers.gps_lat
    &&& m.gps_lon == f.numbers.gps_lon
    &&& m.gps_alt == f.numbers.gps_alt
    &&& m.color_space == f.exif.color_space
}

/// Builds what is recorded of a file that is in its place.
fn stored(
    f: ProbedFile,
    rel: String,
    size: u64,
    now: i64,
    thumbnail_source: String,
) -> (r: ImportState)
    ensures
        r matches ImportState::Insert { record, metadata, thumbnail_source: t } && records_file(
            record,
            f,
            rel@,
            size,
            now,
        ) && details_file(metadata, f) && t == thumbnail_source,
{
    let original_filename = match f.source.file_name {
        Some(n) => n,
        None => String::new(),
    };
    let width: Option<i64> = match f.exif.width {
        Some(n) => Some(n as i64),
        None => None,
    };
    let height: Option<i64> = match f.exif.height {
        Some(n) => Some(n as i64),
        None => None,
    };
    let orientation: u8 = match f.exif.orientation {
        Some(o) => o,
        None => 1,
    };
    let shutter_str = match f.exif.shutter {
        Some(ShutterSpeed::Fraction(s)) => Some(s),
        Some(ShutterSpeed::Seconds { .. }) => f.numbers.shutter_seconds,
        None => None,
    };
    let record = MediaRecord {
        id: f.id.clone(),
        content_hash: None,
        external_id: None,
        relative_path: rel,
        original_filename,
        file_size: size as i64,
        imported_at: now,
        media_type: f.media_type,
        taken_at: f.exif.captured_at,
        width,
        height,
        orientation,
        duration_ms: f.duration_ms,
        is_favorite: false,
        is_trashed: false,
        trashed_at: None,
        is_moments_render: false,
    };
    let metadata = MediaMetadataRecord {
        media_id: f.id,
        camera_make: f.exif.camera_make,
        camera_model: f.exif.camera_model,
        lens_model: f.exif.lens_model,
        aperture: f.numbers.aperture,
        shutter_str,
        iso: f.exif.iso,
        focal_length: f.numbers.focal_length,
        gps_lat: f.numbers.gps_lat,
        gps_lon: f.numbers.gps_lon,
        gps_alt: f.numbers.gps_alt,
        color_space: f.exif.color_space,
    };
    ImportState::Insert { record, metadata, thumbnail_source }
}

/// No fractional facts.
fn no_numbers() -> (r: ExifNumbers)
    ensures
        r.is_blank(),
{
    ExifNumbers {
        aperture: None,
        focal_length: None,
        gps_lat: None,
        gps_lon: None,
        gps_alt: None,
        shutter_seconds: None,
    }
}

impl ExifNumbers {
    /// Whether no fact is known.
    pub open spec fn is_blank(self) -> bool {
        &&& self.aperture is None
        &&& self.focal_length is None
        &&& self.gps_lat is None
        &&& self.gps_lon is None
        &&& self.gps_alt is None
        &&& self.shutter_seconds is None
    }
}

/// The rules of an import: where originals go and which formats are taken.
pub struct ImportJob {
    pub originals_dir: String,
    pub mode: LocalStorageMode,
    pub formats: FormatRegistry,
}

/// The path below `originals/` of an attempt.
pub open spec fn attempted_rel(dir: Seq<char>, name: Seq<char>, attempt: nat) -> Seq<char> {
    joined(dir, attempted_name(name, attempt))
}

impl ImportState {
    /// Whether the state can have this reply. An attempt to find a free name can
    /// only fail as long as there are numbers left.
    pub open spec fn admits(self, reply: ImportReply) -> bool {
        match self {
            ImportState::Sniff { .. } => reply is Sniffed,
            ImportState::Probe { video, .. } => reply is Failed || (if video {
                reply is Video
            } else {
                reply is Image
            }),
            ImportState::CheckDuplicate { .. } => reply is Failed || reply is Exists,
            ImportState::ReadModified { .. } => reply is Failed || reply is Modified,
            ImportState::TryTarget { attempt, .. } => reply matches ImportReply::Exists(there) && (
            there ==> attempt < u64::MAX),
            ImportState::Copy { .. } => reply is Failed || reply is Stored,
            ImportState::ReadSize { .. } => reply is Failed || reply is Stored,
            ImportState::Insert { .. } => reply is Failed || reply is Done,
            ImportState::InsertMetadata { .. } => reply is Failed || reply is Done,
            ImportState::Finished { .. } => false,
        }
    }

    /// Whether this is the state in which the given attempt at a free name is made.
    pub open spec fn tries(
        self,
        job: ImportJob,
        file: ProbedFile,
        dir: Seq<char>,
        name: Seq<char>,
        attempt: nat,
    ) -> bool {
        self matches ImportState::TryTarget { file: f, dir: d, name: n, attempt: a, target } && f
            == file && d@ == dir && n@ == name && a == attempt && target@ == joined(
            job.originals_dir@,
            attempted_rel(dir, name, attempt),
        )
    }

    /// Whether this is the state in which a file goes to the given directory: the
    /// first attempt under the file's own name, or a failure where it has none.
    pub open spec fn goes_to(self, job: ImportJob, file: ProbedFile, dir: Seq<char>) -> bool {
        match file.source.file_name {
            Some(name) => self.tries(job, file, dir, name@, 1),
            None => self matches ImportState::Finished {
                outcome: ImportOutcome::Failed(LibraryError::Bundle(m)),
            } && m@ == "source has no filename: "@ + file.source.path@,
        }
    }
}

impl ImportJob {
    /// Begins the import of a file.
    pub fn import_one(source: SourceFile) -> (r: ImportState)
        ensures
            r == (ImportState::Sniff { source }),
    {
        ImportState::Sniff { source }
    }

    /// Sends a file to the given directory below `originals/`.
    pub fn compute_base_target(&self, file: ProbedFile, dir: String) -> (r: ImportState)
        ensures
            r.goes_to(*self, file, dir@),
    {
        let name = match &file.source.file_name {
            Some(n) => n.clone(),
            None => {
                let m = prefixed("source has no filename: ", file.source.path.as_str());
                return ImportState::Finished {
                    outcome: ImportOutcome::Failed(LibraryError::Bundle(m)),
                };
            },
        };
        self.attempt_at(file, dir, name, 1)
    }

    fn attempt_at(&self, file: ProbedFile, dir: String, name: String, attempt: u64) -> (r:
        ImportState)
        ensures
            r.tries(*self, file, dir@, name@, attempt as nat),
    {
        let tried = resolve_collision(name.as_str(), attempt);
        let rel = join_path(dir.as_str(), tried.as_str());
        let target = join_path(self.originals_dir.as_str(), rel.as_str());
        ImportState::TryTarget { file, dir, name, attempt, target }
    }

    /// Whether a reply leads from one state to the next.
    ///
    /// A file of an unsupported format is not read, and one whose content the
    /// library holds is neither copied nor recorded. A managed library copies the
    /// file below the date of capture, or of the last modification where the capture
    /// time is not known, under the first name that is free; a referenced one
    /// records the file where it is. Any failure ends the import of the file.
    pub open spec fn leads_to(
        self,
        state: ImportState,
        reply: ImportReply,
        next: ImportState,
    ) -> bool {
        match (state, reply) {
            (_, ImportReply::Failed(e)) => next == (ImportState::Finished {
                outcome: ImportOutcome::Failed(e),
            }),
            (
                ImportState::Sniff { source },
                ImportReply::Sniffed(detected),
            ) => match FormatRegistry::kind_by_content(
                self.formats@,
                detected,
                class_extension(source),
            ) {
                None => next == (ImportState::Finished {
                    outcome: ImportOutcome::Skipped(SkipReason::UnsupportedFormat),
                }),
                Some(media_type) => next == (ImportState::Probe {
                    source,
                    media_type,
                    video: video_extensions().contains(class_extension(source)),
                }),
            },
            (
                ImportState::Probe { source, media_type, .. },
                ImportReply::Image { id, exif, numbers },
            ) => next == (ImportState::CheckDuplicate {
                file: ProbedFile { source, media_type, id, exif, numbers, duration_ms: None },
            }),
            (
                ImportState::Probe { source, media_type, .. },
                ImportReply::Video { id, duration_ms },
            ) => next matches ImportState::CheckDuplicate { file } && file.source == source
                && file.media_type == media_type && file.id == id && file.exif.is_blank()
                && file.numbers.is_blank() && file.duration_ms == duration_ms,
            (ImportState::CheckDuplicate { file }, ImportReply::Exists(there)) => if there {
                next == (ImportState::Finished {
                    outcome: ImportOutcome::Skipped(SkipReason::Duplicate),
                })
            } else {
                match self.mode {
                    LocalStorageMode::Referenced => next == (ImportState::ReadSize { file }),
                    LocalStorageMode::Managed => match file.exif.captured_at {
                        Some(seconds) => exists|dir: Seq<char>| #[trigger]
                            dates(dir, seconds) && next.goes_to(self, file, dir),
                        None => next == (ImportState::ReadModified { file }),
                    },
                }
            },
            (ImportState::ReadModified { file }, ImportReply::Modified(seconds)) => exists|
                dir: Seq<char>,
            | #[trigger]
                dates(dir, seconds) && next.goes_to(self, file, dir),
            (
                ImportState::TryTarget { file, dir, name, attempt, target },
                ImportReply::Exists(there),
            ) => if there {
                next.tries(self, file, dir@, name@, (attempt + 1) as nat)
            } else {
                next matches ImportState::Copy { file: f, rel, target: t } && f == file && rel@
                    == attempted_rel(dir@, name@, attempt as nat) && t == target
            },
            (
                ImportState::Copy { file, rel, target },
                ImportReply::Stored { size, now },
            ) => next matches ImportState::Insert { record, metadata, thumbnail_source }
                && records_file(record, file, rel@, size, now) && details_file(metadata, file)
                && thumbnail_source == target,
            (ImportState::ReadSize { file }, ImportReply::Stored { size, now }) => next matches
                ImportState::Insert { record, metadata, thumbnail_source } && records_file(
                record,
                file,
                file.source.path@,
                size,
                now,
            ) && details_file(metadata, file) && thumbnail_source == file.source.path,
            (
                ImportState::Insert { record, metadata, thumbnail_source },
                ImportReply::Done,
            ) => next == (ImportState::InsertMetadata {
                metadata,
                media_id: record.id,
                thumbnail_source,
            }),
            (
                ImportState::InsertMetadata { media_id, thumbnail_source, .. },
                ImportReply::Done,
            ) => next == (ImportState::Finished {
                outcome: ImportOutcome::Imported { media_id, thumbnail_source },
            }),
            _ => false,
        }
    }

    /// Takes a reply.
    pub fn advance(&self, state: ImportState, reply: ImportReply) -> (r: ImportState)
        requires
            state.admits(reply),
        ensures
            self.leads_to(state, reply, r),
            state matches ImportState::Copy { file, .. } ==> reply is Stored ==> (r matches
                ImportState::Insert { record, metadata, .. } && record.id == file.id
                && metadata.media_id == file.id && metadata.gps_lat == file.numbers.gps_lat
                && metadata.gps_lon == file.numbers.gps_lon && metadata.gps_alt
                == file.numbers.gps_alt && metadata.aperture == file.numbers.aperture
                && metadata.focal_length == file.numbers.focal_length && metadata.iso
                == file.exif.iso && record.taken_at == file.exif.captured_at),
            state matches ImportState::ReadSize { file } ==> reply is Stored ==> (r matches
                ImportState::Insert { record, metadata, .. } && record.id == file.id
                && metadata.media_id == file.id && metadata.gps_lat == file.numbers.gps_lat
                && metadata.gps_lon == file.numbers.gps_lon && metadata.gps_alt
                == file.numbers.gps_alt && metadata.aperture == file.numbers.aperture
                && metadata.focal_length == file.numbers.focal_length && metadata.iso
                == file.exif.iso && record.taken_at == file.exif.captured_at),
    {
        match (state, reply) {
            (_, ImportReply::Failed(e)) => ImportState::Finished {
                outcome: ImportOutcome::Failed(e),
            },
            (ImportState::Sniff { source }, ImportReply::Sniffed(detected)) => {
                let ext = lower_extension(&source);
                match self.formats.media_type_with_sniff(detected, ext.as_str()) {
                    None => ImportState::Finished {
                        outcome: ImportOutcome::Skipped(SkipReason::UnsupportedFormat),
                    },
                    Some(media_type) => {
                        let video = is_video_extension(ext.as_str());
                        ImportState::Probe { source, media_type, video }
                    },
                }
            },
            (
                ImportState::Probe { source, media_type, .. },
                ImportReply::Image { id, exif, numbers },
            ) => ImportState::CheckDuplicate {
                file: ProbedFile { source, media_type, id, exif, numbers, duration_ms: None },
            },
            (
                ImportState::Probe { source, media_type, .. },
                ImportReply::Video { id, duration_ms },
            ) => ImportState::CheckDuplicate {
                file: ProbedFile {
                    source,
                    media_type,
                    id,
                    exif: ExifInfo::default(),
                    numbers: no_numbers(),
                    duration_ms,
                },
            },
            (ImportState::CheckDuplicate { file }, ImportReply::Exists(there)) => if there {
                ImportState::Finished { outcome: ImportOutcome::Skipped(SkipReason::Duplicate) }
            } else {
                match self.mode {
                    LocalStorageMode::Referenced => ImportState::ReadSize { file },
                    LocalStorageMode::Managed => match file.exif.captured_at {
                        Some(seconds) => {
                            let dir = date_dir(seconds);
                            self.compute_base_target(file, dir)
                        },
                        None => ImportState::ReadModified { file },
                    },
                }
            },
            (ImportState::ReadModified { file }, ImportReply::Modified(seconds)) => {
                let dir = date_dir(seconds);
                self.compute_base_target(file, dir)
            },
            (
                ImportState::TryTarget { file, dir, name, attempt, target },
                ImportReply::Exists(there),
            ) => if there {
                self.attempt_at(file, dir, name, attempt + 1)
            } else {
                let tried = resolve_collision(name.as_str(), attempt);
                let rel = join_path(dir.as_str(), tried.as_str());
                ImportState::Copy { file, rel, target }
            },
            (ImportState::Copy { file, rel, target }, ImportReply::Stored { size, now }) => stored(
                file,
                rel,
                size,
                now,
                target,
            ),
            (ImportState::ReadSize { file }, ImportReply::Stored { size, now }) => {
                let rel = file.source.path.clone();
                let thumbnail_source = file.source.path.clone();
                stored(file, rel, size, now, thumbnail_source)
            },
            (
                ImportState::Insert { record, metadata, thumbnail_source },
                ImportReply::Done,
            ) => ImportState::InsertMetadata { metadata, media_id: record.id, thumbnail_source },
            (
                ImportState::InsertMetadata { media_id, thumbnail_source, .. },
                ImportReply::Done,
            ) => ImportState::Finished {
                outcome: ImportOutcome::Imported { media_id, thumbnail_source },
            },
            (state, _) => state,
        }
    }
}

// ── The whole import ─────────────────────────────────────────────────────────

/// How many thumbnails are made at once: half the processors, four being assumed
/// where their number is not known, and never under two.
pub open spec fn thumbnail_workers(processors: Option<usize>) -> int {
    let half = (match processors {
        Some(n) => n,
        None => 4,
    }) / 2;
    if half < 2 {
        2
    } else {
        half as int
    }
}

/// How many thumbnails are made at once.
pub fn max_thumbnail_workers(processors: Option<usize>) -> (r: usize)
    ensures
        r == thumbnail_workers(processors),
{
    let n: usize = match processors {
        Some(n) => n,
        None => 4,
    };
    if n / 2 < 2 {
        2
    } else {
        n / 2
    }
}

/// What is told before the next file is imported.
pub open spec fn announces(event: AppEvent, p: ImportProgress) -> bool {
    event matches AppEvent::ImportProgress { current, total, imported, skipped, failed } && current
        == p.done() + 1 && total == p.total() && imported == p.summary().imported && skipped
        == p.summary().skipped_duplicates + p.summary().skipped_unsupported && failed
        == p.summary().failed
}

/// Tells which file comes next and what became of those before it.
pub fn progress_event(p: &ImportProgress) -> (r: AppEvent)
    requires
        p.done() < p.total(),
    ensures
        announces(r, *p),
{
    let (current, total, imported, skipped, failed) = p.counts();
    AppEvent::ImportProgress { current, total, imported, skipped, failed }
}

/// How an outcome is counted.
pub open spec fn counted_as(outcome: ImportOutcome) -> FileResult {
    match outcome {
        ImportOutcome::Imported { .. } => FileResult::Imported,
        ImportOutcome::Skipped(reason) => FileResult::Skipped(reason),
        ImportOutcome::Failed(_) => FileResult::Failed,
    }
}

/// Counts the outcome of a file; a failure is told as an error.
pub fn settle(p: ImportProgress, outcome: &ImportOutcome) -> (r: (ImportProgress, Option<AppEvent>))
    requires
        p.done() < p.total(),
    ensures
        r.0.total() == p.total(),
        r.0.done() == p.done() + 1,
        r.0.summary() == counting(p.summary(), counted_as(*outcome)),
        match *outcome {
            ImportOutcome::Failed(e) => r.1 matches Some(AppEvent::Error(m)) && m@ == e.text(),
            _ => r.1 is None,
        },
{
    match outcome {
        ImportOutcome::Imported { .. } => (p.record(FileResult::Imported), None),
        ImportOutcome::Skipped(reason) => (p.record(FileResult::Skipped(*reason)), None),
        ImportOutcome::Failed(e) => (
            p.record(FileResult::Failed),
            Some(AppEvent::Error(e.to_string())),
        ),
    }
}

/// Tells that the import is over. Every file has then been counted once.
pub fn complete_event(p: &ImportProgress) -> (r: AppEvent)
    requires
        p.done() == p.total(),
    ensures
        r == (AppEvent::ImportComplete { summary: p.summary() }),
        p.summary().counted() == p.total(),
{
    AppEvent::ImportComplete { summary: p.to_summary() }
}

// ── Laws ─────────────────────────────────────────────────────────────────────

/// A run of the machine.
pub open spec fn is_import(
    job: ImportJob,
    states: Seq<ImportState>,
    replies: Seq<ImportReply>,
) -> bool {
    &&& states.len() == replies.len() + 1
    &&& states.first() is Sniff
    &&& forall|i: int|
        0 <= i < replies.len() ==> #[trigger] states[i].admits(replies[i]) && job.leads_to(
            states[i],
            replies[i],
            states[i + 1],
        )
}

/// The id of the asset that a state is about to add, or has added.
pub open spec fn adding(state: ImportState) -> Option<MediaId> {
    match state {
        ImportState::ReadModified { file } => Some(file.id),
        ImportState::TryTarget { file, .. } => Some(file.id),
        ImportState::Copy { file, .. } => Some(file.id),
        ImportState::ReadSize { file } => Some(file.id),
        ImportState::Insert { record, .. } => Some(record.id),
        ImportState::InsertMetadata { media_id, .. } => Some(media_id),
        ImportState::Finished { outcome: ImportOutcome::Imported { media_id, .. } } => Some(
            media_id,
        ),
        _ => None,
    }
}

/// Whether, at some point before `k`, the database was asked for an id and did not
/// hold it.
pub open spec fn found_absent(
    states: Seq<ImportState>,
    replies: Seq<ImportReply>,
    k: int,
    id: MediaId,
) -> bool {
    exists|i: int|
        0 <= i < k && (#[trigger] states[i] matches ImportState::CheckDuplicate { file } && file.id
            == id) && replies[i] == ImportReply::Exists(false)
}

/// Nothing is copied, sized or recorded for an asset unless the database was asked
/// for it first and did not hold it.
pub proof fn only_absent_assets_are_added(
    job: ImportJob,
    states: Seq<ImportState>,
    replies: Seq<ImportReply>,
    k: int,
)
    requires
        is_import(job, states, replies),
        0 <= k < states.len(),
        adding(states[k]) is Some,
    ensures
        found_absent(states, replies, k, adding(states[k])->0),
    decreases k,
{
    assert(k > 0);
    let id = adding(states[k])->0;
    assert(states[k - 1].admits(replies[k - 1]));
    assert(job.leads_to(states[k - 1], replies[k - 1], states[k - 1 + 1]));
    if states[k - 1] is CheckDuplicate {
        assert(replies[k - 1] == ImportReply::Exists(false));
        assert(states[k - 1]->CheckDuplicate_file.id == id);
        assert(found_absent(states, replies, k, id));
    } else {
        assert(adding(states[k - 1]) == Some(id));
        only_absent_assets_are_added(job, states, replies, k - 1);
        let i = choose|i: int|
            0 <= i < k - 1 && (#[trigger] states[i] matches ImportState::CheckDuplicate { file }
                && file.id == id) && replies[i] == ImportReply::Exists(false);
        assert(found_absent(states, replies, k, id));
    }
}

/// A file is only ever copied to a place that was looked at just before and was
/// free.
pub proof fn copies_go_to_free_places(
    job: ImportJob,
    states: Seq<ImportState>,
    replies: Seq<ImportReply>,
    k: int,
)
    requires
        is_import(job, states, replies),
        0 <= k < states.len(),
        states[k] is Copy,
    ensures
        k > 0,
        states[k - 1] matches ImportState::TryTarget { target, .. } && target
            == states[k]->Copy_target && replies[k - 1] == ImportReply::Exists(false),
{
    assert(states[k - 1].admits(replies[k - 1]));
    assert(job.leads_to(states[k - 1], replies[k - 1], states[k - 1 + 1]));
}

/// Where originals are referenced, no file is copied.
pub proof fn referenced_originals_stay(
    job: ImportJob,
    states: Seq<ImportState>,
    replies: Seq<ImportReply>,
    k: int,
)
    requires
        is_import(job, states, replies),
        job.mode is Referenced,
        0 <= k < states.len(),
    ensures
        !(states[k] is Copy),
        !(states[k] is TryTarget),
        !(states[k] is ReadModified),
    decreases k,
{
    if k > 0 {
        referenced_originals_stay(job, states, replies, k - 1);
        assert(states[k - 1].admits(replies[k - 1]));
        assert(job.leads_to(states[k - 1], replies[k - 1], states[k - 1 + 1]));
    }
}

} // verus!
