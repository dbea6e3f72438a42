//! The file formats that the library supports.

pub mod extensions;
pub mod raw;
pub mod video;

use vstd::prelude::*;
use vstd::string::*;

use crate::error::{prefixed, LibraryError};
use crate::importer::{class_extension, lower_extension, SourceFile};
use crate::media::MediaType;
use crate::text::{ascii_lower, ascii_lowercase, text_eq};

verus! {

// ── Extensions ───────────────────────────────────────────────────────────────

/// The characters of each text.
pub open spec fn texts(v: Seq<&'static str>) -> Seq<Seq<char>> {
    v.map_values(|s: &'static str| s@)
}

/// The extensions of video files.
pub open spec fn video_extensions() -> Seq<Seq<char>> {
    seq!["mp4"@, "mov"@, "m4v"@, "mkv"@, "webm"@, "avi"@, "mts"@, "m2ts"@, "3gp"@]
}

/// The extensions of images in common formats.
pub open spec fn standard_extensions() -> Seq<Seq<char>> {
    seq!["jpg"@, "jpeg"@, "png"@, "webp"@, "tiff"@, "tif"@, "heic"@, "heif"@]
}

/// The extensions of RAW camera files.
pub open spec fn raw_extensions() -> Seq<Seq<char>> {
    seq![
        "ari"@, "arw"@, "cr2"@, "cr3"@, "crm"@, "crw"@, "dcr"@, "dcs"@, "dng"@, "erf"@,
        "iiq"@, "kdc"@, "mef"@, "mos"@, "mrw"@, "nef"@, "nrw"@, "orf"@, "ori"@, "pef"@,
        "raf"@, "raw"@, "rw2"@, "rwl"@, "srw"@, "3fr"@, "fff"@, "x3f"@, "qtk"@,
    ]
}

/// Decodes images in common formats.
pub struct StandardHandler;

impl StandardHandler {
    /// The extensions that the handler claims, in lower case.
    pub fn extensions(&self) -> (r: Vec<&'static str>)
        ensures
            texts(r@) == standard_extensions(),
    {
        let r = vec!["jpg", "jpeg", "png", "webp", "tiff", "tif", "heic", "heif"];
        assert(texts(r@) =~= standard_extensions());
        r
    }

    /// Decodes the bytes of a file with an extension in lower case, which matters where the
    /// bytes do not tell the format. Every failure is one of the thumbnail.
    pub fn decode(&self, bytes: &[u8], extension: &str) -> (r: Result<
        image::DynamicImage,
        LibraryError,
    >)
        ensures
            r matches Err(e) ==> e is Thumbnail,
    {
        Self::decoded(decode_picture(bytes, extension))
    }

    /// What a decoder gave: the image, or its words in an error.
    pub fn decoded(given: Result<image::DynamicImage, String>) -> (r: Result<
        image::DynamicImage,
        LibraryError,
    >)
        ensures
            match given {
                Ok(img) => r == Ok::<image::DynamicImage, LibraryError>(img),
                Err(cause) => r == Err::<image::DynamicImage, LibraryError>(
                    LibraryError::Thumbnail(cause),
                ),
            },
    {
        match given {
            Ok(img) => Ok(img),
            Err(cause) => Err(LibraryError::Thumbnail(cause)),
        }
    }
}

/// Calls `image::ImageReader::decode` on the bytes of a file, in the format that
/// `with_guessed_format` finds in them, else in that which
/// `image::ImageFormat::from_extension` knows; a reader of bytes cannot be told any other
/// extension. An error is given in its own words. Decoders can be added to the process, so
/// nothing is claimed of the image.
#[verifier::external_body]
fn decode_picture(bytes: &[u8], extension: &str) -> (r: Result<image::DynamicImage, String>) {
    let data = std::io::Cursor::new(bytes);
    let reader = match image::ImageFormat::from_extension(extension) {
        Some(format) => image::ImageReader::with_format(data, format),
        None => image::ImageReader::new(data),
    };
    reader.with_guessed_format().map_err(|e| e.to_string())?.decode().map_err(|e| e.to_string())
}

/// Decodes RAW camera files.
pub struct RawHandler;

impl RawHandler {
    /// The extensions that the handler claims, in lower case.
    pub fn extensions(&self) -> (r: Vec<&'static str>)
        ensures
            texts(r@) == raw_extensions(),
    {
        let r = vec![
            "ari", "arw", "cr2", "cr3", "crm", "crw", "dcr", "dcs", "dng", "erf",
            "iiq", "kdc", "mef", "mos", "mrw", "nef", "nrw", "orf", "ori", "pef",
            "raf", "raw", "rw2", "rwl", "srw", "3fr", "fff", "x3f", "qtk",
        ];
        assert(texts(r@) =~= raw_extensions());
        r
    }
}

/// Takes poster frames from videos.
pub struct VideoHandler;

impl VideoHandler {
    /// The extensions that the handler claims, in lower case.
    pub fn extensions(&self) -> (r: Vec<&'static str>)
        ensures
            texts(r@) == video_extensions(),
    {
        let r = vec!["mp4", "mov", "m4v", "mkv", "webm", "avi", "mts", "m2ts", "3gp"];
        assert(texts(r@) =~= video_extensions());
        r
    }
}

/// Whether `list` holds the text `s`.
pub fn holds_text(list: &Vec<&'static str>, s: &str) -> (r: bool)
    ensures
        r == texts(list@).contains(s@),
{
    let n: usize = list.len();
    let mut i: usize = 0;
    while i < n
        invariant
            i <= n,
            n == list@.len(),
            forall|j: int| 0 <= j < i ==> texts(list@)[j] != s@,
        decreases n - i,
    {
        if text_eq(list[i], s) {
            assert(texts(list@)[i as int] == s@);
            return true;
        }
        i += 1;
    }
    false
}

/// Whether an extension in lower case is that of a video.
pub fn is_video_extension(ext: &str) -> (r: bool)
    ensures
        r == video_extensions().contains(ext@),
{
    holds_text(&VideoHandler.extensions(), ext)
}

// ── Content sniffing ─────────────────────────────────────────────────────────

/// What the first bytes of a file say about its format.
#[derive(Debug, Clone, Copy, PartialEq, Eq, Structural)]
pub enum DetectedFormat {
    Image,
    Video,
    /// The bytes carry no known signature.
    Unknown,
}

/// Whether the bytes from a place on are those of a signature.
pub open spec fn has_at(bytes: Seq<u8>, at: int, signature: Seq<u8>) -> bool {
    at + signature.len() <= bytes.len() && bytes.subrange(at, at + signature.len()) == signature
}

fn holds_at(bytes: &[u8], at: usize, signature: &Vec<u8>) -> (r: bool)
    requires
        at + signature@.len() <= usize::MAX,
    ensures
        r == has_at(bytes@, at as int, signature@),
{
    let n: usize = signature.len();
    if bytes.len() < at + n {
        return false;
    }
    let mut i: usize = 0;
    while i < n
        invariant
            i <= n,
            n == signature@.len(),
            at + n <= bytes@.len(),
            at + n <= usize::MAX,
            forall|j: int| 0 <= j < i ==> bytes@[at + j] == signature@[j],
        decreases n - i,
    {
        if bytes[at + i] != signature[i] {
            assert(bytes@.subrange(at as int, at + n)[i as int] != signature@[i as int]);
            return false;
        }
        i += 1;
    }
    assert(bytes@.subrange(at as int, at + n) =~= signature@);
    true
}

/// `ftyp`, which begins the first box of an ISO media file. Its brand follows.
pub open spec fn file_type_box() -> Seq<u8> {
    seq![0x66, 0x74, 0x79, 0x70]
}

/// The brands of ISO media files that are videos: `isom`, `iso2`, `mp41`, `mp42`, `avc1`,
/// `M4V `, `qt  ` and those that begin with `3gp`.
pub open spec fn has_video_brand(bytes: Seq<u8>) -> bool {
    ||| has_at(bytes, 8, seq![0x69, 0x73, 0x6f, 0x6d])
    ||| has_at(bytes, 8, seq![0x69, 0x73, 0x6f, 0x32])
    ||| has_at(bytes, 8, seq![0x6d, 0x70, 0x34, 0x31])
    ||| has_at(bytes, 8, seq![0x6d, 0x70, 0x34, 0x32])
    ||| has_at(bytes, 8, seq![0x61, 0x76, 0x63, 0x31])
    ||| has_at(bytes, 8, seq![0x4d, 0x34, 0x56, 0x20])
    ||| has_at(bytes, 8, seq![0x71, 0x74, 0x20, 0x20])
    ||| has_at(bytes, 8, seq![0x33, 0x67, 0x70])
}

/// The brands of ISO media files that are images: `heic`, `heix`, `heif` and `mif1`.
pub open spec fn has_image_brand(bytes: Seq<u8>) -> bool {
    ||| has_at(bytes, 8, seq![0x68, 0x65, 0x69, 0x63])
    ||| has_at(bytes, 8, seq![0x68, 0x65, 0x69, 0x78])
    ||| has_at(bytes, 8, seq![0x68, 0x65, 0x69, 0x66])
    ||| has_at(bytes, 8, seq![0x6d, 0x69, 0x66, 0x31])
}

/// Whether the bytes begin like a JPEG, PNG, WebP or HEIF file.
pub open spec fn begins_image(bytes: Seq<u8>) -> bool {
    ||| has_at(bytes, 0, seq![0xff, 0xd8, 0xff])
    ||| has_at(bytes, 0, seq![0x89, 0x50, 0x4e, 0x47, 0x0d, 0x0a, 0x1a, 0x0a])
    ||| has_at(bytes, 0, seq![0x52, 0x49, 0x46, 0x46]) && has_at(
        bytes,
        8,
        seq![0x57, 0x45, 0x42, 0x50],
    )
    ||| has_at(bytes, 4, file_type_box()) && has_image_brand(bytes)
}

/// Whether the bytes begin like an MP4 or QuickTime, Matroska or AVI file.
pub open spec fn begins_video(bytes: Seq<u8>) -> bool {
    ||| has_at(bytes, 4, file_type_box()) && has_video_brand(bytes)
    ||| has_at(bytes, 0, seq![0x1a, 0x45, 0xdf, 0xa3])
    ||| has_at(bytes, 0, seq![0x52, 0x49, 0x46, 0x46]) && has_at(
        bytes,
        8,
        seq![0x41, 0x56, 0x49, 0x20],
    )
}

/// The format that the first bytes of a file tell. TIFF is not told: RAW files begin
/// like it too.
pub open spec fn told_format(bytes: Seq<u8>) -> DetectedFormat {
    if begins_video(bytes) {
        DetectedFormat::Video
    } else if begins_image(bytes) {
        DetectedFormat::Image
    } else {
        DetectedFormat::Unknown
    }
}

/// How many of the first bytes of a file are looked at.
pub const SNIFFED_BYTES: usize = 12;

/// Tells the format of a file by its first bytes.
pub fn detect_format(bytes: &[u8]) -> (r: DetectedFormat)
    ensures
        r == told_format(bytes@),
{
    let riff = holds_at(bytes, 0, &vec![0x52, 0x49, 0x46, 0x46]);
    let boxed = holds_at(bytes, 4, &vec![0x66, 0x74, 0x79, 0x70]);
    let video_brand = holds_at(bytes, 8, &vec![0x69, 0x73, 0x6f, 0x6d])
        || holds_at(bytes, 8, &vec![0x69, 0x73, 0x6f, 0x32])
        || holds_at(bytes, 8, &vec![0x6d, 0x70, 0x34, 0x31])
        || holds_at(bytes, 8, &vec![0x6d, 0x70, 0x34, 0x32])
        || holds_at(bytes, 8, &vec![0x61, 0x76, 0x63, 0x31])
        || holds_at(bytes, 8, &vec![0x4d, 0x34, 0x56, 0x20])
        || holds_at(bytes, 8, &vec![0x71, 0x74, 0x20, 0x20])
        || holds_at(bytes, 8, &vec![0x33, 0x67, 0x70]);
    let image_brand = holds_at(bytes, 8, &vec![0x68, 0x65, 0x69, 0x63])
        || holds_at(bytes, 8, &vec![0x68, 0x65, 0x69, 0x78])
        || holds_at(bytes, 8, &vec![0x68, 0x65, 0x69, 0x66])
        || holds_at(bytes, 8, &vec![0x6d, 0x69, 0x66, 0x31]);
    if boxed && video_brand || holds_at(bytes, 0, &vec![0x1a, 0x45, 0xdf, 0xa3]) || riff
        && holds_at(bytes, 8, &vec![0x41, 0x56, 0x49, 0x20]) {
        DetectedFormat::Video
    } else if holds_at(bytes, 0, &vec![0xff, 0xd8, 0xff]) || holds_at(
        bytes,
        0,
        &vec![0x89, 0x50, 0x4e, 0x47, 0x0d, 0x0a, 0x1a, 0x0a],
    ) || riff && holds_at(bytes, 8, &vec![0x57, 0x45, 0x42, 0x50]) || boxed && image_brand {
        DetectedFormat::Image
    } else {
        DetectedFormat::Unknown
    }
}

// ── The registry ─────────────────────────────────────────────────────────────

/// The single source of truth for supported formats: which handler decodes files
/// with which extension. Handlers are named by the numbers under which the
/// application keeps them.
#[derive(Debug)]
pub struct FormatRegistry {
    entries: Vec<(String, usize)>,
}

/// Whether no extension is listed twice.
pub open spec fn keys_differ(entries: Seq<(String, usize)>) -> bool {
    forall|i: int, j: int|
        0 <= i < j < entries.len() ==> (#[trigger] entries[i]).0@ != (#[trigger] entries[j]).0@
}

/// The handlers by extension.
pub open spec fn entry_map(entries: Seq<(String, usize)>) -> Map<Seq<char>, usize>
    decreases entries.len(),
{
    if entries.len() == 0 {
        Map::empty()
    } else {
        entry_map(entries.drop_last()).insert(entries.last().0@, entries.last().1)
    }
}

proof fn lemma_entry_map(entries: Seq<(String, usize)>)
    requires
        keys_differ(entries),
    ensures
        forall|i: int|
            0 <= i < entries.len() ==> entry_map(entries).contains_key(
                (#[trigger] entries[i]).0@,
            ) && entry_map(entries)[entries[i].0@] == entries[i].1,
        forall|k: Seq<char>| #[trigger]
            entry_map(entries).contains_key(k) ==> exists|i: int|
                0 <= i < entries.len() && (#[trigger] entries[i]).0@ == k,
    decreases entries.len(),
{
    if entries.len() > 0 {
        let rest = entries.drop_last();
        assert(keys_differ(rest)) by {
            assert forall|i: int, j: int| 0 <= i < j < rest.len() implies (#[trigger] rest[i]).0@
                != (#[trigger] rest[j]).0@ by {
                assert(entries[i].0@ != entries[j].0@);
            }
        }
        lemma_entry_map(rest);
        assert forall|i: int| 0 <= i < entries.len() implies entry_map(entries).contains_key(
            (#[trigger] entries[i]).0@,
        ) && entry_map(entries)[entries[i].0@] == entries[i].1 by {
            if i < rest.len() {
                assert(rest[i] == entries[i]);
                assert(entries[i].0@ != entries[entries.len() - 1].0@);
            }
        }
        assert forall|k: Seq<char>| #[trigger] entry_map(entries).contains_key(k) implies exists|
            i: int,
        |
            0 <= i < entries.len() && (#[trigger] entries[i]).0@ == k by {
            if k == entries.last().0@ {
                assert(entries[entries.len() - 1].0@ == k);
            } else {
                assert(entry_map(rest).contains_key(k));
                let i = choose|i: int| 0 <= i < rest.len() && (#[trigger] rest[i]).0@ == k;
                assert(entries[i] == rest[i]);
            }
        }
    }
}

/// The handlers by extension after a handler has claimed the first `n` of its
/// extensions.
pub open spec fn claimed(
    before: Map<Seq<char>, usize>,
    extensions: Seq<Seq<char>>,
    handler: usize,
) -> Map<Seq<char>, usize>
    decreases extensions.len(),
{
    if extensions.len() == 0 {
        before
    } else {
        claimed(before, extensions.drop_last(), handler).insert(extensions.last(), handler)
    }
}

impl View for FormatRegistry {
    type V = Map<Seq<char>, usize>;

    closed spec fn view(&self) -> Map<Seq<char>, usize> {
        entry_map(self.entries@)
    }
}

impl FormatRegistry {
    /// No extension is listed twice.
    #[verifier::type_invariant]
    closed spec fn wf(self) -> bool {
        keys_differ(self.entries@)
    }

    /// The place of an extension.
    fn position(&self, ext: &str) -> (r: Option<usize>)
        ensures
            match r {
                Some(i) => i < self.entries@.len() && self.entries@[i as int].0@ == ext@,
                None => forall|i: int|
                    0 <= i < self.entries@.len() ==> (#[trigger] self.entries@[i]).0@ != ext@,
            },
    {
        let n: usize = self.entries.len();
        let mut i: usize = 0;
        while i < n
            invariant
                i <= n,
                n == self.entries@.len(),
                forall|j: int| 0 <= j < i ==> (#[trigger] self.entries@[j]).0@ != ext@,
            decreases n - i,
        {
            if text_eq(self.entries[i].0.as_str(), ext) {
                return Some(i);
            }
            i += 1;
        }
        None
    }

    /// A registry without handlers.
    pub fn new() -> (r: Self)
        ensures
            r@ == Map::<Seq<char>, usize>::empty(),
    {
        FormatRegistry { entries: Vec::new() }
    }

    /// Gives one extension to a handler, taking it from any other.
    fn claim(self, ext: &str, handler: usize) -> (r: Self)
        ensures
            r@ == self@.insert(ext@, handler),
    {
        proof {
            use_type_invariant(&self);
            lemma_entry_map(self.entries@);
        }
        let ghost before = self@;
        let at = self.position(ext);
        let mut entries = self.entries;
        let ghost olds = entries@;
        match at {
            Some(i) => {
                entries.set(i, (ext.to_owned(), handler));
            },
            None => {
                entries.push((ext.to_owned(), handler));
            },
        }
        proof {
            assert forall|i: int, j: int| 0 <= i < j < entries@.len() implies (
            #[trigger] entries@[i]).0@ != (#[trigger] entries@[j]).0@ by {
                match at {
                    Some(k) => {
                        assert(olds[i].0@ != olds[j].0@);
                        assert(entries@[i].0@ == olds[i].0@);
                        assert(entries@[j].0@ == olds[j].0@);
                    },
                    None => {
                        assert(entries@[i] == olds[i]);
                        if j < olds.len() {
                            assert(olds[i].0@ != olds[j].0@);
                        }
                    },
                }
            }
            lemma_entry_map(entries@);
            let after = entry_map(entries@);
            assert(after =~= before.insert(ext@, handler)) by {
                assert forall|k: Seq<char>| #[trigger]
                    after.contains_key(k) == before.insert(ext@, handler).contains_key(k) by {
                    if after.contains_key(k) {
                        let i = choose|i: int|
                            0 <= i < entries@.len() && (#[trigger] entries@[i]).0@ == k;
                        if k != ext@ {
                            assert(olds[i].0@ == k);
                        }
                    }
                    if before.contains_key(k) {
                        let i = choose|i: int| 0 <= i < olds.len() && (#[trigger] olds[i]).0@ == k;
                        assert(entries@[i].0@ == k);
                    }
                    match at {
                        Some(i) => assert(entries@[i as int].0@ == ext@),
                        None => assert(entries@[entries@.len() - 1].0@ == ext@),
                    }
                }
                assert forall|k: Seq<char>| #[trigger] after.contains_key(k) implies after[k]
                    == before.insert(ext@, handler)[k] by {
                    let i = choose|i: int|
                        0 <= i < entries@.len() && (#[trigger] entries@[i]).0@ == k;
                    assert(after[entries@[i].0@] == entries@[i].1);
                    if k != ext@ {
                        assert(olds[i] == entries@[i]);
                        assert(before[olds[i].0@] == olds[i].1);
                    } else {
                        match at {
                            Some(p) => {
                                if i != p as int {
                                    if i < p {
                                        assert(entries@[i].0@ != entries@[p as int].0@);
                                    } else {
                                        assert(entries@[p as int].0@ != entries@[i].0@);
                                    }
                                }
                            },
                            None => {
                                if i < olds.len() {
                                    assert(olds[i].0@ != ext@);
                                }
                            },
                        }
                    }
                }
            }
        }
        FormatRegistry { entries }
    }

    /// Gives every extension that a handler declares to that handler. Where two
    /// handlers claim the same extension, the last one has it.
    pub fn register(self, extensions: &Vec<&'static str>, handler: usize) -> (r: Self)
        ensures
            r@ == claimed(self@, texts(extensions@), handler),
    {
        let ghost before = self@;
        let ghost all = texts(extensions@);
        let n: usize = extensions.len();
        let mut registry = self;
        let mut i: usize = 0;
        while i < n
            invariant
                i <= n,
                n == extensions@.len(),
                all == texts(extensions@),
                registry@ == claimed(before, all.take(i as int), handler),
            decreases n - i,
        {
            registry = registry.claim(extensions[i], handler);
            i += 1;
            assert(all.take(i as int).drop_last() =~= all.take(i - 1));
        }
        assert(all.take(n as int) =~= all);
        registry
    }

    /// The handler for files with an extension in lower case.
    pub fn handler_for(&self, ext: &str) -> (r: Option<usize>)
        ensures
            match r {
                Some(h) => self@.contains_key(ext@) && self@[ext@] == h,
                None => !self@.contains_key(ext@),
            },
    {
        proof {
            use_type_invariant(self);
            lemma_entry_map(self.entries@);
        }
        match self.position(ext) {
            Some(i) => Some(self.entries[i].1),
            None => None,
        }
    }

    /// Whether `r` is the handler for files with an extension in lower case, or the error
    /// that there is none.
    pub open spec fn finds(
        r: Result<usize, LibraryError>,
        handlers: Map<Seq<char>, usize>,
        ext: Seq<char>,
    ) -> bool {
        match r {
            Ok(h) => handlers.contains_key(ext) && handlers[ext] == h,
            Err(e) => !handlers.contains_key(ext) && (e matches LibraryError::Thumbnail(m) && m@
                == "no handler registered for ."@ + ext),
        }
    }

    /// The handler that decodes a file, by its extension in any case.
    pub fn decode(&self, source: &SourceFile) -> (r: Result<usize, LibraryError>)
        ensures
            Self::finds(r, self@, class_extension(*source)),
            match r {
                Ok(h) => self@.contains_key(class_extension(*source))
                    && self@[class_extension(*source)] == h,
                Err(e) => !self@.contains_key(class_extension(*source)) && (e matches
                    LibraryError::Thumbnail(m) && m@ == "no handler registered for ."@
                    + class_extension(*source)),
            },
    {
        let ext = lower_extension(source);
        match self.handler_for(ext.as_str()) {
            Some(h) => Ok(h),
            None => Err(
                LibraryError::Thumbnail(prefixed("no handler registered for .", ext.as_str())),
            ),
        }
    }

    /// Whether `r` is what the decoding of a file comes to, given what its handler said.
    pub open spec fn reports(
        r: Result<image::DynamicImage, LibraryError>,
        given: Result<image::DynamicImage, LibraryError>,
    ) -> bool {
        match given {
            Ok(img) => r == Ok::<image::DynamicImage, LibraryError>(img),
            Err(LibraryError::Thumbnail(m)) => r matches Err(LibraryError::Thumbnail(n)) && n == m,
            Err(e) => r matches Err(LibraryError::Thumbnail(n)) && n@ == e.text(),
        }
    }

    /// What the decoding of a file comes to, given what its handler said: the image as it
    /// is, or a failure, which is always one of the thumbnail.
    pub fn report(given: Result<image::DynamicImage, LibraryError>) -> (r: Result<
        image::DynamicImage,
        LibraryError,
    >)
        ensures
            Self::reports(r, given),
            match given {
                Ok(img) => r == Ok::<image::DynamicImage, LibraryError>(img),
                Err(LibraryError::Thumbnail(m)) => r matches Err(LibraryError::Thumbnail(n)) && n
                    == m,
                Err(e) => r matches Err(LibraryError::Thumbnail(n)) && n@ == e.text(),
            },
    {
        match given {
            Ok(img) => Ok(img),
            Err(LibraryError::Thumbnail(m)) => Err(LibraryError::Thumbnail(m)),
            Err(e) => Err(LibraryError::Thumbnail(e.to_string())),
        }
    }

    /// Whether an extension in any case is that of a video.
    pub fn is_video(&self, ext: &str) -> (r: bool)
        ensures
            r == video_extensions().contains(ascii_lower(ext@)),
    {
        is_video_extension(ascii_lowercase(ext).as_str())
    }

    /// The kind of files with an extension: video for the video extensions, image
    /// for every other extension that has a handler.
    pub open spec fn kind_of(handlers: Map<Seq<char>, usize>, ext: Seq<char>) -> Option<MediaType> {
        if video_extensions().contains(ascii_lower(ext)) {
            Some(MediaType::Video)
        } else if handlers.contains_key(ascii_lower(ext)) {
            Some(MediaType::Image)
        } else {
            None
        }
    }

    /// The kind of files with an extension, in any case; none where the format is
    /// not supported.
    pub fn media_type(&self, ext: &str) -> (r: Option<MediaType>)
        ensures
            r == Self::kind_of(self@, ext@),
    {
        let lower = ascii_lowercase(ext);
        if is_video_extension(lower.as_str()) {
            Some(MediaType::Video)
        } else if self.handler_for(lower.as_str()).is_some() {
            Some(MediaType::Image)
        } else {
            None
        }
    }

    /// The kind of a file by its content, else by its extension.
    pub open spec fn kind_by_content(
        handlers: Map<Seq<char>, usize>,
        detected: Option<DetectedFormat>,
        ext: Seq<char>,
    ) -> Option<MediaType> {
        match detected {
            Some(DetectedFormat::Image) => Some(MediaType::Image),
            Some(DetectedFormat::Video) => Some(MediaType::Video),
            _ => Self::kind_of(handlers, ext),
        }
    }

    /// The kind of a file. What its first bytes say (nothing where they could not
    /// be read) goes before its extension.
    pub fn media_type_with_sniff(&self, detected: Option<DetectedFormat>, ext: &str) -> (r: Option<
        MediaType,
    >)
        ensures
            r == Self::kind_by_content(self@, detected, ext@),
    {
        match detected {
            Some(DetectedFormat::Image) => Some(MediaType::Image),
            Some(DetectedFormat::Video) => Some(MediaType::Video),
            _ => self.media_type(ext),
        }
    }

    /// The extensions of all handlers.
    pub fn supported_extensions(&self) -> (r: Vec<String>)
        ensures
            forall|k: Seq<char>|
                self@.contains_key(k) <==> exists|i: int|
                    0 <= i < r@.len() && (#[trigger] r@[i])@ == k,
            forall|i: int, j: int|
                0 <= i < j < r@.len() ==> (#[trigger] r@[i])@ != (#[trigger] r@[j])@,
    {
        proof {
            use_type_invariant(self);
            lemma_entry_map(self.entries@);
        }
        let mut out: Vec<String> = Vec::new();
        let n: usize = self.entries.len();
        let mut i: usize = 0;
        while i < n
            invariant
                i <= n,
                n == self.entries@.len(),
                out@.len() == i,
                forall|j: int| 0 <= j < i ==> (#[trigger] out@[j])@ == self.entries@[j].0@,
            decreases n - i,
        {
            out.push(self.entries[i].0.clone());
            i += 1;
        }
        proof {
            let entries = self.entries@;
            assert forall|k: Seq<char>| self@.contains_key(k) <==> exists|i: int|
                0 <= i < out@.len() && (#[trigger] out@[i])@ == k by {
                if self@.contains_key(k) {
                    let i = choose|i: int| 0 <= i < entries.len() && (#[trigger] entries[i]).0@ == k;
                    assert(out@[i]@ == k);
                }
                if exists|i: int| 0 <= i < out@.len() && (#[trigger] out@[i])@ == k {
                    let i = choose|i: int| 0 <= i < out@.len() && (#[trigger] out@[i])@ == k;
                    assert(entries[i].0@ == k);
                }
            }
            assert forall|i: int, j: int| 0 <= i < j < out@.len() implies (#[trigger] out@[i])@ != (
            #[trigger] out@[j])@ by {
                assert(entries[i].0@ != entries[j].0@);
            }
        }
        out
    }
}

// ── Laws ─────────────────────────────────────────────────────────────────────

/// Videos are recognised whether or not a handler is registered for them, and
/// registering a handler never makes a supported format unsupported.
pub proof fn registering_keeps_support(
    handlers: Map<Seq<char>, usize>,
    extensions: Seq<Seq<char>>,
    handler: usize,
    ext: Seq<char>,
)
    ensures
        FormatRegistry::kind_of(handlers, ext) is Some ==> FormatRegistry::kind_of(
            claimed(handlers, extensions, handler),
            ext,
        ) == FormatRegistry::kind_of(handlers, ext),
    decreases extensions.len(),
{
    if extensions.len() > 0 {
        registering_keeps_support(handlers, extensions.drop_last(), handler, ext);
    }
}

/// Every extension that a handler declares is its own after it was registered.
pub proof fn registered_handler_has_its_extensions(
    handlers: Map<Seq<char>, usize>,
    extensions: Seq<Seq<char>>,
    handler: usize,
)
    ensures
        forall|i: int|
            0 <= i < extensions.len() ==> claimed(handlers, extensions, handler).contains_key(
                #[trigger] extensions[i],
            ) && claimed(handlers, extensions, handler)[extensions[i]] == handler,
    decreases extensions.len(),
{
    if extensions.len() > 0 {
        let rest = extensions.drop_last();
        registered_handler_has_its_extensions(handlers, rest, handler);
        assert forall|i: int| 0 <= i < extensions.len() implies claimed(
            handlers,
            extensions,
            handler,
        ).contains_key(#[trigger] extensions[i]) && claimed(
            handlers,
            extensions,
            handler,
        )[extensions[i]] == handler by {
            if i < rest.len() {
                assert(rest[i] == extensions[i]);
            }
        }
    }
}

} // verus!
