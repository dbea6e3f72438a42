//! What files are taken for.

use vstd::prelude::*;

use crate::format::raw::{raw_leads_to, RawPicture, RawReply, RawState};
use crate::format::video::{fault_text, file_uri, frame_fits, frame_pixels, PosterFault};
use crate::format::{
    has_at, raw_extensions, standard_extensions, told_format, video_extensions, DetectedFormat,
    FormatRegistry, SNIFFED_BYTES,
};
use crate::error::LibraryError;
use crate::media::MediaType;
use crate::text::{ascii_lower, ascii_lower_char};

verus! {

// ── Extensions ───────────────────────────────────────────────────────────────

/// The extensions of videos are those of MPEG-4, QuickTime, Matroska, WebM, AVI, AVCHD and
/// 3GPP files.
pub proof fn video_files_are_known(ext: Seq<char>)
    ensures
        video_extensions().contains(ext) <==> ext == "mp4"@ || ext == "mov"@ || ext == "m4v"@
            || ext == "mkv"@ || ext == "webm"@ || ext == "avi"@ || ext == "mts"@ || ext == "m2ts"@
            || ext == "3gp"@,
{
    let v = video_extensions();
    assert(v[0] == "mp4"@ && v[1] == "mov"@ && v[2] == "m4v"@ && v[3] == "mkv"@ && v[4] == "webm"@
        && v[5] == "avi"@ && v[6] == "mts"@ && v[7] == "m2ts"@ && v[8] == "3gp"@);
}

/// The extensions of common images are those of JPEG, PNG, WebP, TIFF and HEIF files.
pub proof fn image_files_are_known(ext: Seq<char>)
    ensures
        standard_extensions().contains(ext) <==> ext == "jpg"@ || ext == "jpeg"@ || ext == "png"@
            || ext == "webp"@ || ext == "tiff"@ || ext == "tif"@ || ext == "heic"@ || ext == "heif"@,
{
    let v = standard_extensions();
    assert(v[0] == "jpg"@ && v[1] == "jpeg"@ && v[2] == "png"@ && v[3] == "webp"@ && v[4]
        == "tiff"@ && v[5] == "tif"@ && v[6] == "heic"@ && v[7] == "heif"@);
}

/// The extensions of RAW files are those of the makers of cameras.
pub proof fn raw_files_are_known(ext: Seq<char>)
    ensures
        ext == "ari"@ || ext == "arw"@ || ext == "cr2"@ || ext == "cr3"@ || ext == "crm"@ || ext
            == "crw"@ || ext == "dcr"@ || ext == "dcs"@ || ext == "dng"@ || ext == "erf"@
            ==> raw_extensions().contains(ext),
        ext == "iiq"@ || ext == "kdc"@ || ext == "mef"@ || ext == "mos"@ || ext == "mrw"@ || ext
            == "nef"@ || ext == "nrw"@ || ext == "orf"@ || ext == "ori"@ || ext == "pef"@
            ==> raw_extensions().contains(ext),
        ext == "raf"@ || ext == "raw"@ || ext == "rw2"@ || ext == "rwl"@ || ext == "srw"@ || ext
            == "3fr"@ || ext == "fff"@ || ext == "x3f"@ || ext == "qtk"@ ==> raw_extensions().contains(
            ext,
        ),
        raw_extensions().len() == 29,
{
    let v = raw_extensions();
    assert(v[0] == "ari"@ && v[1] == "arw"@ && v[2] == "cr2"@ && v[3] == "cr3"@ && v[4] == "crm"@
        && v[5] == "crw"@ && v[6] == "dcr"@ && v[7] == "dcs"@ && v[8] == "dng"@ && v[9] == "erf"@);
    assert(v[10] == "iiq"@ && v[11] == "kdc"@ && v[12] == "mef"@ && v[13] == "mos"@ && v[14]
        == "mrw"@ && v[15] == "nef"@ && v[16] == "nrw"@ && v[17] == "orf"@ && v[18] == "ori"@ && v[19]
        == "pef"@);
    assert(v[20] == "raf"@ && v[21] == "raw"@ && v[22] == "rw2"@ && v[23] == "rwl"@ && v[24]
        == "srw"@ && v[25] == "3fr"@ && v[26] == "fff"@ && v[27] == "x3f"@ && v[28] == "qtk"@);
}

proof fn folding_twice(s: Seq<char>)
    ensures
        ascii_lower(ascii_lower(s)) == ascii_lower(s),
{
    assert forall|c: char| ascii_lower_char(#[trigger] ascii_lower_char(c)) == ascii_lower_char(
        c,
    ) by {
        if 'A' <= c && c <= 'Z' {
            assert(c as u32 + 32 <= 122);
        }
    }
    assert(ascii_lower(ascii_lower(s)) =~= ascii_lower(s));
}

/// The kind of a file does not depend on the case of its extension. A video extension means a
/// video; any other extension means an image where some handler has claimed it, and nothing
/// where none has.
pub proof fn kinds_go_by_the_extension(handlers: Map<Seq<char>, usize>, ext: Seq<char>)
    ensures
        FormatRegistry::kind_of(handlers, ext) == FormatRegistry::kind_of(
            handlers,
            ascii_lower(ext),
        ),
        video_extensions().contains(ascii_lower(ext)) ==> FormatRegistry::kind_of(handlers, ext)
            == Some(MediaType::Video),
        !video_extensions().contains(ascii_lower(ext)) && handlers.contains_key(ascii_lower(ext))
            ==> FormatRegistry::kind_of(handlers, ext) == Some(MediaType::Image),
        !video_extensions().contains(ascii_lower(ext)) && !handlers.contains_key(ascii_lower(ext))
            ==> FormatRegistry::kind_of(handlers, ext) is None,
{
    folding_twice(ext);
}

/// What the first bytes of a file tell goes before its extension, whatever that is. Where they
/// tell nothing, or could not be read, the extension decides.
pub proof fn content_goes_before_the_extension(handlers: Map<Seq<char>, usize>, ext: Seq<char>)
    ensures
        FormatRegistry::kind_by_content(handlers, Some(DetectedFormat::Image), ext) == Some(
            MediaType::Image,
        ),
        FormatRegistry::kind_by_content(handlers, Some(DetectedFormat::Video), ext) == Some(
            MediaType::Video,
        ),
        FormatRegistry::kind_by_content(handlers, Some(DetectedFormat::Unknown), ext)
            == FormatRegistry::kind_of(handlers, ext),
        FormatRegistry::kind_by_content(handlers, None, ext) == FormatRegistry::kind_of(
            handlers,
            ext,
        ),
{
}

// ── First bytes ──────────────────────────────────────────────────────────────

/// Four bytes from a place on.
pub open spec fn four(bytes: Seq<u8>, at: int, a: u8, b: u8, c: u8, d: u8) -> bool {
    at + 4 <= bytes.len() && bytes[at] == a && bytes[at + 1] == b && bytes[at + 2] == c && bytes[at
        + 3] == d
}

proof fn four_bytes(bytes: Seq<u8>, at: int, a: u8, b: u8, c: u8, d: u8)
    requires
        0 <= at,
    ensures
        has_at(bytes, at, seq![a, b, c, d]) <==> four(bytes, at, a, b, c, d),
{
    let sig = seq![a, b, c, d];
    if at + 4 <= bytes.len() {
        let part = bytes.subrange(at, at + 4);
        assert(part[0] == bytes[at] && part[1] == bytes[at + 1] && part[2] == bytes[at + 2]
            && part[3] == bytes[at + 3]);
        assert(sig[0] == a && sig[1] == b && sig[2] == c && sig[3] == d);
        if four(bytes, at, a, b, c, d) {
            assert(part =~= sig);
        }
    }
}

proof fn three_bytes(bytes: Seq<u8>, at: int, a: u8, b: u8, c: u8)
    requires
        0 <= at,
    ensures
        has_at(bytes, at, seq![a, b, c]) <==> at + 3 <= bytes.len() && bytes[at] == a && bytes[at
            + 1] == b && bytes[at + 2] == c,
{
    let sig = seq![a, b, c];
    if at + 3 <= bytes.len() {
        let part = bytes.subrange(at, at + 3);
        assert(part[0] == bytes[at] && part[1] == bytes[at + 1] && part[2] == bytes[at + 2]);
        assert(sig[0] == a && sig[1] == b && sig[2] == c);
        if bytes[at] == a && bytes[at + 1] == b && bytes[at + 2] == c {
            assert(part =~= sig);
        }
    }
}

proof fn brands_in_bytes(bytes: Seq<u8>)
    ensures
        has_at(bytes, 4, seq![0x66, 0x74, 0x79, 0x70]) <==> four(bytes, 4, 0x66, 0x74, 0x79, 0x70),
        has_at(bytes, 0, seq![0x52, 0x49, 0x46, 0x46]) <==> four(bytes, 0, 0x52, 0x49, 0x46, 0x46),
        has_at(bytes, 0, seq![0x1a, 0x45, 0xdf, 0xa3]) <==> four(bytes, 0, 0x1a, 0x45, 0xdf, 0xa3),
        has_at(bytes, 8, seq![0x41, 0x56, 0x49, 0x20]) <==> four(bytes, 8, 0x41, 0x56, 0x49, 0x20),
        has_at(bytes, 8, seq![0x57, 0x45, 0x42, 0x50]) <==> four(bytes, 8, 0x57, 0x45, 0x42, 0x50),
        has_at(bytes, 8, seq![0x69, 0x73, 0x6f, 0x6d]) <==> four(bytes, 8, 0x69, 0x73, 0x6f, 0x6d),
        has_at(bytes, 8, seq![0x69, 0x73, 0x6f, 0x32]) <==> four(bytes, 8, 0x69, 0x73, 0x6f, 0x32),
        has_at(bytes, 8, seq![0x6d, 0x70, 0x34, 0x31]) <==> four(bytes, 8, 0x6d, 0x70, 0x34, 0x31),
        has_at(bytes, 8, seq![0x6d, 0x70, 0x34, 0x32]) <==> four(bytes, 8, 0x6d, 0x70, 0x34, 0x32),
        has_at(bytes, 8, seq![0x61, 0x76, 0x63, 0x31]) <==> four(bytes, 8, 0x61, 0x76, 0x63, 0x31),
        has_at(bytes, 8, seq![0x4d, 0x34, 0x56, 0x20]) <==> four(bytes, 8, 0x4d, 0x34, 0x56, 0x20),
        has_at(bytes, 8, seq![0x71, 0x74, 0x20, 0x20]) <==> four(bytes, 8, 0x71, 0x74, 0x20, 0x20),
        has_at(bytes, 8, seq![0x68, 0x65, 0x69, 0x63]) <==> four(bytes, 8, 0x68, 0x65, 0x69, 0x63),
        has_at(bytes, 8, seq![0x68, 0x65, 0x69, 0x78]) <==> four(bytes, 8, 0x68, 0x65, 0x69, 0x78),
        has_at(bytes, 8, seq![0x68, 0x65, 0x69, 0x66]) <==> four(bytes, 8, 0x68, 0x65, 0x69, 0x66),
        has_at(bytes, 8, seq![0x6d, 0x69, 0x66, 0x31]) <==> four(bytes, 8, 0x6d, 0x69, 0x66, 0x31),
        has_at(bytes, 8, seq![0x33, 0x67, 0x70]) <==> 11 <= bytes.len() && bytes[8] == 0x33
            && bytes[9] == 0x67 && bytes[10] == 0x70,
        has_at(bytes, 0, seq![0xff, 0xd8, 0xff]) <==> 3 <= bytes.len() && bytes[0] == 0xff
            && bytes[1] == 0xd8 && bytes[2] == 0xff,
{
    four_bytes(bytes, 4, 0x66, 0x74, 0x79, 0x70);
    four_bytes(bytes, 0, 0x52, 0x49, 0x46, 0x46);
    four_bytes(bytes, 0, 0x1a, 0x45, 0xdf, 0xa3);
    four_bytes(bytes, 8, 0x41, 0x56, 0x49, 0x20);
    four_bytes(bytes, 8, 0x57, 0x45, 0x42, 0x50);
    four_bytes(bytes, 8, 0x69, 0x73, 0x6f, 0x6d);
    four_bytes(bytes, 8, 0x69, 0x73, 0x6f, 0x32);
    four_bytes(bytes, 8, 0x6d, 0x70, 0x34, 0x31);
    four_bytes(bytes, 8, 0x6d, 0x70, 0x34, 0x32);
    four_bytes(bytes, 8, 0x61, 0x76, 0x63, 0x31);
    four_bytes(bytes, 8, 0x4d, 0x34, 0x56, 0x20);
    four_bytes(bytes, 8, 0x71, 0x74, 0x20, 0x20);
    four_bytes(bytes, 8, 0x68, 0x65, 0x69, 0x63);
    four_bytes(bytes, 8, 0x68, 0x65, 0x69, 0x78);
    four_bytes(bytes, 8, 0x68, 0x65, 0x69, 0x66);
    four_bytes(bytes, 8, 0x6d, 0x69, 0x66, 0x31);
    three_bytes(bytes, 8, 0x33, 0x67, 0x70);
    three_bytes(bytes, 0, 0xff, 0xd8, 0xff);
}

/// An ISO media file, which has `ftyp` in its fifth to eighth byte, is a video or an image by
/// the brand that follows: `isom`, `iso2`, `mp41`, `mp42`, `avc1`, `M4V `, `qt  ` and `3gp..`
/// are videos, `heic`, `heix`, `heif` and `mif1` images, and other brands tell nothing.
pub proof fn brands_tell_the_kind(bytes: Seq<u8>)
    requires
        bytes.len() >= 12,
        four(bytes, 4, 0x66, 0x74, 0x79, 0x70),
        !(bytes[0] == 0xff && bytes[1] == 0xd8 && bytes[2] == 0xff),
        bytes[0] != 0x89,
        !four(bytes, 0, 0x1a, 0x45, 0xdf, 0xa3),
        !four(bytes, 0, 0x52, 0x49, 0x46, 0x46),
    ensures
        told_format(bytes) is Video <==> four(bytes, 8, 0x69, 0x73, 0x6f, 0x6d) || four(
            bytes,
            8,
            0x69,
            0x73,
            0x6f,
            0x32,
        ) || four(bytes, 8, 0x6d, 0x70, 0x34, 0x31) || four(bytes, 8, 0x6d, 0x70, 0x34, 0x32)
            || four(bytes, 8, 0x61, 0x76, 0x63, 0x31) || four(bytes, 8, 0x4d, 0x34, 0x56, 0x20)
            || four(bytes, 8, 0x71, 0x74, 0x20, 0x20) || (bytes[8] == 0x33 && bytes[9] == 0x67
            && bytes[10] == 0x70),
        told_format(bytes) is Image <==> four(bytes, 8, 0x68, 0x65, 0x69, 0x63) || four(
            bytes,
            8,
            0x68,
            0x65,
            0x69,
            0x78,
        ) || four(bytes, 8, 0x68, 0x65, 0x69, 0x66) || four(bytes, 8, 0x6d, 0x69, 0x66, 0x31),
{
    brands_in_bytes(bytes);
    let png: Seq<u8> = seq![0x89, 0x50, 0x4e, 0x47, 0x0d, 0x0a, 0x1a, 0x0a];
    assert(!has_at(bytes, 0, png)) by {
        assert(png[0] == 0x89);
        assert(bytes.subrange(0, 8)[0] == bytes[0]);
    }
}

/// A file that begins as JPEG files do is an image, as long as it is no ISO media file.
pub proof fn jpeg_files_are_images(bytes: Seq<u8>)
    requires
        bytes.len() >= 3,
        bytes[0] == 0xff && bytes[1] == 0xd8 && bytes[2] == 0xff,
        !four(bytes, 4, 0x66, 0x74, 0x79, 0x70),
    ensures
        told_format(bytes) is Image,
{
    brands_in_bytes(bytes);
}

/// A file that begins as PNG files do is an image.
pub proof fn png_files_are_images(bytes: Seq<u8>)
    requires
        bytes.len() >= 8,
        four(bytes, 0, 0x89, 0x50, 0x4e, 0x47),
        four(bytes, 4, 0x0d, 0x0a, 0x1a, 0x0a),
    ensures
        told_format(bytes) is Image,
{
    brands_in_bytes(bytes);
    assert(bytes.subrange(0, 8) =~= seq![0x89, 0x50, 0x4e, 0x47, 0x0d, 0x0a, 0x1a, 0x0a]);
}

/// A RIFF file is an image where it holds WebP and a video where it holds AVI; any other tells
/// nothing.
pub proof fn riff_files_go_by_their_contents(bytes: Seq<u8>)
    requires
        bytes.len() >= 12,
        four(bytes, 0, 0x52, 0x49, 0x46, 0x46),
        !four(bytes, 4, 0x66, 0x74, 0x79, 0x70),
    ensures
        told_format(bytes) is Image <==> four(bytes, 8, 0x57, 0x45, 0x42, 0x50),
        told_format(bytes) is Video <==> four(bytes, 8, 0x41, 0x56, 0x49, 0x20),
{
    brands_in_bytes(bytes);
    let png: Seq<u8> = seq![0x89, 0x50, 0x4e, 0x47, 0x0d, 0x0a, 0x1a, 0x0a];
    assert(!has_at(bytes, 0, png)) by {
        assert(png[0] == 0x89);
        assert(bytes.subrange(0, 8)[0] == bytes[0]);
    }
}

/// A file that begins as Matroska files do is a video.
pub proof fn matroska_files_are_videos(bytes: Seq<u8>)
    requires
        four(bytes, 0, 0x1a, 0x45, 0xdf, 0xa3),
    ensures
        told_format(bytes) is Video,
{
    brands_in_bytes(bytes);
}

/// The first twelve bytes tell all that a file tells, and TIFF files, which RAW files look
/// like, tell nothing.
pub proof fn tiff_files_tell_nothing(bytes: Seq<u8>)
    requires
        bytes.len() >= 4,
        four(bytes, 0, 0x49, 0x49, 0x2a, 0x00) || four(bytes, 0, 0x4d, 0x4d, 0x00, 0x2a),
        !four(bytes, 4, 0x66, 0x74, 0x79, 0x70),
    ensures
        told_format(bytes) is Unknown,
{
    brands_in_bytes(bytes);
    let png: Seq<u8> = seq![0x89, 0x50, 0x4e, 0x47, 0x0d, 0x0a, 0x1a, 0x0a];
    assert(!has_at(bytes, 0, png)) by {
        assert(png[0] == 0x89);
        if bytes.len() >= 8 {
            assert(bytes.subrange(0, 8)[0] == bytes[0]);
        }
    }
}

// ── Pictures ─────────────────────────────────────────────────────────────────

/// A picture of a RAW file that cannot be read is told by its name and the decoder's words; it
/// is not passed over for another.
pub proof fn unreadable_raw_pictures_are_told(
    picture: RawPicture,
    full_res: bool,
    cause: String,
    next: RawState,
)
    requires
        raw_leads_to(picture, full_res, RawReply::Failed(cause), next),
    ensures
        next matches RawState::Failed(LibraryError::Thumbnail(m)) && m@ == (match picture {
            RawPicture::Thumbnail => "RAW thumbnail extraction failed: "@,
            RawPicture::Preview => "RAW preview extraction failed: "@,
            RawPicture::Full => "RAW full decode failed: "@,
        }) + cause@,
{
}

/// For viewing at full size a RAW file is developed, else its preview is taken, else its
/// thumbnail; with none of them there is no image.
pub proof fn full_pictures_are_tried_in_turn(full: RawState, preview: RawState, thumbnail: RawState)
    requires
        raw_leads_to(RawPicture::Full, true, RawReply::Missing, full),
        raw_leads_to(RawPicture::Preview, true, RawReply::Missing, preview),
        raw_leads_to(RawPicture::Thumbnail, true, RawReply::Missing, thumbnail),
    ensures
        full == RawState::Try(RawPicture::Preview),
        preview == RawState::Try(RawPicture::Thumbnail),
        thumbnail is Failed,
{
}

/// A poster shows the frame row by row from the top, each pixel by its red, green and blue, and
/// nothing shines through.
pub proof fn frames_are_shown_row_by_row(
    width: u32,
    height: u32,
    bytes: Seq<u8>,
    x: u32,
    y: u32,
)
    requires
        x < width,
        y < height,
    ensures
        frame_pixels(width, height, bytes).contains_key((x, y)),
        frame_pixels(width, height, bytes)[(x, y)].0 == bytes[(y * width + x) * 3],
        frame_pixels(width, height, bytes)[(x, y)].1 == bytes[(y * width + x) * 3 + 1],
        frame_pixels(width, height, bytes)[(x, y)].2 == bytes[(y * width + x) * 3 + 2],
        frame_pixels(width, height, bytes)[(x, y)].3 == 255,
        !frame_pixels(width, height, bytes).contains_key((width, y)),
        !frame_pixels(width, height, bytes).contains_key((x, height)),
{
}

/// A buffer that is too short for its frame makes no poster, and a longer one does no harm.
pub proof fn short_frames_are_refused(width: u32, height: u32, len: nat)
    ensures
        len < width * height * 3 ==> !frame_fits(width, height, len),
        frame_fits(width, height, len) ==> frame_fits(width, height, len + 1),
        width * 3 <= usize::MAX && len >= width * height * 3 ==> frame_fits(width, height, len),
{
}

/// Whatever goes wrong on the way to a poster frame is told by its name, with the cause where
/// there is one.
pub proof fn poster_faults_are_told(cause: Seq<char>)
    ensures
        fault_text(PosterFault::Pipeline, cause) == "GStreamer pipeline error: "@ + cause,
        fault_text(PosterFault::NotAPipeline, cause) == "failed to downcast to Pipeline"@,
        fault_text(PosterFault::NoSink, cause) == "appsink not found in pipeline"@,
        fault_text(PosterFault::NotASink, cause) == "failed to downcast to AppSink"@,
        fault_text(PosterFault::Start, cause) == "failed to start pipeline: "@ + cause,
        fault_text(PosterFault::NoFrame, cause) == "no frame decoded from video"@,
        fault_text(PosterFault::NoBuffer, cause) == "sample has no buffer"@,
        fault_text(PosterFault::NoCaps, cause) == "sample has no caps"@,
        fault_text(PosterFault::Caps, cause) == "invalid video caps: "@ + cause,
        fault_text(PosterFault::Unmappable, cause) == "failed to map buffer"@,
        file_uri(cause) == "file://"@ + cause,
{
}

/// A file is decoded by the handler that has its extension; one whose extension nobody has is
/// told by that extension.
pub proof fn files_are_decoded_by_their_handler(
    r: Result<usize, LibraryError>,
    handlers: Map<Seq<char>, usize>,
    ext: Seq<char>,
)
    requires
        FormatRegistry::finds(r, handlers, ext),
    ensures
        r is Ok <==> handlers.contains_key(ext),
        r is Ok ==> r->Ok_0 == handlers[ext],
        r is Err ==> r->Err_0 is Thumbnail && r->Err_0->Thumbnail_0@
            == "no handler registered for ."@ + ext,
{
}

/// An image that was decoded is handed on as it is, and every failure as one of the thumbnail,
/// in its own words.
pub proof fn decoded_images_are_handed_on(
    r: Result<image::DynamicImage, LibraryError>,
    given: Result<image::DynamicImage, LibraryError>,
)
    requires
        FormatRegistry::reports(r, given),
    ensures
        given is Ok ==> r == given,
        given is Err ==> r is Err && r->Err_0 is Thumbnail,
        given is Err && given->Err_0 is Thumbnail ==> r->Err_0->Thumbnail_0
            == given->Err_0->Thumbnail_0,
        given is Err && !(given->Err_0 is Thumbnail) ==> r->Err_0->Thumbnail_0@
            == given->Err_0.text(),
{
}

proof fn prefixes_hold_the_same(bytes: Seq<u8>, at: int, signature: Seq<u8>)
    requires
        0 <= at,
        at + signature.len() <= SNIFFED_BYTES,
        bytes.len() >= SNIFFED_BYTES,
    ensures
        has_at(bytes.take(SNIFFED_BYTES as int), at, signature) == has_at(bytes, at, signature),
{
    assert(bytes.take(SNIFFED_BYTES as int).subrange(at, at + signature.len()) =~= bytes.subrange(
        at,
        at + signature.len(),
    ));
}

/// The bytes that are looked at tell all that a file tells.
pub proof fn a_few_bytes_are_enough(bytes: Seq<u8>)
    requires
        bytes.len() >= SNIFFED_BYTES,
    ensures
        told_format(bytes.take(SNIFFED_BYTES as int)) == told_format(bytes),
{
    prefixes_hold_the_same(bytes, 4, seq![0x66, 0x74, 0x79, 0x70]);
    prefixes_hold_the_same(bytes, 0, seq![0x52, 0x49, 0x46, 0x46]);
    prefixes_hold_the_same(bytes, 0, seq![0x1a, 0x45, 0xdf, 0xa3]);
    prefixes_hold_the_same(bytes, 0, seq![0xff, 0xd8, 0xff]);
    prefixes_hold_the_same(bytes, 0, seq![0x89, 0x50, 0x4e, 0x47, 0x0d, 0x0a, 0x1a, 0x0a]);
    prefixes_hold_the_same(bytes, 8, seq![0x41, 0x56, 0x49, 0x20]);
    prefixes_hold_the_same(bytes, 8, seq![0x57, 0x45, 0x42, 0x50]);
    prefixes_hold_the_same(bytes, 8, seq![0x69, 0x73, 0x6f, 0x6d]);
    prefixes_hold_the_same(bytes, 8, seq![0x69, 0x73, 0x6f, 0x32]);
    prefixes_hold_the_same(bytes, 8, seq![0x6d, 0x70, 0x34, 0x31]);
    prefixes_hold_the_same(bytes, 8, seq![0x6d, 0x70, 0x34, 0x32]);
    prefixes_hold_the_same(bytes, 8, seq![0x61, 0x76, 0x63, 0x31]);
    prefixes_hold_the_same(bytes, 8, seq![0x4d, 0x34, 0x56, 0x20]);
    prefixes_hold_the_same(bytes, 8, seq![0x71, 0x74, 0x20, 0x20]);
    prefixes_hold_the_same(bytes, 8, seq![0x33, 0x67, 0x70]);
    prefixes_hold_the_same(bytes, 8, seq![0x68, 0x65, 0x69, 0x63]);
    prefixes_hold_the_same(bytes, 8, seq![0x68, 0x65, 0x69, 0x78]);
    prefixes_hold_the_same(bytes, 8, seq![0x68, 0x65, 0x69, 0x66]);
    prefixes_hold_the_same(bytes, 8, seq![0x6d, 0x69, 0x66, 0x31]);
}

} // verus!
