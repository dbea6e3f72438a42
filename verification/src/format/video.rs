//! Poster frames of videos.

use vstd::prelude::*;
use vstd::string::*;

use crate::error::{prefixed, LibraryError};
use crate::render::{image_form, image_pixels, image_size, Pixel};
use crate::text::{decimal, decimal_of};

verus! {

/// The address of the file at an absolute path.
pub open spec fn file_uri(path: Seq<char>) -> Seq<char> {
    "file://"@ + path
}

/// The pipeline that decodes the video at an absolute path into RGB frames.
pub fn poster_pipeline(path: &str) -> (r: String)
    ensures
        r@ == "uridecodebin uri="@ + file_uri(path@)
            + " ! videoconvert ! video/x-raw,format=RGB ! appsink name=sink"@,
{
    let uri = prefixed("file://", path);
    let mut s = prefixed("uridecodebin uri=", uri.as_str());
    s.append(" ! videoconvert ! video/x-raw,format=RGB ! appsink name=sink");
    s
}

/// What can go wrong on the way to a poster frame.
#[derive(Debug, Clone, Copy, PartialEq, Eq, Structural)]
pub enum PosterFault {
    /// The pipeline cannot be built.
    Pipeline,
    NotAPipeline,
    NoSink,
    NotASink,
    /// The pipeline does not start.
    Start,
    NoFrame,
    NoBuffer,
    NoCaps,
    /// The format of the frame makes no sense.
    Caps,
    Unmappable,
}

/// What is said of a fault, given the words of whatever reported it.
pub open spec fn fault_text(fault: PosterFault, cause: Seq<char>) -> Seq<char> {
    match fault {
        PosterFault::Pipeline => "GStreamer pipeline error: "@ + cause,
        PosterFault::NotAPipeline => "failed to downcast to Pipeline"@,
        PosterFault::NoSink => "appsink not found in pipeline"@,
        PosterFault::NotASink => "failed to downcast to AppSink"@,
        PosterFault::Start => "failed to start pipeline: "@ + cause,
        PosterFault::NoFrame => "no frame decoded from video"@,
        PosterFault::NoBuffer => "sample has no buffer"@,
        PosterFault::NoCaps => "sample has no caps"@,
        PosterFault::Caps => "invalid video caps: "@ + cause,
        PosterFault::Unmappable => "failed to map buffer"@,
    }
}

/// The error of a fault.
pub fn poster_error(fault: PosterFault, cause: &str) -> (r: LibraryError)
    ensures
        r matches LibraryError::Thumbnail(m) && m@ == fault_text(fault, cause@),
{
    let m = match fault {
        PosterFault::Pipeline => prefixed("GStreamer pipeline error: ", cause),
        PosterFault::NotAPipeline => "failed to downcast to Pipeline".to_owned(),
        PosterFault::NoSink => "appsink not found in pipeline".to_owned(),
        PosterFault::NotASink => "failed to downcast to AppSink".to_owned(),
        PosterFault::Start => prefixed("failed to start pipeline: ", cause),
        PosterFault::NoFrame => "no frame decoded from video".to_owned(),
        PosterFault::NoBuffer => "sample has no buffer".to_owned(),
        PosterFault::NoCaps => "sample has no caps".to_owned(),
        PosterFault::Caps => prefixed("invalid video caps: ", cause),
        PosterFault::Unmappable => "failed to map buffer".to_owned(),
    };
    LibraryError::Thumbnail(m)
}

// ── Frames ───────────────────────────────────────────────────────────────────

/// The bytes that an RGB frame takes.
pub open spec fn frame_bytes(width: u32, height: u32) -> int {
    width * height * 3
}

/// Whether a buffer of the given length can hold an RGB frame.
pub open spec fn frame_fits(width: u32, height: u32, len: nat) -> bool {
    width * 3 <= usize::MAX && frame_bytes(width, height) <= len
}

/// The form of RGB images with 8 bits for each channel.
pub const RGB8: (u8, u8) = (3, 8);

/// The pixels of an RGB frame, row by row, three bytes each. They are opaque.
pub open spec fn frame_pixels(width: u32, height: u32, bytes: Seq<u8>) -> Map<(u32, u32), Pixel> {
    Map::new(
        |q: (u32, u32)| q.0 < width && q.1 < height,
        |q: (u32, u32)|
            {
                let i = (q.1 * width + q.0) * 3;
                (bytes[i], bytes[i + 1], bytes[i + 2], 255u8)
            },
    )
}

/// Calls `image::RgbImage::from_raw`, which takes a buffer that is large enough for the
/// frame, and no other, as the pixels of an image, three channels of 8 bits each.
#[verifier::external_body]
fn rgb_image(width: u32, height: u32, bytes: Vec<u8>) -> (r: Option<image::DynamicImage>)
    ensures
        r is Some <==> frame_fits(width, height, bytes@.len()),
        r matches Some(img) ==> image_form(img) == RGB8 && image_size(img) == (width, height)
            && image_pixels(img) == frame_pixels(width, height, bytes@),
{
    image::RgbImage::from_raw(width, height, bytes).map(image::DynamicImage::ImageRgb8)
}

/// Makes the poster out of a decoded frame. The size of the frame has to be one that
/// memory can have.
pub fn poster_image(width: u32, height: u32, bytes: Vec<u8>) -> (r: Result<
    image::DynamicImage,
    LibraryError,
>)
    requires
        frame_bytes(width, height) <= usize::MAX,
    ensures
        r is Ok <==> frame_fits(width, height, bytes@.len()),
        r matches Ok(img) ==> image_form(img) == RGB8 && image_size(img) == (width, height)
            && image_pixels(img) == frame_pixels(width, height, bytes@),
        r matches Err(e) ==> (e matches LibraryError::Thumbnail(m) && m@
            == "RGB buffer size mismatch: "@ + decimal_of(width as nat) + "x"@ + decimal_of(
            height as nat,
        ) + " expected "@ + decimal_of(frame_bytes(width, height) as nat) + " bytes, got "@
            + decimal_of(bytes@.len())),
{
    let len: usize = bytes.len();
    if let Some(img) = rgb_image(width, height, bytes) {
        return Ok(img);
    }
    proof {
        assert(width as int * height as int <= 0xffff_ffff * 0xffff_ffff) by (nonlinear_arith)
            requires
                0 <= width <= 0xffff_ffff,
                0 <= height <= 0xffff_ffff,
        ;
    }
    let pixels: u128 = (width as u128) * (height as u128);
    let expected: u128 = pixels * 3;
    let mut m = prefixed("RGB buffer size mismatch: ", decimal(width as u64).as_str());
    m.append("x");
    m.append(decimal(height as u64).as_str());
    m.append(" expected ");
    m.append(decimal(expected as u64).as_str());
    m.append(" bytes, got ");
    m.append(decimal(len as u64).as_str());
    Err(LibraryError::Thumbnail(m))
}

} // verus!
