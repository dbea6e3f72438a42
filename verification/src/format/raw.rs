//! How an image is taken from a RAW camera file: the pictures in it are tried in turn.

use vstd::prelude::*;
use vstd::string::*;

use crate::error::{prefixed, LibraryError};
use crate::format::RawHandler;

verus! {

/// A picture that a RAW file may hold.
#[derive(Debug, Clone, Copy, PartialEq, Eq, Structural)]
pub enum RawPicture {
    /// The smallest embedded picture.
    Thumbnail,
    /// A larger embedded picture.
    Preview,
    /// The sensor data, developed. Of the best quality, but too slow and too large for
    /// thumbnails.
    Full,
}

/// What a RAW decoder gives when it is asked for a picture.
#[derive(Debug)]
pub enum RawReply {
    Found(image::DynamicImage),
    /// The file holds no such picture.
    Missing,
    Failed(String),
}

/// What the decoding of a RAW file has come to.
#[derive(Debug)]
pub enum RawState {
    /// Ask the decoder for this picture.
    Try(RawPicture),
    Decoded(image::DynamicImage),
    Failed(LibraryError),
}

/// What is said when a picture cannot be read.
pub open spec fn failure_head(picture: RawPicture) -> Seq<char> {
    match picture {
        RawPicture::Thumbnail => "RAW thumbnail extraction failed: "@,
        RawPicture::Preview => "RAW preview extraction failed: "@,
        RawPicture::Full => "RAW full decode failed: "@,
    }
}

/// The picture to try after one that is missing. For a small image the embedded pictures
/// are tried, the smaller one first; for viewing at full size all three, the best first.
pub open spec fn next_picture(picture: RawPicture, full_res: bool) -> Option<RawPicture> {
    match (picture, full_res) {
        (RawPicture::Thumbnail, false) => Some(RawPicture::Preview),
        (RawPicture::Full, true) => Some(RawPicture::Preview),
        (RawPicture::Preview, true) => Some(RawPicture::Thumbnail),
        _ => None,
    }
}

/// Whether a reply leads from trying `picture` to `next`: a picture that was found is the
/// image, one that cannot be read ends the decoding, and after one that is missing the
/// next is tried, until none is left.
pub open spec fn raw_leads_to(
    picture: RawPicture,
    full_res: bool,
    reply: RawReply,
    next: RawState,
) -> bool {
    match reply {
        RawReply::Found(img) => next == RawState::Decoded(img),
        RawReply::Failed(cause) => next matches RawState::Failed(LibraryError::Thumbnail(m)) && m@
            == failure_head(picture) + cause@,
        RawReply::Missing => match next_picture(picture, full_res) {
            Some(p) => next == RawState::Try(p),
            None => next matches RawState::Failed(LibraryError::Thumbnail(m)) && m@
                == "RAW decoder returned no image"@,
        },
    }
}

/// How many pictures are left to try, this one included.
pub open spec fn pictures_left(picture: RawPicture, full_res: bool) -> nat {
    match (picture, full_res) {
        (RawPicture::Full, true) => 3,
        (RawPicture::Preview, true) => 2,
        (RawPicture::Thumbnail, false) => 2,
        _ => 1,
    }
}

impl RawHandler {
    /// The first picture to try for a thumbnail: the smallest.
    pub fn decode(&self) -> (r: RawState)
        ensures
            r == RawState::Try(RawPicture::Thumbnail),
    {
        RawState::Try(RawPicture::Thumbnail)
    }

    /// The first picture to try for viewing at full size: the sensor data.
    pub fn decode_full_res(&self) -> (r: RawState)
        ensures
            r == RawState::Try(RawPicture::Full),
    {
        RawState::Try(RawPicture::Full)
    }

    /// Takes what the decoder gave for a picture.
    pub fn advance(&self, picture: RawPicture, full_res: bool, reply: RawReply) -> (r: RawState)
        ensures
            raw_leads_to(picture, full_res, reply, r),
            r matches RawState::Try(p) ==> pictures_left(p, full_res) < pictures_left(
                picture,
                full_res,
            ),
    {
        match reply {
            RawReply::Found(img) => RawState::Decoded(img),
            RawReply::Failed(cause) => {
                let head = match picture {
                    RawPicture::Thumbnail => "RAW thumbnail extraction failed: ",
                    RawPicture::Preview => "RAW preview extraction failed: ",
                    RawPicture::Full => "RAW full decode failed: ",
                };
                RawState::Failed(LibraryError::Thumbnail(prefixed(head, cause.as_str())))
            },
            RawReply::Missing => match (picture, full_res) {
                (RawPicture::Thumbnail, false) => RawState::Try(RawPicture::Preview),
                (RawPicture::Full, true) => RawState::Try(RawPicture::Preview),
                (RawPicture::Preview, true) => RawState::Try(RawPicture::Thumbnail),
                _ => RawState::Failed(
                    LibraryError::Thumbnail("RAW decoder returned no image".to_owned()),
                ),
            },
        }
    }

    /// The error of a file that cannot be opened.
    pub fn open_failed(cause: &str) -> (r: LibraryError)
        ensures
            r matches LibraryError::Thumbnail(m) && m@ == "failed to open RAW file: "@ + cause@,
    {
        LibraryError::Thumbnail(prefixed("failed to open RAW file: ", cause))
    }

    /// The error of a file that no decoder takes.
    pub fn no_decoder(cause: &str) -> (r: LibraryError)
        ensures
            r matches LibraryError::Thumbnail(m) && m@ == "no RAW decoder for file: "@ + cause@,
    {
        LibraryError::Thumbnail(prefixed("no RAW decoder for file: ", cause))
    }
}

/// A thumbnail is the smaller embedded picture, whatever else the file holds, else the
/// larger one. A file with neither is an error: the sensor data is not asked for.
pub proof fn thumbnails_are_embedded_pictures(
    thumbnail: RawReply,
    preview: RawReply,
    first: RawState,
    second: RawState,
)
    requires
        raw_leads_to(RawPicture::Thumbnail, false, thumbnail, first),
        raw_leads_to(RawPicture::Preview, false, preview, second),
    ensures
        thumbnail matches RawReply::Found(img) ==> first == RawState::Decoded(img),
        thumbnail is Missing ==> first == RawState::Try(RawPicture::Preview),
        preview matches RawReply::Found(img) ==> second == RawState::Decoded(img),
        preview is Missing ==> (second matches RawState::Failed(e) && e is Thumbnail),
        first != RawState::Try(RawPicture::Full),
        !(second is Try),
{
}

/// The two ways of decoding try the embedded pictures in opposite order; only viewing at
/// full size asks for the sensor data, and before both.
pub proof fn orders_are_opposite(a: RawPicture, b: RawPicture)
    requires
        a != RawPicture::Full,
        b != RawPicture::Full,
    ensures
        next_picture(a, false) == Some(b) <==> next_picture(b, true) == Some(a),
        next_picture(RawPicture::Full, true) == Some(RawPicture::Preview),
        next_picture(a, true) != Some(RawPicture::Full),
        next_picture(a, false) != Some(RawPicture::Full),
{
}

} // verus!
