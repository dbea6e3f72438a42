//! The geometry of an edit applied to an image: quarter turns first, then flips, then the
//! crop.

use image::GenericImageView;
use vstd::prelude::*;

use crate::editing::{clipped, crop_rect, quarter_turns, turned_size, turns_for, PixelRect};
use crate::editing::QuarterTurns;

verus! {

// ── Images ───────────────────────────────────────────────────────────────────

/// `image::DynamicImage`: an image of any pixel format.
#[verifier::external_type_specification]
#[verifier::external_body]
pub struct ExDynamicImage(image::DynamicImage);

/// A pixel as red, green, blue and alpha.
pub type Pixel = (u8, u8, u8, u8);

/// The width and height of an image.
pub uninterp spec fn image_size(img: image::DynamicImage) -> (u32, u32);

/// The pixels of an image by column and row, counted from the upper left.
pub uninterp spec fn image_pixels(img: image::DynamicImage) -> Map<(u32, u32), Pixel>;

/// The form in which an image holds its pixels, as `image::DynamicImage::color` tells it: the
/// number of channels and the bits of each.
pub uninterp spec fn image_form(img: image::DynamicImage) -> (u8, u8);

/// The pixels of an image of the given size after quarter turns, clockwise.
pub open spec fn turned(
    p: Map<(u32, u32), Pixel>,
    size: (u32, u32),
    turns: QuarterTurns,
) -> Map<(u32, u32), Pixel> {
    match turns {
        QuarterTurns::Zero => p,
        QuarterTurns::One => Map::new(
            |q: (u32, u32)| q.0 < size.1 && q.1 < size.0,
            |q: (u32, u32)| p[(q.1, (size.1 - 1 - q.0) as u32)],
        ),
        QuarterTurns::Two => Map::new(
            |q: (u32, u32)| q.0 < size.0 && q.1 < size.1,
            |q: (u32, u32)| p[((size.0 - 1 - q.0) as u32, (size.1 - 1 - q.1) as u32)],
        ),
        QuarterTurns::Three => Map::new(
            |q: (u32, u32)| q.0 < size.1 && q.1 < size.0,
            |q: (u32, u32)| p[((size.0 - 1 - q.1) as u32, q.0)],
        ),
    }
}

/// The pixels of an image of the given size, left and right exchanged.
pub open spec fn flipped_h(p: Map<(u32, u32), Pixel>, size: (u32, u32)) -> Map<(u32, u32), Pixel> {
    Map::new(
        |q: (u32, u32)| q.0 < size.0 && q.1 < size.1,
        |q: (u32, u32)| p[((size.0 - 1 - q.0) as u32, q.1)],
    )
}

/// The pixels of an image of the given size, top and bottom exchanged.
pub open spec fn flipped_v(p: Map<(u32, u32), Pixel>, size: (u32, u32)) -> Map<(u32, u32), Pixel> {
    Map::new(
        |q: (u32, u32)| q.0 < size.0 && q.1 < size.1,
        |q: (u32, u32)| p[(q.0, (size.1 - 1 - q.1) as u32)],
    )
}

/// The pixels of a part of an image.
pub open spec fn cropped(p: Map<(u32, u32), Pixel>, r: PixelRect) -> Map<(u32, u32), Pixel> {
    Map::new(
        |q: (u32, u32)| q.0 < r.width && q.1 < r.height,
        |q: (u32, u32)| p[((r.x + q.0) as u32, (r.y + q.1) as u32)],
    )
}

/// Calls `image::GenericImageView::dimensions`, which gives the width and height.
#[verifier::external_body]
fn dimensions(img: &image::DynamicImage) -> (r: (u32, u32))
    ensures
        r == image_size(*img),
{
    img.dimensions()
}

/// Calls `image::DynamicImage::rotate90`, which moves the pixel at column `x` and row `y`
/// of an image of height `h` to column `h - 1 - y` and row `x`, in the same form.
#[verifier::external_body]
fn rotate90(img: &image::DynamicImage) -> (r: image::DynamicImage)
    ensures
        image_size(r) == turned_size(image_size(*img), QuarterTurns::One),
        image_form(r) == image_form(*img),
        image_pixels(r) == turned(image_pixels(*img), image_size(*img), QuarterTurns::One),
{
    img.rotate90()
}

/// Calls `image::DynamicImage::rotate180`, which moves the pixel at column `x` and row `y`
/// of an image of width `w` and height `h` to column `w - 1 - x` and row `h - 1 - y`, in the same form.
#[verifier::external_body]
fn rotate180(img: &image::DynamicImage) -> (r: image::DynamicImage)
    ensures
        image_size(r) == turned_size(image_size(*img), QuarterTurns::Two),
        image_form(r) == image_form(*img),
        image_pixels(r) == turned(image_pixels(*img), image_size(*img), QuarterTurns::Two),
{
    img.rotate180()
}

/// Calls `image::DynamicImage::rotate270`, which moves the pixel at column `x` and row `y`
/// of an image of width `w` to column `y` and row `w - 1 - x`, in the same form.
#[verifier::external_body]
fn rotate270(img: &image::DynamicImage) -> (r: image::DynamicImage)
    ensures
        image_size(r) == turned_size(image_size(*img), QuarterTurns::Three),
        image_form(r) == image_form(*img),
        image_pixels(r) == turned(image_pixels(*img), image_size(*img), QuarterTurns::Three),
{
    img.rotate270()
}

/// Calls `image::DynamicImage::fliph`, which mirrors every row, in the same form.
#[verifier::external_body]
fn fliph(img: &image::DynamicImage) -> (r: image::DynamicImage)
    ensures
        image_size(r) == image_size(*img),
        image_form(r) == image_form(*img),
        image_pixels(r) == flipped_h(image_pixels(*img), image_size(*img)),
{
    img.fliph()
}

/// Calls `image::DynamicImage::flipv`, which mirrors every column, in the same form.
#[verifier::external_body]
fn flipv(img: &image::DynamicImage) -> (r: image::DynamicImage)
    ensures
        image_size(r) == image_size(*img),
        image_form(r) == image_form(*img),
        image_pixels(r) == flipped_v(image_pixels(*img), image_size(*img)),
{
    img.flipv()
}

/// Calls `image::DynamicImage::crop_imm`, which cuts out a part that lies inside the
/// image, in the same form.
#[verifier::external_body]
fn crop_imm(img: &image::DynamicImage, r: PixelRect) -> (out: image::DynamicImage)
    requires
        r.x + r.width <= image_size(*img).0,
        r.y + r.height <= image_size(*img).1,
    ensures
        image_size(out) == (r.width, r.height),
        image_form(out) == image_form(*img),
        image_pixels(out) == cropped(image_pixels(*img), r),
{
    img.crop_imm(r.x, r.y, r.width, r.height)
}

// ── Transforms ───────────────────────────────────────────────────────────────

/// What an edit asks for before the crop.
#[derive(Debug, Clone, Copy, PartialEq, Eq, Structural)]
pub struct Turn {
    /// Rotation in degrees, clockwise, in steps of 90.
    pub rotate_degrees: i32,
    pub flip_horizontal: bool,
    pub flip_vertical: bool,
}

/// The size of an image after the turn.
pub open spec fn size_after(size: (u32, u32), t: Turn) -> (u32, u32) {
    turned_size(size, turns_for(t.rotate_degrees as int))
}

/// The size that an image will have after the turn, which the crop is to be measured on.
pub fn turned_dimensions(img: &image::DynamicImage, t: Turn) -> (r: (u32, u32))
    ensures
        r == size_after(image_size(*img), t),
{
    let (w, h) = dimensions(img);
    match quarter_turns(t.rotate_degrees) {
        QuarterTurns::One => (h, w),
        QuarterTurns::Three => (h, w),
        _ => (w, h),
    }
}

/// The pixels of an image after the turn: the rotation, then the flips.
pub open spec fn pixels_after(p: Map<(u32, u32), Pixel>, size: (u32, u32), t: Turn) -> Map<
    (u32, u32),
    Pixel,
> {
    let s = size_after(size, t);
    let rotated = turned(p, size, turns_for(t.rotate_degrees as int));
    let across = if t.flip_horizontal {
        flipped_h(rotated, s)
    } else {
        rotated
    };
    if t.flip_vertical {
        flipped_v(across, s)
    } else {
        across
    }
}

/// The part of an image of the given size that a crop keeps, if it keeps any.
pub open spec fn kept_part(crop: PixelRect, size: (u32, u32)) -> Option<PixelRect> {
    let w = clipped(crop.x, crop.width, size.0);
    let h = clipped(crop.y, crop.height, size.1);
    if w > 0 && h > 0 {
        Some(PixelRect { x: crop.x, y: crop.y, width: w, height: h })
    } else {
        None
    }
}

/// The size and the pixels of an image after the geometry of an edit.
pub open spec fn picture_after(
    p: Map<(u32, u32), Pixel>,
    size: (u32, u32),
    t: Turn,
    crop: Option<PixelRect>,
) -> ((u32, u32), Map<(u32, u32), Pixel>) {
    let turned_size = size_after(size, t);
    let turned = pixels_after(p, size, t);
    match crop {
        Some(c) => match kept_part(c, turned_size) {
            Some(k) => ((k.width, k.height), cropped(turned, k)),
            None => (turned_size, turned),
        },
        None => (turned_size, turned),
    }
}

/// Applies the geometry of an edit: the turn, then the crop, which is measured in pixels of
/// the turned image and cut off at its edges. A crop that would leave nothing is not
/// applied.
pub fn apply_transforms(img: image::DynamicImage, t: Turn, crop: Option<PixelRect>) -> (r:
    image::DynamicImage)
    ensures
        image_form(r) == image_form(img),
        (image_size(r), image_pixels(r)) == picture_after(
            image_pixels(img),
            image_size(img),
            t,
            crop,
        ),
        ({
            let size = size_after(image_size(img), t);
            let pixels = pixels_after(image_pixels(img), image_size(img), t);
            match crop {
                Some(c) => match kept_part(c, size) {
                    Some(k) => image_size(r) == (k.width, k.height) && image_pixels(r) == cropped(
                        pixels,
                        k,
                    ),
                    None => image_size(r) == size && image_pixels(r) == pixels,
                },
                None => image_size(r) == size && image_pixels(r) == pixels,
            }
        }),
{
    let mut out = match quarter_turns(t.rotate_degrees) {
        QuarterTurns::One => rotate90(&img),
        QuarterTurns::Two => rotate180(&img),
        QuarterTurns::Three => rotate270(&img),
        QuarterTurns::Zero => img,
    };
    if t.flip_horizontal {
        out = fliph(&out);
    }
    if t.flip_vertical {
        out = flipv(&out);
    }
    if let Some(c) = crop {
        let (w, h) = dimensions(&out);
        if let Some(k) = crop_rect(c, w, h) {
            out = crop_imm(&out, k);
        }
    }
    out
}

// ── Laws ─────────────────────────────────────────────────────────────────────

/// Whether two images of the given size show the same.
pub open spec fn same_picture(
    a: Map<(u32, u32), Pixel>,
    b: Map<(u32, u32), Pixel>,
    size: (u32, u32),
) -> bool {
    forall|x: u32, y: u32|
        #![trigger a[(x, y)]]
        #![trigger b[(x, y)]]
        x < size.0 && y < size.1 ==> a[(x, y)] == b[(x, y)]
}

/// Turning an image and turning it back shows the image again, and so does flipping it
/// twice the same way.
pub proof fn turns_and_flips_undo(p: Map<(u32, u32), Pixel>, size: (u32, u32))
    ensures
        same_picture(
            turned(
                turned(p, size, QuarterTurns::One),
                turned_size(size, QuarterTurns::One),
                QuarterTurns::Three,
            ),
            p,
            size,
        ),
        same_picture(
            turned(turned(p, size, QuarterTurns::Two), size, QuarterTurns::Two),
            p,
            size,
        ),
        same_picture(flipped_h(flipped_h(p, size), size), p, size),
        same_picture(flipped_v(flipped_v(p, size), size), p, size),
{
}

/// Two flips, across and down, are half a turn.
pub proof fn two_flips_are_half_a_turn(p: Map<(u32, u32), Pixel>, size: (u32, u32))
    ensures
        same_picture(
            flipped_v(flipped_h(p, size), size),
            turned(p, size, QuarterTurns::Two),
            size,
        ),
{
}

} // verus!
