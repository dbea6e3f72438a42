//! What an edit's geometry does to a picture.

use vstd::prelude::*;

use crate::editing::{clipped, PixelRect};
use crate::render::{picture_after, size_after, Pixel, Turn};

verus! {

/// The pixels of a picture by column and row.
pub type Pixels = Map<(u32, u32), Pixel>;

/// Whether a pixel lies in a picture of the given size.
pub open spec fn lies_in(size: (u32, u32), x: int, y: int) -> bool {
    0 <= x < size.0 && 0 <= y < size.1
}

/// Whether a pixel lies in a part of a picture.
pub open spec fn lies_in_part(c: PixelRect, x: int, y: int) -> bool {
    c.x <= x < c.x + c.width && c.y <= y < c.y + c.height
}

/// The pixel at a column and a row.
pub open spec fn at(p: Pixels, x: int, y: int) -> Pixel {
    p[(x as u32, y as u32)]
}

/// With whatever rotation and vertical flip, a horizontal flip mirrors the picture left to
/// right and does nothing else.
pub proof fn horizontal_flips_mirror(
    p: Pixels,
    size: (u32, u32),
    degrees: i32,
    vertical: bool,
    x: int,
    y: int,
)
    ensures
        ({
            let plain = picture_after(
                p,
                size,
                Turn { rotate_degrees: degrees, flip_horizontal: false, flip_vertical: vertical },
                None,
            );
            let flipped = picture_after(
                p,
                size,
                Turn { rotate_degrees: degrees, flip_horizontal: true, flip_vertical: vertical },
                None,
            );
            &&& flipped.0 == plain.0
            &&& lies_in(plain.0, x, y) ==> at(flipped.1, x, y) == at(
                plain.1,
                plain.0.0 - 1 - x,
                y,
            )
        }),
{
}

/// With whatever rotation and horizontal flip, a vertical flip mirrors the picture top to
/// bottom and does nothing else.
pub proof fn vertical_flips_mirror(
    p: Pixels,
    size: (u32, u32),
    degrees: i32,
    horizontal: bool,
    x: int,
    y: int,
)
    ensures
        ({
            let plain = picture_after(
                p,
                size,
                Turn { rotate_degrees: degrees, flip_horizontal: horizontal, flip_vertical: false },
                None,
            );
            let flipped = picture_after(
                p,
                size,
                Turn { rotate_degrees: degrees, flip_horizontal: horizontal, flip_vertical: true },
                None,
            );
            &&& flipped.0 == plain.0
            &&& lies_in(plain.0, x, y) ==> at(flipped.1, x, y) == at(
                plain.1,
                x,
                plain.0.1 - 1 - y,
            )
        }),
{
}

/// A rotation by 90 degrees more turns the picture a quarter clockwise: its columns are the
/// rows before, from the last to the first. Without flips, an angle of 0 leaves the picture
/// as it is, and so does every angle that is not a multiple of 90.
pub proof fn quarter_turns_go_clockwise(p: Pixels, size: (u32, u32), degrees: i32, x: int, y: int)
    ensures
        ({
            let none = Turn { rotate_degrees: 0, flip_horizontal: false, flip_vertical: false };
            let before = picture_after(p, size, Turn { rotate_degrees: degrees, ..none }, None);
            &&& picture_after(p, size, none, None) == (size, p)
            &&& degrees % 90 != 0 ==> before == (size, p)
            &&& degrees % 90 == 0 && degrees + 90 <= i32::MAX ==> {
                let more = picture_after(
                    p,
                    size,
                    Turn { rotate_degrees: (degrees + 90) as i32, ..none },
                    None,
                );
                &&& more.0 == (before.0.1, before.0.0)
                &&& lies_in(more.0, x, y) ==> at(more.1, x, y) == at(
                    before.1,
                    y,
                    before.0.1 - 1 - x,
                )
            }
        }),
{
    let d = degrees as int;
    let r = d % 360;
    assert(r == 0 || r == 90 || r == 180 || r == 270 ==> d % 90 == 0);
    assert(d % 90 == 0 ==> r == 0 || r == 90 || r == 180 || r == 270);
    assert((d + 90) % 360 == (r + 90) % 360);
}

/// A crop is taken from the turned picture and measured on it: where it leaves anything, the
/// result is what lies in the crop and in the picture, nothing less and nothing more, and
/// its upper left pixel is that of the crop. A crop that would leave nothing is not applied.
pub proof fn crops_cut_out(p: Pixels, size: (u32, u32), t: Turn, c: PixelRect, x: int, y: int)
    ensures
        ({
            let whole = picture_after(p, size, t, None);
            let part = picture_after(p, size, t, Some(c));
            let empty = c.width == 0 || c.height == 0 || c.x >= whole.0.0 || c.y >= whole.0.1;
            &&& empty ==> part == whole
            &&& !empty ==> {
                &&& 0 < part.0.0 <= c.width && 0 < part.0.1 <= c.height
                &&& 0 <= x && 0 <= y ==> (lies_in(part.0, x, y) <==> lies_in_part(c, c.x + x, c.y + y)
                    && lies_in(whole.0, c.x + x, c.y + y))
                &&& lies_in(part.0, x, y) ==> at(part.1, x, y) == at(whole.1, c.x + x, c.y + y)
            }
        }),
{
}

proof fn right_angles(d: int)
    ensures
        d % 90 != 0 ==> d % 360 != 0 && d % 360 != 90 && d % 360 != 180 && d % 360 != 270,
        d % 180 == 0 ==> d % 360 == 0 || d % 360 == 180,
        d % 180 == 90 ==> d % 360 == 90 || d % 360 == 270,
{
    let q = d / 360;
    assert(d == 360 * q + d % 360);
}

/// The size on which a crop is measured is that of the picture after the turn: a quarter and
/// three quarters exchange width and height, every other angle keeps them.
pub proof fn crops_are_measured_on_the_turned_picture(p: Pixels, size: (u32, u32), t: Turn)
    ensures
        size_after(size, t) == picture_after(p, size, t, None).0,
        t.rotate_degrees as int % 180 == 0 ==> size_after(size, t) == size,
        t.rotate_degrees as int % 180 == 90 ==> size_after(size, t) == (size.1, size.0),
        t.rotate_degrees as int % 90 != 0 ==> size_after(size, t) == size,
{
    right_angles(t.rotate_degrees as int);
}

/// What is left of an extent inside a larger one is what lies in both.
pub proof fn clipping_keeps_what_lies_inside(start: u32, length: u32, size: u32, x: int)
    requires
        start <= x,
    ensures
        x < start + clipped(start, length, size) <==> x < start + length && x < size,
        clipped(start, length, size) <= length,
{
}

} // verus!
