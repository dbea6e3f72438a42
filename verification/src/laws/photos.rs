//! What is read from the EXIF block of a photo.

use vstd::prelude::*;

use crate::exif::{
    altitude_of, ascii_text, captured_offset, captured_seconds, color_space_name, coordinate_of,
    defined_ratio, divides, entry_of, tz_offset, wall_clock_seconds,
    gcd_is_greatest_common_divisor, gcd_of, nonempty_text, short_low_byte, short_or_long,
    shows_exposure, states, text_view, wanted_fields, whole_number, ExifInfo, FieldData,
    ShutterSpeed, TagContext, TagKey,
};
use crate::text::{decimal_of, is_white_space};

verus! {

/// The fields of a file, by tag and image directory.
pub type Entries = Map<(TagKey, u16), FieldData>;

/// Whether the primary image has a field with this value.
pub open spec fn holds(entries: Entries, context: TagContext, number: u16, value: FieldData) -> bool {
    entries.contains_key(((context, number), 0)) && entries[((context, number), 0)] == value
}

/// Whether no image of the file has the field.
pub open spec fn lacks(entries: Entries, context: TagContext, number: u16) -> bool {
    !entries.contains_key(((context, number), 0)) && !entries.contains_key(((context, number), 1))
}

// ── Where fields come from ───────────────────────────────────────────────────

/// A field of the primary image is read, whatever the thumbnail says; one that only the
/// thumbnail has is read there; and one that neither has is not read.
pub proof fn the_primary_image_goes_first(entries: Entries, tag: TagKey)
    ensures
        entries.contains_key((tag, 0)) ==> entry_of(entries, tag) == Some(entries[(tag, 0)]),
        !entries.contains_key((tag, 0)) && entries.contains_key((tag, 1)) ==> entry_of(entries, tag)
            == Some(entries[(tag, 1)]),
        !entries.contains_key((tag, 0)) && !entries.contains_key((tag, 1)) ==> entry_of(
            entries,
            tag,
        ) is None,
{
}

// ── Position ─────────────────────────────────────────────────────────────────

/// South and west are negative, north and east are not: a coordinate is its degrees, minutes
/// and seconds, in this order, with the sign that the first letter of its reference gives.
pub proof fn south_and_west_are_negative(v: Seq<(u32, u32)>, names: Seq<Seq<u8>>)
    requires
        v.len() >= 3,
        names.len() > 0,
        names[0].len() > 0,
    ensures
        ({
            let c = coordinate_of(Some(FieldData::Rational(v)), Some(FieldData::Ascii(names)));
            let letter = names[0][0];
            &&& c is Some
            &&& c->0.degrees == v[0] && c->0.minutes == v[1] && c->0.seconds == v[2]
            &&& letter == 'S' as u8 ==> c->0.negative
            &&& letter == 'W' as u8 ==> c->0.negative
            &&& letter == 'N' as u8 ==> !c->0.negative
            &&& letter == 'E' as u8 ==> !c->0.negative
            &&& c->0.negative ==> letter == 'S' as u8 || letter == 'W' as u8
        }),
{
}

/// Without three numbers or without a reference there is no coordinate.
pub proof fn coordinates_need_a_reference(coord: Option<FieldData>, reference: Option<FieldData>)
    requires
        coordinate_of(coord, reference) is Some,
    ensures
        coord matches Some(FieldData::Rational(v)) && v.len() >= 3,
        reference matches Some(FieldData::Ascii(names)) && names.len() > 0 && names[0].len() > 0,
{
}

/// The position of a photo is read from the fields of the position: latitude from those of
/// the latitude, longitude from those of the longitude, and the height from its own. A height
/// is below sea level exactly where its reference is the byte 1.
pub proof fn positions_come_from_their_fields(entries: Entries, info: ExifInfo, v: Seq<
    (u32, u32),
>, names: Seq<Seq<u8>>)
    requires
        states(info, wanted_fields(entries)),
        v.len() >= 3,
        names.len() > 0,
        names[0].len() > 0,
    ensures
        holds(entries, TagContext::Gps, 2, FieldData::Rational(v)) && holds(
            entries,
            TagContext::Gps,
            1,
            FieldData::Ascii(names),
        ) ==> (info.gps_lat matches Some(c) && c.degrees == v[0] && c.minutes == v[1] && c.seconds
            == v[2] && (names[0][0] == 'S' as u8 ==> c.negative) && (names[0][0] == 'N' as u8
            ==> !c.negative)),
        holds(entries, TagContext::Gps, 4, FieldData::Rational(v)) && holds(
            entries,
            TagContext::Gps,
            3,
            FieldData::Ascii(names),
        ) ==> (info.gps_lon matches Some(c) && c.degrees == v[0] && c.minutes == v[1] && c.seconds
            == v[2] && (names[0][0] == 'W' as u8 ==> c.negative) && (names[0][0] == 'E' as u8
            ==> !c.negative)),
        lacks(entries, TagContext::Gps, 2) || lacks(entries, TagContext::Gps, 1)
            ==> info.gps_lat is None,
        lacks(entries, TagContext::Gps, 4) || lacks(entries, TagContext::Gps, 3)
            ==> info.gps_lon is None,
        holds(entries, TagContext::Gps, 6, FieldData::Rational(v)) ==> (info.gps_alt matches Some(a)
            && a.metres == v[0]),
        lacks(entries, TagContext::Gps, 6) ==> info.gps_alt is None,
{
}

/// A height is below sea level exactly where its reference is a byte and that byte is 1.
pub proof fn heights_below_the_sea(v: Seq<(u32, u32)>, reference: Option<FieldData>)
    requires
        v.len() > 0,
    ensures
        ({
            let a = altitude_of(Some(FieldData::Rational(v)), reference);
            &&& a is Some
            &&& a->0.metres == v[0]
            &&& reference is None ==> !a->0.below_sea_level
            &&& reference matches Some(FieldData::Byte(b)) ==> (b.len() > 0 ==> (
            a->0.below_sea_level <==> b[0] == 1))
            &&& a->0.below_sea_level ==> (reference matches Some(FieldData::Byte(_)))
        }),
{
}

// ── Size ─────────────────────────────────────────────────────────────────────

/// A number is read as it is written, and of a fraction its whole part; without a denominator
/// it counts as 0.
pub proof fn whole_numbers_are_kept(l: Seq<u32>, s: Seq<u16>, q: Seq<(u32, u32)>)
    requires
        l.len() > 0,
        s.len() > 0,
        q.len() > 0,
    ensures
        whole_number(Some(FieldData::Long(l))) == Some(l[0]),
        whole_number(Some(FieldData::Short(s))) == Some(s[0] as u32),
        whole_number(Some(FieldData::Rational(q))) matches Some(n) && (q[0].1 == 0 ==> n == 0) && (
        q[0].1 > 0 ==> n * q[0].1 <= q[0].0 < (n + 1) * q[0].1),
        whole_number(None) is None,
        short_or_long(Some(FieldData::Long(l))) == Some(l[0]),
        short_or_long(Some(FieldData::Short(s))) == Some(s[0] as u32),
        short_or_long(None) is None,
        s[0] < 256 ==> short_low_byte(Some(FieldData::Short(s))) == Some(s[0] as u8),
        short_low_byte(None) is None,
{
    let n = (q[0].0 / q[0].1) as int;
    if q[0].1 > 0 {
        let (a, b) = (q[0].0 as int, q[0].1 as int);
        vstd::arithmetic::div_mod::lemma_fundamental_div_mod(a, b);
        vstd::arithmetic::div_mod::lemma_mod_bound(a, b);
        assert(n == a / b);
        assert(n * b <= a < (n + 1) * b) by (nonlinear_arith)
            requires
                a == b * (a / b) + a % b,
                0 <= a % b < b,
                n == a / b,
        ;
    }
}

/// The width of a photo is its width and the height its height: the pixel dimensions of the
/// EXIF block, else those of the image itself.
pub proof fn sizes_come_from_their_fields(entries: Entries, info: ExifInfo, n: Seq<u32>)
    requires
        states(info, wanted_fields(entries)),
        n.len() > 0,
    ensures
        holds(entries, TagContext::Exif, 0xa002, FieldData::Long(n)) ==> info.width == Some(n[0]),
        holds(entries, TagContext::Exif, 0xa003, FieldData::Long(n)) ==> info.height == Some(n[0]),
        lacks(entries, TagContext::Exif, 0xa002) && holds(
            entries,
            TagContext::Tiff,
            0x100,
            FieldData::Long(n),
        ) ==> info.width == Some(n[0]),
        lacks(entries, TagContext::Exif, 0xa003) && holds(
            entries,
            TagContext::Tiff,
            0x101,
            FieldData::Long(n),
        ) ==> info.height == Some(n[0]),
        lacks(entries, TagContext::Exif, 0xa002) && lacks(entries, TagContext::Tiff, 0x100)
            ==> info.width is None,
        lacks(entries, TagContext::Exif, 0xa003) && lacks(entries, TagContext::Tiff, 0x101)
            ==> info.height is None,
{
}

// ── Camera and exposure ──────────────────────────────────────────────────────

/// What is said of the camera and the exposure comes from the field that it is named for.
pub proof fn facts_come_from_their_fields(
    entries: Entries,
    info: ExifInfo,
    t: Seq<Seq<u8>>,
    s: Seq<u16>,
    q: Seq<(u32, u32)>,
)
    requires
        states(info, wanted_fields(entries)),
        t.len() > 0,
        s.len() > 0,
        q.len() > 0,
        q[0].1 > 0,
    ensures
        ({
            let text = ascii_text(Some(FieldData::Ascii(t)))->0;
            &&& text.len() > 0 ==> {
                &&& holds(entries, TagContext::Tiff, 0x10f, FieldData::Ascii(t)) ==> (
                info.camera_make matches Some(m) && m@ == text)
                &&& holds(entries, TagContext::Tiff, 0x110, FieldData::Ascii(t)) ==> (
                info.camera_model matches Some(m) && m@ == text)
                &&& holds(entries, TagContext::Exif, 0xa434, FieldData::Ascii(t)) ==> (
                info.lens_model matches Some(m) && m@ == text)
            }
            &&& s[0] < 256 && holds(entries, TagContext::Tiff, 0x112, FieldData::Short(s))
                ==> info.orientation == Some(s[0] as u8)
            &&& holds(entries, TagContext::Exif, 0x8827, FieldData::Short(s)) ==> info.iso == Some(
                s[0] as u32,
            )
            &&& holds(entries, TagContext::Exif, 0x829d, FieldData::Rational(q)) ==> info.aperture
                == Some(q[0])
            &&& holds(entries, TagContext::Exif, 0x920a, FieldData::Rational(q))
                ==> info.focal_length == Some(q[0])
            &&& holds(entries, TagContext::Exif, 0x829a, FieldData::Rational(q)) && q[0].0 >= q[0].1
                ==> info.shutter == Some(ShutterSpeed::Seconds { num: q[0].0, denom: q[0].1 })
            &&& holds(entries, TagContext::Exif, 0xa001, FieldData::Short(s)) && s[0] == 1 ==> (
            info.color_space matches Some(c) && c@ == "sRGB"@)
        }),
        lacks(entries, TagContext::Tiff, 0x10f) ==> info.camera_make is None,
        lacks(entries, TagContext::Tiff, 0x110) ==> info.camera_model is None,
        lacks(entries, TagContext::Exif, 0xa434) ==> info.lens_model is None,
        lacks(entries, TagContext::Tiff, 0x112) ==> info.orientation is None,
        lacks(entries, TagContext::Exif, 0x8827) ==> info.iso is None,
        lacks(entries, TagContext::Exif, 0x829d) ==> info.aperture is None,
        lacks(entries, TagContext::Exif, 0x920a) ==> info.focal_length is None,
        lacks(entries, TagContext::Exif, 0x829a) ==> info.shutter is None,
        lacks(entries, TagContext::Exif, 0xa001) ==> info.color_space is None,
{
    assert(text_view(info.camera_make) is None <==> info.camera_make is None);
    assert(text_view(info.camera_model) is None <==> info.camera_model is None);
    assert(text_view(info.lens_model) is None <==> info.lens_model is None);
    assert(text_view(info.color_space) is None <==> info.color_space is None);
}

/// A fraction without a denominator is no number; any other is kept as it is.
pub proof fn ratios_are_kept(q: Seq<(u32, u32)>)
    requires
        q.len() > 0,
    ensures
        q[0].1 == 0 ==> defined_ratio(Some(FieldData::Rational(q))) is None,
        q[0].1 > 0 ==> defined_ratio(Some(FieldData::Rational(q))) == Some(q[0]),
        defined_ratio(None) is None,
{
}

/// An exposure of under a second is shown as a fraction of the same value in lowest terms: its
/// two numbers have no common divisor but 1.
pub proof fn short_exposures_are_reduced(r: Option<ShutterSpeed>, q: Seq<(u32, u32)>) -> (s: (
    nat,
    nat,
))
    requires
        q.len() > 0,
        0 < q[0].0 < q[0].1,
        shows_exposure(r, Some(FieldData::Rational(q))),
    ensures
        r matches Some(ShutterSpeed::Fraction(t)) && t@ == decimal_of(s.0) + "/"@ + decimal_of(s.1),
        s.0 * q[0].1 == s.1 * q[0].0,
        forall|d: nat| #[trigger] divides(d, s.0) && divides(d, s.1) ==> d == 1,
{
    let (a, b) = (q[0].0 as nat, q[0].1 as nat);
    let g = gcd_of(a, b);
    gcd_is_greatest_common_divisor(a, b);
    let ka = choose|k: nat| a == #[trigger] (g * k);
    let kb = choose|k: nat| b == #[trigger] (g * k);
    assert(g > 0 && ka > 0 && kb > 0) by (nonlinear_arith)
        requires
            a == g * ka,
            b == g * kb,
            a > 0,
            b > 0,
            g >= 0,
            ka >= 0,
            kb >= 0,
    ;
    assert(a / g == ka) by {
        vstd::arithmetic::div_mod::lemma_div_multiples_vanish(ka as int, g as int);
    }
    assert(b / g == kb) by {
        vstd::arithmetic::div_mod::lemma_div_multiples_vanish(kb as int, g as int);
    }
    assert(ka * b == kb * a) by (nonlinear_arith)
        requires
            a == g * ka,
            b == g * kb,
    ;
    assert forall|d: nat| #[trigger] divides(d, ka) && divides(d, kb) implies d == 1 by {
        let i = choose|k: nat| ka == #[trigger] (d * k);
        let j = choose|k: nat| kb == #[trigger] (d * k);
        let dg: nat = d * g;
        assert(a == dg * i) by (nonlinear_arith)
            requires
                a == g * ka,
                ka == d * i,
                dg == d * g,
        ;
        assert(b == dg * j) by (nonlinear_arith)
            requires
                b == g * kb,
                kb == d * j,
                dg == d * g,
        ;
        assert(divides(dg, a) && divides(dg, b));
        assert(divides(dg, g));
        let m = choose|k: nat| g == #[trigger] (dg * k);
        assert(d == 1) by (nonlinear_arith)
            requires
                g == dg * m,
                dg == d * g,
                g > 0,
                d >= 0,
                m >= 0,
        ;
    }
    (ka, kb)
}

/// Color spaces with a name are called by it, and no two numbers are called the same.
pub proof fn color_spaces_are_named(v: Seq<u16>)
    requires
        v.len() > 0,
    ensures
        v[0] == 1 ==> color_space_name(Some(FieldData::Short(v))) == Some("sRGB"@),
        v[0] == 0xFFFF ==> color_space_name(Some(FieldData::Short(v))) == Some("Uncalibrated"@),
        v[0] != 1 && v[0] != 0xFFFF ==> color_space_name(Some(FieldData::Short(v))) == Some(
            decimal_of(v[0] as nat),
        ),
        color_space_name(None) is None,
{
}

// ── Texts ────────────────────────────────────────────────────────────────────

/// A text has no white space at either end, and where nothing is left of it, the camera or
/// the lens has no name.
pub proof fn texts_are_trimmed(f: Option<FieldData>)
    ensures
        ascii_text(f) matches Some(t) ==> (t.len() > 0 ==> !is_white_space(t.first())
            && !is_white_space(t.last())),
        nonempty_text(f) is Some ==> nonempty_text(f) == ascii_text(f) && nonempty_text(f)->0.len() > 0,
        ascii_text(f) matches Some(t) ==> (t.len() > 0 ==> nonempty_text(f) == Some(t)),
{
    match f {
        Some(FieldData::Ascii(v)) => {
            if v.len() > 0 {
                trimming_trims(
                    crate::text::without_trailing(crate::exif::latin1(v[0]), '\0'),
                );
            }
        },
        _ => {},
    }
}

proof fn trimming_trims(s: Seq<char>)
    ensures
        ({
            let t = crate::text::trimmed(s);
            t.len() > 0 ==> !is_white_space(t.first()) && !is_white_space(t.last())
        }),
{
    end_is_clean(s);
    start_is_clean(crate::text::trimmed_end(s));
}

proof fn end_is_clean(s: Seq<char>)
    ensures
        crate::text::trimmed_end(s).len() > 0 ==> !is_white_space(
            crate::text::trimmed_end(s).last(),
        ),
    decreases s.len(),
{
    if s.len() > 0 && is_white_space(s.last()) {
        end_is_clean(s.drop_last());
    }
}

proof fn start_is_clean(s: Seq<char>)
    requires
        s.len() > 0 ==> !is_white_space(s.last()),
    ensures
        ({
            let t = crate::text::trimmed_start(s);
            t.len() > 0 ==> !is_white_space(t.first()) && t.last() == s.last()
        }),
    decreases s.len(),
{
    if s.len() > 0 && is_white_space(s.first()) {
        if s.len() > 1 {
            assert(s.drop_first().last() == s.last());
        }
        start_is_clean(s.drop_first());
    }
}

/// The offset of the camera's clock comes from the field for the capture where it holds a text,
/// else from the field for the file; where neither does, there is none.
pub proof fn offsets_come_from_the_capture_first(
    original: Option<FieldData>,
    modified: Option<FieldData>,
    s: Seq<char>,
)
    ensures
        ascii_text(original) == Some(s) ==> captured_offset(original, modified) == tz_offset(s),
        ascii_text(original) is None && ascii_text(modified) == Some(s) ==> captured_offset(
            original,
            modified,
        ) == tz_offset(s),
        ascii_text(original) is None && ascii_text(modified) is None ==> captured_offset(
            original,
            modified,
        ) is None,
        ascii_text(original) == Some(s) ==> captured_seconds(original, modified)
            == wall_clock_seconds(s, "%Y:%m:%d %H:%M:%S"@),
        ascii_text(original) is None && ascii_text(modified) == Some(s) ==> captured_seconds(
            original,
            modified,
        ) == wall_clock_seconds(s, "%Y:%m:%d %H:%M:%S"@),
        ascii_text(original) is None && ascii_text(modified) is None ==> captured_seconds(
            original,
            modified,
        ) is None,
{
}

/// When a photo was taken comes from the field for that, else from that for the file's last
/// change; the offset of the clock comes from the field that belongs to the same of the two.
pub proof fn times_come_from_their_fields(
    info: ExifInfo,
    entries: Map<(TagKey, u16), FieldData>,
)
    requires
        states(info, wanted_fields(entries)),
    ensures
        info.captured_at == captured_seconds(
            entry_of(entries, (TagContext::Exif, 0x9003)),
            entry_of(entries, (TagContext::Tiff, 0x132)),
        ),
        info.captured_at_tz == captured_offset(
            entry_of(entries, (TagContext::Exif, 0x9011)),
            entry_of(entries, (TagContext::Exif, 0x9010)),
        ),
{
}

} // verus!
