//! What the library reads from the EXIF block of an image.

use exif::{Context, Value};
use vstd::prelude::*;
use vstd::string::*;

use crate::calendar::{day_number, is_date, padded};
use crate::text::{
    chars_of, decimal, decimal_of, digits_value, i64_value, is_digit, is_white_space, parse_i64,
    text_of, trim, trim_end_char, trimmed, trimmed_end, trimmed_start, unsigned_part,
    without_trailing,
};

verus! {

// ── Field values ─────────────────────────────────────────────────────────────

/// The tag families that the library looks in.
#[derive(Debug, Clone, Copy, PartialEq, Eq, Structural)]
pub enum TagContext {
    Tiff,
    Exif,
    Gps,
}

/// A tag: its family and its number.
pub type TagKey = (TagContext, u16);

/// The value of one EXIF field, in the representations that the library reads.
#[derive(Debug)]
pub enum FieldValue {
    Byte(Vec<u8>),
    Ascii(Vec<Vec<u8>>),
    Short(Vec<u16>),
    Long(Vec<u32>),
    /// Numerators and denominators.
    Rational(Vec<(u32, u32)>),
    /// A representation that no rule of the library reads.
    Other,
}

/// The contents of a [`FieldValue`].
pub ghost enum FieldData {
    Byte(Seq<u8>),
    Ascii(Seq<Seq<u8>>),
    Short(Seq<u16>),
    Long(Seq<u32>),
    Rational(Seq<(u32, u32)>),
    Other,
}

impl View for FieldValue {
    type V = FieldData;

    open spec fn view(&self) -> FieldData {
        match self {
            FieldValue::Byte(v) => FieldData::Byte(v@),
            FieldValue::Ascii(v) => FieldData::Ascii(v@.map_values(|s: Vec<u8>| s@)),
            FieldValue::Short(v) => FieldData::Short(v@),
            FieldValue::Long(v) => FieldData::Long(v@),
            FieldValue::Rational(v) => FieldData::Rational(v@),
            FieldValue::Other => FieldData::Other,
        }
    }
}

/// The contents of a field that may be absent.
pub open spec fn data_of(f: Option<FieldValue>) -> Option<FieldData> {
    match f {
        Some(v) => Some(v@),
        None => None,
    }
}

// ── The EXIF container ───────────────────────────────────────────────────────

/// `exif::Exif`: the parsed fields of one file.
#[verifier::external_type_specification]
#[verifier::external_body]
pub struct ExExif(exif::Exif);

/// The fields that an `exif::Exif` gives out, by tag and image directory number.
pub uninterp spec fn exif_entries(exif: exif::Exif) -> Map<(TagKey, u16), FieldData>;

/// The fields that `exif::Reader::read_from_container` finds in a file with the
/// given bytes; nothing where it finds no EXIF block or cannot read it.
pub uninterp spec fn container_entries(bytes: Seq<u8>) -> Option<Map<(TagKey, u16), FieldData>>;

/// Calls `exif::Reader::read_from_container` on the bytes of a file. The claim
/// is that what is found depends on the bytes alone.
#[verifier::external_body]
fn read_container(bytes: &[u8]) -> (r: Option<exif::Exif>)
    ensures
        match r {
            Some(e) => container_entries(bytes@) == Some(exif_entries(e)),
            None => container_entries(bytes@) is None,
        },
{
    exif::Reader::new().read_from_container(&mut std::io::Cursor::new(bytes)).ok()
}

/// Calls `exif::Exif::get_field`, which gives the field with this tag in this
/// image directory, and copies its value out.
#[verifier::external_body]
fn field_in(exif: &exif::Exif, context: TagContext, number: u16, ifd: u16) -> (r: Option<
    FieldValue,
>)
    ensures
        data_of(r) == (if exif_entries(*exif).contains_key(((context, number), ifd)) {
            Some(exif_entries(*exif)[((context, number), ifd)])
        } else {
            None
        }),
{
    let context = match context {
        TagContext::Tiff => Context::Tiff,
        TagContext::Exif => Context::Exif,
        TagContext::Gps => Context::Gps,
    };
    Some(match &exif.get_field(exif::Tag(context, number), exif::In(ifd))?.value {
        Value::Byte(v) => FieldValue::Byte(v.clone()),
        Value::Ascii(v) => FieldValue::Ascii(v.clone()),
        Value::Short(v) => FieldValue::Short(v.clone()),
        Value::Long(v) => FieldValue::Long(v.clone()),
        Value::Rational(v) => FieldValue::Rational(v.iter().map(|r| (r.num, r.denom)).collect()),
        _ => FieldValue::Other,
    })
}

/// The field with tag `tag`: from the primary image's directory, else from the
/// thumbnail's.
pub open spec fn entry_of(entries: Map<(TagKey, u16), FieldData>, tag: TagKey) -> Option<
    FieldData,
> {
    if entries.contains_key((tag, 0)) {
        Some(entries[(tag, 0)])
    } else if entries.contains_key((tag, 1)) {
        Some(entries[(tag, 1)])
    } else {
        None
    }
}

/// Reads the field with the given tag from the primary image's directory, else
/// from the thumbnail's.
pub fn get_field(exif: &exif::Exif, context: TagContext, number: u16) -> (r: Option<FieldValue>)
    ensures
        data_of(r) == entry_of(exif_entries(*exif), (context, number)),
{
    match field_in(exif, context, number, 0) {
        Some(v) => Some(v),
        None => field_in(exif, context, number, 1),
    }
}

// ── Text fields ──────────────────────────────────────────────────────────────

/// Bytes read as characters, one for one.
pub open spec fn latin1(bytes: Seq<u8>) -> Seq<char> {
    bytes.map_values(|b: u8| b as char)
}

fn latin1_text(bytes: &Vec<u8>) -> (r: String)
    ensures
        r@ == latin1(bytes@),
{
    let mut out = String::new();
    let n: usize = bytes.len();
    let mut i: usize = 0;
    while i < n
        invariant
            i <= n,
            n == bytes@.len(),
            out@ == latin1(bytes@.take(i as int)),
        decreases n - i,
    {
        out.push(bytes[i] as char);
        i += 1;
        assert(latin1(bytes@.take(i as int)) =~= latin1(bytes@.take(i - 1)).push(
            bytes@[i - 1] as char,
        ));
    }
    assert(bytes@.take(n as int) =~= bytes@);
    out
}

/// The text of an ASCII field: its first string, without trailing NULs and
/// without white space at either end.
pub open spec fn ascii_text(f: Option<FieldData>) -> Option<Seq<char>> {
    match f {
        Some(FieldData::Ascii(v)) if v.len() > 0 => Some(
            trimmed(without_trailing(latin1(v[0]), '\0')),
        ),
        _ => None,
    }
}

/// The characters of an optional text.
pub open spec fn text_view(s: Option<String>) -> Option<Seq<char>> {
    match s {
        Some(t) => Some(t@),
        None => None,
    }
}

/// Reads an ASCII field as trimmed text.
pub fn ascii_field(f: &Option<FieldValue>) -> (r: Option<String>)
    ensures
        text_view(r) == ascii_text(data_of(*f)),
{
    match f {
        Some(FieldValue::Ascii(v)) => {
            if v.len() == 0 {
                None
            } else {
                let raw = latin1_text(&v[0]);
                let body = trim_end_char(raw.as_str(), '\0');
                Some(trim(body.as_str()))
            }
        },
        _ => None,
    }
}

/// The text of an ASCII field that is not blank.
pub open spec fn nonempty_text(f: Option<FieldData>) -> Option<Seq<char>> {
    match ascii_text(f) {
        Some(s) if s.len() > 0 => Some(s),
        _ => None,
    }
}

/// Reads an ASCII field as trimmed text; nothing where that leaves no text.
pub fn ascii_string(f: &Option<FieldValue>) -> (r: Option<String>)
    ensures
        text_view(r) == nonempty_text(data_of(*f)),
{
    match ascii_field(f) {
        Some(s) => if s.as_str().is_empty() {
            None
        } else {
            Some(s)
        },
        None => None,
    }
}

// ── Number fields ────────────────────────────────────────────────────────────

/// The first number of a LONG or SHORT field, or the whole part of the first
/// RATIONAL, counting a zero denominator as 0.
pub open spec fn whole_number(f: Option<FieldData>) -> Option<u32> {
    match f {
        Some(FieldData::Long(v)) if v.len() > 0 => Some(v[0]),
        Some(FieldData::Short(v)) if v.len() > 0 => Some(v[0] as u32),
        Some(FieldData::Rational(v)) if v.len() > 0 => Some(
            if v[0].1 == 0 {
                0
            } else {
                v[0].0 / v[0].1
            },
        ),
        _ => None,
    }
}

/// Reads a dimension, which cameras write as LONG, SHORT or RATIONAL.
pub fn rational_or_short_u32(f: &Option<FieldValue>) -> (r: Option<u32>)
    ensures
        r == whole_number(data_of(*f)),
{
    match f {
        Some(FieldValue::Long(v)) => if v.len() > 0 {
            Some(v[0])
        } else {
            None
        },
        Some(FieldValue::Short(v)) => if v.len() > 0 {
            Some(v[0] as u32)
        } else {
            None
        },
        Some(FieldValue::Rational(v)) => if v.len() > 0 {
            let (num, denom) = v[0];
            if denom == 0 {
                Some(0)
            } else {
                Some(num / denom)
            }
        } else {
            None
        },
        _ => None,
    }
}

/// The low byte of the first number of a SHORT field.
pub open spec fn short_low_byte(f: Option<FieldData>) -> Option<u8> {
    match f {
        Some(FieldData::Short(v)) if v.len() > 0 => Some((v[0] % 256) as u8),
        _ => None,
    }
}

/// Reads a SHORT field as a byte.
pub fn short_u8(f: &Option<FieldValue>) -> (r: Option<u8>)
    ensures
        r == short_low_byte(data_of(*f)),
{
    match f {
        Some(FieldValue::Short(v)) => if v.len() > 0 {
            Some((v[0] % 256) as u8)
        } else {
            None
        },
        _ => None,
    }
}

/// The first number of a SHORT or LONG field.
pub open spec fn short_or_long(f: Option<FieldData>) -> Option<u32> {
    match f {
        Some(FieldData::Short(v)) if v.len() > 0 => Some(v[0] as u32),
        Some(FieldData::Long(v)) if v.len() > 0 => Some(v[0]),
        _ => None,
    }
}

/// Reads a SHORT or LONG field.
pub fn short_u32(f: &Option<FieldValue>) -> (r: Option<u32>)
    ensures
        r == short_or_long(data_of(*f)),
{
    match f {
        Some(FieldValue::Short(v)) => if v.len() > 0 {
            Some(v[0] as u32)
        } else {
            None
        },
        Some(FieldValue::Long(v)) => if v.len() > 0 {
            Some(v[0])
        } else {
            None
        },
        _ => None,
    }
}

/// The first RATIONAL of a field.
pub open spec fn first_rational(f: Option<FieldData>) -> Option<(u32, u32)> {
    match f {
        Some(FieldData::Rational(v)) if v.len() > 0 => Some(v[0]),
        _ => None,
    }
}

fn rational(f: &Option<FieldValue>) -> (r: Option<(u32, u32)>)
    ensures
        r == first_rational(data_of(*f)),
{
    match f {
        Some(FieldValue::Rational(v)) => if v.len() > 0 {
            Some(v[0])
        } else {
            None
        },
        _ => None,
    }
}

/// The first RATIONAL of a field where it is a number.
pub open spec fn defined_ratio(f: Option<FieldData>) -> Option<(u32, u32)> {
    match first_rational(f) {
        Some(q) if q.1 != 0 => Some(q),
        _ => None,
    }
}

/// Reads a RATIONAL field; nothing where the denominator is zero.
pub fn ratio(f: &Option<FieldValue>) -> (r: Option<(u32, u32)>)
    ensures
        r == defined_ratio(data_of(*f)),
{
    match rational(f) {
        Some(q) => if q.1 != 0 {
            Some(q)
        } else {
            None
        },
        None => None,
    }
}

// ── Capture time ─────────────────────────────────────────────────────────────

/// The layout of EXIF date and time text.
pub const EXIF_DATETIME_FORMAT: &'static str = "%Y:%m:%d %H:%M:%S";

/// The seconds since 1970 of the date and time that
/// `chrono::NaiveDateTime::parse_from_str` reads from a text with a format, its
/// digits taken as UTC; nothing where it reads none.
pub uninterp spec fn wall_clock_seconds(s: Seq<char>, format: Seq<char>) -> Option<i64>;

/// A date and a second of the day as a camera writes them: `YYYY:MM:DD HH:MM:SS`.
pub open spec fn wall_clock_text(y: int, m: int, d: int, second: int) -> Seq<char> {
    padded(y as nat, 4) + ":"@ + padded(m as nat, 2) + ":"@ + padded(d as nat, 2) + " "@ + padded(
        (second / 3600) as nat,
        2,
    ) + ":"@ + padded((second / 60 % 60) as nat, 2) + ":"@ + padded((second % 60) as nat, 2)
}

/// Whether a reading keeps the digits of every well-formed text: the seconds are those of
/// the same date and time in UTC.
pub open spec fn keeps_wall_clock(s: Seq<char>, r: Option<i64>) -> bool {
    forall|y: int, m: int, d: int, second: int|
        is_date(y, m, d) && 0 <= y <= 9999 && 0 <= second < 86400 && s
            == #[trigger] wall_clock_text(y, m, d, second) ==> r == Some(
            (day_number(y, m, d) * 86400 + second) as i64,
        )
}

/// Calls `chrono::NaiveDateTime::parse_from_str` and turns the date and time
/// into seconds, its digits taken as UTC. The claim is that the outcome depends
/// on the text and the format alone, and that a text which follows the format of EXIF
/// is read digit by digit.
#[verifier::external_body]
fn parse_naive(s: &str, format: &str) -> (r: Option<i64>)
    ensures
        r == wall_clock_seconds(s@, format@),
        format@ == EXIF_DATETIME_FORMAT@ ==> keeps_wall_clock(s@, r),
{
    Some(chrono::NaiveDateTime::parse_from_str(s, format).ok()?.and_utc().timestamp())
}

/// Reads `"YYYY:MM:DD HH:MM:SS"` into a wall-clock timestamp: the digits that the
/// camera wrote, read as if they were UTC.
pub fn parse_exif_datetime(s: &str) -> (r: Option<i64>)
    ensures
        r == wall_clock_seconds(s@, EXIF_DATETIME_FORMAT@),
        keeps_wall_clock(s@, r),
{
    parse_naive(s, EXIF_DATETIME_FORMAT)
}

/// The first of two texts that is there.
pub open spec fn either(a: Option<Seq<char>>, b: Option<Seq<char>>) -> Option<Seq<char>> {
    if a is Some {
        a
    } else {
        b
    }
}

fn first_text(a: &Option<FieldValue>, b: &Option<FieldValue>) -> (r: Option<String>)
    ensures
        text_view(r) == either(ascii_text(data_of(*a)), ascii_text(data_of(*b))),
{
    match ascii_field(a) {
        Some(s) => Some(s),
        None => ascii_field(b),
    }
}

/// The capture time that `original` gives, else `modified`.
pub open spec fn captured_seconds(original: Option<FieldData>, modified: Option<FieldData>) -> Option<
    i64,
> {
    match either(ascii_text(original), ascii_text(modified)) {
        Some(s) => wall_clock_seconds(s, EXIF_DATETIME_FORMAT@),
        None => None,
    }
}

/// Reads the capture time from `DateTimeOriginal`, else from `DateTime`.
pub fn capture_timestamp(original: &Option<FieldValue>, modified: &Option<FieldValue>) -> (r: Option<
    i64,
>)
    ensures
        r == captured_seconds(data_of(*original), data_of(*modified)),
        either(ascii_text(data_of(*original)), ascii_text(data_of(*modified))) matches Some(s)
            ==> keeps_wall_clock(s, r),
{
    match first_text(original, modified) {
        Some(s) => parse_exif_datetime(s.as_str()),
        None => None,
    }
}

/// `s` without the signs at its start.
pub open spec fn without_signs(s: Seq<char>) -> Seq<char>
    decreases s.len(),
{
    if s.len() > 0 && (s.first() == '+' || s.first() == '-') {
        without_signs(s.drop_first())
    } else {
        s
    }
}

/// The place of the first colon in `s`, or its length.
pub open spec fn colon_at(s: Seq<char>) -> int
    decreases s.len(),
{
    if s.len() == 0 || s.first() == ':' {
        0
    } else {
        1 + colon_at(s.drop_first())
    }
}

proof fn lemma_colon_at(s: Seq<char>)
    ensures
        0 <= colon_at(s) <= s.len(),
    decreases s.len(),
{
    if s.len() > 0 && s.first() != ':' {
        lemma_colon_at(s.drop_first());
    }
}

/// The minutes that follow the first colon of `s`, or 0 where there are none.
pub open spec fn offset_minutes(s: Seq<char>) -> int {
    if colon_at(s) < s.len() {
        match i64_value(trimmed(s.skip(colon_at(s) + 1))) {
            Some(m) => m as int,
            None => 0,
        }
    } else {
        0
    }
}

/// Minutes east of UTC that an offset text such as `+HH:MM` or `-HH:MM` writes.
/// The minutes may be left out; without hours there is no offset, nor where it
/// does not fit in an `i64`.
pub open spec fn tz_offset(s: Seq<char>) -> Option<i64> {
    let body = without_signs(s);
    match i64_value(trimmed(body.take(colon_at(body)))) {
        Some(h) => {
            let magnitude = h * 60 + offset_minutes(body);
            let total = if s.len() > 0 && s[0] == '-' {
                -magnitude
            } else {
                magnitude
            };
            if i64::MIN <= total <= i64::MAX {
                Some(total as i64)
            } else {
                None
            }
        },
        None => None,
    }
}

/// Reads an EXIF UTC offset into minutes east of UTC.
pub fn parse_tz_offset(s: &str) -> (r: Option<i64>)
    ensures
        r == tz_offset(s@),
{
    let chars = chars_of(s);
    let n: usize = chars.len();
    let negative = n > 0 && chars[0] == '-';
    let mut start: usize = 0;
    assert(s@.skip(0) =~= s@);
    while start < n && (chars[start] == '+' || chars[start] == '-')
        invariant
            start <= n,
            n == chars@.len(),
            chars@ == s@,
            without_signs(s@.skip(start as int)) == without_signs(s@),
        decreases n - start,
    {
        assert(s@.skip(start as int).drop_first() =~= s@.skip(start + 1));
        start += 1;
    }
    let ghost body = without_signs(s@);
    assert(body == s@.skip(start as int));
    let mut colon: usize = start;
    assert(body.skip(0) =~= body);
    while colon < n && chars[colon] != ':'
        invariant
            start <= colon <= n,
            n == chars@.len(),
            chars@ == s@,
            body == s@.skip(start as int),
            colon_at(body) == colon - start + colon_at(body.skip(colon - start)),
        decreases n - colon,
    {
        assert(body.skip(colon - start).drop_first() =~= body.skip(colon + 1 - start));
        colon += 1;
    }
    proof {
        lemma_colon_at(body.skip(colon - start));
        assert(colon_at(body) == colon - start);
    }
    let hours_text = text_of(&chars, start, colon);
    assert(hours_text@ =~= body.take(colon_at(body)));
    let hours: i64 = match parse_i64(trim(hours_text.as_str()).as_str()) {
        Some(h) => h,
        None => return None,
    };
    let minutes: i64 = if colon < n {
        let minutes_text = text_of(&chars, colon + 1, n);
        assert(minutes_text@ =~= body.skip(colon_at(body) + 1));
        match parse_i64(trim(minutes_text.as_str()).as_str()) {
            Some(m) => m,
            None => 0,
        }
    } else {
        0
    };
    let magnitude: i128 = hours as i128 * 60 + minutes as i128;
    let total: i128 = if negative {
        -magnitude
    } else {
        magnitude
    };
    if i64::MIN as i128 <= total && total <= i64::MAX as i128 {
        Some(total as i64)
    } else {
        None
    }
}

proof fn two_digits_are_read(a: char, b: char)
    requires
        is_digit(a),
        is_digit(b),
    ensures
        trimmed(seq![a, b]) == seq![a, b],
        i64_value(seq![a, b]) == Some((10 * (a as int - '0' as int) + (b as int - '0' as int)) as i64),
{
    let s = seq![a, b];
    assert(!is_white_space(a) && !is_white_space(b));
    assert(trimmed_end(s) == s);
    assert(trimmed_start(s) == s);
    reveal_with_fuel(digits_value, 3);
    assert(unsigned_part(s) == s);
    assert(s.drop_last() =~= seq![a]);
    assert(seq![a].drop_last() =~= Seq::<char>::empty());
}

/// The sign of an offset that is written as two digits, a colon and two digits covers the
/// minutes as well as the hours, also where the hours are 0. Without a sign it is east.
pub proof fn signs_cover_hours_and_minutes(a: char, b: char, c: char, d: char)
    requires
        is_digit(a),
        is_digit(b),
        is_digit(c),
        is_digit(d),
    ensures
        ({
            let text = seq![a, b, ':', c, d];
            let hours = 10 * (a as int - '0' as int) + (b as int - '0' as int);
            let minutes = 10 * (c as int - '0' as int) + (d as int - '0' as int);
            &&& tz_offset(text) == Some((60 * hours + minutes) as i64)
            &&& tz_offset(seq!['+'] + text) == Some((60 * hours + minutes) as i64)
            &&& tz_offset(seq!['-'] + text) == Some((-(60 * hours + minutes)) as i64)
        }),
{
    let text = seq![a, b, ':', c, d];
    reveal_with_fuel(without_signs, 3);
    reveal_with_fuel(colon_at, 4);
    assert((seq!['+'] + text).drop_first() =~= text);
    assert((seq!['-'] + text).drop_first() =~= text);
    assert(without_signs(text) == text);
    assert(text.drop_first() =~= seq![b, ':', c, d]);
    assert(seq![b, ':', c, d].drop_first() =~= seq![':', c, d]);
    assert(colon_at(text) == 2);
    assert(text.take(2) =~= seq![a, b]);
    assert(text.skip(3) =~= seq![c, d]);
    two_digits_are_read(a, b);
    two_digits_are_read(c, d);
}

/// The UTC offset that `original` gives, else `modified`.
pub open spec fn captured_offset(original: Option<FieldData>, modified: Option<FieldData>) -> Option<
    i64,
> {
    match either(ascii_text(original), ascii_text(modified)) {
        Some(s) => tz_offset(s),
        None => None,
    }
}

/// Reads the UTC offset from `OffsetTimeOriginal`, else from `OffsetTime`.
pub fn capture_tz(original: &Option<FieldValue>, modified: &Option<FieldValue>) -> (r: Option<i64>)
    ensures
        r == captured_offset(data_of(*original), data_of(*modified)),
{
    match first_text(original, modified) {
        Some(s) => parse_tz_offset(s.as_str()),
        None => None,
    }
}

// ── Shutter speed ────────────────────────────────────────────────────────────

/// The greatest common divisor by Euclid's remainders.
pub open spec fn gcd_of(a: nat, b: nat) -> nat
    decreases b,
{
    if b == 0 {
        a
    } else {
        gcd_of(b, a % b)
    }
}

/// Whether `d` divides `n`.
pub open spec fn divides(d: nat, n: nat) -> bool {
    exists|k: nat| n == #[trigger] (d * k)
}

/// The greatest common divisor divides both numbers, and every common divisor
/// divides it.
pub proof fn gcd_is_greatest_common_divisor(a: nat, b: nat)
    ensures
        divides(gcd_of(a, b), a),
        divides(gcd_of(a, b), b),
        forall|d: nat| divides(d, a) && divides(d, b) ==> #[trigger] divides(d, gcd_of(a, b)),
    decreases b,
{
    let g = gcd_of(a, b);
    if b == 0 {
        assert(a == g * 1);
        assert(0 == g * 0);
    } else {
        let q = a / b;
        let m = a % b;
        assert(a == b * q + m) by {
            vstd::arithmetic::div_mod::lemma_fundamental_div_mod(a as int, b as int);
        }
        gcd_is_greatest_common_divisor(b, m);
        let kb = choose|k: nat| b == #[trigger] (g * k);
        let km = choose|k: nat| m == #[trigger] (g * k);
        let ka: nat = kb * q + km;
        assert(a == g * ka) by (nonlinear_arith)
            requires
                a == b * q + m,
                b == g * kb,
                m == g * km,
                ka == kb * q + km,
        ;
        assert forall|d: nat| divides(d, a) && divides(d, b) implies #[trigger] divides(d, g) by {
            let ja = choose|k: nat| a == #[trigger] (d * k);
            let jb = choose|k: nat| b == #[trigger] (d * k);
            let jm = ja - jb * q;
            assert(m == d * jm) by (nonlinear_arith)
                requires
                    a == b * q + m,
                    a == d * ja,
                    b == d * jb,
                    jm == ja - jb * q,
            ;
            if d == 0 {
                assert(m == d * 0) by (nonlinear_arith)
                    requires
                        m == d * jm,
                        d == 0,
                ;
            } else {
                assert(jm >= 0) by (nonlinear_arith)
                    requires
                        m == d * jm,
                        m >= 0,
                        d > 0,
                ;
                assert(m == d * (jm as nat));
            }
            assert(divides(d, m));
        }
    }
}

/// The greatest common divisor: it divides both numbers, and every common divisor divides
/// it.
pub fn gcd(a: u32, b: u32) -> (r: u32)
    ensures
        r == gcd_of(a as nat, b as nat),
        divides(r as nat, a as nat),
        divides(r as nat, b as nat),
        forall|d: nat|
            divides(d, a as nat) && divides(d, b as nat) ==> #[trigger] divides(d, r as nat),
    decreases b,
{
    proof {
        gcd_is_greatest_common_divisor(a as nat, b as nat);
    }
    if b == 0 {
        a
    } else {
        gcd(b, a % b)
    }
}

/// An exposure time.
#[derive(Debug)]
pub enum ShutterSpeed {
    /// At least one second: a ratio to be shown with one decimal, such as `2.5`.
    Seconds { num: u32, denom: u32 },
    /// Under one second: a reduced fraction, such as `1/500`.
    Fraction(String),
}

/// `num/denom` in lowest terms.
pub open spec fn reduced_fraction(num: u32, denom: u32) -> Seq<char> {
    let g = gcd_of(num as nat, denom as nat);
    decimal_of(num as nat / g) + "/"@ + decimal_of(denom as nat / g)
}

/// Whether `r` shows the exposure time in `f`: nothing without one or with a zero
/// denominator, seconds from one second on, else the reduced fraction.
pub open spec fn shows_exposure(r: Option<ShutterSpeed>, f: Option<FieldData>) -> bool {
    match defined_ratio(f) {
        None => r is None,
        Some(q) => if q.0 >= q.1 {
            r == Some(ShutterSpeed::Seconds { num: q.0, denom: q.1 })
        } else {
            r matches Some(ShutterSpeed::Fraction(s)) && s@ == reduced_fraction(q.0, q.1)
        },
    }
}

/// Reads `ExposureTime` as a shutter speed.
pub fn shutter_string(f: &Option<FieldValue>) -> (r: Option<ShutterSpeed>)
    ensures
        shows_exposure(r, data_of(*f)),
{
    let (num, denom) = match ratio(f) {
        Some(q) => q,
        None => return None,
    };
    if num >= denom {
        Some(ShutterSpeed::Seconds { num, denom })
    } else {
        let g = gcd(num, denom);
        proof {
            let k = choose|k: nat| denom as nat == #[trigger] (g as nat * k);
            assert(g > 0) by (nonlinear_arith)
                requires
                    denom as nat == g as nat * k,
                    denom > 0,
            ;
        }
        let mut text = decimal((num / g) as u64);
        text.append("/");
        text.append(decimal((denom / g) as u64).as_str());
        Some(ShutterSpeed::Fraction(text))
    }
}

// ── Position ─────────────────────────────────────────────────────────────────

/// A latitude or longitude in degrees, minutes and seconds.
#[derive(Debug, Clone, Copy, PartialEq, Eq)]
pub struct GpsCoordinate {
    pub degrees: (u32, u32),
    pub minutes: (u32, u32),
    pub seconds: (u32, u32),
    /// South of the equator or west of Greenwich.
    pub negative: bool,
}

/// The coordinate that a triple of RATIONALs and a reference letter give.
pub open spec fn coordinate_of(coord: Option<FieldData>, reference: Option<FieldData>) -> Option<
    GpsCoordinate,
> {
    match (coord, reference) {
        (
            Some(FieldData::Rational(v)),
            Some(FieldData::Ascii(names)),
        ) if v.len() >= 3 && names.len() > 0 && names[0].len() > 0 => Some(
            GpsCoordinate {
                degrees: v[0],
                minutes: v[1],
                seconds: v[2],
                negative: names[0][0] == 'S' as u8 || names[0][0] == 'W' as u8,
            },
        ),
        _ => None,
    }
}

/// Reads a coordinate; the reference letters `S` and `W` make it negative.
pub fn gps_decimal(coord: &Option<FieldValue>, reference: &Option<FieldValue>) -> (r: Option<
    GpsCoordinate,
>)
    ensures
        r == coordinate_of(data_of(*coord), data_of(*reference)),
        r matches Some(c) ==> (c.negative <==> (data_of(*reference) matches Some(
            FieldData::Ascii(names),
        ) && (names[0][0] == 'S' as u8 || names[0][0] == 'W' as u8))),
{
    match (coord, reference) {
        (Some(FieldValue::Rational(v)), Some(FieldValue::Ascii(names))) => if v.len() >= 3
            && names.len() > 0 && names[0].len() > 0 {
            let letter = names[0][0];
            Some(
                GpsCoordinate {
                    degrees: v[0],
                    minutes: v[1],
                    seconds: v[2],
                    negative: letter == 'S' as u8 || letter == 'W' as u8,
                },
            )
        } else {
            None
        },
        _ => None,
    }
}

/// A height over sea level.
#[derive(Debug, Clone, Copy, PartialEq, Eq)]
pub struct GpsAltitude {
    pub metres: (u32, u32),
    pub below_sea_level: bool,
}

/// The height that a RATIONAL and a reference byte give; 1 means below sea level.
pub open spec fn altitude_of(altitude: Option<FieldData>, reference: Option<FieldData>) -> Option<
    GpsAltitude,
> {
    match first_rational(altitude) {
        Some(q) => Some(
            GpsAltitude {
                metres: q,
                below_sea_level: match reference {
                    Some(FieldData::Byte(v)) => v.len() > 0 && v[0] == 1,
                    _ => false,
                },
            },
        ),
        None => None,
    }
}

/// Reads the height over sea level.
pub fn gps_altitude(altitude: &Option<FieldValue>, reference: &Option<FieldValue>) -> (r: Option<
    GpsAltitude,
>)
    ensures
        r == altitude_of(data_of(*altitude), data_of(*reference)),
{
    match rational(altitude) {
        Some(metres) => {
            let below_sea_level = match reference {
                Some(FieldValue::Byte(v)) => v.len() > 0 && v[0] == 1,
                _ => false,
            };
            Some(GpsAltitude { metres, below_sea_level })
        },
        None => None,
    }
}

// ── Color space ──────────────────────────────────────────────────────────────

/// The name of a color space number.
pub open spec fn color_space_name(f: Option<FieldData>) -> Option<Seq<char>> {
    match f {
        Some(FieldData::Short(v)) if v.len() > 0 => Some(
            if v[0] == 1 {
                "sRGB"@
            } else if v[0] == 0xFFFF {
                "Uncalibrated"@
            } else {
                decimal_of(v[0] as nat)
            },
        ),
        _ => None,
    }
}

/// Reads the color space; a number without a name is written in decimal.
pub fn color_space_string(f: &Option<FieldValue>) -> (r: Option<String>)
    ensures
        text_view(r) == color_space_name(data_of(*f)),
{
    match f {
        Some(FieldValue::Short(v)) => if v.len() > 0 {
            let n = v[0];
            if n == 1 {
                Some("sRGB".to_owned())
            } else if n == 0xFFFF {
                Some("Uncalibrated".to_owned())
            } else {
                Some(decimal(n as u64))
            }
        } else {
            None
        },
        _ => None,
    }
}

// ── The whole block ──────────────────────────────────────────────────────────

/// The fields of a file that the library reads, each from the primary image or
/// else from the thumbnail.
#[derive(Debug)]
pub struct ExifFields {
    pub image_width: Option<FieldValue>,
    pub image_length: Option<FieldValue>,
    pub make: Option<FieldValue>,
    pub model: Option<FieldValue>,
    pub orientation: Option<FieldValue>,
    pub date_time: Option<FieldValue>,
    pub exposure_time: Option<FieldValue>,
    pub f_number: Option<FieldValue>,
    pub sensitivity: Option<FieldValue>,
    pub date_time_original: Option<FieldValue>,
    pub offset_time: Option<FieldValue>,
    pub offset_time_original: Option<FieldValue>,
    pub focal_length: Option<FieldValue>,
    pub color_space: Option<FieldValue>,
    pub pixel_x_dimension: Option<FieldValue>,
    pub pixel_y_dimension: Option<FieldValue>,
    pub lens_model: Option<FieldValue>,
    pub gps_latitude_ref: Option<FieldValue>,
    pub gps_latitude: Option<FieldValue>,
    pub gps_longitude_ref: Option<FieldValue>,
    pub gps_longitude: Option<FieldValue>,
    pub gps_altitude_ref: Option<FieldValue>,
    pub gps_altitude: Option<FieldValue>,
}

/// The contents of [`ExifFields`].
pub ghost struct FieldsData {
    pub image_width: Option<FieldData>,
    pub image_length: Option<FieldData>,
    pub make: Option<FieldData>,
    pub model: Option<FieldData>,
    pub orientation: Option<FieldData>,
    pub date_time: Option<FieldData>,
    pub exposure_time: Option<FieldData>,
    pub f_number: Option<FieldData>,
    pub sensitivity: Option<FieldData>,
    pub date_time_original: Option<FieldData>,
    pub offset_time: Option<FieldData>,
    pub offset_time_original: Option<FieldData>,
    pub focal_length: Option<FieldData>,
    pub color_space: Option<FieldData>,
    pub pixel_x_dimension: Option<FieldData>,
    pub pixel_y_dimension: Option<FieldData>,
    pub lens_model: Option<FieldData>,
    pub gps_latitude_ref: Option<FieldData>,
    pub gps_latitude: Option<FieldData>,
    pub gps_longitude_ref: Option<FieldData>,
    pub gps_longitude: Option<FieldData>,
    pub gps_altitude_ref: Option<FieldData>,
    pub gps_altitude: Option<FieldData>,
}

impl View for ExifFields {
    type V = FieldsData;

    open spec fn view(&self) -> FieldsData {
        FieldsData {
            image_width: data_of(self.image_width),
            image_length: data_of(self.image_length),
            make: data_of(self.make),
            model: data_of(self.model),
            orientation: data_of(self.orientation),
            date_time: data_of(self.date_time),
            exposure_time: data_of(self.exposure_time),
            f_number: data_of(self.f_number),
            sensitivity: data_of(self.sensitivity),
            date_time_original: data_of(self.date_time_original),
            offset_time: data_of(self.offset_time),
            offset_time_original: data_of(self.offset_time_original),
            focal_length: data_of(self.focal_length),
            color_space: data_of(self.color_space),
            pixel_x_dimension: data_of(self.pixel_x_dimension),
            pixel_y_dimension: data_of(self.pixel_y_dimension),
            lens_model: data_of(self.lens_model),
            gps_latitude_ref: data_of(self.gps_latitude_ref),
            gps_latitude: data_of(self.gps_latitude),
            gps_longitude_ref: data_of(self.gps_longitude_ref),
            gps_longitude: data_of(self.gps_longitude),
            gps_altitude_ref: data_of(self.gps_altitude_ref),
            gps_altitude: data_of(self.gps_altitude),
        }
    }
}

/// The fields that the library reads out of the given entries.
pub open spec fn wanted_fields(entries: Map<(TagKey, u16), FieldData>) -> FieldsData {
    FieldsData {
        image_width: entry_of(entries, (TagContext::Tiff, 0x100)),
        image_length: entry_of(entries, (TagContext::Tiff, 0x101)),
        make: entry_of(entries, (TagContext::Tiff, 0x10f)),
        model: entry_of(entries, (TagContext::Tiff, 0x110)),
        orientation: entry_of(entries, (TagContext::Tiff, 0x112)),
        date_time: entry_of(entries, (TagContext::Tiff, 0x132)),
        exposure_time: entry_of(entries, (TagContext::Exif, 0x829a)),
        f_number: entry_of(entries, (TagContext::Exif, 0x829d)),
        sensitivity: entry_of(entries, (TagContext::Exif, 0x8827)),
        date_time_original: entry_of(entries, (TagContext::Exif, 0x9003)),
        offset_time: entry_of(entries, (TagContext::Exif, 0x9010)),
        offset_time_original: entry_of(entries, (TagContext::Exif, 0x9011)),
        focal_length: entry_of(entries, (TagContext::Exif, 0x920a)),
        color_space: entry_of(entries, (TagContext::Exif, 0xa001)),
        pixel_x_dimension: entry_of(entries, (TagContext::Exif, 0xa002)),
        pixel_y_dimension: entry_of(entries, (TagContext::Exif, 0xa003)),
        lens_model: entry_of(entries, (TagContext::Exif, 0xa434)),
        gps_latitude_ref: entry_of(entries, (TagContext::Gps, 1)),
        gps_latitude: entry_of(entries, (TagContext::Gps, 2)),
        gps_longitude_ref: entry_of(entries, (TagContext::Gps, 3)),
        gps_longitude: entry_of(entries, (TagContext::Gps, 4)),
        gps_altitude_ref: entry_of(entries, (TagContext::Gps, 5)),
        gps_altitude: entry_of(entries, (TagContext::Gps, 6)),
    }
}

/// Reads every field that the library uses out of a parsed block.
pub fn collect_fields(exif: &exif::Exif) -> (r: ExifFields)
    ensures
        r@ == wanted_fields(exif_entries(*exif)),
{
    ExifFields {
        image_width: get_field(exif, TagContext::Tiff, 0x100),
        image_length: get_field(exif, TagContext::Tiff, 0x101),
        make: get_field(exif, TagContext::Tiff, 0x10f),
        model: get_field(exif, TagContext::Tiff, 0x110),
        orientation: get_field(exif, TagContext::Tiff, 0x112),
        date_time: get_field(exif, TagContext::Tiff, 0x132),
        exposure_time: get_field(exif, TagContext::Exif, 0x829a),
        f_number: get_field(exif, TagContext::Exif, 0x829d),
        sensitivity: get_field(exif, TagContext::Exif, 0x8827),
        date_time_original: get_field(exif, TagContext::Exif, 0x9003),
        offset_time: get_field(exif, TagContext::Exif, 0x9010),
        offset_time_original: get_field(exif, TagContext::Exif, 0x9011),
        focal_length: get_field(exif, TagContext::Exif, 0x920a),
        color_space: get_field(exif, TagContext::Exif, 0xa001),
        pixel_x_dimension: get_field(exif, TagContext::Exif, 0xa002),
        pixel_y_dimension: get_field(exif, TagContext::Exif, 0xa003),
        lens_model: get_field(exif, TagContext::Exif, 0xa434),
        gps_latitude_ref: get_field(exif, TagContext::Gps, 1),
        gps_latitude: get_field(exif, TagContext::Gps, 2),
        gps_longitude_ref: get_field(exif, TagContext::Gps, 3),
        gps_longitude: get_field(exif, TagContext::Gps, 4),
        gps_altitude_ref: get_field(exif, TagContext::Gps, 5),
        gps_altitude: get_field(exif, TagContext::Gps, 6),
    }
}

/// All EXIF facts about a single image. Every fact may be missing: an unreadable
/// block never fails an import.
#[derive(Debug)]
pub struct ExifInfo {
    /// Capture time as the camera's wall clock, in seconds since 1970 with the
    /// digits taken as UTC.
    pub captured_at: Option<i64>,
    /// Minutes east of UTC at the place of capture; not applied to `captured_at`.
    pub captured_at_tz: Option<i64>,
    pub width: Option<u32>,
    pub height: Option<u32>,
    /// EXIF orientation (1 to 8).
    pub orientation: Option<u8>,
    pub camera_make: Option<String>,
    pub camera_model: Option<String>,
    pub lens_model: Option<String>,
    /// F-number, as a ratio with a nonzero denominator.
    pub aperture: Option<(u32, u32)>,
    pub shutter: Option<ShutterSpeed>,
    pub iso: Option<u32>,
    /// Millimetres, as a ratio with a nonzero denominator.
    pub focal_length: Option<(u32, u32)>,
    pub gps_lat: Option<GpsCoordinate>,
    pub gps_lon: Option<GpsCoordinate>,
    pub gps_alt: Option<GpsAltitude>,
    pub color_space: Option<String>,
}

impl ExifInfo {
    /// Whether no fact is known.
    pub open spec fn is_blank(self) -> bool {
        &&& self.captured_at is None && self.captured_at_tz is None
        &&& self.width is None && self.height is None && self.orientation is None
        &&& self.camera_make is None && self.camera_model is None && self.lens_model is None
        &&& self.aperture is None && self.shutter is None && self.iso is None
        &&& self.focal_length is None && self.gps_lat is None && self.gps_lon is None
        &&& self.gps_alt is None && self.color_space is None
    }
}

impl Default for ExifInfo {
    fn default() -> (r: Self)
        ensures
            r.is_blank(),
    {
        ExifInfo {
            captured_at: None,
            captured_at_tz: None,
            width: None,
            height: None,
            orientation: None,
            camera_make: None,
            camera_model: None,
            lens_model: None,
            aperture: None,
            shutter: None,
            iso: None,
            focal_length: None,
            gps_lat: None,
            gps_lon: None,
            gps_alt: None,
            color_space: None,
        }
    }
}

/// The first of two numbers that is there.
pub open spec fn either_number(a: Option<u32>, b: Option<u32>) -> Option<u32> {
    if a is Some {
        a
    } else {
        b
    }
}

/// Whether `info` states what `fields` say: for a dimension the pixel dimension of
/// the EXIF directory, else that of the TIFF directory, and every other fact from
/// its own field.
pub open spec fn states(info: ExifInfo, fields: FieldsData) -> bool {
    &&& info.captured_at == captured_seconds(
        fields.date_time_original,
        fields.date_time,
    )
    &&& either(ascii_text(fields.date_time_original), ascii_text(fields.date_time)) matches Some(s)
        ==> keeps_wall_clock(s, info.captured_at)
    &&& info.captured_at_tz == captured_offset(
        fields.offset_time_original,
        fields.offset_time,
    )
    &&& info.width == either_number(
        whole_number(fields.pixel_x_dimension),
        whole_number(fields.image_width),
    )
    &&& info.height == either_number(
        whole_number(fields.pixel_y_dimension),
        whole_number(fields.image_length),
    )
    &&& info.orientation == short_low_byte(fields.orientation)
    &&& text_view(info.camera_make) == nonempty_text(fields.make)
    &&& text_view(info.camera_model) == nonempty_text(fields.model)
    &&& text_view(info.lens_model) == nonempty_text(fields.lens_model)
    &&& info.aperture == defined_ratio(fields.f_number)
    &&& shows_exposure(info.shutter, fields.exposure_time)
    &&& info.iso == short_or_long(fields.sensitivity)
    &&& info.focal_length == defined_ratio(fields.focal_length)
    &&& info.gps_lat == coordinate_of(
        fields.gps_latitude,
        fields.gps_latitude_ref,
    )
    &&& info.gps_lon == coordinate_of(
        fields.gps_longitude,
        fields.gps_longitude_ref,
    )
    &&& info.gps_alt == altitude_of(fields.gps_altitude, fields.gps_altitude_ref)
    &&& text_view(info.color_space) == color_space_name(fields.color_space)
}

fn dimension(a: &Option<FieldValue>, b: &Option<FieldValue>) -> (r: Option<u32>)
    ensures
        r == either_number(whole_number(data_of(*a)), whole_number(data_of(*b))),
{
    match rational_or_short_u32(a) {
        Some(n) => Some(n),
        None => rational_or_short_u32(b),
    }
}

/// The capture time is what the camera's clock showed: it depends on `DateTimeOriginal`, and
/// on `DateTime` where there is no text in the first, and no UTC offset is folded in.
pub proof fn capture_times_ignore_offsets(
    a: FieldsData,
    b: FieldsData,
    of_a: ExifInfo,
    of_b: ExifInfo,
)
    requires
        states(of_a, a),
        states(of_b, b),
        a.date_time_original == b.date_time_original,
        ascii_text(a.date_time_original) is Some || a.date_time == b.date_time,
    ensures
        of_a.captured_at == of_b.captured_at,
{
}

/// Draws the library's facts from the fields of a file.
pub fn exif_info(fields: &ExifFields) -> (r: ExifInfo)
    ensures
        states(r, fields@),
{
    ExifInfo {
        captured_at: capture_timestamp(&fields.date_time_original, &fields.date_time),
        captured_at_tz: capture_tz(&fields.offset_time_original, &fields.offset_time),
        width: dimension(&fields.pixel_x_dimension, &fields.image_width),
        height: dimension(&fields.pixel_y_dimension, &fields.image_length),
        orientation: short_u8(&fields.orientation),
        camera_make: ascii_string(&fields.make),
        camera_model: ascii_string(&fields.model),
        lens_model: ascii_string(&fields.lens_model),
        aperture: ratio(&fields.f_number),
        shutter: shutter_string(&fields.exposure_time),
        iso: short_u32(&fields.sensitivity),
        focal_length: ratio(&fields.focal_length),
        gps_lat: gps_decimal(&fields.gps_latitude, &fields.gps_latitude_ref),
        gps_lon: gps_decimal(&fields.gps_longitude, &fields.gps_longitude_ref),
        gps_alt: gps_altitude(&fields.gps_altitude, &fields.gps_altitude_ref),
        color_space: color_space_string(&fields.color_space),
    }
}

/// Reads the EXIF facts of the file with the given bytes. Where the file has no
/// EXIF block, or an unreadable one, nothing is known and nothing fails.
pub fn extract_exif(bytes: &[u8]) -> (r: ExifInfo)
    ensures
        match container_entries(bytes@) {
            Some(entries) => states(r, wanted_fields(entries)),
            None => r.is_blank(),
        },
{
    match read_container(bytes) {
        Some(exif) => exif_info(&collect_fields(&exif)),
        None => ExifInfo::default(),
    }
}

} // verus!
