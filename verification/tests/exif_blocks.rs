use moments::exif::{
    exif_info, extract_exif, gcd, parse_exif_datetime, parse_tz_offset, shutter_string, ExifFields,
    FieldValue, GpsAltitude, GpsCoordinate, ShutterSpeed,
};
use moments::text::{
    ascii_lowercase, decimal, parse_i64, signed_decimal, trim, trim_end_char, white_space,
};

/// One directory entry: tag, type, count and the bytes of its value.
struct Entry(u16, u16, u32, Vec<u8>);

fn ascii(tag: u16, s: &str) -> Entry {
    let mut bytes = s.as_bytes().to_vec();
    bytes.push(0);
    Entry(tag, 2, bytes.len() as u32, bytes)
}

fn short(tag: u16, n: u16) -> Entry {
    Entry(tag, 3, 1, n.to_le_bytes().to_vec())
}

fn long(tag: u16, n: u32) -> Entry {
    Entry(tag, 4, 1, n.to_le_bytes().to_vec())
}

fn rationals(tag: u16, v: &[(u32, u32)]) -> Entry {
    let mut bytes = Vec::new();
    for (n, d) in v {
        bytes.extend_from_slice(&n.to_le_bytes());
        bytes.extend_from_slice(&d.to_le_bytes());
    }
    Entry(tag, 5, v.len() as u32, bytes)
}

fn byte(tag: u16, n: u8) -> Entry {
    Entry(tag, 1, 1, vec![n])
}

fn directory(at: usize, entries: &[Entry], next: u32) -> Vec<u8> {
    let mut head = (entries.len() as u16).to_le_bytes().to_vec();
    let data_at = at + 2 + entries.len() * 12 + 4;
    let mut data: Vec<u8> = Vec::new();
    for Entry(tag, kind, count, value) in entries {
        head.extend_from_slice(&tag.to_le_bytes());
        head.extend_from_slice(&kind.to_le_bytes());
        head.extend_from_slice(&count.to_le_bytes());
        if value.len() <= 4 {
            let mut v = value.clone();
            v.resize(4, 0);
            head.extend_from_slice(&v);
        } else {
            head.extend_from_slice(&((data_at + data.len()) as u32).to_le_bytes());
            data.extend_from_slice(value);
        }
    }
    head.extend_from_slice(&next.to_le_bytes());
    head.extend_from_slice(&data);
    head
}

/// A little-endian TIFF file with a primary, an EXIF, a GPS and a thumbnail directory.
fn tiff(mut primary: Vec<Entry>, exif: &[Entry], gps: &[Entry], thumbnail: &[Entry]) -> Vec<u8> {
    let size = |entries: &[Entry]| {
        2 + entries.len() * 12
            + 4
            + entries
                .iter()
                .map(|e| if e.3.len() > 4 { e.3.len() } else { 0 })
                .sum::<usize>()
    };
    primary.push(long(0x8769, 0));
    primary.push(long(0x8825, 0));
    let exif_at = 8 + size(&primary);
    let gps_at = exif_at + size(exif);
    let thumb_at = gps_at + size(gps);
    let n = primary.len();
    primary[n - 2] = long(0x8769, exif_at as u32);
    primary[n - 1] = long(0x8825, gps_at as u32);
    let mut out = b"II*\0".to_vec();
    out.extend_from_slice(&8u32.to_le_bytes());
    out.extend_from_slice(&directory(8, &primary, thumb_at as u32));
    out.extend_from_slice(&directory(exif_at, exif, 0));
    out.extend_from_slice(&directory(gps_at, gps, 0));
    out.extend_from_slice(&directory(thumb_at, thumbnail, 0));
    out
}

#[test]
fn extract_exif_on_non_image_returns_default() {
    let info = extract_exif(b"not an image");
    assert!(info.captured_at.is_none());
    assert!(info.width.is_none());
    assert!(info.camera_make.is_none());
}

#[test]
fn extract_exif_reads_a_whole_block() {
    let bytes = tiff(
        vec![
            long(0x100, 10),
            ascii(0x10f, "  Canon "),
            ascii(0x110, ""),
            short(0x112, 6),
            ascii(0x132, "2020:01:01 00:00:00"),
        ],
        &[
            rationals(0x829a, &[(10, 5000)]),
            rationals(0x829d, &[(28, 10)]),
            short(0x8827, 400),
            ascii(0x9003, "2024:06:15 18:04:05"),
            ascii(0x9011, "-05:30"),
            rationals(0x920a, &[(50, 0)]),
            short(0xa001, 1),
            short(0xa002, 4000),
        ],
        &[
            ascii(1, "S"),
            rationals(2, &[(33, 1), (52, 1), (10, 1)]),
            ascii(3, "E"),
            rationals(4, &[(151, 1), (12, 1), (0, 0)]),
            byte(5, 1),
            rationals(6, &[(35, 2)]),
        ],
        &[long(0x101, 20)],
    );
    let info = extract_exif(&bytes);
    assert_eq!(info.captured_at, Some(1_718_474_645));
    assert_eq!(info.captured_at_tz, Some(-330));
    assert_eq!(info.width, Some(4000));
    assert_eq!(info.height, Some(20));
    assert_eq!(info.orientation, Some(6));
    assert_eq!(info.camera_make.as_deref(), Some("Canon"));
    assert_eq!(info.camera_model, None);
    assert_eq!(info.lens_model, None);
    assert_eq!(info.aperture, Some((28, 10)));
    assert!(matches!(info.shutter, Some(ShutterSpeed::Fraction(ref s)) if s == "1/500"));
    assert_eq!(info.iso, Some(400));
    assert_eq!(info.focal_length, None);
    assert_eq!(
        info.gps_lat,
        Some(GpsCoordinate {
            degrees: (33, 1),
            minutes: (52, 1),
            seconds: (10, 1),
            negative: true
        })
    );
    assert!(matches!(info.gps_lon, Some(c) if !c.negative && c.seconds == (0, 0)));
    assert_eq!(
        info.gps_alt,
        Some(GpsAltitude {
            metres: (35, 2),
            below_sea_level: true
        })
    );
    assert_eq!(info.color_space.as_deref(), Some("sRGB"));
}

fn no_fields() -> ExifFields {
    ExifFields {
        image_width: None,
        image_length: None,
        make: None,
        model: None,
        orientation: None,
        date_time: None,
        exposure_time: None,
        f_number: None,
        sensitivity: None,
        date_time_original: None,
        offset_time: None,
        offset_time_original: None,
        focal_length: None,
        color_space: None,
        pixel_x_dimension: None,
        pixel_y_dimension: None,
        lens_model: None,
        gps_latitude_ref: None,
        gps_latitude: None,
        gps_longitude_ref: None,
        gps_longitude: None,
        gps_altitude_ref: None,
        gps_altitude: None,
    }
}

#[test]
fn capture_times_ignore_offsets() {
    let ascii = |s: &str| Some(FieldValue::Ascii(vec![s.as_bytes().to_vec()]));
    for (offset, minutes) in [(None, None), (ascii("+10:00"), Some(600)), (ascii("-00:30"), Some(-30))] {
        let info = exif_info(&ExifFields {
            date_time_original: ascii("2024:06:15 18:04:05"),
            date_time: ascii("1999:01:01 00:00:00"),
            offset_time_original: offset,
            ..no_fields()
        });
        assert_eq!(info.captured_at, Some(1_718_474_645));
        assert_eq!(info.captured_at_tz, minutes);
    }
}

#[test]
fn facts_follow_their_fields() {
    let info = exif_info(&ExifFields {
        image_width: Some(FieldValue::Rational(vec![(7, 2)])),
        image_length: Some(FieldValue::Rational(vec![(7, 0)])),
        orientation: Some(FieldValue::Short(vec![0x0103])),
        date_time: Some(FieldValue::Ascii(vec![b"2024:06:15 18:04:05\0\0".to_vec()])),
        exposure_time: Some(FieldValue::Rational(vec![(5, 2)])),
        sensitivity: Some(FieldValue::Long(vec![102_400])),
        color_space: Some(FieldValue::Short(vec![0xFFFF])),
        gps_altitude: Some(FieldValue::Rational(vec![(1, 1)])),
        gps_latitude: Some(FieldValue::Rational(vec![(1, 1), (2, 1)])),
        gps_latitude_ref: Some(FieldValue::Ascii(vec![b"N".to_vec()])),
        ..no_fields()
    });
    assert_eq!(info.width, Some(3));
    assert_eq!(info.height, Some(0));
    assert_eq!(info.orientation, Some(3));
    assert_eq!(info.captured_at, Some(1_718_474_645));
    assert!(matches!(
        info.shutter,
        Some(ShutterSpeed::Seconds { num: 5, denom: 2 })
    ));
    assert_eq!(info.iso, Some(102_400));
    assert_eq!(info.color_space.as_deref(), Some("Uncalibrated"));
    assert!(matches!(info.gps_alt, Some(a) if !a.below_sea_level));
    assert_eq!(info.gps_lat, None);
    let blank = exif_info(&no_fields());
    assert!(blank.captured_at.is_none() && blank.shutter.is_none() && blank.color_space.is_none());
    let numbered = exif_info(&ExifFields {
        color_space: Some(FieldValue::Short(vec![2])),
        ..no_fields()
    });
    assert_eq!(numbered.color_space.as_deref(), Some("2"));
}

#[test]
fn shutter_string_sub_second() {
    assert_eq!(gcd(10, 5000), 10);
    let g = gcd(10, 5000);
    assert_eq!(10 / g, 1);
    assert_eq!(5000 / g, 500);
    let shown = |n, d| shutter_string(&Some(FieldValue::Rational(vec![(n, d)])));
    assert!(matches!(shown(10, 5000), Some(ShutterSpeed::Fraction(ref s)) if s == "1/500"));
    assert!(matches!(shown(4, 10), Some(ShutterSpeed::Fraction(ref s)) if s == "2/5"));
    assert!(matches!(shown(0, 10), Some(ShutterSpeed::Fraction(ref s)) if s == "0/1"));
    assert!(shown(1, 0).is_none());
}

#[test]
fn gcd_values() {
    assert_eq!(gcd(0, 5), 5);
    assert_eq!(gcd(12, 8), 4);
    assert_eq!(gcd(1, 500), 1);
}

#[test]
fn parse_exif_datetime_keeps_wall_clock() {
    let ts = parse_exif_datetime("2024:06:15 18:04:05").unwrap();
    let dt = chrono::DateTime::<chrono::Utc>::from_timestamp(ts, 0).unwrap();
    assert_eq!(
        dt.format("%Y-%m-%d %H:%M:%S").to_string(),
        "2024-06-15 18:04:05"
    );
}

#[test]
fn parse_exif_datetime_rejects_garbage() {
    assert!(parse_exif_datetime("").is_none());
    assert!(parse_exif_datetime("2024-06-15T18:04:05Z").is_none());
}

#[test]
fn parse_tz_offset_signs_and_minutes() {
    assert_eq!(parse_tz_offset("+10:00"), Some(600));
    assert_eq!(parse_tz_offset("-05:30"), Some(-330));
    assert_eq!(parse_tz_offset("+00:00"), Some(0));
    // Some cameras omit the minutes component.
    assert_eq!(parse_tz_offset("+09"), Some(540));
}

#[test]
fn parse_tz_offset_rejects_garbage() {
    assert!(parse_tz_offset("").is_none());
    assert!(parse_tz_offset("Z").is_none());
}

#[test]
fn parse_tz_offset_edges() {
    assert_eq!(parse_tz_offset(" 05 : 30 "), Some(330));
    assert_eq!(parse_tz_offset("+05:xx"), Some(300));
    assert_eq!(parse_tz_offset("--5"), Some(-300));
    assert_eq!(parse_tz_offset("-00:30"), Some(-30));
    assert_eq!(parse_tz_offset("+9223372036854775807:00"), None);
}

#[test]
fn numbers_read_and_write() {
    for n in [0u64, 7, 10, 99, 100, 12_345, u64::MAX] {
        assert_eq!(decimal(n), n.to_string());
    }
    for n in [0i64, -1, 42, i64::MIN, i64::MAX] {
        assert_eq!(signed_decimal(n), n.to_string());
        assert_eq!(parse_i64(&n.to_string()), Some(n));
    }
    for s in [
        "", "+", "-", "+7", "-0", "007", "1a", " 1", "--1", "9223372036854775808",
        "-9223372036854775809", "99999999999999999999999999999999999999999999",
    ] {
        assert_eq!(parse_i64(s), s.parse::<i64>().ok(), "{s}");
    }
}

#[test]
fn text_is_trimmed_and_folded_like_std_does() {
    for c in (0..=0x10FFFFu32).filter_map(char::from_u32) {
        assert_eq!(white_space(c), c.is_whitespace(), "{:x}", c as u32);
    }
    for s in ["", "  ", " a b ", "\u{a0}x\u{2003}", "\0x\0"] {
        assert_eq!(trim(s), s.trim());
        assert_eq!(trim_end_char(s, '\0'), s.trim_end_matches('\0'));
        assert_eq!(ascii_lowercase(s), s.to_ascii_lowercase());
    }
    assert_eq!(ascii_lowercase("MOV.Ä9"), "mov.Ä9");
}
