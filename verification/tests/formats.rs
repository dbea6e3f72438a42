use image::GenericImageView;

use moments::error::LibraryError;
use moments::format::raw::{RawPicture, RawReply, RawState};
use moments::format::video::{poster_error, poster_image, poster_pipeline, PosterFault};
use moments::format::{
    detect_format, DetectedFormat, FormatRegistry, RawHandler, StandardHandler, VideoHandler,
};
use moments::importer::SourceFile;
use moments::media::MediaType;
use moments::path::{file_name, join_path, split_extension};

fn with_fake() -> FormatRegistry {
    FormatRegistry::new().register(&vec!["fake"], 0)
}

#[test]
fn raw_extensions_are_lowercase() {
    for ext in RawHandler.extensions() {
        assert_eq!(*ext, ext.to_lowercase(), "extension {ext:?} is not lowercase");
    }
}

#[test]
fn extensions_include_common_raw_formats() {
    let exts = RawHandler.extensions();
    for expected in &["cr2", "nef", "arw", "dng", "raf", "rw2", "orf"] {
        assert!(exts.contains(expected), "missing extension: {expected}");
    }
    assert_eq!(exts.len(), 29);
}

#[test]
fn standard_extensions_are_lowercase() {
    for ext in StandardHandler.extensions() {
        assert_eq!(*ext, ext.to_lowercase());
    }
}

#[test]
fn extensions_include_heif_formats() {
    let exts = StandardHandler.extensions();
    assert!(exts.contains(&"heic"));
    assert!(exts.contains(&"heif"));
}

#[test]
fn media_type_returns_some_for_registered_extension() {
    let reg = with_fake();
    assert!(reg.media_type("fake").is_some());
    assert!(reg.media_type("jpg").is_none());
}

#[test]
fn supported_extensions_includes_all_registered() {
    let reg = with_fake();
    let exts = reg.supported_extensions();
    assert!(exts.contains(&"fake".to_string()));
    let all = with_fake()
        .register(&StandardHandler.extensions(), 1)
        .register(&RawHandler.extensions(), 2)
        .register(&VideoHandler.extensions(), 3)
        .supported_extensions();
    assert_eq!(all.len(), 1 + 8 + 29 + 9);
}

#[test]
fn decode_returns_error_for_unknown_extension() {
    let reg = FormatRegistry::new();
    let source = SourceFile::from_path("photo.jpg".to_string());
    let err = reg.decode(&source).unwrap_err();
    assert!(matches!(err, LibraryError::Thumbnail(ref m) if m == "no handler registered for .jpg"));
    let reg = reg.register(&StandardHandler.extensions(), 7);
    assert_eq!(reg.decode(&SourceFile::from_path("a/PHOTO.JPG".to_string())).unwrap(), 7);
}

#[test]
fn is_video_recognises_common_formats() {
    let reg = FormatRegistry::new();
    assert!(reg.is_video("mp4"));
    assert!(reg.is_video("MOV"));
    assert!(reg.is_video("mkv"));
    assert!(!reg.is_video("jpg"));
    assert!(!reg.is_video("unknown"));
}

#[test]
fn media_type_returns_correct_type() {
    let reg = with_fake();
    assert_eq!(reg.media_type("fake"), Some(MediaType::Image));
    assert_eq!(reg.media_type("mp4"), Some(MediaType::Video));
    assert_eq!(reg.media_type("unknown"), None);
}

#[test]
fn media_type_with_sniff_overrides_extension() {
    let reg = with_fake();
    let detected = detect_format(b"\x00\x00\x00\x18ftypisom");
    assert_eq!(
        reg.media_type_with_sniff(Some(detected), "fake"),
        Some(MediaType::Video),
    );
    assert_eq!(
        reg.media_type_with_sniff(Some(detect_format(b"\xff\xd8\xff\xe0")), "mp4"),
        Some(MediaType::Image),
    );
}

#[test]
fn media_type_with_sniff_falls_back_for_unknown_content() {
    let reg = with_fake();
    let detected = detect_format(&[0x00, 0x01, 0x02, 0x03, 0x04, 0x05]);
    assert_eq!(
        reg.media_type_with_sniff(Some(detected), "fake"),
        Some(MediaType::Image),
    );
    assert_eq!(reg.media_type_with_sniff(None, "fake"), Some(MediaType::Image));
    assert_eq!(reg.media_type_with_sniff(None, "txt"), None);
}

#[test]
fn formats_are_told_by_their_first_bytes() {
    for (bytes, format) in [
        (&b"\x89PNG\r\n\x1a\n"[..], DetectedFormat::Image),
        (b"RIFF\x00\x00\x00\x00WEBP", DetectedFormat::Image),
        (b"\x00\x00\x00\x18ftypheic", DetectedFormat::Image),
        (b"\x00\x00\x00\x14ftypqt  ", DetectedFormat::Video),
        (b"\x1a\x45\xdf\xa3", DetectedFormat::Video),
        (b"RIFF\x00\x00\x00\x00AVI ", DetectedFormat::Video),
        (b"RIFF\x00\x00\x00\x00WAVE", DetectedFormat::Unknown),
        (b"\x00\x00\x00\x18ftypcrx ", DetectedFormat::Unknown),
        (b"II*\x00\x08\x00\x00\x00", DetectedFormat::Unknown),
        (b"\xff\xd8", DetectedFormat::Unknown),
        (b"", DetectedFormat::Unknown),
    ] {
        assert_eq!(detect_format(bytes), format, "{bytes:?}");
    }
}

#[test]
fn pictures_are_decoded_from_their_bytes() {
    let mut png = Vec::new();
    image::RgbImage::from_pixel(3, 2, image::Rgb([7, 8, 9]))
        .write_to(&mut std::io::Cursor::new(&mut png), image::ImageFormat::Png)
        .unwrap();
    let img = StandardHandler.decode(&png, "jpg").unwrap();
    assert_eq!(img.dimensions(), (3, 2));
    assert_eq!(img.get_pixel(2, 1).0, [7, 8, 9, 255]);
    assert!(matches!(
        StandardHandler.decode(b"not a picture", "jpg").unwrap_err(),
        LibraryError::Thumbnail(_)
    ));
    assert!(matches!(
        StandardHandler.decode(b"not a picture", "xyz").unwrap_err(),
        LibraryError::Thumbnail(ref m) if m.contains("format")
    ));
    assert!(matches!(
        StandardHandler::decoded(Err("bad".to_string())).unwrap_err(),
        LibraryError::Thumbnail(ref m) if m == "bad"
    ));
}

#[test]
fn failed_decodings_are_failed_thumbnails() {
    let img = image::DynamicImage::new_rgb8(1, 1);
    assert_eq!(FormatRegistry::report(Ok(img.clone())).unwrap(), img);
    let told = |e| match FormatRegistry::report(Err(e)).unwrap_err() {
        LibraryError::Thumbnail(m) => m,
        other => panic!("{other:?}"),
    };
    assert_eq!(told(LibraryError::Thumbnail("no frame".to_string())), "no frame");
    assert_eq!(told(LibraryError::Io("gone".to_string())), "I/O error: gone");
}

#[test]
fn handlers_claim_different_extensions() {
    let mut all = StandardHandler.extensions();
    all.extend(RawHandler.extensions());
    all.extend(VideoHandler.extensions());
    let n = all.len();
    all.sort();
    all.dedup();
    assert_eq!(all.len(), n);
}

#[test]
fn last_registered_handler_wins() {
    let reg = with_fake().register(&vec!["other", "fake"], 5);
    assert_eq!(reg.handler_for("fake"), Some(5));
    assert_eq!(reg.handler_for("other"), Some(5));
    assert_eq!(reg.handler_for("FAKE"), None);
    assert_eq!(reg.supported_extensions().len(), 2);
}

fn run_raw(full_res: bool, present: &[RawPicture]) -> (Vec<RawPicture>, RawState) {
    let mut asked = Vec::new();
    let mut state = if full_res {
        RawHandler.decode_full_res()
    } else {
        RawHandler.decode()
    };
    while let RawState::Try(p) = state {
        asked.push(p);
        let reply = if present.contains(&p) {
            RawReply::Found(image::DynamicImage::new_rgb8(p as u32 + 1, 1))
        } else {
            RawReply::Missing
        };
        state = RawHandler.advance(p, full_res, reply);
    }
    (asked, state)
}

#[test]
fn raw_pictures_are_tried_in_order() {
    let (full, preview, thumbnail) = (RawPicture::Full, RawPicture::Preview, RawPicture::Thumbnail);
    let (asked, end) = run_raw(false, &[]);
    assert_eq!(asked, vec![thumbnail, preview]);
    assert!(matches!(end, RawState::Failed(LibraryError::Thumbnail(ref m))
        if m == "RAW decoder returned no image"));
    let (asked, end) = run_raw(true, &[]);
    assert_eq!(asked, vec![full, preview, thumbnail]);
    assert!(matches!(end, RawState::Failed(_)));
    let (asked, end) = run_raw(false, &[preview, full]);
    assert_eq!(asked, vec![thumbnail, preview]);
    assert!(matches!(end, RawState::Decoded(ref img) if img.width() == preview as u32 + 1));
    let (asked, end) = run_raw(false, &[thumbnail, preview, full]);
    assert_eq!(asked, vec![thumbnail]);
    assert!(matches!(end, RawState::Decoded(ref img) if img.width() == thumbnail as u32 + 1));
    let (asked, _) = run_raw(false, &[full]);
    assert_eq!(asked, vec![thumbnail, preview]);
    let failed = RawHandler.advance(preview, true, RawReply::Failed("bad".to_string()));
    assert!(matches!(failed, RawState::Failed(LibraryError::Thumbnail(ref m))
        if m == "RAW preview extraction failed: bad"));
    assert_eq!(
        RawHandler::open_failed("x").to_string(),
        "thumbnail error: failed to open RAW file: x"
    );
    assert_eq!(
        RawHandler::no_decoder("x").to_string(),
        "thumbnail error: no RAW decoder for file: x"
    );
}

#[test]
fn poster_frames() {
    assert_eq!(
        poster_pipeline("/v/a.mp4"),
        "uridecodebin uri=file:///v/a.mp4 ! videoconvert ! video/x-raw,format=RGB ! appsink name=sink"
    );
    let poster = poster_image(4, 2, (0..25).collect()).unwrap();
    assert_eq!(poster.dimensions(), (4, 2));
    assert_eq!(poster.color(), image::ColorType::Rgb8);
    assert_eq!(poster.get_pixel(1, 1).0, [15, 16, 17, 255]);
    assert!(poster_image(4, 2, vec![0; 24]).is_ok());
    assert_eq!(
        poster_image(4, 2, vec![0; 23]).unwrap_err().to_string(),
        "thumbnail error: RGB buffer size mismatch: 4x2 expected 24 bytes, got 23"
    );
    assert_eq!(
        poster_error(PosterFault::Start, "busy").to_string(),
        "thumbnail error: failed to start pipeline: busy"
    );
    assert_eq!(
        poster_error(PosterFault::NoFrame, "").to_string(),
        "thumbnail error: no frame decoded from video"
    );
}

#[test]
fn names_split_like_paths_do() {
    for name in [
        "photo.jpg", "archive.tar.gz", ".bashrc", "noext", "trailing.", "a.b", ".a.b", "...", "..x",
    ] {
        let p = std::path::Path::new(name);
        let (stem, ext) = split_extension(name);
        assert_eq!(Some(stem.as_str()), p.file_stem().and_then(|s| s.to_str()), "{name}");
        assert_eq!(ext.as_deref(), p.extension().and_then(|s| s.to_str()), "{name}");
    }
    for path in [
        "/a/b.jpg", "b", "a/", "a/.", "a/./", "./", ".", "..", "a/..", "/", "", "a//b//", "./x", "a/.b",
    ] {
        assert_eq!(
            file_name(path).as_deref(),
            std::path::Path::new(path).file_name().and_then(|s| s.to_str()),
            "{path}"
        );
    }
    for (a, b) in [("a", "b"), ("a/", "b"), ("", "b"), ("a", "/b"), ("a", "")] {
        assert_eq!(
            join_path(a, b),
            std::path::Path::new(a).join(b).to_str().unwrap(),
            "{a} {b}"
        );
    }
}
