use image::{DynamicImage, GenericImageView, Rgba, RgbaImage};

use moments::editing::{
    crop_rect, filter_names, filter_preset, quarter_turns, CropRect, EditState, EditingService,
    PixelRect, QuarterTurns, Real,
};
use moments::error::LibraryError;
use moments::library::{
    check_original, embedded_edit, inject_failed, rendered_filename, serialize_failed, EditStep,
    Library,
    PreviousRendering, Rendering,
};
use moments::media::{MediaId, MediaItem, MediaRecord, MediaType};
use moments::mutation::Mutation;
use moments::render::{apply_transforms, turned_dimensions, Turn};

fn value(x: f64) -> Real {
    Real { bits: x.to_bits() }
}

fn number(r: Real) -> f64 {
    f64::from_bits(r.bits)
}

#[test]
fn editing_default_edit_state_is_identity() {
    let state = EditState::default();
    assert!(state.is_identity());
    assert_eq!(state.version, 1);
    assert_eq!(f64::from_bits(state.filter_strength.bits), 1.0);
}

#[test]
fn editing_modified_state_is_not_identity() {
    let mut state = EditState::default();
    state.exposure.brightness = value(0.5);
    assert!(!state.is_identity());
}

#[test]
fn editing_filter_only_is_not_identity() {
    let state = EditState {
        filter: Some("bw".to_string()),
        ..Default::default()
    };
    assert!(!state.is_identity());
}

#[test]
fn model_default_edit_state_is_identity() {
    let state = EditState::default();
    assert!(state.is_identity());
    assert_eq!(state.version, 1);
}

#[test]
fn model_modified_state_is_not_identity() {
    let mut state = EditState::default();
    state.exposure.brightness = value(0.5);
    assert!(!state.is_identity());
}

#[test]
fn model_filter_only_is_not_identity() {
    let state = EditState {
        filter: Some("bw".to_string()),
        ..Default::default()
    };
    assert!(!state.is_identity());
}

#[test]
fn every_adjustment_counts() {
    let mut states: Vec<EditState> = Vec::new();
    let with = |f: &dyn Fn(&mut EditState)| {
        let mut s = EditState::default();
        f(&mut s);
        s
    };
    states.push(with(&|s| s.transforms.rotate_degrees = 360));
    states.push(with(&|s| s.transforms.flip_vertical = true));
    states.push(with(&|s| s.transforms.straighten_degrees = value(0.1)));
    states.push(with(&|s| {
        s.transforms.crop = Some(CropRect {
            x: value(0.0),
            y: value(0.0),
            width: value(1.0),
            height: value(1.0),
        })
    }));
    states.push(with(&|s| s.exposure.white_balance = value(f64::NAN)));
    states.push(with(&|s| s.color.tint = value(-0.05)));
    states.push(with(&|s| s.detail.vignette = value(f64::MIN_POSITIVE)));
    for s in states {
        assert!(!s.is_identity(), "{s:?}");
    }
    let mut same = EditState::default();
    same.color.tint = value(-0.0);
    same.filter_strength = value(0.3);
    assert!(same.is_identity());
}

#[test]
fn save_with_real_edit_records_applied() {
    let mut state = EditState::default();
    state.exposure.brightness = value(0.5);
    assert!(matches!(
        EditingService::save_edit_state(&MediaId::new("photo-1".into()), &state),
        Mutation::AssetEditsApplied { ref id } if id.as_str() == "photo-1"
    ));
}

#[test]
fn save_with_identity_state_records_cleared() {
    assert!(matches!(
        EditingService::save_edit_state(&MediaId::new("photo-2".into()), &EditState::default()),
        Mutation::AssetEditsCleared { ref id } if id.as_str() == "photo-2"
    ));
}

#[test]
fn revert_records_cleared() {
    assert!(matches!(
        EditingService::revert_edits(&MediaId::new("photo-3".into())),
        Mutation::AssetEditsCleared { ref id } if id.as_str() == "photo-3"
    ));
}

// ── Geometry ─────────────────────────────────────────────────────────────────

fn turn(rotate_degrees: i32) -> Turn {
    Turn {
        rotate_degrees,
        flip_horizontal: false,
        flip_vertical: false,
    }
}

/// A picture whose every pixel is different.
fn numbered(w: u32, h: u32) -> DynamicImage {
    DynamicImage::ImageRgba8(RgbaImage::from_fn(w, h, |x, y| {
        Rgba([x as u8, y as u8, 7, 200])
    }))
}

fn origin(img: &DynamicImage, x: u32, y: u32) -> (u8, u8) {
    let p = img.get_pixel(x, y).0;
    assert_eq!((p[2], p[3]), (7, 200));
    (p[0], p[1])
}

#[test]
fn rotate_90_swaps_dimensions() {
    let img = DynamicImage::ImageRgba8(RgbaImage::new(4, 2));
    let result = apply_transforms(img, turn(90), None);
    assert_eq!(result.dimensions(), (2, 4));
}

#[test]
fn rotate_180_preserves_dimensions() {
    let img = DynamicImage::ImageRgba8(RgbaImage::new(4, 2));
    let result = apply_transforms(img, turn(180), None);
    assert_eq!(result.dimensions(), (4, 2));
}

#[test]
fn flip_horizontal() {
    let mut img = RgbaImage::new(2, 1);
    img.put_pixel(0, 0, Rgba([255, 0, 0, 255]));
    img.put_pixel(1, 0, Rgba([0, 255, 0, 255]));
    let result = apply_transforms(
        DynamicImage::ImageRgba8(img),
        Turn {
            flip_horizontal: true,
            ..turn(0)
        },
        None,
    );
    let rgba = result.as_rgba8().unwrap();
    assert_eq!(rgba.get_pixel(0, 0).0, [0, 255, 0, 255]);
    assert_eq!(rgba.get_pixel(1, 0).0, [255, 0, 0, 255]);
}

#[test]
fn crop_halves_image() {
    let img = DynamicImage::ImageRgba8(RgbaImage::new(100, 100));
    let result = apply_transforms(
        img,
        turn(0),
        Some(PixelRect {
            x: 0,
            y: 0,
            width: 50,
            height: 50,
        }),
    );
    assert_eq!(result.dimensions(), (50, 50));
}

#[test]
fn combined_edits_apply_in_order() {
    let img = DynamicImage::ImageRgba8(RgbaImage::new(100, 50));
    let size = turned_dimensions(&img, turn(90));
    assert_eq!(size, (50, 100));
    let result = apply_transforms(
        img,
        turn(90),
        Some(PixelRect {
            x: 0,
            y: 0,
            width: 25,
            height: 100,
        }),
    );
    assert_eq!(result.dimensions(), (25, 100));
}

#[test]
fn turns_move_every_pixel_to_its_place() {
    let (w, h) = (3u32, 2u32);
    let at = |degrees: i32, x: u32, y: u32| origin(&apply_transforms(numbered(w, h), turn(degrees), None), x, y);
    for x in 0..w {
        for y in 0..h {
            let p = (x as u8, y as u8);
            assert_eq!(at(0, x, y), p);
            assert_eq!(at(90, h - 1 - y, x), p);
            assert_eq!(at(-270, h - 1 - y, x), p);
            assert_eq!(at(180, w - 1 - x, h - 1 - y), p);
            assert_eq!(at(270, y, w - 1 - x), p);
            assert_eq!(at(-90, y, w - 1 - x), p);
            assert_eq!(at(45, x, y), p);
            let flipped = apply_transforms(
                numbered(w, h),
                Turn {
                    flip_vertical: true,
                    ..turn(0)
                },
                None,
            );
            assert_eq!(origin(&flipped, x, h - 1 - y), p);
        }
    }
    let cut = apply_transforms(
        numbered(w, h),
        turn(0),
        Some(PixelRect {
            x: 1,
            y: 1,
            width: 9,
            height: 9,
        }),
    );
    assert_eq!(cut.dimensions(), (2, 1));
    assert_eq!(origin(&cut, 0, 0), (1, 1));
    let nothing = apply_transforms(
        numbered(w, h),
        turn(0),
        Some(PixelRect {
            x: 3,
            y: 0,
            width: 1,
            height: 1,
        }),
    );
    assert_eq!(nothing.dimensions(), (3, 2));
    let gray = DynamicImage::new_luma16(3, 2);
    let turned = apply_transforms(
        gray,
        Turn { rotate_degrees: 90, flip_horizontal: true, flip_vertical: true },
        Some(PixelRect { x: 0, y: 0, width: 1, height: 1 }),
    );
    assert_eq!(turned.color(), image::ColorType::L16);
}

#[test]
fn angles_become_quarter_turns() {
    for (degrees, turns) in [
        (0, QuarterTurns::Zero),
        (90, QuarterTurns::One),
        (450, QuarterTurns::One),
        (-90, QuarterTurns::Three),
        (180, QuarterTurns::Two),
        (-180, QuarterTurns::Two),
        (89, QuarterTurns::Zero),
    ] {
        assert_eq!(quarter_turns(degrees), turns, "{degrees}");
    }
    for degrees in [i32::MIN, i32::MAX, -1, 719] {
        let expected = match degrees.rem_euclid(360) {
            90 => QuarterTurns::One,
            180 => QuarterTurns::Two,
            270 => QuarterTurns::Three,
            _ => QuarterTurns::Zero,
        };
        assert_eq!(quarter_turns(degrees), expected);
    }
    let whole = PixelRect {
        x: 0,
        y: 0,
        width: u32::MAX,
        height: u32::MAX,
    };
    assert_eq!(
        crop_rect(whole, 10, 20),
        Some(PixelRect {
            x: 0,
            y: 0,
            width: 10,
            height: 20
        })
    );
    assert_eq!(crop_rect(PixelRect { x: 11, ..whole }, 10, 20), None);
}

// ── Presets ──────────────────────────────────────────────────────────────────

#[test]
fn bw_filter_desaturates() {
    let preset = filter_preset("bw").unwrap();
    assert_eq!(number(preset.color.saturation), -1.0);
    assert_eq!(preset.filter, Some("bw".to_string()));
    assert_eq!(number(preset.exposure.contrast), 0.1);
    assert_eq!(number(preset.filter_strength), 1.0);
    assert_eq!(preset.version, 1);
    assert!(preset.transforms.crop.is_none() && preset.transforms.rotate_degrees == 0);
}

#[test]
fn all_filter_presets_are_valid() {
    for name in filter_names() {
        let preset = filter_preset(name);
        assert!(preset.is_some(), "filter '{name}' should exist");
        assert!(!preset.unwrap().is_identity(), "filter '{name}' should not be identity");
    }
    assert_eq!(filter_names().len(), 6);
    for (name, brightness, contrast, saturation, vibrance, temperature) in [
        ("bw", 0.0, 0.1, -1.0, 0.0, 0.0),
        ("vintage", 0.05, -0.1, -0.3, 0.0, 0.3),
        ("warm", 0.0, 0.0, 0.1, 0.0, 0.4),
        ("cool", 0.0, 0.0, 0.1, 0.0, -0.4),
        ("vivid", 0.0, 0.15, 0.5, 0.3, 0.0),
        ("fade", 0.1, -0.2, -0.2, 0.0, 0.0),
    ] {
        let s = filter_preset(name).unwrap();
        assert_eq!(number(s.exposure.brightness), brightness, "{name}");
        assert_eq!(number(s.exposure.contrast), contrast, "{name}");
        assert_eq!(number(s.color.saturation), saturation, "{name}");
        assert_eq!(number(s.color.vibrance), vibrance, "{name}");
        assert_eq!(number(s.color.temperature), temperature, "{name}");
        assert_eq!(number(s.color.tint), 0.0, "{name}");
        assert_eq!(number(s.detail.vignette), 0.0, "{name}");
    }
}

#[test]
fn unknown_filter_returns_none() {
    assert!(filter_preset("nonexistent").is_none());
}

// ── Saving and reverting ─────────────────────────────────────────────────────

fn original(external_id: Option<&str>, content_hash: Option<&str>) -> MediaRecord {
    MediaRecord {
        id: MediaId::new("orig".to_string()),
        content_hash: content_hash.map(str::to_string),
        external_id: external_id.map(str::to_string),
        relative_path: "2025/01/15/photo.jpg".to_string(),
        original_filename: "photo.jpg".to_string(),
        file_size: 1024,
        imported_at: 1_700_000_000,
        media_type: MediaType::Image,
        taken_at: Some(5000),
        width: Some(40),
        height: Some(30),
        orientation: 6,
        duration_ms: None,
        is_favorite: true,
        is_trashed: false,
        trashed_at: None,
        is_moments_render: false,
    }
}

fn rendered_item(stack_id: Option<&str>) -> MediaItem {
    MediaItem {
        id: MediaId::new("prev".to_string()),
        taken_at: None,
        imported_at: 0,
        original_filename: "photo-edit.jpg".to_string(),
        width: None,
        height: None,
        orientation: 1,
        media_type: MediaType::Image,
        is_favorite: false,
        is_trashed: false,
        trashed_at: None,
        duration_ms: None,
        stack_id: stack_id.map(str::to_string),
        is_moments_render: true,
    }
}

fn rendering() -> Rendering {
    Rendering {
        id: MediaId::new("rend".to_string()),
        relative_path: "re/nd/rend".to_string(),
        file_size: 77,
        now: 123,
    }
}

fn names(steps: &[EditStep]) -> Vec<String> {
    steps
        .iter()
        .map(|s| match s {
            EditStep::Record(Mutation::StackMemberRemoved { stack_id, asset_id }) => {
                format!("unstack {stack_id} {}", asset_id.as_str())
            }
            EditStep::Record(Mutation::AssetUntaggedMomentsEdit { id }) => {
                format!("untag {}", id.as_str())
            }
            EditStep::Record(Mutation::StackCreated {
                rendered_asset_id,
                original_asset_id,
            }) => format!("stack {} {}", rendered_asset_id.as_str(), original_asset_id.as_str()),
            EditStep::Record(Mutation::AssetTaggedMomentsEdit { id }) => format!("tag {}", id.as_str()),
            EditStep::Record(Mutation::AssetEditsCleared { id }) => format!("clear {}", id.as_str()),
            EditStep::Record(other) => format!("{other:?}"),
            EditStep::DeletePermanently(id) => format!("delete {}", id.as_str()),
            EditStep::InsertMedia(r) => format!("insert {}", r.id.as_str()),
            EditStep::StoreEditState => "store".to_string(),
            EditStep::DeleteEditState => "forget".to_string(),
            EditStep::SetRendered(id) => format!("point {}", id.as_str()),
        })
        .collect()
}

#[test]
fn save_pixel_edit_requires_original_to_be_synced() {
    let id = MediaId::new("orig".to_string());
    let text = |o: Option<MediaRecord>| check_original(&id, &o).unwrap_err().to_string();
    assert_eq!(
        text(None),
        "runtime error: save_pixel_edit: original orig not found"
    );
    assert_eq!(
        text(Some(original(None, Some("h")))),
        "runtime error: save_pixel_edit: original orig has not been uploaded yet"
    );
    assert_eq!(
        text(Some(original(Some("srv"), None))),
        "runtime error: save_pixel_edit: original orig has no content_hash — can't embed Phase D recovery fallback"
    );
    let ok = check_original(&id, &Some(original(Some("srv"), Some("h")))).unwrap();
    assert_eq!((ok.external_id.as_str(), ok.content_hash.as_str()), ("srv", "h"));
    for refused in [None, Some(original(None, Some("h"))), Some(original(Some("srv"), None))] {
        let e = Library::save_pixel_edit(&id, &refused, rendering(), None).unwrap_err();
        assert_eq!(e.to_string(), text(refused));
    }
    let block = embedded_edit(ok, "{}".to_string());
    assert_eq!(block.original_asset_id, "srv");
    assert_eq!(block.original_content_hash, "h");
    assert_eq!((block.edit_version, block.edit_json.as_str()), (1, "{}"));
    assert!(matches!(serialize_failed("x"), LibraryError::Runtime(ref m) if m == "serialize EditState: x"));
    assert!(matches!(inject_failed("x"), LibraryError::Runtime(ref m) if m == "inject XMP: x"));
}

#[test]
fn save_pixel_edit_writes_render_inserts_row_and_records_mutations() {
    let id = MediaId::new("orig".to_string());
    let synced = Some(original(Some("srv"), Some("h")));
    let steps = Library::save_pixel_edit(&id, &synced, rendering(), None).unwrap();
    assert_eq!(
        names(&steps),
        vec!["insert rend", "store", "point rend", "stack rend orig", "tag rend"]
    );
    match &steps[0] {
        EditStep::InsertMedia(r) => {
            assert_eq!(r.original_filename, "photo-edit.jpg");
            assert_eq!(r.relative_path, "re/nd/rend");
            assert_eq!(r.file_size, 77);
            assert_eq!(r.imported_at, 123);
            assert_eq!((r.taken_at, r.width, r.height), (Some(5000), Some(40), Some(30)));
            assert_eq!(r.orientation, 1);
            assert!(r.is_moments_render && !r.is_favorite);
            assert!(r.external_id.is_none() && r.content_hash.is_none());
        }
        _ => panic!("no insertion"),
    }
    let previous = Some(PreviousRendering {
        id: MediaId::new("prev".to_string()),
        item: Some(rendered_item(Some("s1"))),
    });
    let steps = Library::save_pixel_edit(&id, &synced, rendering(), previous).unwrap();
    assert_eq!(
        names(&steps),
        vec![
            "unstack s1 prev", "untag prev", "delete prev", "insert rend", "store", "point rend",
            "stack rend orig", "tag rend"
        ]
    );
}

#[test]
fn revert_edit_clears_state_and_enqueues_rendered_cleanup() {
    let id = MediaId::new("orig".to_string());
    let previous = |item| {
        Some(PreviousRendering {
            id: MediaId::new("prev".to_string()),
            item,
        })
    };
    assert_eq!(
        names(&Library::revert_edit(&id, previous(Some(rendered_item(Some("s1")))))),
        vec!["unstack s1 prev", "untag prev", "forget", "delete prev", "clear orig"]
    );
    assert_eq!(
        names(&Library::revert_edit(&id, previous(Some(rendered_item(None))))),
        vec!["untag prev", "forget", "delete prev", "clear orig"]
    );
    assert_eq!(
        names(&Library::revert_edit(&id, previous(None))),
        vec!["untag prev", "forget", "delete prev", "clear orig"]
    );
    assert_eq!(names(&Library::revert_edit(&id, None)), vec!["forget", "clear orig"]);
}

#[test]
fn rendered_names() {
    assert_eq!(rendered_filename("IMG_1.CR2"), "IMG_1-edit.jpg");
    assert_eq!(rendered_filename("noext"), "noext-edit.jpg");
    assert_eq!(rendered_filename(""), "photo-edit.jpg");
    assert_eq!(rendered_filename(".."), "photo-edit.jpg");
}

#[test]
fn cleanup_takes_originals_then_thumbnails() {
    let files = Library::cleanup_files(
        &vec![(MediaId::new("a".to_string()), "/o/a".to_string())],
        &vec!["/t/a".to_string(), "/t/b".to_string()],
    );
    assert_eq!(files, vec!["/o/a", "/t/a", "/t/b"]);
}
