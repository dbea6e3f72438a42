//! Edits of photos: their state and its bookkeeping, the geometry that they ask for, and
//! the presets that they can start from.

use vstd::prelude::*;

use crate::media::MediaId;
use crate::mutation::Mutation;
use crate::sql::meaning::{says};
use crate::sql::orders;
use crate::sql::{num, sql, text, PartData, Statement};
use crate::text::text_eq;

verus! {

// ── Edit states ──────────────────────────────────────────────────────────────

/// A double-precision number, by its IEEE 754 bits. Only whether it is zero matters here;
/// the renderer computes with it.
#[derive(Debug, Clone, Copy, PartialEq, Eq, Structural)]
pub struct Real {
    pub bits: u64,
}

impl Real {
    /// Whether the number is zero. Zero has two forms, one for each sign.
    pub open spec fn zero(self) -> bool {
        self.bits == 0 || self.bits == 0x8000_0000_0000_0000
    }

    /// Whether the number is zero.
    pub fn is_zero(self) -> (r: bool)
        ensures
            r == self.zero(),
    {
        self.bits == 0 || self.bits == 0x8000_0000_0000_0000
    }
}

/// The bits of the number 0.
pub const ZERO_BITS: u64 = 0;

/// The bits of the number 1.
pub const ONE_BITS: u64 = 0x3FF0_0000_0000_0000;

/// A crop in fractions of the image's size, after its orientation was corrected.
#[derive(Debug, Clone, Copy, PartialEq, Eq, Structural)]
pub struct CropRect {
    pub x: Real,
    pub y: Real,
    pub width: Real,
    pub height: Real,
}

/// Crop, rotation, straightening and flips.
#[derive(Debug, Clone, Copy)]
pub struct TransformState {
    pub crop: Option<CropRect>,
    /// Rotation in steps of 90 degrees.
    pub rotate_degrees: i32,
    /// Free rotation in degrees, from -45 to 45.
    pub straighten_degrees: Real,
    pub flip_horizontal: bool,
    pub flip_vertical: bool,
}

/// Exposure adjustments from -1 to 1; 0 is neutral.
#[derive(Debug, Clone, Copy, PartialEq, Eq, Structural)]
pub struct ExposureState {
    pub brightness: Real,
    pub contrast: Real,
    pub highlights: Real,
    pub shadows: Real,
    pub white_balance: Real,
}

/// Color adjustments from -1 to 1; 0 is neutral.
#[derive(Debug, Clone, Copy, PartialEq, Eq, Structural)]
pub struct ColorState {
    pub saturation: Real,
    pub vibrance: Real,
    pub hue_shift: Real,
    pub temperature: Real,
    pub tint: Real,
}

/// Detail adjustments from -1 to 1; 0 is neutral.
#[derive(Debug, Clone, Copy, PartialEq, Eq, Structural)]
pub struct DetailState {
    /// Darkening (positive) or brightening (negative) of the corners.
    pub vignette: Real,
}

/// A complete edit of an asset, which leaves the original as it is.
#[derive(Debug, Clone)]
pub struct EditState {
    /// Version of the layout.
    pub version: u32,
    pub transforms: TransformState,
    pub exposure: ExposureState,
    pub color: ColorState,
    pub detail: DetailState,
    /// The name of the preset that was applied.
    pub filter: Option<String>,
    /// How strongly the preset was applied, from 0 to 1.
    pub filter_strength: Real,
}

impl EditState {
    /// Whether the edit changes nothing that can be seen: every adjustment is neutral, and
    /// no preset is applied. How strongly a preset would be applied does not matter.
    pub open spec fn changes_nothing(self) -> bool {
        &&& self.transforms.crop is None
        &&& self.transforms.rotate_degrees == 0
        &&& self.transforms.straighten_degrees.zero()
        &&& !self.transforms.flip_horizontal
        &&& !self.transforms.flip_vertical
        &&& self.exposure.brightness.zero()
        &&& self.exposure.contrast.zero()
        &&& self.exposure.highlights.zero()
        &&& self.exposure.shadows.zero()
        &&& self.exposure.white_balance.zero()
        &&& self.color.saturation.zero()
        &&& self.color.vibrance.zero()
        &&& self.color.hue_shift.zero()
        &&& self.color.temperature.zero()
        &&& self.color.tint.zero()
        &&& self.detail.vignette.zero()
        &&& self.filter is None
    }

    /// Whether the edit changes nothing that can be seen.
    pub fn is_identity(&self) -> (r: bool)
        ensures
            r == self.changes_nothing(),
    {
        self.transforms.crop.is_none() && self.transforms.rotate_degrees == 0
            && self.transforms.straighten_degrees.is_zero() && !self.transforms.flip_horizontal
            && !self.transforms.flip_vertical && self.exposure.brightness.is_zero()
            && self.exposure.contrast.is_zero() && self.exposure.highlights.is_zero()
            && self.exposure.shadows.is_zero() && self.exposure.white_balance.is_zero()
            && self.color.saturation.is_zero() && self.color.vibrance.is_zero()
            && self.color.hue_shift.is_zero() && self.color.temperature.is_zero()
            && self.color.tint.is_zero() && self.detail.vignette.is_zero() && self.filter.is_none()
    }
}

fn neutral() -> (r: Real)
    ensures
        r.bits == ZERO_BITS,
{
    Real { bits: ZERO_BITS }
}

/// Whether nothing is cropped, turned or flipped.
pub open spec fn has_default_geometry(t: TransformState) -> bool {
    &&& t.crop is None
    &&& t.rotate_degrees == 0
    &&& t.straighten_degrees.bits == ZERO_BITS
    &&& !t.flip_horizontal
    &&& !t.flip_vertical
}

/// The neutral exposure.
pub open spec fn default_exposure() -> ExposureState {
    let neutral = Real { bits: ZERO_BITS };
    ExposureState {
        brightness: neutral,
        contrast: neutral,
        highlights: neutral,
        shadows: neutral,
        white_balance: neutral,
    }
}

/// The neutral colors.
pub open spec fn default_color() -> ColorState {
    let neutral = Real { bits: ZERO_BITS };
    ColorState {
        saturation: neutral,
        vibrance: neutral,
        hue_shift: neutral,
        temperature: neutral,
        tint: neutral,
    }
}

impl Default for EditState {
    fn default() -> (r: Self)
        ensures
            r.version == 1,
            has_default_geometry(r.transforms),
            r.exposure == default_exposure(),
            r.color == default_color(),
            r.detail.vignette.bits == ZERO_BITS,
            r.filter is None,
            r.filter_strength.bits == ONE_BITS,
            r.changes_nothing(),
    {
        let neutral = neutral();
        EditState {
            version: 1,
            transforms: TransformState {
                crop: None,
                rotate_degrees: 0,
                straighten_degrees: neutral,
                flip_horizontal: false,
                flip_vertical: false,
            },
            exposure: ExposureState {
                brightness: neutral,
                contrast: neutral,
                highlights: neutral,
                shadows: neutral,
                white_balance: neutral,
            },
            color: ColorState {
                saturation: neutral,
                vibrance: neutral,
                hue_shift: neutral,
                temperature: neutral,
                tint: neutral,
            },
            detail: DetailState { vignette: neutral },
            filter: None,
            filter_strength: Real { bits: ONE_BITS },
        }
    }
}

// ── Bookkeeping ──────────────────────────────────────────────────────────────

/// The storing of an edit state.
pub open spec fn edit_upsertion(id: Seq<char>, json: Seq<char>, now: i64) -> Seq<PartData> {
    seq![
        sql("INSERT INTO edits (media_id, edit_json, updated_at) VALUES ("),
        text(id),
        sql(", "),
        text(json),
        sql(", "),
        num(now),
        sql(") ON CONFLICT(media_id) DO UPDATE SET edit_json = excluded.edit_json, updated_at = excluded.updated_at, rendered_at = NULL"),
    ]
}

/// The queries on the `edits` table.
pub struct EditingRepository;

impl EditingRepository {
    /// Asks for the edit state of an asset, as JSON.
    pub fn get_edit_state(id: &MediaId) -> (r: Statement)
        ensures
            says(r@, orders::edit_of_asset(id@)),
            r@ == seq![
                sql("SELECT edit_json FROM edits WHERE media_id = "),
                text(id@),
            ],
    {
        let mut q = Statement::new();
        q.sql("SELECT edit_json FROM edits WHERE media_id = ");
        q.text(id.as_str());
        proof {
            orders::read_edit_of_asset(q@, id@);
        }
        q
    }

    /// Stores the edit state of an asset. Any rendering of an earlier state is out of date.
    pub fn upsert_edit_state(id: &MediaId, json: &str, now: i64) -> (r: Statement)
        ensures
            r@ == edit_upsertion(id@, json@, now),
            r@ == seq![
                sql("INSERT INTO edits (media_id, edit_json, updated_at) VALUES ("),
                text(id@),
                sql(", "),
                text(json@),
                sql(", "),
                num(now),
                sql(
                    ") ON CONFLICT(media_id) DO UPDATE SET edit_json = excluded.edit_json, updated_at = excluded.updated_at, rendered_at = NULL",
                ),
            ],
    {
        let mut q = Statement::new();
        q.sql("INSERT INTO edits (media_id, edit_json, updated_at) VALUES (");
        q.text(id.as_str());
        q.sql(", ");
        q.text(json);
        q.sql(", ");
        q.num(now);
        q.sql(
            ") ON CONFLICT(media_id) DO UPDATE SET edit_json = excluded.edit_json, updated_at = excluded.updated_at, rendered_at = NULL",
        );
        q
    }

    /// Forgets the edit state of an asset.
    pub fn delete_edit_state(id: &MediaId) -> (r: Statement)
        ensures
            says(r@, orders::forget_edit(id@)),
            r@ == seq![
                sql("DELETE FROM edits WHERE media_id = "),
                text(id@),
            ],
    {
        let mut q = Statement::new();
        q.sql("DELETE FROM edits WHERE media_id = ");
        q.text(id.as_str());
        proof {
            orders::read_forget_edit(q@, id@);
        }
        q
    }

    /// Notes that the edit state of an asset has been rendered.
    pub fn mark_edit_rendered(id: &MediaId, now: i64) -> (r: Statement)
        ensures
            says(r@, orders::edit_is_rendered(id@, now)),
            r@ == seq![
                sql("UPDATE edits SET rendered_at = "),
                num(now),
                sql(" WHERE media_id = "),
                text(id@),
            ],
    {
        let mut q = Statement::new();
        q.sql("UPDATE edits SET rendered_at = ");
        q.num(now);
        q.sql(" WHERE media_id = ");
        q.text(id.as_str());
        proof {
            orders::read_edit_is_rendered(q@, id@, now);
        }
        q
    }

    /// Asks whether the edit state of an asset changed since it was rendered last.
    pub fn has_pending_edits(id: &MediaId) -> (r: Statement)
        ensures
            says(r@, orders::pending_edit(id@)),
            r@ == seq![
                sql("SELECT 1 FROM edits WHERE media_id = "),
                text(id@),
                sql(" AND (rendered_at IS NULL OR updated_at > rendered_at)"),
            ],
    {
        let mut q = Statement::new();
        q.sql("SELECT 1 FROM edits WHERE media_id = ");
        q.text(id.as_str());
        q.sql(" AND (rendered_at IS NULL OR updated_at > rendered_at)");
        proof {
            orders::read_pending_edit(q@, id@);
        }
        q
    }

    /// Asks which asset holds the rendered edit of an asset.
    pub fn server_rendered_asset_id(id: &MediaId) -> (r: Statement)
        ensures
            says(r@, orders::rendering_of_asset(id@)),
            r@ == seq![
                sql("SELECT server_rendered_asset_id FROM edits WHERE media_id = "),
                text(id@),
            ],
    {
        let mut q = Statement::new();
        q.sql("SELECT server_rendered_asset_id FROM edits WHERE media_id = ");
        q.text(id.as_str());
        proof {
            orders::read_rendering_of_asset(q@, id@);
        }
        q
    }

    /// Stores which asset holds the rendered edit of an asset.
    pub fn set_server_rendered_asset_id(id: &MediaId, rendered: &MediaId) -> (r: Statement)
        ensures
            says(r@, orders::edit_is_held_by(id@, rendered@)),
            r@ == seq![
                sql("UPDATE edits SET server_rendered_asset_id = "),
                text(rendered@),
                sql(" WHERE media_id = "),
                text(id@),
            ],
    {
        let mut q = Statement::new();
        q.sql("UPDATE edits SET server_rendered_asset_id = ");
        q.text(rendered.as_str());
        q.sql(" WHERE media_id = ");
        q.text(id.as_str());
        proof {
            orders::read_edit_is_held_by(q@, id@, rendered@);
        }
        q
    }
}

/// Whether `m` tells the server of a saved edit state.
pub open spec fn reports_edit(m: Mutation, id: MediaId, state: EditState) -> bool {
    m == if state.changes_nothing() {
        Mutation::AssetEditsCleared { id }
    } else {
        Mutation::AssetEditsApplied { id }
    }
}

/// What the server is to learn of edits.
pub struct EditingService;

impl EditingService {
    /// What the server is to learn of a saved edit state: that there is one, or, where it
    /// changes nothing, that the edits are gone.
    pub fn save_edit_state(id: &MediaId, state: &EditState) -> (r: Mutation)
        ensures
            reports_edit(r, *id, *state),
            r == (if state.changes_nothing() {
                Mutation::AssetEditsCleared { id: *id }
            } else {
                Mutation::AssetEditsApplied { id: *id }
            }),
    {
        if state.is_identity() {
            Mutation::AssetEditsCleared { id: id.clone() }
        } else {
            Mutation::AssetEditsApplied { id: id.clone() }
        }
    }

    /// What the server is to learn of reverted edits.
    pub fn revert_edits(id: &MediaId) -> (r: Mutation)
        ensures
            r == (Mutation::AssetEditsCleared { id: *id }),
    {
        Mutation::AssetEditsCleared { id: id.clone() }
    }
}

// ── Geometry ─────────────────────────────────────────────────────────────────

/// A rotation in quarter turns, clockwise.
#[derive(Debug, Clone, Copy, PartialEq, Eq, Structural)]
pub enum QuarterTurns {
    Zero,
    One,
    Two,
    Three,
}

/// The quarter turns that an angle asks for: a multiple of 90 degrees, whole turns taken
/// off. Any other angle asks for none.
pub open spec fn turns_for(degrees: int) -> QuarterTurns {
    let d = degrees % 360;
    if d == 90 {
        QuarterTurns::One
    } else if d == 180 {
        QuarterTurns::Two
    } else if d == 270 {
        QuarterTurns::Three
    } else {
        QuarterTurns::Zero
    }
}

/// The quarter turns that an angle in degrees asks for.
pub fn quarter_turns(degrees: i32) -> (r: QuarterTurns)
    ensures
        r == turns_for(degrees as int),
{
    // Bring the angle above zero by whole turns, so that the remainder is that of the
    // angle itself.
    let shifted: i64 = degrees as i64 + 360 * 5_965_233;
    assert(shifted as int % 360 == degrees as int % 360);
    let d: u64 = (shifted as u64) % 360;
    if d == 90 {
        QuarterTurns::One
    } else if d == 180 {
        QuarterTurns::Two
    } else if d == 270 {
        QuarterTurns::Three
    } else {
        QuarterTurns::Zero
    }
}

/// The size of an image after quarter turns.
pub open spec fn turned_size(size: (u32, u32), turns: QuarterTurns) -> (u32, u32) {
    match turns {
        QuarterTurns::One => (size.1, size.0),
        QuarterTurns::Three => (size.1, size.0),
        _ => size,
    }
}

/// A full turn changes nothing, and a rotation back undoes a rotation.
pub proof fn rotations_cancel(degrees: int, size: (u32, u32))
    ensures
        turns_for(degrees + 360) == turns_for(degrees),
        turned_size(turned_size(size, turns_for(degrees)), turns_for(-degrees)) == size,
{
    assert((degrees + 360) % 360 == degrees % 360);
    assert(degrees % 360 == 90 ==> (-degrees) % 360 == 270);
    assert(degrees % 360 == 180 ==> (-degrees) % 360 == 180);
    assert(degrees % 360 == 270 ==> (-degrees) % 360 == 90);
    assert((-degrees) % 360 == 90 ==> degrees % 360 == 270);
    assert((-degrees) % 360 == 270 ==> degrees % 360 == 90);
}

/// A part of an image, in pixels.
#[derive(Debug, Clone, Copy, PartialEq, Eq, Structural)]
pub struct PixelRect {
    pub x: u32,
    pub y: u32,
    pub width: u32,
    pub height: u32,
}

/// How much of `length`, from `start` on, lies inside an extent of `size`.
pub open spec fn clipped(start: u32, length: u32, size: u32) -> u32 {
    let room: u32 = if start <= size {
        (size - start) as u32
    } else {
        0
    };
    if length <= room {
        length
    } else {
        room
    }
}

fn clip(start: u32, length: u32, size: u32) -> (r: u32)
    ensures
        r == clipped(start, length, size),
{
    let room: u32 = if start <= size {
        size - start
    } else {
        0
    };
    if length <= room {
        length
    } else {
        room
    }
}

/// The part of a `width` by `height` image that a crop keeps, where anything is left of
/// it: the crop cut off at the edges of the image. A crop that leaves nothing is not
/// applied.
pub fn crop_rect(crop: PixelRect, width: u32, height: u32) -> (r: Option<PixelRect>)
    ensures
        ({
            let w = clipped(crop.x, crop.width, width);
            let h = clipped(crop.y, crop.height, height);
            r == if w > 0 && h > 0 {
                Some(PixelRect { x: crop.x, y: crop.y, width: w, height: h })
            } else {
                None
            }
        }),
        r matches Some(k) ==> k.x + k.width <= width && k.y + k.height <= height,
{
    let w = clip(crop.x, crop.width, width);
    let h = clip(crop.y, crop.height, height);
    if w > 0 && h > 0 {
        Some(PixelRect { x: crop.x, y: crop.y, width: w, height: h })
    } else {
        None
    }
}

// ── Presets ──────────────────────────────────────────────────────────────────

/// The adjustments of a filter preset, in hundredths of the full range. Those that are
/// not set here are neutral.
#[derive(Debug, Clone, Copy, PartialEq, Eq, Structural)]
pub struct FilterPreset {
    pub brightness: i32,
    pub contrast: i32,
    pub saturation: i32,
    pub vibrance: i32,
    pub temperature: i32,
}

/// The names of all presets.
pub open spec fn preset_names() -> Seq<Seq<char>> {
    seq!["bw"@, "vintage"@, "warm"@, "cool"@, "vivid"@, "fade"@]
}

/// The names of all presets.
pub fn filter_names() -> (r: Vec<&'static str>)
    ensures
        r@.map_values(|s: &'static str| s@) == preset_names(),
{
    let r = vec!["bw", "vintage", "warm", "cool", "vivid", "fade"];
    assert(r@.map_values(|s: &'static str| s@) =~= preset_names());
    r
}

/// The preset with a name.
pub open spec fn preset_of(name: Seq<char>) -> Option<FilterPreset> {
    let neutral = FilterPreset {
        brightness: 0,
        contrast: 0,
        saturation: 0,
        vibrance: 0,
        temperature: 0,
    };
    if name == "bw"@ {
        Some(FilterPreset { saturation: (-100) as i32, contrast: 10, ..neutral })
    } else if name == "vintage"@ {
        Some(
            FilterPreset {
                saturation: (-30) as i32,
                temperature: 30,
                contrast: (-10) as i32,
                brightness: 5,
                ..neutral
            },
        )
    } else if name == "warm"@ {
        Some(FilterPreset { temperature: 40, saturation: 10, ..neutral })
    } else if name == "cool"@ {
        Some(FilterPreset { temperature: (-40) as i32, saturation: 10, ..neutral })
    } else if name == "vivid"@ {
        Some(FilterPreset { saturation: 50, vibrance: 30, contrast: 15, ..neutral })
    } else if name == "fade"@ {
        Some(FilterPreset { contrast: (-20) as i32, brightness: 10, saturation: (-20) as i32, ..neutral })
    } else {
        None
    }
}

/// Looks the adjustments of a preset up.
fn preset_adjustments(name: &str) -> (r: Option<FilterPreset>)
    ensures
        r == preset_of(name@),
{
    let neutral = FilterPreset {
        brightness: 0,
        contrast: 0,
        saturation: 0,
        vibrance: 0,
        temperature: 0,
    };
    if text_eq(name, "bw") {
        Some(FilterPreset { saturation: -100, contrast: 10, ..neutral })
    } else if text_eq(name, "vintage") {
        Some(
            FilterPreset {
                saturation: -30,
                temperature: 30,
                contrast: -10,
                brightness: 5,
                ..neutral
            },
        )
    } else if text_eq(name, "warm") {
        Some(FilterPreset { temperature: 40, saturation: 10, ..neutral })
    } else if text_eq(name, "cool") {
        Some(FilterPreset { temperature: -40, saturation: 10, ..neutral })
    } else if text_eq(name, "vivid") {
        Some(FilterPreset { saturation: 50, vibrance: 30, contrast: 15, ..neutral })
    } else if text_eq(name, "fade") {
        Some(FilterPreset { contrast: -20, brightness: 10, saturation: -20, ..neutral })
    } else {
        None
    }
}

/// The bits of the double that is nearest to a number of hundredths, for those that the
/// presets use; any other counts as neutral.
pub open spec fn hundredths_bits(n: i32) -> u64 {
    if n == -100 {
        0xBFF0_0000_0000_0000
    } else if n == -40 {
        0xBFD9_9999_9999_999A
    } else if n == -30 {
        0xBFD3_3333_3333_3333
    } else if n == -20 {
        0xBFC9_9999_9999_999A
    } else if n == -10 {
        0xBFB9_9999_9999_999A
    } else if n == 5 {
        0x3FA9_9999_9999_999A
    } else if n == 10 {
        0x3FB9_9999_9999_999A
    } else if n == 15 {
        0x3FC3_3333_3333_3333
    } else if n == 30 {
        0x3FD3_3333_3333_3333
    } else if n == 40 {
        0x3FD9_9999_9999_999A
    } else if n == 50 {
        0x3FE0_0000_0000_0000
    } else {
        ZERO_BITS
    }
}

fn hundredths(n: i32) -> (r: Real)
    ensures
        r.bits == hundredths_bits(n),
{
    let bits: u64 = match n {
        -100 => 0xBFF0_0000_0000_0000,
        -40 => 0xBFD9_9999_9999_999A,
        -30 => 0xBFD3_3333_3333_3333,
        -20 => 0xBFC9_9999_9999_999A,
        -10 => 0xBFB9_9999_9999_999A,
        5 => 0x3FA9_9999_9999_999A,
        10 => 0x3FB9_9999_9999_999A,
        15 => 0x3FC3_3333_3333_3333,
        30 => 0x3FD3_3333_3333_3333,
        40 => 0x3FD9_9999_9999_999A,
        50 => 0x3FE0_0000_0000_0000,
        _ => ZERO_BITS,
    };
    Real { bits }
}

/// Whether `s` is the edit of the preset with a name and adjustments: at full strength, the
/// geometry untouched.
pub open spec fn is_preset_edit(s: EditState, name: Seq<char>, p: FilterPreset) -> bool {
    &&& s.version == 1
    &&& has_default_geometry(s.transforms)
    &&& s.exposure == (ExposureState {
        brightness: Real { bits: hundredths_bits(p.brightness) },
        contrast: Real { bits: hundredths_bits(p.contrast) },
        ..default_exposure()
    })
    &&& s.color == (ColorState {
        saturation: Real { bits: hundredths_bits(p.saturation) },
        vibrance: Real { bits: hundredths_bits(p.vibrance) },
        temperature: Real { bits: hundredths_bits(p.temperature) },
        ..default_color()
    })
    &&& s.detail.vignette.bits == ZERO_BITS
    &&& s.filter matches Some(f) && f@ == name
    &&& s.filter_strength.bits == ONE_BITS
}

/// The edit that a preset makes, looked up by the preset's name.
pub fn filter_preset(name: &str) -> (r: Option<EditState>)
    ensures
        match preset_of(name@) {
            Some(p) => r matches Some(s) && is_preset_edit(s, name@, p),
            None => r is None,
        },
        r is Some <==> preset_names().contains(name@),
        r matches Some(s) ==> !s.changes_nothing(),
{
    proof {
        presets_are_valid(name@);
    }
    let p = match preset_adjustments(name) {
        Some(p) => p,
        None => return None,
    };
    let plain = EditState::default();
    Some(
        EditState {
            exposure: ExposureState {
                brightness: hundredths(p.brightness),
                contrast: hundredths(p.contrast),
                ..plain.exposure
            },
            color: ColorState {
                saturation: hundredths(p.saturation),
                vibrance: hundredths(p.vibrance),
                temperature: hundredths(p.temperature),
                ..plain.color
            },
            filter: Some(name.to_owned()),
            ..plain
        },
    )
}

impl FilterPreset {
    /// Whether the preset changes nothing.
    pub open spec fn is_neutral(self) -> bool {
        self.brightness == 0 && self.contrast == 0 && self.saturation == 0 && self.vibrance == 0
            && self.temperature == 0
    }

    /// Whether every adjustment lies in the full range.
    pub open spec fn in_range(self) -> bool {
        &&& -100 <= self.brightness <= 100
        &&& -100 <= self.contrast <= 100
        &&& -100 <= self.saturation <= 100
        &&& -100 <= self.vibrance <= 100
        &&& -100 <= self.temperature <= 100
    }
}

/// A name has a preset exactly where it is among the names of presets, and every preset
/// changes something and stays in range.
pub proof fn presets_are_valid(name: Seq<char>)
    ensures
        preset_of(name) is Some <==> preset_names().contains(name),
        preset_of(name) matches Some(p) ==> !p.is_neutral() && p.in_range(),
{
    let names = preset_names();
    assert(names[0] == "bw"@);
    assert(names[1] == "vintage"@);
    assert(names[2] == "warm"@);
    assert(names[3] == "cool"@);
    assert(names[4] == "vivid"@);
    assert(names[5] == "fade"@);
}

} // verus!
