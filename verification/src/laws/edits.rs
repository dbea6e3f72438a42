//! What saving, reverting and choosing an edit come to.

use vstd::prelude::*;

use crate::editing::{
    is_preset_edit, preset_of, EditState, FilterPreset, Real,
};
use crate::error::LibraryError;
use crate::library::{
    cleanup_steps, embeds, files_of, records_rendering, refusal, refuses, rendered_name,
    saves_edit, EditStep, EmbeddedEdit, Library, PreviousRendering, Recoverable, Rendering,
};
use crate::media::{MediaId, MediaItem, MediaRecord};
use crate::mutation::Mutation;
use crate::path::{file_name_of, last_dot};

verus! {

// ── Edit states ──────────────────────────────────────────────────────────────

/// Every adjustment of an edit that has a strength.
pub open spec fn adjustments(e: EditState) -> Seq<Real> {
    seq![
        e.exposure.brightness,
        e.exposure.contrast,
        e.exposure.highlights,
        e.exposure.shadows,
        e.exposure.white_balance,
        e.color.saturation,
        e.color.vibrance,
        e.color.hue_shift,
        e.color.temperature,
        e.color.tint,
        e.detail.vignette,
        e.transforms.straighten_degrees,
    ]
}

/// Any single adjustment that is not zero makes an edit visible; zero, with either sign, is no
/// adjustment. An edit without adjustments, transforms and preset cannot be seen.
pub proof fn every_adjustment_shows(e: EditState, i: int)
    requires
        0 <= i < adjustments(e).len(),
    ensures
        e.changes_nothing() ==> adjustments(e)[i].bits == 0 || adjustments(e)[i].bits
            == 0x8000_0000_0000_0000,
        (forall|k: int| 0 <= k < adjustments(e).len() ==> (#[trigger] adjustments(e)[k]).bits == 0)
            && e.transforms.crop is None && e.transforms.rotate_degrees == 0
            && !e.transforms.flip_horizontal && !e.transforms.flip_vertical && e.filter is None
            ==> e.changes_nothing(),
{
    let a = adjustments(e);
    if forall|k: int| 0 <= k < a.len() ==> (#[trigger] a[k]).bits == 0 {
        assert(a[0].bits == 0 && a[1].bits == 0 && a[2].bits == 0 && a[3].bits == 0);
        assert(a[4].bits == 0 && a[5].bits == 0 && a[6].bits == 0 && a[7].bits == 0);
        assert(a[8].bits == 0 && a[9].bits == 0 && a[10].bits == 0 && a[11].bits == 0);
    }
}

/// A crop, a rotation, a flip and a preset each make an edit visible; its version and the
/// strength of a preset that is not applied do not.
pub proof fn every_transform_shows(edit: EditState, other: EditState)
    ensures
        edit.transforms.crop is Some ==> !edit.changes_nothing(),
        edit.transforms.rotate_degrees != 0 ==> !edit.changes_nothing(),
        edit.transforms.flip_horizontal ==> !edit.changes_nothing(),
        edit.transforms.flip_vertical ==> !edit.changes_nothing(),
        edit.filter is Some ==> !edit.changes_nothing(),
        other == (EditState {
            version: other.version,
            filter_strength: other.filter_strength,
            ..edit
        }) ==> (edit.changes_nothing() <==> other.changes_nothing()),
{
}

/// The edit of a preset carries the preset's name at full strength, leaves the geometry and
/// the details alone, and can be seen.
pub proof fn presets_carry_their_name(s: EditState, name: Seq<char>, p: FilterPreset)
    requires
        preset_of(name) == Some(p),
        is_preset_edit(s, name, p),
    ensures
        s.filter matches Some(n) && n@ == name,
        s.filter_strength.bits == 0x3FF0_0000_0000_0000,
        s.version == 1,
        s.transforms.crop is None && s.transforms.rotate_degrees == 0
            && s.transforms.straighten_degrees.bits == 0 && !s.transforms.flip_horizontal
            && !s.transforms.flip_vertical,
        s.detail.vignette.bits == 0,
        s.exposure.highlights.bits == 0 && s.exposure.shadows.bits == 0
            && s.exposure.white_balance.bits == 0,
        s.color.hue_shift.bits == 0 && s.color.tint.bits == 0,
        !s.changes_nothing(),
{
}

/// Black and white takes all color out; warm and cool are each other's opposite in
/// temperature and alike in everything else.
pub proof fn presets_look_like_their_names(
    bw: EditState,
    warm: EditState,
    cool: EditState,
    a: FilterPreset,
    b: FilterPreset,
    c: FilterPreset,
)
    requires
        preset_of("bw"@) == Some(a) && is_preset_edit(bw, "bw"@, a),
        preset_of("warm"@) == Some(b) && is_preset_edit(warm, "warm"@, b),
        preset_of("cool"@) == Some(c) && is_preset_edit(cool, "cool"@, c),
    ensures
        bw.color.saturation.bits == 0xBFF0_0000_0000_0000,
        warm.exposure == cool.exposure,
        warm.color.saturation == cool.color.saturation,
        warm.color.vibrance == cool.color.vibrance,
        b.temperature == -c.temperature,
        b.temperature > 0,
        warm.color.temperature.bits + 0x8000_0000_0000_0000 == cool.color.temperature.bits,
{
    reveal_strlit("bw");
    reveal_strlit("vintage");
    reveal_strlit("warm");
    reveal_strlit("cool");
    reveal_strlit("vivid");
    reveal_strlit("fade");
    assert("warm"@ != "cool"@) by {
        assert("warm"@[0] != "cool"@[0]);
    }
    assert("bw"@.len() == 2 && "vintage"@.len() == 7 && "warm"@.len() == 4 && "cool"@.len() == 4);
}

// ── Saving and reverting ─────────────────────────────────────────────────────

/// An edit can be saved exactly where its original is there, was uploaded and has a content
/// hash; otherwise the error says which of these is missing.
pub proof fn only_recoverable_edits_are_saved(original: Option<MediaRecord>, e: LibraryError, id: Seq<
    char,
>)
    ensures
        refusal(original) is None <==> (original matches Some(o) && o.external_id is Some
            && o.content_hash is Some),
        original is None && refuses(e, id, refusal(original)->0) ==> (e matches
            LibraryError::Runtime(m) && m@ == "save_pixel_edit: original "@ + id + " not found"@),
        (original matches Some(o) && o.external_id is None) && refuses(
            e,
            id,
            refusal(original)->0,
        ) ==> (e matches LibraryError::Runtime(m) && m@ == "save_pixel_edit: original "@ + id
            + " has not been uploaded yet"@),
{
}

/// Whether a step is in a list.
pub open spec fn includes(steps: Seq<EditStep>, step: EditStep) -> bool {
    exists|i: int| 0 <= i < steps.len() && #[trigger] steps[i] == step
}

/// Saving an edit stores the new rendering as an asset of its own, remembers the edit and the
/// rendering, stacks the rendering with its original and tags it, in this order.
pub proof fn saved_edits_are_stored_stacked_and_tagged(
    steps: Seq<EditStep>,
    original_id: MediaId,
    original: MediaRecord,
    rendering: Rendering,
    previous: Option<PreviousRendering>,
)
    requires
        saves_edit(steps, original_id, original, rendering, previous),
    ensures
        steps.len() >= 5,
        ({
            let n = steps.len() - 5;
            &&& steps[n] matches EditStep::InsertMedia(r) && r.id == rendering.id
            &&& steps[n + 1] is StoreEditState
            &&& steps[n + 2] == EditStep::SetRendered(rendering.id)
            &&& steps[n + 3] == EditStep::Record(
                Mutation::StackCreated {
                    rendered_asset_id: rendering.id,
                    original_asset_id: original_id,
                },
            )
            &&& steps[n + 4] == EditStep::Record(
                Mutation::AssetTaggedMomentsEdit { id: rendering.id },
            )
        }),
        previous is None ==> steps.len() == 5,
{
}

/// The asset of a rendering is a picture as large as its original and taken when the original
/// was, upright, new, and marked as a rendering.
pub proof fn renderings_resemble_their_original(
    r: MediaRecord,
    original: MediaRecord,
    rendering: Rendering,
)
    requires
        records_rendering(r, original, rendering),
    ensures
        r.id == rendering.id,
        r.relative_path == rendering.relative_path,
        rendering.file_size <= i64::MAX ==> r.file_size == rendering.file_size,
        r.imported_at == rendering.now,
        r.media_type is Image,
        r.taken_at == original.taken_at,
        r.width == original.width,
        r.height == original.height,
        r.orientation == 1,
        r.is_moments_render,
        r.content_hash is None && r.external_id is None && r.duration_ms is None,
        !r.is_favorite && !r.is_trashed && r.trashed_at is None,
{
}

/// A rendering is named after its original, with `-edit.jpg` in place of the extension.
pub proof fn renderings_are_named_after_their_original(name: Seq<char>, dot: int)
    requires
        file_name_of(name) == Some(name),
        name != ".."@,
    ensures
        last_dot(name) is None ==> rendered_name(name) == name + "-edit.jpg"@,
        last_dot(name) == Some(dot) && dot > 0 ==> rendered_name(name) == name.take(dot)
            + "-edit.jpg"@,
{
}

/// Before a new rendering is stored, the one made before is taken out of its stack, untagged
/// and deleted; where its stack is not known, it is untagged and deleted.
pub proof fn earlier_renderings_are_taken_down(
    steps: Seq<EditStep>,
    original_id: MediaId,
    original: MediaRecord,
    rendering: Rendering,
    previous: PreviousRendering,
    item: MediaItem,
    stack: String,
)
    requires
        saves_edit(steps, original_id, original, rendering, Some(previous)),
    ensures
        previous.item == Some(item) && item.stack_id == Some(stack) ==> {
            &&& steps.len() == 8
            &&& steps[0] == EditStep::Record(
                Mutation::StackMemberRemoved { stack_id: stack, asset_id: previous.id },
            )
            &&& steps[1] == EditStep::Record(Mutation::AssetUntaggedMomentsEdit { id: previous.id })
            &&& steps[2] == EditStep::DeletePermanently(previous.id)
        },
        previous.item is None ==> {
            &&& steps.len() == 7
            &&& steps[0] == EditStep::Record(Mutation::AssetUntaggedMomentsEdit { id: previous.id })
            &&& steps[1] == EditStep::DeletePermanently(previous.id)
        },
{
    let removal = crate::library::removal_steps(Some(previous));
    let n = removal.len() as int;
    assert(steps.take(n) == removal);
    assert forall|i: int| 0 <= i < n implies steps[i] == removal[i] by {
        assert(steps.take(n)[i] == steps[i]);
    }
}

/// A revert forgets the edit and clears it on the server last; where there was a rendering,
/// it is untagged first and deleted once the edit is forgotten.
pub proof fn reverts_forget_the_edit(
    steps: Seq<EditStep>,
    original_id: MediaId,
    previous: Option<PreviousRendering>,
)
    requires
        Library::reverts_edit(steps, original_id, previous),
    ensures
        steps.last() == EditStep::Record(Mutation::AssetEditsCleared { id: original_id }),
        includes(steps, EditStep::DeleteEditState),
        previous is None ==> steps.len() == 2,
        previous matches Some(p) ==> {
            &&& steps.len() >= 4
            &&& steps[steps.len() - 2] == EditStep::DeletePermanently(p.id)
            &&& steps[steps.len() - 3] is DeleteEditState
            &&& steps[steps.len() - 4] == EditStep::Record(
                Mutation::AssetUntaggedMomentsEdit { id: p.id },
            )
        },
{
    match previous {
        Some(p) => {
            let c = cleanup_steps(p.id, p.item);
            let n = c.len() as int;
            assert(steps[n] == EditStep::DeleteEditState);
            assert(steps[n + 1] == EditStep::DeletePermanently(p.id));
            assert(steps[n - 1] == c[n - 1]);
        },
        None => {
            assert(steps[0] == EditStep::DeleteEditState);
        },
    }
}

/// The edit block of a rendered file leads back to its original, by the id that the server has
/// for it and by its content, and holds the edit as it is stored.
pub proof fn renderings_lead_back_to_their_original(
    block: EmbeddedEdit,
    original: Recoverable,
    json: Seq<char>,
)
    requires
        embeds(block, original, json),
    ensures
        block.original_asset_id == original.external_id,
        block.original_content_hash == original.content_hash,
        block.edit_json@ == json,
        block.edit_version == 1,
{
}

/// An original without a content hash is refused by that reason, where it was uploaded.
pub proof fn originals_need_a_content_hash(original: MediaRecord)
    ensures
        original.external_id is Some && original.content_hash is None ==> refusal(Some(original))
            == Some(" has no content_hash — can't embed Phase D recovery fallback"@),
        original.external_id is None ==> refusal(Some(original)) == Some(
            " has not been uploaded yet"@,
        ),
{
}

/// Once assets are deleted, every original and every thumbnail of theirs is removed, the
/// originals first, and no other file.
pub proof fn all_files_of_an_asset_are_removed(
    originals: Seq<(MediaId, String)>,
    thumbnails: Seq<String>,
    i: int,
)
    ensures
        files_of(originals, thumbnails).len() == originals.len() + thumbnails.len(),
        0 <= i < originals.len() ==> files_of(originals, thumbnails)[i] == originals[i].1,
        0 <= i < thumbnails.len() ==> files_of(originals, thumbnails)[originals.len() + i]
            == thumbnails[i],
{
}

} // verus!
