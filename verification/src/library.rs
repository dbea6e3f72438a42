//! Operations that span several services: saving and reverting an edit that has a
//! rendered sibling on the server.

use vstd::prelude::*;
use vstd::string::*;

use crate::error::{prefixed, LibraryError};
use crate::media::{MediaId, MediaItem, MediaRecord, MediaType};
use crate::mutation::Mutation;
use crate::path::{file_name, file_name_of, split_extension, stem_of};

verus! {

/// One step of an operation. The steps are taken in order, and the first that fails
/// ends the operation.
#[derive(Debug)]
pub enum EditStep {
    /// Put a mutation into the outbox.
    Record(Mutation),
    /// Delete an asset for good, with its files, and record that.
    DeletePermanently(MediaId),
    /// Insert an asset and record its import.
    InsertMedia(MediaRecord),
    /// Store the edit state of the original without recording it.
    StoreEditState,
    /// Forget the edit state of the original without recording it.
    DeleteEditState,
    /// Remember which asset holds the rendered edit.
    SetRendered(MediaId),
}

/// What the embedded edit block needs of the original, so that the edit can be
/// recovered from the rendered file.
#[derive(Debug)]
pub struct Recoverable {
    /// The server's id of the original.
    pub external_id: String,
    /// Finds the original where its id no longer does.
    pub content_hash: String,
}

/// Says something of the original of an edit.
fn about_original(id: &MediaId, rest: &str) -> (r: LibraryError)
    ensures
        r matches LibraryError::Runtime(m) && m@ == "save_pixel_edit: original "@ + id@ + rest@,
{
    let mut m = prefixed("save_pixel_edit: original ", id.as_str());
    m.append(rest);
    LibraryError::Runtime(m)
}

/// What stands against saving an edit of an original: it does not exist, has not been
/// uploaded or has no content hash, so that the edit could not be recovered later.
pub open spec fn refusal(original: Option<MediaRecord>) -> Option<Seq<char>> {
    match original {
        None => Some(" not found"@),
        Some(o) => if o.external_id is None {
            Some(" has not been uploaded yet"@)
        } else if o.content_hash is None {
            Some(" has no content_hash — can't embed Phase D recovery fallback"@)
        } else {
            None
        },
    }
}

/// Whether an error is that of an original with something against it.
pub open spec fn refuses(e: LibraryError, id: Seq<char>, why: Seq<char>) -> bool {
    e matches LibraryError::Runtime(m) && m@ == "save_pixel_edit: original "@ + id + why
}

/// Whether an edit of the given original can be saved: the original exists, has been
/// uploaded and has a content hash. Otherwise the edit could not be recovered later.
pub fn check_original(id: &MediaId, original: &Option<MediaRecord>) -> (r: Result<
    Recoverable,
    LibraryError,
>)
    ensures
        match refusal(*original) {
            Some(why) => r matches Err(e) && refuses(e, id@, why),
            None => r matches Ok(k) && Some(k.external_id) == original->0.external_id && Some(
                k.content_hash,
            ) == original->0.content_hash,
        },
{
    match original {
        None => Err(about_original(id, " not found")),
        Some(o) => match (&o.external_id, &o.content_hash) {
            (None, _) => Err(about_original(id, " has not been uploaded yet")),
            (Some(_), None) => Err(
                about_original(
                    id,
                    " has no content_hash — can't embed Phase D recovery fallback",
                ),
            ),
            (Some(e), Some(h)) => Ok(
                Recoverable { external_id: e.clone(), content_hash: h.clone() },
            ),
        },
    }
}

/// The edit block that a rendered file carries, so that the edit can be recovered from it.
#[derive(Debug)]
pub struct EmbeddedEdit {
    /// The server's id of the original.
    pub original_asset_id: String,
    /// Finds the original where its id no longer does.
    pub original_content_hash: String,
    /// Version of the block's layout.
    pub edit_version: u32,
    /// The edit state, as it is stored.
    pub edit_json: String,
}

/// Whether an edit block is that of an edit of an original.
pub open spec fn embeds(block: EmbeddedEdit, original: Recoverable, edit_json: Seq<char>) -> bool {
    &&& block.original_asset_id == original.external_id
    &&& block.original_content_hash == original.content_hash
    &&& block.edit_version == 1
    &&& block.edit_json@ == edit_json
}

/// The edit block for an edit of an original.
pub fn embedded_edit(original: Recoverable, edit_json: String) -> (r: EmbeddedEdit)
    ensures
        embeds(r, original, edit_json@),
        r == (EmbeddedEdit {
            original_asset_id: original.external_id,
            original_content_hash: original.content_hash,
            edit_version: 1,
            edit_json,
        }),
{
    EmbeddedEdit {
        original_asset_id: original.external_id,
        original_content_hash: original.content_hash,
        edit_version: 1,
        edit_json,
    }
}

/// The error of serializing the edit state for the rendered file.
pub fn serialize_failed(cause: &str) -> (r: LibraryError)
    ensures
        r matches LibraryError::Runtime(m) && m@ == "serialize EditState: "@ + cause@,
{
    LibraryError::Runtime(prefixed("serialize EditState: ", cause))
}

/// The error of embedding the edit block in the rendered file.
pub fn inject_failed(cause: &str) -> (r: LibraryError)
    ensures
        r matches LibraryError::Runtime(m) && m@ == "inject XMP: "@ + cause@,
{
    LibraryError::Runtime(prefixed("inject XMP: ", cause))
}

/// The name of a rendered edit of a file.
pub open spec fn rendered_name(original: Seq<char>) -> Seq<char> {
    (match file_name_of(original) {
        Some(name) => stem_of(name),
        None => "photo"@,
    }) + "-edit.jpg"@
}

/// The name of a rendered edit: that of the original with `-edit.jpg` in place of its
/// extension, or of `photo` where the original has no name.
pub fn rendered_filename(original_filename: &str) -> (r: String)
    ensures
        r@ == rendered_name(original_filename@),
{
    match file_name(original_filename) {
        Some(name) => {
            let (stem, _) = split_extension(name.as_str());
            prefixed(stem.as_str(), "-edit.jpg")
        },
        None => prefixed("photo", "-edit.jpg"),
    }
}

/// The rendered file of an edit.
#[derive(Debug)]
pub struct Rendering {
    pub id: MediaId,
    /// Path of the file below `originals/`.
    pub relative_path: String,
    pub file_size: u64,
    /// When the rendering was made, in seconds since 1970.
    pub now: i64,
}

/// Whether `r` records a rendering of `original`: an image taken when the original was
/// and as large, upright, not yet uploaded, and marked as a rendering.
pub open spec fn records_rendering(
    r: MediaRecord,
    original: MediaRecord,
    rendering: Rendering,
) -> bool {
    &&& r.id == rendering.id
    &&& r.content_hash is None
    &&& r.external_id is None
    &&& r.relative_path == rendering.relative_path
    &&& r.original_filename@ == rendered_name(original.original_filename@)
    &&& r.file_size == rendering.file_size as i64
    &&& r.imported_at == rendering.now
    &&& r.media_type is Image
    &&& r.taken_at == original.taken_at
    &&& r.width == original.width
    &&& r.height == original.height
    &&& r.orientation == 1
    &&& r.duration_ms is None
    &&& !r.is_favorite
    &&& !r.is_trashed
    &&& r.trashed_at is None
    &&& r.is_moments_render
}

/// The stack of an item, where the item was found and is in one.
pub open spec fn stack_of(item: Option<MediaItem>) -> Option<String> {
    match item {
        Some(i) => i.stack_id,
        None => None,
    }
}

/// The steps that detach a rendering from the original on the server: out of the
/// stack, if it is known to be in one, then the tag off.
pub open spec fn cleanup_steps(id: MediaId, item: Option<MediaItem>) -> Seq<EditStep> {
    let untag = EditStep::Record(Mutation::AssetUntaggedMomentsEdit { id });
    match stack_of(item) {
        Some(stack_id) => seq![
            EditStep::Record(Mutation::StackMemberRemoved { stack_id, asset_id: id }),
            untag,
        ],
        None => seq![untag],
    }
}

/// Adds the steps that detach a rendering.
fn enqueue_rendered_cleanup(steps: &mut Vec<EditStep>, id: &MediaId, item: &Option<MediaItem>)
    ensures
        final(steps)@ == old(steps)@ + cleanup_steps(*id, *item),
{
    let stack = match item {
        Some(i) => match &i.stack_id {
            Some(s) => Some(s.clone()),
            None => None,
        },
        None => None,
    };
    if let Some(stack_id) = stack {
        steps.push(
            EditStep::Record(Mutation::StackMemberRemoved { stack_id, asset_id: id.clone() }),
        );
    }
    steps.push(EditStep::Record(Mutation::AssetUntaggedMomentsEdit { id: id.clone() }));
    assert(steps@ =~= old(steps)@ + cleanup_steps(*id, *item));
}

/// A rendering made before, with the item that the database holds of it.
#[derive(Debug)]
pub struct PreviousRendering {
    pub id: MediaId,
    pub item: Option<MediaItem>,
}

/// The steps that get rid of a rendering made before.
pub open spec fn removal_steps(previous: Option<PreviousRendering>) -> Seq<EditStep> {
    match previous {
        Some(p) => cleanup_steps(p.id, p.item).push(EditStep::DeletePermanently(p.id)),
        None => Seq::empty(),
    }
}

/// Whether `steps` save an edit: a rendering made before goes first, then the new one
/// is inserted, the edit state and the rendering are remembered, and last the new
/// rendering is stacked with the original and tagged.
pub open spec fn saves_edit(
    steps: Seq<EditStep>,
    original_id: MediaId,
    original: MediaRecord,
    rendering: Rendering,
    previous: Option<PreviousRendering>,
) -> bool {
    let n = removal_steps(previous).len() as int;
    &&& steps.len() == n + 5
    &&& steps.take(n) == removal_steps(previous)
    &&& steps[n] matches EditStep::InsertMedia(r) && records_rendering(r, original, rendering)
    &&& steps[n + 1] is StoreEditState
    &&& steps[n + 2] == EditStep::SetRendered(rendering.id)
    &&& steps[n + 3] == EditStep::Record(
        Mutation::StackCreated {
            rendered_asset_id: rendering.id,
            original_asset_id: original_id,
        },
    )
    &&& steps[n + 4] == EditStep::Record(Mutation::AssetTaggedMomentsEdit { id: rendering.id })
}

/// The files that go with assets: their originals, then their thumbnails.
pub open spec fn files_of(originals: Seq<(MediaId, String)>, thumbnails: Seq<String>) -> Seq<String> {
    originals.map_values(|p: (MediaId, String)| p.1) + thumbnails
}

/// The operations of the library as a whole.
pub struct Library;

impl Library {
    /// The steps that save an edit whose rendered file has been written. An original whose
    /// edit could not be recovered is refused, and nothing is done.
    pub fn save_pixel_edit(
        original_id: &MediaId,
        original: &Option<MediaRecord>,
        rendering: Rendering,
        previous: Option<PreviousRendering>,
    ) -> (r: Result<Vec<EditStep>, LibraryError>)
        ensures
            match refusal(*original) {
                Some(why) => r matches Err(e) && refuses(e, original_id@, why),
                None => r matches Ok(steps) && saves_edit(
                    steps@,
                    *original_id,
                    original->0,
                    rendering,
                    previous,
                ),
            },
    {
        if let Err(e) = check_original(original_id, original) {
            return Err(e);
        }
        let original = match original {
            Some(o) => o,
            None => return Err(about_original(original_id, " not found")),
        };
        let mut steps: Vec<EditStep> = Vec::new();
        let ghost n = removal_steps(previous).len() as int;
        if let Some(p) = previous {
            enqueue_rendered_cleanup(&mut steps, &p.id, &p.item);
            steps.push(EditStep::DeletePermanently(p.id));
        }
        assert(steps@ =~= removal_steps(previous));
        let id = rendering.id;
        let record = MediaRecord {
            id: id.clone(),
            content_hash: None,
            external_id: None,
            relative_path: rendering.relative_path,
            original_filename: rendered_filename(original.original_filename.as_str()),
            file_size: rendering.file_size as i64,
            imported_at: rendering.now,
            media_type: MediaType::Image,
            taken_at: original.taken_at,
            width: original.width,
            height: original.height,
            orientation: 1,
            duration_ms: None,
            is_favorite: false,
            is_trashed: false,
            trashed_at: None,
            is_moments_render: true,
        };
        steps.push(EditStep::InsertMedia(record));
        steps.push(EditStep::StoreEditState);
        steps.push(EditStep::SetRendered(id.clone()));
        steps.push(
            EditStep::Record(
                Mutation::StackCreated {
                    rendered_asset_id: id.clone(),
                    original_asset_id: original_id.clone(),
                },
            ),
        );
        steps.push(EditStep::Record(Mutation::AssetTaggedMomentsEdit { id }));
        assert(steps@.take(n) =~= removal_steps(previous));
        Ok(steps)
    }

    /// Whether `steps` revert an edit: a rendering is detached, the edit state
    /// forgotten, the rendering deleted, and last the edits on the server cleared.
    pub open spec fn reverts_edit(
        steps: Seq<EditStep>,
        original_id: MediaId,
        previous: Option<PreviousRendering>,
    ) -> bool {
        let last = seq![EditStep::Record(Mutation::AssetEditsCleared { id: original_id })];
        steps == match previous {
            Some(p) => cleanup_steps(p.id, p.item) + seq![
                EditStep::DeleteEditState,
                EditStep::DeletePermanently(p.id),
            ] + last,
            None => seq![EditStep::DeleteEditState] + last,
        }
    }

    /// The steps that revert any edit of an original.
    pub fn revert_edit(original_id: &MediaId, previous: Option<PreviousRendering>) -> (r: Vec<
        EditStep,
    >)
        ensures
            Self::reverts_edit(r@, *original_id, previous),
    {
        let ghost before = previous;
        let mut steps: Vec<EditStep> = Vec::new();
        match previous {
            Some(p) => {
                enqueue_rendered_cleanup(&mut steps, &p.id, &p.item);
                steps.push(EditStep::DeleteEditState);
                steps.push(EditStep::DeletePermanently(p.id));
            },
            None => {
                steps.push(EditStep::DeleteEditState);
            },
        }
        steps.push(
            EditStep::Record(Mutation::AssetEditsCleared { id: original_id.clone() }),
        );
        proof {
            let last = seq![EditStep::Record(Mutation::AssetEditsCleared { id: *original_id })];
            match before {
                Some(p) => assert(steps@ =~= cleanup_steps(p.id, p.item) + seq![
                    EditStep::DeleteEditState,
                    EditStep::DeletePermanently(p.id),
                ] + last),
                None => assert(steps@ =~= seq![EditStep::DeleteEditState] + last),
            }
        }
        steps
    }

    /// The files to remove once assets were deleted from the database: their
    /// originals, then their thumbnails.
    pub fn cleanup_files(originals: &Vec<(MediaId, String)>, thumbnails: &Vec<String>) -> (r: Vec<
        String,
    >)
        ensures
            r@ == files_of(originals@, thumbnails@),
            r@ == originals@.map_values(|p: (MediaId, String)| p.1) + thumbnails@,
    {
        let mut out: Vec<String> = Vec::new();
        let n: usize = originals.len();
        let mut i: usize = 0;
        while i < n
            invariant
                i <= n,
                n == originals@.len(),
                out@ == originals@.take(i as int).map_values(|p: (MediaId, String)| p.1),
            decreases n - i,
        {
            out.push(originals[i].1.clone());
            i += 1;
            assert(out@ =~= originals@.take(i as int).map_values(|p: (MediaId, String)| p.1));
        }
        assert(originals@.take(n as int) =~= originals@);
        let m: usize = thumbnails.len();
        let mut j: usize = 0;
        assert(out@ =~= originals@.map_values(|p: (MediaId, String)| p.1) + thumbnails@.take(0));
        while j < m
            invariant
                j <= m,
                m == thumbnails@.len(),
                out@ == originals@.map_values(|p: (MediaId, String)| p.1) + thumbnails@.take(
                    j as int,
                ),
            decreases m - j,
        {
            out.push(thumbnails[j].clone());
            j += 1;
            assert(out@ =~= originals@.map_values(|p: (MediaId, String)| p.1) + thumbnails@.take(
                j as int,
            ));
        }
        assert(thumbnails@.take(m as int) =~= thumbnails@);
        out
    }
}

// ── Laws ─────────────────────────────────────────────────────────────────────

/// The place of the first step that inserts an asset.
pub open spec fn inserts_at(steps: Seq<EditStep>, i: int) -> bool {
    0 <= i < steps.len() && steps[i] is InsertMedia
}

/// An edit never leaves two renderings behind: one made before is untagged and deleted
/// before the new one is inserted, and nothing is deleted afterwards.
pub proof fn previous_rendering_goes_first(
    steps: Seq<EditStep>,
    original_id: MediaId,
    original: MediaRecord,
    rendering: Rendering,
    previous: PreviousRendering,
)
    requires
        saves_edit(steps, original_id, original, rendering, Some(previous)),
    ensures
        exists|u: int, d: int, i: int|
            #![trigger steps[u], steps[d], steps[i]]
            0 <= u < d < i < steps.len() && steps[u] == EditStep::Record(
                Mutation::AssetUntaggedMomentsEdit { id: previous.id },
            ) && steps[d] == EditStep::DeletePermanently(previous.id) && steps[i] is InsertMedia,
        forall|i: int, d: int|
            #![trigger inserts_at(steps, i), steps[d]]
            inserts_at(steps, i) && i < d < steps.len() ==> !(steps[d] is DeletePermanently),
{
    let removal = removal_steps(Some(previous));
    let n = removal.len() as int;
    assert(steps.take(n) == removal);
    let u = n - 2;
    let d = n - 1;
    assert(steps[u] == removal[u]);
    assert(steps[d] == removal[d]);
    assert(removal[d] == EditStep::DeletePermanently(previous.id));
    assert(removal[u] == EditStep::Record(Mutation::AssetUntaggedMomentsEdit { id: previous.id }));
    assert(steps[n] is InsertMedia);
    assert forall|i: int, e: int|
        #![trigger inserts_at(steps, i), steps[e]]
        inserts_at(steps, i) && i < e < steps.len() implies !(steps[e] is DeletePermanently) by {
        if i < n {
            assert(steps[i] == removal[i]);
        }
    }
}

/// Saving and then reverting an edit ends with the rendering gone: what a revert of
/// the saved edit deletes is the rendering that was saved.
pub proof fn revert_removes_saved_rendering(
    saved: Seq<EditStep>,
    reverted: Seq<EditStep>,
    original_id: MediaId,
    original: MediaRecord,
    rendering: Rendering,
    before: Option<PreviousRendering>,
    item: Option<MediaItem>,
)
    requires
        saves_edit(saved, original_id, original, rendering, before),
        Library::reverts_edit(
            reverted,
            original_id,
            Some(PreviousRendering { id: rendering.id, item }),
        ),
    ensures
        exists|i: int|
            0 <= i < saved.len() && (#[trigger] saved[i] matches EditStep::InsertMedia(r) && r.id
                == rendering.id),
        exists|i: int|
            0 <= i < reverted.len() && #[trigger] reverted[i] == EditStep::DeletePermanently(
                rendering.id,
            ),
        reverted.last() == EditStep::Record(Mutation::AssetEditsCleared { id: original_id }),
{
    let n = removal_steps(before).len() as int;
    assert(saved[n] is InsertMedia);
    let c = cleanup_steps(rendering.id, item).len() as int;
    assert(reverted[c + 1] == EditStep::DeletePermanently(rendering.id));
}

} // verus!
