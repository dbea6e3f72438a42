//! What subscribers and the server learn of a change.

use vstd::prelude::*;

use crate::album::repository::counts_by_album;
use crate::album::service as albums;
use crate::album::{AlbumEvent, AlbumId};
use crate::config::LocalStorageMode;
use crate::editing::{reports_edit, EditState};
use crate::faces::service as faces;
use crate::faces::service::{effective_person, FacesService};
use crate::faces::{AssetFaceRow, FacesEvent, PersonId};
use crate::media::flow::UpsertState;
use crate::media::service as media;
use crate::media::service::{original_path_of, MediaService};
use crate::media::{MediaEvent, MediaId, MediaRecord};
use crate::mutation::Mutation;

verus! {

// ── Media ────────────────────────────────────────────────────────────────────

/// A change of the favourite flag reaches the server as it was made: setting it never clears
/// it there, nor the other way round. It is told of exactly the rows that changed.
pub proof fn favorites_are_reported_as_made(
    r: (MediaEvent, Mutation),
    ids: Seq<MediaId>,
    favorite: bool,
)
    requires
        media::follows_favorite(r, ids, favorite),
    ensures
        r.0 is Updated && r.0->Updated_0@ == ids,
        r.1 is AssetFavorited && r.1->AssetFavorited_ids@ == ids,
        r.1->favorite <==> favorite,
        !media::follows_favorite(r, ids, !favorite),
{
}

/// Moving assets to the trash and taking them out are told alike here, as changes of the
/// rows, and apart to the server.
pub proof fn trashing_and_restoring_are_told_apart(
    r: (MediaEvent, Mutation),
    ids: Seq<MediaId>,
)
    ensures
        media::follows_trash(r, ids) <==> (r.0 is Updated && r.0->Updated_0@ == ids
            && r.1 is AssetTrashed && r.1->AssetTrashed_ids@ == ids),
        media::follows_restore(r, ids) <==> (r.0 is Updated && r.0->Updated_0@ == ids
            && r.1 is AssetRestored && r.1->AssetRestored_ids@ == ids),
        !(media::follows_trash(r, ids) && media::follows_restore(r, ids)),
{
}

/// An imported asset is told as new, and its original goes to the server from where it lies:
/// below the directory of originals where the library manages them, and where it always was
/// where it does not.
pub proof fn imports_are_told_as_new(
    r: (MediaEvent, Mutation),
    record: MediaRecord,
    mode: LocalStorageMode,
    originals: Seq<char>,
)
    requires
        media::follows_import(r, record, mode, originals),
    ensures
        r.0 is Added && r.0->Added_0@ == seq![record.id],
        r.1 is AssetImported && r.1->AssetImported_id == record.id,
        mode is Referenced ==> r.1->file_path@ == record.relative_path@,
        mode is Managed && record.relative_path@.len() > 0 && record.relative_path@[0] != '/' ==> {
            let path = r.1->file_path@;
            &&& path.len() > originals.len()
            &&& path.take(originals.len() as int) == originals
            &&& path.skip(path.len() - record.relative_path@.len()) == record.relative_path@
        },
{
    reveal_strlit("/");
    if mode is Managed && record.relative_path@.len() > 0 && record.relative_path@[0] != '/' {
        let path = original_path_of(mode, originals, record.relative_path@);
        assert(path.take(originals.len() as int) =~= originals);
        assert(path.skip(path.len() - record.relative_path@.len()) =~= record.relative_path@);
    }
}

/// A row that was here before is told as changed, and one that was not as new; a row that
/// takes the place of another is told as neither.
pub proof fn stored_rows_are_told_once(
    event: MediaEvent,
    id: MediaId,
    existed: bool,
    replaced: Option<MediaId>,
)
    ensures
        UpsertState::tells(event, id, existed, replaced) <==> media::tells_storing(
            event,
            id,
            existed,
            replaced,
        ),
        media::tells_storing(event, id, existed, replaced) ==> {
            &&& event is Updated <==> existed && replaced is None
            &&& event is Added <==> !existed && replaced is None
            &&& event is Replaced <==> replaced is Some
            &&& event is Updated ==> event->Updated_0@ == seq![id]
            &&& event is Added ==> event->Added_0@ == seq![id]
            &&& event is Replaced ==> event->new == id && event->old == replaced->0
        },
{
}

/// Deleted rows are told as removed, and first. The rows that lost their stack by it are told
/// as changed, and only where there are any.
pub proof fn deletions_tell_who_is_gone_and_who_is_freed(
    events: Seq<MediaEvent>,
    ids: Seq<MediaId>,
    freed: Seq<MediaId>,
)
    requires
        MediaService::tells_deletion(events, ids, freed),
    ensures
        events[0] is Removed && events[0]->Removed_0@ == ids,
        freed.len() == 0 ==> events.len() == 1,
        freed.len() > 0 ==> events.len() == 2 && events[1] is Updated && events[1]->Updated_0@
            == freed,
{
}

/// The server's id of an asset is one that was read for this very asset, and it is found
/// whenever one was.
pub proof fn server_ids_belong_to_their_asset(known: Seq<(String, String)>, id: Seq<char>)
    ensures
        match MediaService::server_id(known, id) {
            Some(server) => exists|i: int|
                0 <= i < known.len() && (#[trigger] known[i]).0@ == id && known[i].1 == server,
            None => forall|i: int| 0 <= i < known.len() ==> (#[trigger] known[i]).0@ != id,
        },
    decreases known.len(),
{
    if known.len() > 0 && known.first().0@ != id {
        let rest = known.drop_first();
        server_ids_belong_to_their_asset(rest, id);
        match MediaService::server_id(rest, id) {
            Some(server) => {
                let i = choose|i: int|
                    0 <= i < rest.len() && (#[trigger] rest[i]).0@ == id && rest[i].1 == server;
                assert(known[i + 1].0@ == id);
            },
            None => {
                assert forall|i: int| 0 <= i < known.len() implies (#[trigger] known[i]).0@
                    != id by {
                    if i > 0 {
                        assert(rest[i - 1].0@ != id);
                    }
                }
            },
        }
    } else if known.len() > 0 {
        assert(known[0].0@ == id);
    }
}

/// A deletion is reported of every asset that was deleted, in order, each with its own
/// server's id.
pub proof fn deletions_are_reported_of_each(
    m: Mutation,
    ids: Seq<MediaId>,
    known: Seq<(String, String)>,
    i: int,
)
    requires
        media::reports_deletion(m, ids, known),
        0 <= i < ids.len(),
    ensures
        m is AssetDeleted && m->items@.len() == ids.len(),
        m->items@[i].0 == ids[i],
        match m->items@[i].1 {
            Some(server) => exists|j: int|
                0 <= j < known.len() && (#[trigger] known[j]).0@ == ids[i]@ && known[j].1 == server,
            None => forall|j: int| 0 <= j < known.len() ==> (#[trigger] known[j]).0@ != ids[i]@,
        },
{
    server_ids_belong_to_their_asset(known, ids[i]@);
}

/// Deleting assets takes along the files that the library manages: one for each asset whose
/// path is recorded, below the directory of originals. A file that the library only refers to
/// is the user's and stays.
pub proof fn only_managed_files_are_removed(
    mode: LocalStorageMode,
    originals: Seq<char>,
    found: Seq<(MediaId, Option<String>)>,
    k: int,
)
    ensures
        mode is Referenced ==> MediaService::doomed_files(mode, originals, found).len() == 0,
        MediaService::doomed_files(mode, originals, found).len() <= found.len(),
        mode is Managed && 0 <= k < found.len() && found[k].1 is Some ==> exists|j: int|
            0 <= j < MediaService::doomed_files(mode, originals, found).len() && (
            #[trigger] MediaService::doomed_files(mode, originals, found)[j]) == (
                found[k].0,
                original_path_of(LocalStorageMode::Managed, originals, found[k].1->0@),
            ),
        mode is Managed && (forall|i: int| 0 <= i < found.len() ==> (#[trigger] found[i]).1 is None)
            ==> MediaService::doomed_files(mode, originals, found).len() == 0,
    decreases found.len(),
{
    if found.len() > 0 && mode is Managed {
        let rest = found.drop_last();
        let before = MediaService::doomed_files(mode, originals, rest);
        let all = MediaService::doomed_files(mode, originals, found);
        only_managed_files_are_removed(mode, originals, rest, k);
        if forall|i: int| 0 <= i < found.len() ==> (#[trigger] found[i]).1 is None {
            assert forall|i: int| 0 <= i < rest.len() implies (#[trigger] rest[i]).1 is None by {
                assert(found[i].1 is None);
            }
            assert(found[found.len() - 1].1 is None);
        }
        if 0 <= k < found.len() && found[k].1 is Some {
            if k == found.len() - 1 {
                assert(all[before.len() as int] == (
                    found[k].0,
                    original_path_of(mode, originals, found[k].1->0@),
                ));
            } else {
                let j = choose|j: int|
                    0 <= j < before.len() && (#[trigger] before[j]) == (
                        rest[k].0,
                        original_path_of(LocalStorageMode::Managed, originals, rest[k].1->0@),
                    );
                assert(all[j] == before[j]);
            }
        }
    }
}

/// A stack that changed is told through its members; where nothing changed, nothing is told.
pub proof fn unchanged_rows_are_not_told(r: Option<MediaEvent>, changed: Seq<MediaId>)
    requires
        media::tells_if_any(r, changed),
    ensures
        r is Some <==> changed.len() > 0,
        r is Some ==> r->0 is Updated && r->0->Updated_0@ == changed,
{
}

// ── Albums ───────────────────────────────────────────────────────────────────

/// An album that was here before is told as changed, and one that was not as new.
pub proof fn stored_albums_are_told(event: AlbumEvent, id: AlbumId, existed: bool)
    requires
        albums::tells_storing(event, id, existed),
    ensures
        event is AlbumUpdated <==> existed,
        event is AlbumAdded <==> !existed,
        event is AlbumUpdated ==> event->AlbumUpdated_0 == id,
        event is AlbumAdded ==> event->AlbumAdded_0 == id,
{
}

/// The server learns of an album under its own id and the name that it was given.
pub proof fn album_names_are_reported(m: Mutation, id: AlbumId, name: Seq<char>)
    ensures
        albums::reports_creation(m, id, name) ==> m is AlbumCreated && m->AlbumCreated_id == id
            && m->AlbumCreated_name@ == name,
        albums::reports_renaming(m, id, name) ==> m is AlbumRenamed && m->AlbumRenamed_id == id
            && m->AlbumRenamed_name@ == name,
{
}

/// A deleted album is told as removed, and the server learns by which of its ids it knew it.
pub proof fn deleted_albums_are_told(
    r: (AlbumEvent, Mutation),
    id: AlbumId,
    external_id: Option<String>,
)
    requires
        albums::follows_deletion(r, id, external_id),
    ensures
        r.0 is AlbumRemoved && r.0->AlbumRemoved_0 == id,
        r.1 is AlbumDeleted && r.1->AlbumDeleted_id == id && r.1->external_id == external_id,
{
}

/// What enters an album and what leaves it is told alike here, and apart to the server.
pub proof fn album_changes_are_told(
    events: Seq<AlbumEvent>,
    m: Mutation,
    id: AlbumId,
    ids: Seq<MediaId>,
)
    ensures
        albums::tells_membership(events, id) <==> (events.len() == 2 && events[0]
            == AlbumEvent::AlbumUpdated(id) && events[1] == AlbumEvent::AlbumMediaChanged(id)),
        albums::reports_adding(m, id, ids) ==> m is AlbumMediaAdded && m->AlbumMediaAdded_album_id
            == id && m->AlbumMediaAdded_media_ids@ == ids,
        albums::reports_removing(m, id, ids) ==> m is AlbumMediaRemoved
            && m->AlbumMediaRemoved_album_id == id && m->AlbumMediaRemoved_media_ids@ == ids,
        !(albums::reports_adding(m, id, ids) && albums::reports_removing(m, id, ids)),
{
    if events.len() == 2 && events[0] == AlbumEvent::AlbumUpdated(id) && events[1]
        == AlbumEvent::AlbumMediaChanged(id) {
        assert(events =~= seq![AlbumEvent::AlbumUpdated(id), AlbumEvent::AlbumMediaChanged(id)]);
    }
}

// ── People ───────────────────────────────────────────────────────────────────

/// A person who was here before is told as changed, and one who was not as new.
pub proof fn stored_people_are_told(event: FacesEvent, id: PersonId, existed: bool)
    requires
        faces::tells_storing(event, id, existed),
    ensures
        event is PersonUpdated <==> existed,
        event is PersonAdded <==> !existed,
        event is PersonUpdated ==> event->PersonUpdated_0 == id,
        event is PersonAdded ==> event->PersonAdded_0 == id,
{
}

/// The server learns of a person's new name, and that they were hidden or shown again, as it
/// was done here.
pub proof fn changes_of_people_are_reported(
    m: Mutation,
    id: PersonId,
    name: Seq<char>,
    hidden: bool,
)
    ensures
        faces::reports_renaming(m, id, name) ==> m is PersonRenamed && m->PersonRenamed_id == id
            && m->PersonRenamed_name@ == name,
        faces::reports_hiding(m, id, hidden) ==> m is PersonHidden && m->PersonHidden_id == id && (
        m->hidden <==> hidden),
        !(faces::reports_hiding(m, id, hidden) && faces::reports_hiding(m, id, !hidden)),
{
}

/// A face counts for the person whom the server names, as long as it is neither hidden nor
/// deleted there; else it counts for nobody.
pub proof fn hidden_and_deleted_faces_count_for_nobody(face: AssetFaceRow)
    ensures
        !face.is_visible ==> effective_person(face) is None,
        face.deleted_at is Some ==> effective_person(face) is None,
        face.is_visible && face.deleted_at is None ==> effective_person(face) == face.person_id,
{
}

/// The people whose media changed are told each under their own id.
pub proof fn people_are_told_under_their_id(
    events: Seq<FacesEvent>,
    people: Seq<Seq<char>>,
    i: int,
)
    requires
        faces::tell_media_changed(events, people),
        0 <= i < people.len(),
    ensures
        events.len() == people.len(),
        events[i] is PersonMediaChanged && events[i]->PersonMediaChanged_0@ == people[i],
{
    assert(faces::tells_media_changed(events[i], people[i]));
}

/// The pictures of two people lie apart, and all of them below the directory of thumbnails.
pub proof fn people_have_their_own_thumbnail(dir: Seq<char>, a: Seq<char>, b: Seq<char>)
    requires
        a.len() > 0 && a[0] != '/',
        b.len() > 0 && b[0] != '/',
    ensures
        FacesService::thumbnail_of(dir, a) == FacesService::thumbnail_of(dir, b) ==> a == b,
        FacesService::thumbnail_of(dir, a).take(dir.len() as int) == dir,
        FacesService::thumbnail_of(dir, a).len() > a.len() + 4,
        FacesService::thumbnail_of(dir, a).skip(
            FacesService::thumbnail_of(dir, a).len() - a.len() - 4,
        ) == a + ".jpg"@,
{
    reveal_strlit("people");
    reveal_strlit("/");
    reveal_strlit(".jpg");
    let p = FacesService::thumbnail_of(dir, a);
    let q = FacesService::thumbnail_of(dir, b);
    assert(p.take(dir.len() as int) =~= dir);
    assert(p.skip(p.len() - a.len() - 4) =~= a + ".jpg"@);
    assert(q.skip(q.len() - b.len() - 4) =~= b + ".jpg"@);
    if p == q {
        assert(a.len() == b.len());
        assert((a + ".jpg"@).take(a.len() as int) =~= a);
        assert((b + ".jpg"@).take(b.len() as int) =~= b);
    }
}

// ── Edits ────────────────────────────────────────────────────────────────────

/// Saving an edit that changes nothing takes the edits away on the server too, and saving any
/// other puts them there.
pub proof fn edits_are_reported(m: Mutation, id: MediaId, state: EditState)
    requires
        reports_edit(m, id, state),
    ensures
        m is AssetEditsCleared <==> state.changes_nothing(),
        m is AssetEditsApplied <==> !state.changes_nothing(),
        m is AssetEditsCleared ==> m->AssetEditsCleared_id == id,
        m is AssetEditsApplied ==> m->AssetEditsApplied_id == id,
{
}

/// People who are gone are told as removed, each under their own id and in order; a face that is
/// gone is told to its person, and to nobody where it had none.
pub proof fn removed_people_are_told(
    events: Seq<FacesEvent>,
    people: Seq<Seq<char>>,
    event: Option<FacesEvent>,
    person: Option<Seq<char>>,
    i: int,
)
    requires
        faces::tell_removed(events, people),
        0 <= i < people.len(),
        faces::tells_face_gone(event, person),
    ensures
        events.len() == people.len(),
        events[i] is PersonRemoved && events[i]->PersonRemoved_0@ == people[i],
        event is Some <==> person is Some,
        event is Some ==> event->0 is PersonMediaChanged && event->0->PersonMediaChanged_0@
            == person->0,
{
    assert(faces::tells_removed(events[i], people[i]));
}

/// The albums that hold some of the given assets are told with how many they hold, each its own.
pub proof fn album_counts_are_told(
    counts: Seq<(AlbumId, usize)>,
    rows: Seq<(String, i64)>,
    i: int,
)
    requires
        counts_by_album(counts, rows),
        0 <= i < rows.len(),
        0 <= rows[i].1 <= usize::MAX,
    ensures
        counts.len() == rows.len(),
        counts[i].0@ == rows[i].0@,
        counts[i].1 == rows[i].1,
{
}

} // verus!
