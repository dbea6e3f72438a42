//! What the user's requests come to.

use vstd::prelude::*;

use crate::album::AlbumId;
use crate::commands::{first_state, requests, CommandOutcome, CommandState};
use crate::error::LibraryError;
use crate::event::AppEvent;
use crate::media::repository::listing;
use crate::media::{MediaFilter, MediaId, MediaItem};

verus! {

/// A request that one library call answers makes that call on exactly what was asked for,
/// and what is told afterwards names the same: the trashed are told as trashed, the restored
/// as restored, the deleted as deleted, and a favourite as what it was made.
pub proof fn requests_are_carried_out_as_asked(
    ids: Vec<MediaId>,
    state: bool,
    album_id: AlbumId,
    next: CommandState,
    told: Option<AppEvent>,
)
    ensures
        first_state(AppEvent::TrashRequested { ids }) == (CommandState::Trash { ids }),
        (CommandState::Trash { ids }).leads_to(CommandOutcome::Done, next, told) ==> told == Some(
            AppEvent::Trashed { ids },
        ) && next is Finished,
        first_state(AppEvent::RestoreRequested { ids }) == (CommandState::Restore { ids }),
        (CommandState::Restore { ids }).leads_to(CommandOutcome::Done, next, told) ==> told == Some(
            AppEvent::Restored { ids },
        ) && next is Finished,
        first_state(AppEvent::DeleteRequested { ids }) == (CommandState::Delete { ids }),
        (CommandState::Delete { ids }).leads_to(CommandOutcome::Done, next, told) ==> told == Some(
            AppEvent::Deleted { ids },
        ) && next is Finished,
        first_state(AppEvent::FavoriteRequested { ids, state }) == (CommandState::SetFavorite {
            ids,
            state,
        }),
        (CommandState::SetFavorite { ids, state }).leads_to(CommandOutcome::Done, next, told)
            ==> told == Some(AppEvent::FavoriteChanged { ids, is_favorite: state })
            && next is Finished,
        first_state(AppEvent::AddToAlbumRequested { album_id, ids }) == (CommandState::AddToAlbum {
            album_id,
            ids,
        }),
        (CommandState::AddToAlbum { album_id, ids }).leads_to(CommandOutcome::Done, next, told)
            ==> told == Some(AppEvent::AlbumMediaChanged { album_id }) && next is Finished,
        first_state(AppEvent::RemoveFromAlbumRequested { album_id, ids }) == (
        CommandState::RemoveFromAlbum { album_id, ids }),
        (CommandState::RemoveFromAlbum { album_id, ids }).leads_to(CommandOutcome::Done, next, told)
            ==> told == Some(AppEvent::AlbumMediaChanged { album_id }) && next is Finished,
{
}

/// A new album is announced under its name, and what was to be in it is then put into that
/// very album; where nothing was, that is all.
pub proof fn new_albums_are_filled(
    name: String,
    ids: Vec<MediaId>,
    id: AlbumId,
    next: CommandState,
    told: Option<AppEvent>,
)
    requires
        first_state(AppEvent::CreateAlbumRequested { name, ids }).leads_to(
            CommandOutcome::AlbumCreated(id),
            next,
            told,
        ),
    ensures
        first_state(AppEvent::CreateAlbumRequested { name, ids }) == (CommandState::CreateAlbum {
            name,
            ids,
        }),
        told == Some(AppEvent::AlbumCreated { id, name }),
        ids@.len() > 0 ==> next == (CommandState::AddToAlbum { album_id: id, ids }),
        ids@.len() == 0 ==> next is Finished,
{
}

/// Emptying the trash deletes what the trash holds, and restoring it restores that: each of
/// the items that were listed, in their order, and nothing else. The listing is of the whole
/// trash, and an empty trash needs nothing.
pub proof fn the_whole_trash_is_dealt_with(
    items: Vec<MediaItem>,
    emptied: CommandState,
    restored: CommandState,
    a: Option<AppEvent>,
    b: Option<AppEvent>,
    i: int,
)
    requires
        first_state(AppEvent::EmptyTrashRequested).leads_to(
            CommandOutcome::TrashListed(items),
            emptied,
            a,
        ),
        first_state(AppEvent::RestoreAllTrashRequested).leads_to(
            CommandOutcome::TrashListed(items),
            restored,
            b,
        ),
    ensures
        first_state(AppEvent::EmptyTrashRequested).asks() == Some(
            listing(MediaFilter::Trashed, None, u32::MAX),
        ),
        first_state(AppEvent::RestoreAllTrashRequested).asks() == Some(
            listing(MediaFilter::Trashed, None, u32::MAX),
        ),
        items@.len() == 0 ==> emptied is Finished && restored is Finished,
        items@.len() > 0 ==> {
            &&& emptied matches CommandState::EmptyTrash { ids } && ids@.len() == items@.len() && (
            0 <= i < items@.len() ==> ids@[i] == items@[i].id)
            &&& restored matches CommandState::Restore { ids } && ids@.len() == items@.len() && (
            0 <= i < items@.len() ==> ids@[i] == items@[i].id)
        },
        a is None && b is None,
{
}

/// What was emptied out of the trash is told as deleted.
pub proof fn emptied_trash_is_told_as_deleted(
    ids: Vec<MediaId>,
    next: CommandState,
    told: Option<AppEvent>,
)
    requires
        (CommandState::EmptyTrash { ids }).leads_to(CommandOutcome::Done, next, told),
    ensures
        told == Some(AppEvent::Deleted { ids }),
        next is Finished,
{
}

/// A call that fails is told in the words of the request and of the failure. It ends the
/// command, but for the deletion of albums, which goes on with the next.
pub proof fn failed_calls_are_told(
    state: CommandState,
    e: LibraryError,
    next: CommandState,
    told: Option<AppEvent>,
)
    requires
        state.wf(),
        state.leads_to(CommandOutcome::Failed(e), next, told),
    ensures
        told matches Some(AppEvent::Error(m)) && m@.len() >= e.text().len() && m@.skip(
            m@.len() - e.text().len(),
        ) == e.text(),
        state is Trash ==> told->0->Error_0@ == "Failed to move to trash: "@ + e.text(),
        state is Restore ==> told->0->Error_0@ == "Failed to restore: "@ + e.text(),
        state is Delete ==> told->0->Error_0@ == "Failed to delete: "@ + e.text(),
        state is SetFavorite ==> told->0->Error_0@ == "Failed to update favourite: "@ + e.text(),
        state is AddToAlbum ==> told->0->Error_0@ == "Failed to add to album: "@ + e.text(),
        state is RemoveFromAlbum ==> told->0->Error_0@ == "Failed to remove from album: "@
            + e.text(),
        state is CreateAlbum ==> told->0->Error_0@ == "Failed to create album: "@ + e.text(),
        state is DeleteAlbum ==> told->0->Error_0@ == "Failed to delete album: "@ + e.text(),
        state is ListTrashToEmpty || state is EmptyTrash ==> told->0->Error_0@
            == "Failed to empty trash: "@ + e.text(),
        state is ListTrashToRestore ==> told->0->Error_0@ == "Failed to restore trash: "@
            + e.text(),
        !(state is DeleteAlbum) ==> next is Finished,
        state matches CommandState::DeleteAlbum { ids, next: i } ==> (if i + 1 < ids@.len() {
            next matches CommandState::DeleteAlbum { ids: rest, next: j } && rest == ids && j
                == i + 1
        } else {
            next is Finished
        }),
{
    let m = told->0->Error_0@;
    assert(m.skip(m.len() - e.text().len()) =~= e.text());
}

/// The requests are the commands, and what is told of them afterwards is none: no command
/// sets off another.
pub proof fn results_are_no_requests(event: AppEvent)
    ensures
        requests(event) <==> event is TrashRequested || event is RestoreRequested
            || event is DeleteRequested || event is FavoriteRequested
            || event is AddToAlbumRequested || event is RemoveFromAlbumRequested
            || event is CreateAlbumRequested || event is DeleteAlbumRequested
            || event is EmptyTrashRequested || event is RestoreAllTrashRequested,
        !requests(event) ==> first_state(event) is Finished,
{
}

/// Albums are deleted one after the other from the first, each told under its own id.
pub proof fn albums_are_deleted_in_turn(
    ids: Vec<AlbumId>,
    i: usize,
    next: CommandState,
    told: Option<AppEvent>,
)
    requires
        i < ids@.len(),
        (CommandState::DeleteAlbum { ids, next: i }).leads_to(CommandOutcome::Done, next, told),
    ensures
        first_state(AppEvent::DeleteAlbumRequested { ids }) == (CommandState::DeleteAlbum {
            ids,
            next: 0,
        }),
        told == Some(AppEvent::AlbumDeleted { id: ids@[i as int] }),
        i + 1 == ids@.len() ==> next is Finished,
        i + 1 < ids@.len() ==> (next matches CommandState::DeleteAlbum { ids: rest, next: j }
            && rest == ids && j == i + 1),
{
}

} // verus!
