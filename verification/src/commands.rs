//! The commands of the user, as a machine: a state says which library call comes
//! next, and the outcome of that call leads to the next state and to the event
//! that tells the application what happened.

use vstd::prelude::*;
use vstd::string::*;

use crate::album::AlbumId;
use crate::error::{prefixed, LibraryError};
use crate::event::AppEvent;
use crate::media::repository::{listing, MediaRepository};
use crate::media::{MediaFilter, MediaId, MediaItem};
use crate::sql::{PartData, Statement};

verus! {

/// The library call that a command needs next.
#[derive(Debug)]
pub enum CommandState {
    Trash { ids: Vec<MediaId> },
    Restore { ids: Vec<MediaId> },
    Delete { ids: Vec<MediaId> },
    SetFavorite { ids: Vec<MediaId>, state: bool },
    RemoveFromAlbum { album_id: AlbumId, ids: Vec<MediaId> },
    AddToAlbum { album_id: AlbumId, ids: Vec<MediaId> },
    /// Create an album, which `ids` are to be added to afterwards.
    CreateAlbum { name: String, ids: Vec<MediaId> },
    /// Delete the album `ids[next]`, then those after it.
    DeleteAlbum { ids: Vec<AlbumId>, next: usize },
    /// List the whole trash, which is to be emptied.
    ListTrashToEmpty,
    /// Delete what the trash was found to hold.
    EmptyTrash { ids: Vec<MediaId> },
    /// List the whole trash, which is to be restored.
    ListTrashToRestore,
    /// Nothing is left to do.
    Finished,
}

/// What a library call gave.
#[derive(Debug)]
pub enum CommandOutcome {
    Done,
    AlbumCreated(AlbumId),
    TrashListed(Vec<MediaItem>),
    Failed(LibraryError),
}

/// Whether the event is a request that the library handles.
pub open spec fn requests(event: AppEvent) -> bool {
    match event {
        AppEvent::TrashRequested { .. } => true,
        AppEvent::RestoreRequested { .. } => true,
        AppEvent::DeleteRequested { .. } => true,
        AppEvent::FavoriteRequested { .. } => true,
        AppEvent::RemoveFromAlbumRequested { .. } => true,
        AppEvent::AddToAlbumRequested { .. } => true,
        AppEvent::CreateAlbumRequested { .. } => true,
        AppEvent::DeleteAlbumRequested { .. } => true,
        AppEvent::EmptyTrashRequested => true,
        AppEvent::RestoreAllTrashRequested => true,
        _ => false,
    }
}

/// Whether the event is a request that the library handles.
pub fn is_command(event: &AppEvent) -> (r: bool)
    ensures
        r == requests(*event),
{
    match event {
        AppEvent::TrashRequested { .. } => true,
        AppEvent::RestoreRequested { .. } => true,
        AppEvent::DeleteRequested { .. } => true,
        AppEvent::FavoriteRequested { .. } => true,
        AppEvent::RemoveFromAlbumRequested { .. } => true,
        AppEvent::AddToAlbumRequested { .. } => true,
        AppEvent::CreateAlbumRequested { .. } => true,
        AppEvent::DeleteAlbumRequested { .. } => true,
        AppEvent::EmptyTrashRequested => true,
        AppEvent::RestoreAllTrashRequested => true,
        _ => false,
    }
}

/// The state in which the command of an event begins. Other events need nothing.
pub open spec fn first_state(event: AppEvent) -> CommandState {
    match event {
        AppEvent::TrashRequested { ids } => CommandState::Trash { ids },
        AppEvent::RestoreRequested { ids } => CommandState::Restore { ids },
        AppEvent::DeleteRequested { ids } => CommandState::Delete { ids },
        AppEvent::FavoriteRequested { ids, state } => CommandState::SetFavorite { ids, state },
        AppEvent::RemoveFromAlbumRequested { album_id, ids } => CommandState::RemoveFromAlbum {
            album_id,
            ids,
        },
        AppEvent::AddToAlbumRequested { album_id, ids } => CommandState::AddToAlbum {
            album_id,
            ids,
        },
        AppEvent::CreateAlbumRequested { name, ids } => CommandState::CreateAlbum { name, ids },
        AppEvent::DeleteAlbumRequested { ids } => if ids.len() == 0 {
            CommandState::Finished
        } else {
            CommandState::DeleteAlbum { ids, next: 0 }
        },
        AppEvent::EmptyTrashRequested => CommandState::ListTrashToEmpty,
        AppEvent::RestoreAllTrashRequested => CommandState::ListTrashToRestore,
        _ => CommandState::Finished,
    }
}

/// Begins the command of an event.
pub fn begin(event: AppEvent) -> (r: CommandState)
    ensures
        r == first_state(event),
        r.wf(),
{
    match event {
        AppEvent::TrashRequested { ids } => CommandState::Trash { ids },
        AppEvent::RestoreRequested { ids } => CommandState::Restore { ids },
        AppEvent::DeleteRequested { ids } => CommandState::Delete { ids },
        AppEvent::FavoriteRequested { ids, state } => CommandState::SetFavorite { ids, state },
        AppEvent::RemoveFromAlbumRequested { album_id, ids } => CommandState::RemoveFromAlbum {
            album_id,
            ids,
        },
        AppEvent::AddToAlbumRequested { album_id, ids } => CommandState::AddToAlbum {
            album_id,
            ids,
        },
        AppEvent::CreateAlbumRequested { name, ids } => CommandState::CreateAlbum { name, ids },
        AppEvent::DeleteAlbumRequested { ids } => if ids.len() == 0 {
            CommandState::Finished
        } else {
            CommandState::DeleteAlbum { ids, next: 0 }
        },
        AppEvent::EmptyTrashRequested => CommandState::ListTrashToEmpty,
        AppEvent::RestoreAllTrashRequested => CommandState::ListTrashToRestore,
        _ => CommandState::Finished,
    }
}

/// The ids of items, in their order.
pub open spec fn item_ids(items: Seq<MediaItem>) -> Seq<MediaId> {
    items.map_values(|i: MediaItem| i.id)
}

fn ids_of(items: Vec<MediaItem>) -> (r: Vec<MediaId>)
    ensures
        r@ == item_ids(items@),
{
    let mut out: Vec<MediaId> = Vec::new();
    let n: usize = items.len();
    let mut i: usize = 0;
    while i < n
        invariant
            i <= n,
            n == items@.len(),
            out@ == item_ids(items@.take(i as int)),
        decreases n - i,
    {
        out.push(items[i].id.clone());
        i += 1;
        assert(item_ids(items@.take(i as int)) =~= item_ids(items@.take(i - 1)).push(
            items@[i - 1].id,
        ));
    }
    assert(items@.take(n as int) =~= items@);
    out
}

impl CommandState {
    /// What the database is asked where the call is to list the whole trash.
    pub open spec fn asks(self) -> Option<Seq<PartData>> {
        match self {
            CommandState::ListTrashToEmpty | CommandState::ListTrashToRestore => Some(
                listing(MediaFilter::Trashed, None, u32::MAX),
            ),
            _ => None,
        }
    }

    /// The query that lists the whole trash, where that is the call.
    pub fn query(&self) -> (r: Option<Statement>)
        ensures
            match r {
                Some(q) => self.asks() == Some(q@),
                None => self.asks() is None,
            },
    {
        match self {
            CommandState::ListTrashToEmpty | CommandState::ListTrashToRestore => Some(
                MediaRepository::list(&MediaFilter::Trashed, &None, u32::MAX),
            ),
            _ => None,
        }
    }

    /// A batch of album deletions always has an album next.
    pub open spec fn wf(self) -> bool {
        match self {
            CommandState::DeleteAlbum { ids, next } => next < ids.len(),
            _ => true,
        }
    }

    /// How the message begins when the state's library call fails.
    pub open spec fn complaint(self) -> Seq<char> {
        match self {
            CommandState::Trash { .. } => "Failed to move to trash: "@,
            CommandState::Restore { .. } => "Failed to restore: "@,
            CommandState::Delete { .. } => "Failed to delete: "@,
            CommandState::SetFavorite { .. } => "Failed to update favourite: "@,
            CommandState::RemoveFromAlbum { .. } => "Failed to remove from album: "@,
            CommandState::AddToAlbum { .. } => "Failed to add to album: "@,
            CommandState::CreateAlbum { .. } => "Failed to create album: "@,
            CommandState::DeleteAlbum { .. } => "Failed to delete album: "@,
            CommandState::ListTrashToEmpty => "Failed to empty trash: "@,
            CommandState::EmptyTrash { .. } => "Failed to empty trash: "@,
            CommandState::ListTrashToRestore => "Failed to restore trash: "@,
            CommandState::Finished => Seq::empty(),
        }
    }

    /// Whether the state's library call can have this outcome.
    pub open spec fn admits(self, outcome: CommandOutcome) -> bool {
        match self {
            CommandState::Finished => false,
            CommandState::CreateAlbum { .. } => outcome is AlbumCreated || outcome is Failed,
            CommandState::ListTrashToEmpty => outcome is TrashListed || outcome is Failed,
            CommandState::ListTrashToRestore => outcome is TrashListed || outcome is Failed,
            _ => outcome is Done || outcome is Failed,
        }
    }

    /// The most library calls that the command can still make.
    pub open spec fn calls_left(self) -> nat {
        match self {
            CommandState::Finished => 0,
            CommandState::CreateAlbum { ids, .. } => if ids.len() == 0 {
                1
            } else {
                2
            },
            CommandState::ListTrashToEmpty => 2,
            CommandState::ListTrashToRestore => 2,
            CommandState::DeleteAlbum { ids, next } => (ids.len() - next) as nat,
            _ => 1,
        }
    }

    /// The state after the album at `next`: the one after it, or the end.
    pub open spec fn after_album(ids: Vec<AlbumId>, next: usize) -> CommandState {
        if next + 1 < ids.len() {
            CommandState::DeleteAlbum { ids, next: (next + 1) as usize }
        } else {
            CommandState::Finished
        }
    }

    /// Whether an outcome leads from this state to `next`, telling `told`.
    ///
    /// A failed call is told as an error and ends the command, but the deletion of
    /// several albums goes on to the next one. A new album is announced before the
    /// media are added to it. An empty trash is told nothing of.
    pub open spec fn leads_to(
        self,
        outcome: CommandOutcome,
        next: CommandState,
        told: Option<AppEvent>,
    ) -> bool {
        match outcome {
            CommandOutcome::Failed(e) => {
                &&& told matches Some(AppEvent::Error(m)) && m@ == self.complaint() + e.text()
                &&& match self {
                    CommandState::DeleteAlbum { ids, next: i } => next
                        == CommandState::after_album(ids, i),
                    _ => next is Finished,
                }
            },
            CommandOutcome::AlbumCreated(id) => match self {
                CommandState::CreateAlbum { name, ids } => {
                    &&& told == Some(AppEvent::AlbumCreated { id, name })
                    &&& next == if ids.len() == 0 {
                        CommandState::Finished
                    } else {
                        CommandState::AddToAlbum { album_id: id, ids }
                    }
                },
                _ => false,
            },
            CommandOutcome::TrashListed(items) => {
                &&& told is None
                &&& if items@.len() == 0 {
                    next is Finished
                } else {
                    match self {
                        CommandState::ListTrashToEmpty => next matches CommandState::EmptyTrash {
                            ids,
                        } && ids@ == item_ids(items@),
                        CommandState::ListTrashToRestore => next matches CommandState::Restore {
                            ids,
                        } && ids@ == item_ids(items@),
                        _ => false,
                    }
                }
            },
            CommandOutcome::Done => match self {
                CommandState::Trash { ids } => next is Finished && told == Some(
                    AppEvent::Trashed { ids },
                ),
                CommandState::Restore { ids } => next is Finished && told == Some(
                    AppEvent::Restored { ids },
                ),
                CommandState::Delete { ids } => next is Finished && told == Some(
                    AppEvent::Deleted { ids },
                ),
                CommandState::EmptyTrash { ids } => next is Finished && told == Some(
                    AppEvent::Deleted { ids },
                ),
                CommandState::SetFavorite { ids, state } => next is Finished && told == Some(
                    AppEvent::FavoriteChanged { ids, is_favorite: state },
                ),
                CommandState::RemoveFromAlbum { album_id, .. } => next is Finished && told == Some(
                    AppEvent::AlbumMediaChanged { album_id },
                ),
                CommandState::AddToAlbum { album_id, .. } => next is Finished && told == Some(
                    AppEvent::AlbumMediaChanged { album_id },
                ),
                CommandState::DeleteAlbum { ids, next: i } => next == CommandState::after_album(
                    ids,
                    i,
                ) && told == Some(AppEvent::AlbumDeleted { id: ids@[i as int] }),
                _ => false,
            },
        }
    }

    fn complaint_text(&self) -> (r: String)
        requires
            !(self is Finished),
        ensures
            r@ == self.complaint(),
    {
        let s = match self {
            CommandState::Trash { .. } => "Failed to move to trash: ",
            CommandState::Restore { .. } => "Failed to restore: ",
            CommandState::Delete { .. } => "Failed to delete: ",
            CommandState::SetFavorite { .. } => "Failed to update favourite: ",
            CommandState::RemoveFromAlbum { .. } => "Failed to remove from album: ",
            CommandState::AddToAlbum { .. } => "Failed to add to album: ",
            CommandState::CreateAlbum { .. } => "Failed to create album: ",
            CommandState::DeleteAlbum { .. } => "Failed to delete album: ",
            CommandState::ListTrashToEmpty => "Failed to empty trash: ",
            CommandState::EmptyTrash { .. } => "Failed to empty trash: ",
            CommandState::ListTrashToRestore => "Failed to restore trash: ",
            CommandState::Finished => "",
        };
        s.to_owned()
    }

    /// Takes the outcome of the state's library call: the next state, and what the
    /// application is told.
    pub fn advance(self, outcome: CommandOutcome) -> (r: (CommandState, Option<AppEvent>))
        requires
            self.wf(),
            self.admits(outcome),
        ensures
            self.leads_to(outcome, r.0, r.1),
            r.0.wf(),
            r.0.calls_left() < self.calls_left(),
    {
        match outcome {
            CommandOutcome::Failed(e) => {
                let mut message = self.complaint_text();
                message.append(e.to_string().as_str());
                let next = match self {
                    CommandState::DeleteAlbum { ids, next } => if next + 1 < ids.len() {
                        CommandState::DeleteAlbum { ids, next: next + 1 }
                    } else {
                        CommandState::Finished
                    },
                    _ => CommandState::Finished,
                };
                (next, Some(AppEvent::Error(message)))
            },
            CommandOutcome::AlbumCreated(id) => match self {
                CommandState::CreateAlbum { name, ids } => {
                    let told = AppEvent::AlbumCreated { id: id.clone(), name };
                    if ids.len() == 0 {
                        (CommandState::Finished, Some(told))
                    } else {
                        (CommandState::AddToAlbum { album_id: id, ids }, Some(told))
                    }
                },
                _ => (CommandState::Finished, None),
            },
            CommandOutcome::TrashListed(items) => if items.len() == 0 {
                (CommandState::Finished, None)
            } else {
                let ids = ids_of(items);
                match self {
                    CommandState::ListTrashToEmpty => (CommandState::EmptyTrash { ids }, None),
                    _ => (CommandState::Restore { ids }, None),
                }
            },
            CommandOutcome::Done => match self {
                CommandState::Trash { ids } => (
                    CommandState::Finished,
                    Some(AppEvent::Trashed { ids }),
                ),
                CommandState::Restore { ids } => (
                    CommandState::Finished,
                    Some(AppEvent::Restored { ids }),
                ),
                CommandState::Delete { ids } => (
                    CommandState::Finished,
                    Some(AppEvent::Deleted { ids }),
                ),
                CommandState::EmptyTrash { ids } => (
                    CommandState::Finished,
                    Some(AppEvent::Deleted { ids }),
                ),
                CommandState::SetFavorite { ids, state } => (
                    CommandState::Finished,
                    Some(AppEvent::FavoriteChanged { ids, is_favorite: state }),
                ),
                CommandState::RemoveFromAlbum { album_id, .. } => (
                    CommandState::Finished,
                    Some(AppEvent::AlbumMediaChanged { album_id }),
                ),
                CommandState::AddToAlbum { album_id, .. } => (
                    CommandState::Finished,
                    Some(AppEvent::AlbumMediaChanged { album_id }),
                ),
                CommandState::DeleteAlbum { ids, next } => {
                    let id = ids[next].clone();
                    let after = if next + 1 < ids.len() {
                        CommandState::DeleteAlbum { ids, next: next + 1 }
                    } else {
                        CommandState::Finished
                    };
                    (after, Some(AppEvent::AlbumDeleted { id }))
                },
                _ => (CommandState::Finished, None),
            },
        }
    }
}

// ── Laws ─────────────────────────────────────────────────────────────────────

/// A run of the machine: each outcome leads from one state to the next and tells
/// the event at its place.
pub open spec fn is_run(
    states: Seq<CommandState>,
    outcomes: Seq<CommandOutcome>,
    told: Seq<Option<AppEvent>>,
) -> bool {
    &&& states.len() == outcomes.len() + 1
    &&& told.len() == outcomes.len()
    &&& forall|i: int|
        0 <= i < outcomes.len() ==> #[trigger] states[i].wf() && states[i].admits(outcomes[i])
            && states[i].leads_to(outcomes[i], states[i + 1], told[i])
}

/// An event is a command exactly where it begins with a library call, but for the
/// deletion of no albums, which needs none.
pub proof fn commands_begin_with_a_call(event: AppEvent)
    ensures
        !requests(event) ==> first_state(event) is Finished,
        requests(event) && first_state(event) is Finished ==> (event matches
            AppEvent::DeleteAlbumRequested { ids } && ids.len() == 0),
{
}

/// Every library call but the listing of the trash is answered with exactly one
/// event, and a failed listing too.
pub proof fn every_call_is_answered(
    state: CommandState,
    outcome: CommandOutcome,
    next: CommandState,
    told: Option<AppEvent>,
)
    requires
        state.wf(),
        state.admits(outcome),
        state.leads_to(outcome, next, told),
    ensures
        told is None <==> outcome is TrashListed,
        outcome is Failed <==> (told matches Some(AppEvent::Error(_))),
{
}

/// The deletion of several albums makes one call for each album in order, whatever
/// the others give, and tells of each album that it was deleted or that it failed.
pub proof fn each_album_is_deleted_or_reported(
    ids: Vec<AlbumId>,
    states: Seq<CommandState>,
    outcomes: Seq<CommandOutcome>,
    told: Seq<Option<AppEvent>>,
)
    requires
        ids.len() > 0,
        is_run(states, outcomes, told),
        states.first() == first_state(AppEvent::DeleteAlbumRequested { ids }),
        states.last() is Finished,
    ensures
        outcomes.len() == ids.len(),
        forall|i: int|
            0 <= i < ids.len() ==> match #[trigger] outcomes[i] {
                CommandOutcome::Done => told[i] == Some(AppEvent::AlbumDeleted { id: ids@[i] }),
                CommandOutcome::Failed(e) => told[i] matches Some(AppEvent::Error(m)) && m@
                    == "Failed to delete album: "@ + e.text(),
                _ => false,
            },
{
    album_run_states(ids, states, outcomes, told, outcomes.len() as int);
    assert forall|i: int| 0 <= i < ids.len() implies match #[trigger] outcomes[i] {
        CommandOutcome::Done => told[i] == Some(AppEvent::AlbumDeleted { id: ids@[i] }),
        CommandOutcome::Failed(e) => told[i] matches Some(AppEvent::Error(m)) && m@
            == "Failed to delete album: "@ + e.text(),
        _ => false,
    } by {
        album_run_states(ids, states, outcomes, told, i);
        assert(states[i].wf());
    }
}

/// The states that the deletion of several albums goes through.
proof fn album_run_states(
    ids: Vec<AlbumId>,
    states: Seq<CommandState>,
    outcomes: Seq<CommandOutcome>,
    told: Seq<Option<AppEvent>>,
    k: int,
)
    requires
        ids.len() > 0,
        is_run(states, outcomes, told),
        states.first() == first_state(AppEvent::DeleteAlbumRequested { ids }),
        0 <= k <= outcomes.len(),
    ensures
        k <= ids.len(),
        k < ids.len() ==> states[k] == (CommandState::DeleteAlbum { ids, next: k as usize }),
        k == ids.len() ==> states[k] is Finished,
    decreases k,
{
    if k > 0 {
        album_run_states(ids, states, outcomes, told, k - 1);
        assert(states[k - 1].wf());
        assert(states[k - 1].leads_to(outcomes[k - 1], states[k - 1 + 1], told[k - 1]));
    }
}

/// A command ends: it makes no more library calls than its first state allows.
pub proof fn commands_end(
    states: Seq<CommandState>,
    outcomes: Seq<CommandOutcome>,
    told: Seq<Option<AppEvent>>,
)
    requires
        is_run(states, outcomes, told),
    ensures
        outcomes.len() <= states.first().calls_left(),
{
    calls_run_out(states, outcomes, told, outcomes.len() as int);
}

proof fn calls_run_out(
    states: Seq<CommandState>,
    outcomes: Seq<CommandOutcome>,
    told: Seq<Option<AppEvent>>,
    k: int,
)
    requires
        is_run(states, outcomes, told),
        0 <= k <= outcomes.len(),
    ensures
        k + states[k].calls_left() <= states.first().calls_left(),
    decreases k,
{
    if k > 0 {
        calls_run_out(states, outcomes, told, k - 1);
        assert(states[k - 1].wf());
        assert(states[k - 1].leads_to(outcomes[k - 1], states[k - 1 + 1], told[k - 1]));
    }
}

} // verus!
