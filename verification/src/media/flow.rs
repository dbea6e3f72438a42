//! Changes of media rows that take several steps in the database: a state says what is to be
//! asked next, and the reply leads to the next state.

use vstd::prelude::*;

use crate::error::LibraryError;
use crate::media::repository::{
    asset_tables, clears_assets, displacement, freed_query, import_time_query, keep_time, kept_time, over_ids,
    presence_query, server_ids_query, upsertion, MediaRepository,
};
use crate::media::service::{updates, MediaService};
use crate::media::{MediaEvent, MediaId, MediaRecord};
use crate::mutation::Mutation;
use crate::sql::{media_keys, PartData, Statement};

verus! {

// ── Rows from the server ─────────────────────────────────────────────────────

/// What is to be done next to store a row from the server.
#[derive(Debug)]
pub enum UpsertState {
    /// Ask whether the row is there.
    Look { record: MediaRecord },
    /// Ask when the row that is there was imported.
    ReadTime { record: MediaRecord, existed: bool },
    /// Remove a row under another id that the server knows by this one.
    Displace { record: MediaRecord, existed: bool, imported_at: Option<i64> },
    /// Store the row.
    Store {
        record: MediaRecord,
        existed: bool,
        imported_at: Option<i64>,
        replaced: Option<MediaId>,
    },
    /// Done; subscribers are told.
    Finished { event: MediaEvent },
    Failed { error: LibraryError },
}

/// What the database answered.
#[derive(Debug)]
pub enum UpsertReply {
    Found(bool),
    ImportedAt(Option<i64>),
    /// The id of the row that was removed, and when it was imported.
    Displaced(Option<(String, i64)>),
    Done,
    Failed(LibraryError),
}

impl UpsertState {
    /// Whether the state can have this reply.
    pub open spec fn admits(self, reply: UpsertReply) -> bool {
        match self {
            UpsertState::Look { .. } => reply is Failed || reply is Found,
            UpsertState::ReadTime { .. } => reply is Failed || reply is ImportedAt,
            UpsertState::Displace { .. } => reply is Failed || reply is Displaced,
            UpsertState::Store { .. } => reply is Failed || reply is Done,
            _ => false,
        }
    }

    /// Begins to store a row.
    pub fn begin(record: MediaRecord) -> (r: Self)
        ensures
            r == (UpsertState::Look { record }),
    {
        UpsertState::Look { record }
    }

    /// What the database is asked in this state.
    pub open spec fn asks(self) -> Option<Seq<PartData>> {
        match self {
            UpsertState::Look { record } => Some(presence_query(record.id@)),
            UpsertState::ReadTime { record, .. } => Some(import_time_query(record.id@)),
            UpsertState::Displace { record, .. } => Some(displacement(record.id@)),
            UpsertState::Store { record, imported_at, .. } => Some(
                upsertion(record, kept_time(imported_at, record.imported_at)),
            ),
            _ => None,
        }
    }

    /// The statement for the database, as long as there is one.
    pub fn statement(&self) -> (r: Option<Statement>)
        ensures
            match r {
                Some(q) => self.asks() == Some(q@),
                None => self.asks() is None,
            },
    {
        match self {
            UpsertState::Look { record } => Some(MediaRepository::exists_by_id(&record.id)),
            UpsertState::ReadTime { record, .. } => Some(MediaRepository::imported_at(&record.id)),
            UpsertState::Displace { record, .. } => Some(MediaRepository::displace(&record.id)),
            UpsertState::Store { record, imported_at, .. } => Some(
                MediaRepository::upsert(record, *imported_at),
            ),
            _ => None,
        }
    }

    /// Whether `event` is what subscribers get of a stored row: that it took the place of
    /// another, else that it changed or is new.
    pub open spec fn tells(
        event: MediaEvent,
        id: MediaId,
        existed: bool,
        replaced: Option<MediaId>,
    ) -> bool {
        match replaced {
            Some(old) => event == (MediaEvent::Replaced { old, new: id }),
            None => if existed {
                updates(event, seq![id])
            } else {
                event matches MediaEvent::Added(v) && v@ == seq![id]
            },
        }
    }

    /// Whether a reply leads from one state to the next. Any failure ends the matter. A row
    /// that was not here under its own id takes over the import time of the row whose place
    /// it takes.
    pub open spec fn leads_to(self, reply: UpsertReply, next: UpsertState) -> bool {
        match (self, reply) {
            (_, UpsertReply::Failed(error)) => next == (UpsertState::Failed { error }),
            (UpsertState::Look { record }, UpsertReply::Found(existed)) => next == (
            UpsertState::ReadTime { record, existed }),
            (
                UpsertState::ReadTime { record, existed },
                UpsertReply::ImportedAt(imported_at),
            ) => next == (UpsertState::Displace { record, existed, imported_at }),
            (
                UpsertState::Displace { record, existed, imported_at },
                UpsertReply::Displaced(removed),
            ) => next matches UpsertState::Store {
                record: r,
                existed: e,
                imported_at: i,
                replaced,
            } && r == record && e == existed && (match removed {
                Some((id, t)) => (replaced matches Some(old) && old@ == id@) && i == Some(
                    kept_time(imported_at, t),
                ),
                None => replaced is None && i == imported_at,
            }),
            (
                UpsertState::Store { record, existed, replaced, .. },
                UpsertReply::Done,
            ) => next matches UpsertState::Finished { event } && Self::tells(
                event,
                record.id,
                existed,
                replaced,
            ),
            _ => false,
        }
    }

    /// Takes a reply.
    pub fn advance(self, reply: UpsertReply) -> (r: Self)
        requires
            self.admits(reply),
        ensures
            self.leads_to(reply, r),
    {
        match (self, reply) {
            (_, UpsertReply::Failed(error)) => UpsertState::Failed { error },
            (UpsertState::Look { record }, UpsertReply::Found(existed)) => UpsertState::ReadTime {
                record,
                existed,
            },
            (
                UpsertState::ReadTime { record, existed },
                UpsertReply::ImportedAt(imported_at),
            ) => UpsertState::Displace { record, existed, imported_at },
            (
                UpsertState::Displace { record, existed, imported_at },
                UpsertReply::Displaced(removed),
            ) => {
                match removed {
                    Some((id, t)) => UpsertState::Store {
                        record,
                        existed,
                        imported_at: Some(keep_time(imported_at, t)),
                        replaced: Some(MediaId::new(id)),
                    },
                    None => UpsertState::Store { record, existed, imported_at, replaced: None },
                }
            },
            (
                UpsertState::Store { record, existed, replaced, .. },
                UpsertReply::Done,
            ) => UpsertState::Finished {
                event: MediaService::upsert_media(&record.id, existed, replaced),
            },
            (state, _) => state,
        }
    }
}

/// A run of the upsert machine.
pub open spec fn is_upsert(
    record: MediaRecord,
    states: Seq<UpsertState>,
    replies: Seq<UpsertReply>,
) -> bool {
    &&& states.len() == replies.len() + 1
    &&& states.first() == (UpsertState::Look { record })
    &&& forall|i: int|
        0 <= i < replies.len() ==> #[trigger] states[i].admits(replies[i]) && states[i].leads_to(
            replies[i],
            states[i + 1],
        )
}

proof fn upsert_step(
    record: MediaRecord,
    states: Seq<UpsertState>,
    replies: Seq<UpsertReply>,
    i: int,
)
    requires
        is_upsert(record, states, replies),
        0 <= i < replies.len(),
    ensures
        states[i].admits(replies[i]),
        states[i].leads_to(replies[i], states[i + 1]),
{
    assert(states[i].admits(replies[i]));
}

/// A row from the server that is here already, under its own id or under another that the
/// server knows by this one, is stored with the time at which it was imported here, whatever
/// time the server gives.
pub proof fn import_time_stays(
    record: MediaRecord,
    states: Seq<UpsertState>,
    replies: Seq<UpsertReply>,
    k: int,
    t: i64,
)
    requires
        is_upsert(record, states, replies),
        replies.len() > 1,
        replies[1] == UpsertReply::ImportedAt(Some(t)) || (replies[1] == UpsertReply::ImportedAt(
            None,
        ) && replies.len() > 2 && (replies[2] matches UpsertReply::Displaced(Some(old)) && old.1
            == t)),
        0 <= k < states.len(),
        states[k] is Store,
    ensures
        states[k].asks() == Some(upsertion(record, t)),
{
    upsert_step(record, states, replies, 0);
    upsert_step(record, states, replies, 1);
    assert(k > 2);
    upsert_step(record, states, replies, 2);
    if k > 3 {
        upsert_step(record, states, replies, 3);
        assert(states[4] is Finished || states[4] is Failed);
        if k > 4 {
            assert(states[4].admits(replies[4]));
        }
    }
}

/// A row that takes the place of another is told as that, and neither as new nor as changed.
pub proof fn displaced_rows_are_told(
    record: MediaRecord,
    states: Seq<UpsertState>,
    replies: Seq<UpsertReply>,
    old: (String, i64),
)
    requires
        is_upsert(record, states, replies),
        states.last() is Finished,
        replies.len() > 2,
        replies[2] == UpsertReply::Displaced(Some(old)),
    ensures
        states.last()->event matches MediaEvent::Replaced { old: o, new } && o@ == old.0@ && new
            == record.id,
{
    upsert_step(record, states, replies, 0);
    upsert_step(record, states, replies, 1);
    upsert_step(record, states, replies, 2);
    assert(states[3] is Store);
    assert(replies.len() > 3);
    upsert_step(record, states, replies, 3);
    if replies.len() > 4 {
        assert(states[4].admits(replies[4]));
    }
}

// ── Deletion ─────────────────────────────────────────────────────────────────

/// What is to be done next to delete assets for good.
#[derive(Debug)]
pub enum DeletionState {
    /// Ask for the ids by which the server knows the assets.
    ReadServerIds { ids: Vec<MediaId> },
    /// Ask for the rows that will leave a stack along with its primary. The server learns
    /// of the deletion where its ids were read.
    ReadFreed { ids: Vec<MediaId>, known: Option<Vec<(String, String)>> },
    /// Delete the rows, in one transaction.
    Delete {
        ids: Vec<MediaId>,
        known: Option<Vec<(String, String)>>,
        freed: Vec<MediaId>,
    },
    /// Done; subscribers are told, and the server is to learn of it.
    Finished { events: Vec<MediaEvent>, mutation: Option<Mutation> },
    Failed { error: LibraryError },
}

/// What the database answered.
#[derive(Debug)]
pub enum DeletionReply {
    /// Pairs of an asset's own id and the server's.
    ServerIds(Vec<(String, String)>),
    Freed(Vec<MediaId>),
    Done,
    Failed(LibraryError),
}

impl DeletionState {
    /// Whether the state can have this reply.
    pub open spec fn admits(self, reply: DeletionReply) -> bool {
        match self {
            DeletionState::ReadServerIds { .. } => reply is Failed || reply is ServerIds,
            DeletionState::ReadFreed { .. } => reply is Failed || reply is Freed,
            DeletionState::Delete { .. } => reply is Failed || reply is Done,
            _ => false,
        }
    }

    /// The state in which a deletion begins.
    pub open spec fn first(ids: Vec<MediaId>, report: bool) -> Self {
        if report {
            DeletionState::ReadServerIds { ids }
        } else {
            DeletionState::ReadFreed { ids, known: None }
        }
    }

    /// Begins a deletion. One that follows the server's word is not reported back to it.
    pub fn begin(ids: Vec<MediaId>, report: bool) -> (r: Self)
        ensures
            r == Self::first(ids, report),
            r == (if report {
                DeletionState::ReadServerIds { ids }
            } else {
                DeletionState::ReadFreed { ids, known: None }
            }),
    {
        if report {
            DeletionState::ReadServerIds { ids }
        } else {
            DeletionState::ReadFreed { ids, known: None }
        }
    }

    /// What the database is asked in the two reading states; no ids need no query.
    pub open spec fn asks(self) -> Option<Seq<PartData>> {
        match self {
            DeletionState::ReadServerIds { ids } => if ids@.len() > 0 {
                Some(server_ids_query(ids@))
            } else {
                None
            },
            DeletionState::ReadFreed { ids, .. } => if ids@.len() > 0 {
                Some(freed_query(ids@))
            } else {
                None
            },
            _ => None,
        }
    }

    /// The query of a reading state. Where there is none, the answer is empty.
    pub fn query(&self) -> (r: Option<Statement>)
        ensures
            match r {
                Some(q) => self.asks() == Some(q@),
                None => self.asks() is None,
            },
    {
        match self {
            DeletionState::ReadServerIds { ids } => MediaRepository::external_ids(ids),
            DeletionState::ReadFreed { ids, .. } => MediaRepository::siblings_freed_by_deletion(ids),
            _ => None,
        }
    }

    /// What the database is to do when the rows are deleted.
    pub open spec fn deletes(statements: Seq<Statement>, ids: Seq<MediaId>) -> bool {
        if ids.len() == 0 {
            statements.len() == 0
        } else {
            &&& statements.len() == asset_tables().len()
            &&& forall|i: int|
                0 <= i < statements.len() ==> (#[trigger] statements[i])@ == over_ids(
                    asset_tables()[i],
                    ids,
                )
        }
    }

    /// The statements for the deletion, one transaction; none in any other state.
    pub fn statements(&self) -> (r: Vec<Statement>)
        ensures
            match *self {
                DeletionState::Delete { ids, .. } => Self::deletes(r@, ids@),
                _ => r@.len() == 0,
            },
            *self matches DeletionState::Delete { ids, .. } ==> ids@.len() > 0 ==> clears_assets(
                r@,
                media_keys(ids@),
            ),
    {
        match self {
            DeletionState::Delete { ids, .. } => MediaRepository::delete_permanently(ids),
            _ => Vec::new(),
        }
    }

    /// Whether `mutation` is what the server is to learn of the deletion.
    pub open spec fn reports(
        mutation: Option<Mutation>,
        ids: Seq<MediaId>,
        known: Option<Vec<(String, String)>>,
    ) -> bool {
        match known {
            Some(known) => mutation matches Some(Mutation::AssetDeleted { items }) && items@
                == ids.map_values(|id: MediaId| (id, MediaService::server_id(known@, id@))),
            None => mutation is None,
        }
    }

    /// Whether a reply leads from one state to the next. What cannot be read before the
    /// deletion counts as empty; only a deletion that fails ends the matter.
    pub open spec fn leads_to(self, reply: DeletionReply, next: DeletionState) -> bool {
        match (self, reply) {
            (DeletionState::ReadServerIds { ids }, DeletionReply::ServerIds(known)) => next == (
            DeletionState::ReadFreed { ids, known: Some(known) }),
            (DeletionState::ReadServerIds { ids }, DeletionReply::Failed(_)) => next matches
                DeletionState::ReadFreed { ids: i, known: Some(k) } && i == ids && k@.len() == 0,
            (DeletionState::ReadFreed { ids, known }, DeletionReply::Freed(freed)) => next == (
            DeletionState::Delete { ids, known, freed }),
            (DeletionState::ReadFreed { ids, known }, DeletionReply::Failed(_)) => next matches
                DeletionState::Delete { ids: i, known: k, freed } && i == ids && k == known
                && freed@.len() == 0,
            (
                DeletionState::Delete { ids, known, freed },
                DeletionReply::Done,
            ) => next matches DeletionState::Finished { events, mutation }
                && MediaService::tells_deletion(events@, ids@, freed@) && Self::reports(
                mutation,
                ids@,
                known,
            ),
            (DeletionState::Delete { .. }, DeletionReply::Failed(error)) => next == (
            DeletionState::Failed { error }),
            _ => false,
        }
    }

    /// Takes a reply.
    pub fn advance(self, reply: DeletionReply) -> (r: Self)
        requires
            self.admits(reply),
        ensures
            self.leads_to(reply, r),
    {
        match (self, reply) {
            (
                DeletionState::ReadServerIds { ids },
                DeletionReply::ServerIds(known),
            ) => DeletionState::ReadFreed { ids, known: Some(known) },
            (DeletionState::ReadServerIds { ids }, _) => DeletionState::ReadFreed {
                ids,
                known: Some(Vec::new()),
            },
            (
                DeletionState::ReadFreed { ids, known },
                DeletionReply::Freed(freed),
            ) => DeletionState::Delete { ids, known, freed },
            (DeletionState::ReadFreed { ids, known }, _) => DeletionState::Delete {
                ids,
                known,
                freed: Vec::new(),
            },
            (DeletionState::Delete { ids, known, freed }, DeletionReply::Done) => match known {
                Some(known) => {
                    let (events, mutation) = MediaService::delete_permanently(&ids, &known, freed);
                    DeletionState::Finished { events, mutation: Some(mutation) }
                },
                None => DeletionState::Finished {
                    events: MediaService::delete_permanently_no_record(&ids, freed),
                    mutation: None,
                },
            },
            (_, DeletionReply::Failed(error)) => DeletionState::Failed { error },
            (state, _) => state,
        }
    }
}

/// A run of the deletion machine that reports to the server.
pub open spec fn is_deletion(
    ids: Vec<MediaId>,
    states: Seq<DeletionState>,
    replies: Seq<DeletionReply>,
) -> bool {
    &&& states.len() == replies.len() + 1
    &&& states.first() == (DeletionState::ReadServerIds { ids })
    &&& forall|i: int|
        0 <= i < replies.len() ==> #[trigger] states[i].admits(replies[i]) && states[i].leads_to(
            replies[i],
            states[i + 1],
        )
}

proof fn deletion_step(
    ids: Vec<MediaId>,
    states: Seq<DeletionState>,
    replies: Seq<DeletionReply>,
    i: int,
)
    requires
        is_deletion(ids, states, replies),
        0 <= i < replies.len(),
    ensures
        states[i].admits(replies[i]),
        states[i].leads_to(replies[i], states[i + 1]),
{
    assert(states[i].admits(replies[i]));
}

/// The server's ids are read while the rows are still there: a reported deletion names the
/// ids that the database gave before anything was deleted.
pub proof fn server_ids_survive_deletion(
    ids: Vec<MediaId>,
    states: Seq<DeletionState>,
    replies: Seq<DeletionReply>,
    known: Vec<(String, String)>,
)
    requires
        is_deletion(ids, states, replies),
        replies.len() > 0,
        replies[0] == DeletionReply::ServerIds(known),
        states.last() is Finished,
    ensures
        states.len() == 4,
        states[2] is Delete,
        DeletionState::reports(states.last()->mutation, ids@, Some(known)),
{
    deletion_step(ids, states, replies, 0);
    assert(states[1] is ReadFreed);
    assert(replies.len() > 1);
    deletion_step(ids, states, replies, 1);
    assert(states[2] is Delete);
    assert(replies.len() > 2);
    deletion_step(ids, states, replies, 2);
    if replies.len() > 3 {
        assert(states[3].admits(replies[3]));
    }
}

/// A deletion that cannot learn the server's ids, or which rows leave their stacks, deletes
/// all the same.
pub proof fn deletion_needs_no_reading(ids: Vec<MediaId>, a: DeletionReply, b: DeletionReply, first:
    DeletionState, second: DeletionState)
    requires
        (DeletionState::ReadServerIds { ids }).admits(a),
        (DeletionState::ReadServerIds { ids }).leads_to(a, first),
        first.admits(b),
        first.leads_to(b, second),
    ensures
        second matches DeletionState::Delete { ids: i, .. } && i == ids,
{
}

} // verus!
