//! What the changes of media rows that take several steps come to.

use vstd::prelude::*;

use crate::error::LibraryError;
use crate::media::flow::{
    is_upsert, DeletionReply, DeletionState, UpsertReply, UpsertState,
};
use crate::media::repository::{
    displacement, freed_query, import_time_query, kept_time, presence_query, server_ids_query, upsertion,
};
use crate::media::{MediaEvent, MediaId, MediaRecord};
use crate::mutation::Mutation;

verus! {

// ── Rows from the server ─────────────────────────────────────────────────────

proof fn step(
    record: MediaRecord,
    states: Seq<UpsertState>,
    replies: Seq<UpsertReply>,
    i: int,
)
    requires
        is_upsert(record, states, replies),
        0 <= i < replies.len(),
    ensures
        states[i].admits(replies[i]),
        states[i].leads_to(replies[i], states[i + 1]),
{
    assert(states[i].admits(replies[i]));
}

/// A row from the server is stored in four steps: it is asked whether the row is here, when it
/// was imported, a row under another id gives way, and then the row is stored. Every step is
/// about the row that came.
pub proof fn rows_are_stored_in_four_steps(
    record: MediaRecord,
    states: Seq<UpsertState>,
    replies: Seq<UpsertReply>,
)
    requires
        is_upsert(record, states, replies),
        states.last() is Finished,
    ensures
        states.len() == 5,
        states[0].asks() == Some(presence_query(record.id@)),
        states[1].asks() == Some(import_time_query(record.id@)),
        states[2].asks() == Some(displacement(record.id@)),
        exists|t: i64| states[3].asks() == Some(#[trigger] upsertion(record, t)),
        states[4].asks() is None,
{
    assert(replies.len() > 0);
    step(record, states, replies, 0);
    assert(replies.len() > 1);
    step(record, states, replies, 1);
    assert(replies.len() > 2);
    step(record, states, replies, 2);
    assert(replies.len() > 3);
    step(record, states, replies, 3);
    if replies.len() > 4 {
        assert(states[4].admits(replies[4]));
    }
    let t = kept_time(states[3]->Store_imported_at, record.imported_at);
    assert(states[3].asks() == Some(upsertion(record, t)));
}

/// A row that takes nobody's place is told as changed where it was here, and as new where it
/// was not.
pub proof fn rows_are_told_as_found(
    record: MediaRecord,
    states: Seq<UpsertState>,
    replies: Seq<UpsertReply>,
    found: bool,
)
    requires
        is_upsert(record, states, replies),
        states.last() is Finished,
        replies[0] == UpsertReply::Found(found),
        replies[2] == UpsertReply::Displaced(None),
    ensures
        found ==> (states.last()->event matches MediaEvent::Updated(v) && v@ == seq![record.id]),
        !found ==> (states.last()->event matches MediaEvent::Added(v) && v@ == seq![record.id]),
{
    rows_are_stored_in_four_steps(record, states, replies);
    step(record, states, replies, 0);
    step(record, states, replies, 1);
    step(record, states, replies, 2);
    step(record, states, replies, 3);
}

/// A row that was never here is stored with the time that came with it.
pub proof fn new_rows_take_the_time_that_came(
    record: MediaRecord,
    states: Seq<UpsertState>,
    replies: Seq<UpsertReply>,
)
    requires
        is_upsert(record, states, replies),
        replies.len() > 2,
        replies[1] == UpsertReply::ImportedAt(None),
        replies[2] == UpsertReply::Displaced(None),
    ensures
        states[3].asks() == Some(upsertion(record, record.imported_at)),
{
    step(record, states, replies, 0);
    step(record, states, replies, 1);
    step(record, states, replies, 2);
}

/// What fails while a row is stored ends the storing with that failure; subscribers are told
/// nothing.
pub proof fn failures_end_a_storing(state: UpsertState, e: LibraryError, next: UpsertState)
    requires
        state.leads_to(UpsertReply::Failed(e), next),
    ensures
        next == (UpsertState::Failed { error: e }),
{
}

// ── Deletion ─────────────────────────────────────────────────────────────────

/// A deletion that the server ordered is not reported back to it, and any other is.
pub proof fn only_own_deletions_are_reported(
    ids: Vec<MediaId>,
    report: bool,
    a: DeletionState,
    b: DeletionState,
    c: DeletionState,
    replies: Seq<DeletionReply>,
)
    requires
        replies.len() == 3,
        a == (if report {
            DeletionState::first(ids, true)
        } else {
            DeletionState::first(ids, false)
        }),
        report ==> a.admits(replies[0]) && a.leads_to(replies[0], b),
        !report ==> b == a,
        b.admits(replies[1]),
        b.leads_to(replies[1], c),
    ensures
        report <==> a is ReadServerIds,
        c matches DeletionState::Delete { ids: i, known, .. } && i == ids && (known is Some
            <==> report),
{
}

/// Deleted rows are told as removed, all of them, and reported to the server in the same
/// order where its ids were read, with those ids; where nothing was read, nothing is reported.
pub proof fn deletions_are_told(
    ids: Vec<MediaId>,
    known: Option<Vec<(String, String)>>,
    freed: Vec<MediaId>,
    next: DeletionState,
    i: int,
)
    requires
        (DeletionState::Delete { ids, known, freed }).leads_to(DeletionReply::Done, next),
    ensures
        next matches DeletionState::Finished { events, mutation } && events@[0] is Removed
            && events@[0]->Removed_0@ == ids@ && (freed@.len() > 0 ==> events@.len() == 2
            && events@[1] is Updated && events@[1]->Updated_0@ == freed@) && (freed@.len() == 0
            ==> events@.len() == 1) && (mutation is Some <==> known is Some),
        known is Some && 0 <= i < ids@.len() ==> (next->mutation matches Some(
            Mutation::AssetDeleted { items },
        ) && items@.len() == ids@.len() && items@[i].0 == ids@[i]),
{
}

/// A deletion that fails is told as that failure, and nobody is told that rows are gone.
pub proof fn failed_deletions_are_told(
    ids: Vec<MediaId>,
    known: Option<Vec<(String, String)>>,
    freed: Vec<MediaId>,
    e: LibraryError,
    next: DeletionState,
)
    requires
        (DeletionState::Delete { ids, known, freed }).leads_to(DeletionReply::Failed(e), next),
    ensures
        next == (DeletionState::Failed { error: e }),
{
}

/// What is asked before a deletion is about the rows to be deleted, all of them, and nothing
/// is asked about none.
pub proof fn deletions_ask_about_their_rows(ids: Vec<MediaId>, known: Option<Vec<(String, String)>>)
    ensures
        ids@.len() > 0 ==> (DeletionState::ReadServerIds { ids }).asks() == Some(
            server_ids_query(ids@),
        ) && (DeletionState::ReadFreed { ids, known }).asks() == Some(freed_query(ids@)),
        ids@.len() == 0 ==> (DeletionState::ReadServerIds { ids }).asks() is None && (
        DeletionState::ReadFreed { ids, known }).asks() is None,
{
}

} // verus!
