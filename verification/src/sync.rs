//! The bookkeeping of following the server.

use vstd::prelude::*;

use crate::sql::meaning::{says};
use crate::sql::orders;
use crate::sql::{num, sql, text, PartData, Statement};

verus! {

/// Rows of two texts each, separated by commas.
pub open spec fn checkpoint_rows(acks: Seq<(String, String)>) -> Seq<PartData>
    decreases acks.len(),
{
    if acks.len() == 0 {
        Seq::empty()
    } else {
        let rest = checkpoint_rows(acks.drop_last());
        (if acks.len() == 1 {
            rest
        } else {
            rest.push(sql(", "))
        }) + seq![sql("("), text(acks.last().0@), sql(", "), text(acks.last().1@), sql(")")]
    }
}

fn push_checkpoint_rows(q: &mut Statement, acks: &Vec<(String, String)>)
    ensures
        final(q)@ == old(q)@ + checkpoint_rows(acks@),
{
    let n: usize = acks.len();
    let mut i: usize = 0;
    assert(q@ =~= old(q)@ + checkpoint_rows(acks@.take(0)));
    while i < n
        invariant
            i <= n,
            n == acks@.len(),
            q@ == old(q)@ + checkpoint_rows(acks@.take(i as int)),
        decreases n - i,
    {
        if i > 0 {
            q.sql(", ");
        }
        q.sql("(");
        q.text(acks[i].0.as_str());
        q.sql(", ");
        q.text(acks[i].1.as_str());
        q.sql(")");
        proof {
            let after = acks@.take(i + 1);
            assert(after.drop_last() =~= acks@.take(i as int));
            assert(q@ =~= old(q)@ + checkpoint_rows(after));
        }
        i += 1;
    }
    assert(acks@.take(n as int) =~= acks@);
}

/// The storing of an asset in an album.
pub open spec fn album_media_insertion(
    album: Seq<char>,
    media: Seq<char>,
    added_at: i64,
) -> Seq<PartData> {
    seq![
        sql("INSERT OR IGNORE INTO album_media (album_id, media_id, added_at) VALUES ("),
        text(album),
        sql(", "),
        text(media),
        sql(", "),
        num(added_at),
        sql(")"),
    ]
}

/// The noting of a record that is being processed.
pub open spec fn audit_insertion(
    kind: Seq<char>,
    id: Seq<char>,
    now: Seq<char>,
    cycle: Seq<char>,
) -> Seq<PartData> {
    seq![
        sql("INSERT INTO sync_audit (entity_type, entity_id, action, started_at, sync_cycle) VALUES ("),
        text(kind),
        sql(", "),
        text(id),
        sql(", 'upsert', "),
        text(now),
        sql(", "),
        text(cycle),
        sql(")"),
    ]
}

/// The queries on the tables that only following the server needs.
pub struct SyncRepository;

impl SyncRepository {
    /// Stores how far the server has been followed, by kind of entity. Nothing new needs
    /// no query.
    pub fn save_sync_checkpoints(acks: &Vec<(String, String)>) -> (r: Option<Statement>)
        ensures
            acks@.len() == 0 ==> r is None,
            acks@.len() > 0 ==> (r matches Some(q) && q@ == seq![
                sql("INSERT OR REPLACE INTO sync_checkpoints (entity_type, ack) VALUES "),
            ] + checkpoint_rows(acks@)),
    {
        if acks.len() == 0 {
            return None;
        }
        let mut q = Statement::new();
        q.sql("INSERT OR REPLACE INTO sync_checkpoints (entity_type, ack) VALUES ");
        push_checkpoint_rows(&mut q, acks);
        Some(q)
    }

    /// Stores that an asset is in an album.
    pub fn upsert_album_media(album_id: &str, media_id: &str, added_at: i64) -> (r: Statement)
        ensures
            r@ == album_media_insertion(album_id@, media_id@, added_at),
            r@ == seq![
                sql(
                    "INSERT OR IGNORE INTO album_media (album_id, media_id, added_at) VALUES (",
                ),
                text(album_id@),
                sql(", "),
                text(media_id@),
                sql(", "),
                num(added_at),
                sql(")"),
            ],
    {
        let mut q = Statement::new();
        q.sql("INSERT OR IGNORE INTO album_media (album_id, media_id, added_at) VALUES (");
        q.text(album_id);
        q.sql(", ");
        q.text(media_id);
        q.sql(", ");
        q.num(added_at);
        q.sql(")");
        q
    }

    /// Removes an asset from an album.
    pub fn delete_album_media_entry(album_id: &str, media_id: &str) -> (r: Statement)
        ensures
            says(r@, orders::take_out_of_album(album_id@, media_id@)),
            r@ == seq![
                sql("DELETE FROM album_media WHERE album_id = "),
                text(album_id@),
                sql(" AND media_id = "),
                text(media_id@),
            ],
    {
        let mut q = Statement::new();
        q.sql("DELETE FROM album_media WHERE album_id = ");
        q.text(album_id);
        q.sql(" AND media_id = ");
        q.text(media_id);
        proof {
            orders::read_take_out_of_album(q@, album_id@, media_id@);
        }
        q
    }

    /// Asks for the ids of all assets.
    pub fn all_media_ids() -> (r: Statement)
        ensures
            says(r@, orders::all_assets()),
            r@ == seq![
                sql("SELECT id FROM media"),
            ],
    {
        let mut q = Statement::new();
        q.sql("SELECT id FROM media");
        proof {
            orders::read_all_assets(q@);
        }
        q
    }

    /// Forgets how far the server has been followed.
    pub fn clear_sync_checkpoints() -> (r: Statement)
        ensures
            says(r@, orders::forget_checkpoints()),
            r@ == seq![
                sql("DELETE FROM sync_checkpoints"),
            ],
    {
        let mut q = Statement::new();
        q.sql("DELETE FROM sync_checkpoints");
        proof {
            orders::read_forget_checkpoints(q@);
        }
        q
    }

    /// Notes that a record of the server is being processed.
    pub fn start_sync_audit(entity_type: &str, entity_id: &str, now: &str, sync_cycle: &str) -> (r: Statement)
        ensures
            r@ == audit_insertion(entity_type@, entity_id@, now@, sync_cycle@),
            r@ == seq![
                sql(
                    "INSERT INTO sync_audit (entity_type, entity_id, action, started_at, sync_cycle) VALUES (",
                ),
                text(entity_type@),
                sql(", "),
                text(entity_id@),
                sql(", 'upsert', "),
                text(now@),
                sql(", "),
                text(sync_cycle@),
                sql(")"),
            ],
    {
        let mut q = Statement::new();
        q.sql(
            "INSERT INTO sync_audit (entity_type, entity_id, action, started_at, sync_cycle) VALUES (",
        );
        q.text(entity_type);
        q.sql(", ");
        q.text(entity_id);
        q.sql(", 'upsert', ");
        q.text(now);
        q.sql(", ");
        q.text(sync_cycle);
        q.sql(")");
        q
    }

    /// Notes that a record of the server was processed, and how. Only now is it certain which
    /// entity the record was about.
    pub fn complete_sync_audit(row_id: i64, entity_id: &str, action: &str, now: &str) -> (r: Statement)
        ensures
            says(r@, orders::record_is_processed(row_id, entity_id@, action@, now@)),
            r@ == seq![
                sql("UPDATE sync_audit SET completed_at = "),
                text(now@),
                sql(", action = "),
                text(action@),
                sql(", entity_id = "),
                text(entity_id@),
                sql(" WHERE id = "),
                num(row_id),
            ],
    {
        let mut q = Statement::new();
        q.sql("UPDATE sync_audit SET completed_at = ");
        q.text(now);
        q.sql(", action = ");
        q.text(action);
        q.sql(", entity_id = ");
        q.text(entity_id);
        q.sql(" WHERE id = ");
        q.num(row_id);
        proof {
            orders::read_record_is_processed(q@, row_id, entity_id@, action@, now@);
        }
        q
    }

    /// Notes that a record of the server could not be processed, and why.
    pub fn fail_sync_audit(row_id: i64, error_msg: &str, now: &str) -> (r: Statement)
        ensures
            says(r@, orders::record_failed(row_id, error_msg@, now@)),
            r@ == seq![
                sql("UPDATE sync_audit SET completed_at = "),
                text(now@),
                sql(", action = 'error', error_msg = "),
                text(error_msg@),
                sql(" WHERE id = "),
                num(row_id),
            ],
    {
        let mut q = Statement::new();
        q.sql("UPDATE sync_audit SET completed_at = ");
        q.text(now);
        q.sql(", action = 'error', error_msg = ");
        q.text(error_msg);
        q.sql(" WHERE id = ");
        q.num(row_id);
        proof {
            orders::read_record_failed(q@, row_id, error_msg@, now@);
        }
        q
    }
}

} // verus!
