//! The queue of files on their way to the server.

use vstd::prelude::*;

use crate::sql::meaning::{says};
use crate::sql::orders;
use crate::sql::{num, opt_text, sql, text, PartData, Statement};

verus! {

/// How far a queued file has come.
#[derive(Debug, Clone, Copy, PartialEq, Eq, Structural)]
pub enum UploadStatus {
    Pending,
    Uploaded,
    Failed,
    /// The server holds the file already, or the format is not supported.
    Skipped,
}

impl UploadStatus {
    /// The number that stands for the status in the database.
    pub open spec fn number(self) -> i64 {
        match self {
            UploadStatus::Pending => 0,
            UploadStatus::Uploaded => 1,
            UploadStatus::Failed => 2,
            UploadStatus::Skipped => 3,
        }
    }

    /// The number that stands for the status in the database.
    pub fn code(self) -> (r: i64)
        ensures
            r == self.number(),
    {
        match self {
            UploadStatus::Pending => 0,
            UploadStatus::Uploaded => 1,
            UploadStatus::Failed => 2,
            UploadStatus::Skipped => 3,
        }
    }
}

/// The queueing of a file.
pub open spec fn queueing(path: Seq<char>, created_at: i64) -> Seq<PartData> {
    seq![
        sql("INSERT OR IGNORE INTO upload_queue (file_path, status, created_at) VALUES ("),
        text(path),
        sql(", 0, "),
        num(created_at),
        sql(")"),
    ]
}

/// The storing of a hash.
pub open spec fn hash_update(path: Seq<char>, hash: Seq<char>) -> Seq<PartData> {
    seq![
        sql("UPDATE upload_queue SET sha1_hash = "),
        text(hash),
        sql(" WHERE file_path = "),
        text(path),
    ]
}

/// The storing of a status, and of what went wrong if anything did.
pub open spec fn status_update(path: Seq<char>, status: UploadStatus, error: PartData) -> Seq<
    PartData,
> {
    seq![
        sql("UPDATE upload_queue SET status = "),
        num(status.number()),
        sql(", error_msg = "),
        error,
        sql(" WHERE file_path = "),
        text(path),
    ]
}

/// The removal of the files that need nothing more.
pub open spec fn clearing() -> Seq<PartData> {
    seq![sql("DELETE FROM upload_queue WHERE status IN (1, 3)")]
}

/// The queries on the upload queue.
pub struct UploadQueue;

impl UploadQueue {
    /// Queues a file, unless it is queued already.
    pub fn insert_upload_pending(file_path: &str, created_at: i64) -> (r: Statement)
        ensures
            r@ == queueing(file_path@, created_at),
    {
        let mut q = Statement::new();
        q.sql("INSERT OR IGNORE INTO upload_queue (file_path, status, created_at) VALUES (");
        q.text(file_path);
        q.sql(", 0, ");
        q.num(created_at);
        q.sql(")");
        q
    }

    /// Stores the hash of a queued file.
    pub fn set_upload_hash(file_path: &str, sha1_hash: &str) -> (r: Statement)
        ensures
            says(r@, orders::upload_has_hash(file_path@, sha1_hash@)),
            r@ == hash_update(file_path@, sha1_hash@),
    {
        let mut q = Statement::new();
        q.sql("UPDATE upload_queue SET sha1_hash = ");
        q.text(sha1_hash);
        q.sql(" WHERE file_path = ");
        q.text(file_path);
        proof {
            orders::read_upload_has_hash(q@, file_path@, sha1_hash@);
        }
        q
    }

    /// Stores how far a queued file has come, and what went wrong if anything did.
    pub fn set_upload_status(
        file_path: &str,
        status: UploadStatus,
        error_msg: &Option<String>,
    ) -> (r: Statement)
        ensures
            r@ == status_update(file_path@, status, opt_text(*error_msg)),
            says(
                r@,
                orders::upload_has_status(file_path@, status.number(), opt_text(*error_msg)->Bound_0),
            ),
    {
        let mut q = Statement::new();
        q.sql("UPDATE upload_queue SET status = ");
        q.num(status.code());
        q.sql(", error_msg = ");
        q.opt_text(error_msg);
        q.sql(" WHERE file_path = ");
        q.text(file_path);
        proof {
            orders::read_upload_has_status(
                q@,
                file_path@,
                status.number(),
                opt_text(*error_msg)->Bound_0,
            );
        }
        q
    }

    /// Removes the files that need nothing more: those uploaded and those skipped.
    pub fn clear_completed_uploads() -> (r: Statement)
        ensures
            says(r@, orders::clear_queue()),
            r@ == clearing(),
    {
        let mut q = Statement::new();
        q.sql("DELETE FROM upload_queue WHERE status IN (1, 3)");
        proof {
            orders::read_clear_queue(q@);
        }
        q
    }
}

/// The statuses that [`UploadQueue::clear_completed_uploads`] removes are exactly
/// those of files that were uploaded or skipped; files that are pending or failed
/// stay in the queue.
pub proof fn cleared_statuses(status: UploadStatus)
    ensures
        (status.number() == 1 || status.number() == 3) <==> (status is Uploaded || status is Skipped),
{
}

} // verus!
