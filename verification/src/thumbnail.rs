//! The record of which thumbnails have been made.

use vstd::prelude::*;

use crate::media::MediaId;
use crate::sql::meaning::{says};
use crate::sql::orders;
use crate::sql::{num, sql, text, PartData, Statement};

verus! {

/// How far the thumbnail of an asset has come.
#[derive(Debug, Clone, Copy, PartialEq, Eq, Structural)]
pub enum ThumbnailStatus {
    Pending,
    Ready,
    Failed,
}

impl ThumbnailStatus {
    /// The status that the database keeps as a number. A number without a meaning says
    /// that the thumbnail is yet to be made.
    pub open spec fn meant_by(code: i64) -> ThumbnailStatus {
        if code == 1 {
            ThumbnailStatus::Ready
        } else if code == 2 {
            ThumbnailStatus::Failed
        } else {
            ThumbnailStatus::Pending
        }
    }

    /// The status that a number stands for.
    pub fn from_i64(code: i64) -> (r: ThumbnailStatus)
        ensures
            r == Self::meant_by(code),
    {
        if code == 1 {
            ThumbnailStatus::Ready
        } else if code == 2 {
            ThumbnailStatus::Failed
        } else {
            ThumbnailStatus::Pending
        }
    }
}

/// The noting of a thumbnail that is to be made.
pub open spec fn thumbnail_insertion(id: Seq<char>) -> Seq<PartData> {
    seq![sql("INSERT OR IGNORE INTO thumbnails (media_id, status) VALUES ("), text(id), sql(", 0)")]
}

/// The queries on the `thumbnails` table.
pub struct ThumbnailRepository;

impl ThumbnailRepository {
    /// Notes that a thumbnail is to be made, unless one is noted already.
    pub fn insert_thumbnail_pending(id: &MediaId) -> (r: Statement)
        ensures
            r@ == thumbnail_insertion(id@),
            r@ == seq![
                sql("INSERT OR IGNORE INTO thumbnails (media_id, status) VALUES ("),
                text(id@),
                sql(", 0)"),
            ],
    {
        let mut q = Statement::new();
        q.sql("INSERT OR IGNORE INTO thumbnails (media_id, status) VALUES (");
        q.text(id.as_str());
        q.sql(", 0)");
        q
    }

    /// Notes where a thumbnail lies and when it was made.
    pub fn set_thumbnail_ready(id: &MediaId, file_path: &str, generated_at: i64) -> (r: Statement)
        ensures
            says(r@, orders::thumbnail_is_ready(id@, file_path@, generated_at)),
            r@ == seq![
                sql("UPDATE thumbnails SET status = 1, file_path = "),
                text(file_path@),
                sql(", generated_at = "),
                num(generated_at),
                sql(" WHERE media_id = "),
                text(id@),
            ],
    {
        let mut q = Statement::new();
        q.sql("UPDATE thumbnails SET status = 1, file_path = ");
        q.text(file_path);
        q.sql(", generated_at = ");
        q.num(generated_at);
        q.sql(" WHERE media_id = ");
        q.text(id.as_str());
        proof {
            orders::read_thumbnail_is_ready(q@, id@, file_path@, generated_at);
        }
        q
    }

    /// Notes that a thumbnail could not be made.
    pub fn set_thumbnail_failed(id: &MediaId) -> (r: Statement)
        ensures
            says(r@, orders::thumbnail_failed(id@)),
            r@ == seq![
                sql("UPDATE thumbnails SET status = 2 WHERE media_id = "),
                text(id@),
            ],
    {
        let mut q = Statement::new();
        q.sql("UPDATE thumbnails SET status = 2 WHERE media_id = ");
        q.text(id.as_str());
        proof {
            orders::read_thumbnail_failed(q@, id@);
        }
        q
    }

    /// Asks how far a thumbnail has come.
    pub fn thumbnail_status(id: &MediaId) -> (r: Statement)
        ensures
            says(r@, orders::thumbnail_of_asset(id@)),
            r@ == seq![
                sql("SELECT status FROM thumbnails WHERE media_id = "),
                text(id@),
            ],
    {
        let mut q = Statement::new();
        q.sql("SELECT status FROM thumbnails WHERE media_id = ");
        q.text(id.as_str());
        proof {
            orders::read_thumbnail_of_asset(q@, id@);
        }
        q
    }
}

} // verus!
