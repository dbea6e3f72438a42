//! The queries on albums.

use vstd::prelude::*;

use crate::album::AlbumId;
use crate::media::stacks::{push_shown_clause, shown_clause};
use crate::media::{MediaCursor, MediaId};
use crate::sql::meaning::{says};
use crate::sql::orders;
use crate::sql::{flag, id_params, media_keys, num, opt_text, sql, text, PartData, Statement};

verus! {

/// The end of the listing of an album: its order, ties broken by id, and its length.
pub open spec fn album_tail(limit: u32) -> Seq<PartData> {
    seq![
        sql(" ORDER BY COALESCE(m.taken_at, 0) DESC, m.id DESC LIMIT "),
        num(limit as i64),
    ]
}

/// The rows that put assets into an album, separated by commas.
pub open spec fn membership_rows(album: Seq<char>, ids: Seq<Seq<char>>, now: i64) -> Seq<PartData>
    decreases ids.len(),
{
    if ids.len() == 0 {
        Seq::empty()
    } else {
        let rest = membership_rows(album, ids.drop_last(), now);
        (if ids.len() == 1 {
            rest
        } else {
            rest.push(sql(", "))
        }) + seq![
            sql("("),
            text(album),
            sql(", "),
            text(ids.last()),
            sql(", "),
            num(now),
            sql(")"),
        ]
    }
}

fn push_membership_rows(q: &mut Statement, album: &AlbumId, ids: &Vec<MediaId>, now: i64)
    ensures
        final(q)@ == old(q)@ + membership_rows(album@, media_keys(ids@), now),
{
    let ghost keys = media_keys(ids@);
    let n: usize = ids.len();
    let mut i: usize = 0;
    assert(q@ =~= old(q)@ + membership_rows(album@, keys.take(0), now));
    while i < n
        invariant
            i <= n,
            n == ids@.len(),
            keys == media_keys(ids@),
            q@ == old(q)@ + membership_rows(album@, keys.take(i as int), now),
        decreases n - i,
    {
        if i > 0 {
            q.sql(", ");
        }
        q.sql("(");
        q.text(album.as_str());
        q.sql(", ");
        q.text(ids[i].as_str());
        q.sql(", ");
        q.num(now);
        q.sql(")");
        proof {
            let after = keys.take(i + 1);
            assert(after.drop_last() =~= keys.take(i as int));
            assert(after.last() == ids@[i as int]@);
            assert(q@ =~= old(q)@ + membership_rows(album@, after, now));
        }
        i += 1;
    }
    assert(keys.take(n as int) =~= keys);
}

/// The statements that delete an album: its memberships, which refer to it, first.
pub open spec fn deletes_album(a: Statement, b: Statement, id: Seq<char>) -> bool {
    &&& a@ == seq![sql("DELETE FROM album_media WHERE album_id = "), text(id)]
    &&& b@ == seq![sql("DELETE FROM albums WHERE id = "), text(id)]
}

/// The query for one page of an album: its items outside the trash, as far as they are shown.
pub open spec fn album_page(id: Seq<char>, cursor: Option<MediaCursor>, limit: u32) -> Seq<
    PartData,
> {
    let head = sql(
        "SELECT m.id, m.taken_at, m.imported_at, m.original_filename, m.width, m.height, m.orientation, m.media_type, m.is_favorite, m.is_trashed, m.trashed_at, m.duration_ms, m.stack_id, m.is_moments_render FROM media m JOIN album_media am ON m.id = am.media_id LEFT JOIN stacks s ON m.stack_id = s.id WHERE am.album_id = ",
    );
    match cursor {
        None => seq![head, text(id), sql(" AND m.is_trashed = 0 AND ")] + shown_clause()
            + album_tail(limit),
        Some(c) => seq![
            head,
            text(id),
            sql(" AND (COALESCE(m.taken_at, 0) < "),
            num(c.sort_key),
            sql(" OR (COALESCE(m.taken_at, 0) = "),
            num(c.sort_key),
            sql(" AND m.id < "),
            text(c.id@),
            sql(")) AND m.is_trashed = 0 AND "),
        ] + shown_clause() + album_tail(limit),
    }
}

/// Whether statements delete an album and leave its media: the memberships go first.
pub open spec fn clears_album(a: Statement, b: Statement, id: Seq<char>) -> bool {
    says(a@, orders::empty_album(id)) && says(b@, orders::remove_album(id))
}

/// Whether statements take assets out of an album, which counts as updated.
pub open spec fn takes_out(
    statements: Seq<Statement>,
    album: Seq<char>,
    ids: Seq<Seq<char>>,
    now: i64,
) -> bool {
    &&& statements.len() == 2
    &&& says(statements[0]@, orders::take_all_out_of_album(album, ids))
    &&& says(statements[1]@, orders::touch_album(album, now))
}

/// All albums, the one updated last first.
pub open spec fn album_list() -> Seq<PartData> {
    seq![
        sql("SELECT a.id, a.name, a.created_at, a.updated_at, COUNT(m2.id) as media_count, (SELECT am2.media_id FROM album_media am2 JOIN media m ON m.id = am2.media_id AND m.is_trashed = 0 WHERE am2.album_id = a.id ORDER BY am2.added_at DESC LIMIT 1) as cover_media_id, a.is_pinned FROM albums a LEFT JOIN album_media am ON a.id = am.album_id LEFT JOIN media m2 ON am.media_id = m2.id AND m2.is_trashed = 0 GROUP BY a.id ORDER BY a.updated_at DESC"),
    ]
}

/// One album.
pub open spec fn album_entry(id: Seq<char>) -> Seq<PartData> {
    seq![
        sql("SELECT a.id, a.name, a.created_at, a.updated_at, COUNT(m2.id) as media_count, (SELECT am2.media_id FROM album_media am2 JOIN media m ON m.id = am2.media_id AND m.is_trashed = 0 WHERE am2.album_id = a.id ORDER BY am2.added_at DESC LIMIT 1) as cover_media_id, a.is_pinned FROM albums a LEFT JOIN album_media am ON a.id = am.album_id LEFT JOIN media m2 ON am.media_id = m2.id AND m2.is_trashed = 0 WHERE a.id = "),
        text(id),
        sql(" GROUP BY a.id"),
    ]
}

/// How many of the given assets each album holds.
pub open spec fn holding_albums(ids: Seq<Seq<char>>) -> Seq<PartData> {
    seq![
        sql("SELECT am.album_id, COUNT(*) as cnt FROM album_media am JOIN media m ON am.media_id = m.id WHERE am.media_id IN ("),
    ] + id_params(ids) + seq![sql(") AND m.is_trashed = 0 GROUP BY am.album_id")]
}

/// The assets added last to an album.
pub open spec fn cover_query(id: Seq<char>, limit: u32) -> Seq<PartData> {
    seq![
        sql("SELECT am.media_id FROM album_media am JOIN media m ON am.media_id = m.id WHERE am.album_id = "),
        text(id),
        sql(" AND m.is_trashed = 0 ORDER BY am.added_at DESC LIMIT "),
        num(limit as i64),
    ]
}

/// The storing of a new album.
pub open spec fn album_creation(id: Seq<char>, name: Seq<char>, now: i64) -> Seq<PartData> {
    seq![
        sql("INSERT INTO albums (id, name, created_at, updated_at) VALUES ("),
        text(id),
        sql(", "),
        text(name),
        sql(", "),
        num(now),
        sql(", "),
        num(now),
        sql(")"),
    ]
}

/// The storing of an album from the server.
pub open spec fn album_upsertion(
    id: Seq<char>,
    name: Seq<char>,
    created_at: i64,
    updated_at: i64,
    external_id: Option<String>,
) -> Seq<PartData> {
    seq![
        sql("INSERT INTO albums (id, name, created_at, updated_at, external_id) VALUES ("),
        text(id),
        sql(", "),
        text(name),
        sql(", "),
        num(created_at),
        sql(", "),
        num(updated_at),
        sql(", "),
        opt_text(external_id),
        sql(") ON CONFLICT(id) DO UPDATE SET name = excluded.name, created_at = excluded.created_at, updated_at = excluded.updated_at, external_id = excluded.external_id"),
    ]
}

/// The storing of an asset in an album.
pub open spec fn membership_insertion(
    album: Seq<char>,
    media: Seq<char>,
    added_at: i64,
) -> Seq<PartData> {
    seq![
        sql("INSERT OR IGNORE INTO album_media (album_id, media_id, added_at) VALUES ("),
        text(album),
        sql(", "),
        text(media),
        sql(", "),
        num(added_at),
        sql(")"),
    ]
}

/// The queries on the `albums` and `album_media` tables.
pub struct AlbumRepository;

impl AlbumRepository {
    /// Deletes an album and its memberships in one transaction. The media stay.
    pub fn delete(id: &AlbumId) -> (r: Vec<Statement>)
        ensures
            r@.len() == 2,
            deletes_album(r@[0], r@[1], id@),
            clears_album(r@[0], r@[1], id@),
    {
        let mut memberships = Statement::new();
        memberships.sql("DELETE FROM album_media WHERE album_id = ");
        memberships.text(id.as_str());
        let mut album = Statement::new();
        album.sql("DELETE FROM albums WHERE id = ");
        album.text(id.as_str());
        assert(memberships@ =~= seq![
            sql("DELETE FROM album_media WHERE album_id = "),
            text(id@),
        ]);
        assert(album@ =~= seq![sql("DELETE FROM albums WHERE id = "), text(id@)]);
        proof {
            orders::read_empty_album(memberships@, id@);
            orders::read_remove_album(album@, id@);
        }
        let mut out: Vec<Statement> = Vec::new();
        out.push(memberships);
        out.push(album);
        out
    }

    /// Deletes albums that the server has forgotten, in one transaction: for each, its
    /// memberships first.
    pub fn delete_with_stale_heartbeat(ids: &Vec<AlbumId>) -> (r: Vec<Statement>)
        ensures
            r@.len() == 2 * ids@.len(),
            forall|i: int|
                0 <= i < ids@.len() ==> deletes_album(
                    r@[2 * i],
                    r@[2 * i + 1],
                    #[trigger] ids@[i]@,
                ),
            forall|i: int|
                0 <= i < ids@.len() ==> clears_album(r@[2 * i], r@[2 * i + 1], #[trigger] ids@[i]@),
    {
        let mut out: Vec<Statement> = Vec::new();
        let n: usize = ids.len();
        let mut i: usize = 0;
        while i < n
            invariant
                i <= n,
                n == ids@.len(),
                out@.len() == 2 * i,
                forall|j: int|
                    0 <= j < i ==> deletes_album(
                        out@[2 * j],
                        out@[2 * j + 1],
                        #[trigger] ids@[j]@,
                    ) && clears_album(out@[2 * j], out@[2 * j + 1], ids@[j]@),
            decreases n - i,
        {
            let mut pair = Self::delete(&ids[i]);
            let ghost before = out@;
            let ghost added = pair@;
            out.append(&mut pair);
            assert forall|j: int| 0 <= j < i + 1 implies deletes_album(
                out@[2 * j],
                out@[2 * j + 1],
                #[trigger] ids@[j]@,
            ) && clears_album(out@[2 * j], out@[2 * j + 1], ids@[j]@) by {
                if j < i {
                    assert(out@[2 * j] == before[2 * j]);
                    assert(out@[2 * j + 1] == before[2 * j + 1]);
                } else {
                    assert(out@[2 * j] == added[0]);
                    assert(out@[2 * j + 1] == added[1]);
                }
            }
            i += 1;
        }
        out
    }

    /// Puts assets into an album; those that are in it already stay as they are. The
    /// album counts as updated. No ids need no query.
    pub fn add_media(album_id: &AlbumId, media_ids: &Vec<MediaId>, now: i64) -> (r: Vec<Statement>)
        ensures
            media_ids@.len() == 0 ==> r@.len() == 0,
            media_ids@.len() > 0 ==> says(r@[1]@, orders::touch_album(album_id@, now)),
            media_ids@.len() > 0 ==> {
                &&& r@.len() == 2
                &&& r@[0]@ == seq![
                    sql("INSERT OR IGNORE INTO album_media (album_id, media_id, added_at) VALUES "),
                ] + membership_rows(album_id@, media_keys(media_ids@), now)
                &&& r@[1]@ == seq![
                    sql("UPDATE albums SET updated_at = "),
                    num(now),
                    sql(" WHERE id = "),
                    text(album_id@),
                ]
            },
    {
        let mut out: Vec<Statement> = Vec::new();
        if media_ids.len() == 0 {
            return out;
        }
        let mut q = Statement::new();
        q.sql("INSERT OR IGNORE INTO album_media (album_id, media_id, added_at) VALUES ");
        push_membership_rows(&mut q, album_id, media_ids, now);
        out.push(q);
        out.push(Self::touch(album_id, now));
        out
    }

    /// Takes assets out of an album. The album counts as updated. No ids need no query.
    pub fn remove_media(album_id: &AlbumId, media_ids: &Vec<MediaId>, now: i64) -> (r: Vec<
        Statement,
    >)
        ensures
            media_ids@.len() == 0 ==> r@.len() == 0,
            media_ids@.len() > 0 ==> takes_out(r@, album_id@, media_keys(media_ids@), now),
            media_ids@.len() > 0 ==> {
                &&& r@.len() == 2
                &&& r@[0]@ == seq![
                    sql("DELETE FROM album_media WHERE album_id = "),
                    text(album_id@),
                    sql(" AND media_id IN ("),
                ] + id_params(media_keys(media_ids@)) + seq![sql(")")]
                &&& r@[1]@ == seq![
                    sql("UPDATE albums SET updated_at = "),
                    num(now),
                    sql(" WHERE id = "),
                    text(album_id@),
                ]
            },
    {
        let mut out: Vec<Statement> = Vec::new();
        if media_ids.len() == 0 {
            return out;
        }
        let mut q = Statement::new();
        q.sql("DELETE FROM album_media WHERE album_id = ");
        q.text(album_id.as_str());
        q.sql(" AND media_id IN (");
        q.ids(media_ids);
        q.sql(")");
        assert(q@ =~= seq![
            sql("DELETE FROM album_media WHERE album_id = "),
            text(album_id@),
            sql(" AND media_id IN ("),
        ] + id_params(media_keys(media_ids@)) + seq![sql(")")]);
        proof {
            orders::read_take_all_out_of_album(q@, album_id@, media_keys(media_ids@));
        }
        out.push(q);
        out.push(Self::touch(album_id, now));
        out
    }

    /// Asks for a page of an album, latest capture first, the trash and the hidden members
    /// of stacks aside. Without a cursor it is the first page, else the one that follows
    /// the cursor.
    pub fn list_media(album_id: &AlbumId, cursor: &Option<MediaCursor>, limit: u32) -> (r:
        Statement)
        ensures
            r@ == album_page(album_id@, *cursor, limit),
            match *cursor {
                None => r@ == seq![
                sql(
                    "SELECT m.id, m.taken_at, m.imported_at, m.original_filename, m.width, m.height, m.orientation, m.media_type, m.is_favorite, m.is_trashed, m.trashed_at, m.duration_ms, m.stack_id, m.is_moments_render FROM media m JOIN album_media am ON m.id = am.media_id LEFT JOIN stacks s ON m.stack_id = s.id WHERE am.album_id = ",
                ),
                text(album_id@),
                sql(" AND m.is_trashed = 0 AND "),
            ] + shown_clause() + album_tail(limit),
                Some(c) => r@ == seq![
                sql(
                    "SELECT m.id, m.taken_at, m.imported_at, m.original_filename, m.width, m.height, m.orientation, m.media_type, m.is_favorite, m.is_trashed, m.trashed_at, m.duration_ms, m.stack_id, m.is_moments_render FROM media m JOIN album_media am ON m.id = am.media_id LEFT JOIN stacks s ON m.stack_id = s.id WHERE am.album_id = ",
                ),
                text(album_id@),
                sql(" AND (COALESCE(m.taken_at, 0) < "),
                num(c.sort_key),
                sql(" OR (COALESCE(m.taken_at, 0) = "),
                num(c.sort_key),
                sql(" AND m.id < "),
                text(c.id@),
                sql(")) AND m.is_trashed = 0 AND "),
            ] + shown_clause() + album_tail(limit),
            },
    {
        match cursor {
            None => Self::list_first_media(album_id, limit),
            Some(c) => Self::list_next_media(album_id, c, limit),
        }
    }

    /// Stores an album from the server. Whether an album that is stored already is pinned is
    /// local knowledge and stays as it is.
    pub fn upsert(id: &str, name: &str, created_at: i64, updated_at: i64, external_id: &Option<String>) -> (r: Statement)
        ensures
            r@ == album_upsertion(id@, name@, created_at, updated_at, *external_id),
            r@ == seq![
                sql(
                    "INSERT INTO albums (id, name, created_at, updated_at, external_id) VALUES (",
                ),
                text(id@),
                sql(", "),
                text(name@),
                sql(", "),
                num(created_at),
                sql(", "),
                num(updated_at),
                sql(", "),
                opt_text(*external_id),
                sql(
                    ") ON CONFLICT(id) DO UPDATE SET name = excluded.name, created_at = excluded.created_at, updated_at = excluded.updated_at, external_id = excluded.external_id",
                ),
            ],
    {
        let mut q = Statement::new();
        q.sql("INSERT INTO albums (id, name, created_at, updated_at, external_id) VALUES (");
        q.text(id);
        q.sql(", ");
        q.text(name);
        q.sql(", ");
        q.num(created_at);
        q.sql(", ");
        q.num(updated_at);
        q.sql(", ");
        q.opt_text(external_id);
        q.sql(
            ") ON CONFLICT(id) DO UPDATE SET name = excluded.name, created_at = excluded.created_at, updated_at = excluded.updated_at, external_id = excluded.external_id",
        );
        q
    }

    /// Asks for all albums, the one updated last first.
    pub fn list() -> (r: Statement)
        ensures
            r@ == album_list(),
            r@ == seq![
                sql(
                    "SELECT a.id, a.name, a.created_at, a.updated_at, COUNT(m2.id) as media_count, (SELECT am2.media_id FROM album_media am2 JOIN media m ON m.id = am2.media_id AND m.is_trashed = 0 WHERE am2.album_id = a.id ORDER BY am2.added_at DESC LIMIT 1) as cover_media_id, a.is_pinned FROM albums a LEFT JOIN album_media am ON a.id = am.album_id LEFT JOIN media m2 ON am.media_id = m2.id AND m2.is_trashed = 0 GROUP BY a.id ORDER BY a.updated_at DESC",
                ),
            ],
    {
        let mut q = Statement::new();
        q.sql(
            "SELECT a.id, a.name, a.created_at, a.updated_at, COUNT(m2.id) as media_count, (SELECT am2.media_id FROM album_media am2 JOIN media m ON m.id = am2.media_id AND m.is_trashed = 0 WHERE am2.album_id = a.id ORDER BY am2.added_at DESC LIMIT 1) as cover_media_id, a.is_pinned FROM albums a LEFT JOIN album_media am ON a.id = am.album_id LEFT JOIN media m2 ON am.media_id = m2.id AND m2.is_trashed = 0 GROUP BY a.id ORDER BY a.updated_at DESC",
        );
        q
    }

    /// Asks for one album.
    pub fn get(id: &AlbumId) -> (r: Statement)
        ensures
            r@ == album_entry(id@),
            r@ == seq![
                sql(
                    "SELECT a.id, a.name, a.created_at, a.updated_at, COUNT(m2.id) as media_count, (SELECT am2.media_id FROM album_media am2 JOIN media m ON m.id = am2.media_id AND m.is_trashed = 0 WHERE am2.album_id = a.id ORDER BY am2.added_at DESC LIMIT 1) as cover_media_id, a.is_pinned FROM albums a LEFT JOIN album_media am ON a.id = am.album_id LEFT JOIN media m2 ON am.media_id = m2.id AND m2.is_trashed = 0 WHERE a.id = ",
                ),
                text(id@),
                sql(" GROUP BY a.id"),
            ],
    {
        let mut q = Statement::new();
        q.sql(
            "SELECT a.id, a.name, a.created_at, a.updated_at, COUNT(m2.id) as media_count, (SELECT am2.media_id FROM album_media am2 JOIN media m ON m.id = am2.media_id AND m.is_trashed = 0 WHERE am2.album_id = a.id ORDER BY am2.added_at DESC LIMIT 1) as cover_media_id, a.is_pinned FROM albums a LEFT JOIN album_media am ON a.id = am.album_id LEFT JOIN media m2 ON am.media_id = m2.id AND m2.is_trashed = 0 WHERE a.id = ",
        );
        q.text(id.as_str());
        q.sql(" GROUP BY a.id");
        q
    }

    /// Stores a new album.
    pub fn create(id: &AlbumId, name: &str, now: i64) -> (r: Statement)
        ensures
            r@ == album_creation(id@, name@, now),
            r@ == seq![
                sql("INSERT INTO albums (id, name, created_at, updated_at) VALUES ("),
                text(id@),
                sql(", "),
                text(name@),
                sql(", "),
                num(now),
                sql(", "),
                num(now),
                sql(")"),
            ],
    {
        let mut q = Statement::new();
        q.sql("INSERT INTO albums (id, name, created_at, updated_at) VALUES (");
        q.text(id.as_str());
        q.sql(", ");
        q.text(name);
        q.sql(", ");
        q.num(now);
        q.sql(", ");
        q.num(now);
        q.sql(")");
        q
    }

    /// Renames an album.
    pub fn rename(id: &AlbumId, name: &str, now: i64) -> (r: Statement)
        ensures
            says(r@, orders::rename_album(id@, name@, now)),
            r@ == seq![
                sql("UPDATE albums SET name = "),
                text(name@),
                sql(", updated_at = "),
                num(now),
                sql(" WHERE id = "),
                text(id@),
            ],
    {
        let mut q = Statement::new();
        q.sql("UPDATE albums SET name = ");
        q.text(name);
        q.sql(", updated_at = ");
        q.num(now);
        q.sql(" WHERE id = ");
        q.text(id.as_str());
        proof {
            orders::read_rename_album(q@, id@, name@, now);
        }
        q
    }

    /// Pins an album to the sidebar, or takes it off.
    pub fn set_pinned(id: &AlbumId, pinned: bool) -> (r: Statement)
        ensures
            says(r@, orders::pin_album(id@, pinned)),
            r@ == seq![
                sql("UPDATE albums SET is_pinned = "),
                flag(pinned),
                sql(" WHERE id = "),
                text(id@),
            ],
    {
        let mut q = Statement::new();
        q.sql("UPDATE albums SET is_pinned = ");
        q.flag(pinned);
        q.sql(" WHERE id = ");
        q.text(id.as_str());
        proof {
            orders::read_pin_album(q@, id@, pinned);
        }
        q
    }

    /// Asks for the server's id of an album.
    pub fn external_id(id: &AlbumId) -> (r: Statement)
        ensures
            says(r@, orders::server_id_of_album(id@)),
            r@ == seq![
                sql("SELECT external_id FROM albums WHERE id = "),
                text(id@),
            ],
    {
        let mut q = Statement::new();
        q.sql("SELECT external_id FROM albums WHERE id = ");
        q.text(id.as_str());
        proof {
            orders::read_server_id_of_album(q@, id@);
        }
        q
    }

    /// Asks for the album that the server calls by this id.
    pub fn id_by_external_id(external_id: &str) -> (r: Statement)
        ensures
            says(r@, orders::album_by_server_id(external_id@)),
            r@ == seq![
                sql("SELECT id FROM albums WHERE external_id = "),
                text(external_id@),
            ],
    {
        let mut q = Statement::new();
        q.sql("SELECT id FROM albums WHERE external_id = ");
        q.text(external_id);
        proof {
            orders::read_album_by_server_id(q@, external_id@);
        }
        q
    }

    /// Stores that an asset is in an album, as the server says. The album does not count as
    /// updated.
    pub fn upsert_membership(album_id: &AlbumId, media_id: &MediaId, added_at: i64) -> (r: Statement)
        ensures
            r@ == membership_insertion(album_id@, media_id@, added_at),
            r@ == seq![
                sql(
                    "INSERT OR IGNORE INTO album_media (album_id, media_id, added_at) VALUES (",
                ),
                text(album_id@),
                sql(", "),
                text(media_id@),
                sql(", "),
                num(added_at),
                sql(")"),
            ],
    {
        let mut q = Statement::new();
        q.sql("INSERT OR IGNORE INTO album_media (album_id, media_id, added_at) VALUES (");
        q.text(album_id.as_str());
        q.sql(", ");
        q.text(media_id.as_str());
        q.sql(", ");
        q.num(added_at);
        q.sql(")");
        q
    }

    /// Removes an asset from an album, as the server says. The album does not count as
    /// updated.
    pub fn delete_membership(album_id: &AlbumId, media_id: &MediaId) -> (r: Statement)
        ensures
            says(r@, orders::take_out_of_album(album_id@, media_id@)),
            r@ == seq![
                sql("DELETE FROM album_media WHERE album_id = "),
                text(album_id@),
                sql(" AND media_id = "),
                text(media_id@),
            ],
    {
        let mut q = Statement::new();
        q.sql("DELETE FROM album_media WHERE album_id = ");
        q.text(album_id.as_str());
        q.sql(" AND media_id = ");
        q.text(media_id.as_str());
        proof {
            orders::read_take_out_of_album(q@, album_id@, media_id@);
        }
        q
    }

    /// Notes that an album was updated.
    pub fn touch(id: &AlbumId, now: i64) -> (r: Statement)
        ensures
            says(r@, orders::touch_album(id@, now)),
            r@ == seq![
                sql("UPDATE albums SET updated_at = "),
                num(now),
                sql(" WHERE id = "),
                text(id@),
            ],
    {
        let mut q = Statement::new();
        q.sql("UPDATE albums SET updated_at = ");
        q.num(now);
        q.sql(" WHERE id = ");
        q.text(id.as_str());
        proof {
            orders::read_touch_album(q@, id@, now);
        }
        q
    }

    /// Asks for the first page of an album, latest capture first.
    fn list_first_media(album_id: &AlbumId, limit: u32) -> (r: Statement)
        ensures
            r@ == seq![
                sql(
                    "SELECT m.id, m.taken_at, m.imported_at, m.original_filename, m.width, m.height, m.orientation, m.media_type, m.is_favorite, m.is_trashed, m.trashed_at, m.duration_ms, m.stack_id, m.is_moments_render FROM media m JOIN album_media am ON m.id = am.media_id LEFT JOIN stacks s ON m.stack_id = s.id WHERE am.album_id = ",
                ),
                text(album_id@),
                sql(" AND m.is_trashed = 0 AND "),
            ] + shown_clause() + album_tail(limit),
    {
        let mut q = Statement::new();
        q.sql(
            "SELECT m.id, m.taken_at, m.imported_at, m.original_filename, m.width, m.height, m.orientation, m.media_type, m.is_favorite, m.is_trashed, m.trashed_at, m.duration_ms, m.stack_id, m.is_moments_render FROM media m JOIN album_media am ON m.id = am.media_id LEFT JOIN stacks s ON m.stack_id = s.id WHERE am.album_id = ",
        );
        q.text(album_id.as_str());
        q.sql(" AND m.is_trashed = 0 AND ");
        push_shown_clause(&mut q);
        q.sql(" ORDER BY COALESCE(m.taken_at, 0) DESC, m.id DESC LIMIT ");
        q.num(limit as i64);
        q
    }

    /// Asks for the page of an album that follows a cursor.
    fn list_next_media(album_id: &AlbumId, cursor: &MediaCursor, limit: u32) -> (r: Statement)
        ensures
            r@ == seq![
                sql(
                    "SELECT m.id, m.taken_at, m.imported_at, m.original_filename, m.width, m.height, m.orientation, m.media_type, m.is_favorite, m.is_trashed, m.trashed_at, m.duration_ms, m.stack_id, m.is_moments_render FROM media m JOIN album_media am ON m.id = am.media_id LEFT JOIN stacks s ON m.stack_id = s.id WHERE am.album_id = ",
                ),
                text(album_id@),
                sql(" AND (COALESCE(m.taken_at, 0) < "),
                num(cursor.sort_key),
                sql(" OR (COALESCE(m.taken_at, 0) = "),
                num(cursor.sort_key),
                sql(" AND m.id < "),
                text(cursor.id@),
                sql(")) AND m.is_trashed = 0 AND "),
            ] + shown_clause() + album_tail(limit),
    {
        let mut q = Statement::new();
        q.sql(
            "SELECT m.id, m.taken_at, m.imported_at, m.original_filename, m.width, m.height, m.orientation, m.media_type, m.is_favorite, m.is_trashed, m.trashed_at, m.duration_ms, m.stack_id, m.is_moments_render FROM media m JOIN album_media am ON m.id = am.media_id LEFT JOIN stacks s ON m.stack_id = s.id WHERE am.album_id = ",
        );
        q.text(album_id.as_str());
        q.sql(" AND (COALESCE(m.taken_at, 0) < ");
        q.num(cursor.sort_key);
        q.sql(" OR (COALESCE(m.taken_at, 0) = ");
        q.num(cursor.sort_key);
        q.sql(" AND m.id < ");
        q.text(cursor.id.as_str());
        q.sql(")) AND m.is_trashed = 0 AND ");
        push_shown_clause(&mut q);
        q.sql(" ORDER BY COALESCE(m.taken_at, 0) DESC, m.id DESC LIMIT ");
        q.num(limit as i64);
        q
    }

    /// Asks how many of the given assets each album holds, those in the trash aside. No ids
    /// need no query.
    pub fn containing_media(media_ids: &Vec<MediaId>) -> (r: Option<Statement>)
        ensures
            media_ids@.len() > 0 ==> (r matches Some(q) && q@ == holding_albums(media_keys(media_ids@))),
            media_ids@.len() == 0 ==> r is None,
            media_ids@.len() > 0 ==> (r matches Some(q) && q@ == seq![
                sql(
                    "SELECT am.album_id, COUNT(*) as cnt FROM album_media am JOIN media m ON am.media_id = m.id WHERE am.media_id IN (",
                ),
            ] + id_params(media_keys(media_ids@)) + seq![
                sql(") AND m.is_trashed = 0 GROUP BY am.album_id"),
            ]),
    {
        if media_ids.len() == 0 {
            return None;
        }
        let mut q = Statement::new();
        q.sql(
            "SELECT am.album_id, COUNT(*) as cnt FROM album_media am JOIN media m ON am.media_id = m.id WHERE am.media_id IN (",
        );
        q.ids(media_ids);
        q.sql(") AND m.is_trashed = 0 GROUP BY am.album_id");
        Some(q)
    }

    /// Asks for the assets added last to an album.
    pub fn cover_media_ids(album_id: &AlbumId, limit: u32) -> (r: Statement)
        ensures
            r@ == cover_query(album_id@, limit),
            r@ == seq![
                sql(
                    "SELECT am.media_id FROM album_media am JOIN media m ON am.media_id = m.id WHERE am.album_id = ",
                ),
                text(album_id@),
                sql(" AND m.is_trashed = 0 ORDER BY am.added_at DESC LIMIT "),
                num(limit as i64),
            ],
    {
        let mut q = Statement::new();
        q.sql(
            "SELECT am.media_id FROM album_media am JOIN media m ON am.media_id = m.id WHERE am.album_id = ",
        );
        q.text(album_id.as_str());
        q.sql(" AND m.is_trashed = 0 ORDER BY am.added_at DESC LIMIT ");
        q.num(limit as i64);
        q
    }

    /// Asks for the albums that the server knew and has not confirmed since the checkpoint.
    /// Albums that it never had are not among them.
    pub fn ids_with_stale_heartbeat(checkpoint: i64) -> (r: Statement)
        ensures
            says(r@, orders::stale_albums(checkpoint)),
            r@ == seq![
                sql("SELECT id FROM albums WHERE last_seen_at < "),
                num(checkpoint),
                sql(" AND external_id IS NOT NULL"),
            ],
    {
        let mut q = Statement::new();
        q.sql("SELECT id FROM albums WHERE last_seen_at < ");
        q.num(checkpoint);
        q.sql(" AND external_id IS NOT NULL");
        proof {
            orders::read_stale_albums(q@, checkpoint);
        }
        q
    }

    /// Notes that the server has confirmed an album.
    pub fn bump_last_seen_at(id: &AlbumId, now: i64) -> (r: Statement)
        ensures
            says(r@, orders::confirm_album(id@, now)),
            r@ == seq![
                sql("UPDATE albums SET last_seen_at = "),
                num(now),
                sql(" WHERE id = "),
                text(id@),
            ],
    {
        let mut q = Statement::new();
        q.sql("UPDATE albums SET last_seen_at = ");
        q.num(now);
        q.sql(" WHERE id = ");
        q.text(id.as_str());
        proof {
            orders::read_confirm_album(q@, id@, now);
        }
        q
    }
}

/// Whether counts of assets by album are those that the database gave.
pub open spec fn counts_by_album(counts: Seq<(AlbumId, usize)>, rows: Seq<(String, i64)>) -> bool {
    &&& counts.len() == rows.len()
    &&& forall|i: int|
        0 <= i < counts.len() ==> (#[trigger] counts[i]).0@ == rows[i].0@ && counts[i].1
            == rows[i].1 as usize
}

/// The counts of assets by album, as the application uses them.
pub fn albums_containing_media(rows: Vec<(String, i64)>) -> (r: Vec<(AlbumId, usize)>)
    ensures
        counts_by_album(r@, rows@),
        r@.len() == rows@.len(),
        forall|i: int|
            0 <= i < r@.len() ==> (#[trigger] r@[i]).0@ == rows@[i].0@ && r@[i].1
                == rows@[i].1 as usize,
{
    let mut out: Vec<(AlbumId, usize)> = Vec::new();
    let n: usize = rows.len();
    let mut i: usize = 0;
    while i < n
        invariant
            i <= n,
            n == rows@.len(),
            out@.len() == i,
            forall|j: int|
                0 <= j < i ==> (#[trigger] out@[j]).0@ == rows@[j].0@ && out@[j].1
                    == rows@[j].1 as usize,
        decreases n - i,
    {
        out.push((AlbumId::from_raw(rows[i].0.clone()), rows[i].1 as usize));
        i += 1;
    }
    out
}

} // verus!
