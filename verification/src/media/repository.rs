//! The queries on media rows and stacks.

use vstd::prelude::*;

use crate::media::stacks::{push_shown_clause, shown_clause, shown_clause_binds_nothing};
use crate::media::{MediaCursor, MediaFilter, MediaId, MediaRecord, Stack};
use crate::sql::meaning::{says, says_and};
use crate::sql::orders;
use crate::sql::{
    bound, bound_concat, flag, id_params, media_keys, num, opt_num, opt_text, sql, text, text_keys,
    BindData, PartData, Statement,
};
use crate::text::{signed_decimal, signed_decimal_of};

verus! {

// ── Listing ──────────────────────────────────────────────────────────────────

/// By what a view is sorted, latest first.
pub open spec fn sort_key(filter: MediaFilter) -> Seq<char> {
    match filter {
        MediaFilter::Trashed => "COALESCE(m.trashed_at, 0)"@,
        MediaFilter::RecentImports { .. } => "m.imported_at"@,
        _ => "COALESCE(m.taken_at, 0)"@,
    }
}

/// By what a view is sorted, latest first.
pub fn sort_expr(filter: &MediaFilter) -> (r: &'static str)
    ensures
        r@ == sort_key(*filter),
{
    match filter {
        MediaFilter::Trashed => "COALESCE(m.trashed_at, 0)",
        MediaFilter::RecentImports { .. } => "m.imported_at",
        _ => "COALESCE(m.taken_at, 0)",
    }
}

/// A condition on a row of the `media` table.
pub ghost enum Condition {
    OutsideTrash,
    InTrash,
    Favorite,
    ImportedAfter(i64),
    InAlbum(Seq<char>),
    ShowsFaceOf(Seq<char>),
}

/// How a condition is written.
pub open spec fn worded(c: Condition) -> Seq<PartData> {
    match c {
        Condition::OutsideTrash => seq![sql(" AND m.is_trashed = 0")],
        Condition::InTrash => seq![sql(" AND m.is_trashed = 1")],
        Condition::Favorite => seq![sql(" AND m.is_favorite = 1")],
        Condition::ImportedAfter(since) => seq![
            sql(" AND m.imported_at > "),
            text(signed_decimal_of(since as int)),
        ],
        Condition::InAlbum(album) => seq![
            sql(" AND m.id IN (SELECT media_id FROM album_media WHERE album_id = "),
            text(album),
            sql(")"),
        ],
        Condition::ShowsFaceOf(person) => seq![
            sql(" AND m.id IN (SELECT DISTINCT asset_id FROM asset_faces WHERE person_id = "),
            text(person),
            sql(")"),
        ],
    }
}

/// What a row has to meet to be in a view, all of it.
pub open spec fn conditions(filter: MediaFilter) -> Seq<Condition> {
    match filter {
        MediaFilter::All => seq![Condition::OutsideTrash],
        MediaFilter::Favorites => seq![Condition::OutsideTrash, Condition::Favorite],
        MediaFilter::Trashed => seq![Condition::InTrash],
        MediaFilter::RecentImports { since } => seq![
            Condition::OutsideTrash,
            Condition::ImportedAfter(since),
        ],
        MediaFilter::Album { album_id } => seq![
            Condition::OutsideTrash,
            Condition::InAlbum(album_id@),
        ],
        MediaFilter::Person { person_id } => seq![
            Condition::OutsideTrash,
            Condition::ShowsFaceOf(person_id@),
        ],
    }
}

/// How conditions are written, one after the other.
pub open spec fn all_worded(cs: Seq<Condition>) -> Seq<PartData>
    decreases cs.len(),
{
    if cs.len() == 0 {
        Seq::empty()
    } else {
        all_worded(cs.drop_last()) + worded(cs.last())
    }
}

/// What a row has to meet to be in a view, as it is written.
pub open spec fn filter_clause(filter: MediaFilter) -> Seq<PartData> {
    all_worded(conditions(filter))
}

proof fn one_condition(a: Condition)
    ensures
        all_worded(seq![a]) == worded(a),
{
    reveal_with_fuel(all_worded, 2);
    assert(seq![a].drop_last() =~= Seq::<Condition>::empty());
    assert(all_worded(seq![a]) =~= worded(a));
}

proof fn two_conditions(a: Condition, b: Condition)
    ensures
        all_worded(seq![a, b]) == worded(a) + worded(b),
{
    assert(seq![a, b].drop_last() =~= seq![a]);
    one_condition(a);
}

proof fn clause_of(filter: MediaFilter)
    ensures
        match filter {
            MediaFilter::All => filter_clause(filter) == worded(Condition::OutsideTrash),
            MediaFilter::Favorites => filter_clause(filter) == worded(Condition::OutsideTrash)
                + worded(Condition::Favorite),
            MediaFilter::Trashed => filter_clause(filter) == worded(Condition::InTrash),
            MediaFilter::RecentImports { since } => filter_clause(filter) == worded(
                Condition::OutsideTrash,
            ) + worded(Condition::ImportedAfter(since)),
            MediaFilter::Album { album_id } => filter_clause(filter) == worded(
                Condition::OutsideTrash,
            ) + worded(Condition::InAlbum(album_id@)),
            MediaFilter::Person { person_id } => filter_clause(filter) == worded(
                Condition::OutsideTrash,
            ) + worded(Condition::ShowsFaceOf(person_id@)),
        },
{
    match filter {
        MediaFilter::All => one_condition(Condition::OutsideTrash),
        MediaFilter::Favorites => two_conditions(Condition::OutsideTrash, Condition::Favorite),
        MediaFilter::Trashed => one_condition(Condition::InTrash),
        MediaFilter::RecentImports { since } => two_conditions(
            Condition::OutsideTrash,
            Condition::ImportedAfter(since),
        ),
        MediaFilter::Album { album_id } => two_conditions(
            Condition::OutsideTrash,
            Condition::InAlbum(album_id@),
        ),
        MediaFilter::Person { person_id } => two_conditions(
            Condition::OutsideTrash,
            Condition::ShowsFaceOf(person_id@),
        ),
    }
}

/// What a row has to meet to come after a cursor: a lower sort key, or the same one and
/// a lower id.
pub open spec fn cursor_clause(sort: Seq<char>, cursor: Option<MediaCursor>) -> Seq<PartData> {
    match cursor {
        Some(c) => seq![
            sql(" AND ("),
            PartData::Text(sort),
            sql(" < "),
            num(c.sort_key),
            sql(" OR ("),
            PartData::Text(sort),
            sql(" = "),
            num(c.sort_key),
            sql(" AND m.id < "),
            text(c.id@),
            sql("))"),
        ],
        None => Seq::empty(),
    }
}

/// The beginning of a listing. One row stands for a stack, and rendered edits give way to
/// their originals, in every view.
pub open spec fn listing_head() -> Seq<PartData> {
    seq![
        sql(
            "SELECT m.id, m.taken_at, m.imported_at, m.original_filename, m.width, m.height, m.orientation, m.media_type, m.is_favorite, m.is_trashed, m.trashed_at, m.duration_ms, m.stack_id, m.is_moments_render FROM media m LEFT JOIN stacks s ON m.stack_id = s.id WHERE ",
        ),
    ] + shown_clause()
}

/// The end of a listing: its order, ties broken by id, and its length.
pub open spec fn listing_tail(sort: Seq<char>, limit: u32) -> Seq<PartData> {
    seq![
        sql(" ORDER BY "),
        PartData::Text(sort),
        sql(" DESC, m.id DESC LIMIT "),
        num(limit as i64),
    ]
}

/// The query for one page of a view.
pub open spec fn listing(filter: MediaFilter, cursor: Option<MediaCursor>, limit: u32) -> Seq<
    PartData,
> {
    listing_head() + cursor_clause(sort_key(filter), cursor) + filter_clause(filter) + listing_tail(
        sort_key(filter),
        limit,
    )
}

/// The values that a view's own condition binds.
pub open spec fn filter_binds(filter: MediaFilter) -> Seq<BindData> {
    match filter {
        MediaFilter::RecentImports { since } => seq![BindData::Text(signed_decimal_of(since as int))],
        MediaFilter::Album { album_id } => seq![BindData::Text(album_id@)],
        MediaFilter::Person { person_id } => seq![BindData::Text(person_id@)],
        _ => Seq::empty(),
    }
}

/// The values that a cursor binds.
pub open spec fn cursor_binds(cursor: Option<MediaCursor>) -> Seq<BindData> {
    match cursor {
        Some(c) => seq![
            BindData::Int(c.sort_key),
            BindData::Int(c.sort_key),
            BindData::Text(c.id@),
        ],
        None => Seq::empty(),
    }
}

proof fn cursor_clause_binds(sort: Seq<char>, cursor: Option<MediaCursor>)
    ensures
        bound(cursor_clause(sort, cursor)) == cursor_binds(cursor),
{
    reveal_with_fuel(bound, 12);
}

proof fn filter_clause_binds(filter: MediaFilter)
    ensures
        bound(filter_clause(filter)) == filter_binds(filter),
{
    reveal_with_fuel(bound, 5);
    clause_of(filter);
}

proof fn listing_ends_bind(sort: Seq<char>, limit: u32)
    ensures
        bound(listing_head()) == Seq::<BindData>::empty(),
        bound(listing_tail(sort, limit)) == seq![BindData::Int(limit as i64)],
{
    reveal_with_fuel(bound, 5);
    shown_clause_binds_nothing();
    let first = listing_head().take(1);
    assert(listing_head() =~= first + shown_clause());
    bound_concat(first, shown_clause());
}

/// A listing binds the cursor first, then what the view asks for, then the length of
/// the page.
pub proof fn listing_binds(filter: MediaFilter, cursor: Option<MediaCursor>, limit: u32)
    ensures
        bound(listing(filter, cursor, limit)) == cursor_binds(cursor) + filter_binds(filter) + seq![
            BindData::Int(limit as i64),
        ],
{
    let head = listing_head();
    let cur = cursor_clause(sort_key(filter), cursor);
    let fil = filter_clause(filter);
    let tail = listing_tail(sort_key(filter), limit);
    bound_concat(head, cur);
    bound_concat(head + cur, fil);
    bound_concat(head + cur + fil, tail);
    cursor_clause_binds(sort_key(filter), cursor);
    filter_clause_binds(filter);
    listing_ends_bind(sort_key(filter), limit);
}

fn push_cursor_clause(q: &mut Statement, sort: &str, cursor: &Option<MediaCursor>)
    ensures
        final(q)@ == old(q)@ + cursor_clause(sort@, *cursor),
{
    match cursor {
        Some(c) => {
            q.sql(" AND (");
            q.sql(sort);
            q.sql(" < ");
            q.num(c.sort_key);
            q.sql(" OR (");
            q.sql(sort);
            q.sql(" = ");
            q.num(c.sort_key);
            q.sql(" AND m.id < ");
            q.text(c.id.as_str());
            q.sql("))");
        },
        None => {},
    }
    assert(q@ =~= old(q)@ + cursor_clause(sort@, *cursor));
}

fn push_filter_clause(q: &mut Statement, filter: &MediaFilter)
    ensures
        final(q)@ == old(q)@ + filter_clause(*filter),
{
    match filter {
        MediaFilter::Trashed => q.sql(" AND m.is_trashed = 1"),
        _ => q.sql(" AND m.is_trashed = 0"),
    }
    match filter {
        MediaFilter::All => {},
        MediaFilter::Trashed => {},
        MediaFilter::Favorites => q.sql(" AND m.is_favorite = 1"),
        MediaFilter::RecentImports { since } => {
            q.sql(" AND m.imported_at > ");
            q.text(signed_decimal(*since).as_str());
        },
        MediaFilter::Album { album_id } => {
            q.sql(" AND m.id IN (SELECT media_id FROM album_media WHERE album_id = ");
            q.text(album_id.as_str());
            q.sql(")");
        },
        MediaFilter::Person { person_id } => {
            q.sql(
                " AND m.id IN (SELECT DISTINCT asset_id FROM asset_faces WHERE person_id = ",
            );
            q.text(person_id.as_str());
            q.sql(")");
        },
    }
    proof {
        clause_of(*filter);
    }
    assert(q@ =~= old(q)@ + filter_clause(*filter));
}

// ── Rows ─────────────────────────────────────────────────────────────────────

/// The time at which an asset entered the library: the stored one, if there is one.
pub open spec fn kept_time(existing: Option<i64>, incoming: i64) -> i64 {
    match existing {
        Some(t) => t,
        None => incoming,
    }
}

/// Keeps the time at which an asset entered the library.
pub fn keep_time(existing: Option<i64>, incoming: i64) -> (r: i64)
    ensures
        r == kept_time(existing, incoming),
{
    match existing {
        Some(t) => t,
        None => incoming,
    }
}

/// A duration as stored.
pub open spec fn duration_column(d: Option<u64>) -> Option<i64> {
    match d {
        Some(ms) => Some(ms as i64),
        None => None,
    }
}

/// The values that say which asset a record is about, each followed by a comma.
pub open spec fn identity_values(r: MediaRecord) -> Seq<PartData> {
    seq![
        text(r.id@),
        sql(", "),
        opt_text(r.content_hash),
        sql(", "),
        opt_text(r.external_id),
        sql(", "),
        text(r.relative_path@),
        sql(", "),
        text(r.original_filename@),
        sql(", "),
    ]
}

/// The values that describe the content of an asset, each followed by a comma.
pub open spec fn content_values(r: MediaRecord, imported_at: i64) -> Seq<PartData> {
    seq![
        num(r.file_size),
        sql(", "),
        num(imported_at),
        sql(", "),
        num(r.media_type.number()),
        sql(", "),
        opt_num(r.taken_at),
        sql(", "),
        opt_num(r.width),
        sql(", "),
        opt_num(r.height),
        sql(", "),
        num(r.orientation as i64),
        sql(", "),
    ]
}

/// The remaining values of a record, separated by commas.
pub open spec fn state_values(r: MediaRecord) -> Seq<PartData> {
    seq![
        opt_num(duration_column(r.duration_ms)),
        sql(", "),
        flag(r.is_favorite),
        sql(", "),
        flag(r.is_trashed),
        sql(", "),
        opt_num(r.trashed_at),
        sql(", "),
        flag(r.is_moments_render),
    ]
}

/// The values of a record between the commas of a `VALUES` clause.
pub open spec fn record_values(r: MediaRecord, imported_at: i64) -> Seq<PartData> {
    identity_values(r) + content_values(r, imported_at) + state_values(r)
}

fn identity_parts(r: &MediaRecord) -> (q: Statement)
    ensures
        q@ == identity_values(*r),
{
    let mut q = Statement::new();
    q.text(r.id.as_str());
    q.sql(", ");
    q.opt_text(&r.content_hash);
    q.sql(", ");
    q.opt_text(&r.external_id);
    q.sql(", ");
    q.text(r.relative_path.as_str());
    q.sql(", ");
    q.text(r.original_filename.as_str());
    q.sql(", ");
    q
}

fn content_parts(r: &MediaRecord, imported_at: i64) -> (q: Statement)
    ensures
        q@ == content_values(*r, imported_at),
{
    let mut q = Statement::new();
    q.num(r.file_size);
    q.sql(", ");
    q.num(imported_at);
    q.sql(", ");
    q.num(r.media_type.code());
    q.sql(", ");
    q.opt_num(r.taken_at);
    q.sql(", ");
    q.opt_num(r.width);
    q.sql(", ");
    q.opt_num(r.height);
    q.sql(", ");
    q.num(r.orientation as i64);
    q.sql(", ");
    q
}

fn state_parts(r: &MediaRecord) -> (q: Statement)
    ensures
        q@ == state_values(*r),
{
    let duration: Option<i64> = match r.duration_ms {
        Some(ms) => Some(ms as i64),
        None => None,
    };
    let mut q = Statement::new();
    q.opt_num(duration);
    q.sql(", ");
    q.flag(r.is_favorite);
    q.sql(", ");
    q.flag(r.is_trashed);
    q.sql(", ");
    q.opt_num(r.trashed_at);
    q.sql(", ");
    q.flag(r.is_moments_render);
    q
}

fn record_value_parts(r: &MediaRecord, imported_at: i64) -> (q: Statement)
    ensures
        q@ == record_values(*r, imported_at),
{
    let mut q = identity_parts(r);
    q.extend(content_parts(r, imported_at));
    q.extend(state_parts(r));
    q
}

/// The tables that hold rows of an asset, with the column that names the asset, in the
/// order in which the rows are deleted: the asset itself last.
pub open spec fn asset_tables() -> Seq<Seq<char>> {
    seq![
        "DELETE FROM edits WHERE media_id IN ("@,
        "DELETE FROM asset_faces WHERE asset_id IN ("@,
        "DELETE FROM media_metadata WHERE media_id IN ("@,
        "DELETE FROM thumbnails WHERE media_id IN ("@,
        "DELETE FROM album_media WHERE media_id IN ("@,
        "DELETE FROM media WHERE id IN ("@,
    ]
}

/// Whether statements delete assets and every row that belongs to them: what refers to an
/// asset first, and the asset itself last.
pub open spec fn clears_assets(statements: Seq<Statement>, ids: Seq<Seq<char>>) -> bool {
    &&& statements.len() == 6
    &&& says(statements[0]@, orders::remove_edits(ids))
    &&& says(statements[1]@, orders::remove_faces(ids))
    &&& says(statements[2]@, orders::remove_details(ids))
    &&& says(statements[3]@, orders::remove_thumbnails(ids))
    &&& says(statements[4]@, orders::remove_memberships(ids))
    &&& says(statements[5]@, orders::remove_assets(ids))
}

/// Whether statements delete a stack: its members are freed first.
pub open spec fn clears_stack(statements: Seq<Statement>, id: Seq<char>) -> bool {
    &&& statements.len() == 2
    &&& says(statements[0]@, orders::free_members(id))
    &&& says(statements[1]@, orders::remove_stack(id))
}

/// Whether statements delete several stacks: their members are freed first.
pub open spec fn clears_stacks(statements: Seq<Statement>, ids: Seq<Seq<char>>) -> bool {
    &&& statements.len() == 2
    &&& says(statements[0]@, orders::free_members_of_all(ids))
    &&& says(statements[1]@, orders::remove_stacks(ids))
}

/// The statement that begins with `head` and goes on with a list of ids.
pub open spec fn over_ids(head: Seq<char>, ids: Seq<MediaId>) -> Seq<PartData> {
    seq![PartData::Text(head)] + id_params(media_keys(ids)) + seq![sql(")")]
}

fn statement_over_ids(head: &str, ids: &Vec<MediaId>) -> (r: Statement)
    ensures
        r@ == over_ids(head@, ids@),
{
    let mut q = Statement::new();
    q.sql(head);
    q.ids(ids);
    q.sql(")");
    assert(q@ =~= over_ids(head@, ids@));
    q
}

/// The question whether an asset is stored.
pub open spec fn presence_query(id: Seq<char>) -> Seq<PartData> {
    seq![sql("SELECT 1 FROM media WHERE id = "), text(id)]
}

/// The question when an asset was imported.
pub open spec fn import_time_query(id: Seq<char>) -> Seq<PartData> {
    seq![sql("SELECT imported_at FROM media WHERE id = "), text(id)]
}

/// The removal of a row under another id that the server knows by this one.
pub open spec fn displacement(id: Seq<char>) -> Seq<PartData> {
    seq![
        sql("DELETE FROM media WHERE external_id = "),
        text(id),
        sql(" AND id != "),
        text(id),
        sql(" RETURNING id, imported_at"),
    ]
}

/// The question for the server's ids of those assets that have one.
pub open spec fn server_ids_query(ids: Seq<MediaId>) -> Seq<PartData> {
    seq![sql("SELECT id, external_id FROM media WHERE id IN (")] + id_params(media_keys(ids))
        + seq![sql(") AND external_id IS NOT NULL")]
}

/// The question which members of stacks will be on their own once the given assets are
/// deleted.
pub open spec fn freed_query(ids: Seq<MediaId>) -> Seq<PartData> {
    seq![
        sql(
            "SELECT DISTINCT m.id FROM media m JOIN stacks s ON m.stack_id = s.id WHERE s.primary_asset_id IN (",
        ),
    ] + id_params(media_keys(ids)) + seq![sql(") AND m.id NOT IN (")] + id_params(media_keys(ids))
        + seq![sql(")")]
}

/// The storing of a row, imported at the given time, in place of what was stored before.
pub open spec fn upsertion(record: MediaRecord, imported_at: i64) -> Seq<PartData> {
    seq![
        sql(
            "INSERT OR REPLACE INTO media (id, content_hash, external_id, relative_path, original_filename, file_size, imported_at, media_type, taken_at, width, height, orientation, duration_ms, is_favorite, is_trashed, trashed_at, is_moments_render) VALUES (",
        ),
    ] + record_values(record, imported_at) + seq![sql(")")]
}

/// The numbers of photos and videos, their size, and the number of trashed items.
pub open spec fn media_counts() -> Seq<PartData> {
    seq![
        sql("SELECT COUNT(CASE WHEN media_type = 0 AND is_trashed = 0 THEN 1 END), COUNT(CASE WHEN media_type = 1 AND is_trashed = 0 THEN 1 END), COALESCE(SUM(CASE WHEN is_trashed = 0 THEN file_size ELSE 0 END), 0), COUNT(CASE WHEN is_trashed = 1 THEN 1 END) FROM media"),
    ]
}

/// Several items at once, as far as they are shown.
pub open spec fn items_query(ids: Seq<Seq<char>>) -> Seq<PartData> {
    seq![
        sql("SELECT m.id, m.taken_at, m.imported_at, m.original_filename, m.width, m.height, m.orientation, m.media_type, m.is_favorite, m.is_trashed, m.trashed_at, m.duration_ms, m.stack_id, m.is_moments_render FROM media m LEFT JOIN stacks s ON m.stack_id = s.id WHERE m.id IN ("),
    ] + id_params(ids) + seq![sql(") AND ")] + shown_clause()
}

/// The storing of a newly imported asset.
pub open spec fn insertion(record: MediaRecord) -> Seq<PartData> {
    seq![
        sql("INSERT INTO media (id, content_hash, external_id, relative_path, original_filename, file_size, imported_at, media_type, taken_at, width, height, orientation, duration_ms, is_favorite, is_trashed, trashed_at, is_moments_render) VALUES ("),
    ] + record_values(record, record.imported_at) + seq![sql(")")]
}

/// The storing of a stack, or of its new primary.
pub open spec fn stack_upsertion(id: Seq<char>, primary: Seq<char>) -> Seq<PartData> {
    seq![
        sql("INSERT INTO stacks (id, primary_asset_id, last_seen_at) VALUES ("),
        text(id),
        sql(", "),
        text(primary),
        sql(", COALESCE((SELECT last_seen_at FROM stacks WHERE id = "),
        text(id),
        sql("), 0)) ON CONFLICT(id) DO UPDATE SET primary_asset_id = excluded.primary_asset_id"),
    ]
}

/// The storing of a stack with a stand-in primary.
pub open spec fn stack_stub(id: Seq<char>, primary: Seq<char>, now: i64) -> Seq<PartData> {
    seq![
        sql("INSERT INTO stacks (id, primary_asset_id, last_seen_at) VALUES ("),
        text(id),
        sql(", "),
        text(primary),
        sql(", "),
        num(now),
        sql(") ON CONFLICT(id) DO NOTHING"),
    ]
}

/// The queries on the `media` and `stacks` tables.
pub struct MediaRepository;

impl MediaRepository {
    /// Asks for a page of a view, latest first. Without a cursor it is the first page,
    /// else the one that follows the cursor.
    pub fn list(filter: &MediaFilter, cursor: &Option<MediaCursor>, limit: u32) -> (r: Statement)
        ensures
            r@ == listing(*filter, *cursor, limit),
    {
        let sort = sort_expr(filter);
        let mut q = Statement::new();
        q.sql(
            "SELECT m.id, m.taken_at, m.imported_at, m.original_filename, m.width, m.height, m.orientation, m.media_type, m.is_favorite, m.is_trashed, m.trashed_at, m.duration_ms, m.stack_id, m.is_moments_render FROM media m LEFT JOIN stacks s ON m.stack_id = s.id WHERE ",
        );
        push_shown_clause(&mut q);
        push_cursor_clause(&mut q, sort, cursor);
        push_filter_clause(&mut q, filter);
        q.sql(" ORDER BY ");
        q.sql(sort);
        q.sql(" DESC, m.id DESC LIMIT ");
        q.num(limit as i64);
        assert(q@ =~= listing(*filter, *cursor, limit));
        q
    }

    /// Deletes assets and every row that belongs to them, in one transaction. No ids
    /// need no query.
    pub fn delete_permanently(ids: &Vec<MediaId>) -> (r: Vec<Statement>)
        ensures
            ids@.len() == 0 ==> r@.len() == 0,
            ids@.len() > 0 ==> clears_assets(r@, media_keys(ids@)),
            ids@.len() > 0 ==> r@.len() == asset_tables().len() && forall|i: int|
                0 <= i < r@.len() ==> (#[trigger] r@[i])@ == over_ids(asset_tables()[i], ids@),
    {
        let mut out: Vec<Statement> = Vec::new();
        if ids.len() == 0 {
            return out;
        }
        out.push(statement_over_ids("DELETE FROM edits WHERE media_id IN (", ids));
        out.push(statement_over_ids("DELETE FROM asset_faces WHERE asset_id IN (", ids));
        out.push(statement_over_ids("DELETE FROM media_metadata WHERE media_id IN (", ids));
        out.push(statement_over_ids("DELETE FROM thumbnails WHERE media_id IN (", ids));
        out.push(statement_over_ids("DELETE FROM album_media WHERE media_id IN (", ids));
        out.push(statement_over_ids("DELETE FROM media WHERE id IN (", ids));
        proof {
            let keys = media_keys(ids@);
            orders::read_remove_edits(out@[0]@, keys);
            orders::read_remove_faces(out@[1]@, keys);
            orders::read_remove_details(out@[2]@, keys);
            orders::read_remove_thumbnails(out@[3]@, keys);
            orders::read_remove_memberships(out@[4]@, keys);
            orders::read_remove_assets(out@[5]@, keys);
        }
        out
    }

    /// Deletes a stack in one transaction, its members freed first.
    pub fn delete_stack(stack_id: &str) -> (r: Vec<Statement>)
        ensures
            clears_stack(r@, stack_id@),
            r@.len() == 2,
            r@[0]@ == seq![
                sql("UPDATE media SET stack_id = NULL WHERE stack_id = "),
                text(stack_id@),
            ],
            r@[1]@ == seq![sql("DELETE FROM stacks WHERE id = "), text(stack_id@)],
    {
        let mut free = Statement::new();
        free.sql("UPDATE media SET stack_id = NULL WHERE stack_id = ");
        free.text(stack_id);
        let mut delete = Statement::new();
        delete.sql("DELETE FROM stacks WHERE id = ");
        delete.text(stack_id);
        proof {
            orders::read_free_members(free@, stack_id@);
            orders::read_remove_stack(delete@, stack_id@);
        }
        let mut out: Vec<Statement> = Vec::new();
        out.push(free);
        out.push(delete);
        out
    }

    /// Deletes several stacks in one transaction, their members freed first. No stacks
    /// need no query.
    pub fn delete_stacks(ids: &Vec<String>) -> (r: Vec<Statement>)
        ensures
            ids@.len() == 0 ==> r@.len() == 0,
            ids@.len() > 0 ==> clears_stacks(r@, text_keys(ids@)),
            ids@.len() > 0 ==> {
                &&& r@.len() == 2
                &&& r@[0]@ == seq![
                    sql("UPDATE media SET stack_id = NULL WHERE stack_id IN ("),
                ] + id_params(text_keys(ids@)) + seq![sql(")")]
                &&& r@[1]@ == seq![sql("DELETE FROM stacks WHERE id IN (")] + id_params(
                    text_keys(ids@),
                ) + seq![sql(")")]
            },
    {
        let mut out: Vec<Statement> = Vec::new();
        if ids.len() == 0 {
            return out;
        }
        let mut free = Statement::new();
        free.sql("UPDATE media SET stack_id = NULL WHERE stack_id IN (");
        free.keys(ids);
        free.sql(")");
        let mut delete = Statement::new();
        delete.sql("DELETE FROM stacks WHERE id IN (");
        delete.keys(ids);
        delete.sql(")");
        out.push(free);
        out.push(delete);
        proof {
            assert(out@[0]@ =~= seq![
                sql("UPDATE media SET stack_id = NULL WHERE stack_id IN ("),
            ] + id_params(text_keys(ids@)) + seq![sql(")")]);
            assert(out@[1]@ =~= seq![sql("DELETE FROM stacks WHERE id IN (")] + id_params(
                text_keys(ids@),
            ) + seq![sql(")")]);
            orders::read_free_members_of_all(out@[0]@, text_keys(ids@));
            orders::read_remove_stacks(out@[1]@, text_keys(ids@));
        }
        out
    }

    /// Asks whether an asset is stored.
    pub fn exists_by_id(id: &MediaId) -> (r: Statement)
        ensures
            says(r@, orders::asset_is_there(id@)),
            r@ == presence_query(id@),
    {
        let mut q = Statement::new();
        q.sql("SELECT 1 FROM media WHERE id = ");
        q.text(id.as_str());
        proof {
            orders::read_asset_is_there(q@, id@);
        }
        q
    }

    /// Asks whether an asset with this content is stored.
    pub fn exists_by_content_hash(hash: &str) -> (r: Statement)
        ensures
            says(r@, orders::content_is_there(hash@)),
            r@ == seq![
                sql("SELECT 1 FROM media WHERE content_hash = "),
                text(hash@),
            ],
    {
        let mut q = Statement::new();
        q.sql("SELECT 1 FROM media WHERE content_hash = ");
        q.text(hash);
        proof {
            orders::read_content_is_there(q@, hash@);
        }
        q
    }

    /// Asks for one item.
    pub fn get(id: &MediaId) -> (r: Statement)
        ensures
            says(r@, orders::item(id@)),
            r@ == seq![
                sql(
                    "SELECT id, taken_at, imported_at, original_filename, width, height, orientation, media_type, is_favorite, is_trashed, trashed_at, duration_ms, stack_id, is_moments_render FROM media WHERE id = ",
                ),
                text(id@),
            ],
    {
        let mut q = Statement::new();
        q.sql(
            "SELECT id, taken_at, imported_at, original_filename, width, height, orientation, media_type, is_favorite, is_trashed, trashed_at, duration_ms, stack_id, is_moments_render FROM media WHERE id = ",
        );
        q.text(id.as_str());
        proof {
            orders::read_item(q@, id@);
        }
        q
    }

    /// Asks for the whole row of an asset.
    pub fn get_record(id: &MediaId) -> (r: Statement)
        ensures
            says(r@, orders::record(id@)),
            r@ == seq![
                sql(
                    "SELECT id, content_hash, external_id, relative_path, original_filename, file_size, imported_at, media_type, taken_at, width, height, orientation, duration_ms, is_favorite, is_trashed, trashed_at, is_moments_render FROM media WHERE id = ",
                ),
                text(id@),
            ],
    {
        let mut q = Statement::new();
        q.sql(
            "SELECT id, content_hash, external_id, relative_path, original_filename, file_size, imported_at, media_type, taken_at, width, height, orientation, duration_ms, is_favorite, is_trashed, trashed_at, is_moments_render FROM media WHERE id = ",
        );
        q.text(id.as_str());
        proof {
            orders::read_record(q@, id@);
        }
        q
    }

    /// Asks for several items at once. What is left out of every view is left out here too:
    /// the members of a stack other than the one that stands for it, and the rendered edits
    /// that give way to their originals. No ids need no query.
    pub fn get_many(ids: &Vec<MediaId>) -> (r: Option<Statement>)
        ensures
            ids@.len() > 0 ==> (r matches Some(q) && q@ == items_query(media_keys(ids@))),
            ids@.len() == 0 ==> r is None,
            ids@.len() > 0 ==> (r matches Some(q) && q@ == seq![
                sql(
                    "SELECT m.id, m.taken_at, m.imported_at, m.original_filename, m.width, m.height, m.orientation, m.media_type, m.is_favorite, m.is_trashed, m.trashed_at, m.duration_ms, m.stack_id, m.is_moments_render FROM media m LEFT JOIN stacks s ON m.stack_id = s.id WHERE m.id IN (",
                ),
            ] + id_params(media_keys(ids@)) + seq![sql(") AND ")] + shown_clause()),
    {
        if ids.len() == 0 {
            return None;
        }
        let mut q = Statement::new();
        q.sql(
            "SELECT m.id, m.taken_at, m.imported_at, m.original_filename, m.width, m.height, m.orientation, m.media_type, m.is_favorite, m.is_trashed, m.trashed_at, m.duration_ms, m.stack_id, m.is_moments_render FROM media m LEFT JOIN stacks s ON m.stack_id = s.id WHERE m.id IN (",
        );
        q.ids(ids);
        q.sql(") AND ");
        push_shown_clause(&mut q);
        Some(q)
    }

    /// Asks which members of stacks will be on their own once the given assets are
    /// deleted: those whose primary is among them and which are not themselves. No ids need
    /// no query.
    pub fn siblings_freed_by_deletion(deleted_ids: &Vec<MediaId>) -> (r: Option<Statement>)
        ensures
            deleted_ids@.len() == 0 ==> r is None,
            deleted_ids@.len() > 0 ==> (r matches Some(q) && q@ == freed_query(deleted_ids@)),
    {
        if deleted_ids.len() == 0 {
            return None;
        }
        let mut q = Statement::new();
        q.sql(
            "SELECT DISTINCT m.id FROM media m JOIN stacks s ON m.stack_id = s.id WHERE s.primary_asset_id IN (",
        );
        q.ids(deleted_ids);
        q.sql(") AND m.id NOT IN (");
        q.ids(deleted_ids);
        q.sql(")");
        Some(q)
    }

    /// Asks for the members of a stack.
    pub fn list_stack_members(stack_id: &str) -> (r: Statement)
        ensures
            says(r@, orders::members_of_stack(stack_id@)),
            r@ == seq![
                sql("SELECT id FROM media WHERE stack_id = "),
                text(stack_id@),
            ],
    {
        let mut q = Statement::new();
        q.sql("SELECT id FROM media WHERE stack_id = ");
        q.text(stack_id);
        proof {
            orders::read_members_of_stack(q@, stack_id@);
        }
        q
    }

    /// Asks for the file name of an asset.
    pub fn original_filename(id: &MediaId) -> (r: Statement)
        ensures
            says(r@, orders::name_of_asset(id@)),
            r@ == seq![
                sql("SELECT original_filename FROM media WHERE id = "),
                text(id@),
            ],
    {
        let mut q = Statement::new();
        q.sql("SELECT original_filename FROM media WHERE id = ");
        q.text(id.as_str());
        proof {
            orders::read_name_of_asset(q@, id@);
        }
        q
    }

    /// Asks for the recorded path of an asset.
    pub fn relative_path(id: &MediaId) -> (r: Statement)
        ensures
            says(r@, orders::path_of_asset(id@)),
            r@ == seq![
                sql("SELECT relative_path FROM media WHERE id = "),
                text(id@),
            ],
    {
        let mut q = Statement::new();
        q.sql("SELECT relative_path FROM media WHERE id = ");
        q.text(id.as_str());
        proof {
            orders::read_path_of_asset(q@, id@);
        }
        q
    }

    /// Asks for what is needed to find the original of an asset.
    pub fn resolve_info(id: &MediaId) -> (r: Statement)
        ensures
            says(r@, orders::whereabouts_of_asset(id@)),
            r@ == seq![
                sql(
                    "SELECT relative_path, original_filename, external_id FROM media WHERE id = ",
                ),
                text(id@),
            ],
    {
        let mut q = Statement::new();
        q.sql("SELECT relative_path, original_filename, external_id FROM media WHERE id = ");
        q.text(id.as_str());
        proof {
            orders::read_whereabouts_of_asset(q@, id@);
        }
        q
    }

    /// Asks for the assets that were moved to the trash longer ago than `max_age_secs`.
    pub fn expired_trash(now: i64, max_age_secs: i64) -> (r: Statement)
        requires
            i64::MIN <= now - max_age_secs <= i64::MAX,
        ensures
            says(r@, orders::expired_assets((now - max_age_secs) as i64)),
            r@ == seq![
                sql("SELECT id FROM media WHERE is_trashed = 1 AND trashed_at < "),
                num((now - max_age_secs) as i64),
            ],
    {
        let mut q = Statement::new();
        q.sql("SELECT id FROM media WHERE is_trashed = 1 AND trashed_at < ");
        q.num(now - max_age_secs);
        proof {
            orders::read_expired_assets(q@, (now - max_age_secs) as i64);
        }
        q
    }

    /// Asks for the numbers of photos and videos outside the trash, their total size, and
    /// the number of items in the trash.
    pub fn media_stats() -> (r: Statement)
        ensures
            r@ == media_counts(),
            r@ == seq![
                sql(
                    "SELECT COUNT(CASE WHEN media_type = 0 AND is_trashed = 0 THEN 1 END), COUNT(CASE WHEN media_type = 1 AND is_trashed = 0 THEN 1 END), COALESCE(SUM(CASE WHEN is_trashed = 0 THEN file_size ELSE 0 END), 0), COUNT(CASE WHEN is_trashed = 1 THEN 1 END) FROM media",
                ),
            ],
    {
        let mut q = Statement::new();
        q.sql(
            "SELECT COUNT(CASE WHEN media_type = 0 AND is_trashed = 0 THEN 1 END), COUNT(CASE WHEN media_type = 1 AND is_trashed = 0 THEN 1 END), COALESCE(SUM(CASE WHEN is_trashed = 0 THEN file_size ELSE 0 END), 0), COUNT(CASE WHEN is_trashed = 1 THEN 1 END) FROM media",
        );
        q
    }

    /// Asks for the number of albums.
    pub fn album_stats() -> (r: Statement)
        ensures
            says(r@, orders::count_of_albums()),
            r@ == seq![
                sql("SELECT COUNT(*) FROM albums"),
            ],
    {
        let mut q = Statement::new();
        q.sql("SELECT COUNT(*) FROM albums");
        proof {
            orders::read_count_of_albums(q@);
        }
        q
    }

    /// Asks for the number of people who have a name and are not hidden.
    pub fn people_stats() -> (r: Statement)
        ensures
            says(r@, orders::count_of_people()),
            r@ == seq![
                sql("SELECT COUNT(*) FROM people WHERE name != '' AND is_hidden = 0"),
            ],
    {
        let mut q = Statement::new();
        q.sql("SELECT COUNT(*) FROM people WHERE name != '' AND is_hidden = 0");
        proof {
            orders::read_count_of_people(q@);
        }
        q
    }

    /// Stores a newly imported asset.
    pub fn insert(record: &MediaRecord) -> (r: Statement)
        ensures
            r@ == insertion(*record),
            r@ == seq![
                sql(
                    "INSERT INTO media (id, content_hash, external_id, relative_path, original_filename, file_size, imported_at, media_type, taken_at, width, height, orientation, duration_ms, is_favorite, is_trashed, trashed_at, is_moments_render) VALUES (",
                ),
            ] + record_values(*record, record.imported_at) + seq![
                sql(")"),
            ],
    {
        let mut q = Statement::new();
        q.sql(
            "INSERT INTO media (id, content_hash, external_id, relative_path, original_filename, file_size, imported_at, media_type, taken_at, width, height, orientation, duration_ms, is_favorite, is_trashed, trashed_at, is_moments_render) VALUES (",
        );
        q.extend(record_value_parts(record, record.imported_at));
        q.sql(")");
        q
    }

    /// Asks when the asset with this id entered the library.
    pub fn imported_at(id: &MediaId) -> (r: Statement)
        ensures
            says(r@, orders::import_time_of_asset(id@)),
            r@ == import_time_query(id@),
    {
        let mut q = Statement::new();
        q.sql("SELECT imported_at FROM media WHERE id = ");
        q.text(id.as_str());
        proof {
            orders::read_import_time_of_asset(q@, id@);
        }
        q
    }

    /// Removes a row under another id that the server knows by this one, and gives back that
    /// id and when the row was imported.
    pub fn displace(id: &MediaId) -> (r: Statement)
        ensures
            says_and(r@, orders::displace(id@), " RETURNING id, imported_at"@),
            r@ == displacement(id@),
    {
        let mut q = Statement::new();
        q.sql("DELETE FROM media WHERE external_id = ");
        q.text(id.as_str());
        q.sql(" AND id != ");
        q.text(id.as_str());
        q.sql(" RETURNING id, imported_at");
        proof {
            orders::read_displace(q@, id@);
        }
        q
    }

    /// Stores an asset from the server in place of what was stored before. When it entered
    /// the library is local knowledge: where it was stored before, that time is kept.
    pub fn upsert(record: &MediaRecord, existing_imported_at: Option<i64>) -> (r: Statement)
        ensures
            r@ == upsertion(*record, kept_time(existing_imported_at, record.imported_at)),
    {
        let mut q = Statement::new();
        q.sql(
            "INSERT OR REPLACE INTO media (id, content_hash, external_id, relative_path, original_filename, file_size, imported_at, media_type, taken_at, width, height, orientation, duration_ms, is_favorite, is_trashed, trashed_at, is_moments_render) VALUES (",
        );
        q.extend(record_value_parts(record, keep_time(existing_imported_at, record.imported_at)));
        q.sql(")");
        q
    }

    /// Sets or clears the favourite flag. No ids need no query.
    pub fn set_favorite(ids: &Vec<MediaId>, favorite: bool) -> (r: Option<Statement>)
        ensures
            ids@.len() > 0 ==> (r matches Some(q) && says(q@, orders::mark_favorite(media_keys(ids@), favorite))),
            ids@.len() == 0 ==> r is None,
            ids@.len() > 0 ==> (r matches Some(q) && q@ == seq![
                sql("UPDATE media SET is_favorite = "),
                flag(favorite),
                sql(" WHERE id IN ("),
            ] + id_params(media_keys(ids@)) + seq![
                sql(")"),
            ]),
    {
        if ids.len() == 0 {
            return None;
        }
        let mut q = Statement::new();
        q.sql("UPDATE media SET is_favorite = ");
        q.flag(favorite);
        q.sql(" WHERE id IN (");
        q.ids(ids);
        q.sql(")");
        proof {
            orders::read_mark_favorite(q@, media_keys(ids@), favorite);
        }
        Some(q)
    }

    /// Asks for an asset with this content that the server does not have yet.
    pub fn id_by_content_hash_pending_push(content_hash: &str) -> (r: Statement)
        ensures
            says(r@, orders::unpushed_content(content_hash@)),
            r@ == seq![
                sql("SELECT id FROM media WHERE content_hash = "),
                text(content_hash@),
                sql(" AND external_id IS NULL"),
            ],
    {
        let mut q = Statement::new();
        q.sql("SELECT id FROM media WHERE content_hash = ");
        q.text(content_hash);
        q.sql(" AND external_id IS NULL");
        proof {
            orders::read_unpushed_content(q@, content_hash@);
        }
        q
    }

    /// Asks for the asset that the server calls by this id.
    pub fn id_by_external_id(external_id: &str) -> (r: Statement)
        ensures
            says(r@, orders::asset_by_server_id(external_id@)),
            r@ == seq![
                sql("SELECT id FROM media WHERE external_id = "),
                text(external_id@),
            ],
    {
        let mut q = Statement::new();
        q.sql("SELECT id FROM media WHERE external_id = ");
        q.text(external_id);
        proof {
            orders::read_asset_by_server_id(q@, external_id@);
        }
        q
    }

    /// Asks for the server's ids of those assets that have one. No ids need no query.
    pub fn external_ids(ids: &Vec<MediaId>) -> (r: Option<Statement>)
        ensures
            ids@.len() > 0 ==> (r matches Some(q) && says(q@, orders::server_ids(media_keys(ids@)))),
            ids@.len() == 0 ==> r is None,
            ids@.len() > 0 ==> (r matches Some(q) && q@ == server_ids_query(ids@)),
    {
        if ids.len() == 0 {
            return None;
        }
        let mut q = Statement::new();
        q.sql("SELECT id, external_id FROM media WHERE id IN (");
        q.ids(ids);
        q.sql(") AND external_id IS NOT NULL");
        proof {
            orders::read_server_ids(q@, media_keys(ids@));
        }
        Some(q)
    }

    /// Moves assets to the trash. No ids need no query.
    pub fn trash(ids: &Vec<MediaId>, now: i64) -> (r: Option<Statement>)
        ensures
            ids@.len() > 0 ==> (r matches Some(q) && says(q@, orders::move_to_trash(media_keys(ids@), now))),
            ids@.len() == 0 ==> r is None,
            ids@.len() > 0 ==> (r matches Some(q) && q@ == seq![
                sql("UPDATE media SET is_trashed = 1, trashed_at = "),
                num(now),
                sql(" WHERE id IN ("),
            ] + id_params(media_keys(ids@)) + seq![
                sql(")"),
            ]),
    {
        if ids.len() == 0 {
            return None;
        }
        let mut q = Statement::new();
        q.sql("UPDATE media SET is_trashed = 1, trashed_at = ");
        q.num(now);
        q.sql(" WHERE id IN (");
        q.ids(ids);
        q.sql(")");
        proof {
            orders::read_move_to_trash(q@, media_keys(ids@), now);
        }
        Some(q)
    }

    /// Takes assets out of the trash. No ids need no query.
    pub fn restore(ids: &Vec<MediaId>) -> (r: Option<Statement>)
        ensures
            ids@.len() > 0 ==> (r matches Some(q) && says(q@, orders::take_out_of_trash(media_keys(ids@)))),
            ids@.len() == 0 ==> r is None,
            ids@.len() > 0 ==> (r matches Some(q) && q@ == seq![
                sql("UPDATE media SET is_trashed = 0, trashed_at = NULL WHERE id IN ("),
            ] + id_params(media_keys(ids@)) + seq![
                sql(")"),
            ]),
    {
        if ids.len() == 0 {
            return None;
        }
        let mut q = Statement::new();
        q.sql("UPDATE media SET is_trashed = 0, trashed_at = NULL WHERE id IN (");
        q.ids(ids);
        q.sql(")");
        proof {
            orders::read_take_out_of_trash(q@, media_keys(ids@));
        }
        Some(q)
    }

    /// Asks for the assets that the server knew and has not confirmed since the checkpoint.
    /// Assets that it never had are not among them.
    pub fn ids_with_stale_heartbeat(checkpoint: i64) -> (r: Statement)
        ensures
            says(r@, orders::stale_assets(checkpoint)),
            r@ == seq![
                sql("SELECT id FROM media WHERE last_seen_at < "),
                num(checkpoint),
                sql(" AND external_id IS NOT NULL"),
            ],
    {
        let mut q = Statement::new();
        q.sql("SELECT id FROM media WHERE last_seen_at < ");
        q.num(checkpoint);
        q.sql(" AND external_id IS NOT NULL");
        proof {
            orders::read_stale_assets(q@, checkpoint);
        }
        q
    }

    /// Notes that the server has confirmed an asset.
    pub fn bump_last_seen_at(id: &MediaId, now: i64) -> (r: Statement)
        ensures
            says(r@, orders::confirm_asset(id@, now)),
            r@ == seq![
                sql("UPDATE media SET last_seen_at = "),
                num(now),
                sql(" WHERE id = "),
                text(id@),
            ],
    {
        let mut q = Statement::new();
        q.sql("UPDATE media SET last_seen_at = ");
        q.num(now);
        q.sql(" WHERE id = ");
        q.text(id.as_str());
        proof {
            orders::read_confirm_asset(q@, id@, now);
        }
        q
    }

    /// Stores a stack, or its new primary. When it was last confirmed stays as it was.
    pub fn upsert_stack(stack: &Stack) -> (r: Statement)
        ensures
            r@ == stack_upsertion(stack.id@, stack.primary_asset_id@),
            r@ == seq![
                sql("INSERT INTO stacks (id, primary_asset_id, last_seen_at) VALUES ("),
                text(stack.id@),
                sql(", "),
                text(stack.primary_asset_id@),
                sql(", COALESCE((SELECT last_seen_at FROM stacks WHERE id = "),
                text(stack.id@),
                sql(
                    "), 0)) ON CONFLICT(id) DO UPDATE SET primary_asset_id = excluded.primary_asset_id",
                ),
            ],
    {
        let mut q = Statement::new();
        q.sql("INSERT INTO stacks (id, primary_asset_id, last_seen_at) VALUES (");
        q.text(stack.id.as_str());
        q.sql(", ");
        q.text(stack.primary_asset_id.as_str());
        q.sql(", COALESCE((SELECT last_seen_at FROM stacks WHERE id = ");
        q.text(stack.id.as_str());
        q.sql(
            "), 0)) ON CONFLICT(id) DO UPDATE SET primary_asset_id = excluded.primary_asset_id",
        );
        q
    }

    /// Stores a stack with a stand-in primary, unless the stack is stored already. It counts
    /// as confirmed now, so that it outlives the current sweep.
    pub fn ensure_stack_stub(stack_id: &str, primary_fallback: &MediaId, now: i64) -> (r: Statement)
        ensures
            r@ == stack_stub(stack_id@, primary_fallback@, now),
            r@ == seq![
                sql("INSERT INTO stacks (id, primary_asset_id, last_seen_at) VALUES ("),
                text(stack_id@),
                sql(", "),
                text(primary_fallback@),
                sql(", "),
                num(now),
                sql(") ON CONFLICT(id) DO NOTHING"),
            ],
    {
        let mut q = Statement::new();
        q.sql("INSERT INTO stacks (id, primary_asset_id, last_seen_at) VALUES (");
        q.text(stack_id);
        q.sql(", ");
        q.text(primary_fallback.as_str());
        q.sql(", ");
        q.num(now);
        q.sql(") ON CONFLICT(id) DO NOTHING");
        q
    }

    /// Binds an asset to a stack. An asset that is bound to it already is not touched.
    pub fn set_media_stack_id(media_id: &MediaId, stack_id: &str) -> (r: Statement)
        ensures
            says(r@, orders::bind_to_stack(media_id@, stack_id@)),
            r@ == seq![
                sql("UPDATE media SET stack_id = "),
                text(stack_id@),
                sql(" WHERE id = "),
                text(media_id@),
                sql(" AND stack_id IS NOT "),
                text(stack_id@),
            ],
    {
        let mut q = Statement::new();
        q.sql("UPDATE media SET stack_id = ");
        q.text(stack_id);
        q.sql(" WHERE id = ");
        q.text(media_id.as_str());
        q.sql(" AND stack_id IS NOT ");
        q.text(stack_id);
        proof {
            orders::read_bind_to_stack(q@, media_id@, stack_id@);
        }
        q
    }

    /// Frees an asset from its stack. An asset that is in none is not touched.
    pub fn clear_media_stack_id(media_id: &MediaId) -> (r: Statement)
        ensures
            says(r@, orders::free_from_stack(media_id@)),
            r@ == seq![
                sql("UPDATE media SET stack_id = NULL WHERE id = "),
                text(media_id@),
                sql(" AND stack_id IS NOT NULL"),
            ],
    {
        let mut q = Statement::new();
        q.sql("UPDATE media SET stack_id = NULL WHERE id = ");
        q.text(media_id.as_str());
        q.sql(" AND stack_id IS NOT NULL");
        proof {
            orders::read_free_from_stack(q@, media_id@);
        }
        q
    }

    /// Notes that the server has confirmed a stack.
    pub fn bump_stack_last_seen_at(stack_id: &str, now: i64) -> (r: Statement)
        ensures
            says(r@, orders::confirm_stack(stack_id@, now)),
            r@ == seq![
                sql("UPDATE stacks SET last_seen_at = "),
                num(now),
                sql(" WHERE id = "),
                text(stack_id@),
            ],
    {
        let mut q = Statement::new();
        q.sql("UPDATE stacks SET last_seen_at = ");
        q.num(now);
        q.sql(" WHERE id = ");
        q.text(stack_id);
        proof {
            orders::read_confirm_stack(q@, stack_id@, now);
        }
        q
    }

    /// Asks for the stacks that the server has not confirmed since the checkpoint.
    pub fn ids_with_stale_stack_heartbeat(checkpoint: i64) -> (r: Statement)
        ensures
            says(r@, orders::stale_stacks(checkpoint)),
            r@ == seq![
                sql("SELECT id FROM stacks WHERE last_seen_at < "),
                num(checkpoint),
            ],
    {
        let mut q = Statement::new();
        q.sql("SELECT id FROM stacks WHERE last_seen_at < ");
        q.num(checkpoint);
        proof {
            orders::read_stale_stacks(q@, checkpoint);
        }
        q
    }
}

// ── Statistics ───────────────────────────────────────────────────────────────

/// Numbers about a library.
#[derive(Debug, Clone)]
pub struct LibraryStats {
    pub photo_count: u64,
    pub video_count: u64,
    pub album_count: u64,
    pub total_file_size: u64,
    /// Items in the trash.
    pub trashed_count: u64,
    /// Bytes that cached originals take.
    pub cache_used_bytes: u64,
    /// People who have a name and are not hidden.
    pub people_count: u64,
    /// What the server says, where there is one.
    pub server: Option<ServerStats>,
}

/// Numbers that a server gives.
#[derive(Debug, Clone)]
pub struct ServerStats {
    pub server_photos: u64,
    pub server_videos: u64,
    pub disk_size: u64,
    pub disk_use: u64,
    /// Percentage of the disk in use, by the IEEE 754 bits of a double-precision
    /// number.
    pub disk_usage_percentage: u64,
}

/// Whether statistics hold the answers of the database: photos, videos, bytes and trashed
/// items, then albums, then people.
pub open spec fn sums_up(
    s: LibraryStats,
    media: (i64, i64, i64, i64),
    albums: i64,
    people: i64,
) -> bool {
    &&& s.photo_count == media.0 as u64
    &&& s.video_count == media.1 as u64
    &&& s.total_file_size == media.2 as u64
    &&& s.trashed_count == media.3 as u64
    &&& s.album_count == albums as u64
    &&& s.people_count == people as u64
    &&& s.cache_used_bytes == 0
    &&& s.server is None
}

/// The statistics that the answers of the database make: photos, videos, bytes and
/// trashed items, then albums, then people. Nothing is known yet of caches and servers.
pub fn library_stats(media: (i64, i64, i64, i64), albums: i64, people: i64) -> (r: LibraryStats)
    ensures
        sums_up(r, media, albums, people),
        r.photo_count == media.0 as u64,
        r.video_count == media.1 as u64,
        r.total_file_size == media.2 as u64,
        r.trashed_count == media.3 as u64,
        r.album_count == albums as u64,
        r.people_count == people as u64,
        r.cache_used_bytes == 0,
        r.server is None,
{
    LibraryStats {
        photo_count: media.0 as u64,
        video_count: media.1 as u64,
        album_count: albums as u64,
        total_file_size: media.2 as u64,
        trashed_count: media.3 as u64,
        cache_used_bytes: 0,
        people_count: people as u64,
        server: None,
    }
}

// ── Laws ─────────────────────────────────────────────────────────────────────

/// Storing what the server sends never changes when an asset that was stored before
/// entered the library, whatever time the server sends.
pub proof fn upsert_keeps_import_time(existing: i64, a: i64, b: i64)
    ensures
        kept_time(Some(existing), a) == existing,
        kept_time(Some(existing), a) == kept_time(Some(existing), b),
        kept_time(None, a) == a,
{
}

} // verus!
