//! The plain statements of the library: what each is about, and that it is written so.

use vstd::prelude::*;

use crate::sql::meaning::{
    read_eight, read_five, read_four, read_one, read_six, read_three, read_two, says, says_and,
    Order, Sets, Term, Test, Tests,
};
use crate::sql::{
    bound, bound_concat, flag, id_params, num, rendered, rendered_concat, sql, text, BindData,
    PartData,
};

verus! {

/// The number that a flag is stored as.
pub open spec fn flag_value(b: bool) -> BindData {
    BindData::Int(
        if b {
            1
        } else {
            0
        },
    )
}

/// Whether an asset is stored.
pub open spec fn asset_is_there(id: Seq<char>) -> Order {
    Order::Ask {
        columns: "1"@,
        table: "media"@,
        tests: Tests::One(Test::Is("id"@, Term::Given(BindData::Text(id)))),
    }
}

pub(crate) proof fn read_asset_is_there(parts: Seq<PartData>, id: Seq<char>)
    requires
        parts =~= seq![sql("SELECT 1 FROM media WHERE id = "), text(id)],
    ensures
        says(parts, asset_is_there(id)),
{
    reveal_strlit("SELECT 1 FROM media WHERE id = ");
    reveal_strlit("SELECT ");
    reveal_strlit("1");
    reveal_strlit(" FROM ");
    reveal_strlit("media");
    reveal_strlit(" WHERE ");
    reveal_strlit("id");
    reveal_strlit(" = ");
    reveal_strlit("?");
    read_two(sql("SELECT 1 FROM media WHERE id = "), text(id));
    assert(parts == seq![sql("SELECT 1 FROM media WHERE id = "), text(id)]);
    assert(rendered(parts) =~= asset_is_there(id).text());
    assert(bound(parts) =~= asset_is_there(id).binds());
}

/// Whether an asset with this content is stored.
pub open spec fn content_is_there(id: Seq<char>) -> Order {
    Order::Ask {
        columns: "1"@,
        table: "media"@,
        tests: Tests::One(Test::Is("content_hash"@, Term::Given(BindData::Text(id)))),
    }
}

pub(crate) proof fn read_content_is_there(parts: Seq<PartData>, id: Seq<char>)
    requires
        parts =~= seq![sql("SELECT 1 FROM media WHERE content_hash = "), text(id)],
    ensures
        says(parts, content_is_there(id)),
{
    reveal_strlit("SELECT 1 FROM media WHERE content_hash = ");
    reveal_strlit("SELECT ");
    reveal_strlit("1");
    reveal_strlit(" FROM ");
    reveal_strlit("media");
    reveal_strlit(" WHERE ");
    reveal_strlit("content_hash");
    reveal_strlit(" = ");
    reveal_strlit("?");
    read_two(sql("SELECT 1 FROM media WHERE content_hash = "), text(id));
    assert(parts == seq![sql("SELECT 1 FROM media WHERE content_hash = "), text(id)]);
    assert(rendered(parts) =~= content_is_there(id).text());
    assert(bound(parts) =~= content_is_there(id).binds());
}

/// The members of a stack.
pub open spec fn members_of_stack(id: Seq<char>) -> Order {
    Order::Ask {
        columns: "id"@,
        table: "media"@,
        tests: Tests::One(Test::Is("stack_id"@, Term::Given(BindData::Text(id)))),
    }
}

pub(crate) proof fn read_members_of_stack(parts: Seq<PartData>, id: Seq<char>)
    requires
        parts =~= seq![sql("SELECT id FROM media WHERE stack_id = "), text(id)],
    ensures
        says(parts, members_of_stack(id)),
{
    reveal_strlit("SELECT id FROM media WHERE stack_id = ");
    reveal_strlit("SELECT ");
    reveal_strlit("id");
    reveal_strlit(" FROM ");
    reveal_strlit("media");
    reveal_strlit(" WHERE ");
    reveal_strlit("stack_id");
    reveal_strlit(" = ");
    reveal_strlit("?");
    read_two(sql("SELECT id FROM media WHERE stack_id = "), text(id));
    assert(parts == seq![sql("SELECT id FROM media WHERE stack_id = "), text(id)]);
    assert(rendered(parts) =~= members_of_stack(id).text());
    assert(bound(parts) =~= members_of_stack(id).binds());
}

/// The file name of an asset.
pub open spec fn name_of_asset(id: Seq<char>) -> Order {
    Order::Ask {
        columns: "original_filename"@,
        table: "media"@,
        tests: Tests::One(Test::Is("id"@, Term::Given(BindData::Text(id)))),
    }
}

pub(crate) proof fn read_name_of_asset(parts: Seq<PartData>, id: Seq<char>)
    requires
        parts =~= seq![sql("SELECT original_filename FROM media WHERE id = "), text(id)],
    ensures
        says(parts, name_of_asset(id)),
{
    reveal_strlit("SELECT original_filename FROM media WHERE id = ");
    reveal_strlit("SELECT ");
    reveal_strlit("original_filename");
    reveal_strlit(" FROM ");
    reveal_strlit("media");
    reveal_strlit(" WHERE ");
    reveal_strlit("id");
    reveal_strlit(" = ");
    reveal_strlit("?");
    read_two(sql("SELECT original_filename FROM media WHERE id = "), text(id));
    assert(parts == seq![sql("SELECT original_filename FROM media WHERE id = "), text(id)]);
    assert(rendered(parts) =~= name_of_asset(id).text());
    assert(bound(parts) =~= name_of_asset(id).binds());
}

/// The recorded path of an asset.
pub open spec fn path_of_asset(id: Seq<char>) -> Order {
    Order::Ask {
        columns: "relative_path"@,
        table: "media"@,
        tests: Tests::One(Test::Is("id"@, Term::Given(BindData::Text(id)))),
    }
}

pub(crate) proof fn read_path_of_asset(parts: Seq<PartData>, id: Seq<char>)
    requires
        parts =~= seq![sql("SELECT relative_path FROM media WHERE id = "), text(id)],
    ensures
        says(parts, path_of_asset(id)),
{
    reveal_strlit("SELECT relative_path FROM media WHERE id = ");
    reveal_strlit("SELECT ");
    reveal_strlit("relative_path");
    reveal_strlit(" FROM ");
    reveal_strlit("media");
    reveal_strlit(" WHERE ");
    reveal_strlit("id");
    reveal_strlit(" = ");
    reveal_strlit("?");
    read_two(sql("SELECT relative_path FROM media WHERE id = "), text(id));
    assert(parts == seq![sql("SELECT relative_path FROM media WHERE id = "), text(id)]);
    assert(rendered(parts) =~= path_of_asset(id).text());
    assert(bound(parts) =~= path_of_asset(id).binds());
}

/// What is needed to find the original of an asset.
pub open spec fn whereabouts_of_asset(id: Seq<char>) -> Order {
    Order::Ask {
        columns: "relative_path, original_filename, external_id"@,
        table: "media"@,
        tests: Tests::One(Test::Is("id"@, Term::Given(BindData::Text(id)))),
    }
}

pub(crate) proof fn read_whereabouts_of_asset(parts: Seq<PartData>, id: Seq<char>)
    requires
        parts =~= seq![
            sql("SELECT relative_path, original_filename, external_id FROM media WHERE id = "),
            text(id),
        ],
    ensures
        says(parts, whereabouts_of_asset(id)),
{
    reveal_strlit("SELECT relative_path, original_filename, external_id FROM media WHERE id = ");
    reveal_strlit("SELECT ");
    reveal_strlit("relative_path, original_filename, external_id");
    reveal_strlit(" FROM ");
    reveal_strlit("media");
    reveal_strlit(" WHERE ");
    reveal_strlit("id");
    reveal_strlit(" = ");
    reveal_strlit("?");
    read_two(
        sql("SELECT relative_path, original_filename, external_id FROM media WHERE id = "),
        text(id),
    );
    assert(parts == seq![sql("SELECT relative_path, original_filename, external_id FROM media WHERE id = "), text(id)]);
    assert(rendered(parts) =~= whereabouts_of_asset(id).text());
    assert(bound(parts) =~= whereabouts_of_asset(id).binds());
}

/// When an asset entered the library.
pub open spec fn import_time_of_asset(id: Seq<char>) -> Order {
    Order::Ask {
        columns: "imported_at"@,
        table: "media"@,
        tests: Tests::One(Test::Is("id"@, Term::Given(BindData::Text(id)))),
    }
}

pub(crate) proof fn read_import_time_of_asset(parts: Seq<PartData>, id: Seq<char>)
    requires
        parts =~= seq![sql("SELECT imported_at FROM media WHERE id = "), text(id)],
    ensures
        says(parts, import_time_of_asset(id)),
{
    reveal_strlit("SELECT imported_at FROM media WHERE id = ");
    reveal_strlit("SELECT ");
    reveal_strlit("imported_at");
    reveal_strlit(" FROM ");
    reveal_strlit("media");
    reveal_strlit(" WHERE ");
    reveal_strlit("id");
    reveal_strlit(" = ");
    reveal_strlit("?");
    read_two(sql("SELECT imported_at FROM media WHERE id = "), text(id));
    assert(parts == seq![sql("SELECT imported_at FROM media WHERE id = "), text(id)]);
    assert(rendered(parts) =~= import_time_of_asset(id).text());
    assert(bound(parts) =~= import_time_of_asset(id).binds());
}

/// The asset that the server calls by an id.
pub open spec fn asset_by_server_id(id: Seq<char>) -> Order {
    Order::Ask {
        columns: "id"@,
        table: "media"@,
        tests: Tests::One(Test::Is("external_id"@, Term::Given(BindData::Text(id)))),
    }
}

pub(crate) proof fn read_asset_by_server_id(parts: Seq<PartData>, id: Seq<char>)
    requires
        parts =~= seq![sql("SELECT id FROM media WHERE external_id = "), text(id)],
    ensures
        says(parts, asset_by_server_id(id)),
{
    reveal_strlit("SELECT id FROM media WHERE external_id = ");
    reveal_strlit("SELECT ");
    reveal_strlit("id");
    reveal_strlit(" FROM ");
    reveal_strlit("media");
    reveal_strlit(" WHERE ");
    reveal_strlit("external_id");
    reveal_strlit(" = ");
    reveal_strlit("?");
    read_two(sql("SELECT id FROM media WHERE external_id = "), text(id));
    assert(parts == seq![sql("SELECT id FROM media WHERE external_id = "), text(id)]);
    assert(rendered(parts) =~= asset_by_server_id(id).text());
    assert(bound(parts) =~= asset_by_server_id(id).binds());
}

/// The assets that were moved to the trash before a moment.
pub open spec fn expired_assets(before: i64) -> Order {
    Order::Ask {
        columns: "id"@,
        table: "media"@,
        tests: Tests::Two(Test::Is("is_trashed"@, Term::One), Test::Below("trashed_at"@, before)),
    }
}

pub(crate) proof fn read_expired_assets(parts: Seq<PartData>, before: i64)
    requires
        parts =~= seq![
            sql("SELECT id FROM media WHERE is_trashed = 1 AND trashed_at < "),
            num(before),
        ],
    ensures
        says(parts, expired_assets(before)),
{
    reveal_strlit("SELECT id FROM media WHERE is_trashed = 1 AND trashed_at < ");
    reveal_strlit("SELECT ");
    reveal_strlit("id");
    reveal_strlit(" FROM ");
    reveal_strlit("media");
    reveal_strlit(" WHERE ");
    reveal_strlit("is_trashed");
    reveal_strlit(" = ");
    reveal_strlit("1");
    reveal_strlit(" AND ");
    reveal_strlit("trashed_at");
    reveal_strlit(" < ?");
    reveal_strlit("?");
    read_two(sql("SELECT id FROM media WHERE is_trashed = 1 AND trashed_at < "), num(before));
    assert(parts == seq![sql("SELECT id FROM media WHERE is_trashed = 1 AND trashed_at < "), num(before)]);
    assert(rendered(parts) =~= expired_assets(before).text());
    assert(bound(parts) =~= expired_assets(before).binds());
}

/// An asset with this content that the server does not have yet.
pub open spec fn unpushed_content(id: Seq<char>) -> Order {
    Order::Ask {
        columns: "id"@,
        table: "media"@,
        tests: Tests::Two(
            Test::Is("content_hash"@, Term::Given(BindData::Text(id))),
            Test::Missing("external_id"@),
        ),
    }
}

pub(crate) proof fn read_unpushed_content(parts: Seq<PartData>, id: Seq<char>)
    requires
        parts =~= seq![
            sql("SELECT id FROM media WHERE content_hash = "),
            text(id),
            sql(" AND external_id IS NULL"),
        ],
    ensures
        says(parts, unpushed_content(id)),
{
    reveal_strlit("SELECT id FROM media WHERE content_hash = ");
    reveal_strlit(" AND external_id IS NULL");
    reveal_strlit("SELECT ");
    reveal_strlit("id");
    reveal_strlit(" FROM ");
    reveal_strlit("media");
    reveal_strlit(" WHERE ");
    reveal_strlit("content_hash");
    reveal_strlit(" = ");
    reveal_strlit("?");
    reveal_strlit(" AND ");
    reveal_strlit("external_id");
    reveal_strlit(" IS NULL");
    read_three(
        sql("SELECT id FROM media WHERE content_hash = "),
        text(id),
        sql(" AND external_id IS NULL"),
    );
    assert(parts == seq![sql("SELECT id FROM media WHERE content_hash = "), text(id), sql(" AND external_id IS NULL")]);
    assert(rendered(parts) =~= unpushed_content(id).text());
    assert(bound(parts) =~= unpushed_content(id).binds());
}

/// The server's ids of those assets that have one.
pub open spec fn server_ids(ids: Seq<Seq<char>>) -> Order {
    Order::Ask {
        columns: "id, external_id"@,
        table: "media"@,
        tests: Tests::Two(Test::Among("id"@, ids), Test::Present("external_id"@)),
    }
}

pub(crate) proof fn read_server_ids(parts: Seq<PartData>, ids: Seq<Seq<char>>)
    requires
        parts =~= seq![
            sql("SELECT id, external_id FROM media WHERE id IN ("),
        ] + id_params(ids) + seq![sql(") AND external_id IS NOT NULL")],
    ensures
        says(parts, server_ids(ids)),
{
    reveal_strlit("SELECT id, external_id FROM media WHERE id IN (");
    reveal_strlit(") AND external_id IS NOT NULL");
    reveal_strlit("SELECT ");
    reveal_strlit("id, external_id");
    reveal_strlit(" FROM ");
    reveal_strlit("media");
    reveal_strlit(" WHERE ");
    reveal_strlit("id");
    reveal_strlit(" IN (");
    reveal_strlit(")");
    reveal_strlit(" AND ");
    reveal_strlit("external_id");
    reveal_strlit(" IS NOT NULL");
    reveal_strlit("?");
    read_one(sql("SELECT id, external_id FROM media WHERE id IN ("));
    read_one(sql(") AND external_id IS NOT NULL"));
    rendered_concat(seq![sql("SELECT id, external_id FROM media WHERE id IN (")], id_params(ids));
    bound_concat(seq![sql("SELECT id, external_id FROM media WHERE id IN (")], id_params(ids));
    rendered_concat(
        seq![sql("SELECT id, external_id FROM media WHERE id IN (")] + id_params(ids),
        seq![sql(") AND external_id IS NOT NULL")],
    );
    bound_concat(
        seq![sql("SELECT id, external_id FROM media WHERE id IN (")] + id_params(ids),
        seq![sql(") AND external_id IS NOT NULL")],
    );
    assert(parts == seq![sql("SELECT id, external_id FROM media WHERE id IN (")] + id_params(ids) + seq![sql(") AND external_id IS NOT NULL")]);
    assert(rendered(parts) =~= server_ids(ids).text());
    assert(bound(parts) =~= server_ids(ids).binds());
}

/// The assets that the server knew and has not confirmed since the checkpoint.
pub open spec fn stale_assets(checkpoint: i64) -> Order {
    Order::Ask {
        columns: "id"@,
        table: "media"@,
        tests: Tests::Two(Test::Below("last_seen_at"@, checkpoint), Test::Present("external_id"@)),
    }
}

pub(crate) proof fn read_stale_assets(parts: Seq<PartData>, checkpoint: i64)
    requires
        parts =~= seq![
            sql("SELECT id FROM media WHERE last_seen_at < "),
            num(checkpoint),
            sql(" AND external_id IS NOT NULL"),
        ],
    ensures
        says(parts, stale_assets(checkpoint)),
{
    reveal_strlit("SELECT id FROM media WHERE last_seen_at < ");
    reveal_strlit(" AND external_id IS NOT NULL");
    reveal_strlit("SELECT ");
    reveal_strlit("id");
    reveal_strlit(" FROM ");
    reveal_strlit("media");
    reveal_strlit(" WHERE ");
    reveal_strlit("last_seen_at");
    reveal_strlit(" < ?");
    reveal_strlit(" AND ");
    reveal_strlit("external_id");
    reveal_strlit(" IS NOT NULL");
    reveal_strlit("?");
    read_three(
        sql("SELECT id FROM media WHERE last_seen_at < "),
        num(checkpoint),
        sql(" AND external_id IS NOT NULL"),
    );
    assert(parts == seq![sql("SELECT id FROM media WHERE last_seen_at < "), num(checkpoint), sql(" AND external_id IS NOT NULL")]);
    assert(rendered(parts) =~= stale_assets(checkpoint).text());
    assert(bound(parts) =~= stale_assets(checkpoint).binds());
}

/// The stacks that the server has not confirmed since the checkpoint.
pub open spec fn stale_stacks(checkpoint: i64) -> Order {
    Order::Ask {
        columns: "id"@,
        table: "stacks"@,
        tests: Tests::One(Test::Below("last_seen_at"@, checkpoint)),
    }
}

pub(crate) proof fn read_stale_stacks(parts: Seq<PartData>, checkpoint: i64)
    requires
        parts =~= seq![sql("SELECT id FROM stacks WHERE last_seen_at < "), num(checkpoint)],
    ensures
        says(parts, stale_stacks(checkpoint)),
{
    reveal_strlit("SELECT id FROM stacks WHERE last_seen_at < ");
    reveal_strlit("SELECT ");
    reveal_strlit("id");
    reveal_strlit(" FROM ");
    reveal_strlit("stacks");
    reveal_strlit(" WHERE ");
    reveal_strlit("last_seen_at");
    reveal_strlit(" < ?");
    reveal_strlit("?");
    read_two(sql("SELECT id FROM stacks WHERE last_seen_at < "), num(checkpoint));
    assert(parts == seq![sql("SELECT id FROM stacks WHERE last_seen_at < "), num(checkpoint)]);
    assert(rendered(parts) =~= stale_stacks(checkpoint).text());
    assert(bound(parts) =~= stale_stacks(checkpoint).binds());
}

/// The albums that the server knew and has not confirmed since the checkpoint.
pub open spec fn stale_albums(checkpoint: i64) -> Order {
    Order::Ask {
        columns: "id"@,
        table: "albums"@,
        tests: Tests::Two(Test::Below("last_seen_at"@, checkpoint), Test::Present("external_id"@)),
    }
}

pub(crate) proof fn read_stale_albums(parts: Seq<PartData>, checkpoint: i64)
    requires
        parts =~= seq![
            sql("SELECT id FROM albums WHERE last_seen_at < "),
            num(checkpoint),
            sql(" AND external_id IS NOT NULL"),
        ],
    ensures
        says(parts, stale_albums(checkpoint)),
{
    reveal_strlit("SELECT id FROM albums WHERE last_seen_at < ");
    reveal_strlit(" AND external_id IS NOT NULL");
    reveal_strlit("SELECT ");
    reveal_strlit("id");
    reveal_strlit(" FROM ");
    reveal_strlit("albums");
    reveal_strlit(" WHERE ");
    reveal_strlit("last_seen_at");
    reveal_strlit(" < ?");
    reveal_strlit(" AND ");
    reveal_strlit("external_id");
    reveal_strlit(" IS NOT NULL");
    reveal_strlit("?");
    read_three(
        sql("SELECT id FROM albums WHERE last_seen_at < "),
        num(checkpoint),
        sql(" AND external_id IS NOT NULL"),
    );
    assert(parts == seq![sql("SELECT id FROM albums WHERE last_seen_at < "), num(checkpoint), sql(" AND external_id IS NOT NULL")]);
    assert(rendered(parts) =~= stale_albums(checkpoint).text());
    assert(bound(parts) =~= stale_albums(checkpoint).binds());
}

/// The people whom the server has not confirmed since the checkpoint.
pub open spec fn stale_people(checkpoint: i64) -> Order {
    Order::Ask {
        columns: "id"@,
        table: "people"@,
        tests: Tests::One(Test::Below("last_seen_at"@, checkpoint)),
    }
}

pub(crate) proof fn read_stale_people(parts: Seq<PartData>, checkpoint: i64)
    requires
        parts =~= seq![sql("SELECT id FROM people WHERE last_seen_at < "), num(checkpoint)],
    ensures
        says(parts, stale_people(checkpoint)),
{
    reveal_strlit("SELECT id FROM people WHERE last_seen_at < ");
    reveal_strlit("SELECT ");
    reveal_strlit("id");
    reveal_strlit(" FROM ");
    reveal_strlit("people");
    reveal_strlit(" WHERE ");
    reveal_strlit("last_seen_at");
    reveal_strlit(" < ?");
    reveal_strlit("?");
    read_two(sql("SELECT id FROM people WHERE last_seen_at < "), num(checkpoint));
    assert(parts == seq![sql("SELECT id FROM people WHERE last_seen_at < "), num(checkpoint)]);
    assert(rendered(parts) =~= stale_people(checkpoint).text());
    assert(bound(parts) =~= stale_people(checkpoint).binds());
}

/// The people of faces that the server has not confirmed since the checkpoint.
pub open spec fn people_of_stale_faces(checkpoint: i64) -> Order {
    Order::Ask {
        columns: "DISTINCT person_id"@,
        table: "asset_faces"@,
        tests: Tests::Two(Test::Below("last_seen_at"@, checkpoint), Test::Present("person_id"@)),
    }
}

pub(crate) proof fn read_people_of_stale_faces(parts: Seq<PartData>, checkpoint: i64)
    requires
        parts =~= seq![
            sql("SELECT DISTINCT person_id FROM asset_faces WHERE last_seen_at < "),
            num(checkpoint),
            sql(" AND person_id IS NOT NULL"),
        ],
    ensures
        says(parts, people_of_stale_faces(checkpoint)),
{
    reveal_strlit("SELECT DISTINCT person_id FROM asset_faces WHERE last_seen_at < ");
    reveal_strlit(" AND person_id IS NOT NULL");
    reveal_strlit("SELECT ");
    reveal_strlit("DISTINCT person_id");
    reveal_strlit(" FROM ");
    reveal_strlit("asset_faces");
    reveal_strlit(" WHERE ");
    reveal_strlit("last_seen_at");
    reveal_strlit(" < ?");
    reveal_strlit(" AND ");
    reveal_strlit("person_id");
    reveal_strlit(" IS NOT NULL");
    reveal_strlit("?");
    read_three(
        sql("SELECT DISTINCT person_id FROM asset_faces WHERE last_seen_at < "),
        num(checkpoint),
        sql(" AND person_id IS NOT NULL"),
    );
    assert(parts == seq![sql("SELECT DISTINCT person_id FROM asset_faces WHERE last_seen_at < "), num(checkpoint), sql(" AND person_id IS NOT NULL")]);
    assert(rendered(parts) =~= people_of_stale_faces(checkpoint).text());
    assert(bound(parts) =~= people_of_stale_faces(checkpoint).binds());
}

/// The server has confirmed an asset.
pub open spec fn confirm_asset(id: Seq<char>, now: i64) -> Order {
    Order::Change {
        table: "media"@,
        sets: Sets::One("last_seen_at"@, Term::Given(BindData::Int(now))),
        tests: Tests::One(Test::Is("id"@, Term::Given(BindData::Text(id)))),
    }
}

pub(crate) proof fn read_confirm_asset(parts: Seq<PartData>, id: Seq<char>, now: i64)
    requires
        parts =~= seq![
            sql("UPDATE media SET last_seen_at = "),
            num(now),
            sql(" WHERE id = "),
            text(id),
        ],
    ensures
        says(parts, confirm_asset(id, now)),
{
    reveal_strlit("UPDATE media SET last_seen_at = ");
    reveal_strlit(" WHERE id = ");
    reveal_strlit("UPDATE ");
    reveal_strlit(" SET ");
    reveal_strlit(" = ");
    reveal_strlit("media");
    reveal_strlit(" WHERE ");
    reveal_strlit("id");
    reveal_strlit("?");
    reveal_strlit("last_seen_at");
    read_four(sql("UPDATE media SET last_seen_at = "), num(now), sql(" WHERE id = "), text(id));
    assert(parts == seq![sql("UPDATE media SET last_seen_at = "), num(now), sql(" WHERE id = "), text(id)]);
    assert(rendered(parts) =~= confirm_asset(id, now).text());
    assert(bound(parts) =~= confirm_asset(id, now).binds());
}

/// The server has confirmed a stack.
pub open spec fn confirm_stack(id: Seq<char>, now: i64) -> Order {
    Order::Change {
        table: "stacks"@,
        sets: Sets::One("last_seen_at"@, Term::Given(BindData::Int(now))),
        tests: Tests::One(Test::Is("id"@, Term::Given(BindData::Text(id)))),
    }
}

pub(crate) proof fn read_confirm_stack(parts: Seq<PartData>, id: Seq<char>, now: i64)
    requires
        parts =~= seq![
            sql("UPDATE stacks SET last_seen_at = "),
            num(now),
            sql(" WHERE id = "),
            text(id),
        ],
    ensures
        says(parts, confirm_stack(id, now)),
{
    reveal_strlit("UPDATE stacks SET last_seen_at = ");
    reveal_strlit(" WHERE id = ");
    reveal_strlit("UPDATE ");
    reveal_strlit(" SET ");
    reveal_strlit(" = ");
    reveal_strlit("stacks");
    reveal_strlit(" WHERE ");
    reveal_strlit("id");
    reveal_strlit("?");
    reveal_strlit("last_seen_at");
    read_four(sql("UPDATE stacks SET last_seen_at = "), num(now), sql(" WHERE id = "), text(id));
    assert(parts == seq![sql("UPDATE stacks SET last_seen_at = "), num(now), sql(" WHERE id = "), text(id)]);
    assert(rendered(parts) =~= confirm_stack(id, now).text());
    assert(bound(parts) =~= confirm_stack(id, now).binds());
}

/// The server has confirmed an album.
pub open spec fn confirm_album(id: Seq<char>, now: i64) -> Order {
    Order::Change {
        table: "albums"@,
        sets: Sets::One("last_seen_at"@, Term::Given(BindData::Int(now))),
        tests: Tests::One(Test::Is("id"@, Term::Given(BindData::Text(id)))),
    }
}

pub(crate) proof fn read_confirm_album(parts: Seq<PartData>, id: Seq<char>, now: i64)
    requires
        parts =~= seq![
            sql("UPDATE albums SET last_seen_at = "),
            num(now),
            sql(" WHERE id = "),
            text(id),
        ],
    ensures
        says(parts, confirm_album(id, now)),
{
    reveal_strlit("UPDATE albums SET last_seen_at = ");
    reveal_strlit(" WHERE id = ");
    reveal_strlit("UPDATE ");
    reveal_strlit(" SET ");
    reveal_strlit(" = ");
    reveal_strlit("albums");
    reveal_strlit(" WHERE ");
    reveal_strlit("id");
    reveal_strlit("?");
    reveal_strlit("last_seen_at");
    read_four(sql("UPDATE albums SET last_seen_at = "), num(now), sql(" WHERE id = "), text(id));
    assert(parts == seq![sql("UPDATE albums SET last_seen_at = "), num(now), sql(" WHERE id = "), text(id)]);
    assert(rendered(parts) =~= confirm_album(id, now).text());
    assert(bound(parts) =~= confirm_album(id, now).binds());
}

/// The server has confirmed a person.
pub open spec fn confirm_person(id: Seq<char>, now: i64) -> Order {
    Order::Change {
        table: "people"@,
        sets: Sets::One("last_seen_at"@, Term::Given(BindData::Int(now))),
        tests: Tests::One(Test::Is("id"@, Term::Given(BindData::Text(id)))),
    }
}

pub(crate) proof fn read_confirm_person(parts: Seq<PartData>, id: Seq<char>, now: i64)
    requires
        parts =~= seq![
            sql("UPDATE people SET last_seen_at = "),
            num(now),
            sql(" WHERE id = "),
            text(id),
        ],
    ensures
        says(parts, confirm_person(id, now)),
{
    reveal_strlit("UPDATE people SET last_seen_at = ");
    reveal_strlit(" WHERE id = ");
    reveal_strlit("UPDATE ");
    reveal_strlit(" SET ");
    reveal_strlit(" = ");
    reveal_strlit("people");
    reveal_strlit(" WHERE ");
    reveal_strlit("id");
    reveal_strlit("?");
    reveal_strlit("last_seen_at");
    read_four(sql("UPDATE people SET last_seen_at = "), num(now), sql(" WHERE id = "), text(id));
    assert(parts == seq![sql("UPDATE people SET last_seen_at = "), num(now), sql(" WHERE id = "), text(id)]);
    assert(rendered(parts) =~= confirm_person(id, now).text());
    assert(bound(parts) =~= confirm_person(id, now).binds());
}

/// The server has confirmed a face.
pub open spec fn confirm_face(id: Seq<char>, now: i64) -> Order {
    Order::Change {
        table: "asset_faces"@,
        sets: Sets::One("last_seen_at"@, Term::Given(BindData::Int(now))),
        tests: Tests::One(Test::Is("id"@, Term::Given(BindData::Text(id)))),
    }
}

pub(crate) proof fn read_confirm_face(parts: Seq<PartData>, id: Seq<char>, now: i64)
    requires
        parts =~= seq![
            sql("UPDATE asset_faces SET last_seen_at = "),
            num(now),
            sql(" WHERE id = "),
            text(id),
        ],
    ensures
        says(parts, confirm_face(id, now)),
{
    reveal_strlit("UPDATE asset_faces SET last_seen_at = ");
    reveal_strlit(" WHERE id = ");
    reveal_strlit("UPDATE ");
    reveal_strlit(" SET ");
    reveal_strlit(" = ");
    reveal_strlit("asset_faces");
    reveal_strlit(" WHERE ");
    reveal_strlit("id");
    reveal_strlit("?");
    reveal_strlit("last_seen_at");
    read_four(
        sql("UPDATE asset_faces SET last_seen_at = "),
        num(now),
        sql(" WHERE id = "),
        text(id),
    );
    assert(parts == seq![sql("UPDATE asset_faces SET last_seen_at = "), num(now), sql(" WHERE id = "), text(id)]);
    assert(rendered(parts) =~= confirm_face(id, now).text());
    assert(bound(parts) =~= confirm_face(id, now).binds());
}

/// Sets or clears the favourite flag.
pub open spec fn mark_favorite(ids: Seq<Seq<char>>, favorite: bool) -> Order {
    Order::Change {
        table: "media"@,
        sets: Sets::One("is_favorite"@, Term::Given(flag_value(favorite))),
        tests: Tests::One(Test::Among("id"@, ids)),
    }
}

pub(crate) proof fn read_mark_favorite(parts: Seq<PartData>, ids: Seq<Seq<char>>, favorite: bool)
    requires
        parts =~= seq![
            sql("UPDATE media SET is_favorite = "),
            flag(favorite),
            sql(" WHERE id IN ("),
        ] + id_params(ids) + seq![sql(")")],
    ensures
        says(parts, mark_favorite(ids, favorite)),
{
    reveal_strlit("UPDATE media SET is_favorite = ");
    reveal_strlit(" WHERE id IN (");
    reveal_strlit(")");
    reveal_strlit("UPDATE ");
    reveal_strlit(" SET ");
    reveal_strlit(" = ");
    reveal_strlit("media");
    reveal_strlit(" WHERE ");
    reveal_strlit("id");
    reveal_strlit(" IN (");
    reveal_strlit("is_favorite");
    reveal_strlit("?");
    read_three(sql("UPDATE media SET is_favorite = "), flag(favorite), sql(" WHERE id IN ("));
    read_one(sql(")"));
    rendered_concat(
        seq![sql("UPDATE media SET is_favorite = "), flag(favorite), sql(" WHERE id IN (")],
        id_params(ids),
    );
    bound_concat(
        seq![sql("UPDATE media SET is_favorite = "), flag(favorite), sql(" WHERE id IN (")],
        id_params(ids),
    );
    rendered_concat(
        seq![
            sql("UPDATE media SET is_favorite = "),
            flag(favorite),
            sql(" WHERE id IN ("),
        ] + id_params(ids),
        seq![sql(")")],
    );
    bound_concat(
        seq![
            sql("UPDATE media SET is_favorite = "),
            flag(favorite),
            sql(" WHERE id IN ("),
        ] + id_params(ids),
        seq![sql(")")],
    );
    assert(parts == seq![sql("UPDATE media SET is_favorite = "), flag(favorite), sql(" WHERE id IN (")] + id_params(ids) + seq![sql(")")]);
    assert(rendered(parts) =~= mark_favorite(ids, favorite).text());
    assert(bound(parts) =~= mark_favorite(ids, favorite).binds());
}

/// Moves assets to the trash.
pub open spec fn move_to_trash(ids: Seq<Seq<char>>, now: i64) -> Order {
    Order::Change {
        table: "media"@,
        sets: Sets::Two("is_trashed"@, Term::One, "trashed_at"@, Term::Given(BindData::Int(now))),
        tests: Tests::One(Test::Among("id"@, ids)),
    }
}

pub(crate) proof fn read_move_to_trash(parts: Seq<PartData>, ids: Seq<Seq<char>>, now: i64)
    requires
        parts =~= seq![
            sql("UPDATE media SET is_trashed = 1, trashed_at = "),
            num(now),
            sql(" WHERE id IN ("),
        ] + id_params(ids) + seq![sql(")")],
    ensures
        says(parts, move_to_trash(ids, now)),
{
    reveal_strlit("UPDATE media SET is_trashed = 1, trashed_at = ");
    reveal_strlit(" WHERE id IN (");
    reveal_strlit(")");
    reveal_strlit("UPDATE ");
    reveal_strlit(" SET ");
    reveal_strlit(" = ");
    reveal_strlit("media");
    reveal_strlit(" WHERE ");
    reveal_strlit("id");
    reveal_strlit(" IN (");
    reveal_strlit("is_trashed");
    reveal_strlit("1");
    reveal_strlit(", ");
    reveal_strlit("trashed_at");
    reveal_strlit("?");
    read_three(
        sql("UPDATE media SET is_trashed = 1, trashed_at = "),
        num(now),
        sql(" WHERE id IN ("),
    );
    read_one(sql(")"));
    rendered_concat(
        seq![sql("UPDATE media SET is_trashed = 1, trashed_at = "), num(now), sql(" WHERE id IN (")],
        id_params(ids),
    );
    bound_concat(
        seq![sql("UPDATE media SET is_trashed = 1, trashed_at = "), num(now), sql(" WHERE id IN (")],
        id_params(ids),
    );
    rendered_concat(
        seq![
            sql("UPDATE media SET is_trashed = 1, trashed_at = "),
            num(now),
            sql(" WHERE id IN ("),
        ] + id_params(ids),
        seq![sql(")")],
    );
    bound_concat(
        seq![
            sql("UPDATE media SET is_trashed = 1, trashed_at = "),
            num(now),
            sql(" WHERE id IN ("),
        ] + id_params(ids),
        seq![sql(")")],
    );
    assert(parts == seq![sql("UPDATE media SET is_trashed = 1, trashed_at = "), num(now), sql(" WHERE id IN (")] + id_params(ids) + seq![sql(")")]);
    assert(rendered(parts) =~= move_to_trash(ids, now).text());
    assert(bound(parts) =~= move_to_trash(ids, now).binds());
}

/// Takes assets out of the trash.
pub open spec fn take_out_of_trash(ids: Seq<Seq<char>>) -> Order {
    Order::Change {
        table: "media"@,
        sets: Sets::Two("is_trashed"@, Term::Zero, "trashed_at"@, Term::Null),
        tests: Tests::One(Test::Among("id"@, ids)),
    }
}

pub(crate) proof fn read_take_out_of_trash(parts: Seq<PartData>, ids: Seq<Seq<char>>)
    requires
        parts =~= seq![
            sql("UPDATE media SET is_trashed = 0, trashed_at = NULL WHERE id IN ("),
        ] + id_params(ids) + seq![sql(")")],
    ensures
        says(parts, take_out_of_trash(ids)),
{
    reveal_strlit("UPDATE media SET is_trashed = 0, trashed_at = NULL WHERE id IN (");
    reveal_strlit(")");
    reveal_strlit("UPDATE ");
    reveal_strlit(" SET ");
    reveal_strlit(" = ");
    reveal_strlit("media");
    reveal_strlit(" WHERE ");
    reveal_strlit("id");
    reveal_strlit(" IN (");
    reveal_strlit("is_trashed");
    reveal_strlit("0");
    reveal_strlit(", ");
    reveal_strlit("trashed_at");
    reveal_strlit("NULL");
    reveal_strlit("?");
    read_one(sql("UPDATE media SET is_trashed = 0, trashed_at = NULL WHERE id IN ("));
    read_one(sql(")"));
    rendered_concat(
        seq![sql("UPDATE media SET is_trashed = 0, trashed_at = NULL WHERE id IN (")],
        id_params(ids),
    );
    bound_concat(
        seq![sql("UPDATE media SET is_trashed = 0, trashed_at = NULL WHERE id IN (")],
        id_params(ids),
    );
    rendered_concat(
        seq![
            sql("UPDATE media SET is_trashed = 0, trashed_at = NULL WHERE id IN ("),
        ] + id_params(ids),
        seq![sql(")")],
    );
    bound_concat(
        seq![
            sql("UPDATE media SET is_trashed = 0, trashed_at = NULL WHERE id IN ("),
        ] + id_params(ids),
        seq![sql(")")],
    );
    assert(parts == seq![sql("UPDATE media SET is_trashed = 0, trashed_at = NULL WHERE id IN (")] + id_params(ids) + seq![sql(")")]);
    assert(rendered(parts) =~= take_out_of_trash(ids).text());
    assert(bound(parts) =~= take_out_of_trash(ids).binds());
}

/// Binds an asset to a stack.
pub open spec fn bind_to_stack(id: Seq<char>, stack: Seq<char>) -> Order {
    Order::Change {
        table: "media"@,
        sets: Sets::One("stack_id"@, Term::Given(BindData::Text(stack))),
        tests: Tests::Two(
            Test::Is("id"@, Term::Given(BindData::Text(id))),
            Test::IsNot("stack_id"@, Term::Given(BindData::Text(stack))),
        ),
    }
}

pub(crate) proof fn read_bind_to_stack(parts: Seq<PartData>, id: Seq<char>, stack: Seq<char>)
    requires
        parts =~= seq![
            sql("UPDATE media SET stack_id = "),
            text(stack),
            sql(" WHERE id = "),
            text(id),
            sql(" AND stack_id IS NOT "),
            text(stack),
        ],
    ensures
        says(parts, bind_to_stack(id, stack)),
{
    reveal_strlit("UPDATE media SET stack_id = ");
    reveal_strlit(" WHERE id = ");
    reveal_strlit(" AND stack_id IS NOT ");
    reveal_strlit("UPDATE ");
    reveal_strlit(" SET ");
    reveal_strlit(" = ");
    reveal_strlit("media");
    reveal_strlit(" WHERE ");
    reveal_strlit("id");
    reveal_strlit("?");
    reveal_strlit(" AND ");
    reveal_strlit("stack_id");
    reveal_strlit(" IS NOT ");
    read_six(
        sql("UPDATE media SET stack_id = "),
        text(stack),
        sql(" WHERE id = "),
        text(id),
        sql(" AND stack_id IS NOT "),
        text(stack),
    );
    assert(parts == seq![sql("UPDATE media SET stack_id = "), text(stack), sql(" WHERE id = "), text(id), sql(" AND stack_id IS NOT "), text(stack)]);
    assert(rendered(parts) =~= bind_to_stack(id, stack).text());
    assert(bound(parts) =~= bind_to_stack(id, stack).binds());
}

/// Frees an asset from its stack.
pub open spec fn free_from_stack(id: Seq<char>) -> Order {
    Order::Change {
        table: "media"@,
        sets: Sets::One("stack_id"@, Term::Null),
        tests: Tests::Two(
            Test::Is("id"@, Term::Given(BindData::Text(id))),
            Test::Present("stack_id"@),
        ),
    }
}

pub(crate) proof fn read_free_from_stack(parts: Seq<PartData>, id: Seq<char>)
    requires
        parts =~= seq![
            sql("UPDATE media SET stack_id = NULL WHERE id = "),
            text(id),
            sql(" AND stack_id IS NOT NULL"),
        ],
    ensures
        says(parts, free_from_stack(id)),
{
    reveal_strlit("UPDATE media SET stack_id = NULL WHERE id = ");
    reveal_strlit(" AND stack_id IS NOT NULL");
    reveal_strlit("UPDATE ");
    reveal_strlit(" SET ");
    reveal_strlit(" = ");
    reveal_strlit("media");
    reveal_strlit(" WHERE ");
    reveal_strlit("id");
    reveal_strlit("?");
    reveal_strlit(" AND ");
    reveal_strlit("stack_id");
    reveal_strlit(" IS NOT NULL");
    reveal_strlit("NULL");
    read_three(
        sql("UPDATE media SET stack_id = NULL WHERE id = "),
        text(id),
        sql(" AND stack_id IS NOT NULL"),
    );
    assert(parts == seq![sql("UPDATE media SET stack_id = NULL WHERE id = "), text(id), sql(" AND stack_id IS NOT NULL")]);
    assert(rendered(parts) =~= free_from_stack(id).text());
    assert(bound(parts) =~= free_from_stack(id).binds());
}

/// An album was updated.
pub open spec fn touch_album(id: Seq<char>, now: i64) -> Order {
    Order::Change {
        table: "albums"@,
        sets: Sets::One("updated_at"@, Term::Given(BindData::Int(now))),
        tests: Tests::One(Test::Is("id"@, Term::Given(BindData::Text(id)))),
    }
}

pub(crate) proof fn read_touch_album(parts: Seq<PartData>, id: Seq<char>, now: i64)
    requires
        parts =~= seq![
            sql("UPDATE albums SET updated_at = "),
            num(now),
            sql(" WHERE id = "),
            text(id),
        ],
    ensures
        says(parts, touch_album(id, now)),
{
    reveal_strlit("UPDATE albums SET updated_at = ");
    reveal_strlit(" WHERE id = ");
    reveal_strlit("UPDATE ");
    reveal_strlit(" SET ");
    reveal_strlit(" = ");
    reveal_strlit("albums");
    reveal_strlit(" WHERE ");
    reveal_strlit("id");
    reveal_strlit("?");
    reveal_strlit("updated_at");
    read_four(sql("UPDATE albums SET updated_at = "), num(now), sql(" WHERE id = "), text(id));
    assert(parts == seq![sql("UPDATE albums SET updated_at = "), num(now), sql(" WHERE id = "), text(id)]);
    assert(rendered(parts) =~= touch_album(id, now).text());
    assert(bound(parts) =~= touch_album(id, now).binds());
}

/// Renames an album.
pub open spec fn rename_album(id: Seq<char>, name: Seq<char>, now: i64) -> Order {
    Order::Change {
        table: "albums"@,
        sets: Sets::Two(
            "name"@,
            Term::Given(BindData::Text(name)),
            "updated_at"@,
            Term::Given(BindData::Int(now)),
        ),
        tests: Tests::One(Test::Is("id"@, Term::Given(BindData::Text(id)))),
    }
}

pub(crate) proof fn read_rename_album(
    parts: Seq<PartData>,
    id: Seq<char>,
    name: Seq<char>,
    now: i64,
)
    requires
        parts =~= seq![
            sql("UPDATE albums SET name = "),
            text(name),
            sql(", updated_at = "),
            num(now),
            sql(" WHERE id = "),
            text(id),
        ],
    ensures
        says(parts, rename_album(id, name, now)),
{
    reveal_strlit("UPDATE albums SET name = ");
    reveal_strlit(", updated_at = ");
    reveal_strlit(" WHERE id = ");
    reveal_strlit("UPDATE ");
    reveal_strlit(" SET ");
    reveal_strlit(" = ");
    reveal_strlit("albums");
    reveal_strlit(" WHERE ");
    reveal_strlit("id");
    reveal_strlit("?");
    reveal_strlit("name");
    reveal_strlit(", ");
    reveal_strlit("updated_at");
    read_six(
        sql("UPDATE albums SET name = "),
        text(name),
        sql(", updated_at = "),
        num(now),
        sql(" WHERE id = "),
        text(id),
    );
    assert(parts == seq![sql("UPDATE albums SET name = "), text(name), sql(", updated_at = "), num(now), sql(" WHERE id = "), text(id)]);
    assert(rendered(parts) =~= rename_album(id, name, now).text());
    assert(bound(parts) =~= rename_album(id, name, now).binds());
}

/// Pins an album to the sidebar, or takes it off.
pub open spec fn pin_album(id: Seq<char>, pinned: bool) -> Order {
    Order::Change {
        table: "albums"@,
        sets: Sets::One("is_pinned"@, Term::Given(flag_value(pinned))),
        tests: Tests::One(Test::Is("id"@, Term::Given(BindData::Text(id)))),
    }
}

pub(crate) proof fn read_pin_album(parts: Seq<PartData>, id: Seq<char>, pinned: bool)
    requires
        parts =~= seq![
            sql("UPDATE albums SET is_pinned = "),
            flag(pinned),
            sql(" WHERE id = "),
            text(id),
        ],
    ensures
        says(parts, pin_album(id, pinned)),
{
    reveal_strlit("UPDATE albums SET is_pinned = ");
    reveal_strlit(" WHERE id = ");
    reveal_strlit("UPDATE ");
    reveal_strlit(" SET ");
    reveal_strlit(" = ");
    reveal_strlit("albums");
    reveal_strlit(" WHERE ");
    reveal_strlit("id");
    reveal_strlit("?");
    reveal_strlit("is_pinned");
    read_four(sql("UPDATE albums SET is_pinned = "), flag(pinned), sql(" WHERE id = "), text(id));
    assert(parts == seq![sql("UPDATE albums SET is_pinned = "), flag(pinned), sql(" WHERE id = "), text(id)]);
    assert(rendered(parts) =~= pin_album(id, pinned).text());
    assert(bound(parts) =~= pin_album(id, pinned).binds());
}

/// The server's id of an album.
pub open spec fn server_id_of_album(id: Seq<char>) -> Order {
    Order::Ask {
        columns: "external_id"@,
        table: "albums"@,
        tests: Tests::One(Test::Is("id"@, Term::Given(BindData::Text(id)))),
    }
}

pub(crate) proof fn read_server_id_of_album(parts: Seq<PartData>, id: Seq<char>)
    requires
        parts =~= seq![sql("SELECT external_id FROM albums WHERE id = "), text(id)],
    ensures
        says(parts, server_id_of_album(id)),
{
    reveal_strlit("SELECT external_id FROM albums WHERE id = ");
    reveal_strlit("SELECT ");
    reveal_strlit("external_id");
    reveal_strlit(" FROM ");
    reveal_strlit("albums");
    reveal_strlit(" WHERE ");
    reveal_strlit("id");
    reveal_strlit(" = ");
    reveal_strlit("?");
    read_two(sql("SELECT external_id FROM albums WHERE id = "), text(id));
    assert(parts == seq![sql("SELECT external_id FROM albums WHERE id = "), text(id)]);
    assert(rendered(parts) =~= server_id_of_album(id).text());
    assert(bound(parts) =~= server_id_of_album(id).binds());
}

/// The album that the server calls by an id.
pub open spec fn album_by_server_id(id: Seq<char>) -> Order {
    Order::Ask {
        columns: "id"@,
        table: "albums"@,
        tests: Tests::One(Test::Is("external_id"@, Term::Given(BindData::Text(id)))),
    }
}

pub(crate) proof fn read_album_by_server_id(parts: Seq<PartData>, id: Seq<char>)
    requires
        parts =~= seq![sql("SELECT id FROM albums WHERE external_id = "), text(id)],
    ensures
        says(parts, album_by_server_id(id)),
{
    reveal_strlit("SELECT id FROM albums WHERE external_id = ");
    reveal_strlit("SELECT ");
    reveal_strlit("id");
    reveal_strlit(" FROM ");
    reveal_strlit("albums");
    reveal_strlit(" WHERE ");
    reveal_strlit("external_id");
    reveal_strlit(" = ");
    reveal_strlit("?");
    read_two(sql("SELECT id FROM albums WHERE external_id = "), text(id));
    assert(parts == seq![sql("SELECT id FROM albums WHERE external_id = "), text(id)]);
    assert(rendered(parts) =~= album_by_server_id(id).text());
    assert(bound(parts) =~= album_by_server_id(id).binds());
}

/// Removes an asset from an album.
pub open spec fn take_out_of_album(album: Seq<char>, media: Seq<char>) -> Order {
    Order::Remove {
        table: "album_media"@,
        tests: Tests::Two(
            Test::Is("album_id"@, Term::Given(BindData::Text(album))),
            Test::Is("media_id"@, Term::Given(BindData::Text(media))),
        ),
    }
}

pub(crate) proof fn read_take_out_of_album(parts: Seq<PartData>, album: Seq<char>, media: Seq<char>)
    requires
        parts =~= seq![
            sql("DELETE FROM album_media WHERE album_id = "),
            text(album),
            sql(" AND media_id = "),
            text(media),
        ],
    ensures
        says(parts, take_out_of_album(album, media)),
{
    reveal_strlit("DELETE FROM album_media WHERE album_id = ");
    reveal_strlit(" AND media_id = ");
    reveal_strlit("DELETE FROM ");
    reveal_strlit("album_media");
    reveal_strlit(" WHERE ");
    reveal_strlit("album_id");
    reveal_strlit(" = ");
    reveal_strlit("?");
    reveal_strlit(" AND ");
    reveal_strlit("media_id");
    read_four(
        sql("DELETE FROM album_media WHERE album_id = "),
        text(album),
        sql(" AND media_id = "),
        text(media),
    );
    assert(parts == seq![sql("DELETE FROM album_media WHERE album_id = "), text(album), sql(" AND media_id = "), text(media)]);
    assert(rendered(parts) =~= take_out_of_album(album, media).text());
    assert(bound(parts) =~= take_out_of_album(album, media).binds());
}

/// One person.
pub open spec fn person(id: Seq<char>) -> Order {
    Order::Ask {
        columns: "id, name, face_count, is_hidden"@,
        table: "people"@,
        tests: Tests::One(Test::Is("id"@, Term::Given(BindData::Text(id)))),
    }
}

pub(crate) proof fn read_person(parts: Seq<PartData>, id: Seq<char>)
    requires
        parts =~= seq![
            sql("SELECT id, name, face_count, is_hidden FROM people WHERE id = "),
            text(id),
        ],
    ensures
        says(parts, person(id)),
{
    reveal_strlit("SELECT id, name, face_count, is_hidden FROM people WHERE id = ");
    reveal_strlit("SELECT ");
    reveal_strlit("id, name, face_count, is_hidden");
    reveal_strlit(" FROM ");
    reveal_strlit("people");
    reveal_strlit(" WHERE ");
    reveal_strlit("id");
    reveal_strlit(" = ");
    reveal_strlit("?");
    read_two(sql("SELECT id, name, face_count, is_hidden FROM people WHERE id = "), text(id));
    assert(parts == seq![sql("SELECT id, name, face_count, is_hidden FROM people WHERE id = "), text(id)]);
    assert(rendered(parts) =~= person(id).text());
    assert(bound(parts) =~= person(id).binds());
}

/// Renames a person.
pub open spec fn rename_person(id: Seq<char>, name: Seq<char>) -> Order {
    Order::Change {
        table: "people"@,
        sets: Sets::One("name"@, Term::Given(BindData::Text(name))),
        tests: Tests::One(Test::Is("id"@, Term::Given(BindData::Text(id)))),
    }
}

pub(crate) proof fn read_rename_person(parts: Seq<PartData>, id: Seq<char>, name: Seq<char>)
    requires
        parts =~= seq![sql("UPDATE people SET name = "), text(name), sql(" WHERE id = "), text(id)],
    ensures
        says(parts, rename_person(id, name)),
{
    reveal_strlit("UPDATE people SET name = ");
    reveal_strlit(" WHERE id = ");
    reveal_strlit("UPDATE ");
    reveal_strlit(" SET ");
    reveal_strlit(" = ");
    reveal_strlit("people");
    reveal_strlit(" WHERE ");
    reveal_strlit("id");
    reveal_strlit("?");
    reveal_strlit("name");
    read_four(sql("UPDATE people SET name = "), text(name), sql(" WHERE id = "), text(id));
    assert(parts == seq![sql("UPDATE people SET name = "), text(name), sql(" WHERE id = "), text(id)]);
    assert(rendered(parts) =~= rename_person(id, name).text());
    assert(bound(parts) =~= rename_person(id, name).binds());
}

/// Hides a person, or shows them again.
pub open spec fn hide_person(id: Seq<char>, hidden: bool) -> Order {
    Order::Change {
        table: "people"@,
        sets: Sets::One("is_hidden"@, Term::Given(flag_value(hidden))),
        tests: Tests::One(Test::Is("id"@, Term::Given(BindData::Text(id)))),
    }
}

pub(crate) proof fn read_hide_person(parts: Seq<PartData>, id: Seq<char>, hidden: bool)
    requires
        parts =~= seq![
            sql("UPDATE people SET is_hidden = "),
            flag(hidden),
            sql(" WHERE id = "),
            text(id),
        ],
    ensures
        says(parts, hide_person(id, hidden)),
{
    reveal_strlit("UPDATE people SET is_hidden = ");
    reveal_strlit(" WHERE id = ");
    reveal_strlit("UPDATE ");
    reveal_strlit(" SET ");
    reveal_strlit(" = ");
    reveal_strlit("people");
    reveal_strlit(" WHERE ");
    reveal_strlit("id");
    reveal_strlit("?");
    reveal_strlit("is_hidden");
    read_four(sql("UPDATE people SET is_hidden = "), flag(hidden), sql(" WHERE id = "), text(id));
    assert(parts == seq![sql("UPDATE people SET is_hidden = "), flag(hidden), sql(" WHERE id = "), text(id)]);
    assert(rendered(parts) =~= hide_person(id, hidden).text());
    assert(bound(parts) =~= hide_person(id, hidden).binds());
}

/// Deletes a person.
pub open spec fn remove_person(id: Seq<char>) -> Order {
    Order::Remove {
        table: "people"@,
        tests: Tests::One(Test::Is("id"@, Term::Given(BindData::Text(id)))),
    }
}

pub(crate) proof fn read_remove_person(parts: Seq<PartData>, id: Seq<char>)
    requires
        parts =~= seq![sql("DELETE FROM people WHERE id = "), text(id)],
    ensures
        says(parts, remove_person(id)),
{
    reveal_strlit("DELETE FROM people WHERE id = ");
    reveal_strlit("DELETE FROM ");
    reveal_strlit("people");
    reveal_strlit(" WHERE ");
    reveal_strlit("id");
    reveal_strlit(" = ");
    reveal_strlit("?");
    read_two(sql("DELETE FROM people WHERE id = "), text(id));
    assert(parts == seq![sql("DELETE FROM people WHERE id = "), text(id)]);
    assert(rendered(parts) =~= remove_person(id).text());
    assert(bound(parts) =~= remove_person(id).binds());
}

/// The person whom a face counts for.
pub open spec fn person_of_face(id: Seq<char>) -> Order {
    Order::Ask {
        columns: "person_id"@,
        table: "asset_faces"@,
        tests: Tests::Three(
            Test::Is("id"@, Term::Given(BindData::Text(id))),
            Test::Is("is_visible"@, Term::One),
            Test::Missing("deleted_at"@),
        ),
    }
}

pub(crate) proof fn read_person_of_face(parts: Seq<PartData>, id: Seq<char>)
    requires
        parts =~= seq![
            sql("SELECT person_id FROM asset_faces WHERE id = "),
            text(id),
            sql(" AND is_visible = 1 AND deleted_at IS NULL"),
        ],
    ensures
        says(parts, person_of_face(id)),
{
    reveal_strlit("SELECT person_id FROM asset_faces WHERE id = ");
    reveal_strlit(" AND is_visible = 1 AND deleted_at IS NULL");
    reveal_strlit("SELECT ");
    reveal_strlit("person_id");
    reveal_strlit(" FROM ");
    reveal_strlit("asset_faces");
    reveal_strlit(" WHERE ");
    reveal_strlit("id");
    reveal_strlit(" = ");
    reveal_strlit("?");
    reveal_strlit(" AND ");
    reveal_strlit("is_visible");
    reveal_strlit("1");
    reveal_strlit("deleted_at");
    reveal_strlit(" IS NULL");
    read_three(
        sql("SELECT person_id FROM asset_faces WHERE id = "),
        text(id),
        sql(" AND is_visible = 1 AND deleted_at IS NULL"),
    );
    assert(parts == seq![sql("SELECT person_id FROM asset_faces WHERE id = "), text(id), sql(" AND is_visible = 1 AND deleted_at IS NULL")]);
    assert(rendered(parts) =~= person_of_face(id).text());
    assert(bound(parts) =~= person_of_face(id).binds());
}

/// Deletes a face.
pub open spec fn remove_face(id: Seq<char>) -> Order {
    Order::Remove {
        table: "asset_faces"@,
        tests: Tests::One(Test::Is("id"@, Term::Given(BindData::Text(id)))),
    }
}

pub(crate) proof fn read_remove_face(parts: Seq<PartData>, id: Seq<char>)
    requires
        parts =~= seq![
            sql("DELETE FROM asset_faces WHERE id = "),
            text(id),
            sql(" RETURNING person_id"),
        ],
    ensures
        says_and(parts, remove_face(id), " RETURNING person_id"@),
{
    reveal_strlit("DELETE FROM asset_faces WHERE id = ");
    reveal_strlit(" RETURNING person_id");
    reveal_strlit("DELETE FROM ");
    reveal_strlit("asset_faces");
    reveal_strlit(" WHERE ");
    reveal_strlit("id");
    reveal_strlit(" = ");
    reveal_strlit("?");
    read_three(sql("DELETE FROM asset_faces WHERE id = "), text(id), sql(" RETURNING person_id"));
    assert(parts == seq![sql("DELETE FROM asset_faces WHERE id = "), text(id), sql(" RETURNING person_id")]);
    assert(rendered(parts) =~= remove_face(id).text() + " RETURNING person_id"@);
    assert(bound(parts) =~= remove_face(id).binds());
}

/// Deletes the people whom the server has not confirmed since the checkpoint.
pub open spec fn remove_stale_people(checkpoint: i64) -> Order {
    Order::Remove { table: "people"@, tests: Tests::One(Test::Below("last_seen_at"@, checkpoint)) }
}

pub(crate) proof fn read_remove_stale_people(parts: Seq<PartData>, checkpoint: i64)
    requires
        parts =~= seq![sql("DELETE FROM people WHERE last_seen_at < "), num(checkpoint)],
    ensures
        says(parts, remove_stale_people(checkpoint)),
{
    reveal_strlit("DELETE FROM people WHERE last_seen_at < ");
    reveal_strlit("DELETE FROM ");
    reveal_strlit("people");
    reveal_strlit(" WHERE ");
    reveal_strlit("last_seen_at");
    reveal_strlit(" < ?");
    reveal_strlit("?");
    read_two(sql("DELETE FROM people WHERE last_seen_at < "), num(checkpoint));
    assert(parts == seq![sql("DELETE FROM people WHERE last_seen_at < "), num(checkpoint)]);
    assert(rendered(parts) =~= remove_stale_people(checkpoint).text());
    assert(bound(parts) =~= remove_stale_people(checkpoint).binds());
}

/// Deletes the faces that the server has not confirmed since the checkpoint.
pub open spec fn remove_stale_faces(checkpoint: i64) -> Order {
    Order::Remove {
        table: "asset_faces"@,
        tests: Tests::One(Test::Below("last_seen_at"@, checkpoint)),
    }
}

pub(crate) proof fn read_remove_stale_faces(parts: Seq<PartData>, checkpoint: i64)
    requires
        parts =~= seq![sql("DELETE FROM asset_faces WHERE last_seen_at < "), num(checkpoint)],
    ensures
        says(parts, remove_stale_faces(checkpoint)),
{
    reveal_strlit("DELETE FROM asset_faces WHERE last_seen_at < ");
    reveal_strlit("DELETE FROM ");
    reveal_strlit("asset_faces");
    reveal_strlit(" WHERE ");
    reveal_strlit("last_seen_at");
    reveal_strlit(" < ?");
    reveal_strlit("?");
    read_two(sql("DELETE FROM asset_faces WHERE last_seen_at < "), num(checkpoint));
    assert(parts == seq![sql("DELETE FROM asset_faces WHERE last_seen_at < "), num(checkpoint)]);
    assert(rendered(parts) =~= remove_stale_faces(checkpoint).text());
    assert(bound(parts) =~= remove_stale_faces(checkpoint).binds());
}

/// The edit state of an asset.
pub open spec fn edit_of_asset(id: Seq<char>) -> Order {
    Order::Ask {
        columns: "edit_json"@,
        table: "edits"@,
        tests: Tests::One(Test::Is("media_id"@, Term::Given(BindData::Text(id)))),
    }
}

pub(crate) proof fn read_edit_of_asset(parts: Seq<PartData>, id: Seq<char>)
    requires
        parts =~= seq![sql("SELECT edit_json FROM edits WHERE media_id = "), text(id)],
    ensures
        says(parts, edit_of_asset(id)),
{
    reveal_strlit("SELECT edit_json FROM edits WHERE media_id = ");
    reveal_strlit("SELECT ");
    reveal_strlit("edit_json");
    reveal_strlit(" FROM ");
    reveal_strlit("edits");
    reveal_strlit(" WHERE ");
    reveal_strlit("media_id");
    reveal_strlit(" = ");
    reveal_strlit("?");
    read_two(sql("SELECT edit_json FROM edits WHERE media_id = "), text(id));
    assert(parts == seq![sql("SELECT edit_json FROM edits WHERE media_id = "), text(id)]);
    assert(rendered(parts) =~= edit_of_asset(id).text());
    assert(bound(parts) =~= edit_of_asset(id).binds());
}

/// Forgets the edit state of an asset.
pub open spec fn forget_edit(id: Seq<char>) -> Order {
    Order::Remove {
        table: "edits"@,
        tests: Tests::One(Test::Is("media_id"@, Term::Given(BindData::Text(id)))),
    }
}

pub(crate) proof fn read_forget_edit(parts: Seq<PartData>, id: Seq<char>)
    requires
        parts =~= seq![sql("DELETE FROM edits WHERE media_id = "), text(id)],
    ensures
        says(parts, forget_edit(id)),
{
    reveal_strlit("DELETE FROM edits WHERE media_id = ");
    reveal_strlit("DELETE FROM ");
    reveal_strlit("edits");
    reveal_strlit(" WHERE ");
    reveal_strlit("media_id");
    reveal_strlit(" = ");
    reveal_strlit("?");
    read_two(sql("DELETE FROM edits WHERE media_id = "), text(id));
    assert(parts == seq![sql("DELETE FROM edits WHERE media_id = "), text(id)]);
    assert(rendered(parts) =~= forget_edit(id).text());
    assert(bound(parts) =~= forget_edit(id).binds());
}

/// The edit state of an asset has been rendered.
pub open spec fn edit_is_rendered(id: Seq<char>, now: i64) -> Order {
    Order::Change {
        table: "edits"@,
        sets: Sets::One("rendered_at"@, Term::Given(BindData::Int(now))),
        tests: Tests::One(Test::Is("media_id"@, Term::Given(BindData::Text(id)))),
    }
}

pub(crate) proof fn read_edit_is_rendered(parts: Seq<PartData>, id: Seq<char>, now: i64)
    requires
        parts =~= seq![
            sql("UPDATE edits SET rendered_at = "),
            num(now),
            sql(" WHERE media_id = "),
            text(id),
        ],
    ensures
        says(parts, edit_is_rendered(id, now)),
{
    reveal_strlit("UPDATE edits SET rendered_at = ");
    reveal_strlit(" WHERE media_id = ");
    reveal_strlit("UPDATE ");
    reveal_strlit(" SET ");
    reveal_strlit(" = ");
    reveal_strlit("edits");
    reveal_strlit(" WHERE ");
    reveal_strlit("media_id");
    reveal_strlit("?");
    reveal_strlit("rendered_at");
    read_four(
        sql("UPDATE edits SET rendered_at = "),
        num(now),
        sql(" WHERE media_id = "),
        text(id),
    );
    assert(parts == seq![sql("UPDATE edits SET rendered_at = "), num(now), sql(" WHERE media_id = "), text(id)]);
    assert(rendered(parts) =~= edit_is_rendered(id, now).text());
    assert(bound(parts) =~= edit_is_rendered(id, now).binds());
}

/// The asset that holds the rendered edit of an asset.
pub open spec fn rendering_of_asset(id: Seq<char>) -> Order {
    Order::Ask {
        columns: "server_rendered_asset_id"@,
        table: "edits"@,
        tests: Tests::One(Test::Is("media_id"@, Term::Given(BindData::Text(id)))),
    }
}

pub(crate) proof fn read_rendering_of_asset(parts: Seq<PartData>, id: Seq<char>)
    requires
        parts =~= seq![
            sql("SELECT server_rendered_asset_id FROM edits WHERE media_id = "),
            text(id),
        ],
    ensures
        says(parts, rendering_of_asset(id)),
{
    reveal_strlit("SELECT server_rendered_asset_id FROM edits WHERE media_id = ");
    reveal_strlit("SELECT ");
    reveal_strlit("server_rendered_asset_id");
    reveal_strlit(" FROM ");
    reveal_strlit("edits");
    reveal_strlit(" WHERE ");
    reveal_strlit("media_id");
    reveal_strlit(" = ");
    reveal_strlit("?");
    read_two(sql("SELECT server_rendered_asset_id FROM edits WHERE media_id = "), text(id));
    assert(parts == seq![sql("SELECT server_rendered_asset_id FROM edits WHERE media_id = "), text(id)]);
    assert(rendered(parts) =~= rendering_of_asset(id).text());
    assert(bound(parts) =~= rendering_of_asset(id).binds());
}

/// Which asset holds the rendered edit of an asset.
pub open spec fn edit_is_held_by(id: Seq<char>, holder: Seq<char>) -> Order {
    Order::Change {
        table: "edits"@,
        sets: Sets::One("server_rendered_asset_id"@, Term::Given(BindData::Text(holder))),
        tests: Tests::One(Test::Is("media_id"@, Term::Given(BindData::Text(id)))),
    }
}

pub(crate) proof fn read_edit_is_held_by(parts: Seq<PartData>, id: Seq<char>, holder: Seq<char>)
    requires
        parts =~= seq![
            sql("UPDATE edits SET server_rendered_asset_id = "),
            text(holder),
            sql(" WHERE media_id = "),
            text(id),
        ],
    ensures
        says(parts, edit_is_held_by(id, holder)),
{
    reveal_strlit("UPDATE edits SET server_rendered_asset_id = ");
    reveal_strlit(" WHERE media_id = ");
    reveal_strlit("UPDATE ");
    reveal_strlit(" SET ");
    reveal_strlit(" = ");
    reveal_strlit("edits");
    reveal_strlit(" WHERE ");
    reveal_strlit("media_id");
    reveal_strlit("?");
    reveal_strlit("server_rendered_asset_id");
    read_four(
        sql("UPDATE edits SET server_rendered_asset_id = "),
        text(holder),
        sql(" WHERE media_id = "),
        text(id),
    );
    assert(parts == seq![sql("UPDATE edits SET server_rendered_asset_id = "), text(holder), sql(" WHERE media_id = "), text(id)]);
    assert(rendered(parts) =~= edit_is_held_by(id, holder).text());
    assert(bound(parts) =~= edit_is_held_by(id, holder).binds());
}

/// Where a thumbnail lies and when it was made.
pub open spec fn thumbnail_is_ready(id: Seq<char>, path: Seq<char>, at: i64) -> Order {
    Order::Change {
        table: "thumbnails"@,
        sets: Sets::Three(
            "status"@,
            Term::One,
            "file_path"@,
            Term::Given(BindData::Text(path)),
            "generated_at"@,
            Term::Given(BindData::Int(at)),
        ),
        tests: Tests::One(Test::Is("media_id"@, Term::Given(BindData::Text(id)))),
    }
}

pub(crate) proof fn read_thumbnail_is_ready(
    parts: Seq<PartData>,
    id: Seq<char>,
    path: Seq<char>,
    at: i64,
)
    requires
        parts =~= seq![
            sql("UPDATE thumbnails SET status = 1, file_path = "),
            text(path),
            sql(", generated_at = "),
            num(at),
            sql(" WHERE media_id = "),
            text(id),
        ],
    ensures
        says(parts, thumbnail_is_ready(id, path, at)),
{
    reveal_strlit("UPDATE thumbnails SET status = 1, file_path = ");
    reveal_strlit(", generated_at = ");
    reveal_strlit(" WHERE media_id = ");
    reveal_strlit("UPDATE ");
    reveal_strlit(" SET ");
    reveal_strlit(" = ");
    reveal_strlit("thumbnails");
    reveal_strlit(" WHERE ");
    reveal_strlit("media_id");
    reveal_strlit("?");
    reveal_strlit("status");
    reveal_strlit("1");
    reveal_strlit(", ");
    reveal_strlit("file_path");
    reveal_strlit("generated_at");
    read_six(
        sql("UPDATE thumbnails SET status = 1, file_path = "),
        text(path),
        sql(", generated_at = "),
        num(at),
        sql(" WHERE media_id = "),
        text(id),
    );
    assert(parts == seq![sql("UPDATE thumbnails SET status = 1, file_path = "), text(path), sql(", generated_at = "), num(at), sql(" WHERE media_id = "), text(id)]);
    assert(rendered(parts) =~= thumbnail_is_ready(id, path, at).text());
    assert(bound(parts) =~= thumbnail_is_ready(id, path, at).binds());
}

/// How far a thumbnail has come.
pub open spec fn thumbnail_of_asset(id: Seq<char>) -> Order {
    Order::Ask {
        columns: "status"@,
        table: "thumbnails"@,
        tests: Tests::One(Test::Is("media_id"@, Term::Given(BindData::Text(id)))),
    }
}

pub(crate) proof fn read_thumbnail_of_asset(parts: Seq<PartData>, id: Seq<char>)
    requires
        parts =~= seq![sql("SELECT status FROM thumbnails WHERE media_id = "), text(id)],
    ensures
        says(parts, thumbnail_of_asset(id)),
{
    reveal_strlit("SELECT status FROM thumbnails WHERE media_id = ");
    reveal_strlit("SELECT ");
    reveal_strlit("status");
    reveal_strlit(" FROM ");
    reveal_strlit("thumbnails");
    reveal_strlit(" WHERE ");
    reveal_strlit("media_id");
    reveal_strlit(" = ");
    reveal_strlit("?");
    read_two(sql("SELECT status FROM thumbnails WHERE media_id = "), text(id));
    assert(parts == seq![sql("SELECT status FROM thumbnails WHERE media_id = "), text(id)]);
    assert(rendered(parts) =~= thumbnail_of_asset(id).text());
    assert(bound(parts) =~= thumbnail_of_asset(id).binds());
}

/// The hash of a queued file.
pub open spec fn upload_has_hash(path: Seq<char>, hash: Seq<char>) -> Order {
    Order::Change {
        table: "upload_queue"@,
        sets: Sets::One("sha1_hash"@, Term::Given(BindData::Text(hash))),
        tests: Tests::One(Test::Is("file_path"@, Term::Given(BindData::Text(path)))),
    }
}

pub(crate) proof fn read_upload_has_hash(parts: Seq<PartData>, path: Seq<char>, hash: Seq<char>)
    requires
        parts =~= seq![
            sql("UPDATE upload_queue SET sha1_hash = "),
            text(hash),
            sql(" WHERE file_path = "),
            text(path),
        ],
    ensures
        says(parts, upload_has_hash(path, hash)),
{
    reveal_strlit("UPDATE upload_queue SET sha1_hash = ");
    reveal_strlit(" WHERE file_path = ");
    reveal_strlit("UPDATE ");
    reveal_strlit(" SET ");
    reveal_strlit(" = ");
    reveal_strlit("upload_queue");
    reveal_strlit(" WHERE ");
    reveal_strlit("file_path");
    reveal_strlit("?");
    reveal_strlit("sha1_hash");
    read_four(
        sql("UPDATE upload_queue SET sha1_hash = "),
        text(hash),
        sql(" WHERE file_path = "),
        text(path),
    );
    assert(parts == seq![sql("UPDATE upload_queue SET sha1_hash = "), text(hash), sql(" WHERE file_path = "), text(path)]);
    assert(rendered(parts) =~= upload_has_hash(path, hash).text());
    assert(bound(parts) =~= upload_has_hash(path, hash).binds());
}

/// All assets.
pub open spec fn all_assets() -> Order {
    Order::Ask { columns: "id"@, table: "media"@, tests: Tests::All }
}

pub(crate) proof fn read_all_assets(parts: Seq<PartData>)
    requires
        parts =~= seq![sql("SELECT id FROM media")],
    ensures
        says(parts, all_assets()),
{
    reveal_strlit("SELECT id FROM media");
    reveal_strlit("SELECT ");
    reveal_strlit("id");
    reveal_strlit(" FROM ");
    reveal_strlit("media");
    reveal_strlit("?");
    read_one(sql("SELECT id FROM media"));
    assert(parts == seq![sql("SELECT id FROM media")]);
    assert(rendered(parts) =~= all_assets().text());
    assert(bound(parts) =~= all_assets().binds());
}

/// Forgets how far the server has been followed.
pub open spec fn forget_checkpoints() -> Order {
    Order::Remove { table: "sync_checkpoints"@, tests: Tests::All }
}

pub(crate) proof fn read_forget_checkpoints(parts: Seq<PartData>)
    requires
        parts =~= seq![sql("DELETE FROM sync_checkpoints")],
    ensures
        says(parts, forget_checkpoints()),
{
    reveal_strlit("DELETE FROM sync_checkpoints");
    reveal_strlit("DELETE FROM ");
    reveal_strlit("sync_checkpoints");
    reveal_strlit("?");
    read_one(sql("DELETE FROM sync_checkpoints"));
    assert(parts == seq![sql("DELETE FROM sync_checkpoints")]);
    assert(rendered(parts) =~= forget_checkpoints().text());
    assert(bound(parts) =~= forget_checkpoints().binds());
}

/// A record of the server was processed.
pub open spec fn record_is_processed(
    row: i64,
    id: Seq<char>,
    action: Seq<char>,
    now: Seq<char>,
) -> Order {
    Order::Change {
        table: "sync_audit"@,
        sets: Sets::Three(
            "completed_at"@,
            Term::Given(BindData::Text(now)),
            "action"@,
            Term::Given(BindData::Text(action)),
            "entity_id"@,
            Term::Given(BindData::Text(id)),
        ),
        tests: Tests::One(Test::Is("id"@, Term::Given(BindData::Int(row)))),
    }
}

pub(crate) proof fn read_record_is_processed(
    parts: Seq<PartData>,
    row: i64,
    id: Seq<char>,
    action: Seq<char>,
    now: Seq<char>,
)
    requires
        parts =~= seq![
            sql("UPDATE sync_audit SET completed_at = "),
            text(now),
            sql(", action = "),
            text(action),
            sql(", entity_id = "),
            text(id),
            sql(" WHERE id = "),
            num(row),
        ],
    ensures
        says(parts, record_is_processed(row, id, action, now)),
{
    reveal_strlit("UPDATE sync_audit SET completed_at = ");
    reveal_strlit(", action = ");
    reveal_strlit(", entity_id = ");
    reveal_strlit(" WHERE id = ");
    reveal_strlit("UPDATE ");
    reveal_strlit(" SET ");
    reveal_strlit(" = ");
    reveal_strlit("sync_audit");
    reveal_strlit(" WHERE ");
    reveal_strlit("id");
    reveal_strlit("?");
    reveal_strlit("completed_at");
    reveal_strlit(", ");
    reveal_strlit("action");
    reveal_strlit("entity_id");
    read_eight(
        sql("UPDATE sync_audit SET completed_at = "),
        text(now),
        sql(", action = "),
        text(action),
        sql(", entity_id = "),
        text(id),
        sql(" WHERE id = "),
        num(row),
    );
    assert(parts == seq![sql("UPDATE sync_audit SET completed_at = "), text(now), sql(", action = "), text(action), sql(", entity_id = "), text(id), sql(" WHERE id = "), num(row)]);
    assert(rendered(parts) =~= record_is_processed(row, id, action, now).text());
    assert(bound(parts) =~= record_is_processed(row, id, action, now).binds());
}

/// The number of people who have a name and are not hidden.
pub open spec fn count_of_people() -> Order {
    Order::Ask {
        columns: "COUNT(*)"@,
        table: "people"@,
        tests: Tests::Two(
            Test::Differs("name"@, Term::Quoted(""@)),
            Test::Is("is_hidden"@, Term::Zero),
        ),
    }
}

pub(crate) proof fn read_count_of_people(parts: Seq<PartData>)
    requires
        parts =~= seq![sql("SELECT COUNT(*) FROM people WHERE name != '' AND is_hidden = 0")],
    ensures
        says(parts, count_of_people()),
{
    reveal_strlit("SELECT COUNT(*) FROM people WHERE name != '' AND is_hidden = 0");
    reveal_strlit("SELECT ");
    reveal_strlit("COUNT(*)");
    reveal_strlit(" FROM ");
    reveal_strlit("people");
    reveal_strlit(" WHERE ");
    reveal_strlit("name");
    reveal_strlit(" != ");
    reveal_strlit("?");
    reveal_strlit("'");
    reveal_strlit("");
    reveal_strlit(" AND ");
    reveal_strlit("is_hidden");
    reveal_strlit(" = ");
    reveal_strlit("0");
    read_one(sql("SELECT COUNT(*) FROM people WHERE name != '' AND is_hidden = 0"));
    assert(parts == seq![sql("SELECT COUNT(*) FROM people WHERE name != '' AND is_hidden = 0")]);
    assert(rendered(parts) =~= count_of_people().text());
    assert(bound(parts) =~= count_of_people().binds());
}

/// The number of albums.
pub open spec fn count_of_albums() -> Order {
    Order::Ask { columns: "COUNT(*)"@, table: "albums"@, tests: Tests::All }
}

pub(crate) proof fn read_count_of_albums(parts: Seq<PartData>)
    requires
        parts =~= seq![sql("SELECT COUNT(*) FROM albums")],
    ensures
        says(parts, count_of_albums()),
{
    reveal_strlit("SELECT COUNT(*) FROM albums");
    reveal_strlit("SELECT ");
    reveal_strlit("COUNT(*)");
    reveal_strlit(" FROM ");
    reveal_strlit("albums");
    reveal_strlit("?");
    read_one(sql("SELECT COUNT(*) FROM albums"));
    assert(parts == seq![sql("SELECT COUNT(*) FROM albums")]);
    assert(rendered(parts) =~= count_of_albums().text());
    assert(bound(parts) =~= count_of_albums().binds());
}

/// Removes a row under another id that the server knows by this one.
pub open spec fn displace(id: Seq<char>) -> Order {
    Order::Remove {
        table: "media"@,
        tests: Tests::Two(
            Test::Is("external_id"@, Term::Given(BindData::Text(id))),
            Test::Differs("id"@, Term::Given(BindData::Text(id))),
        ),
    }
}

pub(crate) proof fn read_displace(parts: Seq<PartData>, id: Seq<char>)
    requires
        parts =~= seq![
            sql("DELETE FROM media WHERE external_id = "),
            text(id),
            sql(" AND id != "),
            text(id),
            sql(" RETURNING id, imported_at"),
        ],
    ensures
        says_and(parts, displace(id), " RETURNING id, imported_at"@),
{
    reveal_strlit("DELETE FROM media WHERE external_id = ");
    reveal_strlit(" AND id != ");
    reveal_strlit(" RETURNING id, imported_at");
    reveal_strlit("DELETE FROM ");
    reveal_strlit("media");
    reveal_strlit(" WHERE ");
    reveal_strlit("external_id");
    reveal_strlit(" = ");
    reveal_strlit("?");
    reveal_strlit(" AND ");
    reveal_strlit("id");
    reveal_strlit(" != ");
    read_five(
        sql("DELETE FROM media WHERE external_id = "),
        text(id),
        sql(" AND id != "),
        text(id),
        sql(" RETURNING id, imported_at"),
    );
    assert(parts == seq![sql("DELETE FROM media WHERE external_id = "), text(id), sql(" AND id != "), text(id), sql(" RETURNING id, imported_at")]);
    assert(rendered(parts) =~= displace(id).text() + " RETURNING id, imported_at"@);
    assert(bound(parts) =~= displace(id).binds());
}

/// One item.
pub open spec fn item(id: Seq<char>) -> Order {
    Order::Ask {
        columns: "id, taken_at, imported_at, original_filename, width, height, orientation, media_type, is_favorite, is_trashed, trashed_at, duration_ms, stack_id, is_moments_render"@,
        table: "media"@,
        tests: Tests::One(Test::Is("id"@, Term::Given(BindData::Text(id)))),
    }
}

pub(crate) proof fn read_item(parts: Seq<PartData>, id: Seq<char>)
    requires
        parts =~= seq![
            sql("SELECT id, taken_at, imported_at, original_filename, width, height, orientation, media_type, is_favorite, is_trashed, trashed_at, duration_ms, stack_id, is_moments_render FROM media WHERE id = "),
            text(id),
        ],
    ensures
        says(parts, item(id)),
{
    reveal_strlit("SELECT id, taken_at, imported_at, original_filename, width, height, orientation, media_type, is_favorite, is_trashed, trashed_at, duration_ms, stack_id, is_moments_render FROM media WHERE id = ");
    reveal_strlit("SELECT ");
    reveal_strlit("id, taken_at, imported_at, original_filename, width, height, orientation, media_type, is_favorite, is_trashed, trashed_at, duration_ms, stack_id, is_moments_render");
    reveal_strlit(" FROM ");
    reveal_strlit("media");
    reveal_strlit(" WHERE ");
    reveal_strlit("id");
    reveal_strlit(" = ");
    reveal_strlit("?");
    read_two(
        sql("SELECT id, taken_at, imported_at, original_filename, width, height, orientation, media_type, is_favorite, is_trashed, trashed_at, duration_ms, stack_id, is_moments_render FROM media WHERE id = "),
        text(id),
    );
    assert(parts == seq![sql("SELECT id, taken_at, imported_at, original_filename, width, height, orientation, media_type, is_favorite, is_trashed, trashed_at, duration_ms, stack_id, is_moments_render FROM media WHERE id = "), text(id)]);
    assert(rendered(parts) =~= item(id).text());
    assert(bound(parts) =~= item(id).binds());
}

/// The whole row of an asset.
pub open spec fn record(id: Seq<char>) -> Order {
    Order::Ask {
        columns: "id, content_hash, external_id, relative_path, original_filename, file_size, imported_at, media_type, taken_at, width, height, orientation, duration_ms, is_favorite, is_trashed, trashed_at, is_moments_render"@,
        table: "media"@,
        tests: Tests::One(Test::Is("id"@, Term::Given(BindData::Text(id)))),
    }
}

pub(crate) proof fn read_record(parts: Seq<PartData>, id: Seq<char>)
    requires
        parts =~= seq![
            sql("SELECT id, content_hash, external_id, relative_path, original_filename, file_size, imported_at, media_type, taken_at, width, height, orientation, duration_ms, is_favorite, is_trashed, trashed_at, is_moments_render FROM media WHERE id = "),
            text(id),
        ],
    ensures
        says(parts, record(id)),
{
    reveal_strlit("SELECT id, content_hash, external_id, relative_path, original_filename, file_size, imported_at, media_type, taken_at, width, height, orientation, duration_ms, is_favorite, is_trashed, trashed_at, is_moments_render FROM media WHERE id = ");
    reveal_strlit("SELECT ");
    reveal_strlit("id, content_hash, external_id, relative_path, original_filename, file_size, imported_at, media_type, taken_at, width, height, orientation, duration_ms, is_favorite, is_trashed, trashed_at, is_moments_render");
    reveal_strlit(" FROM ");
    reveal_strlit("media");
    reveal_strlit(" WHERE ");
    reveal_strlit("id");
    reveal_strlit(" = ");
    reveal_strlit("?");
    read_two(
        sql("SELECT id, content_hash, external_id, relative_path, original_filename, file_size, imported_at, media_type, taken_at, width, height, orientation, duration_ms, is_favorite, is_trashed, trashed_at, is_moments_render FROM media WHERE id = "),
        text(id),
    );
    assert(parts == seq![sql("SELECT id, content_hash, external_id, relative_path, original_filename, file_size, imported_at, media_type, taken_at, width, height, orientation, duration_ms, is_favorite, is_trashed, trashed_at, is_moments_render FROM media WHERE id = "), text(id)]);
    assert(rendered(parts) =~= record(id).text());
    assert(bound(parts) =~= record(id).binds());
}

/// The facts about an asset.
pub open spec fn details(id: Seq<char>) -> Order {
    Order::Ask {
        columns: "camera_make, camera_model, lens_model, aperture, shutter_str, iso, focal_length, gps_lat, gps_lon, gps_alt, color_space"@,
        table: "media_metadata"@,
        tests: Tests::One(Test::Is("media_id"@, Term::Given(BindData::Text(id)))),
    }
}

pub(crate) proof fn read_details(parts: Seq<PartData>, id: Seq<char>)
    requires
        parts =~= seq![
            sql("SELECT camera_make, camera_model, lens_model, aperture, shutter_str, iso, focal_length, gps_lat, gps_lon, gps_alt, color_space FROM media_metadata WHERE media_id = "),
            text(id),
        ],
    ensures
        says(parts, details(id)),
{
    reveal_strlit("SELECT camera_make, camera_model, lens_model, aperture, shutter_str, iso, focal_length, gps_lat, gps_lon, gps_alt, color_space FROM media_metadata WHERE media_id = ");
    reveal_strlit("SELECT ");
    reveal_strlit("camera_make, camera_model, lens_model, aperture, shutter_str, iso, focal_length, gps_lat, gps_lon, gps_alt, color_space");
    reveal_strlit(" FROM ");
    reveal_strlit("media_metadata");
    reveal_strlit(" WHERE ");
    reveal_strlit("media_id");
    reveal_strlit(" = ");
    reveal_strlit("?");
    read_two(
        sql("SELECT camera_make, camera_model, lens_model, aperture, shutter_str, iso, focal_length, gps_lat, gps_lon, gps_alt, color_space FROM media_metadata WHERE media_id = "),
        text(id),
    );
    assert(parts == seq![sql("SELECT camera_make, camera_model, lens_model, aperture, shutter_str, iso, focal_length, gps_lat, gps_lon, gps_alt, color_space FROM media_metadata WHERE media_id = "), text(id)]);
    assert(rendered(parts) =~= details(id).text());
    assert(bound(parts) =~= details(id).binds());
}

/// The edit state of an asset, where it changed since it was rendered last.
pub open spec fn pending_edit(id: Seq<char>) -> Order {
    Order::Ask {
        columns: "1"@,
        table: "edits"@,
        tests: Tests::Two(
            Test::Is("media_id"@, Term::Given(BindData::Text(id))),
            Test::Behind("rendered_at"@, "updated_at"@),
        ),
    }
}

pub(crate) proof fn read_pending_edit(parts: Seq<PartData>, id: Seq<char>)
    requires
        parts =~= seq![
            sql("SELECT 1 FROM edits WHERE media_id = "),
            text(id),
            sql(" AND (rendered_at IS NULL OR updated_at > rendered_at)"),
        ],
    ensures
        says(parts, pending_edit(id)),
{
    reveal_strlit("SELECT 1 FROM edits WHERE media_id = ");
    reveal_strlit(" AND (rendered_at IS NULL OR updated_at > rendered_at)");
    reveal_strlit("SELECT ");
    reveal_strlit("1");
    reveal_strlit(" FROM ");
    reveal_strlit("edits");
    reveal_strlit(" WHERE ");
    reveal_strlit("media_id");
    reveal_strlit(" = ");
    reveal_strlit("?");
    reveal_strlit(" AND ");
    reveal_strlit("rendered_at");
    reveal_strlit("(");
    reveal_strlit(" IS NULL OR ");
    reveal_strlit(" > ");
    reveal_strlit(")");
    reveal_strlit("updated_at");
    read_three(
        sql("SELECT 1 FROM edits WHERE media_id = "),
        text(id),
        sql(" AND (rendered_at IS NULL OR updated_at > rendered_at)"),
    );
    assert(parts == seq![sql("SELECT 1 FROM edits WHERE media_id = "), text(id), sql(" AND (rendered_at IS NULL OR updated_at > rendered_at)")]);
    assert(rendered(parts) =~= pending_edit(id).text());
    assert(bound(parts) =~= pending_edit(id).binds());
}

/// A thumbnail could not be made.
pub open spec fn thumbnail_failed(id: Seq<char>) -> Order {
    Order::Change {
        table: "thumbnails"@,
        sets: Sets::One("status"@, Term::Two),
        tests: Tests::One(Test::Is("media_id"@, Term::Given(BindData::Text(id)))),
    }
}

pub(crate) proof fn read_thumbnail_failed(parts: Seq<PartData>, id: Seq<char>)
    requires
        parts =~= seq![sql("UPDATE thumbnails SET status = 2 WHERE media_id = "), text(id)],
    ensures
        says(parts, thumbnail_failed(id)),
{
    reveal_strlit("UPDATE thumbnails SET status = 2 WHERE media_id = ");
    reveal_strlit("UPDATE ");
    reveal_strlit(" SET ");
    reveal_strlit(" = ");
    reveal_strlit("thumbnails");
    reveal_strlit(" WHERE ");
    reveal_strlit("media_id");
    reveal_strlit("?");
    reveal_strlit("status");
    reveal_strlit("2");
    read_two(sql("UPDATE thumbnails SET status = 2 WHERE media_id = "), text(id));
    assert(parts == seq![sql("UPDATE thumbnails SET status = 2 WHERE media_id = "), text(id)]);
    assert(rendered(parts) =~= thumbnail_failed(id).text());
    assert(bound(parts) =~= thumbnail_failed(id).binds());
}

/// Removes the files that need nothing more.
pub open spec fn clear_queue() -> Order {
    Order::Remove {
        table: "upload_queue"@,
        tests: Tests::One(Test::Either("status"@, Term::One, Term::Three)),
    }
}

pub(crate) proof fn read_clear_queue(parts: Seq<PartData>)
    requires
        parts =~= seq![sql("DELETE FROM upload_queue WHERE status IN (1, 3)")],
    ensures
        says(parts, clear_queue()),
{
    reveal_strlit("DELETE FROM upload_queue WHERE status IN (1, 3)");
    reveal_strlit("DELETE FROM ");
    reveal_strlit("upload_queue");
    reveal_strlit(" WHERE ");
    reveal_strlit("status");
    reveal_strlit(" IN (");
    reveal_strlit(", ");
    reveal_strlit(")");
    reveal_strlit("1");
    reveal_strlit("3");
    reveal_strlit("?");
    read_one(sql("DELETE FROM upload_queue WHERE status IN (1, 3)"));
    assert(parts == seq![sql("DELETE FROM upload_queue WHERE status IN (1, 3)")]);
    assert(rendered(parts) =~= clear_queue().text());
    assert(bound(parts) =~= clear_queue().binds());
}

/// A record of the server could not be processed.
pub open spec fn record_failed(row: i64, error: Seq<char>, now: Seq<char>) -> Order {
    Order::Change {
        table: "sync_audit"@,
        sets: Sets::Three(
            "completed_at"@,
            Term::Given(BindData::Text(now)),
            "action"@,
            Term::Quoted("error"@),
            "error_msg"@,
            Term::Given(BindData::Text(error)),
        ),
        tests: Tests::One(Test::Is("id"@, Term::Given(BindData::Int(row)))),
    }
}

pub(crate) proof fn read_record_failed(
    parts: Seq<PartData>,
    row: i64,
    error: Seq<char>,
    now: Seq<char>,
)
    requires
        parts =~= seq![
            sql("UPDATE sync_audit SET completed_at = "),
            text(now),
            sql(", action = 'error', error_msg = "),
            text(error),
            sql(" WHERE id = "),
            num(row),
        ],
    ensures
        says(parts, record_failed(row, error, now)),
{
    reveal_strlit("UPDATE sync_audit SET completed_at = ");
    reveal_strlit(", action = 'error', error_msg = ");
    reveal_strlit(" WHERE id = ");
    reveal_strlit("UPDATE ");
    reveal_strlit(" SET ");
    reveal_strlit(" = ");
    reveal_strlit("sync_audit");
    reveal_strlit(" WHERE ");
    reveal_strlit("id");
    reveal_strlit("?");
    reveal_strlit("completed_at");
    reveal_strlit(", ");
    reveal_strlit("action");
    reveal_strlit("'");
    reveal_strlit("error");
    reveal_strlit("error_msg");
    read_six(
        sql("UPDATE sync_audit SET completed_at = "),
        text(now),
        sql(", action = 'error', error_msg = "),
        text(error),
        sql(" WHERE id = "),
        num(row),
    );
    assert(parts == seq![sql("UPDATE sync_audit SET completed_at = "), text(now), sql(", action = 'error', error_msg = "), text(error), sql(" WHERE id = "), num(row)]);
    assert(rendered(parts) =~= record_failed(row, error, now).text());
    assert(bound(parts) =~= record_failed(row, error, now).binds());
}

/// How far a queued file has come, and what went wrong.
pub open spec fn upload_has_status(path: Seq<char>, status: i64, error: BindData) -> Order {
    Order::Change {
        table: "upload_queue"@,
        sets: Sets::Two(
            "status"@,
            Term::Given(BindData::Int(status)),
            "error_msg"@,
            Term::Given(error),
        ),
        tests: Tests::One(Test::Is("file_path"@, Term::Given(BindData::Text(path)))),
    }
}

pub(crate) proof fn read_upload_has_status(
    parts: Seq<PartData>,
    path: Seq<char>,
    status: i64,
    error: BindData,
)
    requires
        parts =~= seq![
            sql("UPDATE upload_queue SET status = "),
            num(status),
            sql(", error_msg = "),
            PartData::Bound(error),
            sql(" WHERE file_path = "),
            text(path),
        ],
    ensures
        says(parts, upload_has_status(path, status, error)),
{
    reveal_strlit("UPDATE upload_queue SET status = ");
    reveal_strlit(", error_msg = ");
    reveal_strlit(" WHERE file_path = ");
    reveal_strlit("UPDATE ");
    reveal_strlit(" SET ");
    reveal_strlit(" = ");
    reveal_strlit("upload_queue");
    reveal_strlit(" WHERE ");
    reveal_strlit("file_path");
    reveal_strlit("?");
    reveal_strlit("status");
    reveal_strlit(", ");
    reveal_strlit("error_msg");
    read_six(
        sql("UPDATE upload_queue SET status = "),
        num(status),
        sql(", error_msg = "),
        PartData::Bound(error),
        sql(" WHERE file_path = "),
        text(path),
    );
    assert(parts == seq![sql("UPDATE upload_queue SET status = "), num(status), sql(", error_msg = "), PartData::Bound(error), sql(" WHERE file_path = "), text(path)]);
    assert(rendered(parts) =~= upload_has_status(path, status, error).text());
    assert(bound(parts) =~= upload_has_status(path, status, error).binds());
}

/// Deletes a stack.
pub open spec fn remove_stack(id: Seq<char>) -> Order {
    Order::Remove {
        table: "stacks"@,
        tests: Tests::One(Test::Is("id"@, Term::Given(BindData::Text(id)))),
    }
}

pub(crate) proof fn read_remove_stack(parts: Seq<PartData>, id: Seq<char>)
    requires
        parts =~= seq![sql("DELETE FROM stacks WHERE id = "), text(id)],
    ensures
        says(parts, remove_stack(id)),
{
    reveal_strlit("DELETE FROM stacks WHERE id = ");
    reveal_strlit("DELETE FROM ");
    reveal_strlit("stacks");
    reveal_strlit(" WHERE ");
    reveal_strlit("id");
    reveal_strlit(" = ");
    reveal_strlit("?");
    read_two(sql("DELETE FROM stacks WHERE id = "), text(id));
    assert(parts == seq![sql("DELETE FROM stacks WHERE id = "), text(id)]);
    assert(rendered(parts) =~= remove_stack(id).text());
    assert(bound(parts) =~= remove_stack(id).binds());
}

/// Frees the members of a stack.
pub open spec fn free_members(id: Seq<char>) -> Order {
    Order::Change {
        table: "media"@,
        sets: Sets::One("stack_id"@, Term::Null),
        tests: Tests::One(Test::Is("stack_id"@, Term::Given(BindData::Text(id)))),
    }
}

pub(crate) proof fn read_free_members(parts: Seq<PartData>, id: Seq<char>)
    requires
        parts =~= seq![sql("UPDATE media SET stack_id = NULL WHERE stack_id = "), text(id)],
    ensures
        says(parts, free_members(id)),
{
    reveal_strlit("UPDATE media SET stack_id = NULL WHERE stack_id = ");
    reveal_strlit("UPDATE ");
    reveal_strlit(" SET ");
    reveal_strlit(" = ");
    reveal_strlit("media");
    reveal_strlit(" WHERE ");
    reveal_strlit("stack_id");
    reveal_strlit("?");
    reveal_strlit("NULL");
    read_two(sql("UPDATE media SET stack_id = NULL WHERE stack_id = "), text(id));
    assert(parts == seq![sql("UPDATE media SET stack_id = NULL WHERE stack_id = "), text(id)]);
    assert(rendered(parts) =~= free_members(id).text());
    assert(bound(parts) =~= free_members(id).binds());
}

/// Deletes several stacks.
pub open spec fn remove_stacks(ids: Seq<Seq<char>>) -> Order {
    Order::Remove { table: "stacks"@, tests: Tests::One(Test::Among("id"@, ids)) }
}

pub(crate) proof fn read_remove_stacks(parts: Seq<PartData>, ids: Seq<Seq<char>>)
    requires
        parts =~= seq![sql("DELETE FROM stacks WHERE id IN (")] + id_params(ids) + seq![sql(")")],
    ensures
        says(parts, remove_stacks(ids)),
{
    reveal_strlit("DELETE FROM stacks WHERE id IN (");
    reveal_strlit(")");
    reveal_strlit("DELETE FROM ");
    reveal_strlit("stacks");
    reveal_strlit(" WHERE ");
    reveal_strlit("id");
    reveal_strlit(" IN (");
    reveal_strlit("?");
    read_one(sql("DELETE FROM stacks WHERE id IN ("));
    read_one(sql(")"));
    rendered_concat(seq![sql("DELETE FROM stacks WHERE id IN (")], id_params(ids));
    bound_concat(seq![sql("DELETE FROM stacks WHERE id IN (")], id_params(ids));
    rendered_concat(seq![sql("DELETE FROM stacks WHERE id IN (")] + id_params(ids), seq![sql(")")]);
    bound_concat(seq![sql("DELETE FROM stacks WHERE id IN (")] + id_params(ids), seq![sql(")")]);
    assert(parts == seq![sql("DELETE FROM stacks WHERE id IN (")] + id_params(ids) + seq![sql(")")]);
    assert(rendered(parts) =~= remove_stacks(ids).text());
    assert(bound(parts) =~= remove_stacks(ids).binds());
}

/// Frees the members of several stacks.
pub open spec fn free_members_of_all(ids: Seq<Seq<char>>) -> Order {
    Order::Change {
        table: "media"@,
        sets: Sets::One("stack_id"@, Term::Null),
        tests: Tests::One(Test::Among("stack_id"@, ids)),
    }
}

pub(crate) proof fn read_free_members_of_all(parts: Seq<PartData>, ids: Seq<Seq<char>>)
    requires
        parts =~= seq![
            sql("UPDATE media SET stack_id = NULL WHERE stack_id IN ("),
        ] + id_params(ids) + seq![sql(")")],
    ensures
        says(parts, free_members_of_all(ids)),
{
    reveal_strlit("UPDATE media SET stack_id = NULL WHERE stack_id IN (");
    reveal_strlit(")");
    reveal_strlit("UPDATE ");
    reveal_strlit(" SET ");
    reveal_strlit(" = ");
    reveal_strlit("media");
    reveal_strlit(" WHERE ");
    reveal_strlit("stack_id");
    reveal_strlit(" IN (");
    reveal_strlit("NULL");
    reveal_strlit("?");
    read_one(sql("UPDATE media SET stack_id = NULL WHERE stack_id IN ("));
    read_one(sql(")"));
    rendered_concat(
        seq![sql("UPDATE media SET stack_id = NULL WHERE stack_id IN (")],
        id_params(ids),
    );
    bound_concat(seq![sql("UPDATE media SET stack_id = NULL WHERE stack_id IN (")], id_params(ids));
    rendered_concat(
        seq![sql("UPDATE media SET stack_id = NULL WHERE stack_id IN (")] + id_params(ids),
        seq![sql(")")],
    );
    bound_concat(
        seq![sql("UPDATE media SET stack_id = NULL WHERE stack_id IN (")] + id_params(ids),
        seq![sql(")")],
    );
    assert(parts == seq![sql("UPDATE media SET stack_id = NULL WHERE stack_id IN (")] + id_params(ids) + seq![sql(")")]);
    assert(rendered(parts) =~= free_members_of_all(ids).text());
    assert(bound(parts) =~= free_members_of_all(ids).binds());
}

/// Takes everything out of an album.
pub open spec fn empty_album(id: Seq<char>) -> Order {
    Order::Remove {
        table: "album_media"@,
        tests: Tests::One(Test::Is("album_id"@, Term::Given(BindData::Text(id)))),
    }
}

pub(crate) proof fn read_empty_album(parts: Seq<PartData>, id: Seq<char>)
    requires
        parts =~= seq![sql("DELETE FROM album_media WHERE album_id = "), text(id)],
    ensures
        says(parts, empty_album(id)),
{
    reveal_strlit("DELETE FROM album_media WHERE album_id = ");
    reveal_strlit("DELETE FROM ");
    reveal_strlit("album_media");
    reveal_strlit(" WHERE ");
    reveal_strlit("album_id");
    reveal_strlit(" = ");
    reveal_strlit("?");
    read_two(sql("DELETE FROM album_media WHERE album_id = "), text(id));
    assert(parts == seq![sql("DELETE FROM album_media WHERE album_id = "), text(id)]);
    assert(rendered(parts) =~= empty_album(id).text());
    assert(bound(parts) =~= empty_album(id).binds());
}

/// Deletes an album.
pub open spec fn remove_album(id: Seq<char>) -> Order {
    Order::Remove {
        table: "albums"@,
        tests: Tests::One(Test::Is("id"@, Term::Given(BindData::Text(id)))),
    }
}

pub(crate) proof fn read_remove_album(parts: Seq<PartData>, id: Seq<char>)
    requires
        parts =~= seq![sql("DELETE FROM albums WHERE id = "), text(id)],
    ensures
        says(parts, remove_album(id)),
{
    reveal_strlit("DELETE FROM albums WHERE id = ");
    reveal_strlit("DELETE FROM ");
    reveal_strlit("albums");
    reveal_strlit(" WHERE ");
    reveal_strlit("id");
    reveal_strlit(" = ");
    reveal_strlit("?");
    read_two(sql("DELETE FROM albums WHERE id = "), text(id));
    assert(parts == seq![sql("DELETE FROM albums WHERE id = "), text(id)]);
    assert(rendered(parts) =~= remove_album(id).text());
    assert(bound(parts) =~= remove_album(id).binds());
}

/// Takes assets out of an album.
pub open spec fn take_all_out_of_album(album: Seq<char>, ids: Seq<Seq<char>>) -> Order {
    Order::Remove {
        table: "album_media"@,
        tests: Tests::Two(
            Test::Is("album_id"@, Term::Given(BindData::Text(album))),
            Test::Among("media_id"@, ids),
        ),
    }
}

pub(crate) proof fn read_take_all_out_of_album(
    parts: Seq<PartData>,
    album: Seq<char>,
    ids: Seq<Seq<char>>,
)
    requires
        parts =~= seq![
            sql("DELETE FROM album_media WHERE album_id = "),
            text(album),
            sql(" AND media_id IN ("),
        ] + id_params(ids) + seq![sql(")")],
    ensures
        says(parts, take_all_out_of_album(album, ids)),
{
    reveal_strlit("DELETE FROM album_media WHERE album_id = ");
    reveal_strlit(" AND media_id IN (");
    reveal_strlit(")");
    reveal_strlit("DELETE FROM ");
    reveal_strlit("album_media");
    reveal_strlit(" WHERE ");
    reveal_strlit("album_id");
    reveal_strlit(" = ");
    reveal_strlit("?");
    reveal_strlit(" AND ");
    reveal_strlit("media_id");
    reveal_strlit(" IN (");
    read_three(
        sql("DELETE FROM album_media WHERE album_id = "),
        text(album),
        sql(" AND media_id IN ("),
    );
    read_one(sql(")"));
    rendered_concat(
        seq![
            sql("DELETE FROM album_media WHERE album_id = "),
            text(album),
            sql(" AND media_id IN ("),
        ],
        id_params(ids),
    );
    bound_concat(
        seq![
            sql("DELETE FROM album_media WHERE album_id = "),
            text(album),
            sql(" AND media_id IN ("),
        ],
        id_params(ids),
    );
    rendered_concat(
        seq![
            sql("DELETE FROM album_media WHERE album_id = "),
            text(album),
            sql(" AND media_id IN ("),
        ] + id_params(ids),
        seq![sql(")")],
    );
    bound_concat(
        seq![
            sql("DELETE FROM album_media WHERE album_id = "),
            text(album),
            sql(" AND media_id IN ("),
        ] + id_params(ids),
        seq![sql(")")],
    );
    assert(parts == seq![sql("DELETE FROM album_media WHERE album_id = "), text(album), sql(" AND media_id IN (")] + id_params(ids) + seq![sql(")")]);
    assert(rendered(parts) =~= take_all_out_of_album(album, ids).text());
    assert(bound(parts) =~= take_all_out_of_album(album, ids).binds());
}

/// Deletes the edit states of assets.
pub open spec fn remove_edits(ids: Seq<Seq<char>>) -> Order {
    Order::Remove { table: "edits"@, tests: Tests::One(Test::Among("media_id"@, ids)) }
}

pub(crate) proof fn read_remove_edits(parts: Seq<PartData>, ids: Seq<Seq<char>>)
    requires
        parts =~= seq![
            sql("DELETE FROM edits WHERE media_id IN ("),
        ] + id_params(ids) + seq![sql(")")],
    ensures
        says(parts, remove_edits(ids)),
{
    reveal_strlit("DELETE FROM edits WHERE media_id IN (");
    reveal_strlit(")");
    reveal_strlit("DELETE FROM ");
    reveal_strlit("edits");
    reveal_strlit(" WHERE ");
    reveal_strlit("media_id");
    reveal_strlit(" IN (");
    reveal_strlit("?");
    read_one(sql("DELETE FROM edits WHERE media_id IN ("));
    read_one(sql(")"));
    rendered_concat(seq![sql("DELETE FROM edits WHERE media_id IN (")], id_params(ids));
    bound_concat(seq![sql("DELETE FROM edits WHERE media_id IN (")], id_params(ids));
    rendered_concat(
        seq![sql("DELETE FROM edits WHERE media_id IN (")] + id_params(ids),
        seq![sql(")")],
    );
    bound_concat(
        seq![sql("DELETE FROM edits WHERE media_id IN (")] + id_params(ids),
        seq![sql(")")],
    );
    assert(parts == seq![sql("DELETE FROM edits WHERE media_id IN (")] + id_params(ids) + seq![sql(")")]);
    assert(rendered(parts) =~= remove_edits(ids).text());
    assert(bound(parts) =~= remove_edits(ids).binds());
}

/// Deletes the faces of assets.
pub open spec fn remove_faces(ids: Seq<Seq<char>>) -> Order {
    Order::Remove { table: "asset_faces"@, tests: Tests::One(Test::Among("asset_id"@, ids)) }
}

pub(crate) proof fn read_remove_faces(parts: Seq<PartData>, ids: Seq<Seq<char>>)
    requires
        parts =~= seq![
            sql("DELETE FROM asset_faces WHERE asset_id IN ("),
        ] + id_params(ids) + seq![sql(")")],
    ensures
        says(parts, remove_faces(ids)),
{
    reveal_strlit("DELETE FROM asset_faces WHERE asset_id IN (");
    reveal_strlit(")");
    reveal_strlit("DELETE FROM ");
    reveal_strlit("asset_faces");
    reveal_strlit(" WHERE ");
    reveal_strlit("asset_id");
    reveal_strlit(" IN (");
    reveal_strlit("?");
    read_one(sql("DELETE FROM asset_faces WHERE asset_id IN ("));
    read_one(sql(")"));
    rendered_concat(seq![sql("DELETE FROM asset_faces WHERE asset_id IN (")], id_params(ids));
    bound_concat(seq![sql("DELETE FROM asset_faces WHERE asset_id IN (")], id_params(ids));
    rendered_concat(
        seq![sql("DELETE FROM asset_faces WHERE asset_id IN (")] + id_params(ids),
        seq![sql(")")],
    );
    bound_concat(
        seq![sql("DELETE FROM asset_faces WHERE asset_id IN (")] + id_params(ids),
        seq![sql(")")],
    );
    assert(parts == seq![sql("DELETE FROM asset_faces WHERE asset_id IN (")] + id_params(ids) + seq![sql(")")]);
    assert(rendered(parts) =~= remove_faces(ids).text());
    assert(bound(parts) =~= remove_faces(ids).binds());
}

/// Deletes the facts of assets.
pub open spec fn remove_details(ids: Seq<Seq<char>>) -> Order {
    Order::Remove { table: "media_metadata"@, tests: Tests::One(Test::Among("media_id"@, ids)) }
}

pub(crate) proof fn read_remove_details(parts: Seq<PartData>, ids: Seq<Seq<char>>)
    requires
        parts =~= seq![
            sql("DELETE FROM media_metadata WHERE media_id IN ("),
        ] + id_params(ids) + seq![sql(")")],
    ensures
        says(parts, remove_details(ids)),
{
    reveal_strlit("DELETE FROM media_metadata WHERE media_id IN (");
    reveal_strlit(")");
    reveal_strlit("DELETE FROM ");
    reveal_strlit("media_metadata");
    reveal_strlit(" WHERE ");
    reveal_strlit("media_id");
    reveal_strlit(" IN (");
    reveal_strlit("?");
    read_one(sql("DELETE FROM media_metadata WHERE media_id IN ("));
    read_one(sql(")"));
    rendered_concat(seq![sql("DELETE FROM media_metadata WHERE media_id IN (")], id_params(ids));
    bound_concat(seq![sql("DELETE FROM media_metadata WHERE media_id IN (")], id_params(ids));
    rendered_concat(
        seq![sql("DELETE FROM media_metadata WHERE media_id IN (")] + id_params(ids),
        seq![sql(")")],
    );
    bound_concat(
        seq![sql("DELETE FROM media_metadata WHERE media_id IN (")] + id_params(ids),
        seq![sql(")")],
    );
    assert(parts == seq![sql("DELETE FROM media_metadata WHERE media_id IN (")] + id_params(ids) + seq![sql(")")]);
    assert(rendered(parts) =~= remove_details(ids).text());
    assert(bound(parts) =~= remove_details(ids).binds());
}

/// Deletes the thumbnails of assets.
pub open spec fn remove_thumbnails(ids: Seq<Seq<char>>) -> Order {
    Order::Remove { table: "thumbnails"@, tests: Tests::One(Test::Among("media_id"@, ids)) }
}

pub(crate) proof fn read_remove_thumbnails(parts: Seq<PartData>, ids: Seq<Seq<char>>)
    requires
        parts =~= seq![
            sql("DELETE FROM thumbnails WHERE media_id IN ("),
        ] + id_params(ids) + seq![sql(")")],
    ensures
        says(parts, remove_thumbnails(ids)),
{
    reveal_strlit("DELETE FROM thumbnails WHERE media_id IN (");
    reveal_strlit(")");
    reveal_strlit("DELETE FROM ");
    reveal_strlit("thumbnails");
    reveal_strlit(" WHERE ");
    reveal_strlit("media_id");
    reveal_strlit(" IN (");
    reveal_strlit("?");
    read_one(sql("DELETE FROM thumbnails WHERE media_id IN ("));
    read_one(sql(")"));
    rendered_concat(seq![sql("DELETE FROM thumbnails WHERE media_id IN (")], id_params(ids));
    bound_concat(seq![sql("DELETE FROM thumbnails WHERE media_id IN (")], id_params(ids));
    rendered_concat(
        seq![sql("DELETE FROM thumbnails WHERE media_id IN (")] + id_params(ids),
        seq![sql(")")],
    );
    bound_concat(
        seq![sql("DELETE FROM thumbnails WHERE media_id IN (")] + id_params(ids),
        seq![sql(")")],
    );
    assert(parts == seq![sql("DELETE FROM thumbnails WHERE media_id IN (")] + id_params(ids) + seq![sql(")")]);
    assert(rendered(parts) =~= remove_thumbnails(ids).text());
    assert(bound(parts) =~= remove_thumbnails(ids).binds());
}

/// Deletes the memberships of assets.
pub open spec fn remove_memberships(ids: Seq<Seq<char>>) -> Order {
    Order::Remove { table: "album_media"@, tests: Tests::One(Test::Among("media_id"@, ids)) }
}

pub(crate) proof fn read_remove_memberships(parts: Seq<PartData>, ids: Seq<Seq<char>>)
    requires
        parts =~= seq![
            sql("DELETE FROM album_media WHERE media_id IN ("),
        ] + id_params(ids) + seq![sql(")")],
    ensures
        says(parts, remove_memberships(ids)),
{
    reveal_strlit("DELETE FROM album_media WHERE media_id IN (");
    reveal_strlit(")");
    reveal_strlit("DELETE FROM ");
    reveal_strlit("album_media");
    reveal_strlit(" WHERE ");
    reveal_strlit("media_id");
    reveal_strlit(" IN (");
    reveal_strlit("?");
    read_one(sql("DELETE FROM album_media WHERE media_id IN ("));
    read_one(sql(")"));
    rendered_concat(seq![sql("DELETE FROM album_media WHERE media_id IN (")], id_params(ids));
    bound_concat(seq![sql("DELETE FROM album_media WHERE media_id IN (")], id_params(ids));
    rendered_concat(
        seq![sql("DELETE FROM album_media WHERE media_id IN (")] + id_params(ids),
        seq![sql(")")],
    );
    bound_concat(
        seq![sql("DELETE FROM album_media WHERE media_id IN (")] + id_params(ids),
        seq![sql(")")],
    );
    assert(parts == seq![sql("DELETE FROM album_media WHERE media_id IN (")] + id_params(ids) + seq![sql(")")]);
    assert(rendered(parts) =~= remove_memberships(ids).text());
    assert(bound(parts) =~= remove_memberships(ids).binds());
}

/// Deletes the rows of assets.
pub open spec fn remove_assets(ids: Seq<Seq<char>>) -> Order {
    Order::Remove { table: "media"@, tests: Tests::One(Test::Among("id"@, ids)) }
}

pub(crate) proof fn read_remove_assets(parts: Seq<PartData>, ids: Seq<Seq<char>>)
    requires
        parts =~= seq![sql("DELETE FROM media WHERE id IN (")] + id_params(ids) + seq![sql(")")],
    ensures
        says(parts, remove_assets(ids)),
{
    reveal_strlit("DELETE FROM media WHERE id IN (");
    reveal_strlit(")");
    reveal_strlit("DELETE FROM ");
    reveal_strlit("media");
    reveal_strlit(" WHERE ");
    reveal_strlit("id");
    reveal_strlit(" IN (");
    reveal_strlit("?");
    read_one(sql("DELETE FROM media WHERE id IN ("));
    read_one(sql(")"));
    rendered_concat(seq![sql("DELETE FROM media WHERE id IN (")], id_params(ids));
    bound_concat(seq![sql("DELETE FROM media WHERE id IN (")], id_params(ids));
    rendered_concat(seq![sql("DELETE FROM media WHERE id IN (")] + id_params(ids), seq![sql(")")]);
    bound_concat(seq![sql("DELETE FROM media WHERE id IN (")] + id_params(ids), seq![sql(")")]);
    assert(parts == seq![sql("DELETE FROM media WHERE id IN (")] + id_params(ids) + seq![sql(")")]);
    assert(rendered(parts) =~= remove_assets(ids).text());
    assert(bound(parts) =~= remove_assets(ids).binds());
}

} // verus!
