//! What the plain statements do to the rows of the database.

use vstd::prelude::*;

use crate::album::repository::{clears_album, takes_out};
use crate::media::repository::{clears_assets, clears_stack, clears_stacks};
use crate::sql::meaning::{read_five, says, Order, Row};
use crate::sql::orders;
use crate::sql::{bound, bound_concat, sql, text, BindData, Statement};
use crate::sync::checkpoint_rows;
use crate::thumbnail::ThumbnailStatus;
use crate::upload::UploadStatus;

verus! {

/// Whether a column of a row holds a text.
pub open spec fn has_text(row: Row, column: Seq<char>, s: Seq<char>) -> bool {
    row[column] == BindData::Text(s)
}

/// Whether a column of a row holds a number.
pub open spec fn has_num(row: Row, column: Seq<char>, n: i64) -> bool {
    row[column] == BindData::Int(n)
}

/// Whether a column of a row holds a text that is one of the keys.
pub open spec fn is_one_of(row: Row, column: Seq<char>, keys: Seq<Seq<char>>) -> bool {
    exists|i: int| 0 <= i < keys.len() && has_text(row, column, #[trigger] keys[i])
}

proof fn keys_are_looked_up(row: Row, column: Seq<char>, keys: Seq<Seq<char>>)
    ensures
        is_one_of(row, column, keys) <==> (row[column] matches BindData::Text(k) && keys.contains(
            k,
        )),
{
    if is_one_of(row, column, keys) {
        let i = choose|i: int| 0 <= i < keys.len() && has_text(row, column, #[trigger] keys[i]);
        assert(keys.contains(keys[i]));
    }
    if let BindData::Text(k) = row[column] {
        if keys.contains(k) {
            let i = choose|i: int| 0 <= i < keys.len() && keys[i] == k;
            assert(has_text(row, column, keys[i]));
        }
    }
}

/// Whether two rows hold the same in every column but the given ones.
pub open spec fn differ_only_in(a: Row, b: Row, columns: Set<Seq<char>>) -> bool {
    forall|c: Seq<char>| !columns.contains(c) ==> #[trigger] a[c] == b[c]
}

// ── The trash and favourites ─────────────────────────────────────────────────

proof fn trash_columns_differ()
    ensures
        "is_trashed"@ != "trashed_at"@,
{
    reveal_strlit("is_trashed");
    reveal_strlit("trashed_at");
    assert("is_trashed"@[0] != "trashed_at"@[0]);
}

/// Assets that are moved to the trash are in it from then on, since the given time; no other
/// column of theirs changes, and no other asset does.
pub proof fn trashed_assets_are_in_the_trash(ids: Seq<Seq<char>>, now: i64, row: Row)
    ensures
        orders::move_to_trash(ids, now).table() == "media"@,
        is_one_of(row, "id"@, ids) ==> (orders::move_to_trash(ids, now).leaves(row) matches Some(
            after,
        ) && has_num(after, "is_trashed"@, 1) && has_num(after, "trashed_at"@, now)
            && differ_only_in(row, after, set!["is_trashed"@, "trashed_at"@])),
        !is_one_of(row, "id"@, ids) ==> orders::move_to_trash(ids, now).leaves(row) == Some(row),
{
    keys_are_looked_up(row, "id"@, ids);
    trash_columns_differ();
}

/// Assets that are taken out of the trash are outside it, and since when they were in it is
/// forgotten; no other column of theirs changes, and no other asset does.
pub proof fn restored_assets_are_outside_the_trash(ids: Seq<Seq<char>>, row: Row)
    ensures
        orders::take_out_of_trash(ids).table() == "media"@,
        is_one_of(row, "id"@, ids) ==> (orders::take_out_of_trash(ids).leaves(row) matches Some(
            after,
        ) && has_num(after, "is_trashed"@, 0) && after["trashed_at"@] is Null && differ_only_in(
            row,
            after,
            set!["is_trashed"@, "trashed_at"@],
        )),
        !is_one_of(row, "id"@, ids) ==> orders::take_out_of_trash(ids).leaves(row) == Some(row),
{
    keys_are_looked_up(row, "id"@, ids);
    trash_columns_differ();
}

/// Restoring what was trashed leaves a row as it was.
pub proof fn restoring_undoes_trashing(ids: Seq<Seq<char>>, now: i64, row: Row)
    requires
        row.contains_key("is_trashed"@) && row.contains_key("trashed_at"@),
        has_num(row, "is_trashed"@, 0),
        row["trashed_at"@] is Null,
    ensures
        orders::move_to_trash(ids, now).leaves(row) matches Some(trashed)
            && orders::take_out_of_trash(ids).leaves(trashed) == Some(row),
{
    trash_columns_differ();
    reveal_strlit("id");
    reveal_strlit("is_trashed");
    reveal_strlit("trashed_at");
    assert("id"@.len() != "is_trashed"@.len());
    assert("id"@.len() != "trashed_at"@.len());
    let trashed = orders::move_to_trash(ids, now).leaves(row)->0;
    assert(orders::take_out_of_trash(ids).leaves(trashed)->0 =~= row);
}

/// What has been in the trash for longer than it may be is found, and nothing else: neither
/// what is outside the trash, nor what was trashed at that moment or later.
pub proof fn only_old_trash_expires(before: i64, row: Row)
    ensures
        orders::expired_assets(before).table() == "media"@,
        orders::expired_assets(before).is_about(row) <==> has_num(row, "is_trashed"@, 1) && (
        row["trashed_at"@] matches BindData::Int(t) && t < before),
{
}

/// The favourite flag is set or cleared as asked, on the given assets alone, and nothing else
/// is touched.
pub proof fn favorites_are_marked_as_asked(ids: Seq<Seq<char>>, favorite: bool, row: Row)
    ensures
        orders::mark_favorite(ids, favorite).table() == "media"@,
        is_one_of(row, "id"@, ids) ==> (orders::mark_favorite(ids, favorite).leaves(row) matches
            Some(after) && (favorite ==> has_num(after, "is_favorite"@, 1)) && (!favorite ==> has_num(
            after,
            "is_favorite"@,
            0,
        )) && differ_only_in(row, after, set!["is_favorite"@])),
        !is_one_of(row, "id"@, ids) ==> orders::mark_favorite(ids, favorite).leaves(row) == Some(
            row,
        ),
{
    keys_are_looked_up(row, "id"@, ids);
}

// ── Assets ───────────────────────────────────────────────────────────────────

/// What is asked of one asset is asked of the row with its id, and of no other.
pub proof fn assets_are_found_by_id(id: Seq<char>, row: Row)
    ensures
        orders::asset_is_there(id).is_about(row) <==> has_text(row, "id"@, id),
        orders::name_of_asset(id).is_about(row) <==> has_text(row, "id"@, id),
        orders::path_of_asset(id).is_about(row) <==> has_text(row, "id"@, id),
        orders::whereabouts_of_asset(id).is_about(row) <==> has_text(row, "id"@, id),
        orders::import_time_of_asset(id).is_about(row) <==> has_text(row, "id"@, id),
        orders::item(id).is_about(row) <==> has_text(row, "id"@, id),
        orders::record(id).is_about(row) <==> has_text(row, "id"@, id),
        orders::asset_is_there(id).table() == "media"@ && orders::name_of_asset(id).table()
            == "media"@ && orders::path_of_asset(id).table() == "media"@
            && orders::whereabouts_of_asset(id).table() == "media"@ && orders::import_time_of_asset(
            id,
        ).table() == "media"@ && orders::item(id).table() == "media"@ && orders::record(id).table()
            == "media"@,
        orders::name_of_asset(id)->columns == "original_filename"@,
        orders::path_of_asset(id)->columns == "relative_path"@,
        orders::whereabouts_of_asset(id)->columns
            == "relative_path, original_filename, external_id"@,
        orders::import_time_of_asset(id)->columns == "imported_at"@,
        orders::item(id)->columns
            == "id, taken_at, imported_at, original_filename, width, height, orientation, media_type, is_favorite, is_trashed, trashed_at, duration_ms, stack_id, is_moments_render"@,
        orders::record(id)->columns
            == "id, content_hash, external_id, relative_path, original_filename, file_size, imported_at, media_type, taken_at, width, height, orientation, duration_ms, is_favorite, is_trashed, trashed_at, is_moments_render"@,
{
}

/// Assets are found by their content and by the server's id, whatever their own id is; an asset
/// that is on its way to the server is one that has no id there yet.
pub proof fn assets_are_found_by_what_they_are(s: Seq<char>, row: Row)
    ensures
        orders::content_is_there(s).table() == "media"@ && (orders::content_is_there(s).is_about(row)
            <==> has_text(row, "content_hash"@, s)),
        orders::asset_by_server_id(s).table() == "media"@ && (orders::asset_by_server_id(
            s,
        ).is_about(row) <==> has_text(row, "external_id"@, s)) && orders::asset_by_server_id(
            s,
        )->columns == "id"@,
        orders::unpushed_content(s).table() == "media"@ && (orders::unpushed_content(s).is_about(row)
            <==> has_text(row, "content_hash"@, s) && row["external_id"@] is Null)
            && orders::unpushed_content(s)->columns == "id"@,
{
}

/// The server's ids are asked of the given assets, and given of those that have one.
pub proof fn server_ids_are_asked_of_the_given(ids: Seq<Seq<char>>, row: Row)
    ensures
        orders::server_ids(ids).table() == "media"@,
        orders::server_ids(ids)->columns == "id, external_id"@,
        orders::server_ids(ids).is_about(row) <==> is_one_of(row, "id"@, ids) && !(
        row["external_id"@] is Null),
{
    keys_are_looked_up(row, "id"@, ids);
}

/// A row gives way to another where the server knows both by the same id: it has that id on the
/// server, but another one here.
pub proof fn only_doubles_give_way(id: Seq<char>, row: Row)
    ensures
        orders::displace(id).table() == "media"@,
        orders::displace(id).leaves(row) is None <==> has_text(row, "external_id"@, id) && !has_text(
            row,
            "id"@,
            id,
        ) && !(row["id"@] is Null),
        has_text(row, "id"@, id) ==> orders::displace(id).leaves(row) == Some(row),
{
}

/// Deleting assets removes every row that belongs to one of them, in all six tables, and no
/// other row. The assets themselves go last, when nothing refers to them any more.
pub proof fn everything_of_an_asset_is_deleted(
    statements: Seq<Statement>,
    ids: Seq<Seq<char>>,
    row: Row,
)
    requires
        clears_assets(statements, ids),
    ensures
        statements.len() == 6,
        exists|a: Order|
            #![trigger says(statements[0]@, a)]
            says(statements[0]@, a) && a.table() == "edits"@ && (a.leaves(row) is None <==> is_one_of(
                row,
                "media_id"@,
                ids,
            )),
        exists|a: Order|
            #![trigger says(statements[1]@, a)]
            says(statements[1]@, a) && a.table() == "asset_faces"@ && (a.leaves(row) is None
                <==> is_one_of(row, "asset_id"@, ids)),
        exists|a: Order|
            #![trigger says(statements[2]@, a)]
            says(statements[2]@, a) && a.table() == "media_metadata"@ && (a.leaves(row) is None
                <==> is_one_of(row, "media_id"@, ids)),
        exists|a: Order|
            #![trigger says(statements[3]@, a)]
            says(statements[3]@, a) && a.table() == "thumbnails"@ && (a.leaves(row) is None
                <==> is_one_of(row, "media_id"@, ids)),
        exists|a: Order|
            #![trigger says(statements[4]@, a)]
            says(statements[4]@, a) && a.table() == "album_media"@ && (a.leaves(row) is None
                <==> is_one_of(row, "media_id"@, ids)),
        exists|a: Order|
            #![trigger says(statements[5]@, a)]
            says(statements[5]@, a) && a.table() == "media"@ && (a.leaves(row) is None <==> is_one_of(
                row,
                "id"@,
                ids,
            )),
{
    keys_are_looked_up(row, "media_id"@, ids);
    keys_are_looked_up(row, "asset_id"@, ids);
    keys_are_looked_up(row, "id"@, ids);
    assert(says(statements[0]@, orders::remove_edits(ids)));
    assert(says(statements[1]@, orders::remove_faces(ids)));
    assert(says(statements[2]@, orders::remove_details(ids)));
    assert(says(statements[3]@, orders::remove_thumbnails(ids)));
    assert(says(statements[4]@, orders::remove_memberships(ids)));
    assert(says(statements[5]@, orders::remove_assets(ids)));
}

/// All assets are all rows.
pub proof fn all_assets_are_asked_for(row: Row)
    ensures
        orders::all_assets().table() == "media"@ && orders::all_assets().is_about(row)
            && orders::all_assets()->columns == "id"@,
{
}

// ── Stacks ───────────────────────────────────────────────────────────────────

/// The members of a stack are the assets bound to it.
pub proof fn members_are_bound_to_their_stack(stack: Seq<char>, row: Row)
    ensures
        orders::members_of_stack(stack).table() == "media"@,
        orders::members_of_stack(stack)->columns == "id"@,
        orders::members_of_stack(stack).is_about(row) <==> has_text(row, "stack_id"@, stack),
{
}

/// Binding an asset to a stack binds that asset, and frees no other; one that is bound already
/// is not touched. Freeing it undoes that.
pub proof fn assets_are_bound_and_freed(id: Seq<char>, stack: Seq<char>, row: Row)
    ensures
        orders::bind_to_stack(id, stack).table() == "media"@,
        orders::free_from_stack(id).table() == "media"@,
        has_text(row, "id"@, id) ==> (orders::bind_to_stack(id, stack).leaves(row) matches Some(
            after,
        ) && has_text(after, "stack_id"@, stack) && differ_only_in(row, after, set!["stack_id"@])),
        has_text(row, "id"@, id) ==> (orders::free_from_stack(id).leaves(row) matches Some(after)
            && after["stack_id"@] is Null && differ_only_in(row, after, set!["stack_id"@])),
        !has_text(row, "id"@, id) ==> orders::bind_to_stack(id, stack).leaves(row) == Some(row)
            && orders::free_from_stack(id).leaves(row) == Some(row),
        orders::bind_to_stack(id, stack).is_about(row) <==> has_text(row, "id"@, id) && !has_text(
            row,
            "stack_id"@,
            stack,
        ),
        orders::free_from_stack(id).is_about(row) <==> has_text(row, "id"@, id) && !(
        row["stack_id"@] is Null),
{
}

/// Deleting a stack frees its members, which stay, and then removes the stack and no other.
pub proof fn deleted_stacks_free_their_members(
    statements: Seq<Statement>,
    id: Seq<char>,
    member: Row,
    stack: Row,
)
    requires
        clears_stack(statements, id),
    ensures
        statements.len() == 2,
        exists|a: Order|
            #![trigger says(statements[0]@, a)]
            says(statements[0]@, a) && a.table() == "media"@ && (has_text(member, "stack_id"@, id)
                ==> (a.leaves(member) matches Some(after) && after["stack_id"@] is Null
                && differ_only_in(member, after, set!["stack_id"@]))) && (!has_text(
                member,
                "stack_id"@,
                id,
            ) ==> a.leaves(member) == Some(member)),
        exists|a: Order|
            #![trigger says(statements[1]@, a)]
            says(statements[1]@, a) && a.table() == "stacks"@ && (a.leaves(stack) is None
                <==> has_text(stack, "id"@, id)),
{
    assert(says(statements[0]@, orders::free_members(id)));
    assert(says(statements[1]@, orders::remove_stack(id)));
}

/// Deleting several stacks frees the members of all of them, and then removes those stacks and
/// no other.
pub proof fn deleted_stacks_free_all_members(
    statements: Seq<Statement>,
    ids: Seq<Seq<char>>,
    member: Row,
    stack: Row,
)
    requires
        clears_stacks(statements, ids),
    ensures
        statements.len() == 2,
        exists|a: Order|
            #![trigger says(statements[0]@, a)]
            says(statements[0]@, a) && a.table() == "media"@ && (is_one_of(member, "stack_id"@, ids)
                ==> (a.leaves(member) matches Some(after) && after["stack_id"@] is Null
                && differ_only_in(member, after, set!["stack_id"@]))) && (!is_one_of(
                member,
                "stack_id"@,
                ids,
            ) ==> a.leaves(member) == Some(member)),
        exists|a: Order|
            #![trigger says(statements[1]@, a)]
            says(statements[1]@, a) && a.table() == "stacks"@ && (a.leaves(stack) is None
                <==> is_one_of(stack, "id"@, ids)),
{
    keys_are_looked_up(member, "stack_id"@, ids);
    keys_are_looked_up(stack, "id"@, ids);
    assert(says(statements[0]@, orders::free_members_of_all(ids)));
    assert(says(statements[1]@, orders::remove_stacks(ids)));
}

// ── Following the server ─────────────────────────────────────────────────────

/// What the server confirms is noted with the time, on that row alone.
pub proof fn confirmations_are_noted(id: Seq<char>, now: i64, row: Row, order: Order)
    requires
        order == orders::confirm_asset(id, now) || order == orders::confirm_stack(id, now) || order
            == orders::confirm_album(id, now) || order == orders::confirm_person(id, now) || order
            == orders::confirm_face(id, now),
    ensures
        has_text(row, "id"@, id) ==> (order.leaves(row) matches Some(after) && has_num(
            after,
            "last_seen_at"@,
            now,
        ) && differ_only_in(row, after, set!["last_seen_at"@])),
        !has_text(row, "id"@, id) ==> order.leaves(row) == Some(row),
        orders::confirm_asset(id, now).table() == "media"@,
        orders::confirm_stack(id, now).table() == "stacks"@,
        orders::confirm_album(id, now).table() == "albums"@,
        orders::confirm_person(id, now).table() == "people"@,
        orders::confirm_face(id, now).table() == "asset_faces"@,
{
}

/// A row is stale where the server has not confirmed it since the checkpoint. Assets and albums
/// that the server never had are not.
pub proof fn only_what_the_server_had_grows_stale(checkpoint: i64, row: Row)
    ensures
        orders::stale_assets(checkpoint).table() == "media"@,
        orders::stale_assets(checkpoint).is_about(row) <==> (row["last_seen_at"@] matches
            BindData::Int(t) && t < checkpoint) && !(row["external_id"@] is Null),
        orders::stale_albums(checkpoint).table() == "albums"@,
        orders::stale_albums(checkpoint).is_about(row) <==> (row["last_seen_at"@] matches
            BindData::Int(t) && t < checkpoint) && !(row["external_id"@] is Null),
        orders::stale_stacks(checkpoint).table() == "stacks"@,
        orders::stale_stacks(checkpoint).is_about(row) <==> (row["last_seen_at"@] matches
            BindData::Int(t) && t < checkpoint),
        orders::stale_people(checkpoint).table() == "people"@,
        orders::stale_people(checkpoint).is_about(row) <==> (row["last_seen_at"@] matches
            BindData::Int(t) && t < checkpoint),
        orders::people_of_stale_faces(checkpoint).table() == "asset_faces"@,
        orders::people_of_stale_faces(checkpoint)->columns == "DISTINCT person_id"@,
        orders::people_of_stale_faces(checkpoint).is_about(row) <==> (row["last_seen_at"@] matches
            BindData::Int(t) && t < checkpoint) && !(row["person_id"@] is Null),
        orders::stale_assets(checkpoint)->columns == "id"@ && orders::stale_albums(
            checkpoint,
        )->columns == "id"@ && orders::stale_stacks(checkpoint)->columns == "id"@
            && orders::stale_people(checkpoint)->columns == "id"@,
{
}

/// What is confirmed now is not stale for any checkpoint up to now.
pub proof fn confirmed_rows_are_not_stale(id: Seq<char>, now: i64, checkpoint: i64, row: Row)
    requires
        has_text(row, "id"@, id),
        checkpoint <= now,
    ensures
        !orders::stale_assets(checkpoint).is_about(orders::confirm_asset(id, now).leaves(row)->0),
        !orders::stale_albums(checkpoint).is_about(orders::confirm_album(id, now).leaves(row)->0),
        !orders::stale_stacks(checkpoint).is_about(orders::confirm_stack(id, now).leaves(row)->0),
        orders::remove_stale_people(checkpoint).leaves(
            orders::confirm_person(id, now).leaves(row)->0,
        ) is Some,
        orders::remove_stale_faces(checkpoint).leaves(
            orders::confirm_face(id, now).leaves(row)->0,
        ) is Some,
{
}

/// The people who are deleted because the server has forgotten them are those who were asked
/// for, and so with the faces.
pub proof fn stale_rows_are_removed(checkpoint: i64, row: Row)
    ensures
        orders::remove_stale_people(checkpoint).table() == "people"@,
        orders::remove_stale_people(checkpoint).leaves(row) is None <==> orders::stale_people(
            checkpoint,
        ).is_about(row),
        orders::remove_stale_faces(checkpoint).table() == "asset_faces"@,
        orders::remove_stale_faces(checkpoint).leaves(row) is None <==> (row["last_seen_at"@]
            matches BindData::Int(t) && t < checkpoint),
{
}

/// A record of the server that was processed is noted as what it was, under the entity that it
/// was about; one that could not be is noted as an error with its cause. The checkpoints are
/// forgotten all at once.
pub proof fn records_are_accounted_for(
    row_id: i64,
    id: Seq<char>,
    action: Seq<char>,
    error: Seq<char>,
    now: Seq<char>,
    row: Row,
)
    requires
        has_num(row, "id"@, row_id),
    ensures
        orders::record_is_processed(row_id, id, action, now).table() == "sync_audit"@,
        orders::record_is_processed(row_id, id, action, now).leaves(row) matches Some(after)
            && has_text(after, "completed_at"@, now) && has_text(after, "action"@, action)
            && has_text(after, "entity_id"@, id),
        orders::record_failed(row_id, error, now).table() == "sync_audit"@,
        orders::record_failed(row_id, error, now).leaves(row) matches Some(after) && has_text(
            after,
            "completed_at"@,
            now,
        ) && has_text(after, "action"@, "error"@) && has_text(after, "error_msg"@, error),
        orders::forget_checkpoints().table() == "sync_checkpoints"@
            && orders::forget_checkpoints().leaves(row) is None,
{
    reveal_strlit("completed_at");
    reveal_strlit("action");
    reveal_strlit("entity_id");
    reveal_strlit("error_msg");
    assert("completed_at"@.len() == 12 && "action"@.len() == 6 && "entity_id"@.len() == 9
        && "error_msg"@.len() == 9);
    assert("entity_id"@[1] != "error_msg"@[1]);
}

// ── Albums ───────────────────────────────────────────────────────────────────

/// Renaming an album changes its name and when it was updated, and pinning it whether it is
/// pinned, as asked; neither touches another album.
pub proof fn albums_change_as_asked(id: Seq<char>, name: Seq<char>, pinned: bool, now: i64, row: Row)
    ensures
        orders::rename_album(id, name, now).table() == "albums"@,
        orders::pin_album(id, pinned).table() == "albums"@,
        orders::touch_album(id, now).table() == "albums"@,
        has_text(row, "id"@, id) ==> (orders::rename_album(id, name, now).leaves(row) matches Some(
            after,
        ) && has_text(after, "name"@, name) && has_num(after, "updated_at"@, now) && differ_only_in(
            row,
            after,
            set!["name"@, "updated_at"@],
        )),
        has_text(row, "id"@, id) ==> (orders::pin_album(id, pinned).leaves(row) matches Some(after)
            && (pinned ==> has_num(after, "is_pinned"@, 1)) && (!pinned ==> has_num(
            after,
            "is_pinned"@,
            0,
        )) && differ_only_in(row, after, set!["is_pinned"@])),
        has_text(row, "id"@, id) ==> (orders::touch_album(id, now).leaves(row) matches Some(after)
            && has_num(after, "updated_at"@, now) && differ_only_in(row, after, set!["updated_at"@])),
        !has_text(row, "id"@, id) ==> orders::rename_album(id, name, now).leaves(row) == Some(row)
            && orders::pin_album(id, pinned).leaves(row) == Some(row) && orders::touch_album(
            id,
            now,
        ).leaves(row) == Some(row),
{
    reveal_strlit("name");
    reveal_strlit("updated_at");
    assert("name"@.len() != "updated_at"@.len());
}

/// Albums are found by their own id and by the server's.
pub proof fn albums_are_found(id: Seq<char>, row: Row)
    ensures
        orders::server_id_of_album(id).table() == "albums"@ && orders::server_id_of_album(
            id,
        )->columns == "external_id"@ && (orders::server_id_of_album(id).is_about(row) <==> has_text(
            row,
            "id"@,
            id,
        )),
        orders::album_by_server_id(id).table() == "albums"@ && orders::album_by_server_id(
            id,
        )->columns == "id"@ && (orders::album_by_server_id(id).is_about(row) <==> has_text(
            row,
            "external_id"@,
            id,
        )),
{
}

/// Deleting an album takes everything out of it first and then removes it; what was in it, and
/// other albums, stay.
pub proof fn deleted_albums_leave_their_media(
    a: Statement,
    b: Statement,
    id: Seq<char>,
    membership: Row,
    album: Row,
)
    requires
        clears_album(a, b, id),
    ensures
        exists|x: Order|
            #![trigger says(a@, x)]
            says(a@, x) && x.table() == "album_media"@ && (x.leaves(membership) is None
                <==> has_text(membership, "album_id"@, id)),
        exists|x: Order|
            #![trigger says(b@, x)]
            says(b@, x) && x.table() == "albums"@ && (x.leaves(album) is None <==> has_text(
                album,
                "id"@,
                id,
            )),
{
    assert(says(a@, orders::empty_album(id)));
    assert(says(b@, orders::remove_album(id)));
}

/// Taking assets out of an album takes exactly those out of exactly that album; the album counts
/// as updated.
pub proof fn assets_leave_one_album(
    statements: Seq<Statement>,
    album: Seq<char>,
    ids: Seq<Seq<char>>,
    now: i64,
    membership: Row,
    row: Row,
)
    requires
        takes_out(statements, album, ids, now),
    ensures
        statements.len() == 2,
        exists|x: Order|
            #![trigger says(statements[0]@, x)]
            says(statements[0]@, x) && x.table() == "album_media"@ && (x.leaves(membership) is None
                <==> has_text(membership, "album_id"@, album) && is_one_of(
                membership,
                "media_id"@,
                ids,
            )),
        exists|x: Order|
            #![trigger says(statements[1]@, x)]
            says(statements[1]@, x) && x.table() == "albums"@ && (has_text(row, "id"@, album) ==> (
            x.leaves(row) matches Some(after) && has_num(after, "updated_at"@, now))),
{
    keys_are_looked_up(membership, "media_id"@, ids);
    assert(says(statements[0]@, orders::take_all_out_of_album(album, ids)));
    assert(says(statements[1]@, orders::touch_album(album, now)));
}

/// Removing one membership removes that of the asset in the album, and no other.
pub proof fn one_membership_is_removed(album: Seq<char>, media: Seq<char>, row: Row)
    ensures
        orders::take_out_of_album(album, media).table() == "album_media"@,
        orders::take_out_of_album(album, media).leaves(row) is None <==> has_text(
            row,
            "album_id"@,
            album,
        ) && has_text(row, "media_id"@, media),
{
}

// ── People ───────────────────────────────────────────────────────────────────

/// Renaming, hiding and deleting a person does that to them and to nobody else; hiding hides and
/// showing shows.
pub proof fn people_change_as_asked(id: Seq<char>, name: Seq<char>, hidden: bool, row: Row)
    ensures
        orders::rename_person(id, name).table() == "people"@,
        orders::hide_person(id, hidden).table() == "people"@,
        orders::remove_person(id).table() == "people"@,
        orders::person(id).table() == "people"@,
        has_text(row, "id"@, id) ==> (orders::rename_person(id, name).leaves(row) matches Some(after)
            && has_text(after, "name"@, name) && differ_only_in(row, after, set!["name"@])),
        has_text(row, "id"@, id) ==> (orders::hide_person(id, hidden).leaves(row) matches Some(after)
            && (hidden ==> has_num(after, "is_hidden"@, 1)) && (!hidden ==> has_num(
            after,
            "is_hidden"@,
            0,
        )) && differ_only_in(row, after, set!["is_hidden"@])),
        !has_text(row, "id"@, id) ==> orders::rename_person(id, name).leaves(row) == Some(row)
            && orders::hide_person(id, hidden).leaves(row) == Some(row),
        orders::remove_person(id).leaves(row) is None <==> has_text(row, "id"@, id),
        orders::person(id).is_about(row) <==> has_text(row, "id"@, id),
        orders::person(id)->columns == "id, name, face_count, is_hidden"@,
{
}

/// A face counts for its person where the server shows it and has not deleted it. Deleting a
/// face removes it alone.
pub proof fn hidden_faces_count_for_nobody(id: Seq<char>, row: Row)
    ensures
        orders::person_of_face(id).table() == "asset_faces"@,
        orders::person_of_face(id)->columns == "person_id"@,
        orders::person_of_face(id).is_about(row) <==> has_text(row, "id"@, id) && has_num(
            row,
            "is_visible"@,
            1,
        ) && row["deleted_at"@] is Null,
        orders::remove_face(id).table() == "asset_faces"@,
        orders::remove_face(id).leaves(row) is None <==> has_text(row, "id"@, id),
{
}

/// The people who are counted have a name and are not hidden; albums are counted all.
pub proof fn named_and_shown_people_are_counted(row: Row)
    ensures
        orders::count_of_people().table() == "people"@,
        orders::count_of_people()->columns == "COUNT(*)"@,
        row["name"@] is Text ==> (orders::count_of_people().is_about(row) <==> !has_text(
            row,
            "name"@,
            ""@,
        ) && has_num(row, "is_hidden"@, 0)),
        orders::count_of_albums().table() == "albums"@,
        orders::count_of_albums()->columns == "COUNT(*)"@,
        orders::count_of_albums().is_about(row),
{
}

// ── Edits, details and thumbnails ────────────────────────────────────────────

/// The edit state of an asset, and which asset holds its rendering, are kept by the asset's id;
/// forgetting them forgets no other's.
pub proof fn edits_belong_to_their_asset(
    id: Seq<char>,
    rendered: Seq<char>,
    now: i64,
    row: Row,
)
    ensures
        orders::edit_of_asset(id).table() == "edits"@ && orders::edit_of_asset(id)->columns
            == "edit_json"@ && (orders::edit_of_asset(id).is_about(row) <==> has_text(
            row,
            "media_id"@,
            id,
        )),
        orders::rendering_of_asset(id).table() == "edits"@ && orders::rendering_of_asset(
            id,
        )->columns == "server_rendered_asset_id"@ && (orders::rendering_of_asset(id).is_about(row)
            <==> has_text(row, "media_id"@, id)),
        orders::forget_edit(id).table() == "edits"@ && (orders::forget_edit(id).leaves(row) is None
            <==> has_text(row, "media_id"@, id)),
        orders::edit_is_rendered(id, now).table() == "edits"@,
        orders::edit_is_held_by(id, rendered).table() == "edits"@,
        has_text(row, "media_id"@, id) ==> (orders::edit_is_rendered(id, now).leaves(row) matches
            Some(after) && has_num(after, "rendered_at"@, now) && differ_only_in(
            row,
            after,
            set!["rendered_at"@],
        )),
        has_text(row, "media_id"@, id) ==> (orders::edit_is_held_by(id, rendered).leaves(
            row,
        ) matches Some(after) && has_text(after, "server_rendered_asset_id"@, rendered)
            && differ_only_in(row, after, set!["server_rendered_asset_id"@])),
        !has_text(row, "media_id"@, id) ==> orders::edit_is_rendered(id, now).leaves(row) == Some(row)
            && orders::edit_is_held_by(id, rendered).leaves(row) == Some(row),
{
}

/// An edit is pending where it was never rendered, or was changed after it was rendered.
pub proof fn changed_edits_are_pending(id: Seq<char>, row: Row)
    requires
        has_text(row, "media_id"@, id),
        row["updated_at"@] is Int,
        row["rendered_at"@] is Null || row["rendered_at"@] is Int,
    ensures
        orders::pending_edit(id).table() == "edits"@,
        row["rendered_at"@] is Null ==> orders::pending_edit(id).is_about(row),
        row["rendered_at"@] is Int ==> (orders::pending_edit(id).is_about(row)
            <==> row["updated_at"@]->Int_0 > row["rendered_at"@]->Int_0),
{
}

/// Rendering an edit at the time of its last change, or later, settles it.
pub proof fn rendered_edits_are_not_pending(id: Seq<char>, now: i64, row: Row)
    requires
        has_text(row, "media_id"@, id),
        row["updated_at"@] matches BindData::Int(t) && t <= now,
    ensures
        !orders::pending_edit(id).is_about(orders::edit_is_rendered(id, now).leaves(row)->0),
{
    reveal_strlit("updated_at");
    reveal_strlit("rendered_at");
    assert("updated_at"@.len() != "rendered_at"@.len());
}

/// The details of an asset are kept by the asset's id.
pub proof fn details_belong_to_their_asset(id: Seq<char>, row: Row)
    ensures
        orders::details(id).table() == "media_metadata"@,
        orders::details(id).is_about(row) <==> has_text(row, "media_id"@, id),
        orders::details(id)->columns
            == "camera_make, camera_model, lens_model, aperture, shutter_str, iso, focal_length, gps_lat, gps_lon, gps_alt, color_space"@,
{
}

/// A thumbnail that is noted as made reads as made, with its place and time; one noted as failed
/// reads as failed. Neither note touches another asset's.
pub proof fn thumbnails_read_as_noted(id: Seq<char>, path: Seq<char>, at: i64, row: Row)
    ensures
        orders::thumbnail_is_ready(id, path, at).table() == "thumbnails"@,
        orders::thumbnail_failed(id).table() == "thumbnails"@,
        orders::thumbnail_of_asset(id).table() == "thumbnails"@
            && orders::thumbnail_of_asset(id)->columns == "status"@ && (orders::thumbnail_of_asset(
            id,
        ).is_about(row) <==> has_text(row, "media_id"@, id)),
        has_text(row, "media_id"@, id) ==> (orders::thumbnail_is_ready(id, path, at).leaves(
            row,
        ) matches Some(after) && after["status"@] is Int && ThumbnailStatus::meant_by(
            after["status"@]->Int_0,
        ) is Ready && has_text(after, "file_path"@, path) && has_num(after, "generated_at"@, at)),
        has_text(row, "media_id"@, id) ==> (orders::thumbnail_failed(id).leaves(row) matches Some(
            after,
        ) && after["status"@] is Int && ThumbnailStatus::meant_by(after["status"@]->Int_0) is Failed
            && differ_only_in(row, after, set!["status"@])),
        !has_text(row, "media_id"@, id) ==> orders::thumbnail_is_ready(id, path, at).leaves(row)
            == Some(row) && orders::thumbnail_failed(id).leaves(row) == Some(row),
        ThumbnailStatus::meant_by(0) is Pending,
{
    reveal_strlit("status");
    reveal_strlit("file_path");
    reveal_strlit("generated_at");
    assert("status"@.len() == 6 && "file_path"@.len() == 9 && "generated_at"@.len() == 12);
}

// ── The queue of uploads ─────────────────────────────────────────────────────

/// What is noted of a queued file is noted of that file alone: its hash, or how far it has come
/// and what went wrong.
pub proof fn queued_files_are_noted(
    path: Seq<char>,
    hash: Seq<char>,
    status: UploadStatus,
    error: BindData,
    row: Row,
)
    ensures
        orders::upload_has_hash(path, hash).table() == "upload_queue"@,
        orders::upload_has_status(path, status.number(), error).table() == "upload_queue"@,
        has_text(row, "file_path"@, path) ==> (orders::upload_has_hash(path, hash).leaves(
            row,
        ) matches Some(after) && has_text(after, "sha1_hash"@, hash) && differ_only_in(
            row,
            after,
            set!["sha1_hash"@],
        )),
        has_text(row, "file_path"@, path) ==> (orders::upload_has_status(
            path,
            status.number(),
            error,
        ).leaves(row) matches Some(after) && has_num(after, "status"@, status.number())
            && after["error_msg"@] == error && differ_only_in(
            row,
            after,
            set!["status"@, "error_msg"@],
        )),
        !has_text(row, "file_path"@, path) ==> orders::upload_has_hash(path, hash).leaves(row)
            == Some(row) && orders::upload_has_status(path, status.number(), error).leaves(row)
            == Some(row),
{
    reveal_strlit("status");
    reveal_strlit("error_msg");
    assert("status"@.len() != "error_msg"@.len());
}

/// Clearing the queue takes out the files that were uploaded or skipped, and keeps those that
/// are waiting and those that failed.
pub proof fn settled_files_leave_the_queue(status: UploadStatus, row: Row)
    requires
        has_num(row, "status"@, status.number()),
    ensures
        orders::clear_queue().table() == "upload_queue"@,
        orders::clear_queue().leaves(row) is None <==> status is Uploaded || status is Skipped,
{
}

// ── Checkpoints ──────────────────────────────────────────────────────────────

/// How far the server has been followed is stored for every kind of entity that is given, each
/// with its own mark, in order.
pub proof fn every_checkpoint_is_stored(acks: Seq<(String, String)>, i: int)
    requires
        0 <= i < acks.len(),
    ensures
        bound(checkpoint_rows(acks)).len() == 2 * acks.len(),
        bound(checkpoint_rows(acks))[2 * i] == BindData::Text(acks[i].0@),
        bound(checkpoint_rows(acks))[2 * i + 1] == BindData::Text(acks[i].1@),
    decreases acks.len(),
{
    checkpoints_bind(acks);
}

proof fn checkpoints_bind(acks: Seq<(String, String)>)
    ensures
        bound(checkpoint_rows(acks)).len() == 2 * acks.len(),
        forall|i: int|
            0 <= i < acks.len() ==> bound(checkpoint_rows(acks))[2 * i] == BindData::Text(
                (#[trigger] acks[i]).0@,
            ) && bound(checkpoint_rows(acks))[2 * i + 1] == BindData::Text(acks[i].1@),
    decreases acks.len(),
{
    if acks.len() > 0 {
        let front = acks.drop_last();
        checkpoints_bind(front);
        let rest = checkpoint_rows(front);
        let head = if acks.len() == 1 {
            rest
        } else {
            rest.push(sql(", "))
        };
        let last = seq![
            sql("("),
            text(acks.last().0@),
            sql(", "),
            text(acks.last().1@),
            sql(")"),
        ];
        assert(bound(head) == bound(rest)) by {
            if acks.len() > 1 {
                assert(head.drop_last() =~= rest);
            }
        }
        bound_concat(head, last);
        read_five(sql("("), text(acks.last().0@), sql(", "), text(acks.last().1@), sql(")"));
        assert(bound(last) =~= seq![
            BindData::Text(acks.last().0@),
            BindData::Text(acks.last().1@),
        ]);
        assert forall|i: int| 0 <= i < acks.len() implies bound(checkpoint_rows(acks))[2 * i]
            == BindData::Text((#[trigger] acks[i]).0@) && bound(checkpoint_rows(acks))[2 * i + 1]
            == BindData::Text(acks[i].1@) by {
            if i < front.len() {
                assert(front[i] == acks[i]);
            }
        }
    }
}

} // verus!
