//! What is stored, column by column, and what the larger queries ask for.

use vstd::prelude::*;

use crate::album::repository::{
    album_creation, album_entry, album_list, album_page, album_tail, album_upsertion, cover_query,
    holding_albums, membership_insertion,
};
use crate::editing::edit_upsertion;
use crate::faces::repository::{
    face_recount, face_upsertion, people_list, person_media, person_upsertion,
};
use crate::faces::{AssetFaceRow, PersonRecord};
use crate::media::repository::{
    cursor_clause, filter_clause, freed_query, insertion, items_query, listing, listing_head,
    listing_tail, media_counts, sort_key, stack_stub, stack_upsertion, upsertion, worded, Condition,
};
use crate::media::stacks::{shown_clause, standing_row};
use crate::media::{MediaCursor, MediaFilter, MediaId, MediaRecord};
use crate::metadata::{details_insertion, details_upsertion, MediaMetadataRecord};
use crate::sql::meaning::{Term, Test};
use crate::sql::{
    flag, id_params, media_keys, num, opt_num, opt_real32, opt_real64, opt_text, sql, text, PartData,
};
use crate::sync::{album_media_insertion, audit_insertion};
use crate::text::signed_decimal_of;
use crate::thumbnail::{thumbnail_insertion, ThumbnailStatus};
use crate::upload::{queueing, UploadStatus};

verus! {

// ── Stored rows ──────────────────────────────────────────────────────────────

/// Every column of a newly imported asset gets what is recorded for it.
pub proof fn imported_assets_are_stored(r: MediaRecord)
    ensures
        insertion(r).len() == 35,
        insertion(r)[0] == sql(
            "INSERT INTO media (id, content_hash, external_id, relative_path, original_filename, file_size, imported_at, media_type, taken_at, width, height, orientation, duration_ms, is_favorite, is_trashed, trashed_at, is_moments_render) VALUES (",
        ),
        insertion(r)[1] == text(r.id@),
        insertion(r)[3] == opt_text(r.content_hash),
        insertion(r)[5] == opt_text(r.external_id),
        insertion(r)[7] == text(r.relative_path@),
        insertion(r)[9] == text(r.original_filename@),
        insertion(r)[11] == num(r.file_size),
        insertion(r)[13] == num(r.imported_at),
        insertion(r)[15] == num(if r.media_type is Video { 1 } else { 0 }),
        insertion(r)[17] == opt_num(r.taken_at),
        insertion(r)[19] == opt_num(r.width),
        insertion(r)[21] == opt_num(r.height),
        insertion(r)[23] == num(r.orientation as i64),
        insertion(r)[25] == opt_num(if r.duration_ms is Some { Some(r.duration_ms->0 as i64) } else { None }),
        insertion(r)[27] == flag(r.is_favorite),
        insertion(r)[29] == flag(r.is_trashed),
        insertion(r)[31] == opt_num(r.trashed_at),
        insertion(r)[33] == flag(r.is_moments_render),
        insertion(r)[2] == sql(", "),
        insertion(r)[4] == sql(", "),
        insertion(r)[6] == sql(", "),
        insertion(r)[8] == sql(", "),
        insertion(r)[10] == sql(", "),
        insertion(r)[12] == sql(", "),
        insertion(r)[14] == sql(", "),
        insertion(r)[16] == sql(", "),
        insertion(r)[18] == sql(", "),
        insertion(r)[20] == sql(", "),
        insertion(r)[22] == sql(", "),
        insertion(r)[24] == sql(", "),
        insertion(r)[26] == sql(", "),
        insertion(r)[28] == sql(", "),
        insertion(r)[30] == sql(", "),
        insertion(r)[32] == sql(", "),
        insertion(r)[34] == sql(
            ")",
        ),
{
}

/// Every column of an asset from the server gets what came for it, but for the time at which it was imported, in place of what was stored before.
pub proof fn assets_from_the_server_are_stored(r: MediaRecord, t: i64)
    ensures
        upsertion(r, t).len() == 35,
        upsertion(r, t)[0] == sql(
            "INSERT OR REPLACE INTO media (id, content_hash, external_id, relative_path, original_filename, file_size, imported_at, media_type, taken_at, width, height, orientation, duration_ms, is_favorite, is_trashed, trashed_at, is_moments_render) VALUES (",
        ),
        upsertion(r, t)[1] == text(r.id@),
        upsertion(r, t)[3] == opt_text(r.content_hash),
        upsertion(r, t)[5] == opt_text(r.external_id),
        upsertion(r, t)[7] == text(r.relative_path@),
        upsertion(r, t)[9] == text(r.original_filename@),
        upsertion(r, t)[11] == num(r.file_size),
        upsertion(r, t)[13] == num(t),
        upsertion(r, t)[15] == num(if r.media_type is Video { 1 } else { 0 }),
        upsertion(r, t)[17] == opt_num(r.taken_at),
        upsertion(r, t)[19] == opt_num(r.width),
        upsertion(r, t)[21] == opt_num(r.height),
        upsertion(r, t)[23] == num(r.orientation as i64),
        upsertion(r, t)[25] == opt_num(if r.duration_ms is Some { Some(r.duration_ms->0 as i64) } else { None }),
        upsertion(r, t)[27] == flag(r.is_favorite),
        upsertion(r, t)[29] == flag(r.is_trashed),
        upsertion(r, t)[31] == opt_num(r.trashed_at),
        upsertion(r, t)[33] == flag(r.is_moments_render),
        upsertion(r, t)[2] == sql(", "),
        upsertion(r, t)[4] == sql(", "),
        upsertion(r, t)[6] == sql(", "),
        upsertion(r, t)[8] == sql(", "),
        upsertion(r, t)[10] == sql(", "),
        upsertion(r, t)[12] == sql(", "),
        upsertion(r, t)[14] == sql(", "),
        upsertion(r, t)[16] == sql(", "),
        upsertion(r, t)[18] == sql(", "),
        upsertion(r, t)[20] == sql(", "),
        upsertion(r, t)[22] == sql(", "),
        upsertion(r, t)[24] == sql(", "),
        upsertion(r, t)[26] == sql(", "),
        upsertion(r, t)[28] == sql(", "),
        upsertion(r, t)[30] == sql(", "),
        upsertion(r, t)[32] == sql(", "),
        upsertion(r, t)[34] == sql(
            ")",
        ),
{
}

/// Every column of the details of an asset gets the detail of that name; details that were stored before are refreshed, all of them.
pub proof fn details_are_stored(r: MediaMetadataRecord)
    ensures
        details_insertion(r).len() == 25,
        details_insertion(r)[0] == sql(
            "INSERT INTO media_metadata (media_id, camera_make, camera_model, lens_model, aperture, shutter_str, iso, focal_length, gps_lat, gps_lon, gps_alt, color_space) VALUES (",
        ),
        details_insertion(r)[1] == text(r.media_id@),
        details_insertion(r)[3] == opt_text(r.camera_make),
        details_insertion(r)[5] == opt_text(r.camera_model),
        details_insertion(r)[7] == opt_text(r.lens_model),
        details_insertion(r)[9] == opt_real32(r.aperture),
        details_insertion(r)[11] == opt_text(r.shutter_str),
        details_insertion(r)[13] == opt_num(if r.iso is Some { Some(r.iso->0 as i64) } else { None }),
        details_insertion(r)[15] == opt_real32(r.focal_length),
        details_insertion(r)[17] == opt_real64(r.gps_lat),
        details_insertion(r)[19] == opt_real64(r.gps_lon),
        details_insertion(r)[21] == opt_real64(r.gps_alt),
        details_insertion(r)[23] == opt_text(r.color_space),
        details_insertion(r)[2] == sql(", "),
        details_insertion(r)[4] == sql(", "),
        details_insertion(r)[6] == sql(", "),
        details_insertion(r)[8] == sql(", "),
        details_insertion(r)[10] == sql(", "),
        details_insertion(r)[12] == sql(", "),
        details_insertion(r)[14] == sql(", "),
        details_insertion(r)[16] == sql(", "),
        details_insertion(r)[18] == sql(", "),
        details_insertion(r)[20] == sql(", "),
        details_insertion(r)[22] == sql(", "),
        details_insertion(r)[24] == sql(
            ") ON CONFLICT(media_id) DO UPDATE SET camera_make = excluded.camera_make, camera_model = excluded.camera_model, lens_model = excluded.lens_model, aperture = excluded.aperture, shutter_str = excluded.shutter_str, iso = excluded.iso, focal_length = excluded.focal_length, gps_lat = excluded.gps_lat, gps_lon = excluded.gps_lon, gps_alt = excluded.gps_alt, color_space = excluded.color_space",
        ),
{
}

/// Every column of the details that came from the server gets the detail of that name, in place of what was stored before.
pub proof fn details_from_the_server_are_stored(r: MediaMetadataRecord)
    ensures
        details_upsertion(r).len() == 25,
        details_upsertion(r)[0] == sql(
            "INSERT OR REPLACE INTO media_metadata (media_id, camera_make, camera_model, lens_model, aperture, shutter_str, iso, focal_length, gps_lat, gps_lon, gps_alt, color_space) VALUES (",
        ),
        details_upsertion(r)[1] == text(r.media_id@),
        details_upsertion(r)[3] == opt_text(r.camera_make),
        details_upsertion(r)[5] == opt_text(r.camera_model),
        details_upsertion(r)[7] == opt_text(r.lens_model),
        details_upsertion(r)[9] == opt_real32(r.aperture),
        details_upsertion(r)[11] == opt_text(r.shutter_str),
        details_upsertion(r)[13] == opt_num(if r.iso is Some { Some(r.iso->0 as i64) } else { None }),
        details_upsertion(r)[15] == opt_real32(r.focal_length),
        details_upsertion(r)[17] == opt_real64(r.gps_lat),
        details_upsertion(r)[19] == opt_real64(r.gps_lon),
        details_upsertion(r)[21] == opt_real64(r.gps_alt),
        details_upsertion(r)[23] == opt_text(r.color_space),
        details_upsertion(r)[2] == sql(", "),
        details_upsertion(r)[4] == sql(", "),
        details_upsertion(r)[6] == sql(", "),
        details_upsertion(r)[8] == sql(", "),
        details_upsertion(r)[10] == sql(", "),
        details_upsertion(r)[12] == sql(", "),
        details_upsertion(r)[14] == sql(", "),
        details_upsertion(r)[16] == sql(", "),
        details_upsertion(r)[18] == sql(", "),
        details_upsertion(r)[20] == sql(", "),
        details_upsertion(r)[22] == sql(", "),
        details_upsertion(r)[24] == sql(
            ")",
        ),
{
}

/// Every column of a person gets what the server says of them. Of a person who is here already all of it is renewed; the count of their faces is not touched.
pub proof fn people_are_stored(p: PersonRecord, now: i64)
    ensures
        person_upsertion(p, now).len() == 19,
        person_upsertion(p, now)[0] == sql(
            "INSERT INTO people (id, name, birth_date, is_hidden, is_favorite, color, face_asset_id, synced_at, external_id) VALUES (",
        ),
        person_upsertion(p, now)[1] == text(p.id@),
        person_upsertion(p, now)[3] == text(p.name@),
        person_upsertion(p, now)[5] == opt_text(p.birth_date),
        person_upsertion(p, now)[7] == flag(p.is_hidden),
        person_upsertion(p, now)[9] == flag(p.is_favorite),
        person_upsertion(p, now)[11] == opt_text(p.color),
        person_upsertion(p, now)[13] == opt_text(p.face_asset_id),
        person_upsertion(p, now)[15] == num(now),
        person_upsertion(p, now)[17] == opt_text(p.external_id),
        person_upsertion(p, now)[2] == sql(", "),
        person_upsertion(p, now)[4] == sql(", "),
        person_upsertion(p, now)[6] == sql(", "),
        person_upsertion(p, now)[8] == sql(", "),
        person_upsertion(p, now)[10] == sql(", "),
        person_upsertion(p, now)[12] == sql(", "),
        person_upsertion(p, now)[14] == sql(", "),
        person_upsertion(p, now)[16] == sql(", "),
        person_upsertion(p, now)[18] == sql(
            ") ON CONFLICT(id) DO UPDATE SET name = excluded.name, birth_date = excluded.birth_date, is_hidden = excluded.is_hidden, is_favorite = excluded.is_favorite, color = excluded.color, face_asset_id = excluded.face_asset_id, synced_at = excluded.synced_at, external_id = excluded.external_id",
        ),
{
}

/// Every column of a face gets what the server says of it. Of a face that is here already all of it is renewed.
pub proof fn faces_are_stored(f: AssetFaceRow)
    ensures
        face_upsertion(f).len() == 25,
        face_upsertion(f)[0] == sql(
            "INSERT INTO asset_faces (id, asset_id, person_id, image_width, image_height, bbox_x1, bbox_y1, bbox_x2, bbox_y2, source_type, is_visible, deleted_at) VALUES (",
        ),
        face_upsertion(f)[1] == text(f.id@),
        face_upsertion(f)[3] == text(f.asset_id@),
        face_upsertion(f)[5] == opt_text(f.person_id),
        face_upsertion(f)[7] == num(f.image_width as i64),
        face_upsertion(f)[9] == num(f.image_height as i64),
        face_upsertion(f)[11] == num(f.bbox_x1 as i64),
        face_upsertion(f)[13] == num(f.bbox_y1 as i64),
        face_upsertion(f)[15] == num(f.bbox_x2 as i64),
        face_upsertion(f)[17] == num(f.bbox_y2 as i64),
        face_upsertion(f)[19] == text(f.source_type@),
        face_upsertion(f)[21] == flag(f.is_visible),
        face_upsertion(f)[23] == opt_num(f.deleted_at),
        face_upsertion(f)[2] == sql(", "),
        face_upsertion(f)[4] == sql(", "),
        face_upsertion(f)[6] == sql(", "),
        face_upsertion(f)[8] == sql(", "),
        face_upsertion(f)[10] == sql(", "),
        face_upsertion(f)[12] == sql(", "),
        face_upsertion(f)[14] == sql(", "),
        face_upsertion(f)[16] == sql(", "),
        face_upsertion(f)[18] == sql(", "),
        face_upsertion(f)[20] == sql(", "),
        face_upsertion(f)[22] == sql(", "),
        face_upsertion(f)[24] == sql(
            ") ON CONFLICT(id) DO UPDATE SET asset_id = excluded.asset_id, person_id = excluded.person_id, image_width = excluded.image_width, image_height = excluded.image_height, bbox_x1 = excluded.bbox_x1, bbox_y1 = excluded.bbox_y1, bbox_x2 = excluded.bbox_x2, bbox_y2 = excluded.bbox_y2, source_type = excluded.source_type, is_visible = excluded.is_visible, deleted_at = excluded.deleted_at",
        ),
{
}

/// A new album is stored under its id and name, made and updated now.
pub proof fn new_albums_are_stored(id: Seq<char>, name: Seq<char>, now: i64)
    ensures
        album_creation(id, name, now).len() == 9,
        album_creation(id, name, now)[0] == sql(
            "INSERT INTO albums (id, name, created_at, updated_at) VALUES (",
        ),
        album_creation(id, name, now)[1] == text(id),
        album_creation(id, name, now)[3] == text(name),
        album_creation(id, name, now)[5] == num(now),
        album_creation(id, name, now)[7] == num(now),
        album_creation(id, name, now)[2] == sql(", "),
        album_creation(id, name, now)[4] == sql(", "),
        album_creation(id, name, now)[6] == sql(", "),
        album_creation(id, name, now)[8] == sql(
            ")",
        ),
{
}

/// An album from the server is stored as it came. Of an album that is here already all of that is renewed; whether it is pinned is not touched.
pub proof fn albums_from_the_server_are_stored(
    id: Seq<char>,
    name: Seq<char>,
    created: i64,
    updated: i64,
    external_id: Option<String>,
)
    ensures
        album_upsertion(id, name, created, updated, external_id).len() == 11,
        album_upsertion(id, name, created, updated, external_id)[0] == sql(
            "INSERT INTO albums (id, name, created_at, updated_at, external_id) VALUES (",
        ),
        album_upsertion(id, name, created, updated, external_id)[1] == text(id),
        album_upsertion(id, name, created, updated, external_id)[3] == text(name),
        album_upsertion(id, name, created, updated, external_id)[5] == num(created),
        album_upsertion(id, name, created, updated, external_id)[7] == num(updated),
        album_upsertion(id, name, created, updated, external_id)[9] == opt_text(external_id),
        album_upsertion(id, name, created, updated, external_id)[2] == sql(", "),
        album_upsertion(id, name, created, updated, external_id)[4] == sql(", "),
        album_upsertion(id, name, created, updated, external_id)[6] == sql(", "),
        album_upsertion(id, name, created, updated, external_id)[8] == sql(", "),
        album_upsertion(id, name, created, updated, external_id)[10] == sql(
            ") ON CONFLICT(id) DO UPDATE SET name = excluded.name, created_at = excluded.created_at, updated_at = excluded.updated_at, external_id = excluded.external_id",
        ),
{
}

/// A membership names the album, the asset and the time; one that is stored already stays. Both ways of storing one are the same.
pub proof fn memberships_are_stored(album: Seq<char>, media: Seq<char>, at: i64)
    ensures
        membership_insertion(album, media, at).len() == 7,
        membership_insertion(album, media, at)[0] == sql(
            "INSERT OR IGNORE INTO album_media (album_id, media_id, added_at) VALUES (",
        ),
        membership_insertion(album, media, at)[1] == text(album),
        membership_insertion(album, media, at)[3] == text(media),
        membership_insertion(album, media, at)[5] == num(at),
        membership_insertion(album, media, at)[2] == sql(", "),
        membership_insertion(album, media, at)[4] == sql(", "),
        membership_insertion(album, media, at)[6] == sql(
            ")",
        ),
        album_media_insertion(album, media, at) == membership_insertion(album, media, at),
{
}

/// An edit is stored with the time of its change; of an edit that is here already that is renewed, and that it was rendered is forgotten.
pub proof fn edits_are_stored(id: Seq<char>, json: Seq<char>, now: i64)
    ensures
        edit_upsertion(id, json, now).len() == 7,
        edit_upsertion(id, json, now)[0] == sql(
            "INSERT INTO edits (media_id, edit_json, updated_at) VALUES (",
        ),
        edit_upsertion(id, json, now)[1] == text(id),
        edit_upsertion(id, json, now)[3] == text(json),
        edit_upsertion(id, json, now)[5] == num(now),
        edit_upsertion(id, json, now)[2] == sql(", "),
        edit_upsertion(id, json, now)[4] == sql(", "),
        edit_upsertion(id, json, now)[6] == sql(
            ") ON CONFLICT(media_id) DO UPDATE SET edit_json = excluded.edit_json, updated_at = excluded.updated_at, rendered_at = NULL",
        ),
{
}

/// A stack that is not known yet is stored with a stand-in primary, confirmed now; one that is known stays as it is.
pub proof fn stacks_are_kept_for_now(id: Seq<char>, primary: Seq<char>, now: i64)
    ensures
        stack_stub(id, primary, now).len() == 7,
        stack_stub(id, primary, now)[0] == sql(
            "INSERT INTO stacks (id, primary_asset_id, last_seen_at) VALUES (",
        ),
        stack_stub(id, primary, now)[1] == text(id),
        stack_stub(id, primary, now)[3] == text(primary),
        stack_stub(id, primary, now)[5] == num(now),
        stack_stub(id, primary, now)[2] == sql(", "),
        stack_stub(id, primary, now)[4] == sql(", "),
        stack_stub(id, primary, now)[6] == sql(
            ") ON CONFLICT(id) DO NOTHING",
        ),
{
}

/// A stack is stored with its primary, or gets its new one; when it was last confirmed stays as
/// it was, and a new stack counts as never confirmed.
pub proof fn stacks_get_their_primary(id: Seq<char>, primary: Seq<char>)
    ensures
        stack_upsertion(id, primary).len() == 7,
        stack_upsertion(id, primary)[0] == sql(
            "INSERT INTO stacks (id, primary_asset_id, last_seen_at) VALUES (",
        ),
        stack_upsertion(id, primary)[1] == text(id),
        stack_upsertion(id, primary)[2] == sql(", "),
        stack_upsertion(id, primary)[3] == text(primary),
        stack_upsertion(id, primary)[4] == sql(
            ", COALESCE((SELECT last_seen_at FROM stacks WHERE id = ",
        ),
        stack_upsertion(id, primary)[5] == text(id),
        stack_upsertion(id, primary)[6] == sql(
            "), 0)) ON CONFLICT(id) DO UPDATE SET primary_asset_id = excluded.primary_asset_id",
        ),
{
}

/// A thumbnail that is to be made, and a file that is to be uploaded, are noted as pending, once.
pub proof fn pending_work_is_noted(id: Seq<char>, path: Seq<char>, at: i64)
    ensures
        thumbnail_insertion(id) == seq![
            sql("INSERT OR IGNORE INTO thumbnails (media_id, status) VALUES ("),
            text(id),
            sql(", 0)"),
        ],
        ThumbnailStatus::meant_by(0) is Pending,
        queueing(path, at) == seq![
            sql("INSERT OR IGNORE INTO upload_queue (file_path, status, created_at) VALUES ("),
            text(path),
            sql(", 0, "),
            num(at),
            sql(")"),
        ],
        UploadStatus::Pending.number() == 0,
{
}

/// A record of the server that is being processed is noted by its kind and id, when that began
/// and in which cycle; until it is done it counts as stored.
pub proof fn processing_is_noted(
    kind: Seq<char>,
    id: Seq<char>,
    now: Seq<char>,
    cycle: Seq<char>,
)
    ensures
        audit_insertion(kind, id, now, cycle) == seq![
            sql(
                "INSERT INTO sync_audit (entity_type, entity_id, action, started_at, sync_cycle) VALUES (",
            ),
            text(kind),
            sql(", "),
            text(id),
            sql(", 'upsert', "),
            text(now),
            sql(", "),
            text(cycle),
            sql(")"),
        ],
{
}

// ── Larger queries ───────────────────────────────────────────────────────────

/// The number of rows that meet a condition.
pub open spec fn counted(condition: Seq<char>) -> Seq<char> {
    "COUNT(CASE WHEN "@ + condition + " THEN 1 END)"@
}

/// Photos and videos are counted outside the trash, each by its kind, and their bytes are summed
/// up; what is in the trash is counted apart.
pub proof fn the_trash_is_counted_apart()
    ensures
        media_counts().len() == 1,
        media_counts()[0] == PartData::Text(
            "SELECT "@ + counted("media_type = 0 AND is_trashed = 0"@) + ", "@ + counted(
                "media_type = 1 AND is_trashed = 0"@,
            ) + ", "@ + "COALESCE(SUM(CASE WHEN is_trashed = 0 THEN file_size ELSE 0 END), 0)"@
                + ", "@ + counted("is_trashed = 1"@) + " FROM media"@,
        ),
{
    reveal_strlit(
        "SELECT COUNT(CASE WHEN media_type = 0 AND is_trashed = 0 THEN 1 END), COUNT(CASE WHEN media_type = 1 AND is_trashed = 0 THEN 1 END), COALESCE(SUM(CASE WHEN is_trashed = 0 THEN file_size ELSE 0 END), 0), COUNT(CASE WHEN is_trashed = 1 THEN 1 END) FROM media",
    );
    reveal_strlit("SELECT ");
    reveal_strlit("COUNT(CASE WHEN ");
    reveal_strlit(" THEN 1 END)");
    reveal_strlit(", ");
    reveal_strlit("media_type = 0 AND is_trashed = 0");
    reveal_strlit("media_type = 1 AND is_trashed = 0");
    reveal_strlit("is_trashed = 1");
    reveal_strlit(" FROM media");
    reveal_strlit("COALESCE(SUM(CASE WHEN is_trashed = 0 THEN file_size ELSE 0 END), 0)");
    let text = "SELECT "@ + counted("media_type = 0 AND is_trashed = 0"@) + ", "@ + counted(
        "media_type = 1 AND is_trashed = 0"@,
    ) + ", "@ + "COALESCE(SUM(CASE WHEN is_trashed = 0 THEN file_size ELSE 0 END), 0)"@ + ", "@
        + counted("is_trashed = 1"@) + " FROM media"@;
    assert(media_counts()[0]->Text_0 =~= text);
}

/// The columns of an item, in the order in which they are read.
pub open spec fn item_columns() -> Seq<char> {
    "SELECT m.id, m.taken_at, m.imported_at, m.original_filename, m.width, m.height, m.orientation, m.media_type, m.is_favorite, m.is_trashed, m.trashed_at, m.duration_ms, m.stack_id, m.is_moments_render"@
}

/// Every listing, of a view, of an album or of given items, gives the same columns in the same
/// order.
pub proof fn listings_give_the_same_columns(
    ids: Seq<Seq<char>>,
    id: Seq<char>,
    cursor: Option<MediaCursor>,
    limit: u32,
)
    ensures
        listing_head()[0] == PartData::Text(
            item_columns()
                + " FROM media m LEFT JOIN stacks s ON m.stack_id = s.id WHERE "@,
        ),
        items_query(ids)[0] == PartData::Text(
            item_columns()
                + " FROM media m LEFT JOIN stacks s ON m.stack_id = s.id WHERE m.id IN ("@,
        ),
        album_page(id, cursor, limit)[0] == PartData::Text(
            item_columns()
                + " FROM media m JOIN album_media am ON m.id = am.media_id LEFT JOIN stacks s ON m.stack_id = s.id WHERE am.album_id = "@,
        ),
{
    first_columns();
    second_columns();
    third_columns();
}

#[verifier::rlimit(60)]
proof fn first_columns()
    ensures
        listing_head()[0] == PartData::Text(
            item_columns()
                + " FROM media m LEFT JOIN stacks s ON m.stack_id = s.id WHERE "@,
        ),
{
    reveal_strlit("SELECT m.id, m.taken_at, m.imported_at, m.original_filename, m.width, m.height, m.orientation, m.media_type, m.is_favorite, m.is_trashed, m.trashed_at, m.duration_ms, m.stack_id, m.is_moments_render FROM media m LEFT JOIN stacks s ON m.stack_id = s.id WHERE ");
    reveal_strlit("SELECT m.id, m.taken_at, m.imported_at, m.original_filename, m.width, m.height, m.orientation, m.media_type, m.is_favorite, m.is_trashed, m.trashed_at, m.duration_ms, m.stack_id, m.is_moments_render");
    reveal_strlit(" FROM media m LEFT JOIN stacks s ON m.stack_id = s.id WHERE ");
    assert(listing_head()[0]->Text_0 =~= item_columns()
        + " FROM media m LEFT JOIN stacks s ON m.stack_id = s.id WHERE "@);
}

#[verifier::rlimit(60)]
proof fn second_columns()
    ensures
        forall|ids: Seq<Seq<char>>| #[trigger] items_query(ids)[0] == PartData::Text(
            item_columns()
                + " FROM media m LEFT JOIN stacks s ON m.stack_id = s.id WHERE m.id IN ("@,
        ),
{
    let whole = "SELECT m.id, m.taken_at, m.imported_at, m.original_filename, m.width, m.height, m.orientation, m.media_type, m.is_favorite, m.is_trashed, m.trashed_at, m.duration_ms, m.stack_id, m.is_moments_render FROM media m LEFT JOIN stacks s ON m.stack_id = s.id WHERE m.id IN ("@;
    assert(whole =~= item_columns()
        + " FROM media m LEFT JOIN stacks s ON m.stack_id = s.id WHERE m.id IN ("@) by {
        reveal_strlit("SELECT m.id, m.taken_at, m.imported_at, m.original_filename, m.width, m.height, m.orientation, m.media_type, m.is_favorite, m.is_trashed, m.trashed_at, m.duration_ms, m.stack_id, m.is_moments_render FROM media m LEFT JOIN stacks s ON m.stack_id = s.id WHERE m.id IN (");
        reveal_strlit("SELECT m.id, m.taken_at, m.imported_at, m.original_filename, m.width, m.height, m.orientation, m.media_type, m.is_favorite, m.is_trashed, m.trashed_at, m.duration_ms, m.stack_id, m.is_moments_render");
        reveal_strlit(" FROM media m LEFT JOIN stacks s ON m.stack_id = s.id WHERE m.id IN (");
    }
    assert forall|ids: Seq<Seq<char>>| #[trigger] items_query(ids)[0] == PartData::Text(whole) by {}
}

#[verifier::rlimit(60)]
proof fn third_columns()
    ensures
        forall|id: Seq<char>, cursor: Option<MediaCursor>, limit: u32| #[trigger]
            album_page(id, cursor, limit)[0] == PartData::Text(
                item_columns()
                    + " FROM media m JOIN album_media am ON m.id = am.media_id LEFT JOIN stacks s ON m.stack_id = s.id WHERE am.album_id = "@,
            ),
{
    let whole = "SELECT m.id, m.taken_at, m.imported_at, m.original_filename, m.width, m.height, m.orientation, m.media_type, m.is_favorite, m.is_trashed, m.trashed_at, m.duration_ms, m.stack_id, m.is_moments_render FROM media m JOIN album_media am ON m.id = am.media_id LEFT JOIN stacks s ON m.stack_id = s.id WHERE am.album_id = "@;
    assert(whole =~= item_columns()
        + " FROM media m JOIN album_media am ON m.id = am.media_id LEFT JOIN stacks s ON m.stack_id = s.id WHERE am.album_id = "@) by {
        reveal_strlit("SELECT m.id, m.taken_at, m.imported_at, m.original_filename, m.width, m.height, m.orientation, m.media_type, m.is_favorite, m.is_trashed, m.trashed_at, m.duration_ms, m.stack_id, m.is_moments_render FROM media m JOIN album_media am ON m.id = am.media_id LEFT JOIN stacks s ON m.stack_id = s.id WHERE am.album_id = ");
        reveal_strlit("SELECT m.id, m.taken_at, m.imported_at, m.original_filename, m.width, m.height, m.orientation, m.media_type, m.is_favorite, m.is_trashed, m.trashed_at, m.duration_ms, m.stack_id, m.is_moments_render");
        reveal_strlit(" FROM media m JOIN album_media am ON m.id = am.media_id LEFT JOIN stacks s ON m.stack_id = s.id WHERE am.album_id = ");
    }
    assert forall|id: Seq<char>, cursor: Option<MediaCursor>, limit: u32| #[trigger]
        album_page(id, cursor, limit)[0] == PartData::Text(whole) by {}
}

/// A page of an album holds what is in that album, outside the trash, as far as it is shown, and
/// after the cursor where there is one: an earlier capture, or the same and a lower id. The
/// latest capture comes first.
pub proof fn album_pages_leave_the_trash_out(id: Seq<char>, cursor: Option<MediaCursor>, limit: u32)
    ensures
        album_page(id, cursor, limit)[1] == text(id),
        cursor is None ==> album_page(id, cursor, limit)[2] == sql(" AND m.is_trashed = 0 AND ")
            && album_page(id, cursor, limit).skip(3) == shown_clause() + album_tail(limit),
        cursor matches Some(c) ==> album_page(id, cursor, limit).subrange(2, 8) == seq![
            sql(" AND (COALESCE(m.taken_at, 0) < "),
            num(c.sort_key),
            sql(" OR (COALESCE(m.taken_at, 0) = "),
            num(c.sort_key),
            sql(" AND m.id < "),
            text(c.id@),
        ] && album_page(id, cursor, limit)[8] == sql(")) AND m.is_trashed = 0 AND ")
            && album_page(id, cursor, limit).skip(9) == shown_clause() + album_tail(limit),
        album_tail(limit) == seq![
            sql(" ORDER BY COALESCE(m.taken_at, 0) DESC, m.id DESC LIMIT "),
            num(limit as i64),
        ],
        listing_tail("COALESCE(m.taken_at, 0)"@, limit)[3] == num(limit as i64),
{
    match cursor {
        None => {
            assert(album_page(id, cursor, limit).skip(3) =~= shown_clause() + album_tail(limit));
        },
        Some(c) => {
            assert(album_page(id, cursor, limit).skip(9) =~= shown_clause() + album_tail(limit));
        },
    }
}

/// Given items are listed as far as they are shown.
pub proof fn given_items_are_shown_as_in_views(ids: Seq<Seq<char>>)
    ensures
        items_query(ids).skip(1) == id_params(ids) + seq![sql(") AND ")] + shown_clause(),
{
    assert(items_query(ids).skip(1) =~= id_params(ids) + seq![sql(") AND ")] + shown_clause());
}

/// The albums that hold some of the given assets are counted by those that are outside the
/// trash, and the covers of an album are the assets added to it last, outside the trash too.
pub proof fn albums_are_asked_outside_the_trash(ids: Seq<Seq<char>>, id: Seq<char>, limit: u32)
    ensures
        holding_albums(ids) == seq![
            sql(
                "SELECT am.album_id, COUNT(*) as cnt FROM album_media am JOIN media m ON am.media_id = m.id WHERE am.media_id IN (",
            ),
        ] + id_params(ids) + seq![sql(") AND m.is_trashed = 0 GROUP BY am.album_id")],
        cover_query(id, limit) == seq![
            sql(
                "SELECT am.media_id FROM album_media am JOIN media m ON am.media_id = m.id WHERE am.album_id = ",
            ),
            text(id),
            sql(" AND m.is_trashed = 0 ORDER BY am.added_at DESC LIMIT "),
            num(limit as i64),
        ],
{
}

/// What an album is shown with: its own columns, the number of its items outside the trash, the
/// one of them that was added last, and whether it is pinned.
pub open spec fn album_columns() -> Seq<char> {
    "SELECT a.id, a.name, a.created_at, a.updated_at, COUNT(m2.id) as media_count, (SELECT am2.media_id FROM album_media am2 JOIN media m ON m.id = am2.media_id AND m.is_trashed = 0 WHERE am2.album_id = a.id ORDER BY am2.added_at DESC LIMIT 1) as cover_media_id, a.is_pinned FROM albums a LEFT JOIN album_media am ON a.id = am.album_id LEFT JOIN media m2 ON am.media_id = m2.id AND m2.is_trashed = 0"@
}

#[verifier::rlimit(90)]
proof fn all_albums()
    ensures
        album_list()[0] == PartData::Text(
            album_columns() + " GROUP BY a.id ORDER BY a.updated_at DESC"@,
        ),
{
    reveal_strlit("SELECT a.id, a.name, a.created_at, a.updated_at, COUNT(m2.id) as media_count, (SELECT am2.media_id FROM album_media am2 JOIN media m ON m.id = am2.media_id AND m.is_trashed = 0 WHERE am2.album_id = a.id ORDER BY am2.added_at DESC LIMIT 1) as cover_media_id, a.is_pinned FROM albums a LEFT JOIN album_media am ON a.id = am.album_id LEFT JOIN media m2 ON am.media_id = m2.id AND m2.is_trashed = 0 GROUP BY a.id ORDER BY a.updated_at DESC");
    reveal_strlit("SELECT a.id, a.name, a.created_at, a.updated_at, COUNT(m2.id) as media_count, (SELECT am2.media_id FROM album_media am2 JOIN media m ON m.id = am2.media_id AND m.is_trashed = 0 WHERE am2.album_id = a.id ORDER BY am2.added_at DESC LIMIT 1) as cover_media_id, a.is_pinned FROM albums a LEFT JOIN album_media am ON a.id = am.album_id LEFT JOIN media m2 ON am.media_id = m2.id AND m2.is_trashed = 0");
    reveal_strlit(" GROUP BY a.id ORDER BY a.updated_at DESC");
    assert(album_list()[0]->Text_0 =~= album_columns()
        + " GROUP BY a.id ORDER BY a.updated_at DESC"@);
}

#[verifier::rlimit(90)]
proof fn one_album()
    ensures
        forall|id: Seq<char>| #[trigger] album_entry(id)[0] == PartData::Text(
            album_columns() + " WHERE a.id = "@,
        ),
{
    let whole = "SELECT a.id, a.name, a.created_at, a.updated_at, COUNT(m2.id) as media_count, (SELECT am2.media_id FROM album_media am2 JOIN media m ON m.id = am2.media_id AND m.is_trashed = 0 WHERE am2.album_id = a.id ORDER BY am2.added_at DESC LIMIT 1) as cover_media_id, a.is_pinned FROM albums a LEFT JOIN album_media am ON a.id = am.album_id LEFT JOIN media m2 ON am.media_id = m2.id AND m2.is_trashed = 0 WHERE a.id = "@;
    assert(whole =~= album_columns() + " WHERE a.id = "@) by {
        reveal_strlit("SELECT a.id, a.name, a.created_at, a.updated_at, COUNT(m2.id) as media_count, (SELECT am2.media_id FROM album_media am2 JOIN media m ON m.id = am2.media_id AND m.is_trashed = 0 WHERE am2.album_id = a.id ORDER BY am2.added_at DESC LIMIT 1) as cover_media_id, a.is_pinned FROM albums a LEFT JOIN album_media am ON a.id = am.album_id LEFT JOIN media m2 ON am.media_id = m2.id AND m2.is_trashed = 0 WHERE a.id = ");
        reveal_strlit("SELECT a.id, a.name, a.created_at, a.updated_at, COUNT(m2.id) as media_count, (SELECT am2.media_id FROM album_media am2 JOIN media m ON m.id = am2.media_id AND m.is_trashed = 0 WHERE am2.album_id = a.id ORDER BY am2.added_at DESC LIMIT 1) as cover_media_id, a.is_pinned FROM albums a LEFT JOIN album_media am ON a.id = am.album_id LEFT JOIN media m2 ON am.media_id = m2.id AND m2.is_trashed = 0");
        reveal_strlit(" WHERE a.id = ");
    }
    assert forall|id: Seq<char>| #[trigger] album_entry(id)[0] == PartData::Text(whole) by {}
}

/// One album is shown as it is in the list of all albums, where the one updated last comes
/// first.
pub proof fn albums_are_shown_alike(id: Seq<char>)
    ensures
        album_list().len() == 1,
        album_list()[0] == PartData::Text(
            album_columns() + " GROUP BY a.id ORDER BY a.updated_at DESC"@,
        ),
        album_entry(id).len() == 3,
        album_entry(id)[0] == PartData::Text(album_columns() + " WHERE a.id = "@),
        album_entry(id)[1] == text(id),
        album_entry(id)[2] == sql(" GROUP BY a.id"),
{
    all_albums();
    one_album();
}

/// The faces of a person are counted where they are neither hidden nor deleted on the server,
/// and the count is the person's own. People with more faces come first, then by name.
pub proof fn faces_are_counted_for_their_person(id: Seq<char>)
    ensures
        face_recount(id) == seq![
            sql(
                "UPDATE people SET face_count = ( SELECT COUNT(*) FROM asset_faces WHERE person_id = ",
            ),
            text(id),
            sql(" AND is_visible = 1 AND deleted_at IS NULL ) WHERE id = "),
            text(id),
        ],
        people_list() == seq![
            sql(
                "SELECT id, name, face_count, is_hidden FROM people ORDER BY face_count DESC, name ASC",
            ),
        ],
{
}

/// What has to hold of an asset that shows a person, one condition after the other: it is outside
/// the trash, the face is neither hidden nor deleted on the server, and of a stack the original
/// stands for its rendered edit and the primary for everything else.
pub open spec fn person_conditions() -> Seq<char> {
    " AND m.is_trashed = 0"@ + " AND af.is_visible = 1"@ + " AND af.deleted_at IS NULL"@
        + " AND (s.id IS NULL AND m.is_moments_render = 0"@
        + " OR (render.id IS NULL AND s.primary_asset_id = m.id)"@
        + " OR (render.id IS NOT NULL AND m.is_moments_render = 0))"@
        + " ORDER BY COALESCE(m.taken_at, m.imported_at) DESC"@
}

/// The assets that show a person are those outside the trash in which a face of theirs counts,
/// latest first.
#[verifier::rlimit(90)]
pub proof fn people_are_shown_outside_the_trash(id: Seq<char>)
    ensures
        person_media(id).len() == 3,
        person_media(id)[0] == sql(
            "SELECT DISTINCT af.asset_id FROM asset_faces af INNER JOIN media m ON m.id = af.asset_id LEFT JOIN stacks s ON m.stack_id = s.id LEFT JOIN media render ON render.stack_id = s.id AND render.is_moments_render = 1 WHERE af.person_id = ",
        ),
        person_media(id)[1] == text(id),
        person_media(id)[2] == PartData::Text(person_conditions()),
{
    reveal_strlit(" AND m.is_trashed = 0 AND af.is_visible = 1 AND af.deleted_at IS NULL AND (s.id IS NULL AND m.is_moments_render = 0 OR (render.id IS NULL AND s.primary_asset_id = m.id) OR (render.id IS NOT NULL AND m.is_moments_render = 0)) ORDER BY COALESCE(m.taken_at, m.imported_at) DESC");
    reveal_strlit(" AND m.is_trashed = 0");
    reveal_strlit(" AND af.is_visible = 1");
    reveal_strlit(" AND af.deleted_at IS NULL");
    reveal_strlit(" AND (s.id IS NULL AND m.is_moments_render = 0");
    reveal_strlit(" OR (render.id IS NULL AND s.primary_asset_id = m.id)");
    reveal_strlit(" OR (render.id IS NOT NULL AND m.is_moments_render = 0))");
    reveal_strlit(" ORDER BY COALESCE(m.taken_at, m.imported_at) DESC");
    assert(person_media(id)[2]->Text_0 =~= person_conditions());
}

/// The rows that a deletion frees are the members of stacks whose primary is deleted, and which
/// are not deleted themselves.
pub proof fn freed_rows_stay(ids: Seq<MediaId>)
    ensures
        freed_query(ids) == seq![
            sql(
                "SELECT DISTINCT m.id FROM media m JOIN stacks s ON m.stack_id = s.id WHERE s.primary_asset_id IN (",
            ),
        ] + id_params(media_keys(ids)) + seq![sql(") AND m.id NOT IN (")] + id_params(
            media_keys(ids),
        ) + seq![sql(")")],
{
}

/// A view asks for the time that it is about, and in its order: the trash for when an asset was
/// put there, recent imports for when it was imported, every other view for when it was taken; a
/// time that is not known counts as 0. The latest comes first, then the higher id.
pub proof fn views_are_sorted_by_their_time(filter: MediaFilter, cursor: MediaCursor, limit: u32)
    ensures
        filter is Trashed ==> sort_key(filter) == "COALESCE(m.trashed_at, 0)"@,
        filter is RecentImports ==> sort_key(filter) == "m.imported_at"@,
        !(filter is Trashed) && !(filter is RecentImports) ==> sort_key(filter)
            == "COALESCE(m.taken_at, 0)"@,
        listing_tail(sort_key(filter), limit) == seq![
            sql(" ORDER BY "),
            PartData::Text(sort_key(filter)),
            sql(" DESC, m.id DESC LIMIT "),
            num(limit as i64),
        ],
        cursor_clause(sort_key(filter), None).len() == 0,
        cursor_clause(sort_key(filter), Some(cursor)) == seq![
            sql(" AND ("),
            PartData::Text(sort_key(filter)),
            sql(" < "),
            num(cursor.sort_key),
            sql(" OR ("),
            PartData::Text(sort_key(filter)),
            sql(" = "),
            num(cursor.sort_key),
            sql(" AND m.id < "),
            text(cursor.id@),
            sql("))"),
        ],
        listing(filter, Some(cursor), limit) == listing_head() + cursor_clause(
            sort_key(filter),
            Some(cursor),
        ) + filter_clause(filter) + listing_tail(sort_key(filter), limit),
{
}

/// What a view asks of a row is what it means: a flag is 1 where it is set and 0 where it is not,
/// an import is recent where it came after the moment, and links are looked up by the id of the
/// album or the person.
pub proof fn conditions_are_asked_as_meant(since: i64, id: Seq<char>)
    ensures
        worded(Condition::OutsideTrash) == seq![
            PartData::Text(" AND "@ + Test::Is("m.is_trashed"@, Term::Zero).text()),
        ],
        worded(Condition::InTrash) == seq![
            PartData::Text(" AND "@ + Test::Is("m.is_trashed"@, Term::One).text()),
        ],
        worded(Condition::Favorite) == seq![
            PartData::Text(" AND "@ + Test::Is("m.is_favorite"@, Term::One).text()),
        ],
        worded(Condition::ImportedAfter(since)) == seq![
            sql(" AND m.imported_at > "),
            text(signed_decimal_of(since as int)),
        ],
        worded(Condition::InAlbum(id)) == seq![
            sql(" AND m.id IN (SELECT media_id FROM album_media WHERE album_id = "),
            text(id),
            sql(")"),
        ],
        worded(Condition::ShowsFaceOf(id)) == seq![
            sql(" AND m.id IN (SELECT DISTINCT asset_id FROM asset_faces WHERE person_id = "),
            text(id),
            sql(")"),
        ],
{
    reveal_strlit(" AND ");
    reveal_strlit("m.is_trashed");
    reveal_strlit("m.is_favorite");
    reveal_strlit(" = ");
    reveal_strlit("0");
    reveal_strlit("1");
    reveal_strlit(" AND m.is_trashed = 0");
    reveal_strlit(" AND m.is_trashed = 1");
    reveal_strlit(" AND m.is_favorite = 1");
    assert(" AND m.is_trashed = 0"@ =~= " AND "@ + Test::Is("m.is_trashed"@, Term::Zero).text());
    assert(" AND m.is_trashed = 1"@ =~= " AND "@ + Test::Is("m.is_trashed"@, Term::One).text());
    assert(" AND m.is_favorite = 1"@ =~= " AND "@ + Test::Is("m.is_favorite"@, Term::One).text());
}

/// Which row stands for a stack is asked in the order in which it is decided: where the primary
/// is a rendered edit of the stack, an original of the same stack beside it comes first, the one
/// that was edited before the others and then by id; else it is the primary itself.
#[verifier::rlimit(60)]
pub proof fn originals_stand_for_rendered_edits(stack: Seq<char>)
    ensures
        standing_row(stack).len() == 9,
        standing_row(stack)[0] == sql(
            "COALESCE((SELECT c.id FROM media c JOIN media p ON p.id = ",
        ),
        standing_row(stack)[1] == PartData::Text(stack),
        standing_row(stack)[2] == sql(".primary_asset_id WHERE p.stack_id = "),
        standing_row(stack)[3] == PartData::Text(stack),
        standing_row(stack)[4] == sql(".id AND p.is_moments_render = 1 AND c.stack_id = "),
        standing_row(stack)[5] == PartData::Text(stack),
        standing_row(stack)[6] == PartData::Text(
            ".id"@ + " AND c.is_moments_render = 0"@ + " AND c.is_trashed = p.is_trashed"@
                + " ORDER BY c.id IN (SELECT e.media_id FROM edits e WHERE e.server_rendered_asset_id = p.id) DESC, c.id LIMIT 1), "@,
        ),
        standing_row(stack)[7] == PartData::Text(stack),
        standing_row(stack)[8] == sql(".primary_asset_id)"),
{
    reveal_strlit(".id AND c.is_moments_render = 0 AND c.is_trashed = p.is_trashed ORDER BY c.id IN (SELECT e.media_id FROM edits e WHERE e.server_rendered_asset_id = p.id) DESC, c.id LIMIT 1), ");
    reveal_strlit(".id");
    reveal_strlit(" AND c.is_moments_render = 0");
    reveal_strlit(" AND c.is_trashed = p.is_trashed");
    reveal_strlit(" ORDER BY c.id IN (SELECT e.media_id FROM edits e WHERE e.server_rendered_asset_id = p.id) DESC, c.id LIMIT 1), ");
    assert(standing_row(stack)[6]->Text_0 =~= ".id"@ + " AND c.is_moments_render = 0"@
        + " AND c.is_trashed = p.is_trashed"@
        + " ORDER BY c.id IN (SELECT e.media_id FROM edits e WHERE e.server_rendered_asset_id = p.id) DESC, c.id LIMIT 1), "@);
}

/// A row is shown where it stands for its stack, and outside stacks unless it is a rendered edit
/// whose original, beside it, is shown itself.
#[verifier::rlimit(60)]
pub proof fn shown_rows_are_asked_for()
    ensures
        shown_clause() == seq![
            PartData::Text(
                "(s.id IS NULL AND (m.is_moments_render = 0 OR NOT EXISTS ("@
                    + "SELECT 1 FROM edits d JOIN media o ON o.id = d.media_id LEFT JOIN stacks t ON o.stack_id = t.id WHERE d.server_rendered_asset_id = m.id"@
                    + " AND o.is_moments_render = 0"@ + " AND o.is_trashed = m.is_trashed"@
                    + " AND (t.id IS NULL OR o.id = "@,
            ),
        ] + standing_row("t"@) + seq![sql("))) OR m.id = ")] + standing_row("s"@) + seq![sql(")")],
{
    let whole = "(s.id IS NULL AND (m.is_moments_render = 0 OR NOT EXISTS (SELECT 1 FROM edits d JOIN media o ON o.id = d.media_id LEFT JOIN stacks t ON o.stack_id = t.id WHERE d.server_rendered_asset_id = m.id AND o.is_moments_render = 0 AND o.is_trashed = m.is_trashed AND (t.id IS NULL OR o.id = "@;
    let told = "(s.id IS NULL AND (m.is_moments_render = 0 OR NOT EXISTS ("@
        + "SELECT 1 FROM edits d JOIN media o ON o.id = d.media_id LEFT JOIN stacks t ON o.stack_id = t.id WHERE d.server_rendered_asset_id = m.id"@
        + " AND o.is_moments_render = 0"@ + " AND o.is_trashed = m.is_trashed"@
        + " AND (t.id IS NULL OR o.id = "@;
    assert(whole =~= told) by {
        reveal_strlit("(s.id IS NULL AND (m.is_moments_render = 0 OR NOT EXISTS (SELECT 1 FROM edits d JOIN media o ON o.id = d.media_id LEFT JOIN stacks t ON o.stack_id = t.id WHERE d.server_rendered_asset_id = m.id AND o.is_moments_render = 0 AND o.is_trashed = m.is_trashed AND (t.id IS NULL OR o.id = ");
        reveal_strlit("(s.id IS NULL AND (m.is_moments_render = 0 OR NOT EXISTS (");
        reveal_strlit("SELECT 1 FROM edits d JOIN media o ON o.id = d.media_id LEFT JOIN stacks t ON o.stack_id = t.id WHERE d.server_rendered_asset_id = m.id");
        reveal_strlit(" AND o.is_moments_render = 0");
        reveal_strlit(" AND o.is_trashed = m.is_trashed");
        reveal_strlit(" AND (t.id IS NULL OR o.id = ");
    }
}

} // verus!
