//! The queries on people and faces.

use vstd::prelude::*;

use crate::faces::{AssetFaceRow, PersonRecord};
use crate::sql::meaning::{says, says_and};
use crate::sql::orders;
use crate::sql::{flag, num, opt_num, opt_text, sql, text, PartData, Statement};

verus! {

/// The values of a person, separated by commas.
pub open spec fn person_values(p: PersonRecord, now: i64) -> Seq<PartData> {
    seq![
        text(p.id@),
        sql(", "),
        text(p.name@),
        sql(", "),
        opt_text(p.birth_date),
        sql(", "),
        flag(p.is_hidden),
        sql(", "),
        flag(p.is_favorite),
        sql(", "),
        opt_text(p.color),
        sql(", "),
    ] + seq![
        opt_text(p.face_asset_id),
        sql(", "),
        num(now),
        sql(", "),
        opt_text(p.external_id),
    ]
}

fn person_parts(p: &PersonRecord, now: i64) -> (q: Statement)
    ensures
        q@ == person_values(*p, now),
{
    let mut q = Statement::new();
    q.text(p.id.as_str());
    q.sql(", ");
    q.text(p.name.as_str());
    q.sql(", ");
    q.opt_text(&p.birth_date);
    q.sql(", ");
    q.flag(p.is_hidden);
    q.sql(", ");
    q.flag(p.is_favorite);
    q.sql(", ");
    q.opt_text(&p.color);
    q.sql(", ");
    let mut rest = Statement::new();
    rest.opt_text(&p.face_asset_id);
    rest.sql(", ");
    rest.num(now);
    rest.sql(", ");
    rest.opt_text(&p.external_id);
    q.extend(rest);
    q
}

/// The values that say which face a row is about, each followed by a comma.
pub open spec fn face_identity(f: AssetFaceRow) -> Seq<PartData> {
    seq![
        text(f.id@),
        sql(", "),
        text(f.asset_id@),
        sql(", "),
        opt_text(f.person_id),
        sql(", "),
        num(f.image_width as i64),
        sql(", "),
        num(f.image_height as i64),
        sql(", "),
    ]
}

/// The remaining values of a face, separated by commas.
pub open spec fn face_place(f: AssetFaceRow) -> Seq<PartData> {
    seq![
        num(f.bbox_x1 as i64),
        sql(", "),
        num(f.bbox_y1 as i64),
        sql(", "),
        num(f.bbox_x2 as i64),
        sql(", "),
        num(f.bbox_y2 as i64),
        sql(", "),
        text(f.source_type@),
        sql(", "),
        flag(f.is_visible),
        sql(", "),
        opt_num(f.deleted_at),
    ]
}

/// The values of a face, separated by commas.
pub open spec fn face_values(f: AssetFaceRow) -> Seq<PartData> {
    face_identity(f) + face_place(f)
}

fn face_identity_parts(f: &AssetFaceRow) -> (q: Statement)
    ensures
        q@ == face_identity(*f),
{
    let mut q = Statement::new();
    q.text(f.id.as_str());
    q.sql(", ");
    q.text(f.asset_id.as_str());
    q.sql(", ");
    q.opt_text(&f.person_id);
    q.sql(", ");
    q.num(f.image_width as i64);
    q.sql(", ");
    q.num(f.image_height as i64);
    q.sql(", ");
    q
}

fn face_place_parts(f: &AssetFaceRow) -> (q: Statement)
    ensures
        q@ == face_place(*f),
{
    let mut q = Statement::new();
    q.num(f.bbox_x1 as i64);
    q.sql(", ");
    q.num(f.bbox_y1 as i64);
    q.sql(", ");
    q.num(f.bbox_x2 as i64);
    q.sql(", ");
    q.num(f.bbox_y2 as i64);
    q.sql(", ");
    q.text(f.source_type.as_str());
    q.sql(", ");
    q.flag(f.is_visible);
    q.sql(", ");
    q.opt_num(f.deleted_at);
    q
}

fn face_parts(f: &AssetFaceRow) -> (q: Statement)
    ensures
        q@ == face_values(*f),
{
    let mut q = face_identity_parts(f);
    q.extend(face_place_parts(f));
    q
}

/// The assets that show a person.
pub open spec fn person_media(id: Seq<char>) -> Seq<PartData> {
    seq![
        sql("SELECT DISTINCT af.asset_id FROM asset_faces af INNER JOIN media m ON m.id = af.asset_id LEFT JOIN stacks s ON m.stack_id = s.id LEFT JOIN media render ON render.stack_id = s.id AND render.is_moments_render = 1 WHERE af.person_id = "),
        text(id),
        sql(" AND m.is_trashed = 0 AND af.is_visible = 1 AND af.deleted_at IS NULL AND (s.id IS NULL AND m.is_moments_render = 0 OR (render.id IS NULL AND s.primary_asset_id = m.id) OR (render.id IS NOT NULL AND m.is_moments_render = 0)) ORDER BY COALESCE(m.taken_at, m.imported_at) DESC"),
    ]
}

/// All people.
pub open spec fn people_list() -> Seq<PartData> {
    seq![
        sql("SELECT id, name, face_count, is_hidden FROM people ORDER BY face_count DESC, name ASC"),
    ]
}

/// The counting of the faces of a person.
pub open spec fn face_recount(id: Seq<char>) -> Seq<PartData> {
    seq![
        sql("UPDATE people SET face_count = ( SELECT COUNT(*) FROM asset_faces WHERE person_id = "),
        text(id),
        sql(" AND is_visible = 1 AND deleted_at IS NULL ) WHERE id = "),
        text(id),
    ]
}

/// The storing of a person from the server.
pub open spec fn person_upsertion(person: PersonRecord, now: i64) -> Seq<PartData> {
    seq![
        sql("INSERT INTO people (id, name, birth_date, is_hidden, is_favorite, color, face_asset_id, synced_at, external_id) VALUES ("),
    ] + person_values(
        person,
        now,
    ) + seq![
        sql(") ON CONFLICT(id) DO UPDATE SET name = excluded.name, birth_date = excluded.birth_date, is_hidden = excluded.is_hidden, is_favorite = excluded.is_favorite, color = excluded.color, face_asset_id = excluded.face_asset_id, synced_at = excluded.synced_at, external_id = excluded.external_id"),
    ]
}

/// The storing of a face from the server.
pub open spec fn face_upsertion(face: AssetFaceRow) -> Seq<PartData> {
    seq![
        sql("INSERT INTO asset_faces (id, asset_id, person_id, image_width, image_height, bbox_x1, bbox_y1, bbox_x2, bbox_y2, source_type, is_visible, deleted_at) VALUES ("),
    ] + face_values(
        face,
    ) + seq![
        sql(") ON CONFLICT(id) DO UPDATE SET asset_id = excluded.asset_id, person_id = excluded.person_id, image_width = excluded.image_width, image_height = excluded.image_height, bbox_x1 = excluded.bbox_x1, bbox_y1 = excluded.bbox_y1, bbox_x2 = excluded.bbox_x2, bbox_y2 = excluded.bbox_y2, source_type = excluded.source_type, is_visible = excluded.is_visible, deleted_at = excluded.deleted_at"),
    ]
}

/// The queries on the `people` and `asset_faces` tables.
pub struct FacesRepository;

impl FacesRepository {
    /// Asks for all people, the one with the most faces first, ties by name.
    pub fn list_people() -> (r: Statement)
        ensures
            r@ == people_list(),
            r@ == seq![
                sql(
                    "SELECT id, name, face_count, is_hidden FROM people ORDER BY face_count DESC, name ASC",
                ),
            ],
    {
        let mut q = Statement::new();
        q.sql(
            "SELECT id, name, face_count, is_hidden FROM people ORDER BY face_count DESC, name ASC",
        );
        q
    }

    /// Asks for one person.
    pub fn get_person(id: &str) -> (r: Statement)
        ensures
            says(r@, orders::person(id@)),
            r@ == seq![
                sql("SELECT id, name, face_count, is_hidden FROM people WHERE id = "),
                text(id@),
            ],
    {
        let mut q = Statement::new();
        q.sql("SELECT id, name, face_count, is_hidden FROM people WHERE id = ");
        q.text(id);
        proof {
            orders::read_person(q@, id@);
        }
        q
    }

    /// Asks for the assets that show a person, latest first. Faces that the server hides or
    /// has deleted do not count, nor do assets in the trash. Of a stack, the original stands
    /// for a rendered edit, and otherwise the primary for all members.
    pub fn list_media_for_person(person_id: &str) -> (r: Statement)
        ensures
            r@ == person_media(person_id@),
            r@ == seq![
                sql(
                    "SELECT DISTINCT af.asset_id FROM asset_faces af INNER JOIN media m ON m.id = af.asset_id LEFT JOIN stacks s ON m.stack_id = s.id LEFT JOIN media render ON render.stack_id = s.id AND render.is_moments_render = 1 WHERE af.person_id = ",
                ),
                text(person_id@),
                sql(
                    " AND m.is_trashed = 0 AND af.is_visible = 1 AND af.deleted_at IS NULL AND (s.id IS NULL AND m.is_moments_render = 0 OR (render.id IS NULL AND s.primary_asset_id = m.id) OR (render.id IS NOT NULL AND m.is_moments_render = 0)) ORDER BY COALESCE(m.taken_at, m.imported_at) DESC",
                ),
            ],
    {
        let mut q = Statement::new();
        q.sql(
            "SELECT DISTINCT af.asset_id FROM asset_faces af INNER JOIN media m ON m.id = af.asset_id LEFT JOIN stacks s ON m.stack_id = s.id LEFT JOIN media render ON render.stack_id = s.id AND render.is_moments_render = 1 WHERE af.person_id = ",
        );
        q.text(person_id);
        q.sql(
            " AND m.is_trashed = 0 AND af.is_visible = 1 AND af.deleted_at IS NULL AND (s.id IS NULL AND m.is_moments_render = 0 OR (render.id IS NULL AND s.primary_asset_id = m.id) OR (render.id IS NOT NULL AND m.is_moments_render = 0)) ORDER BY COALESCE(m.taken_at, m.imported_at) DESC",
        );
        q
    }

    /// Renames a person.
    pub fn rename_person(id: &str, name: &str) -> (r: Statement)
        ensures
            says(r@, orders::rename_person(id@, name@)),
            r@ == seq![
                sql("UPDATE people SET name = "),
                text(name@),
                sql(" WHERE id = "),
                text(id@),
            ],
    {
        let mut q = Statement::new();
        q.sql("UPDATE people SET name = ");
        q.text(name);
        q.sql(" WHERE id = ");
        q.text(id);
        proof {
            orders::read_rename_person(q@, id@, name@);
        }
        q
    }

    /// Hides a person, or shows them again.
    pub fn set_person_hidden(id: &str, hidden: bool) -> (r: Statement)
        ensures
            says(r@, orders::hide_person(id@, hidden)),
            r@ == seq![
                sql("UPDATE people SET is_hidden = "),
                flag(hidden),
                sql(" WHERE id = "),
                text(id@),
            ],
    {
        let mut q = Statement::new();
        q.sql("UPDATE people SET is_hidden = ");
        q.flag(hidden);
        q.sql(" WHERE id = ");
        q.text(id);
        proof {
            orders::read_hide_person(q@, id@, hidden);
        }
        q
    }

    /// Stores a person from the server. The count of their faces stays as it is.
    pub fn upsert_person(person: &PersonRecord, now: i64) -> (r: Statement)
        ensures
            r@ == person_upsertion(*person, now),
            r@ == seq![
                sql(
                    "INSERT INTO people (id, name, birth_date, is_hidden, is_favorite, color, face_asset_id, synced_at, external_id) VALUES (",
                ),
            ] + person_values(*person, now) + seq![
                sql(
                    ") ON CONFLICT(id) DO UPDATE SET name = excluded.name, birth_date = excluded.birth_date, is_hidden = excluded.is_hidden, is_favorite = excluded.is_favorite, color = excluded.color, face_asset_id = excluded.face_asset_id, synced_at = excluded.synced_at, external_id = excluded.external_id",
                ),
            ],
    {
        let mut q = Statement::new();
        q.sql(
            "INSERT INTO people (id, name, birth_date, is_hidden, is_favorite, color, face_asset_id, synced_at, external_id) VALUES (",
        );
        q.extend(person_parts(person, now));
        q.sql(
            ") ON CONFLICT(id) DO UPDATE SET name = excluded.name, birth_date = excluded.birth_date, is_hidden = excluded.is_hidden, is_favorite = excluded.is_favorite, color = excluded.color, face_asset_id = excluded.face_asset_id, synced_at = excluded.synced_at, external_id = excluded.external_id",
        );
        q
    }

    /// Deletes a person.
    pub fn delete_person(id: &str) -> (r: Statement)
        ensures
            says(r@, orders::remove_person(id@)),
            r@ == seq![
                sql("DELETE FROM people WHERE id = "),
                text(id@),
            ],
    {
        let mut q = Statement::new();
        q.sql("DELETE FROM people WHERE id = ");
        q.text(id);
        proof {
            orders::read_remove_person(q@, id@);
        }
        q
    }

    /// Stores a face from the server.
    pub fn upsert_asset_face(face: &AssetFaceRow) -> (r: Statement)
        ensures
            r@ == face_upsertion(*face),
            r@ == seq![
                sql(
                    "INSERT INTO asset_faces (id, asset_id, person_id, image_width, image_height, bbox_x1, bbox_y1, bbox_x2, bbox_y2, source_type, is_visible, deleted_at) VALUES (",
                ),
            ] + face_values(*face) + seq![
                sql(
                    ") ON CONFLICT(id) DO UPDATE SET asset_id = excluded.asset_id, person_id = excluded.person_id, image_width = excluded.image_width, image_height = excluded.image_height, bbox_x1 = excluded.bbox_x1, bbox_y1 = excluded.bbox_y1, bbox_x2 = excluded.bbox_x2, bbox_y2 = excluded.bbox_y2, source_type = excluded.source_type, is_visible = excluded.is_visible, deleted_at = excluded.deleted_at",
                ),
            ],
    {
        let mut q = Statement::new();
        q.sql(
            "INSERT INTO asset_faces (id, asset_id, person_id, image_width, image_height, bbox_x1, bbox_y1, bbox_x2, bbox_y2, source_type, is_visible, deleted_at) VALUES (",
        );
        q.extend(face_parts(face));
        q.sql(
            ") ON CONFLICT(id) DO UPDATE SET asset_id = excluded.asset_id, person_id = excluded.person_id, image_width = excluded.image_width, image_height = excluded.image_height, bbox_x1 = excluded.bbox_x1, bbox_y1 = excluded.bbox_y1, bbox_x2 = excluded.bbox_x2, bbox_y2 = excluded.bbox_y2, source_type = excluded.source_type, is_visible = excluded.is_visible, deleted_at = excluded.deleted_at",
        );
        q
    }

    /// Asks for the person whom a face counts for: nobody where it is hidden or deleted on
    /// the server.
    pub fn get_asset_face_effective_person_id(id: &str) -> (r: Statement)
        ensures
            says(r@, orders::person_of_face(id@)),
            r@ == seq![
                sql("SELECT person_id FROM asset_faces WHERE id = "),
                text(id@),
                sql(" AND is_visible = 1 AND deleted_at IS NULL"),
            ],
    {
        let mut q = Statement::new();
        q.sql("SELECT person_id FROM asset_faces WHERE id = ");
        q.text(id);
        q.sql(" AND is_visible = 1 AND deleted_at IS NULL");
        proof {
            orders::read_person_of_face(q@, id@);
        }
        q
    }

    /// Deletes a face, and gives back the person that it was of.
    pub fn delete_asset_face(id: &str) -> (r: Statement)
        ensures
            says_and(r@, orders::remove_face(id@), " RETURNING person_id"@),
            r@ == seq![
                sql("DELETE FROM asset_faces WHERE id = "),
                text(id@),
                sql(" RETURNING person_id"),
            ],
    {
        let mut q = Statement::new();
        q.sql("DELETE FROM asset_faces WHERE id = ");
        q.text(id);
        q.sql(" RETURNING person_id");
        proof {
            orders::read_remove_face(q@, id@);
        }
        q
    }

    /// Counts the faces of a person anew, those hidden or deleted on the server aside.
    pub fn update_face_count(person_id: &str) -> (r: Statement)
        ensures
            r@ == face_recount(person_id@),
            r@ == seq![
                sql(
                    "UPDATE people SET face_count = ( SELECT COUNT(*) FROM asset_faces WHERE person_id = ",
                ),
                text(person_id@),
                sql(" AND is_visible = 1 AND deleted_at IS NULL ) WHERE id = "),
                text(person_id@),
            ],
    {
        let mut q = Statement::new();
        q.sql(
            "UPDATE people SET face_count = ( SELECT COUNT(*) FROM asset_faces WHERE person_id = ",
        );
        q.text(person_id);
        q.sql(" AND is_visible = 1 AND deleted_at IS NULL ) WHERE id = ");
        q.text(person_id);
        q
    }

    /// Asks for the people whom the server has not confirmed since the checkpoint.
    pub fn people_with_stale_heartbeat(checkpoint: i64) -> (r: Statement)
        ensures
            says(r@, orders::stale_people(checkpoint)),
            r@ == seq![
                sql("SELECT id FROM people WHERE last_seen_at < "),
                num(checkpoint),
            ],
    {
        let mut q = Statement::new();
        q.sql("SELECT id FROM people WHERE last_seen_at < ");
        q.num(checkpoint);
        proof {
            orders::read_stale_people(q@, checkpoint);
        }
        q
    }

    /// Deletes the people whom the server has not confirmed since the checkpoint.
    pub fn delete_people_with_stale_heartbeat(checkpoint: i64) -> (r: Statement)
        ensures
            says(r@, orders::remove_stale_people(checkpoint)),
            r@ == seq![
                sql("DELETE FROM people WHERE last_seen_at < "),
                num(checkpoint),
            ],
    {
        let mut q = Statement::new();
        q.sql("DELETE FROM people WHERE last_seen_at < ");
        q.num(checkpoint);
        proof {
            orders::read_remove_stale_people(q@, checkpoint);
        }
        q
    }

    /// Asks for the people of faces that the server has not confirmed since the checkpoint.
    pub fn persons_with_stale_faces(checkpoint: i64) -> (r: Statement)
        ensures
            says(r@, orders::people_of_stale_faces(checkpoint)),
            r@ == seq![
                sql("SELECT DISTINCT person_id FROM asset_faces WHERE last_seen_at < "),
                num(checkpoint),
                sql(" AND person_id IS NOT NULL"),
            ],
    {
        let mut q = Statement::new();
        q.sql("SELECT DISTINCT person_id FROM asset_faces WHERE last_seen_at < ");
        q.num(checkpoint);
        q.sql(" AND person_id IS NOT NULL");
        proof {
            orders::read_people_of_stale_faces(q@, checkpoint);
        }
        q
    }

    /// Deletes the faces that the server has not confirmed since the checkpoint.
    pub fn delete_asset_faces_with_stale_heartbeat(checkpoint: i64) -> (r: Statement)
        ensures
            says(r@, orders::remove_stale_faces(checkpoint)),
            r@ == seq![
                sql("DELETE FROM asset_faces WHERE last_seen_at < "),
                num(checkpoint),
            ],
    {
        let mut q = Statement::new();
        q.sql("DELETE FROM asset_faces WHERE last_seen_at < ");
        q.num(checkpoint);
        proof {
            orders::read_remove_stale_faces(q@, checkpoint);
        }
        q
    }

    /// Notes that the server has confirmed a person.
    pub fn bump_person_last_seen_at(id: &str, now: i64) -> (r: Statement)
        ensures
            says(r@, orders::confirm_person(id@, now)),
            r@ == seq![
                sql("UPDATE people SET last_seen_at = "),
                num(now),
                sql(" WHERE id = "),
                text(id@),
            ],
    {
        let mut q = Statement::new();
        q.sql("UPDATE people SET last_seen_at = ");
        q.num(now);
        q.sql(" WHERE id = ");
        q.text(id);
        proof {
            orders::read_confirm_person(q@, id@, now);
        }
        q
    }

    /// Notes that the server has confirmed a face.
    pub fn bump_asset_face_last_seen_at(id: &str, now: i64) -> (r: Statement)
        ensures
            says(r@, orders::confirm_face(id@, now)),
            r@ == seq![
                sql("UPDATE asset_faces SET last_seen_at = "),
                num(now),
                sql(" WHERE id = "),
                text(id@),
            ],
    {
        let mut q = Statement::new();
        q.sql("UPDATE asset_faces SET last_seen_at = ");
        q.num(now);
        q.sql(" WHERE id = ");
        q.text(id);
        proof {
            orders::read_confirm_face(q@, id@, now);
        }
        q
    }
}

} // verus!
