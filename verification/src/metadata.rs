//! Detailed EXIF facts about an asset, as stored in the database.

use vstd::prelude::*;

use crate::media::MediaId;
use crate::sql::meaning::{says};
use crate::sql::orders;
use crate::sql::{opt_num, opt_real32, opt_real64, opt_text, sql, text, PartData, Statement};

verus! {

/// A row of the `media_metadata` table. Fractional numbers are held by their
/// IEEE 754 bits.
#[derive(Debug)]
pub struct MediaMetadataRecord {
    pub media_id: MediaId,
    pub camera_make: Option<String>,
    pub camera_model: Option<String>,
    pub lens_model: Option<String>,
    /// Bits of a single-precision number.
    pub aperture: Option<u32>,
    pub shutter_str: Option<String>,
    pub iso: Option<u32>,
    /// Bits of a single-precision number.
    pub focal_length: Option<u32>,
    /// Bits of a double-precision number.
    pub gps_lat: Option<u64>,
    /// Bits of a double-precision number.
    pub gps_lon: Option<u64>,
    /// Bits of a double-precision number.
    pub gps_alt: Option<u64>,
    pub color_space: Option<String>,
}

impl MediaMetadataRecord {
    /// Whether at least one fact is known.
    pub open spec fn knows_something(self) -> bool {
        ||| self.camera_make is Some
        ||| self.camera_model is Some
        ||| self.lens_model is Some
        ||| self.aperture is Some
        ||| self.shutter_str is Some
        ||| self.iso is Some
        ||| self.focal_length is Some
        ||| self.gps_lat is Some
        ||| self.gps_lon is Some
        ||| self.gps_alt is Some
        ||| self.color_space is Some
    }

    /// Whether at least one fact is known. A record without any is not stored.
    pub fn has_data(&self) -> (r: bool)
        ensures
            r == self.knows_something(),
    {
        self.camera_make.is_some() || self.camera_model.is_some() || self.lens_model.is_some()
            || self.aperture.is_some() || self.shutter_str.is_some() || self.iso.is_some()
            || self.focal_length.is_some() || self.gps_lat.is_some() || self.gps_lon.is_some()
            || self.gps_alt.is_some() || self.color_space.is_some()
    }
}

/// A row as the metadata query returns it.
#[derive(Debug)]
pub struct MetadataRow {
    pub camera_make: Option<String>,
    pub camera_model: Option<String>,
    pub lens_model: Option<String>,
    pub aperture: Option<u32>,
    pub shutter_str: Option<String>,
    pub iso: Option<i64>,
    pub focal_length: Option<u32>,
    pub gps_lat: Option<u64>,
    pub gps_lon: Option<u64>,
    pub gps_alt: Option<u64>,
    pub color_space: Option<String>,
}

/// The number that the database keeps for an ISO value.
pub open spec fn iso_column(iso: Option<u32>) -> Option<i64> {
    match iso {
        Some(n) => Some(n as i64),
        None => None,
    }
}

/// The ISO value that the database's number stands for.
pub open spec fn iso_value(iso: Option<i64>) -> Option<u32> {
    match iso {
        Some(n) => Some(n as u32),
        None => None,
    }
}

/// The values that describe the camera, each followed by a comma.
pub open spec fn camera_values(r: MediaMetadataRecord) -> Seq<PartData> {
    seq![
        text(r.media_id@),
        sql(", "),
        opt_text(r.camera_make),
        sql(", "),
        opt_text(r.camera_model),
        sql(", "),
        opt_text(r.lens_model),
        sql(", "),
        opt_real32(r.aperture),
        sql(", "),
        opt_text(r.shutter_str),
        sql(", "),
    ]
}

/// The remaining values of a record, separated by commas.
pub open spec fn picture_values(r: MediaMetadataRecord) -> Seq<PartData> {
    seq![
        opt_num(iso_column(r.iso)),
        sql(", "),
        opt_real32(r.focal_length),
        sql(", "),
        opt_real64(r.gps_lat),
        sql(", "),
        opt_real64(r.gps_lon),
        sql(", "),
        opt_real64(r.gps_alt),
        sql(", "),
        opt_text(r.color_space),
    ]
}

/// The values of a record between the commas of a `VALUES` clause.
pub open spec fn metadata_values(r: MediaMetadataRecord) -> Seq<PartData> {
    camera_values(r) + picture_values(r)
}

fn camera_parts(r: &MediaMetadataRecord) -> (q: Statement)
    ensures
        q@ == camera_values(*r),
{
    let mut q = Statement::new();
    q.text(r.media_id.as_str());
    q.sql(", ");
    q.opt_text(&r.camera_make);
    q.sql(", ");
    q.opt_text(&r.camera_model);
    q.sql(", ");
    q.opt_text(&r.lens_model);
    q.sql(", ");
    q.opt_real32(r.aperture);
    q.sql(", ");
    q.opt_text(&r.shutter_str);
    q.sql(", ");
    q
}

fn picture_parts(r: &MediaMetadataRecord) -> (q: Statement)
    ensures
        q@ == picture_values(*r),
{
    let iso: Option<i64> = match r.iso {
        Some(n) => Some(n as i64),
        None => None,
    };
    let mut q = Statement::new();
    q.opt_num(iso);
    q.sql(", ");
    q.opt_real32(r.focal_length);
    q.sql(", ");
    q.opt_real64(r.gps_lat);
    q.sql(", ");
    q.opt_real64(r.gps_lon);
    q.sql(", ");
    q.opt_real64(r.gps_alt);
    q.sql(", ");
    q.opt_text(&r.color_space);
    q
}

fn metadata_value_parts(r: &MediaMetadataRecord) -> (q: Statement)
    ensures
        q@ == metadata_values(*r),
{
    let mut q = camera_parts(r);
    q.extend(picture_parts(r));
    q
}

/// Whether a row of an asset describes a record.
pub open spec fn describes(id: MediaId, row: MetadataRow, r: MediaMetadataRecord) -> bool {
    &&& r.media_id == id
    &&& r.camera_make == row.camera_make
    &&& r.camera_model == row.camera_model
    &&& r.lens_model == row.lens_model
    &&& r.aperture == row.aperture
    &&& r.shutter_str == row.shutter_str
    &&& r.iso == iso_value(row.iso)
    &&& r.focal_length == row.focal_length
    &&& r.gps_lat == row.gps_lat
    &&& r.gps_lon == row.gps_lon
    &&& r.gps_alt == row.gps_alt
    &&& r.color_space == row.color_space
}

/// The storing of the facts about an asset.
pub open spec fn details_insertion(record: MediaMetadataRecord) -> Seq<PartData> {
    seq![
        sql("INSERT INTO media_metadata (media_id, camera_make, camera_model, lens_model, aperture, shutter_str, iso, focal_length, gps_lat, gps_lon, gps_alt, color_space) VALUES ("),
    ] + metadata_values(
        record,
    ) + seq![
        sql(") ON CONFLICT(media_id) DO UPDATE SET camera_make = excluded.camera_make, camera_model = excluded.camera_model, lens_model = excluded.lens_model, aperture = excluded.aperture, shutter_str = excluded.shutter_str, iso = excluded.iso, focal_length = excluded.focal_length, gps_lat = excluded.gps_lat, gps_lon = excluded.gps_lon, gps_alt = excluded.gps_alt, color_space = excluded.color_space"),
    ]
}

/// The storing of facts that came from the server.
pub open spec fn details_upsertion(record: MediaMetadataRecord) -> Seq<PartData> {
    seq![
        sql("INSERT OR REPLACE INTO media_metadata (media_id, camera_make, camera_model, lens_model, aperture, shutter_str, iso, focal_length, gps_lat, gps_lon, gps_alt, color_space) VALUES ("),
    ] + metadata_values(record) + seq![sql(")")]
}

/// The queries on the `media_metadata` table.
pub struct MetadataRepository;

impl MetadataRepository {
    /// Asks for the facts about an asset.
    pub fn get(id: &MediaId) -> (r: Statement)
        ensures
            says(r@, orders::details(id@)),
            r@ == seq![
                sql(
                    "SELECT camera_make, camera_model, lens_model, aperture, shutter_str, iso, focal_length, gps_lat, gps_lon, gps_alt, color_space FROM media_metadata WHERE media_id = ",
                ),
                text(id@),
            ],
    {
        let mut q = Statement::new();
        q.sql(
            "SELECT camera_make, camera_model, lens_model, aperture, shutter_str, iso, focal_length, gps_lat, gps_lon, gps_alt, color_space FROM media_metadata WHERE media_id = ",
        );
        q.text(id.as_str());
        proof {
            orders::read_details(q@, id@);
        }
        q
    }

    /// The record that a row describes.
    pub fn from_row(id: &MediaId, row: MetadataRow) -> (r: MediaMetadataRecord)
        ensures
            describes(*id, row, r),
            r.media_id == *id,
            r.camera_make == row.camera_make,
            r.camera_model == row.camera_model,
            r.lens_model == row.lens_model,
            r.aperture == row.aperture,
            r.shutter_str == row.shutter_str,
            r.iso == iso_value(row.iso),
            r.focal_length == row.focal_length,
            r.gps_lat == row.gps_lat,
            r.gps_lon == row.gps_lon,
            r.gps_alt == row.gps_alt,
            r.color_space == row.color_space,
    {
        let iso: Option<u32> = match row.iso {
            Some(n) => Some(n as u32),
            None => None,
        };
        MediaMetadataRecord {
            media_id: id.clone(),
            camera_make: row.camera_make,
            camera_model: row.camera_model,
            lens_model: row.lens_model,
            aperture: row.aperture,
            shutter_str: row.shutter_str,
            iso,
            focal_length: row.focal_length,
            gps_lat: row.gps_lat,
            gps_lon: row.gps_lon,
            gps_alt: row.gps_alt,
            color_space: row.color_space,
        }
    }

    /// Stores the facts about an asset, refreshing those that were stored before.
    /// Nothing is stored where nothing is known.
    pub fn insert(record: &MediaMetadataRecord) -> (r: Option<Statement>)
        ensures
            r matches Some(q) ==> q@ == details_insertion(*record),
            r is Some <==> record.knows_something(),
            r matches Some(q) ==> q@ == seq![
                sql(
                    "INSERT INTO media_metadata (media_id, camera_make, camera_model, lens_model, aperture, shutter_str, iso, focal_length, gps_lat, gps_lon, gps_alt, color_space) VALUES (",
                ),
            ] + metadata_values(*record) + seq![
                sql(
                    ") ON CONFLICT(media_id) DO UPDATE SET camera_make = excluded.camera_make, camera_model = excluded.camera_model, lens_model = excluded.lens_model, aperture = excluded.aperture, shutter_str = excluded.shutter_str, iso = excluded.iso, focal_length = excluded.focal_length, gps_lat = excluded.gps_lat, gps_lon = excluded.gps_lon, gps_alt = excluded.gps_alt, color_space = excluded.color_space",
                ),
            ],
    {
        if !record.has_data() {
            return None;
        }
        let mut q = Statement::new();
        q.sql(
            "INSERT INTO media_metadata (media_id, camera_make, camera_model, lens_model, aperture, shutter_str, iso, focal_length, gps_lat, gps_lon, gps_alt, color_space) VALUES (",
        );
        q.extend(metadata_value_parts(record));
        q.sql(
            ") ON CONFLICT(media_id) DO UPDATE SET camera_make = excluded.camera_make, camera_model = excluded.camera_model, lens_model = excluded.lens_model, aperture = excluded.aperture, shutter_str = excluded.shutter_str, iso = excluded.iso, focal_length = excluded.focal_length, gps_lat = excluded.gps_lat, gps_lon = excluded.gps_lon, gps_alt = excluded.gps_alt, color_space = excluded.color_space",
        );
        Some(q)
    }

    /// Stores the facts about an asset that came from the server, replacing those
    /// that were stored before. Nothing is stored where nothing is known.
    pub fn upsert(record: &MediaMetadataRecord) -> (r: Option<Statement>)
        ensures
            r matches Some(q) ==> q@ == details_upsertion(*record),
            r is Some <==> record.knows_something(),
            r matches Some(q) ==> q@ == seq![
                sql(
                    "INSERT OR REPLACE INTO media_metadata (media_id, camera_make, camera_model, lens_model, aperture, shutter_str, iso, focal_length, gps_lat, gps_lon, gps_alt, color_space) VALUES (",
                ),
            ] + metadata_values(*record) + seq![sql(")")],
    {
        if !record.has_data() {
            return None;
        }
        let mut q = Statement::new();
        q.sql(
            "INSERT OR REPLACE INTO media_metadata (media_id, camera_make, camera_model, lens_model, aperture, shutter_str, iso, focal_length, gps_lat, gps_lon, gps_alt, color_space) VALUES (",
        );
        q.extend(metadata_value_parts(record));
        q.sql(")");
        Some(q)
    }
}

/// An ISO value comes back from the database as it went in.
pub proof fn iso_roundtrip(iso: Option<u32>)
    ensures
        iso_value(iso_column(iso)) == iso,
{
    if let Some(n) = iso {
        assert((n as i64) as u32 == n);
    }
}

} // verus!
