//! What is read from the database is what was stored there.

use vstd::prelude::*;

use crate::album::{Album, AlbumRow};
use crate::faces::{Person, PersonRow};
use crate::media::repository::{duration_column, sums_up, LibraryStats};
use crate::media::{MediaId, MediaItem, MediaRecord, MediaRow, MediaType};
use crate::metadata::{iso_column, iso_roundtrip, MediaMetadataRecord, MetadataRow};

verus! {

/// The number that a flag is stored as.
pub open spec fn flag_number(b: bool) -> i64 {
    if b {
        1
    } else {
        0
    }
}

/// Whether a row holds what was recorded of an asset, column by column.
pub open spec fn holds_record(row: MediaRow, r: MediaRecord) -> bool {
    &&& row.id@ == r.id@
    &&& row.taken_at == r.taken_at
    &&& row.imported_at == r.imported_at
    &&& row.original_filename == r.original_filename
    &&& row.width == r.width
    &&& row.height == r.height
    &&& row.orientation == r.orientation as i64
    &&& row.media_type == r.media_type.number()
    &&& row.is_favorite == flag_number(r.is_favorite)
    &&& row.is_trashed == flag_number(r.is_trashed)
    &&& row.trashed_at == r.trashed_at
    &&& row.duration_ms == duration_column(r.duration_ms)
    &&& row.is_moments_render == flag_number(r.is_moments_render)
}

/// An item that is read shows what was recorded: the same kind, times, size, name, flags and
/// duration.
pub proof fn items_show_what_was_recorded(row: MediaRow, r: MediaRecord, item: MediaItem)
    requires
        holds_record(row, r),
        crate::media::describes(row, item),
    ensures
        item.id@ == r.id@,
        item.taken_at == r.taken_at,
        item.imported_at == r.imported_at,
        item.original_filename == r.original_filename,
        item.width == r.width,
        item.height == r.height,
        item.orientation == r.orientation,
        item.media_type == r.media_type,
        item.is_favorite == r.is_favorite,
        item.is_trashed == r.is_trashed,
        item.trashed_at == r.trashed_at,
        item.duration_ms == r.duration_ms,
        item.stack_id == row.stack_id,
        item.is_moments_render == r.is_moments_render,
{
    let o = r.orientation;
    assert((o as i64) as u8 == o);
    if let Some(ms) = r.duration_ms {
        assert((ms as i64) as u64 == ms) by (bit_vector);
    }
}

/// An image is stored as 0 and a video as 1.
pub proof fn kinds_have_their_numbers()
    ensures
        MediaType::Image.number() == 0,
        MediaType::Video.number() == 1,
{
}

/// Of a flag, every number but 0 means that it is set; of a kind, every number but 1 means an
/// image.
pub proof fn odd_numbers_have_a_meaning(row: MediaRow, item: MediaItem)
    requires
        crate::media::describes(row, item),
    ensures
        item.is_favorite <==> row.is_favorite != 0,
        item.is_trashed <==> row.is_trashed != 0,
        item.is_moments_render <==> row.is_moments_render != 0,
        item.media_type is Video <==> row.media_type == 1,
{
}

/// An album that is read is the one in the row, with its own name and times, the number of
/// its items, and its cover where it has one.
pub proof fn albums_are_read_as_stored(row: AlbumRow, a: Album)
    requires
        crate::album::describes(row, a),
    ensures
        a.id@ == row.id@,
        a.name@ == row.name@,
        a.created_at == row.created_at,
        a.updated_at == row.updated_at,
        0 <= row.media_count <= u32::MAX ==> a.media_count == row.media_count,
        a.cover_media_id is Some <==> row.cover_media_id is Some,
        a.cover_media_id is Some ==> a.cover_media_id->0@ == row.cover_media_id->0@,
        a.is_pinned <==> row.is_pinned,
{
}

/// A person who is read is the one in the row, with their own name and number of faces.
pub proof fn people_are_read_as_stored(row: PersonRow, p: Person)
    requires
        crate::faces::describes(row, p),
    ensures
        p.id@ == row.id@,
        p.name@ == row.name@,
        0 <= row.face_count <= u32::MAX ==> p.face_count == row.face_count,
        p.is_hidden <==> row.is_hidden,
{
}

/// Whether a row holds what was recorded of the details of an asset, column by column.
pub open spec fn holds_details(row: MetadataRow, r: MediaMetadataRecord) -> bool {
    &&& row.camera_make == r.camera_make
    &&& row.camera_model == r.camera_model
    &&& row.lens_model == r.lens_model
    &&& row.aperture == r.aperture
    &&& row.shutter_str == r.shutter_str
    &&& row.iso == iso_column(r.iso)
    &&& row.focal_length == r.focal_length
    &&& row.gps_lat == r.gps_lat
    &&& row.gps_lon == r.gps_lon
    &&& row.gps_alt == r.gps_alt
    &&& row.color_space == r.color_space
}

/// The details that are read of an asset are those that were recorded of it.
pub proof fn details_are_read_as_recorded(
    id: MediaId,
    row: MetadataRow,
    stored: MediaMetadataRecord,
    read: MediaMetadataRecord,
)
    requires
        holds_details(row, stored),
        stored.media_id == id,
        crate::metadata::describes(id, row, read),
    ensures
        read == stored,
{
    iso_roundtrip(stored.iso);
}

/// Details are worth storing as soon as one of them is known.
pub proof fn one_detail_is_enough(r: MediaMetadataRecord)
    ensures
        r.camera_make is Some || r.camera_model is Some || r.lens_model is Some ==> r.knows_something(),
        r.aperture is Some || r.shutter_str is Some || r.iso is Some || r.focal_length is Some
            ==> r.knows_something(),
        r.gps_lat is Some || r.gps_lon is Some || r.gps_alt is Some ==> r.knows_something(),
        r.color_space is Some ==> r.knows_something(),
        r.knows_something() ==> !(r.camera_make is None && r.camera_model is None
            && r.lens_model is None && r.aperture is None && r.shutter_str is None && r.iso is None
            && r.focal_length is None && r.gps_lat is None && r.gps_lon is None && r.gps_alt is None
            && r.color_space is None),
{
}

/// The statistics show each count as it was asked for: photos and videos apart, the trash
/// apart from both, then albums and people. Nothing is claimed of caches and servers.
pub proof fn statistics_show_the_counts(
    s: LibraryStats,
    photos: i64,
    videos: i64,
    bytes: i64,
    trashed: i64,
    albums: i64,
    people: i64,
)
    requires
        sums_up(s, (photos, videos, bytes, trashed), albums, people),
        photos >= 0 && videos >= 0 && bytes >= 0 && trashed >= 0 && albums >= 0 && people >= 0,
    ensures
        s.photo_count == photos,
        s.video_count == videos,
        s.total_file_size == bytes,
        s.trashed_count == trashed,
        s.album_count == albums,
        s.people_count == people,
        s.cache_used_bytes == 0,
        s.server is None,
{
}

} // verus!
