//! Albums.

pub mod membership;
pub mod repository;
pub mod service;

use vstd::prelude::*;
use vstd::string::*;

use crate::ident::{fresh_hyphenated_uuid, is_hyphenated_uuid};
use crate::media::MediaId;

verus! {

/// Identity of an album.
#[derive(Debug, PartialEq, Eq, Hash)]
pub struct AlbumId(String);

impl View for AlbumId {
    type V = Seq<char>;

    closed spec fn view(&self) -> Seq<char> {
        self.0@
    }
}

impl Clone for AlbumId {
    fn clone(&self) -> (r: Self)
        ensures
            r == *self,
    {
        AlbumId(self.0.clone())
    }
}

impl AlbumId {
    /// A new random identity: a version 4 UUID in its hyphenated form.
    pub fn new() -> (r: Self)
        ensures
            is_hyphenated_uuid(r@),
    {
        AlbumId(fresh_hyphenated_uuid())
    }

    /// The text of the id.
    pub fn as_str(&self) -> (r: &str)
        ensures
            r@ == self@,
    {
        self.0.as_str()
    }

    /// Wraps an id that is already known.
    pub fn from_raw(s: String) -> (r: Self)
        ensures
            r@ == s@,
    {
        AlbumId(s)
    }

    /// The id as shown.
    pub fn to_string(&self) -> (r: String)
        ensures
            r@ == self@,
    {
        self.0.clone()
    }
}

/// An album with what is known of its contents.
#[derive(Debug, Clone)]
pub struct Album {
    pub id: AlbumId,
    pub name: String,
    pub created_at: i64,
    pub updated_at: i64,
    /// The number of media items in the album that are not in the trash.
    pub media_count: u32,
    /// The item added last that is not in the trash.
    pub cover_media_id: Option<MediaId>,
    /// Whether the album is pinned to the sidebar.
    pub is_pinned: bool,
}

/// A row as the album queries return it.
#[derive(Debug)]
pub struct AlbumRow {
    pub id: String,
    pub name: String,
    pub created_at: i64,
    pub updated_at: i64,
    pub media_count: i64,
    pub cover_media_id: Option<String>,
    pub is_pinned: bool,
}

/// Whether a row describes an album.
pub open spec fn describes(row: AlbumRow, a: Album) -> bool {
    &&& a.id@ == row.id@
    &&& a.name == row.name
    &&& a.created_at == row.created_at
    &&& a.updated_at == row.updated_at
    &&& a.media_count == row.media_count as u32
    &&& match row.cover_media_id {
        Some(cover) => a.cover_media_id matches Some(id) && id@ == cover@,
        None => a.cover_media_id is None,
    }
    &&& a.is_pinned == row.is_pinned
}

/// The album that a row describes.
pub fn album_from_row(row: AlbumRow) -> (r: Album)
    ensures
        describes(row, r),
        r.id@ == row.id@,
        r.name == row.name,
        r.created_at == row.created_at,
        r.updated_at == row.updated_at,
        r.media_count == row.media_count as u32,
        match row.cover_media_id {
            Some(cover) => r.cover_media_id matches Some(id) && id@ == cover@,
            None => r.cover_media_id is None,
        },
        r.is_pinned == row.is_pinned,
{
    let cover_media_id = match row.cover_media_id {
        Some(id) => Some(MediaId::new(id)),
        None => None,
    };
    Album {
        id: AlbumId::from_raw(row.id),
        name: row.name,
        created_at: row.created_at,
        updated_at: row.updated_at,
        media_count: row.media_count as u32,
        cover_media_id,
        is_pinned: row.is_pinned,
    }
}

/// Changes of albums, told to every subscriber.
#[derive(Debug)]
pub enum AlbumEvent {
    AlbumAdded(AlbumId),
    AlbumUpdated(AlbumId),
    AlbumRemoved(AlbumId),
    /// Media entered or left the album.
    AlbumMediaChanged(AlbumId),
}

} // verus!
