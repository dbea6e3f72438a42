//! Media assets: their identity, the records that describe them, and the views
//! that the grid shows.

pub mod flow;
pub mod paging;
pub mod repository;
pub mod service;
pub mod stacks;

use vstd::prelude::*;
use vstd::string::*;

use crate::album::AlbumId;
use crate::faces::PersonId;
use crate::ident::{fresh_simple_uuid, is_hex_digit, is_simple_uuid};

verus! {

// ── Identity ─────────────────────────────────────────────────────────────────

/// Opaque identity of a media asset.
///
/// A random UUID without hyphens for assets created here, a content hash for
/// assets that are identified by their bytes, or whatever the database or the
/// server calls the asset.
#[derive(Debug, PartialEq, Eq, Hash)]
pub struct MediaId(String);

impl View for MediaId {
    type V = Seq<char>;

    closed spec fn view(&self) -> Seq<char> {
        self.0@
    }
}

impl Clone for MediaId {
    fn clone(&self) -> (r: Self)
        ensures
            r == *self,
    {
        MediaId(self.0.clone())
    }
}

impl MediaId {
    /// A new random identity: a version 4 UUID as 32 hexadecimal digits.
    pub fn generate() -> (r: Self)
        ensures
            is_simple_uuid(r@),
    {
        MediaId(fresh_simple_uuid())
    }

    /// Wraps an id that is already known.
    pub fn new(id: String) -> (r: Self)
        ensures
            r@ == id@,
    {
        MediaId(id)
    }

    /// The text of the id.
    pub fn as_str(&self) -> (r: &str)
        ensures
            r@ == self@,
    {
        self.0.as_str()
    }

    /// The id as shown.
    pub fn to_string(&self) -> (r: String)
        ensures
            r@ == self@,
    {
        self.0.clone()
    }

    /// Whether two ids are the same.
    pub fn same(&self, other: &MediaId) -> (r: bool)
        ensures
            r == (self@ == other@),
    {
        self.0 == other.0
    }
}

/// A copy of a list of ids.
pub fn copy_ids(ids: &Vec<MediaId>) -> (r: Vec<MediaId>)
    ensures
        r@ == ids@,
{
    let mut out: Vec<MediaId> = Vec::new();
    let n: usize = ids.len();
    let mut i: usize = 0;
    while i < n
        invariant
            i <= n,
            n == ids@.len(),
            out@ == ids@.take(i as int),
        decreases n - i,
    {
        out.push(ids[i].clone());
        i += 1;
        assert(ids@.take(i as int) =~= ids@.take(i - 1).push(ids@[i - 1]));
    }
    assert(ids@.take(n as int) =~= ids@);
    out
}

/// The list that holds one id.
pub fn one_id(id: &MediaId) -> (r: Vec<MediaId>)
    ensures
        r@ == seq![*id],
{
    let mut out: Vec<MediaId> = Vec::new();
    out.push(id.clone());
    assert(out@ =~= seq![*id]);
    out
}

// ── Content hashes ───────────────────────────────────────────────────────────

/// `blake3::Hasher`: a running hash of the bytes fed to it.
#[verifier::external_type_specification]
#[verifier::external_body]
pub struct ExHasher(blake3::Hasher);

/// The bytes that a `blake3::Hasher` has been fed.
pub uninterp spec fn hashed_bytes(hasher: blake3::Hasher) -> Seq<u8>;

/// The BLAKE3 hash of some bytes, as lower-case hexadecimal digits.
pub uninterp spec fn blake3_hex(bytes: Seq<u8>) -> Seq<char>;

/// Calls `blake3::Hasher::new`, whose hasher has been fed nothing.
#[verifier::external_body]
fn new_hasher() -> (r: blake3::Hasher)
    ensures
        hashed_bytes(r) == Seq::<u8>::empty(),
{
    blake3::Hasher::new()
}

/// Calls `blake3::Hasher::update`, which feeds the bytes to the hasher after
/// those that it has been fed before.
#[verifier::external_body]
fn feed_hasher(hasher: &mut blake3::Hasher, bytes: &[u8])
    ensures
        hashed_bytes(*final(hasher)) == hashed_bytes(*old(hasher)) + bytes@,
{
    hasher.update(bytes);
}

/// Calls `blake3::Hasher::finalize` and writes the hash in hexadecimal. The
/// claim is that it depends on the bytes alone, however they were cut when they
/// were fed, and that its 32 bytes make 64 lower-case digits.
#[verifier::external_body]
fn hasher_hex(hasher: &blake3::Hasher) -> (r: String)
    ensures
        r@ == blake3_hex(hashed_bytes(*hasher)),
        r@.len() == 64,
        forall|i: int| 0 <= i < 64 ==> is_hex_digit(#[trigger] r@[i]),
{
    hasher.finalize().to_hex().to_string()
}

/// Identifies an asset by its content while the content is read piece by piece,
/// so that a large file is never held in memory.
pub struct ContentHasher {
    hasher: blake3::Hasher,
}

impl View for ContentHasher {
    type V = Seq<u8>;

    closed spec fn view(&self) -> Seq<u8> {
        hashed_bytes(self.hasher)
    }
}

impl ContentHasher {
    /// Starts with no content.
    pub fn new() -> (r: Self)
        ensures
            r@ == Seq::<u8>::empty(),
    {
        ContentHasher { hasher: new_hasher() }
    }

    /// Takes the next piece of the content.
    pub fn update(&mut self, bytes: &[u8])
        ensures
            final(self)@ == old(self)@ + bytes@,
    {
        feed_hasher(&mut self.hasher, bytes);
    }

    /// The identity of an asset with the content read so far: 64 hexadecimal
    /// digits that depend on the content alone.
    pub fn media_id(&self) -> (r: MediaId)
        ensures
            r@ == blake3_hex(self@),
            r@.len() == 64,
            forall|i: int| 0 <= i < 64 ==> is_hex_digit(#[trigger] r@[i]),
    {
        MediaId(hasher_hex(&self.hasher))
    }
}

// ── Records ──────────────────────────────────────────────────────────────────

/// The kind of an asset.
#[derive(Debug, Clone, Copy, PartialEq, Eq, Structural)]
pub enum MediaType {
    Image,
    Video,
}

impl MediaType {
    /// The number that stands for the kind in the database.
    pub open spec fn number(self) -> i64 {
        match self {
            MediaType::Image => 0,
            MediaType::Video => 1,
        }
    }

    /// The number that stands for the kind in the database.
    pub fn code(self) -> (r: i64)
        ensures
            r == self.number(),
    {
        match self {
            MediaType::Image => 0,
            MediaType::Video => 1,
        }
    }

    /// The kind that a number in the database stands for; every number but that
    /// of a video stands for an image.
    pub fn from_code(code: i64) -> (r: MediaType)
        ensures
            r == (if code == 1 {
                MediaType::Video
            } else {
                MediaType::Image
            }),
    {
        if code == 1 {
            MediaType::Video
        } else {
            MediaType::Image
        }
    }
}

/// What the photo grid needs to show one asset.
#[derive(Debug, Clone)]
pub struct MediaItem {
    pub id: MediaId,
    /// Capture time as the camera's wall clock, in seconds since 1970.
    pub taken_at: Option<i64>,
    pub imported_at: i64,
    pub original_filename: String,
    pub width: Option<i64>,
    pub height: Option<i64>,
    /// EXIF orientation (1 to 8).
    pub orientation: u8,
    pub media_type: MediaType,
    pub is_favorite: bool,
    pub is_trashed: bool,
    pub trashed_at: Option<i64>,
    /// Only videos have a duration.
    pub duration_ms: Option<u64>,
    /// The stack that the asset belongs to, its primary included. One row stands for a stack
    /// in every view; see [`stacks`].
    pub stack_id: Option<String>,
    /// Whether the asset is a rendered edit of another asset. In the views it gives way to its
    /// original, where that is shown.
    pub is_moments_render: bool,
}

/// A stack of related assets on the server, shown as its primary alone.
#[derive(Debug, Clone, PartialEq, Eq)]
pub struct Stack {
    pub id: String,
    pub primary_asset_id: MediaId,
}

/// Where a page of a listing ended.
#[derive(Debug, Clone)]
pub struct MediaCursor {
    /// The sort key of the last item seen.
    pub sort_key: i64,
    /// The id of the last item seen, which breaks ties.
    pub id: MediaId,
}

/// A row of the `media` table.
#[derive(Debug, Clone)]
pub struct MediaRecord {
    pub id: MediaId,
    /// Hash of the content, for finding duplicates; not the identity.
    pub content_hash: Option<String>,
    /// The server's id of the asset, once it has one.
    pub external_id: Option<String>,
    /// Path below the bundle's `originals/` directory, or the absolute path of a
    /// file that stays where it is.
    pub relative_path: String,
    pub original_filename: String,
    pub file_size: i64,
    pub imported_at: i64,
    pub media_type: MediaType,
    /// Capture time as the camera's wall clock, in seconds since 1970.
    pub taken_at: Option<i64>,
    pub width: Option<i64>,
    pub height: Option<i64>,
    /// EXIF orientation (1 to 8); 1 where it is not known.
    pub orientation: u8,
    pub duration_ms: Option<u64>,
    pub is_favorite: bool,
    pub is_trashed: bool,
    pub trashed_at: Option<i64>,
    /// Whether the asset is a rendered edit of another asset.
    pub is_moments_render: bool,
}

/// A row as the listing queries return it.
#[derive(Debug)]
pub struct MediaRow {
    pub id: String,
    pub taken_at: Option<i64>,
    pub imported_at: i64,
    pub original_filename: String,
    pub width: Option<i64>,
    pub height: Option<i64>,
    pub orientation: i64,
    pub media_type: i64,
    pub is_favorite: i64,
    pub is_trashed: i64,
    pub trashed_at: Option<i64>,
    pub duration_ms: Option<i64>,
    pub stack_id: Option<String>,
    pub is_moments_render: i64,
}

/// Whether a row describes an item.
pub open spec fn describes(row: MediaRow, item: MediaItem) -> bool {
    &&& item.id@ == row.id@
    &&& item.taken_at == row.taken_at
    &&& item.imported_at == row.imported_at
    &&& item.original_filename == row.original_filename
    &&& item.width == row.width
    &&& item.height == row.height
    &&& item.orientation == row.orientation as u8
    &&& item.media_type == (if row.media_type == 1 {
        MediaType::Video
    } else {
        MediaType::Image
    })
    &&& item.is_favorite == (row.is_favorite != 0)
    &&& item.is_trashed == (row.is_trashed != 0)
    &&& item.trashed_at == row.trashed_at
    &&& item.duration_ms == (match row.duration_ms {
        Some(d) => Some(d as u64),
        None => None,
    })
    &&& item.stack_id == row.stack_id
    &&& item.is_moments_render == (row.is_moments_render != 0)
}

impl MediaRow {
    /// The item that the row describes.
    pub fn into_item(self) -> (r: MediaItem)
        ensures
            describes(self, r),
            r.id@ == self.id@,
            r.taken_at == self.taken_at,
            r.imported_at == self.imported_at,
            r.original_filename == self.original_filename,
            r.width == self.width,
            r.height == self.height,
            r.orientation == self.orientation as u8,
            r.media_type == (if self.media_type == 1 {
                MediaType::Video
            } else {
                MediaType::Image
            }),
            r.is_favorite == (self.is_favorite != 0),
            r.is_trashed == (self.is_trashed != 0),
            r.trashed_at == self.trashed_at,
            r.duration_ms == (match self.duration_ms {
                Some(d) => Some(d as u64),
                None => None,
            }),
            r.stack_id == self.stack_id,
            r.is_moments_render == (self.is_moments_render != 0),
    {
        let duration_ms: Option<u64> = match self.duration_ms {
            Some(d) => Some(d as u64),
            None => None,
        };
        MediaItem {
            id: MediaId::new(self.id),
            taken_at: self.taken_at,
            imported_at: self.imported_at,
            original_filename: self.original_filename,
            width: self.width,
            height: self.height,
            orientation: self.orientation as u8,
            media_type: MediaType::from_code(self.media_type),
            is_favorite: self.is_favorite != 0,
            is_trashed: self.is_trashed != 0,
            trashed_at: self.trashed_at,
            duration_ms,
            stack_id: self.stack_id,
            is_moments_render: self.is_moments_render != 0,
        }
    }
}

// ── Views ────────────────────────────────────────────────────────────────────

/// The views in which media can be listed.
#[derive(Debug, Clone, PartialEq, Eq)]
pub enum MediaFilter {
    /// Everything outside the trash.
    All,
    /// Favourites outside the trash.
    Favorites,
    /// The trash.
    Trashed,
    /// Items outside the trash imported after `since`, latest import first.
    RecentImports { since: i64 },
    /// The items of an album outside the trash.
    Album { album_id: AlbumId },
    /// Items outside the trash that show a person's face.
    Person { person_id: PersonId },
}

impl MediaFilter {
    /// Whether the view holds the item, as far as the item alone can tell.
    pub open spec fn holds(self, item: MediaItem) -> bool {
        match self {
            MediaFilter::All => !item.is_trashed,
            MediaFilter::Favorites => item.is_favorite && !item.is_trashed,
            MediaFilter::Trashed => item.is_trashed,
            MediaFilter::RecentImports { since } => !item.is_trashed && item.imported_at > since,
            MediaFilter::Album { .. } => false,
            MediaFilter::Person { .. } => false,
        }
    }

    /// Whether membership can be decided from an item alone.
    pub open spec fn decidable(self) -> bool {
        !(self is Album) && !(self is Person)
    }

    /// Whether the view holds the item. The views of an album or a person, which
    /// only the database can decide, answer `false`.
    pub fn matches(&self, item: &MediaItem) -> (r: bool)
        ensures
            r == self.holds(*item),
    {
        match self {
            MediaFilter::All => !item.is_trashed,
            MediaFilter::Favorites => item.is_favorite && !item.is_trashed,
            MediaFilter::Trashed => item.is_trashed,
            MediaFilter::RecentImports { since } => !item.is_trashed && item.imported_at > *since,
            MediaFilter::Album { .. } => false,
            MediaFilter::Person { .. } => false,
        }
    }

    /// Whether [`MediaFilter::matches`] decides membership without the database.
    pub fn supports_inline_match(&self) -> (r: bool)
        ensures
            r == self.decidable(),
    {
        match self {
            MediaFilter::Album { .. } => false,
            MediaFilter::Person { .. } => false,
            _ => true,
        }
    }
}

/// The trash and the library share no item, and together hold every item; no
/// view but the trash holds a trashed item.
pub proof fn trash_is_apart(filter: MediaFilter, item: MediaItem)
    ensures
        MediaFilter::All.holds(item) != MediaFilter::Trashed.holds(item),
        filter !is Trashed && filter.holds(item) ==> MediaFilter::All.holds(item),
        !filter.decidable() ==> !filter.holds(item),
{
}

/// Changes of media rows, told to every subscriber. Each carries a list of ids,
/// so that a batch makes one event.
#[derive(Debug)]
pub enum MediaEvent {
    /// Rows were inserted.
    Added(Vec<MediaId>),
    /// Rows changed, and may have entered or left a view.
    Updated(Vec<MediaId>),
    /// Rows were deleted for good.
    Removed(Vec<MediaId>),
    /// A row was exchanged for one with another id.
    Replaced { old: MediaId, new: MediaId },
}

} // verus!
