//! The events that the library and the application exchange.

use vstd::prelude::*;

use crate::album::AlbumId;
use crate::error::LibraryError;
use crate::import::ImportSummary;
use crate::media::{MediaId, MediaItem};

verus! {

/// Events on the application's bus: requests of the user, and what came of them.
#[derive(Debug)]
pub enum AppEvent {
    /// Something failed; the text is shown to the user.
    Error(String),
    // Requests.
    TrashRequested { ids: Vec<MediaId> },
    RestoreRequested { ids: Vec<MediaId> },
    DeleteRequested { ids: Vec<MediaId> },
    FavoriteRequested { ids: Vec<MediaId>, state: bool },
    RemoveFromAlbumRequested { album_id: AlbumId, ids: Vec<MediaId> },
    AddToAlbumRequested { album_id: AlbumId, ids: Vec<MediaId> },
    CreateAlbumRequested { name: String, ids: Vec<MediaId> },
    DeleteAlbumRequested { ids: Vec<AlbumId> },
    EmptyTrashRequested,
    RestoreAllTrashRequested,
    // Results.
    Trashed { ids: Vec<MediaId> },
    Restored { ids: Vec<MediaId> },
    Deleted { ids: Vec<MediaId> },
    FavoriteChanged { ids: Vec<MediaId>, is_favorite: bool },
    AlbumCreated { id: AlbumId, name: String },
    AlbumDeleted { id: AlbumId },
    AlbumMediaChanged { album_id: AlbumId },
    // Imports.
    ImportProgress { current: usize, total: usize, imported: usize, skipped: usize, failed: usize },
    ImportComplete { summary: ImportSummary },
    /// An asset arrived from the server.
    AssetSynced { item: MediaItem },
}

/// Events of a library backend.
#[derive(Debug)]
pub enum LibraryEvent {
    /// The library is open.
    Ready,
    /// The library is closed.
    ShutdownComplete,
    /// Something failed in the background.
    Error(LibraryError),
    AssetImported { media_id: MediaId, path: String },
    ImportProgress { current: usize, total: usize, imported: usize, skipped: usize, failed: usize },
    ImportComplete(ImportSummary),
    ThumbnailReady { media_id: MediaId },
    ThumbnailDownloadProgress { completed: usize, total: usize },
    ThumbnailDownloadsComplete { total: usize },
    AlbumCreated { id: AlbumId, name: String },
    AlbumRenamed { id: AlbumId, name: String },
    AlbumDeleted { id: AlbumId },
    AlbumMediaChanged { album_id: AlbumId },
    SyncStarted,
    SyncProgress { assets: usize, people: usize, faces: usize },
    SyncComplete { assets: usize, people: usize, faces: usize, errors: usize },
    AssetSynced { item: MediaItem },
    PeopleSyncComplete,
    AssetDeletedRemote { media_id: MediaId },
}

} // verus!
