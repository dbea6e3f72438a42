//! Changes made here that the server has yet to learn of.

use vstd::prelude::*;

use crate::album::AlbumId;
use crate::faces::PersonId;
use crate::media::MediaId;

verus! {

/// A change for the outbox.
#[derive(Debug)]
pub enum Mutation {
    AssetImported { id: MediaId, file_path: String },
    AssetFavorited { ids: Vec<MediaId>, favorite: bool },
    AssetTrashed { ids: Vec<MediaId> },
    AssetRestored { ids: Vec<MediaId> },
    /// Deleted assets, with the server's id of each that has one.
    AssetDeleted { items: Vec<(MediaId, Option<String>)> },
    /// The edit state changed; its latest version is read when the change is sent.
    AssetEditsApplied { id: MediaId },
    AssetEditsCleared { id: MediaId },
    AssetTaggedMomentsEdit { id: MediaId },
    AssetUntaggedMomentsEdit { id: MediaId },
    StackCreated { rendered_asset_id: MediaId, original_asset_id: MediaId },
    StackMemberRemoved { stack_id: String, asset_id: MediaId },
    AlbumCreated { id: AlbumId, name: String },
    AlbumRenamed { id: AlbumId, name: String },
    AlbumDeleted { id: AlbumId, external_id: Option<String> },
    AlbumMediaAdded { album_id: AlbumId, media_ids: Vec<MediaId> },
    AlbumMediaRemoved { album_id: AlbumId, media_ids: Vec<MediaId> },
    PersonRenamed { id: PersonId, name: String },
    PersonHidden { id: PersonId, hidden: bool },
}

} // verus!
