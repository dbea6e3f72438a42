//! What follows from changes of albums: the events that subscribers get and the
//! mutations that go to the outbox.

use vstd::prelude::*;

use crate::album::{AlbumEvent, AlbumId};
use crate::media::{copy_ids, MediaId};
use crate::mutation::Mutation;

verus! {

/// Whether `events` tell that the media of an album changed: the album was updated, and
/// its membership in particular.
pub open spec fn tells_membership(events: Seq<AlbumEvent>, id: AlbumId) -> bool {
    events == seq![AlbumEvent::AlbumUpdated(id), AlbumEvent::AlbumMediaChanged(id)]
}

fn membership_events(id: &AlbumId) -> (r: Vec<AlbumEvent>)
    ensures
        tells_membership(r@, *id),
{
    let mut events: Vec<AlbumEvent> = Vec::new();
    events.push(AlbumEvent::AlbumUpdated(id.clone()));
    events.push(AlbumEvent::AlbumMediaChanged(id.clone()));
    assert(events@ =~= seq![AlbumEvent::AlbumUpdated(*id), AlbumEvent::AlbumMediaChanged(*id)]);
    events
}

/// Whether `event` is what is told when an album from the server was stored.
pub open spec fn tells_storing(event: AlbumEvent, id: AlbumId, existed: bool) -> bool {
    event == if existed {
        AlbumEvent::AlbumUpdated(id)
    } else {
        AlbumEvent::AlbumAdded(id)
    }
}

/// Whether `m` tells the server of a new album.
pub open spec fn reports_creation(m: Mutation, id: AlbumId, name: Seq<char>) -> bool {
    m matches Mutation::AlbumCreated { id: i, name: n } && i == id && n@ == name
}

/// Whether `m` tells the server of an album's new name.
pub open spec fn reports_renaming(m: Mutation, id: AlbumId, name: Seq<char>) -> bool {
    m matches Mutation::AlbumRenamed { id: i, name: n } && i == id && n@ == name
}

/// Whether `r` is what follows from the deletion of an album.
pub open spec fn follows_deletion(
    r: (AlbumEvent, Mutation),
    id: AlbumId,
    external_id: Option<String>,
) -> bool {
    r.0 == AlbumEvent::AlbumRemoved(id) && r.1 == (Mutation::AlbumDeleted { id, external_id })
}

/// Whether `m` tells the server of media that entered an album.
pub open spec fn reports_adding(m: Mutation, id: AlbumId, media: Seq<MediaId>) -> bool {
    m matches Mutation::AlbumMediaAdded { album_id, media_ids } && album_id == id && media_ids@
        == media
}

/// Whether `m` tells the server of media that left an album.
pub open spec fn reports_removing(m: Mutation, id: AlbumId, media: Seq<MediaId>) -> bool {
    m matches Mutation::AlbumMediaRemoved { album_id, media_ids } && album_id == id && media_ids@
        == media
}

/// The events and mutations of the album service.
pub struct AlbumService;

impl AlbumService {
    /// What is told when an album from the server was stored.
    pub fn upsert_album(id: AlbumId, existed: bool) -> (r: AlbumEvent)
        ensures
            tells_storing(r, id, existed),
            r == (if existed {
                AlbumEvent::AlbumUpdated(id)
            } else {
                AlbumEvent::AlbumAdded(id)
            }),
    {
        if existed {
            AlbumEvent::AlbumUpdated(id)
        } else {
            AlbumEvent::AlbumAdded(id)
        }
    }

    /// What the server is to learn of a new album.
    pub fn create_album(id: &AlbumId, name: &str) -> (r: Mutation)
        ensures
            reports_creation(r, *id, name@),
            r matches Mutation::AlbumCreated { id: i, name: n } && i == *id && n@ == name@,
    {
        Mutation::AlbumCreated { id: id.clone(), name: name.to_owned() }
    }

    /// What the server is to learn of a new name.
    pub fn rename_album(id: &AlbumId, name: &str) -> (r: Mutation)
        ensures
            reports_renaming(r, *id, name@),
            r matches Mutation::AlbumRenamed { id: i, name: n } && i == *id && n@ == name@,
    {
        Mutation::AlbumRenamed { id: id.clone(), name: name.to_owned() }
    }

    /// What follows from the deletion of an album, given the server's id of it as it was
    /// known before.
    pub fn delete_album(id: &AlbumId, external_id: Option<String>) -> (r: (AlbumEvent, Mutation))
        ensures
            follows_deletion(r, *id, external_id),
            r.0 == AlbumEvent::AlbumRemoved(*id),
            r.1 == (Mutation::AlbumDeleted { id: *id, external_id }),
    {
        (
            AlbumEvent::AlbumRemoved(id.clone()),
            Mutation::AlbumDeleted { id: id.clone(), external_id },
        )
    }

    /// What follows from adding media to an album.
    pub fn add_to_album(album_id: &AlbumId, media_ids: &Vec<MediaId>) -> (r: (
        Vec<AlbumEvent>,
        Mutation,
    ))
        ensures
            tells_membership(r.0@, *album_id),
            reports_adding(r.1, *album_id, media_ids@),
            r.1 matches Mutation::AlbumMediaAdded { album_id: a, media_ids: m } && a == *album_id
                && m@ == media_ids@,
    {
        (
            membership_events(album_id),
            Mutation::AlbumMediaAdded {
                album_id: album_id.clone(),
                media_ids: copy_ids(media_ids),
            },
        )
    }

    /// What follows from removing media from an album.
    pub fn remove_from_album(album_id: &AlbumId, media_ids: &Vec<MediaId>) -> (r: (
        Vec<AlbumEvent>,
        Mutation,
    ))
        ensures
            tells_membership(r.0@, *album_id),
            reports_removing(r.1, *album_id, media_ids@),
            r.1 matches Mutation::AlbumMediaRemoved { album_id: a, media_ids: m } && a == *album_id
                && m@ == media_ids@,
    {
        (
            membership_events(album_id),
            Mutation::AlbumMediaRemoved {
                album_id: album_id.clone(),
                media_ids: copy_ids(media_ids),
            },
        )
    }
}

} // verus!
