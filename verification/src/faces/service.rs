//! What follows from changes of people and faces: the events that subscribers get and
//! the mutations that go to the outbox.

use vstd::prelude::*;
use vstd::string::*;

use crate::faces::{AssetFaceRow, FacesEvent, PersonId};
use crate::mutation::Mutation;
use crate::path::{join_path, joined};

verus! {

/// The person whom a face counts for: nobody where the server hides or has deleted it.
pub open spec fn effective_person(face: AssetFaceRow) -> Option<String> {
    if face.is_visible && face.deleted_at is None {
        face.person_id
    } else {
        None
    }
}

/// The characters of an optional text.
pub open spec fn chars(s: Option<String>) -> Option<Seq<char>> {
    match s {
        Some(t) => Some(t@),
        None => None,
    }
}

/// Whether `event` tells that the media of the person with the given id changed.
pub open spec fn tells_media_changed(event: FacesEvent, person: Seq<char>) -> bool {
    event matches FacesEvent::PersonMediaChanged(p) && p@ == person
}

/// Whether `events` tell, in order, of each of the given people that their media changed.
pub open spec fn tell_media_changed(events: Seq<FacesEvent>, people: Seq<Seq<char>>) -> bool {
    &&& events.len() == people.len()
    &&& forall|i: int|
        0 <= i < events.len() ==> tells_media_changed(#[trigger] events[i], people[i])
}

/// The people whose media change when a face moves from one person to another: both, and
/// neither where it stays.
pub open spec fn affected(before: Option<Seq<char>>, after: Option<Seq<char>>) -> Seq<Seq<char>> {
    if before == after {
        Seq::empty()
    } else {
        (match before {
            Some(p) => seq![p],
            None => Seq::empty(),
        }) + (match after {
            Some(p) => seq![p],
            None => Seq::empty(),
        })
    }
}

/// Whether `event` is what is told when a person from the server was stored.
pub open spec fn tells_storing(event: FacesEvent, id: PersonId, existed: bool) -> bool {
    event == if existed {
        FacesEvent::PersonUpdated(id)
    } else {
        FacesEvent::PersonAdded(id)
    }
}

/// Whether `m` tells the server of a person's new name.
pub open spec fn reports_renaming(m: Mutation, id: PersonId, name: Seq<char>) -> bool {
    m matches Mutation::PersonRenamed { id: i, name: n } && i == id && n@ == name
}

/// Whether `m` tells the server that a person was hidden or shown.
pub open spec fn reports_hiding(m: Mutation, id: PersonId, hidden: bool) -> bool {
    m == (Mutation::PersonHidden { id, hidden })
}

/// Whether `event` tells that the person with the given id was removed.
pub open spec fn tells_removed(event: FacesEvent, person: Seq<char>) -> bool {
    event matches FacesEvent::PersonRemoved(p) && p@ == person
}

/// Whether `events` tell, in order, that each of the given people was removed.
pub open spec fn tell_removed(events: Seq<FacesEvent>, people: Seq<Seq<char>>) -> bool {
    &&& events.len() == people.len()
    &&& forall|i: int| 0 <= i < events.len() ==> tells_removed(#[trigger] events[i], people[i])
}

/// Whether `event` is what is told when a face of a person, if it was of any, was deleted.
pub open spec fn tells_face_gone(event: Option<FacesEvent>, person: Option<Seq<char>>) -> bool {
    match person {
        Some(p) => event matches Some(e) && tells_media_changed(e, p),
        None => event is None,
    }
}

/// The events and mutations of the faces service.
pub struct FacesService {
    pub thumbnails_dir: String,
}

impl FacesService {
    /// What is told when a person from the server was stored.
    pub fn upsert_person(id: PersonId, existed: bool) -> (r: FacesEvent)
        ensures
            tells_storing(r, id, existed),
            r == (if existed {
                FacesEvent::PersonUpdated(id)
            } else {
                FacesEvent::PersonAdded(id)
            }),
    {
        if existed {
            FacesEvent::PersonUpdated(id)
        } else {
            FacesEvent::PersonAdded(id)
        }
    }

    /// What is told when a face from the server was stored, given whom it counted for
    /// before: that the media of the old and of the new person changed, unless they are
    /// the same. A face that becomes hidden or deleted counts for nobody from then on.
    pub fn upsert_asset_face(previous: Option<String>, face: &AssetFaceRow) -> (r: Vec<FacesEvent>)
        ensures
            tell_media_changed(r@, affected(chars(previous), chars(effective_person(*face)))),
    {
        let current: Option<String> = if face.is_visible && face.deleted_at.is_none() {
            match &face.person_id {
                Some(p) => Some(p.clone()),
                None => None,
            }
        } else {
            None
        };
        let mut events: Vec<FacesEvent> = Vec::new();
        let same = match (&previous, &current) {
            (Some(a), Some(b)) => *a == *b,
            (None, None) => true,
            _ => false,
        };
        if same {
            return events;
        }
        if let Some(p) = previous {
            events.push(FacesEvent::PersonMediaChanged(PersonId::from_raw(p)));
        }
        if let Some(p) = current {
            events.push(FacesEvent::PersonMediaChanged(PersonId::from_raw(p)));
        }
        events
    }

    /// What is told when a person was deleted.
    pub fn delete_person_by_id(id: &str) -> (r: FacesEvent)
        ensures
            tells_removed(r, id@),
            r matches FacesEvent::PersonRemoved(p) && p@ == id@,
    {
        FacesEvent::PersonRemoved(PersonId::from_raw(id.to_owned()))
    }

    /// What is told when a face was deleted, given the person that it was of.
    pub fn delete_asset_face(person: Option<String>) -> (r: Option<FacesEvent>)
        ensures
            tells_face_gone(r, chars(person)),
            match person {
                Some(p) => r matches Some(e) && tells_media_changed(e, p@),
                None => r is None,
            },
    {
        match person {
            Some(p) => Some(FacesEvent::PersonMediaChanged(PersonId::from_raw(p))),
            None => None,
        }
    }

    /// What is told when people were deleted because the server has forgotten them: each
    /// of them, in order.
    pub fn people_removed(ids: &Vec<String>) -> (r: Vec<FacesEvent>)
        ensures
            tell_removed(r@, ids@.map_values(|s: String| s@)),
            r@.len() == ids@.len(),
            forall|i: int|
                0 <= i < r@.len() ==> (#[trigger] r@[i] matches FacesEvent::PersonRemoved(p) && p@
                    == ids@[i]@),
    {
        let mut events: Vec<FacesEvent> = Vec::new();
        let n: usize = ids.len();
        let mut i: usize = 0;
        while i < n
            invariant
                i <= n,
                n == ids@.len(),
                events@.len() == i,
                forall|j: int|
                    0 <= j < i ==> (#[trigger] events@[j] matches FacesEvent::PersonRemoved(p) && p@
                        == ids@[j]@),
            decreases n - i,
        {
            events.push(FacesEvent::PersonRemoved(PersonId::from_raw(ids[i].clone())));
            i += 1;
        }
        events
    }

    /// What the server is to learn of a new name.
    pub fn rename_person(id: &PersonId, name: &str) -> (r: Mutation)
        ensures
            reports_renaming(r, *id, name@),
            r matches Mutation::PersonRenamed { id: i, name: n } && i == *id && n@ == name@,
    {
        Mutation::PersonRenamed { id: id.clone(), name: name.to_owned() }
    }

    /// What the server is to learn of a hidden or shown person.
    pub fn set_person_hidden(id: &PersonId, hidden: bool) -> (r: Mutation)
        ensures
            reports_hiding(r, *id, hidden),
            r == (Mutation::PersonHidden { id: *id, hidden }),
    {
        Mutation::PersonHidden { id: id.clone(), hidden }
    }

    /// Where the thumbnail of a person's face lies, if there is one.
    pub open spec fn thumbnail_of(dir: Seq<char>, id: Seq<char>) -> Seq<char> {
        joined(joined(dir, "people"@), id + ".jpg"@)
    }

    /// Where the thumbnail of a person's face is to be looked for.
    pub fn person_thumbnail_path(&self, id: &PersonId) -> (r: String)
        ensures
            r@ == Self::thumbnail_of(self.thumbnails_dir@, id@),
    {
        let dir = join_path(self.thumbnails_dir.as_str(), "people");
        let mut name = id.to_string();
        name.append(".jpg");
        join_path(dir.as_str(), name.as_str())
    }
}

// ── Laws ─────────────────────────────────────────────────────────────────────

/// Storing a face that counts for the same person as before tells nobody; a face that
/// moves tells the person it left first and the person it came to second, at most two in
/// all.
pub proof fn moved_faces_tell_both(before: Option<Seq<char>>, after: Option<Seq<char>>)
    ensures
        before == after ==> affected(before, after).len() == 0,
        before != after && before is Some && after is Some ==> affected(before, after) == seq![
            before->0,
            after->0,
        ],
        before != after && before is Some && after is None ==> affected(before, after) == seq![
            before->0,
        ],
        before is None && after is Some ==> affected(before, after) == seq![after->0],
{
    if before is Some && after is Some && before != after {
        assert(affected(before, after) =~= seq![before->0, after->0]);
    }
    if before is Some && after is None {
        assert(affected(before, after) =~= seq![before->0]);
    }
    if before is None && after is Some {
        assert(affected(before, after) =~= seq![after->0]);
    }
}

} // verus!
