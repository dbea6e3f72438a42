//! What follows from changes of media rows: the events that subscribers get and the
//! mutations that go to the outbox.

use vstd::prelude::*;

use crate::config::LocalStorageMode;
use crate::media::{copy_ids, one_id, MediaEvent, MediaId, MediaRecord};
use crate::mutation::Mutation;
use crate::path::{join_path, joined};
use crate::text::text_eq;

verus! {

/// Whether an event is an update of exactly the given rows.
pub open spec fn updates(event: MediaEvent, ids: Seq<MediaId>) -> bool {
    event matches MediaEvent::Updated(v) && v@ == ids
}

/// The path of an original: below `originals/` where originals are managed, else the
/// recorded path itself.
pub open spec fn original_path_of(
    mode: LocalStorageMode,
    originals: Seq<char>,
    recorded: Seq<char>,
) -> Seq<char> {
    match mode {
        LocalStorageMode::Managed => joined(originals, recorded),
        LocalStorageMode::Referenced => recorded,
    }
}

/// Whether `r` is what follows from a change of the favourite flag.
pub open spec fn follows_favorite(
    r: (MediaEvent, Mutation),
    ids: Seq<MediaId>,
    favorite: bool,
) -> bool {
    updates(r.0, ids) && (r.1 matches Mutation::AssetFavorited { ids: v, favorite: f } && v@ == ids
        && f == favorite)
}

/// Whether `r` is what follows from moving assets to the trash.
pub open spec fn follows_trash(r: (MediaEvent, Mutation), ids: Seq<MediaId>) -> bool {
    updates(r.0, ids) && (r.1 matches Mutation::AssetTrashed { ids: v } && v@ == ids)
}

/// Whether `r` is what follows from taking assets out of the trash.
pub open spec fn follows_restore(r: (MediaEvent, Mutation), ids: Seq<MediaId>) -> bool {
    updates(r.0, ids) && (r.1 matches Mutation::AssetRestored { ids: v } && v@ == ids)
}

/// Whether `r` is what follows from the insertion of an imported asset.
pub open spec fn follows_import(
    r: (MediaEvent, Mutation),
    record: MediaRecord,
    mode: LocalStorageMode,
    originals: Seq<char>,
) -> bool {
    (r.0 matches MediaEvent::Added(v) && v@ == seq![record.id]) && (r.1 matches
        Mutation::AssetImported { id, file_path } && id == record.id && file_path@
        == original_path_of(mode, originals, record.relative_path@))
}

/// Whether `event` is what is told when a row from the server was stored.
pub open spec fn tells_storing(
    event: MediaEvent,
    id: MediaId,
    existed: bool,
    replaced: Option<MediaId>,
) -> bool {
    match replaced {
        Some(old) => event == (MediaEvent::Replaced { old, new: id }),
        None => if existed {
            updates(event, seq![id])
        } else {
            event matches MediaEvent::Added(v) && v@ == seq![id]
        },
    }
}

/// Whether `r` is what a deletion is reported as: each asset with the server's id of it.
pub open spec fn reports_deletion(
    m: Mutation,
    ids: Seq<MediaId>,
    known: Seq<(String, String)>,
) -> bool {
    m matches Mutation::AssetDeleted { items } && items@ == ids.map_values(
        |id: MediaId| (id, MediaService::server_id(known, id@)),
    )
}

/// Whether `r` tells of the rows that changed, and of nothing where none did.
pub open spec fn tells_if_any(r: Option<MediaEvent>, changed: Seq<MediaId>) -> bool {
    if changed.len() == 0 {
        r is None
    } else {
        r matches Some(e) && updates(e, changed)
    }
}

/// The events and mutations of the media service.
pub struct MediaService {
    pub originals_dir: String,
    pub mode: LocalStorageMode,
}

impl MediaService {
    /// The path of the original with the given recorded path.
    pub fn file_path(&self, recorded: &str) -> (r: String)
        ensures
            r@ == original_path_of(self.mode, self.originals_dir@, recorded@),
    {
        match self.mode {
            LocalStorageMode::Managed => join_path(self.originals_dir.as_str(), recorded),
            LocalStorageMode::Referenced => recorded.to_owned(),
        }
    }

    /// The files to delete along with assets: the managed originals of those whose
    /// recorded path was found. Referenced originals belong to the user and stay.
    pub open spec fn doomed_files(
        mode: LocalStorageMode,
        originals: Seq<char>,
        found: Seq<(MediaId, Option<String>)>,
    ) -> Seq<(MediaId, Seq<char>)>
        decreases found.len(),
    {
        if found.len() == 0 || mode is Referenced {
            Seq::empty()
        } else {
            let rest = Self::doomed_files(mode, originals, found.drop_last());
            match found.last().1 {
                Some(rel) => rest.push((found.last().0, joined(originals, rel@))),
                None => rest,
            }
        }
    }

    /// The original files of assets that are about to be deleted, given the recorded
    /// path of each as far as it was found.
    pub fn collect_original_paths(&self, found: &Vec<(MediaId, Option<String>)>) -> (r: Vec<
        (MediaId, String),
    >)
        ensures
            r@.map_values(|p: (MediaId, String)| (p.0, p.1@)) == Self::doomed_files(
                self.mode,
                self.originals_dir@,
                found@,
            ),
    {
        let mut out: Vec<(MediaId, String)> = Vec::new();
        match self.mode {
            LocalStorageMode::Referenced => {
                assert(out@.map_values(|p: (MediaId, String)| (p.0, p.1@)) =~= Self::doomed_files(
                    self.mode,
                    self.originals_dir@,
                    found@,
                ));
                return out;
            },
            LocalStorageMode::Managed => {},
        }
        let n: usize = found.len();
        let mut i: usize = 0;
        assert(out@.map_values(|p: (MediaId, String)| (p.0, p.1@)) =~= Self::doomed_files(
            self.mode,
            self.originals_dir@,
            found@.take(0),
        ));
        while i < n
            invariant
                i <= n,
                n == found@.len(),
                self.mode is Managed,
                out@.map_values(|p: (MediaId, String)| (p.0, p.1@)) == Self::doomed_files(
                    self.mode,
                    self.originals_dir@,
                    found@.take(i as int),
                ),
            decreases n - i,
        {
            let ghost before = out@;
            assert(found@.take(i + 1).drop_last() =~= found@.take(i as int));
            match &found[i].1 {
                Some(rel) => {
                    out.push(
                        (found[i].0.clone(), join_path(self.originals_dir.as_str(), rel.as_str())),
                    );
                    assert(out@.map_values(|p: (MediaId, String)| (p.0, p.1@)) =~= before.map_values(
                        |p: (MediaId, String)| (p.0, p.1@),
                    ).push((found@[i as int].0, joined(self.originals_dir@, rel@))));
                },
                None => {},
            }
            i += 1;
        }
        assert(found@.take(n as int) =~= found@);
        out
    }

    /// What is told when a row from the server was stored: that it replaced a row with
    /// another id, else that it was updated or added.
    pub fn upsert_media(id: &MediaId, existed: bool, replaced: Option<MediaId>) -> (r: MediaEvent)
        ensures
            tells_storing(r, *id, existed, replaced),
            match replaced {
                Some(old) => r == (MediaEvent::Replaced { old, new: *id }),
                None => if existed {
                    updates(r, seq![*id])
                } else {
                    r matches MediaEvent::Added(v) && v@ == seq![*id]
                },
            },
    {
        match replaced {
            Some(old) => MediaEvent::Replaced { old, new: id.clone() },
            None => if existed {
                MediaEvent::Updated(one_id(id))
            } else {
                MediaEvent::Added(one_id(id))
            },
        }
    }

    /// What follows from the insertion of an imported asset.
    pub fn insert_media(&self, record: &MediaRecord) -> (r: (MediaEvent, Mutation))
        ensures
            follows_import(r, *record, self.mode, self.originals_dir@),
            r.0 matches MediaEvent::Added(v) && v@ == seq![record.id],
            r.1 matches Mutation::AssetImported { id, file_path } && id == record.id && file_path@
                == original_path_of(self.mode, self.originals_dir@, record.relative_path@),
    {
        let file_path = self.file_path(record.relative_path.as_str());
        (
            MediaEvent::Added(one_id(&record.id)),
            Mutation::AssetImported { id: record.id.clone(), file_path },
        )
    }

    /// What follows from a change of the favourite flag.
    pub fn set_favorite(ids: &Vec<MediaId>, favorite: bool) -> (r: (MediaEvent, Mutation))
        ensures
            follows_favorite(r, ids@, favorite),
            updates(r.0, ids@),
            r.1 matches Mutation::AssetFavorited { ids: v, favorite: f } && v@ == ids@ && f
                == favorite,
    {
        (
            MediaEvent::Updated(copy_ids(ids)),
            Mutation::AssetFavorited { ids: copy_ids(ids), favorite },
        )
    }

    /// What follows from moving assets to the trash.
    pub fn trash(ids: &Vec<MediaId>) -> (r: (MediaEvent, Mutation))
        ensures
            follows_trash(r, ids@),
            updates(r.0, ids@),
            r.1 matches Mutation::AssetTrashed { ids: v } && v@ == ids@,
    {
        (MediaEvent::Updated(copy_ids(ids)), Mutation::AssetTrashed { ids: copy_ids(ids) })
    }

    /// What follows from taking assets out of the trash.
    pub fn restore(ids: &Vec<MediaId>) -> (r: (MediaEvent, Mutation))
        ensures
            follows_restore(r, ids@),
            updates(r.0, ids@),
            r.1 matches Mutation::AssetRestored { ids: v } && v@ == ids@,
    {
        (MediaEvent::Updated(copy_ids(ids)), Mutation::AssetRestored { ids: copy_ids(ids) })
    }

    /// Whether `events` are what subscribers get of a deletion: the removed rows, then
    /// the rows that left a stack along with its primary, if there are any.
    pub open spec fn tells_deletion(
        events: Seq<MediaEvent>,
        ids: Seq<MediaId>,
        freed: Seq<MediaId>,
    ) -> bool {
        &&& events.len() == (if freed.len() == 0 {
            1int
        } else {
            2
        })
        &&& events[0] matches MediaEvent::Removed(v) && v@ == ids
        &&& freed.len() > 0 ==> updates(events[1], freed)
    }

    /// What subscribers get of assets that were deleted for good on the server's word.
    pub fn delete_permanently_no_record(ids: &Vec<MediaId>, freed: Vec<MediaId>) -> (r: Vec<
        MediaEvent,
    >)
        ensures
            Self::tells_deletion(r@, ids@, freed@),
    {
        let mut events: Vec<MediaEvent> = Vec::new();
        events.push(MediaEvent::Removed(copy_ids(ids)));
        if freed.len() > 0 {
            events.push(MediaEvent::Updated(freed));
        }
        events
    }

    /// The server's id that `known` gives for an asset: that of the first pair with the
    /// asset's own id.
    pub open spec fn server_id(known: Seq<(String, String)>, id: Seq<char>) -> Option<String>
        decreases known.len(),
    {
        if known.len() == 0 {
            None
        } else if known.first().0@ == id {
            Some(known.first().1)
        } else {
            Self::server_id(known.drop_first(), id)
        }
    }

    fn find_server_id(known: &Vec<(String, String)>, id: &MediaId) -> (r: Option<String>)
        ensures
            r == Self::server_id(known@, id@),
    {
        let n: usize = known.len();
        let mut i: usize = 0;
        assert(known@.skip(0) =~= known@);
        while i < n
            invariant
                i <= n,
                n == known@.len(),
                Self::server_id(known@, id@) == Self::server_id(known@.skip(i as int), id@),
            decreases n - i,
        {
            assert(known@.skip(i as int).drop_first() =~= known@.skip(i + 1));
            if text_eq(known[i].0.as_str(), id.as_str()) {
                return Some(known[i].1.clone());
            }
            i += 1;
        }
        None
    }

    /// What follows from the deletion of assets for good: the events, and a mutation
    /// that names the server's id of every asset that has one, as they were known
    /// before the deletion.
    pub fn delete_permanently(
        ids: &Vec<MediaId>,
        known: &Vec<(String, String)>,
        freed: Vec<MediaId>,
    ) -> (r: (Vec<MediaEvent>, Mutation))
        ensures
            Self::tells_deletion(r.0@, ids@, freed@),
            reports_deletion(r.1, ids@, known@),
            r.1 matches Mutation::AssetDeleted { items } && items@ == ids@.map_values(
                |id: MediaId| (id, Self::server_id(known@, id@)),
            ),
    {
        let mut items: Vec<(MediaId, Option<String>)> = Vec::new();
        let n: usize = ids.len();
        let mut i: usize = 0;
        while i < n
            invariant
                i <= n,
                n == ids@.len(),
                items@ == ids@.take(i as int).map_values(
                    |id: MediaId| (id, Self::server_id(known@, id@)),
                ),
            decreases n - i,
        {
            let server = Self::find_server_id(known, &ids[i]);
            items.push((ids[i].clone(), server));
            i += 1;
            assert(items@ =~= ids@.take(i as int).map_values(
                |id: MediaId| (id, Self::server_id(known@, id@)),
            ));
        }
        assert(ids@.take(n as int) =~= ids@);
        (
            Self::delete_permanently_no_record(ids, freed),
            Mutation::AssetDeleted { items },
        )
    }

    /// What is told when a stack changed or was deleted: an update of its members, and
    /// nothing where it has none.
    pub fn stack_changed(members: Vec<MediaId>) -> (r: Option<MediaEvent>)
        ensures
            tells_if_any(r, members@),
            members@.len() == 0 ==> r is None,
            members@.len() > 0 ==> (r matches Some(e) && updates(e, members@)),
    {
        if members.len() == 0 {
            None
        } else {
            Some(MediaEvent::Updated(members))
        }
    }

    /// What is told when a row was bound to a stack or freed from one: an update, and
    /// nothing where the row did not change.
    pub fn stack_id_set(media_id: &MediaId, changed: bool) -> (r: Option<MediaEvent>)
        ensures
            tells_if_any(
                r,
                if changed {
                    seq![*media_id]
                } else {
                    Seq::empty()
                },
            ),
            !changed ==> r is None,
            changed ==> (r matches Some(e) && updates(e, seq![*media_id])),
    {
        if changed {
            Some(MediaEvent::Updated(one_id(media_id)))
        } else {
            None
        }
    }
}

} // verus!
