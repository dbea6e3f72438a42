//! What the views of the library hold, and in which order.

use vstd::prelude::*;

use crate::media::paging::{follows, marked, place_of};
use crate::media::repository::{conditions, filter_clause, Condition};
use crate::media::{MediaCursor, MediaFilter, MediaItem};
use crate::sql::sql;

verus! {

/// A row of the `media` table, as far as a view asks about it.
pub ghost struct LibraryRow {
    pub id: Seq<char>,
    pub is_trashed: bool,
    pub is_favorite: bool,
    pub imported_at: int,
}

/// The tables that tie assets to albums and to people: pairs of an album or a person and an
/// asset.
pub ghost struct Links {
    pub album_media: Set<(Seq<char>, Seq<char>)>,
    pub faces: Set<(Seq<char>, Seq<char>)>,
}

/// Whether a row meets a condition.
pub open spec fn meets(c: Condition, row: LibraryRow, links: Links) -> bool {
    match c {
        Condition::OutsideTrash => !row.is_trashed,
        Condition::InTrash => row.is_trashed,
        Condition::Favorite => row.is_favorite,
        Condition::ImportedAfter(since) => row.imported_at > since,
        Condition::InAlbum(album) => links.album_media.contains((album, row.id)),
        Condition::ShowsFaceOf(person) => links.faces.contains((person, row.id)),
    }
}

/// Whether a row meets the condition of a view.
pub open spec fn is_in(filter: MediaFilter, row: LibraryRow, links: Links) -> bool {
    forall|i: int|
        0 <= i < conditions(filter).len() ==> meets(#[trigger] conditions(filter)[i], row, links)
}

/// The trash holds what is in the trash, and no other view holds any of it: an album or a
/// person does not bring a trashed asset back.
pub proof fn trashed_assets_are_in_the_trash_alone(
    filter: MediaFilter,
    row: LibraryRow,
    links: Links,
)
    ensures
        is_in(MediaFilter::Trashed, row, links) <==> row.is_trashed,
        row.is_trashed && !(filter is Trashed) ==> !is_in(filter, row, links),
{
    each_view_asks_for(filter, row, links);
    each_view_asks_for(MediaFilter::Trashed, row, links);
}

/// Outside the trash, a view holds what it is named for: the library everything, the
/// favourites what is one, the recent imports what was imported after the given moment, an
/// album what was put into it, and a person what shows their face.
pub proof fn views_hold_what_they_are_named_for(filter: MediaFilter, row: LibraryRow, links: Links)
    requires
        !row.is_trashed,
    ensures
        filter is Trashed ==> !is_in(filter, row, links),
        filter is All ==> is_in(filter, row, links),
        filter is Favorites ==> (is_in(filter, row, links) <==> row.is_favorite),
        filter matches MediaFilter::RecentImports { since } ==> (is_in(filter, row, links)
            <==> row.imported_at > since),
        filter matches MediaFilter::Album { album_id } ==> (is_in(filter, row, links)
            <==> links.album_media.contains((album_id@, row.id))),
        filter matches MediaFilter::Person { person_id } ==> (is_in(filter, row, links)
            <==> links.faces.contains((person_id@, row.id))),
{
    each_view_asks_for(filter, row, links);
}

proof fn each_view_asks_for(filter: MediaFilter, row: LibraryRow, links: Links)
    ensures
        is_in(filter, row, links) <==> (conditions(filter).len() > 0 ==> meets(
            conditions(filter)[0],
            row,
            links,
        )) && (conditions(filter).len() > 1 ==> meets(conditions(filter)[1], row, links)),
{
    let cs = conditions(filter);
    assert(cs.len() <= 2);
}

/// Where an item alone decides, the view of the database and the answer of
/// [`MediaFilter::matches`] agree.
pub proof fn views_agree_with_inline_matches(
    filter: MediaFilter,
    item: MediaItem,
    row: LibraryRow,
    links: Links,
)
    requires
        filter.decidable(),
        row.id == item.id@,
        row.is_trashed == item.is_trashed,
        row.is_favorite == item.is_favorite,
        row.imported_at == item.imported_at,
    ensures
        is_in(filter, row, links) <==> filter.holds(item),
{
    each_view_asks_for(filter, row, links);
}

/// Which views an item alone decides: all but those of an album and of a person, which hold
/// no item as far as it can tell.
pub proof fn links_are_not_in_the_item(filter: MediaFilter, item: MediaItem)
    ensures
        filter.decidable() <==> !(filter is Album || filter is Person),
        filter.holds(item) ==> filter.decidable(),
        filter.holds(item) && item.is_trashed ==> filter is Trashed,
{
}

/// The condition on the trash is written first in every view: the column is 1 for the trash
/// and 0 for all others.
pub proof fn the_trash_is_asked_about_first(filter: MediaFilter)
    ensures
        filter_clause(filter).len() > 0,
        filter_clause(filter)[0] == if filter is Trashed {
            sql(" AND m.is_trashed = 1")
        } else {
            sql(" AND m.is_trashed = 0")
        },
{
    reveal_with_fuel(crate::media::repository::all_worded, 3);
    let cs = conditions(filter);
    assert(cs.drop_last().len() > 0 ==> cs.drop_last()[0] == cs[0]);
    if cs.len() == 1 {
        assert(cs.drop_last() =~= Seq::<Condition>::empty());
    } else {
        assert(cs.drop_last() =~= seq![cs[0]]);
        assert(seq![cs[0]].drop_last() =~= Seq::<Condition>::empty());
    }
}

/// A view is sorted by the time that it is about, latest first: the trash by when an asset
/// was put there, recent imports by when it was imported, every other view by when it was
/// taken. What is taken at the same time is sorted by id.
pub proof fn later_items_come_first(filter: MediaFilter, a: MediaItem, b: MediaItem, x: i64, y: i64)
    requires
        x > y,
    ensures
        filter is Trashed && a.trashed_at == Some(x) && b.trashed_at == Some(y) ==> follows(
            place_of(filter, b),
            place_of(filter, a),
        ),
        filter is RecentImports && a.imported_at == x && b.imported_at == y ==> follows(
            place_of(filter, b),
            place_of(filter, a),
        ),
        !(filter is Trashed) && !(filter is RecentImports) && a.taken_at == Some(x) && b.taken_at
            == Some(y) ==> follows(place_of(filter, b), place_of(filter, a)),
{
}

/// A page that goes on after an item does not begin with it again, and leaves out no item
/// that comes after it.
pub proof fn pages_go_on_after_the_item(
    filter: MediaFilter,
    item: MediaItem,
    other: MediaItem,
    cursor: MediaCursor,
)
    requires
        marked(cursor) == place_of(filter, item),
    ensures
        !follows(place_of(filter, item), marked(cursor)),
        cursor.id@ == item.id@,
        follows(place_of(filter, other), place_of(filter, item)) <==> follows(
            place_of(filter, other),
            marked(cursor),
        ),
        filter is Trashed && item.trashed_at is Some ==> Some(cursor.sort_key) == item.trashed_at,
        filter is RecentImports ==> cursor.sort_key == item.imported_at,
        !(filter is Trashed) && !(filter is RecentImports) && item.taken_at is Some ==> Some(
            cursor.sort_key,
        ) == item.taken_at,
{
    crate::media::paging::below_is_strict(item.id@, item.id@);
}

} // verus!
