//! Pages of a listing: how a cursor cuts a listing, and that its pages make it up.
//!
//! A listing is in the order that [`crate::media::repository::listing_tail`] asks for, and a
//! page begins with the first row that
//! [`crate::media::repository::cursor_clause`] lets through.

use vstd::prelude::*;

use crate::media::{MediaCursor, MediaFilter, MediaItem};

verus! {

/// A row by what orders it: its sort key, then its id.
pub ghost struct ListedRow {
    pub key: int,
    pub id: Seq<char>,
}

/// A time as a sort key; one that is not known counts as 0.
pub open spec fn time_key(t: Option<i64>) -> int {
    match t {
        Some(t) => t as int,
        None => 0,
    }
}

/// The place of an item in a view, by what [`crate::media::repository::sort_key`] sorts by.
pub open spec fn place_of(filter: MediaFilter, item: MediaItem) -> ListedRow {
    ListedRow {
        key: match filter {
            MediaFilter::Trashed => time_key(item.trashed_at),
            MediaFilter::RecentImports { .. } => item.imported_at as int,
            _ => time_key(item.taken_at),
        },
        id: item.id@,
    }
}

/// The place that a cursor marks.
pub open spec fn marked(cursor: MediaCursor) -> ListedRow {
    ListedRow { key: cursor.sort_key as int, id: cursor.id@ }
}

impl MediaCursor {
    /// The cursor for the page of a view that goes on after an item.
    pub fn after(filter: &MediaFilter, item: &MediaItem) -> (r: Self)
        ensures
            marked(r) == place_of(*filter, *item),
    {
        let time = match filter {
            MediaFilter::Trashed => item.trashed_at,
            MediaFilter::RecentImports { .. } => Some(item.imported_at),
            _ => item.taken_at,
        };
        let sort_key: i64 = match time {
            Some(t) => t,
            None => 0,
        };
        MediaCursor { sort_key, id: item.id.clone() }
    }
}

/// Whether a text comes before another, character by character.
pub open spec fn is_below(a: Seq<char>, b: Seq<char>) -> bool
    decreases a.len(),
{
    if b.len() == 0 {
        false
    } else if a.len() == 0 {
        true
    } else if a.first() != b.first() {
        (a.first() as u32) < (b.first() as u32)
    } else {
        is_below(a.drop_first(), b.drop_first())
    }
}

/// Whether a row comes after another in a listing: a lower sort key, or the same one and a
/// lower id.
pub open spec fn follows(row: ListedRow, last: ListedRow) -> bool {
    row.key < last.key || (row.key == last.key && is_below(row.id, last.id))
}

/// Whether a row comes after a cursor; without a cursor, every row does.
pub open spec fn comes_after(row: ListedRow, cursor: Option<ListedRow>) -> bool {
    match cursor {
        Some(last) => follows(row, last),
        None => true,
    }
}

/// Whether the rows are in the order of a listing, no row twice.
pub open spec fn is_listing(rows: Seq<ListedRow>) -> bool {
    forall|i: int, j: int|
        0 <= i < j < rows.len() ==> follows(#[trigger] rows[j], #[trigger] rows[i])
}

/// The page of a listing after a cursor: the first rows that come after it, `limit` at most.
pub open spec fn page(rows: Seq<ListedRow>, cursor: Option<ListedRow>, limit: nat) -> Seq<
    ListedRow,
> {
    let rest = rows.filter(|row: ListedRow| comes_after(row, cursor));
    if rest.len() <= limit {
        rest
    } else {
        rest.take(limit as int)
    }
}

/// The pages after a cursor, one after the other, up to the first that is empty, `most` at
/// most. Each has the last row of the one before it as its cursor.
pub open spec fn pages(
    rows: Seq<ListedRow>,
    cursor: Option<ListedRow>,
    limit: nat,
    most: nat,
) -> Seq<ListedRow>
    decreases most,
{
    let first = page(rows, cursor, limit);
    if most == 0 || first.len() == 0 {
        Seq::empty()
    } else {
        first + pages(rows, Some(first.last()), limit, (most - 1) as nat)
    }
}

/// The order of texts is strict.
pub proof fn below_is_strict(a: Seq<char>, b: Seq<char>)
    ensures
        is_below(a, b) ==> !is_below(b, a),
        !is_below(a, a),
    decreases a.len(),
{
    if a.len() > 0 {
        below_is_strict(a.drop_first(), a.drop_first());
        if b.len() > 0 {
            below_is_strict(a.drop_first(), b.drop_first());
        }
    }
}

proof fn suffix_is_filtered(rows: Seq<ListedRow>, p: spec_fn(ListedRow) -> bool, k: int)
    requires
        0 <= k <= rows.len(),
        forall|i: int| 0 <= i < k ==> !p(#[trigger] rows[i]),
        forall|i: int| k <= i < rows.len() ==> p(#[trigger] rows[i]),
    ensures
        rows.filter(p) == rows.skip(k),
    decreases rows.len(),
{
    reveal(Seq::filter);
    if rows.len() > 0 {
        let front = rows.drop_last();
        if k < rows.len() {
            suffix_is_filtered(front, p, k);
            assert(rows.skip(k) =~= front.skip(k).push(rows.last()));
        } else {
            suffix_is_filtered(front, p, k - 1);
            assert(rows.skip(k) =~= front.skip(k - 1));
        }
    } else {
        assert(rows.filter(p) =~= rows.skip(k));
    }
}

proof fn page_is_next(rows: Seq<ListedRow>, limit: nat, k: int)
    requires
        is_listing(rows),
        0 <= k <= rows.len(),
    ensures
        page(
            rows,
            if k == 0 {
                None
            } else {
                Some(rows[k - 1])
            },
            limit,
        ) == rows.subrange(
            k,
            if rows.len() - k <= limit {
                rows.len() as int
            } else {
                k + limit
            },
        ),
{
    let cursor = if k == 0 {
        None
    } else {
        Some(rows[k - 1])
    };
    let p = |row: ListedRow| comes_after(row, cursor);
    assert forall|i: int| 0 <= i < k implies !p(#[trigger] rows[i]) by {
        below_is_strict(rows[i].id, rows[k - 1].id);
        below_is_strict(rows[k - 1].id, rows[i].id);
        if i < k - 1 {
            assert(follows(rows[k - 1], rows[i]));
        }
    }
    assert forall|i: int| k <= i < rows.len() implies p(#[trigger] rows[i]) by {
        if k > 0 {
            assert(follows(rows[i], rows[k - 1]));
        }
    }
    suffix_is_filtered(rows, p, k);
    assert(rows.skip(k) =~= rows.subrange(k, rows.len() as int));
    if rows.len() - k > limit {
        assert(rows.skip(k).take(limit as int) =~= rows.subrange(k, k + limit));
    }
}

/// The first page holds as many rows as there are, up to the limit, in the order of the
/// listing; every row that it leaves out comes after every row in it.
pub proof fn the_first_page_is_the_beginning(rows: Seq<ListedRow>, limit: nat, i: int, j: int)
    requires
        is_listing(rows),
    ensures
        ({
            let first = page(rows, None, limit);
            &&& first.len() == if rows.len() <= limit {
                rows.len()
            } else {
                limit
            }
            &&& is_listing(first)
            &&& 0 <= i < first.len() ==> first[i] == rows[i]
            &&& 0 <= i < first.len() <= j < rows.len() ==> follows(rows[j], first[i])
        }),
{
    page_is_next(rows, limit, 0);
    let first = page(rows, None, limit);
    assert forall|a: int, b: int| 0 <= a < b < first.len() implies follows(
        #[trigger] first[b],
        #[trigger] first[a],
    ) by {
        assert(first[a] == rows[a] && first[b] == rows[b]);
    }
    if 0 <= i < first.len() {
        assert(first[i] == rows[i]);
        if first.len() <= j < rows.len() {
            assert(follows(rows[j], rows[i]));
        }
    }
}

proof fn pages_are_the_rest(rows: Seq<ListedRow>, limit: nat, most: nat, k: int)
    requires
        is_listing(rows),
        limit >= 1,
        0 <= k <= rows.len(),
        most > rows.len() - k,
    ensures
        pages(
            rows,
            if k == 0 {
                None
            } else {
                Some(rows[k - 1])
            },
            limit,
            most,
        ) == rows.skip(k),
    decreases most,
{
    let cursor = if k == 0 {
        None
    } else {
        Some(rows[k - 1])
    };
    let end = if rows.len() - k <= limit {
        rows.len() as int
    } else {
        k + limit
    };
    page_is_next(rows, limit, k);
    let first = page(rows, cursor, limit);
    assert(first == rows.subrange(k, end));
    if k < rows.len() {
        assert(first.last() == rows[end - 1]);
        pages_are_the_rest(rows, limit, (most - 1) as nat, end);
        assert(rows.subrange(k, end) + rows.skip(end) =~= rows.skip(k));
    } else {
        assert(rows.skip(k) =~= Seq::<ListedRow>::empty());
    }
}

/// The pages of a listing, each after the last row of the one before it, make up the
/// listing, which a single page that is large enough is too: no row is left out or comes
/// twice, also among rows with the same sort key.
pub proof fn pages_make_up_the_listing(rows: Seq<ListedRow>, limit: nat, most: nat)
    requires
        is_listing(rows),
        limit >= 1,
        most > rows.len(),
    ensures
        pages(rows, None, limit, most) == rows,
        rows.len() <= u32::MAX ==> page(rows, None, u32::MAX as nat) == rows,
{
    pages_are_the_rest(rows, limit, most, 0);
    assert(rows.skip(0) =~= rows);
    page_is_next(rows, u32::MAX as nat, 0);
    assert(rows.subrange(0, rows.len() as int) =~= rows);
}

} // verus!
