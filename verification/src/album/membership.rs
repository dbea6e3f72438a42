//! What it means to put media into an album, beside the statement that does it.

use vstd::prelude::*;

use crate::album::repository::membership_rows;
use crate::sql::{bound, bound_concat, num, sql, text, BindData, PartData};

verus! {

/// The memberships of all albums: when each asset was put into each album.
pub type Memberships = Map<(Seq<char>, Seq<char>), i64>;

/// A membership: the album, the asset, and when it was put there.
pub type Membership = (Seq<char>, Seq<char>, i64);

/// The memberships that adding assets to an album asks for.
pub open spec fn added_rows(album: Seq<char>, ids: Seq<Seq<char>>, now: i64) -> Seq<Membership> {
    ids.map_values(|id: Seq<char>| (album, id, now))
}

/// The values of memberships, in the order of their columns.
pub open spec fn row_values(rows: Seq<Membership>) -> Seq<BindData>
    decreases rows.len(),
{
    if rows.len() == 0 {
        Seq::empty()
    } else {
        row_values(rows.drop_last()) + seq![
            BindData::Text(rows.last().0),
            BindData::Text(rows.last().1),
            BindData::Int(rows.last().2),
        ]
    }
}

/// The memberships after rows were inserted, where those that are there already are ignored:
/// an album holds an asset once.
pub open spec fn inserted(table: Memberships, rows: Seq<Membership>) -> Memberships
    decreases rows.len(),
{
    if rows.len() == 0 {
        table
    } else {
        let before = inserted(table, rows.drop_last());
        let row = rows.last();
        if before.contains_key((row.0, row.1)) {
            before
        } else {
            before.insert((row.0, row.1), row.2)
        }
    }
}

proof fn one_row_binds(album: Seq<char>, id: Seq<char>, now: i64)
    ensures
        bound(
            seq![
                sql("("),
                text(album),
                sql(", "),
                text(id),
                sql(", "),
                num(now),
                sql(")"),
            ],
        ) == seq![BindData::Text(album), BindData::Text(id), BindData::Int(now)],
{
    reveal_with_fuel(bound, 8);
    let parts = seq![
        sql("("),
        text(album),
        sql(", "),
        text(id),
        sql(", "),
        num(now),
        sql(")"),
    ];
    assert(parts.drop_last() =~= seq![sql("("), text(album), sql(", "), text(id), sql(", "), num(now)]);
    assert(seq![sql("("), text(album), sql(", "), text(id), sql(", "), num(now)].drop_last()
        =~= seq![sql("("), text(album), sql(", "), text(id), sql(", ")]);
    assert(seq![sql("("), text(album), sql(", "), text(id), sql(", ")].drop_last() =~= seq![
        sql("("),
        text(album),
        sql(", "),
        text(id),
    ]);
    assert(seq![sql("("), text(album), sql(", "), text(id)].drop_last() =~= seq![
        sql("("),
        text(album),
        sql(", "),
    ]);
    assert(seq![sql("("), text(album), sql(", ")].drop_last() =~= seq![sql("("), text(album)]);
    assert(seq![sql("("), text(album)].drop_last() =~= seq![sql("(")]);
    assert(seq![sql("(")].drop_last() =~= Seq::<PartData>::empty());
    assert(bound(parts) =~= seq![BindData::Text(album), BindData::Text(id), BindData::Int(now)]);
}

/// The statement that adds assets to an album binds the values of exactly the memberships
/// that are asked for.
pub proof fn additions_are_bound(album: Seq<char>, ids: Seq<Seq<char>>, now: i64)
    ensures
        bound(membership_rows(album, ids, now)) == row_values(added_rows(album, ids, now)),
    decreases ids.len(),
{
    let rows = added_rows(album, ids, now);
    if ids.len() > 0 {
        let front = ids.drop_last();
        additions_are_bound(album, front, now);
        assert(rows.drop_last() =~= added_rows(album, front, now));
        let rest = membership_rows(album, front, now);
        let head = if ids.len() == 1 {
            rest
        } else {
            rest.push(sql(", "))
        };
        assert(bound(head) == bound(rest)) by {
            if ids.len() > 1 {
                assert(head.drop_last() =~= rest);
            }
        }
        let row = seq![
            sql("("),
            text(album),
            sql(", "),
            text(ids.last()),
            sql(", "),
            num(now),
            sql(")"),
        ];
        bound_concat(head, row);
        one_row_binds(album, ids.last(), now);
        assert(membership_rows(album, ids, now) == head + row);
    }
}

proof fn inserted_rows(
    table: Memberships,
    album: Seq<char>,
    ids: Seq<Seq<char>>,
    now: i64,
)
    ensures
        ({
            let after = inserted(table, added_rows(album, ids, now));
            forall|k: (Seq<char>, Seq<char>)|
                #![trigger after.contains_key(k)]
                #![trigger after[k]]
                {
                    &&& after.contains_key(k) <==> (table.contains_key(k) || (k.0 == album
                        && ids.contains(k.1)))
                    &&& table.contains_key(k) ==> after[k] == table[k]
                    &&& after.contains_key(k) && !table.contains_key(k) ==> after[k] == now
                }
        }),
    decreases ids.len(),
{
    let rows = added_rows(album, ids, now);
    if ids.len() > 0 {
        let front = ids.drop_last();
        inserted_rows(table, album, front, now);
        assert(rows.drop_last() =~= added_rows(album, front, now));
        let before = inserted(table, added_rows(album, front, now));
        let after = inserted(table, rows);
        assert(rows.last() == (album, ids.last(), now));
        assert forall|k: (Seq<char>, Seq<char>)|
            {
                &&& #[trigger] after.contains_key(k) <==> (table.contains_key(k) || (k.0 == album
                    && ids.contains(k.1)))
                &&& table.contains_key(k) ==> after[k] == table[k]
                &&& after.contains_key(k) && !table.contains_key(k) ==> after[k] == now
            } by {
            assert(before.contains_key(k) <==> (table.contains_key(k) || (k.0 == album
                && front.contains(k.1))));
            assert(ids.contains(k.1) <==> (front.contains(k.1) || k.1 == ids.last())) by {
                if front.contains(k.1) {
                    let i = choose|i: int| 0 <= i < front.len() && front[i] == k.1;
                    assert(ids[i] == k.1);
                }
                if ids.contains(k.1) {
                    let i = choose|i: int| 0 <= i < ids.len() && ids[i] == k.1;
                    if i < front.len() {
                        assert(front[i] == k.1);
                    }
                }
                assert(ids[ids.len() - 1] == ids.last());
            }
            assert(k == (k.0, k.1));
        }
    }
}

/// Adding assets to an album makes them members, each once; those that were members keep the
/// time at which they were added, and other albums stay as they are. A second time changes
/// nothing, and neither does adding nothing.
pub proof fn added_media_are_members(
    table: Memberships,
    album: Seq<char>,
    ids: Seq<Seq<char>>,
    now: i64,
    later: i64,
)
    ensures
        ({
            let after = inserted(table, added_rows(album, ids, now));
            &&& forall|k: (Seq<char>, Seq<char>)| #[trigger]
                after.contains_key(k) <==> (table.contains_key(k) || (k.0 == album && ids.contains(
                    k.1,
                )))
            &&& forall|k: (Seq<char>, Seq<char>)|
                table.contains_key(k) ==> #[trigger] after[k] == table[k]
            &&& inserted(after, added_rows(album, ids, later)) == after
            &&& ids.len() == 0 ==> after == table
        }),
{
    let after = inserted(table, added_rows(album, ids, now));
    inserted_rows(table, album, ids, now);
    inserted_rows(after, album, ids, later);
    assert(inserted(after, added_rows(album, ids, later)) =~= after);
}

} // verus!
