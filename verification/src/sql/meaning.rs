//! What plain statements mean: which rows they are about, and what becomes of those rows.

use vstd::prelude::*;

use crate::sql::{bound, id_params, rendered, BindData, PartData};

verus! {

/// A row of a table: its values by column.
pub type Row = Map<Seq<char>, BindData>;

/// A value in a statement: written out, or bound to a placeholder.
pub ghost enum Term {
    Null,
    Zero,
    One,
    Two,
    Three,
    /// A text in quotes.
    Quoted(Seq<char>),
    Given(BindData),
}

impl Term {
    /// The value itself.
    pub open spec fn value(self) -> BindData {
        match self {
            Term::Null => BindData::Null,
            Term::Zero => BindData::Int(0),
            Term::One => BindData::Int(1),
            Term::Two => BindData::Int(2),
            Term::Three => BindData::Int(3),
            Term::Quoted(s) => BindData::Text(s),
            Term::Given(b) => b,
        }
    }

    /// How the value is written.
    pub open spec fn text(self) -> Seq<char> {
        match self {
            Term::Null => "NULL"@,
            Term::Zero => "0"@,
            Term::One => "1"@,
            Term::Two => "2"@,
            Term::Three => "3"@,
            Term::Quoted(s) => "'"@ + s + "'"@,
            Term::Given(_) => "?"@,
        }
    }

    /// What is bound for the value.
    pub open spec fn binds(self) -> Seq<BindData> {
        match self {
            Term::Given(b) => seq![b],
            _ => Seq::empty(),
        }
    }
}

/// A condition on a row.
pub ghost enum Test {
    /// The column holds the value, which is not `NULL`.
    Is(Seq<char>, Term),
    /// The column holds another value; neither is `NULL`.
    Differs(Seq<char>, Term),
    /// The column holds anything but the value, `NULL` included.
    IsNot(Seq<char>, Term),
    /// The column holds a lower number.
    Below(Seq<char>, i64),
    /// The column holds nothing.
    Missing(Seq<char>),
    /// The column holds something.
    Present(Seq<char>),
    /// The column holds one of the texts.
    Among(Seq<char>, Seq<Seq<char>>),
    /// The column holds one of two values.
    Either(Seq<char>, Term, Term),
    /// The first column holds nothing, or a lower number than the second.
    Behind(Seq<char>, Seq<char>),
}

impl Test {
    /// Whether a row meets the condition.
    pub open spec fn holds(self, row: Row) -> bool {
        match self {
            Test::Is(c, t) => row[c] == t.value() && !(t.value() is Null),
            Test::Differs(c, t) => row[c] != t.value() && !(row[c] is Null) && !(t.value() is Null),
            Test::IsNot(c, t) => row[c] != t.value(),
            Test::Below(c, n) => row[c] matches BindData::Int(m) && m < n,
            Test::Missing(c) => row[c] is Null,
            Test::Present(c) => !(row[c] is Null),
            Test::Among(c, keys) => row[c] matches BindData::Text(k) && keys.contains(k),
            Test::Either(c, a, b) => !(row[c] is Null) && (row[c] == a.value() || row[c]
                == b.value()),
            Test::Behind(a, b) => row[a] is Null || (row[a] matches BindData::Int(m) && row[b]
                matches BindData::Int(n) && n > m),
        }
    }

    /// How the condition is written.
    pub open spec fn text(self) -> Seq<char> {
        match self {
            Test::Is(c, t) => c + " = "@ + t.text(),
            Test::Differs(c, t) => c + " != "@ + t.text(),
            Test::IsNot(c, t) => c + " IS NOT "@ + t.text(),
            Test::Below(c, _) => c + " < ?"@,
            Test::Missing(c) => c + " IS NULL"@,
            Test::Present(c) => c + " IS NOT NULL"@,
            Test::Among(c, keys) => c + " IN ("@ + rendered(id_params(keys)) + ")"@,
            Test::Either(c, a, b) => c + " IN ("@ + a.text() + ", "@ + b.text() + ")"@,
            Test::Behind(a, b) => "("@ + a + " IS NULL OR "@ + b + " > "@ + a + ")"@,
        }
    }

    /// What is bound for the condition.
    pub open spec fn binds(self) -> Seq<BindData> {
        match self {
            Test::Is(_, t) => t.binds(),
            Test::Differs(_, t) => t.binds(),
            Test::IsNot(_, t) => t.binds(),
            Test::Below(_, n) => seq![BindData::Int(n)],
            Test::Among(_, keys) => bound(id_params(keys)),
            Test::Either(_, a, b) => a.binds() + b.binds(),
            _ => Seq::empty(),
        }
    }
}

/// The conditions of a statement, all of which a row has to meet.
pub ghost enum Tests {
    All,
    One(Test),
    Two(Test, Test),
    Three(Test, Test, Test),
}

impl Tests {
    /// Whether a row meets the conditions.
    pub open spec fn hold(self, row: Row) -> bool {
        match self {
            Tests::All => true,
            Tests::One(a) => a.holds(row),
            Tests::Two(a, b) => a.holds(row) && b.holds(row),
            Tests::Three(a, b, c) => a.holds(row) && b.holds(row) && c.holds(row),
        }
    }

    /// How the conditions are written.
    pub open spec fn text(self) -> Seq<char> {
        match self {
            Tests::All => Seq::empty(),
            Tests::One(a) => " WHERE "@ + a.text(),
            Tests::Two(a, b) => " WHERE "@ + a.text() + " AND "@ + b.text(),
            Tests::Three(a, b, c) => " WHERE "@ + a.text() + " AND "@ + b.text() + " AND "@
                + c.text(),
        }
    }

    /// What is bound for the conditions.
    pub open spec fn binds(self) -> Seq<BindData> {
        match self {
            Tests::All => Seq::empty(),
            Tests::One(a) => a.binds(),
            Tests::Two(a, b) => a.binds() + b.binds(),
            Tests::Three(a, b, c) => a.binds() + b.binds() + c.binds(),
        }
    }
}

/// The columns that an update sets.
pub ghost enum Sets {
    One(Seq<char>, Term),
    Two(Seq<char>, Term, Seq<char>, Term),
    Three(Seq<char>, Term, Seq<char>, Term, Seq<char>, Term),
}

impl Sets {
    /// A row with its columns set.
    pub open spec fn put(self, row: Row) -> Row {
        match self {
            Sets::One(a, x) => row.insert(a, x.value()),
            Sets::Two(a, x, b, y) => row.insert(a, x.value()).insert(b, y.value()),
            Sets::Three(a, x, b, y, c, z) => row.insert(a, x.value()).insert(b, y.value()).insert(
                c,
                z.value(),
            ),
        }
    }

    /// How the setting is written.
    pub open spec fn text(self) -> Seq<char> {
        match self {
            Sets::One(a, x) => a + " = "@ + x.text(),
            Sets::Two(a, x, b, y) => a + " = "@ + x.text() + ", "@ + b + " = "@ + y.text(),
            Sets::Three(a, x, b, y, c, z) => a + " = "@ + x.text() + ", "@ + b + " = "@ + y.text()
                + ", "@ + c + " = "@ + z.text(),
        }
    }

    /// What is bound for the setting.
    pub open spec fn binds(self) -> Seq<BindData> {
        match self {
            Sets::One(_, x) => x.binds(),
            Sets::Two(_, x, _, y) => x.binds() + y.binds(),
            Sets::Three(_, x, _, y, _, z) => x.binds() + y.binds() + z.binds(),
        }
    }
}

/// A plain statement about the rows of one table.
pub ghost enum Order {
    /// Gives columns of the rows that meet the conditions.
    Ask { columns: Seq<char>, table: Seq<char>, tests: Tests },
    /// Sets columns of the rows that meet the conditions.
    Change { table: Seq<char>, sets: Sets, tests: Tests },
    /// Removes the rows that meet the conditions.
    Remove { table: Seq<char>, tests: Tests },
}

impl Order {
    /// The table that the statement is about.
    pub open spec fn table(self) -> Seq<char> {
        match self {
            Order::Ask { table, .. } => table,
            Order::Change { table, .. } => table,
            Order::Remove { table, .. } => table,
        }
    }

    /// Whether the statement is about a row of its table.
    pub open spec fn is_about(self, row: Row) -> bool {
        match self {
            Order::Ask { tests, .. } => tests.hold(row),
            Order::Change { tests, .. } => tests.hold(row),
            Order::Remove { tests, .. } => tests.hold(row),
        }
    }

    /// What becomes of a row of the table: nothing where it is removed.
    pub open spec fn leaves(self, row: Row) -> Option<Row> {
        match self {
            Order::Ask { .. } => Some(row),
            Order::Change { sets, tests, .. } => Some(
                if tests.hold(row) {
                    sets.put(row)
                } else {
                    row
                },
            ),
            Order::Remove { tests, .. } => if tests.hold(row) {
                None
            } else {
                Some(row)
            },
        }
    }

    /// How the statement is written.
    pub open spec fn text(self) -> Seq<char> {
        match self {
            Order::Ask { columns, table, tests } => "SELECT "@ + columns + " FROM "@ + table
                + tests.text(),
            Order::Change { table, sets, tests } => "UPDATE "@ + table + " SET "@ + sets.text()
                + tests.text(),
            Order::Remove { table, tests } => "DELETE FROM "@ + table + tests.text(),
        }
    }

    /// What the statement binds.
    pub open spec fn binds(self) -> Seq<BindData> {
        match self {
            Order::Ask { tests, .. } => tests.binds(),
            Order::Change { sets, tests, .. } => sets.binds() + tests.binds(),
            Order::Remove { tests, .. } => tests.binds(),
        }
    }
}

/// Whether parts make up a plain statement, as the database reads them: the same text, and
/// the same values bound in it.
pub open spec fn says(parts: Seq<PartData>, order: Order) -> bool {
    rendered(parts) == order.text() && bound(parts) == order.binds()
}

/// Whether parts make up a plain statement that goes on with `tail`.
pub open spec fn says_and(parts: Seq<PartData>, order: Order, tail: Seq<char>) -> bool {
    rendered(parts) == order.text() + tail && bound(parts) == order.binds()
}

// ── Reading parts ────────────────────────────────────────────────────────────

/// How a part is written.
pub open spec fn piece(p: PartData) -> Seq<char> {
    match p {
        PartData::Text(s) => s,
        PartData::Bound(_) => "?"@,
    }
}

/// What a part binds.
pub open spec fn held(p: PartData) -> Seq<BindData> {
    match p {
        PartData::Text(_) => Seq::empty(),
        PartData::Bound(b) => seq![b],
    }
}

proof fn one_more(front: Seq<PartData>, p: PartData)
    ensures
        rendered(front.push(p)) == rendered(front) + piece(p),
        bound(front.push(p)) == bound(front) + held(p),
{
    reveal_strlit("?");
    assert("?"@ =~= seq!['?']);
    assert(front.push(p).drop_last() =~= front);
    assert(bound(front.push(p)) =~= bound(front) + held(p));
}

/// One part.
pub proof fn read_one(a: PartData)
    ensures
        rendered(seq![a]) == piece(a),
        bound(seq![a]) == held(a),
{
    one_more(Seq::empty(), a);
    assert(Seq::<PartData>::empty().push(a) =~= seq![a]);
    assert(rendered(seq![a]) =~= piece(a));
    assert(bound(seq![a]) =~= held(a));
}

/// Two parts.
pub proof fn read_two(a: PartData, b: PartData)
    ensures
        rendered(seq![a, b]) == piece(a) + piece(b),
        bound(seq![a, b]) == held(a) + held(b),
{
    read_one(a);
    one_more(seq![a], b);
    assert(seq![a].push(b) =~= seq![a, b]);
}

/// Three parts.
pub proof fn read_three(a: PartData, b: PartData, c: PartData)
    ensures
        rendered(seq![a, b, c]) == piece(a) + piece(b) + piece(c),
        bound(seq![a, b, c]) == held(a) + held(b) + held(c),
{
    read_two(a, b);
    one_more(seq![a, b], c);
    assert(seq![a, b].push(c) =~= seq![a, b, c]);
}

/// Four parts.
pub proof fn read_four(a: PartData, b: PartData, c: PartData, d: PartData)
    ensures
        rendered(seq![a, b, c, d]) == piece(a) + piece(b) + piece(c) + piece(d),
        bound(seq![a, b, c, d]) == held(a) + held(b) + held(c) + held(d),
{
    read_three(a, b, c);
    one_more(seq![a, b, c], d);
    assert(seq![a, b, c].push(d) =~= seq![a, b, c, d]);
}

/// Five parts.
pub proof fn read_five(a: PartData, b: PartData, c: PartData, d: PartData, e: PartData)
    ensures
        rendered(seq![a, b, c, d, e]) == piece(a) + piece(b) + piece(c) + piece(d) + piece(e),
        bound(seq![a, b, c, d, e]) == held(a) + held(b) + held(c) + held(d) + held(e),
{
    read_four(a, b, c, d);
    one_more(seq![a, b, c, d], e);
    assert(seq![a, b, c, d].push(e) =~= seq![a, b, c, d, e]);
}

/// Six parts.
pub proof fn read_six(
    a: PartData,
    b: PartData,
    c: PartData,
    d: PartData,
    e: PartData,
    f: PartData,
)
    ensures
        rendered(seq![a, b, c, d, e, f]) == piece(a) + piece(b) + piece(c) + piece(d) + piece(e)
            + piece(f),
        bound(seq![a, b, c, d, e, f]) == held(a) + held(b) + held(c) + held(d) + held(e) + held(f),
{
    read_five(a, b, c, d, e);
    one_more(seq![a, b, c, d, e], f);
    assert(seq![a, b, c, d, e].push(f) =~= seq![a, b, c, d, e, f]);
}

/// Eight parts.
pub proof fn read_eight(
    a: PartData,
    b: PartData,
    c: PartData,
    d: PartData,
    e: PartData,
    f: PartData,
    g: PartData,
    h: PartData,
)
    ensures
        rendered(seq![a, b, c, d, e, f, g, h]) == piece(a) + piece(b) + piece(c) + piece(d)
            + piece(e) + piece(f) + piece(g) + piece(h),
        bound(seq![a, b, c, d, e, f, g, h]) == held(a) + held(b) + held(c) + held(d) + held(e)
            + held(f) + held(g) + held(h),
{
    read_six(a, b, c, d, e, f);
    one_more(seq![a, b, c, d, e, f], g);
    assert(seq![a, b, c, d, e, f].push(g) =~= seq![a, b, c, d, e, f, g]);
    one_more(seq![a, b, c, d, e, f, g], h);
    assert(seq![a, b, c, d, e, f, g].push(h) =~= seq![a, b, c, d, e, f, g, h]);
}

} // verus!
