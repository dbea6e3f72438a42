//! SQL statements as data: text interleaved with the values bound in it.

pub mod meaning;
pub mod orders;

use vstd::prelude::*;
use vstd::string::*;

use crate::media::MediaId;

verus! {

/// A value bound to a placeholder.
#[derive(Debug)]
pub enum Bind {
    Null,
    Int(i64),
    Text(String),
    /// A single-precision number, by its IEEE 754 bits.
    Real32(u32),
    /// A double-precision number, by its IEEE 754 bits.
    Real64(u64),
}

/// The contents of a [`Bind`].
pub ghost enum BindData {
    Null,
    Int(i64),
    Text(Seq<char>),
    Real32(u32),
    Real64(u64),
}

impl View for Bind {
    type V = BindData;

    open spec fn view(&self) -> BindData {
        match self {
            Bind::Null => BindData::Null,
            Bind::Int(n) => BindData::Int(*n),
            Bind::Text(s) => BindData::Text(s@),
            Bind::Real32(b) => BindData::Real32(*b),
            Bind::Real64(b) => BindData::Real64(*b),
        }
    }
}

/// One piece of a statement: text, or a placeholder with its value.
#[derive(Debug)]
pub enum Part {
    Text(String),
    Bound(Bind),
}

/// The contents of a [`Part`].
pub ghost enum PartData {
    Text(Seq<char>),
    Bound(BindData),
}

impl View for Part {
    type V = PartData;

    open spec fn view(&self) -> PartData {
        match self {
            Part::Text(s) => PartData::Text(s@),
            Part::Bound(b) => PartData::Bound(b@),
        }
    }
}

/// A piece of SQL text.
pub open spec fn sql(s: &str) -> PartData {
    PartData::Text(s@)
}

/// A placeholder for a number.
pub open spec fn num(n: i64) -> PartData {
    PartData::Bound(BindData::Int(n))
}

/// A placeholder for a text.
pub open spec fn text(s: Seq<char>) -> PartData {
    PartData::Bound(BindData::Text(s))
}

/// A placeholder for a flag, stored as 0 or 1.
pub open spec fn flag(b: bool) -> PartData {
    num(
        if b {
            1
        } else {
            0
        },
    )
}

/// A placeholder for a number or NULL.
pub open spec fn opt_num(n: Option<i64>) -> PartData {
    match n {
        Some(n) => num(n),
        None => PartData::Bound(BindData::Null),
    }
}

/// A placeholder for a text or NULL.
pub open spec fn opt_text(s: Option<String>) -> PartData {
    match s {
        Some(s) => text(s@),
        None => PartData::Bound(BindData::Null),
    }
}

/// A placeholder for a single-precision number or NULL.
pub open spec fn opt_real32(b: Option<u32>) -> PartData {
    match b {
        Some(b) => PartData::Bound(BindData::Real32(b)),
        None => PartData::Bound(BindData::Null),
    }
}

/// A placeholder for a double-precision number or NULL.
pub open spec fn opt_real64(b: Option<u64>) -> PartData {
    match b {
        Some(b) => PartData::Bound(BindData::Real64(b)),
        None => PartData::Bound(BindData::Null),
    }
}

/// The text of a statement: its pieces of text with a `?` for each bound value.
pub open spec fn rendered(parts: Seq<PartData>) -> Seq<char>
    decreases parts.len(),
{
    if parts.len() == 0 {
        Seq::empty()
    } else {
        rendered(parts.drop_last()) + match parts.last() {
            PartData::Text(s) => s,
            PartData::Bound(_) => seq!['?'],
        }
    }
}

/// The bound values of a statement, in the order of their placeholders.
pub open spec fn bound(parts: Seq<PartData>) -> Seq<BindData>
    decreases parts.len(),
{
    if parts.len() == 0 {
        Seq::empty()
    } else {
        match parts.last() {
            PartData::Text(_) => bound(parts.drop_last()),
            PartData::Bound(b) => bound(parts.drop_last()).push(b),
        }
    }
}

/// A statement and the values bound in it.
#[derive(Debug)]
pub struct Statement {
    parts: Vec<Part>,
}

impl View for Statement {
    type V = Seq<PartData>;

    closed spec fn view(&self) -> Seq<PartData> {
        self.parts@.map_values(|p: Part| p@)
    }
}

impl Statement {
    /// An empty statement.
    pub fn new() -> (r: Self)
        ensures
            r@ == Seq::<PartData>::empty(),
    {
        let r = Statement { parts: Vec::new() };
        assert(r@ =~= Seq::<PartData>::empty());
        r
    }

    /// Adds one piece.
    pub fn push(&mut self, part: Part)
        ensures
            final(self)@ == old(self)@.push(part@),
    {
        let ghost before = self@;
        self.parts.push(part);
        assert(self@ =~= before.push(part@));
    }

    /// Adds all pieces of another statement.
    pub fn extend(&mut self, other: Statement)
        ensures
            final(self)@ == old(self)@ + other@,
    {
        let ghost before = self.parts@;
        let mut parts = other.parts;
        let ghost added = parts@;
        self.parts.append(&mut parts);
        assert(self.parts@ == before + added);
        assert(self@ =~= old(self)@ + other@);
    }

    /// Adds a piece of SQL text.
    pub fn sql(&mut self, s: &str)
        ensures
            final(self)@ == old(self)@.push(PartData::Text(s@)),
    {
        self.push(Part::Text(s.to_owned()));
    }

    /// Adds a placeholder for a number.
    pub fn num(&mut self, n: i64)
        ensures
            final(self)@ == old(self)@.push(num(n)),
    {
        self.push(Part::Bound(Bind::Int(n)));
    }

    /// Adds a placeholder for a flag.
    pub fn flag(&mut self, b: bool)
        ensures
            final(self)@ == old(self)@.push(flag(b)),
    {
        let n: i64 = if b {
            1
        } else {
            0
        };
        self.num(n);
    }

    /// Adds a placeholder for a text.
    pub fn text(&mut self, s: &str)
        ensures
            final(self)@ == old(self)@.push(text(s@)),
    {
        self.push(Part::Bound(Bind::Text(s.to_owned())));
    }

    /// Adds a placeholder for a number or NULL.
    pub fn opt_num(&mut self, n: Option<i64>)
        ensures
            final(self)@ == old(self)@.push(opt_num(n)),
    {
        match n {
            Some(n) => self.num(n),
            None => self.push(Part::Bound(Bind::Null)),
        }
    }

    /// Adds a placeholder for a text or NULL.
    pub fn opt_text(&mut self, s: &Option<String>)
        ensures
            final(self)@ == old(self)@.push(opt_text(*s)),
    {
        match s {
            Some(s) => self.text(s.as_str()),
            None => self.push(Part::Bound(Bind::Null)),
        }
    }

    /// Adds a placeholder for a single-precision number or NULL.
    pub fn opt_real32(&mut self, b: Option<u32>)
        ensures
            final(self)@ == old(self)@.push(opt_real32(b)),
    {
        match b {
            Some(b) => self.push(Part::Bound(Bind::Real32(b))),
            None => self.push(Part::Bound(Bind::Null)),
        }
    }

    /// Adds a placeholder for a double-precision number or NULL.
    pub fn opt_real64(&mut self, b: Option<u64>)
        ensures
            final(self)@ == old(self)@.push(opt_real64(b)),
    {
        match b {
            Some(b) => self.push(Part::Bound(Bind::Real64(b))),
            None => self.push(Part::Bound(Bind::Null)),
        }
    }

    /// Adds a comma-separated list of placeholders, one for each id.
    pub fn ids(&mut self, ids: &Vec<MediaId>)
        ensures
            final(self)@ == old(self)@ + id_params(media_keys(ids@)),
    {
        let n: usize = ids.len();
        let mut i: usize = 0;
        let ghost keys = media_keys(ids@);
        assert(self@ =~= old(self)@ + id_params(keys.take(0)));
        while i < n
            invariant
                i <= n,
                n == ids@.len(),
                keys == media_keys(ids@),
                self@ == old(self)@ + id_params(keys.take(i as int)),
            decreases n - i,
        {
            if i > 0 {
                self.sql(", ");
            }
            self.text(ids[i].as_str());
            proof {
                let before = keys.take(i as int);
                let after = keys.take(i + 1);
                assert(after.drop_last() =~= before);
                assert(self@ =~= old(self)@ + id_params(after));
            }
            i += 1;
        }
        assert(keys.take(n as int) =~= keys);
    }

    /// Adds a comma-separated list of placeholders, one for each key.
    pub fn keys(&mut self, keys: &Vec<String>)
        ensures
            final(self)@ == old(self)@ + id_params(text_keys(keys@)),
    {
        let n: usize = keys.len();
        let mut i: usize = 0;
        let ghost all = text_keys(keys@);
        assert(self@ =~= old(self)@ + id_params(all.take(0)));
        while i < n
            invariant
                i <= n,
                n == keys@.len(),
                all == text_keys(keys@),
                self@ == old(self)@ + id_params(all.take(i as int)),
            decreases n - i,
        {
            if i > 0 {
                self.sql(", ");
            }
            self.text(keys[i].as_str());
            proof {
                let before = all.take(i as int);
                let after = all.take(i + 1);
                assert(after.drop_last() =~= before);
                assert(self@ =~= old(self)@ + id_params(after));
            }
            i += 1;
        }
        assert(all.take(n as int) =~= all);
    }

    /// The text of the statement.
    pub fn to_sql(&self) -> (r: String)
        ensures
            r@ == rendered(self@),
    {
        let mut out = String::new();
        let n: usize = self.parts.len();
        let mut i: usize = 0;
        while i < n
            invariant
                i <= n,
                n == self.parts@.len(),
                out@ == rendered(self@.take(i as int)),
            decreases n - i,
        {
            match &self.parts[i] {
                Part::Text(s) => out.append(s.as_str()),
                Part::Bound(_) => out.push('?'),
            }
            i += 1;
            assert(self@.take(i as int).drop_last() =~= self@.take(i - 1));
            assert(rendered(self@.take(i as int)) =~= out@);
        }
        assert(self@.take(n as int) =~= self@);
        out
    }

    /// The values to bind, in order.
    pub fn into_binds(self) -> (r: Vec<Bind>)
        ensures
            r@.map_values(|b: Bind| b@) == bound(self@),
    {
        let ghost parts = self@;
        let mut out: Vec<Bind> = Vec::new();
        let ghost mut i: int = 0;
        assert(out@.map_values(|b: Bind| b@) =~= bound(parts.take(0)));
        for part in it: self.parts
            invariant
                parts == it.seq().map_values(|p: Part| p@),
                i == it.index(),
                out@.map_values(|b: Bind| b@) == bound(parts.take(i)),
        {
            proof {
                assert(parts.take(i + 1).drop_last() =~= parts.take(i));
                assert(parts.take(i + 1).last() == part@);
            }
            let ghost before = out@;
            match part {
                Part::Text(_) => {},
                Part::Bound(b) => {
                    out.push(b);
                    assert(out@.map_values(|b: Bind| b@) =~= before.map_values(
                        |b: Bind| b@,
                    ).push(b@));
                },
            }
            proof {
                i = i + 1;
            }
        }
        assert(parts.take(parts.len() as int) =~= parts);
        out
    }
}

// ── Lists of ids ─────────────────────────────────────────────────────────────

/// The texts of media ids.
pub open spec fn media_keys(ids: Seq<MediaId>) -> Seq<Seq<char>> {
    ids.map_values(|id: MediaId| id@)
}

/// The characters of each text.
pub open spec fn text_keys(keys: Seq<String>) -> Seq<Seq<char>> {
    keys.map_values(|k: String| k@)
}

/// Placeholders for the given keys, separated by commas.
pub open spec fn id_params(keys: Seq<Seq<char>>) -> Seq<PartData>
    decreases keys.len(),
{
    if keys.len() == 0 {
        Seq::empty()
    } else if keys.len() == 1 {
        seq![text(keys[0])]
    } else {
        id_params(keys.drop_last()).push(sql(", ")).push(text(keys.last()))
    }
}

/// `count` question marks separated by `", "`.
pub open spec fn placeholders(count: nat) -> Seq<char>
    decreases count,
{
    if count == 0 {
        Seq::empty()
    } else if count == 1 {
        seq!['?']
    } else {
        placeholders((count - 1) as nat) + ", "@ + seq!['?']
    }
}

/// The list of placeholders for an `IN (...)` clause over `count` values.
pub fn id_placeholders(count: usize) -> (r: String)
    ensures
        r@ == placeholders(count as nat),
{
    let mut s = String::new();
    let mut i: usize = 0;
    while i < count
        invariant
            i <= count,
            s@ == placeholders(i as nat),
        decreases count - i,
    {
        if i > 0 {
            s.append(", ");
        }
        s.push('?');
        i += 1;
        assert(s@ =~= placeholders(i as nat));
    }
    s
}

// ── Laws ─────────────────────────────────────────────────────────────────────

/// Adding parts renders their text after the text of the statement so far.
pub proof fn rendered_concat(a: Seq<PartData>, b: Seq<PartData>)
    ensures
        rendered(a + b) == rendered(a) + rendered(b),
    decreases b.len(),
{
    if b.len() == 0 {
        assert(a + b =~= a);
        assert(rendered(a) + rendered(b) =~= rendered(a));
    } else {
        assert((a + b).drop_last() =~= a + b.drop_last());
        rendered_concat(a, b.drop_last());
        assert(rendered(a + b) =~= rendered(a) + rendered(b));
    }
}

/// Adding parts binds their values after the values bound so far.
pub proof fn bound_concat(a: Seq<PartData>, b: Seq<PartData>)
    ensures
        bound(a + b) == bound(a) + bound(b),
    decreases b.len(),
{
    if b.len() == 0 {
        assert(a + b =~= a);
        assert(bound(a) + bound(b) =~= bound(a));
    } else {
        assert((a + b).drop_last() =~= a + b.drop_last());
        bound_concat(a, b.drop_last());
        assert(bound(a + b) =~= bound(a) + bound(b));
    }
}

/// The placeholders for a list of keys read `?, ?, …, ?`, one for each key, and
/// bind exactly the keys in their order.
pub proof fn id_params_match_keys(keys: Seq<Seq<char>>)
    ensures
        rendered(id_params(keys)) == placeholders(keys.len()),
        bound(id_params(keys)) == keys.map_values(|k: Seq<char>| BindData::Text(k)),
    decreases keys.len(),
{
    reveal_with_fuel(rendered, 3);
    reveal_with_fuel(bound, 3);
    if keys.len() == 0 {
        assert(bound(id_params(keys)) =~= keys.map_values(|k: Seq<char>| BindData::Text(k)));
    } else if keys.len() == 1 {
        let p = seq![text(keys[0])];
        assert(p.drop_last() =~= Seq::<PartData>::empty());
        assert(rendered(p) =~= seq!['?']);
        assert(bound(p) =~= keys.map_values(|k: Seq<char>| BindData::Text(k)));
    } else {
        id_params_match_keys(keys.drop_last());
        let head = id_params(keys.drop_last());
        let p = head.push(sql(", ")).push(text(keys.last()));
        assert(p.drop_last() =~= head.push(sql(", ")));
        assert(p.drop_last().drop_last() =~= head);
        assert(rendered(p) =~= placeholders(keys.len()));
        assert(bound(p) =~= keys.map_values(|k: Seq<char>| BindData::Text(k)));
    }
}

} // verus!
