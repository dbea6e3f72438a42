//! Which rows stand for a stack, and which rendered edits give way to their originals: the
//! condition that every view puts on a row, and what it means.

use vstd::prelude::*;

use crate::media::paging::{below_is_strict, is_below};
use crate::sql::{bound, sql, BindData, PartData, Statement};

verus! {

// ── Meaning ──────────────────────────────────────────────────────────────────

/// An asset, as far as it matters for stacks.
pub ghost struct Asset {
    /// Whether it is a rendered edit.
    pub is_render: bool,
    pub is_trashed: bool,
    /// The stack that it is bound to.
    pub stack: Option<Seq<char>>,
}

/// The tables that decide what is shown.
pub ghost struct Tables {
    /// The assets, by id.
    pub media: Map<Seq<char>, Asset>,
    /// The primary of each stack.
    pub stacks: Map<Seq<char>, Seq<char>>,
    /// The rendered edit of each original that has one.
    pub renders: Map<Seq<char>, Seq<char>>,
}

impl Tables {
    /// The stack that an asset is in; one that is not known is none.
    pub open spec fn stack_of(self, id: Seq<char>) -> Option<Seq<char>> {
        if self.media.contains_key(id) {
            match self.media[id].stack {
                Some(s) if self.stacks.contains_key(s) => Some(s),
                _ => None,
            }
        } else {
            None
        }
    }

    /// Whether an asset is there and is no rendered edit.
    pub open spec fn is_original(self, id: Seq<char>) -> bool {
        self.media.contains_key(id) && !self.media[id].is_render
    }

    /// Whether two assets are in the same place: both in the trash, or neither.
    pub open spec fn side_by_side(self, a: Seq<char>, b: Seq<char>) -> bool {
        self.media[a].is_trashed == self.media[b].is_trashed
    }

    /// Whether `render` is the rendered edit of `original`.
    pub open spec fn is_edit_of(self, render: Seq<char>, original: Seq<char>) -> bool {
        self.renders.contains_key(original) && self.renders[original] == render
    }

    /// Whether the primary of a stack is one of its members.
    pub open spec fn has_primary(self, stack: Seq<char>) -> bool {
        self.stacks.contains_key(stack) && self.stack_of(self.stacks[stack]) == Some(stack)
    }

    /// Whether the primary of a stack is a rendered edit.
    pub open spec fn is_rendered(self, stack: Seq<char>) -> bool {
        self.has_primary(stack) && self.media[self.stacks[stack]].is_render
    }

    /// Whether an asset can take the place of a stack's primary: an original of the same
    /// stack, beside the primary.
    pub open spec fn can_stand_in(self, stack: Seq<char>, id: Seq<char>) -> bool {
        self.stack_of(id) == Some(stack) && self.is_original(id) && self.side_by_side(
            id,
            self.stacks[stack],
        )
    }

    /// Whether of two originals the first is the better one for a rendered edit: the one
    /// that was edited, else the one with the lower id.
    pub open spec fn is_better(self, render: Seq<char>, a: Seq<char>, b: Seq<char>) -> bool {
        if self.is_edit_of(render, a) == self.is_edit_of(render, b) {
            is_below(a, b)
        } else {
            self.is_edit_of(render, a)
        }
    }

    /// Whether an asset stands for a stack: the primary, unless it is a rendered edit and an
    /// original can take its place; then the best of those originals.
    pub open spec fn stands_for(self, stack: Seq<char>, id: Seq<char>) -> bool {
        if self.is_rendered(stack) && exists|c: Seq<char>| self.can_stand_in(stack, c) {
            self.can_stand_in(stack, id) && forall|c: Seq<char>| #[trigger]
                self.can_stand_in(stack, c) && c != id ==> self.is_better(
                    self.stacks[stack],
                    id,
                    c,
                )
        } else {
            self.has_primary(stack) && id == self.stacks[stack]
        }
    }

    /// Whether an original is in view: outside stacks, or standing for its stack.
    pub open spec fn is_in_view(self, id: Seq<char>) -> bool {
        match self.stack_of(id) {
            Some(stack) => self.stands_for(stack, id),
            None => true,
        }
    }

    /// Whether `original` takes the place of a rendered edit that is in no stack.
    pub open spec fn replaces(self, original: Seq<char>, render: Seq<char>) -> bool {
        &&& self.is_edit_of(render, original)
        &&& self.is_original(original)
        &&& self.side_by_side(original, render)
        &&& self.is_in_view(original)
    }

    /// Whether a row is shown, in the views that it belongs to.
    pub open spec fn is_shown(self, id: Seq<char>) -> bool {
        self.media.contains_key(id) && match self.stack_of(id) {
            Some(stack) => self.stands_for(stack, id),
            None => self.media[id].is_render ==> !exists|o: Seq<char>| self.replaces(o, id),
        }
    }
}

proof fn chars_differ_by_number(a: char, b: char)
    requires
        a != b,
    ensures
        a as u32 != b as u32,
{
}

proof fn below_is_total(a: Seq<char>, b: Seq<char>)
    requires
        a != b,
    ensures
        is_below(a, b) || is_below(b, a),
    decreases a.len(),
{
    if a.len() == 0 {
        assert(b.len() > 0) by {
            if b.len() == 0 {
                assert(a =~= b);
            }
        }
    } else if b.len() > 0 && a.first() == b.first() {
        if a.drop_first() == b.drop_first() {
            assert(a =~= seq![a.first()] + a.drop_first());
            assert(b =~= seq![b.first()] + b.drop_first());
        }
        below_is_total(a.drop_first(), b.drop_first());
    } else if b.len() > 0 {
        chars_differ_by_number(a.first(), b.first());
    }
}

proof fn below_is_transitive(a: Seq<char>, b: Seq<char>, c: Seq<char>)
    requires
        is_below(a, b),
        is_below(b, c),
    ensures
        is_below(a, c),
    decreases a.len(),
{
    if a.len() > 0 && a.first() == b.first() && b.first() == c.first() {
        below_is_transitive(a.drop_first(), b.drop_first(), c.drop_first());
    }
}

proof fn some_is_best(t: Tables, render: Seq<char>, ids: Set<Seq<char>>) -> (r: Seq<char>)
    requires
        ids.finite(),
        ids.len() > 0,
    ensures
        ids.contains(r),
        forall|c: Seq<char>| #[trigger] ids.contains(c) && c != r ==> t.is_better(render, r, c),
    decreases ids.len(),
{
    let x = ids.choose();
    let rest = ids.remove(x);
    if rest.len() == 0 {
        assert forall|c: Seq<char>| #[trigger] ids.contains(c) && c != x implies t.is_better(
            render,
            x,
            c,
        ) by {
            assert(rest.contains(c));
        }
        x
    } else {
        let y = some_is_best(t, render, rest);
        below_is_total(x, y);
        let r = if t.is_better(render, x, y) {
            x
        } else {
            y
        };
        assert forall|c: Seq<char>| #[trigger] ids.contains(c) && c != r implies t.is_better(
            render,
            r,
            c,
        ) by {
            if c != x && c != y {
                assert(rest.contains(c));
                if r == x && is_below(x, y) && is_below(y, c) {
                    below_is_transitive(x, y, c);
                }
            }
        }
        r
    }
}

proof fn one_stands_for(t: Tables, stack: Seq<char>) -> (r: Seq<char>)
    requires
        t.media.dom().finite(),
        t.has_primary(stack),
    ensures
        t.stands_for(stack, r),
        t.stack_of(r) == Some(stack),
{
    if t.is_rendered(stack) && exists|c: Seq<char>| t.can_stand_in(stack, c) {
        let ids = t.media.dom().filter(|id: Seq<char>| t.can_stand_in(stack, id));
        t.media.dom().lemma_len_filter(|id: Seq<char>| t.can_stand_in(stack, id));
        let c = choose|c: Seq<char>| t.can_stand_in(stack, c);
        assert(ids.contains(c));
        if ids.len() == 0 {
            ids.lemma_len0_is_empty();
        }
        let r = some_is_best(t, t.stacks[stack], ids);
        assert forall|c: Seq<char>| #[trigger] t.can_stand_in(stack, c) && c != r implies t.is_better(
            t.stacks[stack],
            r,
            c,
        ) by {
            assert(ids.contains(c));
        }
        r
    } else {
        t.stacks[stack]
    }
}

/// Exactly one row stands for a stack.
pub proof fn one_row_stands_for_a_stack(t: Tables, stack: Seq<char>)
    requires
        t.media.dom().finite(),
        t.has_primary(stack),
    ensures
        exists|id: Seq<char>| t.stack_of(id) == Some(stack) && #[trigger] t.is_shown(id),
        forall|a: Seq<char>, b: Seq<char>|
            t.stack_of(a) == Some(stack) && t.stack_of(b) == Some(stack) && #[trigger] t.is_shown(a)
                && #[trigger] t.is_shown(b) ==> a == b,
{
    let r = one_stands_for(t, stack);
    assert(t.is_shown(r));
    assert forall|a: Seq<char>, b: Seq<char>|
        t.stack_of(a) == Some(stack) && t.stack_of(b) == Some(stack) && #[trigger] t.is_shown(a)
            && #[trigger] t.is_shown(b) implies a == b by {
        below_is_strict(a, b);
        below_is_strict(b, a);
    }
}

/// A stack whose primary is no rendered edit is shown as its primary, whatever else it
/// holds.
pub proof fn original_primaries_are_shown(t: Tables, stack: Seq<char>, id: Seq<char>)
    requires
        t.has_primary(stack),
        !t.is_rendered(stack),
        t.stack_of(id) == Some(stack),
    ensures
        t.is_shown(id) <==> id == t.stacks[stack],
{
}

/// A member other than the primary is shown only in the place of a rendered edit, and it is
/// an original beside it.
pub proof fn only_originals_are_swapped_in(t: Tables, stack: Seq<char>, id: Seq<char>)
    requires
        t.stack_of(id) == Some(stack),
        t.is_shown(id),
        id != t.stacks[stack],
    ensures
        t.is_rendered(stack),
        t.is_original(id),
        t.side_by_side(id, t.stacks[stack]),
{
}

/// A rendered edit that is the primary of its stack is left out exactly where an original of
/// that stack, beside it, is shown in its place.
pub proof fn rendered_primaries_give_way(t: Tables, stack: Seq<char>)
    requires
        t.media.dom().finite(),
        t.is_rendered(stack),
    ensures
        !t.is_shown(t.stacks[stack]) <==> exists|o: Seq<char>|
            t.can_stand_in(stack, o) && #[trigger] t.is_shown(o),
{
    let r = one_stands_for(t, stack);
    assert(t.is_shown(r));
    one_row_stands_for_a_stack(t, stack);
}

/// A row outside stacks is left out exactly where it is a rendered edit whose original,
/// beside it, is shown.
pub proof fn renders_outside_stacks_give_way(t: Tables, id: Seq<char>)
    requires
        t.media.contains_key(id),
        t.stack_of(id) is None,
    ensures
        !t.is_shown(id) <==> t.media[id].is_render && exists|o: Seq<char>|
            #![trigger t.is_shown(o)]
            t.is_edit_of(id, o) && t.is_original(o) && t.side_by_side(o, id) && t.is_shown(o),
{
    assert forall|o: Seq<char>| t.is_original(o) implies (#[trigger] t.is_shown(o) <==> t.is_in_view(
        o,
    )) by {}
    if !t.is_shown(id) {
        let o = choose|o: Seq<char>| t.replaces(o, id);
        assert(t.is_shown(o));
    }
    if exists|o: Seq<char>|
        #![trigger t.is_shown(o)]
        t.is_edit_of(id, o) && t.is_original(o) && t.side_by_side(o, id) && t.is_shown(o) {
        let o = choose|o: Seq<char>|
            #![trigger t.is_shown(o)]
            t.is_edit_of(id, o) && t.is_original(o) && t.side_by_side(o, id) && t.is_shown(o);
        assert(t.replaces(o, id));
    }
}

// ── SQL ──────────────────────────────────────────────────────────────────────

/// The id of the row that stands for the stack with the given alias, as
/// [`Tables::stands_for`] says.
pub open spec fn standing_row(stack: Seq<char>) -> Seq<PartData> {
    seq![
        sql("COALESCE((SELECT c.id FROM media c JOIN media p ON p.id = "),
        PartData::Text(stack),
        sql(".primary_asset_id WHERE p.stack_id = "),
        PartData::Text(stack),
        sql(".id AND p.is_moments_render = 1 AND c.stack_id = "),
        PartData::Text(stack),
        sql(
            ".id AND c.is_moments_render = 0 AND c.is_trashed = p.is_trashed ORDER BY c.id IN (SELECT e.media_id FROM edits e WHERE e.server_rendered_asset_id = p.id) DESC, c.id LIMIT 1), ",
        ),
        PartData::Text(stack),
        sql(".primary_asset_id)"),
    ]
}

/// The condition that the row `m` of a view is shown, as [`Tables::is_shown`] says; `s` is
/// its stack.
pub open spec fn shown_clause() -> Seq<PartData> {
    seq![
        sql(
            "(s.id IS NULL AND (m.is_moments_render = 0 OR NOT EXISTS (SELECT 1 FROM edits d JOIN media o ON o.id = d.media_id LEFT JOIN stacks t ON o.stack_id = t.id WHERE d.server_rendered_asset_id = m.id AND o.is_moments_render = 0 AND o.is_trashed = m.is_trashed AND (t.id IS NULL OR o.id = ",
        ),
    ] + standing_row("t"@) + seq![sql("))) OR m.id = ")] + standing_row("s"@) + seq![sql(")")]
}

fn push_standing_row(q: &mut Statement, stack: &str)
    ensures
        final(q)@ == old(q)@ + standing_row(stack@),
{
    q.sql("COALESCE((SELECT c.id FROM media c JOIN media p ON p.id = ");
    q.sql(stack);
    q.sql(".primary_asset_id WHERE p.stack_id = ");
    q.sql(stack);
    q.sql(".id AND p.is_moments_render = 1 AND c.stack_id = ");
    q.sql(stack);
    q.sql(
        ".id AND c.is_moments_render = 0 AND c.is_trashed = p.is_trashed ORDER BY c.id IN (SELECT e.media_id FROM edits e WHERE e.server_rendered_asset_id = p.id) DESC, c.id LIMIT 1), ",
    );
    q.sql(stack);
    q.sql(".primary_asset_id)");
    assert(q@ =~= old(q)@ + standing_row(stack@));
}

/// Adds the condition that a row is shown.
pub fn push_shown_clause(q: &mut Statement)
    ensures
        final(q)@ == old(q)@ + shown_clause(),
{
    q.sql(
        "(s.id IS NULL AND (m.is_moments_render = 0 OR NOT EXISTS (SELECT 1 FROM edits d JOIN media o ON o.id = d.media_id LEFT JOIN stacks t ON o.stack_id = t.id WHERE d.server_rendered_asset_id = m.id AND o.is_moments_render = 0 AND o.is_trashed = m.is_trashed AND (t.id IS NULL OR o.id = ",
    );
    push_standing_row(q, "t");
    q.sql("))) OR m.id = ");
    push_standing_row(q, "s");
    q.sql(")");
    assert(q@ =~= old(q)@ + shown_clause());
}

proof fn only_text_binds_nothing(parts: Seq<PartData>)
    requires
        forall|i: int| 0 <= i < parts.len() ==> (#[trigger] parts[i]) is Text,
    ensures
        bound(parts) == Seq::<BindData>::empty(),
    decreases parts.len(),
{
    if parts.len() > 0 {
        assert(parts.last() is Text);
        assert forall|i: int| 0 <= i < parts.drop_last().len() implies (
        #[trigger] parts.drop_last()[i]) is Text by {
            assert(parts.drop_last()[i] == parts[i]);
        }
        only_text_binds_nothing(parts.drop_last());
    }
}

/// The condition that a row is shown binds no value.
pub proof fn shown_clause_binds_nothing()
    ensures
        bound(shown_clause()) == Seq::<BindData>::empty(),
{
    only_text_binds_nothing(shown_clause());
}

} // verus!
