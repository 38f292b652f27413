use vstd::prelude::*;
use crate::dirty_set::set_items;
use crate::widget_manager::{
    created, declared_renderable, resolved, key_of, lemma_inserted, renderable_node, valid_children_from_in,
    valid_children_in, Index, WidgetInstance, WidgetManager,
};

verus! {

/// Creating a widget twice at the same position under the same parent yields the
/// same identity both times, and that identity then waits for primitive
/// regeneration. (A position past the end of the parent's children is appended
/// at the end instead, so it is left out.)
pub proof fn lemma_identity_stable(
    a: WidgetManager,
    b: WidgetManager,
    c: WidgetManager,
    index: usize,
    w1: WidgetInstance,
    w2: WidgetInstance,
    parent: Index,
    r1: (bool, Index),
    r2: (bool, Index),
)
    requires
        a.wf(),
        b.wf(),
        a.valid_id(parent),
        index <= a.tree.children@[parent.slot as int]@.len(),
        created(a, b, index, w1, Some(parent), r1),
        created(b, c, index, w2, Some(parent), r2),
    ensures
        r1.1 == r2.1,
        set_items(c.dirty_render_nodes).contains(key_of(r2.1)),
{
    lemma_inserted(set_items(b.dirty_render_nodes), key_of(r2.1), c.len());
    if index < a.tree.children@[parent.slot as int]@.len() {
        assert(b.tree == a.tree);
    } else {
        assert(b.tree.children@[parent.slot as int]@ == a.tree.children@[parent.slot as int]@.push(r1.1));
    }
}

/// Whenever a position under a parent is already taken, however the engine got
/// there, creating a widget at it returns the identity stored there and issues
/// no new slot. Nothing in the engine removes or reorders children, so an
/// identity once placed at a position is returned for it from then on.
pub proof fn lemma_existing_position_keeps_identity(
    b: WidgetManager,
    c: WidgetManager,
    index: usize,
    w: WidgetInstance,
    parent: Index,
    r: (bool, Index),
)
    requires
        b.wf(),
        b.valid_id(parent),
        index < b.tree.children@[parent.slot as int]@.len(),
        created(b, c, index, w, Some(parent), r),
    ensures
        r == (true, b.tree.children@[parent.slot as int]@[index as int]),
        c.len() == b.len(),
        c.tree == b.tree,
{
}

/// In each resolution step of a render pass, a width or height that the widget
/// declares explicitly is the one its node ends up with: neither the cascade
/// nor text measurement overrides it.
pub proof fn lemma_declared_size_survives(a: WidgetManager, b: WidgetManager, id: Index, r: Option<(u32, u32)>)
    requires
        resolved(a, b, id, r),
        a.current_widgets@[id.slot as int] is Some,
        a.current_widgets@[id.slot as int].unwrap().styles is Some,
    ensures
        a.current_widgets@[id.slot as int].unwrap().styles.unwrap().width is Value
            ==> b.nodes@[id.slot as int].unwrap().resolved_styles.width
            == a.current_widgets@[id.slot as int].unwrap().styles.unwrap().width,
        a.current_widgets@[id.slot as int].unwrap().styles.unwrap().height is Value
            ==> b.nodes@[id.slot as int].unwrap().resolved_styles.height
            == a.current_widgets@[id.slot as int].unwrap().styles.unwrap().height,
{
}

/// The nearest renderable ancestor that the engine finds always has a resolved,
/// non-empty style.
pub proof fn lemma_valid_parent_renderable(m: WidgetManager, slot: int)
    requires
        m.wf(),
        0 <= slot < m.len(),
    ensures
        m.valid_parent(slot) is Some ==> renderable_node(m.nodes@[m.valid_parent(slot).unwrap().slot as int]),
    decreases slot,
{
    match m.tree.parents@[slot] {
        Some(p) => {
            if !renderable_node(m.nodes@[p.slot as int]) {
                lemma_valid_parent_renderable(m, p.slot as int);
            }
        },
        None => {},
    }
}

proof fn lemma_concat_contains<T>(s: Seq<T>, t: Seq<T>, x: T)
    ensures
        (s + t).contains(x) <==> (s.contains(x) || t.contains(x)),
{
    if s.contains(x) {
        let j = choose|j: int| 0 <= j < s.len() && s[j] == x;
        assert((s + t)[j] == x);
    }
    if t.contains(x) {
        let j = choose|j: int| 0 <= j < t.len() && t[j] == x;
        assert((s + t)[s.len() + j] == x);
    }
    if (s + t).contains(x) {
        let j = choose|j: int| 0 <= j < (s + t).len() && (s + t)[j] == x;
        if j < s.len() {
            assert(s[j] == x);
        } else {
            assert(t[j - s.len()] == x);
        }
    }
}

proof fn lemma_children_renderable(children: Seq<Vec<Index>>, widgets: Seq<Option<WidgetInstance>>, slot: int)
    ensures
        forall|x: Index| #[trigger] valid_children_in(children, widgets, slot).contains(x)
            ==> 0 <= x.slot < widgets.len() && declared_renderable(widgets[x.slot as int]),
    decreases widgets.len() - slot, 1int, 0int,
{
    if 0 <= slot < widgets.len() && slot < children.len() {
        lemma_children_from_renderable(children, widgets, slot, children[slot]@, 0);
        assert(valid_children_in(children, widgets, slot)
            == valid_children_from_in(children, widgets, slot, children[slot]@, 0));
    } else {
        assert(valid_children_in(children, widgets, slot) == Seq::<Index>::empty());
    }
}

proof fn lemma_children_from_renderable(
    children: Seq<Vec<Index>>,
    widgets: Seq<Option<WidgetInstance>>,
    ps: int,
    kids: Seq<Index>,
    i: int,
)
    requires
        0 <= ps,
    ensures
        forall|x: Index| #[trigger] valid_children_from_in(children, widgets, ps, kids, i).contains(x)
            ==> 0 <= x.slot < widgets.len() && declared_renderable(widgets[x.slot as int]),
    decreases widgets.len() - ps, 0int, kids.len() - i,
{
    if 0 <= i < kids.len() {
        let c = kids[i];
        let rest = valid_children_from_in(children, widgets, ps, kids, i + 1);
        lemma_children_from_renderable(children, widgets, ps, kids, i + 1);
        if ps < c.slot < widgets.len() {
            match widgets[c.slot as int] {
                None => {},
                Some(w) => {
                    if declared_renderable(Some(w)) {
                        assert forall|x: Index| #[trigger] (seq![c] + rest).contains(x)
                            implies 0 <= x.slot < widgets.len() && declared_renderable(widgets[x.slot as int]) by {
                            lemma_concat_contains(seq![c], rest, x);
                            if seq![c].contains(x) {
                                assert(seq![c][0] == c);
                            }
                        }
                    } else {
                        let sub = valid_children_in(children, widgets, c.slot as int);
                        lemma_children_renderable(children, widgets, c.slot as int);
                        assert forall|x: Index| #[trigger] (sub + rest).contains(x)
                            implies 0 <= x.slot < widgets.len() && declared_renderable(widgets[x.slot as int]) by {
                            lemma_concat_contains(sub, rest, x);
                        }
                    }
                },
            }
        }
    }
}

proof fn lemma_from_reaches(
    children: Seq<Vec<Index>>,
    widgets: Seq<Option<WidgetInstance>>,
    ps: int,
    kids: Seq<Index>,
    i: int,
    j: int,
)
    requires
        0 <= i <= j < kids.len(),
        ps < kids[j].slot < widgets.len(),
        widgets[kids[j].slot as int] is Some,
        !declared_renderable(widgets[kids[j].slot as int]),
    ensures
        forall|x: Index| #[trigger] valid_children_in(children, widgets, kids[j].slot as int).contains(x)
            ==> valid_children_from_in(children, widgets, ps, kids, i).contains(x),
    decreases j - i,
{
    let c = kids[i];
    let rest = valid_children_from_in(children, widgets, ps, kids, i + 1);
    if i < j {
        lemma_from_reaches(children, widgets, ps, kids, i + 1, j);
    }
    assert forall|x: Index| #[trigger] valid_children_in(children, widgets, kids[j].slot as int).contains(x)
        implies valid_children_from_in(children, widgets, ps, kids, i).contains(x) by {
        if ps < c.slot < widgets.len() {
            match widgets[c.slot as int] {
                None => {},
                Some(w) => {
                    if declared_renderable(Some(w)) {
                        lemma_concat_contains(seq![c], rest, x);
                    } else {
                        lemma_concat_contains(valid_children_in(children, widgets, c.slot as int), rest, x);
                    }
                },
            }
        }
    }
}

/// An identity whose declared style draws nothing never appears among the
/// renderable children the engine computes, and the renderable descendants of
/// such a widget stay reachable from its parent: they are spliced into the
/// parent's renderable children.
pub proof fn lemma_flattening(m: WidgetManager, slot: int, j: int)
    requires
        m.wf(),
        0 <= slot < m.len(),
        0 <= j < m.tree.children@[slot]@.len(),
        m.current_widgets@[m.tree.children@[slot]@[j].slot as int] is Some,
        !declared_renderable(m.current_widgets@[m.tree.children@[slot]@[j].slot as int]),
    ensures
        forall|x: Index| #[trigger] m.valid_children(slot).contains(x)
            ==> 0 <= x.slot < m.len() && declared_renderable(m.current_widgets@[x.slot as int]),
        !m.valid_children(slot).contains(m.tree.children@[slot]@[j]),
        forall|x: Index| #[trigger] m.valid_children(m.tree.children@[slot]@[j].slot as int).contains(x)
            ==> m.valid_children(slot).contains(x),
{
    lemma_children_renderable(m.tree.children@, m.current_widgets@, slot);
    lemma_from_reaches(m.tree.children@, m.current_widgets@, slot, m.tree.children@[slot]@, 0, j);
}

} // verus!
