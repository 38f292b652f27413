use vstd::prelude::*;
use indexmap::IndexSet;
use crate::dirty_set::{set_contains, set_drain_all, set_insert, set_items, set_new, set_to_vec};
use crate::focus_tree::{FocusTracker, FocusTree};
use crate::render_primitive::{primitive_of, zero_rect, Rect, RenderPrimitive};
use crate::widget::Widget;
use crate::styles::{RenderCommand, StyleProp, cascade, command_is_empty, default_style, fill_measured, is_empty_command, Style};

verus! {

/// A stable handle to a widget slot.
#[derive(Debug, Clone, Copy, PartialEq, Eq, Structural, Hash)]
pub struct Index {
    pub slot: usize,
    pub generation: u64,
}

/// One widget instance: its name, declared style and declared focusability.
#[derive(Debug, Clone)]
pub struct WidgetInstance {
    pub id: Index,
    pub name: String,
    pub styles: Option<Style>,
    pub focusable: Option<bool>,
}

impl Widget for WidgetInstance {
    fn get_name(&self) -> String {
        self.name.clone()
    }
}

/// The resolved state of one widget.
#[derive(Debug, Clone)]
pub struct Node {
    pub id: Index,
    pub resolved_styles: Style,
    pub raw_styles: Option<Style>,
    pub children: Vec<Index>,
    pub primitive: RenderPrimitive,
    pub z: u64,
}

/// Parent and children of each slot; `children` of a slot with none is empty.
#[derive(Debug, Clone)]
pub struct Tree {
    pub root_node: Option<Index>,
    pub parents: Vec<Option<Index>>,
    pub children: Vec<Vec<Index>>,
}

/// What a text primitive asks the font to measure: its content set in `font`
/// at `size` and `line_height`, within the box of its nearest renderable ancestor.
#[derive(Debug, Clone, PartialEq, Eq)]
pub struct MeasureRequest {
    pub font: String,
    pub content: String,
    pub size: u32,
    pub line_height: u32,
    pub max_width: u32,
    pub max_height: u32,
}

/// Applies what the font measured for a text primitive: it learns the size of
/// the box it was measured in, and the measured size fills the sizes its style
/// left unset. With no measurement nothing changes.
pub fn apply_text_measurement(
    primitive: &mut RenderPrimitive,
    styles: &mut Style,
    box_width: u32,
    box_height: u32,
    m: Option<(u32, u32)>,
)
    ensures
        m is Some ==> *final(primitive) == with_parent_size(*old(primitive), box_width, box_height),
        m is None ==> *final(primitive) == *old(primitive),
        *final(styles) == fill_measured(*old(styles), m),
{
    if m.is_some() {
        if let RenderPrimitive::Text { parent_width, parent_height, .. } = primitive {
            *parent_width = box_width;
            *parent_height = box_height;
        }
    }
    styles.apply_measurement(m);
}

/// Measures text for the engine; `None` while the font is not loaded.
pub trait FontMeasure {
    fn measure(
        &self,
        font: &String,
        content: &String,
        size: u32,
        line_height: u32,
        max_width: u32,
        max_height: u32,
    ) -> Option<(u32, u32)>;
}

/// The engine: every widget, its resolved node, the full and renderable trees,
/// the two dirty sets, font bindings, focus and layout.
pub struct WidgetManager {
    pub current_widgets: Vec<Option<WidgetInstance>>,
    pub dirty_render_nodes: IndexSet<(usize, u64)>,
    pub dirty_nodes: IndexSet<(usize, u64)>,
    pub nodes: Vec<Option<Node>>,
    pub widget_lifetimes: Vec<Vec<String>>,
    pub tree: Tree,
    pub node_tree: Tree,
    pub focus_tree: FocusTree,
    pub layout_cache: Vec<Option<Rect>>,
    pub focus_tracker: FocusTracker,
    pub current_z: u64,
}

/// A copy of a list of identities.
pub fn copy_ids(v: &Vec<Index>) -> (r: Vec<Index>)
    ensures
        r@ == v@,
{
    let mut r: Vec<Index> = Vec::new();
    let mut i: usize = 0;
    while i < v.len()
        invariant
            i <= v@.len(),
            r@ == v@.subrange(0, i as int),
        decreases v@.len() - i,
    {
        r.push(v[i]);
        i = i + 1;
        assert(r@ == v@.subrange(0, i as int));
    }
    assert(v@.subrange(0, v@.len() as int) == v@);
    r
}

impl Node {
    pub fn clone_value(&self) -> (r: Node)
        ensures
            r.id == self.id,
            r.resolved_styles == self.resolved_styles,
            r.raw_styles == self.raw_styles,
            r.children@ == self.children@,
            r.primitive == self.primitive,
            r.z == self.z,
    {
        Node {
            id: self.id,
            resolved_styles: self.resolved_styles.clone_value(),
            raw_styles: match &self.raw_styles {
                Some(s) => Some(s.clone_value()),
                None => None,
            },
            children: copy_ids(&self.children),
            primitive: self.primitive.clone_value(),
            z: self.z,
        }
    }
}

pub open spec fn idx(slot: int) -> Index {
    Index { slot: slot as usize, generation: 0 }
}

pub open spec fn key_of(i: Index) -> (usize, u64) {
    (i.slot, i.generation)
}

/// `s` after an insertion into an insertion-ordered set.
pub open spec fn inserted<K>(s: Seq<K>, k: K) -> Seq<K> {
    if s.contains(k) { s } else { s.push(k) }
}

pub open spec fn with_id(w: WidgetInstance, id: Index) -> WidgetInstance {
    WidgetInstance { id, ..w }
}

pub open spec fn renderable_node(n: Option<Node>) -> bool {
    &&& n is Some
    &&& !command_is_empty(n.unwrap().resolved_styles.render_command)
}

/// The nearest ancestor of `slot`, by `parents`, whose resolved node is renderable.
pub open spec fn valid_parent_in(parents: Seq<Option<Index>>, nodes: Seq<Option<Node>>, slot: int) -> Option<Index>
    decreases slot,
{
    if 0 <= slot < parents.len() {
        match parents[slot] {
            Some(p) => if 0 <= p.slot < slot {
                if renderable_node(nodes[p.slot as int]) {
                    Some(p)
                } else {
                    valid_parent_in(parents, nodes, p.slot as int)
                }
            } else {
                None
            },
            None => None,
        }
    } else {
        None
    }
}

/// The renderable descendants of `slot`, by `children`, with the children of
/// widgets that draw nothing spliced in their place.
pub open spec fn valid_children_in(children: Seq<Vec<Index>>, widgets: Seq<Option<WidgetInstance>>, slot: int) -> Seq<Index>
    decreases widgets.len() - slot, 1int, 0int,
{
    if 0 <= slot < widgets.len() && slot < children.len() {
        valid_children_from_in(children, widgets, slot, children[slot]@, 0)
    } else {
        Seq::empty()
    }
}

/// The renderable descendants contributed by `kids[i..]`, children of `ps`.
pub open spec fn valid_children_from_in(
    children: Seq<Vec<Index>>,
    widgets: Seq<Option<WidgetInstance>>,
    ps: int,
    kids: Seq<Index>,
    i: int,
) -> Seq<Index>
    decreases widgets.len() - ps, 0int, kids.len() - i,
{
    if 0 <= i < kids.len() {
        let c = kids[i];
        let rest = valid_children_from_in(children, widgets, ps, kids, i + 1);
        if ps < c.slot < widgets.len() {
            match widgets[c.slot as int] {
                None => rest,
                Some(w) => if declared_renderable(Some(w)) {
                    seq![c] + rest
                } else {
                    valid_children_in(children, widgets, c.slot as int) + rest
                },
            }
        } else {
            rest
        }
    } else {
        Seq::empty()
    }
}

/// The focus-eligible identities among the first `k` slots, the root always first.
pub open spec fn focus_list_in(t: FocusTracker, k: int) -> Seq<Index>
    decreases k,
{
    if k <= 1 {
        seq![idx(0)]
    } else if t.focusability(k - 1) == Some(true) {
        focus_list_in(t, k - 1).push(idx(k - 1))
    } else {
        focus_list_in(t, k - 1)
    }
}

/// The nearest ancestor of `slot`, by `parents`, among `members`.
pub open spec fn focus_parent_in(parents: Seq<Option<Index>>, members: Seq<Index>, slot: int) -> Option<Index>
    decreases slot,
{
    if 0 <= slot < parents.len() {
        match parents[slot] {
            Some(p) => if 0 <= p.slot < slot {
                if members.contains(p) {
                    Some(p)
                } else {
                    focus_parent_in(parents, members, p.slot as int)
                }
            } else {
                None
            },
            None => None,
        }
    } else {
        None
    }
}

/// A text primitive told the size of the box it is measured against.
pub open spec fn with_parent_size(p: RenderPrimitive, w: u32, h: u32) -> RenderPrimitive {
    match p {
        RenderPrimitive::Text { content, font, size, line_height, layout, .. } => RenderPrimitive::Text {
            content,
            font,
            size,
            line_height,
            parent_width: w,
            parent_height: h,
            layout,
        },
        _ => p,
    }
}

pub open spec fn sat_inc(z: u64) -> u64 {
    if z == u64::MAX { z } else { (z + 1) as u64 }
}

/// Whether a widget's declared style asks for a non-empty primitive.
pub open spec fn declared_renderable(w: Option<WidgetInstance>) -> bool {
    &&& w is Some
    &&& w.unwrap().styles is Some
    &&& !command_is_empty(w.unwrap().styles.unwrap().render_command)
}

pub open spec fn tree_wf(t: Tree, n: int) -> bool {
    &&& t.parents@.len() == n
    &&& t.children@.len() == n
    &&& t.root_node is Some ==> t.root_node.unwrap().slot < n && t.root_node.unwrap().generation == 0
    &&& forall|i: int| 0 <= i < n && (#[trigger] t.parents@[i]) is Some
        ==> t.parents@[i].unwrap().slot < i && t.parents@[i].unwrap().generation == 0
    &&& forall|i: int, j: int| 0 <= i < n && 0 <= j < t.children@[i]@.len()
        ==> i < (#[trigger] t.children@[i]@[j]).slot < n && t.children@[i]@[j].generation == 0
}

/// What an insertion-ordered set holds after inserting `k`.
pub proof fn lemma_inserted(s: Seq<(usize, u64)>, k: (usize, u64), n: int)
    ensures
        forall|x: (usize, u64)| #[trigger] inserted(s, k).contains(x) <==> (s.contains(x) || x == k),
        keys_wf(s, n) && k.0 < n && k.1 == 0 ==> keys_wf(inserted(s, k), n),
{
    crate::dirty_set::lemma_push_contains(s, k);
    if keys_wf(s, n) && k.0 < n && k.1 == 0 && !s.contains(k) {
        assert forall|j: int| 0 <= j < s.push(k).len() implies (#[trigger] s.push(k)[j]).0 < n && s.push(k)[j].1 == 0 by {
            if j < s.len() {
                assert(s.push(k)[j] == s[j]);
            }
        }
    }
}

pub open spec fn keys_wf(s: Seq<(usize, u64)>, n: int) -> bool {
    forall|j: int| 0 <= j < s.len() ==> (#[trigger] s[j]).0 < n && s[j].1 == 0
}

/// The effect of `create_widget(index, widget, parent)` taking `a` to `b` with result `r`.
pub open spec fn created(
    a: WidgetManager,
    b: WidgetManager,
    index: usize,
    widget: WidgetInstance,
    parent: Option<Index>,
    r: (bool, Index),
) -> bool {
    &&& r.0
    &&& b.valid_id(r.1)
    &&& b.current_widgets@[r.1.slot as int] == Some(with_id(widget, r.1))
    &&& set_items(b.dirty_render_nodes) == inserted(set_items(a.dirty_render_nodes), key_of(r.1))
    &&& b.dirty_nodes == a.dirty_nodes
    &&& b.current_z == a.current_z
    &&& b.focus_tree == a.focus_tree
    &&& b.focus_tracker.focusability(r.1.slot as int) == (if a.tree.root_node is None {
        Some(true)
    } else {
        widget.focusable
    })
    &&& b.focus_tracker.parent@[r.1.slot as int] == (if a.tree.root_node is None {
        Some(true)
    } else {
        widget.focusable
    })
    &&& (parent is Some && index < a.tree.children@[parent.unwrap().slot as int]@.len()) ==> {
        &&& r.1 == a.tree.children@[parent.unwrap().slot as int]@[index as int]
        &&& b.len() == a.len()
        &&& b.tree == a.tree
        &&& b.nodes == a.nodes
        &&& b.node_tree == a.node_tree
        &&& b.layout_cache == a.layout_cache
        &&& b.widget_lifetimes == a.widget_lifetimes
        &&& b.current_widgets@ == a.current_widgets@.update(r.1.slot as int, Some(with_id(widget, r.1)))
    }
    &&& !(parent is Some && index < a.tree.children@[parent.unwrap().slot as int]@.len()) ==> {
        &&& r.1 == idx(a.len())
        &&& b.len() == a.len() + 1
        &&& b.current_widgets@ == a.current_widgets@.push(Some(with_id(widget, r.1)))
        &&& b.nodes@ == a.nodes@.push(None)
        &&& b.layout_cache@ == a.layout_cache@.push(Some(zero_rect()))
        &&& b.tree.parents@ == a.tree.parents@.push(parent)
        &&& b.tree.children@.len() == a.len() + 1
        &&& b.tree.children@[a.len()]@ == Seq::<Index>::empty()
        &&& forall|i: int| 0 <= i < a.len() && !(parent is Some && i == parent.unwrap().slot)
            ==> #[trigger] b.tree.children@[i] == a.tree.children@[i]
        &&& parent is Some ==> b.tree.root_node == a.tree.root_node
            && b.tree.children@[parent.unwrap().slot as int]@ == a.tree.children@[parent.unwrap().slot as int]@.push(r.1)
        &&& parent is None ==> b.tree.root_node == Some(r.1)
    }
}

/// The effect of resolving `id` (see `resolve_node`), taking `a` to `b`, with
/// the text measurement `r` applied.
pub open spec fn resolved(a: WidgetManager, b: WidgetManager, id: Index, r: Option<(u32, u32)>) -> bool {
    &&& b.nodes@.len() == a.nodes@.len()
    &&& forall|i: int| 0 <= i < a.len() && i != id.slot ==> #[trigger] b.nodes@[i] == a.nodes@[i]
    &&& b.nodes@[id.slot as int] is Some
    &&& ({
                let slot = id.slot as int;
                let declared = a.current_widgets@[slot].unwrap().styles;
                let cascaded = cascade(declared, a.parent_styles(slot));
                let node = b.nodes@[slot].unwrap();
                &&& node.id == id
                &&& node.raw_styles == declared
                &&& node.children@ == a.tree.children@[slot]@
                &&& node.resolved_styles == fill_measured(cascaded, r)
                &&& a.measure_request(slot, cascaded) is None ==> r is None
                &&& r is None ==> node.primitive == primitive_of(cascaded)
                &&& r is Some ==> node.primitive == with_parent_size(
                    primitive_of(cascaded),
                    a.measure_request(slot, cascaded).unwrap().max_width,
                    a.measure_request(slot, cascaded).unwrap().max_height,
                )
                &&& a.parent_z(slot) is Some ==> node.z == sat_inc(a.parent_z(slot).unwrap())
                    && b.current_z == a.current_z
                &&& a.parent_z(slot) is None ==> node.z == a.current_z
                    && b.current_z == sat_inc(a.current_z)
            })
    &&& b.current_widgets == a.current_widgets
    &&& b.tree == a.tree
    &&& b.node_tree == a.node_tree
    &&& b.layout_cache == a.layout_cache
    &&& b.focus_tracker == a.focus_tracker
    &&& b.focus_tree == a.focus_tree
    &&& b.dirty_render_nodes == a.dirty_render_nodes
    &&& b.dirty_nodes == a.dirty_nodes
    &&& ({
        let cascaded = cascade(a.current_widgets@[id.slot as int].unwrap().styles, a.parent_styles(id.slot as int));
        &&& b.widget_lifetimes@.len() == a.widget_lifetimes@.len()
        &&& forall|i: int| 0 <= i < a.len() && i != id.slot ==> #[trigger] b.widget_lifetimes@[i] == a.widget_lifetimes@[i]
        &&& primitive_of(cascaded) is Text ==> b.widget_lifetimes@[id.slot as int]@
            == a.widget_lifetimes@[id.slot as int]@.push(primitive_of(cascaded)->Text_font)
        &&& !(primitive_of(cascaded) is Text) ==> b.widget_lifetimes@[id.slot as int] == a.widget_lifetimes@[id.slot as int]
    })
}

/// `trace` runs from `a` through one resolution for each identity of
/// `drained`, in order, the `j`-th with the text measurement `ms[j]`.
pub open spec fn resolution_trace(
    a: WidgetManager,
    drained: Seq<(usize, u64)>,
    trace: Seq<WidgetManager>,
    ms: Seq<Option<(u32, u32)>>,
) -> bool {
    &&& trace.len() == drained.len() + 1
    &&& ms.len() == drained.len()
    &&& trace[0].nodes == a.nodes
    &&& trace[0].current_z == a.current_z
    &&& trace[0].widget_lifetimes == a.widget_lifetimes
    &&& trace[0].tree == a.tree
    &&& trace[0].current_widgets == a.current_widgets
    &&& trace[0].layout_cache == a.layout_cache
    &&& forall|j: int| 0 <= j < drained.len() ==> resolved(
        #[trigger] trace[j],
        trace[j + 1],
        Index { slot: drained[j].0, generation: drained[j].1 },
        ms[j],
    )
}

impl WidgetManager {
    pub open spec fn len(&self) -> int {
        self.current_widgets@.len() as int
    }

    /// The engine's invariant: every per-slot table covers every slot, every
    /// widget carries its own identity, parents come before their children, and
    /// dirty sets hold live identities.
    pub open spec fn wf(&self) -> bool {
        let n = self.len();
        &&& self.nodes@.len() == n
        &&& self.widget_lifetimes@.len() == n
        &&& self.layout_cache@.len() == n
        &&& self.focus_tracker.parent@.len() == n
        &&& self.focus_tracker.child@.len() == n
        &&& tree_wf(self.tree, n)
        &&& tree_wf(self.node_tree, n)
        &&& keys_wf(set_items(self.dirty_render_nodes), n)
        &&& keys_wf(set_items(self.dirty_nodes), n)
        &&& forall|i: int| 0 <= i < n && (#[trigger] self.current_widgets@[i]) is Some
            ==> self.current_widgets@[i].unwrap().id == idx(i)
    }

    pub open spec fn valid_id(&self, id: Index) -> bool {
        id.slot < self.len() && id.generation == 0
    }

    /// Whether every slot holds its widget (none is taken out).
    pub open spec fn all_present(&self) -> bool {
        forall|i: int| 0 <= i < self.len() ==> (#[trigger] self.current_widgets@[i]) is Some
    }

    pub fn new() -> (r: WidgetManager)
        ensures
            r.wf(),
            r.len() == 0,
            set_items(r.dirty_render_nodes) == Seq::<(usize, u64)>::empty(),
            set_items(r.dirty_nodes) == Seq::<(usize, u64)>::empty(),
            r.tree.root_node is None,
            r.node_tree.root_node is None,
            r.current_z == 0,
            r.nodes@.len() == 0,
            r.layout_cache@.len() == 0,
            r.focus_tree.nodes@ == Seq::<Index>::empty(),
            r.focus_tree.current is None,
    {
        WidgetManager {
            current_widgets: Vec::new(),
            dirty_render_nodes: set_new(),
            dirty_nodes: set_new(),
            nodes: Vec::new(),
            widget_lifetimes: Vec::new(),
            tree: Tree { root_node: None, parents: Vec::new(), children: Vec::new() },
            node_tree: Tree { root_node: None, parents: Vec::new(), children: Vec::new() },
            focus_tree: FocusTree::new(),
            layout_cache: Vec::new(),
            focus_tracker: FocusTracker::new(),
            current_z: 0,
        }
    }

    /// Marks the root for re-evaluation; with `force`, marks every widget for
    /// re-evaluation and for rendering.
    pub fn dirty(&mut self, force: bool)
        requires
            old(self).wf(),
            old(self).tree.root_node is Some,
        ensures
            final(self).wf(),
            final(self).len() == old(self).len(),
            final(self).tree == old(self).tree,
            final(self).nodes == old(self).nodes,
            final(self).current_widgets == old(self).current_widgets,
            !force ==> set_items(final(self).dirty_nodes) == inserted(
                set_items(old(self).dirty_nodes),
                key_of(old(self).tree.root_node.unwrap()),
            ),
            !force ==> final(self).dirty_render_nodes == old(self).dirty_render_nodes,
            force ==> forall|k: (usize, u64)|
                set_items(final(self).dirty_nodes).contains(k) <==> (set_items(old(self).dirty_nodes).contains(k)
                    || k == key_of(old(self).tree.root_node.unwrap()) || (k.0 < old(self).len() && k.1 == 0)),
            force ==> forall|k: (usize, u64)|
                set_items(final(self).dirty_render_nodes).contains(k) <==> (set_items(old(self).dirty_render_nodes).contains(k)
                    || (k.0 < old(self).len() && k.1 == 0)),
    {
        let root = self.tree.root_node.unwrap();
        proof {
            lemma_inserted(set_items(self.dirty_nodes), key_of(root), self.len());
        }
        set_insert(&mut self.dirty_nodes, (root.slot, root.generation));
        if force {
            let n = self.current_widgets.len();
            let mut i: usize = 0;
            while i < n
                invariant
                    self.wf(),
                    n == self.len(),
                    i <= n,
                    self.len() == old(self).len(),
                    self.tree == old(self).tree,
                    self.nodes == old(self).nodes,
                    self.current_widgets == old(self).current_widgets,
                    forall|k: (usize, u64)|
                        set_items(self.dirty_nodes).contains(k) <==> (set_items(old(self).dirty_nodes).contains(k)
                            || k == key_of(root) || (k.0 < i && k.1 == 0)),
                    forall|k: (usize, u64)|
                        set_items(self.dirty_render_nodes).contains(k) <==> (set_items(old(self).dirty_render_nodes).contains(k)
                            || (k.0 < i && k.1 == 0)),
                decreases n - i,
            {
                proof {
                    lemma_inserted(set_items(self.dirty_nodes), (i, 0u64), n as int);
                    lemma_inserted(set_items(self.dirty_render_nodes), (i, 0u64), n as int);
                }
                set_insert(&mut self.dirty_nodes, (i, 0));
                set_insert(&mut self.dirty_render_nodes, (i, 0));
                i = i + 1;
            }
        }
    }

    /// Records (or, with `None`, forgets) the focus eligibility of `index`.
    pub fn set_focusable(&mut self, focusable: Option<bool>, index: Index, is_parent: bool)
        requires
            old(self).wf(),
        ensures
            final(self).wf(),
            old(self).valid_id(index) ==> final(self).focus_tracker.focusability(index.slot as int) == focusable,
            old(self).valid_id(index) ==> forall|i: int| 0 <= i < old(self).len() && i != index.slot
                ==> #[trigger] final(self).focus_tracker.focusability(i) == old(self).focus_tracker.focusability(i),
            old(self).valid_id(index) && is_parent ==> final(self).focus_tracker.parent@
                == old(self).focus_tracker.parent@.update(index.slot as int, focusable),
            !old(self).valid_id(index) ==> final(self).focus_tracker == old(self).focus_tracker,
            final(self).focus_tree == old(self).focus_tree,
            final(self).node_tree == old(self).node_tree,
            final(self).widget_lifetimes == old(self).widget_lifetimes,
            final(self).current_z == old(self).current_z,
            final(self).current_widgets == old(self).current_widgets,
            final(self).tree == old(self).tree,
            final(self).nodes == old(self).nodes,
            final(self).layout_cache == old(self).layout_cache,
            final(self).dirty_render_nodes == old(self).dirty_render_nodes,
            final(self).dirty_nodes == old(self).dirty_nodes,
    {
        if index.slot < self.current_widgets.len() && index.generation == 0 {
            self.focus_tracker.set_focusability(index.slot, focusable, is_parent);
        }
    }

    /// The focus eligibility of `index`, if one was declared.
    pub fn get_focusable(&self, index: Index) -> (r: Option<bool>)
        requires
            self.wf(),
        ensures
            self.valid_id(index) ==> r == self.focus_tracker.focusability(index.slot as int),
            !self.valid_id(index) ==> r is None,
    {
        if index.slot < self.current_widgets.len() && index.generation == 0 {
            self.focus_tracker.get_focusability(index.slot)
        } else {
            None
        }
    }

    /// Inserts `widget` at position `index` among the children of `parent`.
    /// If that position is taken, the widget there is replaced and keeps its
    /// identity; otherwise a new identity is made and appended to `parent`'s
    /// children (or becomes the root, without a parent).
    pub fn create_widget(&mut self, index: usize, widget: WidgetInstance, parent: Option<Index>) -> (r: (bool, Index))
        requires
            old(self).wf(),
            parent is Some ==> old(self).valid_id(parent.unwrap()),
            old(self).len() < usize::MAX,
        ensures
            final(self).wf(),
            created(*old(self), *final(self), index, widget, parent, r),
    {
        let focusable = if self.tree.root_node.is_none() {
            Some(true)
        } else {
            widget.focusable
        };
        let mut widget = widget;
        if let Some(p) = parent {
            if index < self.tree.children[p.slot].len() {
                // Update in place: the slot keeps its identity.
                let widget_id = self.tree.children[p.slot][index];
                widget.id = widget_id;
                self.set_focusable(focusable, widget_id, true);
                self.current_widgets[widget_id.slot] = Some(widget);
                proof {
                    lemma_inserted(set_items(self.dirty_render_nodes), key_of(widget_id), self.len());
                }
                set_insert(&mut self.dirty_render_nodes, (widget_id.slot, widget_id.generation));
                assert(forall|i: int| 0 <= i < self.len() && (#[trigger] self.current_widgets@[i]) is Some
                    ==> self.current_widgets@[i].unwrap().id == idx(i));
                return (true, widget_id);
            }
        }
        let slot = self.current_widgets.len();
        let widget_id = Index { slot, generation: 0 };
        widget.id = widget_id;
        self.current_widgets.push(Some(widget));
        self.nodes.push(None);
        self.widget_lifetimes.push(Vec::new());
        self.layout_cache.push(Some(Rect::default_rect()));
        self.focus_tracker.add_slot();
        self.node_tree.parents.push(None);
        self.node_tree.children.push(Vec::new());
        self.tree.parents.push(parent);
        self.tree.children.push(Vec::new());
        match parent {
            Some(p) => {
                self.tree.children[p.slot].push(widget_id);
            },
            None => {
                self.tree.root_node = Some(widget_id);
            },
        }
        proof {
            lemma_inserted(set_items(self.dirty_render_nodes), key_of(widget_id), self.len());
            let n = self.len();
            let t = self.tree;
            assert forall|i: int, j: int| 0 <= i < n && 0 <= j < t.children@[i]@.len()
                implies i < (#[trigger] t.children@[i]@[j]).slot < n && t.children@[i]@[j].generation == 0 by {
                if parent is Some && i == parent.unwrap().slot && j == t.children@[i]@.len() - 1 {
                } else if i < n - 1 {
                    assert(t.children@[i]@[j] == old(self).tree.children@[i]@[j]);
                }
            }
            assert forall|i: int| 0 <= i < n && (#[trigger] t.parents@[i]) is Some
                implies t.parents@[i].unwrap().slot < i && t.parents@[i].unwrap().generation == 0 by {
                if i < n - 1 {
                    assert(t.parents@[i] == old(self).tree.parents@[i]);
                }
            }
            let nt = self.node_tree;
            assert forall|i: int, j: int| 0 <= i < n && 0 <= j < nt.children@[i]@.len()
                implies i < (#[trigger] nt.children@[i]@[j]).slot < n && nt.children@[i]@[j].generation == 0 by {
                assert(nt.children@[i] == old(self).node_tree.children@[i]);
            }
            assert forall|i: int| 0 <= i < n && (#[trigger] nt.parents@[i]) is Some
                implies nt.parents@[i].unwrap().slot < i && nt.parents@[i].unwrap().generation == 0 by {
                assert(nt.parents@[i] == old(self).node_tree.parents@[i]);
            }
            assert(keys_wf(set_items(self.dirty_nodes), n));
            assert(keys_wf(set_items(self.dirty_render_nodes), n));
        }
        set_insert(&mut self.dirty_render_nodes, (widget_id.slot, widget_id.generation));
        self.set_focusable(focusable, widget_id, true);
        (true, widget_id)
    }

    /// Takes the widget out of its slot; the slot must hold one.
    pub fn take(&mut self, id: Index) -> (r: WidgetInstance)
        requires
            old(self).wf(),
            old(self).valid_id(id),
            old(self).current_widgets@[id.slot as int] is Some,
        ensures
            final(self).wf(),
            r == old(self).current_widgets@[id.slot as int].unwrap(),
            final(self).current_widgets@ == old(self).current_widgets@.update(id.slot as int, None),
            final(self).tree == old(self).tree,
            final(self).nodes == old(self).nodes,
            final(self).dirty_render_nodes == old(self).dirty_render_nodes,
            final(self).dirty_nodes == old(self).dirty_nodes,
            final(self).node_tree == old(self).node_tree,
            final(self).layout_cache == old(self).layout_cache,
            final(self).focus_tracker == old(self).focus_tracker,
            final(self).focus_tree == old(self).focus_tree,
            final(self).widget_lifetimes == old(self).widget_lifetimes,
            final(self).current_z == old(self).current_z,
    {
        let mut w: Option<WidgetInstance> = None;
        std::mem::swap(&mut w, &mut self.current_widgets[id.slot]);
        w.unwrap()
    }

    /// Puts a taken widget back into the slot of its identity.
    pub fn repossess(&mut self, widget: WidgetInstance)
        requires
            old(self).wf(),
            old(self).valid_id(widget.id),
        ensures
            final(self).wf(),
            final(self).current_widgets@ == old(self).current_widgets@.update(widget.id.slot as int, Some(widget)),
            final(self).tree == old(self).tree,
            final(self).nodes == old(self).nodes,
            final(self).dirty_render_nodes == old(self).dirty_render_nodes,
            final(self).dirty_nodes == old(self).dirty_nodes,
            final(self).node_tree == old(self).node_tree,
            final(self).layout_cache == old(self).layout_cache,
            final(self).focus_tracker == old(self).focus_tracker,
            final(self).focus_tree == old(self).focus_tree,
            final(self).widget_lifetimes == old(self).widget_lifetimes,
            final(self).current_z == old(self).current_z,
    {
        let slot = widget.id.slot;
        self.current_widgets[slot] = Some(widget);
    }

    /// The layout rectangle of `id`, if the slot exists and has one.
    pub fn get_layout(&self, id: &Index) -> (r: Option<Rect>)
        requires
            self.wf(),
        ensures
            self.valid_id(*id) ==> r == self.layout_cache@[id.slot as int],
            !self.valid_id(*id) ==> r is None,
    {
        if id.slot < self.layout_cache.len() && id.generation == 0 {
            self.layout_cache[id.slot]
        } else {
            None
        }
    }

    /// Writes the layout rectangle that the layout solver computed for `id`.
    pub fn set_layout(&mut self, id: &Index, rect: Rect)
        requires
            old(self).wf(),
            old(self).valid_id(*id),
        ensures
            final(self).wf(),
            final(self).layout_cache@ == old(self).layout_cache@.update(id.slot as int, Some(rect)),
            final(self).current_widgets == old(self).current_widgets,
            final(self).tree == old(self).tree,
            final(self).node_tree == old(self).node_tree,
            final(self).nodes == old(self).nodes,
    {
        self.layout_cache[id.slot] = Some(rect);
    }

    /// The name of the widget in the slot of `id`, if it holds one.
    pub fn get_name(&self, id: &Index) -> (r: Option<String>)
        requires
            self.wf(),
        ensures
            self.valid_id(*id) && self.current_widgets@[id.slot as int] is Some
                ==> r == Some(self.current_widgets@[id.slot as int].unwrap().name),
            !(self.valid_id(*id) && self.current_widgets@[id.slot as int] is Some) ==> r is None,
    {
        if id.slot < self.current_widgets.len() && id.generation == 0 {
            if let Some(w) = &self.current_widgets[id.slot] {
                return Some(w.name.clone());
            }
        }
        None
    }

    /// The resolved node of `id`, if it has been rendered.
    pub fn get_node(&self, id: &Index) -> (r: Option<Node>)
        requires
            self.wf(),
        ensures
            self.valid_id(*id) && self.nodes@[id.slot as int] is Some ==> r is Some
                && r.unwrap().id == self.nodes@[id.slot as int].unwrap().id
                && r.unwrap().resolved_styles == self.nodes@[id.slot as int].unwrap().resolved_styles
                && r.unwrap().raw_styles == self.nodes@[id.slot as int].unwrap().raw_styles
                && r.unwrap().children@ == self.nodes@[id.slot as int].unwrap().children@
                && r.unwrap().primitive == self.nodes@[id.slot as int].unwrap().primitive
                && r.unwrap().z == self.nodes@[id.slot as int].unwrap().z,
            !(self.valid_id(*id) && self.nodes@[id.slot as int] is Some) ==> r is None,
    {
        if id.slot < self.nodes.len() && id.generation == 0 {
            match &self.nodes[id.slot] {
                Some(node) => Some(node.clone_value()),
                None => None,
            }
        } else {
            None
        }
    }

    /// Subscribes `id` to the font asset `font`: when it changes, `id` is
    /// marked for re-evaluation (see `binding_changed`).
    pub(crate) fn bind(&mut self, id: Index, font: &String)
        requires
            old(self).wf(),
            old(self).valid_id(id),
        ensures
            final(self).wf(),
            final(self).widget_lifetimes@.len() == old(self).widget_lifetimes@.len(),
            final(self).widget_lifetimes@[id.slot as int]@ == old(self).widget_lifetimes@[id.slot as int]@.push(*font),
            forall|i: int| 0 <= i < old(self).len() && i != id.slot
                ==> #[trigger] final(self).widget_lifetimes@[i] == old(self).widget_lifetimes@[i],
            final(self).current_widgets == old(self).current_widgets,
            final(self).tree == old(self).tree,
            final(self).node_tree == old(self).node_tree,
            final(self).nodes == old(self).nodes,
            final(self).layout_cache == old(self).layout_cache,
            final(self).focus_tracker == old(self).focus_tracker,
            final(self).focus_tree == old(self).focus_tree,
            final(self).dirty_render_nodes == old(self).dirty_render_nodes,
            final(self).dirty_nodes == old(self).dirty_nodes,
            final(self).current_z == old(self).current_z,
    {
        self.widget_lifetimes[id.slot].push(font.clone());
    }

    /// Removes the binding at position `binding_id` of `id`'s bindings; false when
    /// there is no such binding.
    pub fn unbind(&mut self, id: Index, binding_id: usize) -> (r: bool)
        requires
            old(self).wf(),
        ensures
            final(self).wf(),
            r == (old(self).valid_id(id) && binding_id < old(self).widget_lifetimes@[id.slot as int]@.len()),
            r ==> final(self).widget_lifetimes@.len() == old(self).widget_lifetimes@.len()
                && final(self).widget_lifetimes@[id.slot as int]@ == old(self).widget_lifetimes@[id.slot as int]@.remove(
                binding_id as int,
            ) && forall|i: int| 0 <= i < old(self).len() && i != id.slot
                ==> #[trigger] final(self).widget_lifetimes@[i] == old(self).widget_lifetimes@[i],
            !r ==> *final(self) == *old(self),
            final(self).current_widgets == old(self).current_widgets,
            final(self).tree == old(self).tree,
            final(self).node_tree == old(self).node_tree,
            final(self).nodes == old(self).nodes,
            final(self).layout_cache == old(self).layout_cache,
            final(self).focus_tracker == old(self).focus_tracker,
            final(self).focus_tree == old(self).focus_tree,
            final(self).dirty_render_nodes == old(self).dirty_render_nodes,
            final(self).dirty_nodes == old(self).dirty_nodes,
            final(self).current_z == old(self).current_z,
    {
        if id.slot < self.widget_lifetimes.len() && id.generation == 0 {
            if binding_id < self.widget_lifetimes[id.slot].len() {
                self.widget_lifetimes[id.slot].remove(binding_id);
                return true;
            }
        }
        false
    }

    /// A binding of `id` fired: `id` is marked for re-evaluation if it holds any binding.
    pub fn binding_changed(&mut self, id: Index)
        requires
            old(self).wf(),
        ensures
            final(self).wf(),
            (old(self).valid_id(id) && old(self).widget_lifetimes@[id.slot as int]@.len() > 0)
                ==> set_items(final(self).dirty_nodes) == inserted(set_items(old(self).dirty_nodes), key_of(id)),
            !(old(self).valid_id(id) && old(self).widget_lifetimes@[id.slot as int]@.len() > 0)
                ==> final(self).dirty_nodes == old(self).dirty_nodes,
            final(self).dirty_render_nodes == old(self).dirty_render_nodes,
            final(self).current_widgets == old(self).current_widgets,
            final(self).nodes == old(self).nodes,
    {
        if id.slot < self.widget_lifetimes.len() && id.generation == 0 && self.widget_lifetimes[id.slot].len() > 0 {
            proof {
                lemma_inserted(set_items(self.dirty_nodes), key_of(id), self.len());
            }
            set_insert(&mut self.dirty_nodes, (id.slot, id.generation));
        }
    }

    /// Whether `id` waits for primitive regeneration.
    pub fn is_render_dirty(&self, id: Index) -> (r: bool)
        ensures
            r == set_items(self.dirty_render_nodes).contains(key_of(id)),
    {
        set_contains(&self.dirty_render_nodes, (id.slot, id.generation))
    }

    /// Whether `id` waits for re-evaluation.
    pub fn is_reevaluation_dirty(&self, id: Index) -> (r: bool)
        ensures
            r == set_items(self.dirty_nodes).contains(key_of(id)),
    {
        set_contains(&self.dirty_nodes, (id.slot, id.generation))
    }

    /// The identities that wait for re-evaluation, oldest mark first.
    pub fn reevaluation_dirty(&self) -> (r: Vec<(usize, u64)>)
        ensures
            r@ == set_items(self.dirty_nodes),
    {
        set_to_vec(&self.dirty_nodes)
    }

    /// Whether the resolved node of `slot` asks for a non-empty primitive.
    pub open spec fn node_renderable(&self, slot: int) -> bool {
        &&& self.nodes@[slot] is Some
        &&& !command_is_empty(self.nodes@[slot].unwrap().resolved_styles.render_command)
    }

    /// The nearest full-tree ancestor of `slot` whose resolved node is renderable.
    pub open spec fn valid_parent(&self, slot: int) -> Option<Index> {
        valid_parent_in(self.tree.parents@, self.nodes@, slot)
    }

    /// The renderable descendants of `slot`: children whose declared style is
    /// non-empty, with the children of the others spliced in their place.
    pub open spec fn valid_children(&self, slot: int) -> Seq<Index> {
        valid_children_in(self.tree.children@, self.current_widgets@, slot)
    }

    pub open spec fn valid_children_from(&self, ps: int, kids: Seq<Index>, i: int) -> Seq<Index> {
        valid_children_from_in(self.tree.children@, self.current_widgets@, ps, kids, i)
    }

    /// The focus-eligible identities among the first `k` slots, the root always first.
    pub open spec fn focus_list(&self, k: int) -> Seq<Index> {
        focus_list_in(self.focus_tracker, k)
    }

    /// Whether each entry of `f` sits under its nearest full-tree ancestor among
    /// the focus-eligible identities before it.
    pub open spec fn focus_tree_shaped(&self, f: FocusTree) -> bool {
        &&& f.parents@.len() == f.nodes@.len()
        &&& forall|j: int| 0 <= j < f.nodes@.len() ==> #[trigger] f.parents@[j] == focus_parent_in(
            self.tree.parents@,
            self.focus_list(f.nodes@[j].slot as int),
            f.nodes@[j].slot as int,
        )
    }

    /// The nearest ancestor of `id` in the focus tree being built.
    fn focus_parent_of(&self, id: Index) -> (r: Option<Index>)
        requires
            self.wf(),
            self.valid_id(id),
        ensures
            r == focus_parent_in(self.tree.parents@, self.focus_tree.nodes@, id.slot as int),
        decreases id.slot,
    {
        match self.tree.parents[id.slot] {
            Some(p) => {
                if self.focus_tree.contains(p) {
                    Some(p)
                } else {
                    self.focus_parent_of(p)
                }
            },
            None => None,
        }
    }

    /// Whether `t` is the renderable tree of this engine.
    pub open spec fn is_renderable_tree(&self, t: Tree) -> bool {
        let n = self.len();
        &&& t.root_node == Some(idx(0))
        &&& t.parents@.len() == n
        &&& t.children@.len() == n
        &&& t.parents@[0] is None
        &&& t.children@[0]@ == self.valid_children(0)
        &&& forall|i: int| 1 <= i < n ==> {
            &&& declared_renderable(#[trigger] self.current_widgets@[i]) ==> t.children@[i]@ == self.valid_children(i)
                && t.parents@[i] == self.valid_parent(i)
            &&& !declared_renderable(self.current_widgets@[i]) ==> t.children@[i]@ == Seq::<Index>::empty()
                && t.parents@[i] is None
        }
    }

    /// The nearest ancestor of `node_id` whose resolved node is renderable.
    pub fn get_valid_parent(&self, node_id: Index) -> (r: Option<Index>)
        requires
            self.wf(),
        ensures
            self.valid_id(node_id) ==> r == self.valid_parent(node_id.slot as int),
            !self.valid_id(node_id) ==> r is None,
            r is Some ==> self.valid_id(r.unwrap()),
    {
        if node_id.slot < self.current_widgets.len() && node_id.generation == 0 {
            self.valid_parent_of(node_id)
        } else {
            None
        }
    }

    fn valid_parent_of(&self, node_id: Index) -> (r: Option<Index>)
        requires
            self.wf(),
            self.valid_id(node_id),
        ensures
            r == self.valid_parent(node_id.slot as int),
            r is Some ==> r.unwrap().slot < node_id.slot && r.unwrap().generation == 0,
        decreases node_id.slot,
    {
        if let Some(parent_id) = self.tree.parents[node_id.slot] {
            if let Some(parent_node) = &self.nodes[parent_id.slot] {
                if !is_empty_command(&parent_node.resolved_styles.render_command) {
                    return Some(parent_id);
                }
            }
            let r = self.valid_parent_of(parent_id);
            return r;
        }
        None
    }

    /// The renderable descendants of `node_id`, with empty wrappers flattened out.
    fn get_valid_node_children(&self, node_id: Index) -> (r: Vec<Index>)
        requires
            self.wf(),
            self.valid_id(node_id),
        ensures
            r@ == self.valid_children(node_id.slot as int),
            forall|j: int| 0 <= j < r@.len() ==> node_id.slot < (#[trigger] r@[j]).slot < self.len()
                && r@[j].generation == 0,
        decreases self.len() - node_id.slot,
    {
        let ps = node_id.slot;
        let kids = &self.tree.children[ps];
        let mut children: Vec<Index> = Vec::new();
        let mut i: usize = 0;
        while i < kids.len()
            invariant
                self.wf(),
                ps == node_id.slot,
                ps < self.len(),
                *kids == self.tree.children@[ps as int],
                i <= kids@.len(),
                children@ + self.valid_children_from(ps as int, kids@, i as int) == self.valid_children(ps as int),
                forall|j: int| 0 <= j < children@.len() ==> ps < (#[trigger] children@[j]).slot < self.len()
                    && children@[j].generation == 0,
            decreases kids@.len() - i,
        {
            let child_id = kids[i];
            assert(ps < child_id.slot < self.len() && child_id.generation == 0);
            let ghost before = children@;
            match &self.current_widgets[child_id.slot] {
                None => {},
                Some(child_widget) => {
                    let renderable = match &child_widget.styles {
                        Some(st) => !is_empty_command(&st.render_command),
                        None => false,
                    };
                    if renderable {
                        children.push(child_id);
                        assert(children@ == before + seq![child_id]);
                    } else {
                        let sub = self.get_valid_node_children(child_id);
                        let mut k: usize = 0;
                        while k < sub.len()
                            invariant
                                k <= sub@.len(),
                                children@ == before + sub@.subrange(0, k as int),
                                forall|j: int| 0 <= j < before.len() ==> ps < (#[trigger] before[j]).slot < self.len()
                                    && before[j].generation == 0,
                                forall|j: int| 0 <= j < sub@.len() ==> child_id.slot < (#[trigger] sub@[j]).slot < self.len()
                                    && sub@[j].generation == 0,
                            decreases sub@.len() - k,
                        {
                            children.push(sub[k]);
                            k = k + 1;
                            assert(children@ == before + sub@.subrange(0, k as int));
                        }
                        assert(sub@.subrange(0, sub@.len() as int) == sub@);
                        assert forall|j: int| 0 <= j < children@.len() implies ps < (#[trigger] children@[j]).slot < self.len()
                            && children@[j].generation == 0 by {
                            if j >= before.len() {
                                assert(children@[j] == sub@[j - before.len()]);
                            }
                        }
                    }
                },
            }
            assert(self.valid_children_from(ps as int, kids@, i as int)
                == ((match self.current_widgets@[child_id.slot as int] {
                    None => Seq::empty(),
                    Some(w) => if declared_renderable(Some(w)) { seq![child_id] } else { self.valid_children(child_id.slot as int) },
                }) + self.valid_children_from(ps as int, kids@, i as int + 1)));
            i = i + 1;
        }
        assert(children@ + Seq::<Index>::empty() == children@);
        children
    }

    /// Rebuilds the renderable tree from the full tree, and the focus tree with
    /// the root and every focus-eligible identity; focus stays where it was if
    /// that identity is still eligible, and is cleared otherwise.
    fn build_nodes_tree(&mut self) -> (r: Tree)
        requires
            old(self).wf(),
            old(self).len() >= 1,
            old(self).all_present(),
        ensures
            final(self).wf(),
            old(self).is_renderable_tree(r),
            tree_wf(r, old(self).len()),
            final(self).focus_tree.nodes@ == old(self).focus_list(old(self).len()),
            old(self).focus_tree_shaped(final(self).focus_tree),
            final(self).focus_tree.current == (match old(self).focus_tree.current {
                Some(c) => if final(self).focus_tree.nodes@.contains(c) { Some(c) } else { None },
                None => None,
            }),
            final(self).current_widgets == old(self).current_widgets,
            final(self).tree == old(self).tree,
            final(self).node_tree == old(self).node_tree,
            final(self).nodes == old(self).nodes,
            final(self).layout_cache == old(self).layout_cache,
            final(self).focus_tracker == old(self).focus_tracker,
            final(self).widget_lifetimes == old(self).widget_lifetimes,
            final(self).dirty_render_nodes == old(self).dirty_render_nodes,
            final(self).dirty_nodes == old(self).dirty_nodes,
            final(self).current_z == old(self).current_z,
    {
        let n = self.current_widgets.len();
        let root_id = Index { slot: 0, generation: 0 };
        let mut parents: Vec<Option<Index>> = Vec::new();
        let mut children: Vec<Vec<Index>> = Vec::new();
        parents.push(None);
        children.push(self.get_valid_node_children(root_id));

        let mut i: usize = 1;
        while i < n
            invariant
                self.wf(),
                n == self.len(),
                1 <= i <= n,
                self.all_present(),
                parents@.len() == i,
                children@.len() == i,
                parents@[0] is None,
                children@[0]@ == self.valid_children(0),
                forall|j: int| 1 <= j < i ==> {
                    &&& declared_renderable(#[trigger] self.current_widgets@[j]) ==> children@[j]@ == self.valid_children(j)
                        && parents@[j] == self.valid_parent(j)
                    &&& !declared_renderable(self.current_widgets@[j]) ==> children@[j]@ == Seq::<Index>::empty()
                        && parents@[j] is None
                },
                forall|j: int| 0 <= j < i && (#[trigger] parents@[j]) is Some
                    ==> parents@[j].unwrap().slot < j && parents@[j].unwrap().generation == 0,
                forall|j: int, k: int| 0 <= j < i && 0 <= k < children@[j]@.len()
                    ==> j < (#[trigger] children@[j]@[k]).slot < n && children@[j]@[k].generation == 0,
            decreases n - i,
        {
            let widget_id = Index { slot: i, generation: 0 };
            let renderable = match &self.current_widgets[i] {
                Some(w) => match &w.styles {
                    Some(st) => !is_empty_command(&st.render_command),
                    None => false,
                },
                None => false,
            };
            if renderable {
                children.push(self.get_valid_node_children(widget_id));
                parents.push(self.valid_parent_of(widget_id));
            } else {
                children.push(Vec::new());
                parents.push(None);
            }
            proof {
                let pp = parents@;
                let cc = children@;
                assert forall|j: int| 0 <= j < i + 1 && (#[trigger] pp[j]) is Some
                    implies pp[j].unwrap().slot < j && pp[j].unwrap().generation == 0 by {}
                assert forall|j: int, k: int| 0 <= j < i + 1 && 0 <= k < cc[j]@.len()
                    implies j < (#[trigger] cc[j]@[k]).slot < n && cc[j]@[k].generation == 0 by {}
            }
            i = i + 1;
        }
        let t = Tree { root_node: Some(root_id), parents, children };
        assert(self.is_renderable_tree(t));

        let old_focus = self.focus_tree.current();
        self.focus_tree.clear();
        self.focus_tree.add(root_id, None);
        assert(self.focus_tree.nodes@ == seq![root_id]);
        assert(old(self).tree.parents@[0] is None);
        let mut i: usize = 1;
        while i < n
            invariant
                self.wf(),
                n == self.len(),
                1 <= i <= n,
                self.current_widgets == old(self).current_widgets,
                self.tree == old(self).tree,
                self.node_tree == old(self).node_tree,
                self.nodes == old(self).nodes,
                self.layout_cache == old(self).layout_cache,
                self.focus_tracker == old(self).focus_tracker,
                self.widget_lifetimes == old(self).widget_lifetimes,
                self.dirty_render_nodes == old(self).dirty_render_nodes,
                self.dirty_nodes == old(self).dirty_nodes,
                self.current_z == old(self).current_z,
                self.focus_tree.current is None,
                self.focus_tree.nodes@ == old(self).focus_list(i as int),
                forall|j: int| 0 <= j < self.focus_tree.nodes@.len() ==> (#[trigger] self.focus_tree.nodes@[j]).slot < i,
                old(self).focus_tree_shaped(self.focus_tree),
            decreases n - i,
        {
            let widget_id = Index { slot: i, generation: 0 };
            let focusable = match self.get_focusable(widget_id) {
                Some(f) => f,
                None => false,
            };
            if focusable {
                assert(!self.focus_tree.nodes@.contains(widget_id));
                let fp = self.focus_parent_of(widget_id);
                let ghost f0 = self.focus_tree;
                self.focus_tree.add(widget_id, fp);
                proof {
                    let f = self.focus_tree;
                    assert forall|j: int| 0 <= j < f.nodes@.len() implies #[trigger] f.parents@[j] == focus_parent_in(
                        old(self).tree.parents@,
                        old(self).focus_list(f.nodes@[j].slot as int),
                        f.nodes@[j].slot as int,
                    ) by {
                        if j < f0.nodes@.len() {
                            assert(f.parents@[j] == f0.parents@[j] && f.nodes@[j] == f0.nodes@[j]);
                        }
                    }
                }
            }
            proof {
                assert forall|j: int| 0 <= j < self.focus_tree.nodes@.len()
                    implies (#[trigger] self.focus_tree.nodes@[j]).slot < i + 1 by {
                    if j < old(self).focus_list(i as int).len() {
                    }
                }
            }
            i = i + 1;
        }
        if let Some(f) = old_focus {
            if self.focus_tree.contains(f) {
                self.focus_tree.focus(f);
            }
        }
        t
    }

    /// What is measured for `slot` styled `s`: nothing unless `s` asks for text
    /// and the nearest renderable ancestor has a layout box.
    pub open spec fn measure_request(&self, slot: int, s: Style) -> Option<MeasureRequest> {
        match primitive_of(s) {
            RenderPrimitive::Text { content, font, size, line_height, .. } => match self.valid_parent(slot) {
                Some(p) => match self.layout_cache@[p.slot as int] {
                    Some(l) => Some(
                        MeasureRequest {
                            font,
                            content,
                            size,
                            line_height,
                            max_width: l.width,
                            max_height: l.height,
                        },
                    ),
                    None => None,
                },
                None => None,
            },
            _ => None,
        }
    }

    /// What the font is asked to measure for `id` styled `styles`, if anything.
    pub fn text_measure_request(&self, id: Index, styles: &Style) -> (r: Option<MeasureRequest>)
        requires
            self.wf(),
        ensures
            self.valid_id(id) ==> r == self.measure_request(id.slot as int, *styles),
            !self.valid_id(id) ==> r is None,
    {
        if id.slot >= self.current_widgets.len() || id.generation != 0 {
            return None;
        }
        match &styles.render_command {
            StyleProp::Value(RenderCommand::Text { content, font, size, line_height }) => {
                match self.get_valid_parent(id) {
                    Some(p) => match self.get_layout(&p) {
                        Some(l) => Some(
                            MeasureRequest {
                                font: font.clone(),
                                content: content.clone(),
                                size: *size,
                                line_height: *line_height,
                                max_width: l.width,
                                max_height: l.height,
                            },
                        ),
                        None => None,
                    },
                    None => None,
                }
            },
            _ => None,
        }
    }

    /// The style a widget inherits from: its parent's resolved style, else the
    /// parent's declared style, else the all-unset style.
    pub open spec fn parent_styles(&self, slot: int) -> Style {
        match self.tree.parents@[slot] {
            Some(p) => match self.nodes@[p.slot as int] {
                Some(node) => node.resolved_styles,
                None => match self.current_widgets@[p.slot as int] {
                    Some(w) => match w.styles {
                        Some(st) => st,
                        None => default_style(),
                    },
                    None => default_style(),
                },
            },
            None => default_style(),
        }
    }

    /// The depth of the parent's resolved node, if the parent has one.
    pub open spec fn parent_z(&self, slot: int) -> Option<u64> {
        match self.tree.parents@[slot] {
            Some(p) => match self.nodes@[p.slot as int] {
                Some(node) => Some(node.z),
                None => None,
            },
            None => None,
        }
    }

    /// Builds the primitive for `styles`. A text primitive binds `id` to its font;
    /// when the font measures the text against the layout box of the nearest
    /// renderable ancestor, the measured size fills the unset sizes of `styles`
    /// and is returned beside the primitive.
    fn create_primitive<A: FontMeasure>(&mut self, id: Index, styles: &mut Style, assets: &A) -> (r: (
        RenderPrimitive,
        Option<(u32, u32)>,
    ))
        requires
            old(self).wf(),
            old(self).valid_id(id),
        ensures
            final(self).wf(),
            primitive_of(*old(styles)) is Text ==> final(self).widget_lifetimes@.len() == old(self).widget_lifetimes@.len()
                && final(self).widget_lifetimes@[id.slot as int]@ == old(self).widget_lifetimes@[id.slot as int]@.push(
                primitive_of(*old(styles))->Text_font,
            ) && forall|i: int| 0 <= i < old(self).len() && i != id.slot
                ==> #[trigger] final(self).widget_lifetimes@[i] == old(self).widget_lifetimes@[i],
            !(primitive_of(*old(styles)) is Text) ==> final(self).widget_lifetimes == old(self).widget_lifetimes,
            old(self).measure_request(id.slot as int, *old(styles)) is None ==> r.1 is None,
            *final(styles) == fill_measured(*old(styles), r.1),
            r.1 is None ==> r.0 == primitive_of(*old(styles)),
            r.1 is Some ==> r.0 == with_parent_size(
                primitive_of(*old(styles)),
                old(self).measure_request(id.slot as int, *old(styles)).unwrap().max_width,
                old(self).measure_request(id.slot as int, *old(styles)).unwrap().max_height,
            ),
            final(self).current_widgets == old(self).current_widgets,
            final(self).tree == old(self).tree,
            final(self).node_tree == old(self).node_tree,
            final(self).nodes == old(self).nodes,
            final(self).layout_cache == old(self).layout_cache,
            final(self).focus_tracker == old(self).focus_tracker,
            final(self).focus_tree == old(self).focus_tree,
            final(self).dirty_render_nodes == old(self).dirty_render_nodes,
            final(self).dirty_nodes == old(self).dirty_nodes,
            final(self).current_z == old(self).current_z,
    {
        let request = self.text_measure_request(id, styles);
        let mut render_primitive = RenderPrimitive::from_style(styles);
        if let RenderPrimitive::Text { font, .. } = &render_primitive {
            self.bind(id, font);
        }
        let measured = match &request {
            Some(q) => assets.measure(&q.font, &q.content, q.size, q.line_height, q.max_width, q.max_height),
            None => None,
        };
        if let Some(q) = &request {
            apply_text_measurement(&mut render_primitive, styles, q.max_width, q.max_height, measured);
        }
        (render_primitive, measured)
    }

    /// Resolves one widget: cascades its declared style over its parent's, builds
    /// its primitive, gives it a depth, and stores the resulting node. Returns the
    /// text measurement that was applied, if any.
    pub fn resolve_node<A: FontMeasure>(&mut self, id: Index, assets: &A) -> (r: Option<(u32, u32)>)
        requires
            old(self).wf(),
            old(self).valid_id(id),
            old(self).current_widgets@[id.slot as int] is Some,
        ensures
            final(self).wf(),
            resolved(*old(self), *final(self), id, r),
    {
        let slot = id.slot;
        let default_styles = Style::new_default();
        let parent_styles = match self.tree.parents[slot] {
            Some(p) => match &self.nodes[p.slot] {
                Some(node) => node.resolved_styles.clone_value(),
                None => match &self.current_widgets[p.slot] {
                    Some(w) => match &w.styles {
                        Some(st) => st.clone_value(),
                        None => default_styles,
                    },
                    None => default_styles,
                },
            },
            None => default_styles,
        };
        let parent_z: Option<u64> = match self.tree.parents[slot] {
            Some(p) => match &self.nodes[p.slot] {
                Some(node) => Some(node.z),
                None => None,
            },
            None => None,
        };
        let z = match parent_z {
            Some(pz) => pz.saturating_add(1),
            None => {
                let z = self.current_z;
                self.current_z = self.current_z.saturating_add(1);
                z
            },
        };
        let raw_styles = match &self.current_widgets[slot] {
            Some(w) => match &w.styles {
                Some(st) => Some(st.clone_value()),
                None => None,
            },
            None => None,
        };
        let mut styles = match &raw_styles {
            Some(st) => st.clone_value(),
            None => Style::new_default(),
        };
        styles.apply(&Style::initial());
        styles.inherit(&parent_styles);
        let ghost mid = *self;
        let (primitive, measured) = self.create_primitive(id, &mut styles, assets);
        proof {
            assert(mid.valid_parent(slot as int) == old(self).valid_parent(slot as int));
        }
        let children = copy_ids(&self.tree.children[slot]);
        let node = Node { id, resolved_styles: styles, raw_styles, children, primitive, z };
        self.nodes[slot] = Some(node);
        measured
    }

    /// Resolves every widget waiting for primitive regeneration, in the order
    /// they were marked, then rebuilds the renderable tree and the focus tree.
    /// Marks made while this runs would wait for the next pass.
    pub fn render<A: FontMeasure>(&mut self, assets: &A) -> (r: Vec<Option<(u32, u32)>>)
        requires
            old(self).wf(),
            old(self).all_present(),
        ensures
            final(self).wf(),
            set_items(final(self).dirty_render_nodes) == Seq::<(usize, u64)>::empty(),
            final(self).dirty_nodes == old(self).dirty_nodes,
            final(self).current_widgets == old(self).current_widgets,
            final(self).tree == old(self).tree,
            final(self).layout_cache == old(self).layout_cache,
            final(self).nodes@.len() == old(self).nodes@.len(),
            forall|i: usize| (i as int) < old(self).len() ==> {
                &&& set_items(old(self).dirty_render_nodes).contains((i, 0u64)) ==> {
                    &&& (#[trigger] final(self).nodes@[i as int]) is Some
                    &&& final(self).nodes@[i as int].unwrap().id == idx(i as int)
                    &&& final(self).nodes@[i as int].unwrap().raw_styles == old(self).current_widgets@[i as int].unwrap().styles
                    &&& final(self).nodes@[i as int].unwrap().children@ == old(self).tree.children@[i as int]@
                }
                &&& !set_items(old(self).dirty_render_nodes).contains((i, 0u64))
                    ==> final(self).nodes@[i as int] == old(self).nodes@[i as int]
            },
            exists|trace: Seq<WidgetManager>| {
                &&& resolution_trace(*old(self), set_items(old(self).dirty_render_nodes), trace, r@)
                &&& final(self).nodes == trace.last().nodes
                &&& final(self).current_z == trace.last().current_z
                &&& final(self).widget_lifetimes == trace.last().widget_lifetimes
            },
            old(self).len() >= 1 ==> final(self).is_renderable_tree(final(self).node_tree),
            old(self).len() >= 1 ==> final(self).focus_tree.nodes@ == old(self).focus_list(old(self).len()),
            old(self).focus_tree_shaped(final(self).focus_tree),
            old(self).len() >= 1 ==> final(self).focus_tree.current == (match old(self).focus_tree.current {
                Some(c) => if final(self).focus_tree.nodes@.contains(c) { Some(c) } else { None },
                None => None,
            }),
            old(self).len() == 0 ==> final(self).node_tree.root_node is None
                && final(self).focus_tree.nodes@ == Seq::<Index>::empty()
                && final(self).focus_tree.current is None,
    {
        let dirty = set_drain_all(&mut self.dirty_render_nodes);
        let mut measured: Vec<Option<(u32, u32)>> = Vec::new();
        let ghost mut trace: Seq<WidgetManager> = seq![*self];
        let mut k: usize = 0;
        while k < dirty.len()
            invariant
                self.wf(),
                self.len() == old(self).len(),
                self.all_present(),
                k <= dirty@.len(),
                dirty@ == set_items(old(self).dirty_render_nodes),
                keys_wf(dirty@, self.len()),
                trace.len() == k + 1,
                measured@.len() == k,
                trace[k as int] == *self,
                trace[0].nodes == old(self).nodes,
                trace[0].current_z == old(self).current_z,
                trace[0].widget_lifetimes == old(self).widget_lifetimes,
                trace[0].tree == old(self).tree,
                trace[0].current_widgets == old(self).current_widgets,
                trace[0].layout_cache == old(self).layout_cache,
                forall|j: int| 0 <= j < k ==> resolved(
                    #[trigger] trace[j],
                    trace[j + 1],
                    Index { slot: dirty@[j].0, generation: dirty@[j].1 },
                    measured@[j],
                ),
                set_items(self.dirty_render_nodes) == Seq::<(usize, u64)>::empty(),
                self.dirty_nodes == old(self).dirty_nodes,
                self.current_widgets == old(self).current_widgets,
                self.tree == old(self).tree,
                self.layout_cache == old(self).layout_cache,
                self.focus_tracker == old(self).focus_tracker,
                self.focus_tree == old(self).focus_tree,
                self.nodes@.len() == old(self).nodes@.len(),
                forall|i: usize| (i as int) < old(self).len() ==> {
                    &&& dirty@.subrange(0, k as int).contains((i, 0u64)) ==> {
                        &&& (#[trigger] self.nodes@[i as int]) is Some
                        &&& self.nodes@[i as int].unwrap().id == idx(i as int)
                        &&& self.nodes@[i as int].unwrap().raw_styles == old(self).current_widgets@[i as int].unwrap().styles
                        &&& self.nodes@[i as int].unwrap().children@ == old(self).tree.children@[i as int]@
                    }
                    &&& !dirty@.subrange(0, k as int).contains((i, 0u64)) ==> self.nodes@[i as int] == old(self).nodes@[i as int]
                },
            decreases dirty@.len() - k,
        {
            let key = dirty[k];
            assert(key.0 < self.len() && key.1 == 0);
            let id = Index { slot: key.0, generation: key.1 };
            let ghost before = *self;
            let m = self.resolve_node(id, assets);
            measured.push(m);
            proof {
                let t0 = trace;
                trace = trace.push(*self);
                assert forall|j: int| 0 <= j < k + 1 implies resolved(
                    #[trigger] trace[j],
                    trace[j + 1],
                    Index { slot: dirty@[j].0, generation: dirty@[j].1 },
                    measured@[j],
                ) by {
                    if j < k {
                        assert(trace[j] == t0[j] && trace[j + 1] == t0[j + 1]);
                    }
                }
            }
            proof {
                let pre = dirty@.subrange(0, k as int);
                let post = dirty@.subrange(0, k as int + 1);
                assert(post == pre.push(key));
                crate::dirty_set::lemma_push_contains(pre, key);
                assert forall|i: usize| (i as int) < old(self).len() implies {
                    &&& post.contains((i, 0u64)) ==> {
                        &&& (#[trigger] self.nodes@[i as int]) is Some
                        &&& self.nodes@[i as int].unwrap().id == idx(i as int)
                        &&& self.nodes@[i as int].unwrap().raw_styles == old(self).current_widgets@[i as int].unwrap().styles
                        &&& self.nodes@[i as int].unwrap().children@ == old(self).tree.children@[i as int]@
                    }
                    &&& !post.contains((i, 0u64)) ==> self.nodes@[i as int] == old(self).nodes@[i as int]
                } by {
                    if i == key.0 {
                        assert((i, 0u64) == key);
                    } else {
                        assert(self.nodes@[i as int] == before.nodes@[i as int]);
                        assert((i, 0u64) != key);
                    }
                }
            }
            k = k + 1;
        }
        proof {
            assert(dirty@.subrange(0, dirty@.len() as int) == dirty@);
        }
        let ghost done = trace;
        if self.current_widgets.len() == 0 {
            // Nothing to draw: an empty renderable tree and no focus.
            self.node_tree = Tree { root_node: None, parents: Vec::new(), children: Vec::new() };
            self.focus_tree.clear();
        } else {
            let t = self.build_nodes_tree();
            self.node_tree = t;
        }
        assert(resolution_trace(*old(self), set_items(old(self).dirty_render_nodes), done, measured@));
        measured
    }

    /// Whether `slot` holds a binding to the font named `font`.
    pub open spec fn bound_to(&self, slot: int, font: Seq<char>) -> bool {
        exists|j: int| 0 <= j < self.widget_lifetimes@[slot]@.len() && (#[trigger] self.widget_lifetimes@[slot]@[j])@ == font
    }

    fn has_binding(&self, slot: usize, font: &String) -> (r: bool)
        requires
            self.wf(),
            slot < self.len(),
        ensures
            r == self.bound_to(slot as int, font@),
    {
        let fonts = &self.widget_lifetimes[slot];
        let mut j: usize = 0;
        while j < fonts.len()
            invariant
                self.wf(),
                slot < self.len(),
                *fonts == self.widget_lifetimes@[slot as int],
                j <= fonts@.len(),
                forall|k: int| 0 <= k < j ==> (#[trigger] fonts@[k])@ != font@,
            decreases fonts@.len() - j,
        {
            if fonts[j] == *font {
                return true;
            }
            j = j + 1;
        }
        false
    }

    /// The font named `font` has loaded: every widget bound to it is marked for
    /// re-evaluation.
    pub fn font_loaded(&mut self, font: &String)
        requires
            old(self).wf(),
        ensures
            final(self).wf(),
            forall|k: (usize, u64)| set_items(final(self).dirty_nodes).contains(k) <==> (
                set_items(old(self).dirty_nodes).contains(k)
                || ((k.0 as int) < old(self).len() && k.1 == 0 && old(self).bound_to(k.0 as int, font@))),
            final(self).dirty_render_nodes == old(self).dirty_render_nodes,
            final(self).current_widgets == old(self).current_widgets,
            final(self).nodes == old(self).nodes,
            final(self).tree == old(self).tree,
            final(self).widget_lifetimes == old(self).widget_lifetimes,
    {
        let n = self.current_widgets.len();
        let mut i: usize = 0;
        while i < n
            invariant
                self.wf(),
                n == self.len(),
                i <= n,
                self.dirty_render_nodes == old(self).dirty_render_nodes,
                self.current_widgets == old(self).current_widgets,
                self.nodes == old(self).nodes,
                self.tree == old(self).tree,
                self.widget_lifetimes == old(self).widget_lifetimes,
                forall|k: (usize, u64)| set_items(self.dirty_nodes).contains(k) <==> (
                    set_items(old(self).dirty_nodes).contains(k)
                    || ((k.0 as int) < i && k.1 == 0 && old(self).bound_to(k.0 as int, font@))),
            decreases n - i,
        {
            if self.has_binding(i, font) {
                proof {
                    lemma_inserted(set_items(self.dirty_nodes), (i, 0u64), n as int);
                }
                set_insert(&mut self.dirty_nodes, (i, 0));
            }
            i = i + 1;
        }
    }
}

} // verus!
