use vstd::prelude::*;
use crate::render_primitive::{with_layout, Rect, RenderPrimitive};
use crate::widget_manager::{Index, Node, WidgetManager};

verus! {

/// `z` held to the range of `i64`.
pub open spec fn zclamp(z: int) -> i64 {
    if z > i64::MAX {
        i64::MAX
    } else if z < i64::MIN {
        i64::MIN
    } else {
        z as i64
    }
}

pub open spec fn zmax(a: i64, b: i64) -> i64 {
    if a >= b { a } else { b }
}

/// `r` with depth `z`.
pub open spec fn at_depth(r: Rect, z: i64) -> Rect {
    Rect { z_index: z, ..r }
}

/// The primitives of the subtree of `slot` in the renderable tree `kids`,
/// entered at depth `z` (in tenths) under the active clip `clip`, and the
/// greatest depth stamped in it. A node without a record or a layout adds
/// nothing.
pub open spec fn sequence_node(
    kids: Seq<Vec<Index>>,
    nodes: Seq<Option<Node>>,
    layouts: Seq<Option<Rect>>,
    slot: int,
    z: i64,
    clip: Option<Rect>,
) -> (Seq<RenderPrimitive>, i64)
    decreases kids.len() - slot, 1int, 0int,
{
    if 0 <= slot < kids.len() && slot < nodes.len() && slot < layouts.len() && nodes[slot] is Some
        && layouts[slot] is Some {
        let prim = nodes[slot].unwrap().primitive;
        let own = if prim is Clip { zclamp(z - 1) } else { z };
        let rect = at_depth(layouts[slot].unwrap(), own);
        let inner_clip = if prim is Clip { Some(rect) } else { clip };
        let rest = sequence_children(kids, nodes, layouts, slot, kids[slot]@, 0, own, inner_clip, own);
        (seq![with_layout(prim, rect)] + rest.0, rest.1)
    } else {
        (Seq::empty(), z)
    }
}

/// The primitives of the subtrees of `ch[i..]`, children of `ps` stamped at
/// `own`: each child one step deeper than `own`, each followed, under an active
/// clip, by a copy of that clip just above the child's greatest depth. `hi` is
/// the greatest depth so far.
pub open spec fn sequence_children(
    kids: Seq<Vec<Index>>,
    nodes: Seq<Option<Node>>,
    layouts: Seq<Option<Rect>>,
    ps: int,
    ch: Seq<Index>,
    i: int,
    own: i64,
    clip: Option<Rect>,
    hi: i64,
) -> (Seq<RenderPrimitive>, i64)
    decreases kids.len() - ps, 0int, ch.len() - i,
{
    if 0 <= i < ch.len() {
        let c = ch[i];
        if ps < c.slot < kids.len() {
            let sub = sequence_node(kids, nodes, layouts, c.slot as int, zclamp(own + 10), clip);
            let hi1 = zmax(hi, sub.1);
            match clip {
                Some(r) => {
                    let rz = zclamp(sub.1 + 1);
                    let rest = sequence_children(kids, nodes, layouts, ps, ch, i + 1, own, clip, zmax(hi1, rz));
                    (sub.0 + seq![RenderPrimitive::Clip { layout: at_depth(r, rz) }] + rest.0, rest.1)
                },
                None => {
                    let rest = sequence_children(kids, nodes, layouts, ps, ch, i + 1, own, clip, hi1);
                    (sub.0 + rest.0, rest.1)
                },
            }
        } else {
            sequence_children(kids, nodes, layouts, ps, ch, i + 1, own, clip, hi)
        }
    } else {
        (Seq::empty(), hi)
    }
}

fn zadd(a: i64, b: i64) -> (r: i64)
    ensures
        r == zclamp(a + b),
{
    if b > 0 && a > i64::MAX - b {
        i64::MAX
    } else if b < 0 && a < i64::MIN - b {
        i64::MIN
    } else {
        a + b
    }
}

impl WidgetManager {
    /// The primitives of the renderable tree in drawing order.
    pub open spec fn sequence(&self) -> Seq<RenderPrimitive> {
        match self.node_tree.root_node {
            Some(root) => sequence_node(
                self.node_tree.children@,
                self.nodes@,
                self.layout_cache@,
                root.slot as int,
                0,
                None,
            ).0,
            None => Seq::empty(),
        }
    }

    fn recurse_node_tree_to_build_primitives(&self, current: usize, z: i64, clip: Option<Rect>) -> (r: (
        Vec<RenderPrimitive>,
        i64,
    ))
        requires
            self.wf(),
            current < self.len(),
        ensures
            r.0@ == sequence_node(self.node_tree.children@, self.nodes@, self.layout_cache@, current as int, z, clip).0,
            r.1 == sequence_node(self.node_tree.children@, self.nodes@, self.layout_cache@, current as int, z, clip).1,
        decreases self.len() - current,
    {
        let ghost kids = self.node_tree.children@;
        let ghost nodes = self.nodes@;
        let ghost layouts = self.layout_cache@;
        let mut out: Vec<RenderPrimitive> = Vec::new();
        if let Some(node) = &self.nodes[current] {
            if let Some(layout) = self.layout_cache[current] {
                let is_clip = node.primitive.is_clip();
                let own = if is_clip { zadd(z, -1) } else { z };
                let rect = Rect { z_index: own, ..layout };
                let mut prim = node.primitive.clone_value();
                prim.set_layout(rect);
                out.push(prim);
                let inner_clip = if is_clip { Some(rect) } else { clip };
                let children = &self.node_tree.children[current];
                let ghost total = sequence_children(kids, nodes, layouts, current as int, children@, 0, own, inner_clip, own);
                let mut hi = own;
                let mut i: usize = 0;
                while i < children.len()
                    invariant
                        self.wf(),
                        current < self.len(),
                        kids == self.node_tree.children@,
                        nodes == self.nodes@,
                        layouts == self.layout_cache@,
                        *children == kids[current as int],
                        i <= children@.len(),
                        out@ + sequence_children(kids, nodes, layouts, current as int, children@, i as int, own, inner_clip, hi).0
                            == seq![with_layout(node.primitive, rect)] + total.0,
                        sequence_children(kids, nodes, layouts, current as int, children@, i as int, own, inner_clip, hi).1
                            == total.1,
                    decreases children@.len() - i,
                {
                    let child = children[i];
                    assert(current < child.slot < self.len());
                    let ghost before = out@;
                    let (mut sub, sub_hi) = self.recurse_node_tree_to_build_primitives(child.slot, zadd(own, 10), inner_clip);
                    out.append(&mut sub);
                    hi = if hi >= sub_hi { hi } else { sub_hi };
                    if let Some(r) = inner_clip {
                        let rz = zadd(sub_hi, 1);
                        out.push(RenderPrimitive::Clip { layout: Rect { z_index: rz, ..r } });
                        hi = if hi >= rz { hi } else { rz };
                    }
                    proof {
                        let s = sequence_node(kids, nodes, layouts, child.slot as int, zclamp(own + 10), inner_clip);
                        match inner_clip {
                            Some(r) => {
                                let rz = zclamp(s.1 + 1);
                                assert(out@ == before + s.0 + seq![RenderPrimitive::Clip { layout: at_depth(r, rz) }]);
                            },
                            None => {
                                assert(out@ == before + s.0);
                            },
                        }
                    }
                    i = i + 1;
                }
                assert(out@ + Seq::<RenderPrimitive>::empty() == out@);
                return (out, hi);
            }
        }
        (out, z)
    }

    /// The primitives of the renderable tree in drawing order: depth-first,
    /// each stamped with its layout and depth, clip regions just behind what
    /// they bound, and a copy of the active clip after each clipped subtree.
    pub fn build_render_primitives(&self) -> (r: Vec<RenderPrimitive>)
        requires
            self.wf(),
        ensures
            r@ == self.sequence(),
    {
        match self.node_tree.root_node {
            None => Vec::new(),
            Some(root) => {
                let (prims, _hi) = self.recurse_node_tree_to_build_primitives(root.slot, 0, None);
                prims
            },
        }
    }
}

} // verus!
