use vstd::prelude::*;
use crate::widget_manager::Index;

verus! {

/// Focus-eligible identities in order, each with its parent in the focus tree
/// (`parents[j]` for `nodes[j]`), and the one that holds focus, if any.
#[derive(Debug, Clone)]
pub struct FocusTree {
    pub nodes: Vec<Index>,
    pub parents: Vec<Option<Index>>,
    pub current: Option<Index>,
}

/// Declared focus eligibility per identity slot, from the widget itself (`parent`)
/// or from a child that asked on its behalf (`child`); the first takes precedence.
#[derive(Debug, Clone)]
pub struct FocusTracker {
    pub parent: Vec<Option<bool>>,
    pub child: Vec<Option<bool>>,
}

impl FocusTree {
    pub fn new() -> (r: FocusTree)
        ensures
            r.nodes@ == Seq::<Index>::empty(),
            r.parents@ == Seq::<Option<Index>>::empty(),
            r.current is None,
    {
        FocusTree { nodes: Vec::new(), parents: Vec::new(), current: None }
    }

    /// Empties the tree and drops the current focus.
    pub fn clear(&mut self)
        ensures
            final(self).nodes@ == Seq::<Index>::empty(),
            final(self).parents@ == Seq::<Option<Index>>::empty(),
            final(self).current is None,
    {
        self.nodes = Vec::new();
        self.parents = Vec::new();
        self.current = None;
    }

    pub fn contains(&self, id: Index) -> (r: bool)
        ensures
            r == self.nodes@.contains(id),
    {
        let mut i: usize = 0;
        while i < self.nodes.len()
            invariant
                i <= self.nodes@.len(),
                forall|j: int| 0 <= j < i ==> self.nodes@[j] != id,
            decreases self.nodes@.len() - i,
        {
            if self.nodes[i] == id {
                return true;
            }
            i = i + 1;
        }
        false
    }

    /// Adds an identity under `parent` at the end unless it is already there.
    pub fn add(&mut self, id: Index, parent: Option<Index>)
        ensures
            final(self).current == old(self).current,
            old(self).nodes@.contains(id) ==> final(self).nodes@ == old(self).nodes@
                && final(self).parents@ == old(self).parents@,
            !old(self).nodes@.contains(id) ==> final(self).nodes@ == old(self).nodes@.push(id)
                && final(self).parents@ == old(self).parents@.push(parent),
    {
        if !self.contains(id) {
            self.nodes.push(id);
            self.parents.push(parent);
        }
    }

    /// Gives focus to `id`.
    pub fn focus(&mut self, id: Index)
        ensures
            final(self).nodes == old(self).nodes,
            final(self).parents == old(self).parents,
            final(self).current == Some(id),
    {
        self.current = Some(id);
    }

    pub fn current(&self) -> (r: Option<Index>)
        ensures
            r == self.current,
    {
        self.current
    }
}

impl FocusTracker {
    pub open spec fn focusability(&self, slot: int) -> Option<bool> {
        if self.parent@[slot] is Some {
            self.parent@[slot]
        } else {
            self.child@[slot]
        }
    }

    pub fn new() -> (r: FocusTracker)
        ensures
            r.parent@.len() == 0,
            r.child@.len() == 0,
    {
        FocusTracker { parent: Vec::new(), child: Vec::new() }
    }

    /// Makes room for one more identity slot, with nothing declared for it.
    pub fn add_slot(&mut self)
        ensures
            final(self).parent@ == old(self).parent@.push(None),
            final(self).child@ == old(self).child@.push(None),
    {
        self.parent.push(None);
        self.child.push(None);
    }

    /// Records (or, with `None`, forgets) the eligibility of `slot`, declared by the
    /// widget itself (`is_parent`) or on its behalf; the latest declaration wins.
    pub fn set_focusability(&mut self, slot: usize, focusable: Option<bool>, is_parent: bool)
        requires
            slot < old(self).parent@.len(),
            slot < old(self).child@.len(),
        ensures
            is_parent ==> final(self).parent@ == old(self).parent@.update(slot as int, focusable)
                && final(self).child@ == old(self).child@.update(slot as int, None),
            !is_parent ==> final(self).child@ == old(self).child@.update(slot as int, focusable)
                && final(self).parent@ == old(self).parent@.update(slot as int, None),
            final(self).focusability(slot as int) == focusable,
    {
        if is_parent {
            self.parent[slot] = focusable;
            self.child[slot] = None;
        } else {
            self.child[slot] = focusable;
            self.parent[slot] = None;
        }
    }

    pub fn get_focusability(&self, slot: usize) -> (r: Option<bool>)
        requires
            slot < self.parent@.len(),
            slot < self.child@.len(),
        ensures
            r == self.focusability(slot as int),
    {
        if self.parent[slot].is_some() {
            self.parent[slot]
        } else {
            self.child[slot]
        }
    }
}

} // verus!
