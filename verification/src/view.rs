//! Projection of the entity tree to generic view nodes for display.
//! The projection is total, pure and lossy by design: it keeps each
//! node's name as the label and the group structure as children,
//! dropping attribute and layout detail not needed for a tree label.

use crate::model::{EntityInfo, FileInfo};
use vstd::prelude::*;

verus! {

/// A generic view node: a display label and the child view nodes, in
/// the same order as the entities they project.
#[derive(Debug, PartialEq, Eq)]
pub struct TreeItem {
    pub label: String,
    pub children: Vec<TreeItem>,
}

/// The view node an entity projects to: its label is the entity's
/// name; a group's children project index by index, a dataset
/// projects to a leaf.
pub open spec fn tree_item_matches(t: TreeItem, e: EntityInfo) -> bool
    decreases e,
{
    match e {
        EntityInfo::Group(g) => {
            &&& t.label@ == g.name@
            &&& t.children@.len() == g.entities@.len()
            &&& (forall|i: int|
                0 <= i < g.entities@.len() ==> tree_item_matches(
                    #[trigger] t.children@[i],
                    g.entities@[i],
                ))
        },
        EntityInfo::Dataset(d) => {
            &&& t.label@ == d.name@
            &&& t.children@.len() == 0
        },
    }
}

impl TreeItem {
    /// Project one entity, and everything below it, to view nodes.
    #[verifier::loop_isolation(false)]
    pub fn from_entity(e: &EntityInfo) -> (t: TreeItem)
        ensures
            tree_item_matches(t, *e),
        decreases *e,
    {
        match e {
            EntityInfo::Group(g) => {
                let label = g.name.clone();
                let mut children: Vec<TreeItem> = Vec::new();
                let mut i: usize = 0;
                while i < g.entities.len()
                    invariant
                        i <= g.entities@.len(),
                        children@.len() == i,
                        forall|j: int|
                            0 <= j < i ==> tree_item_matches(
                                #[trigger] children@[j],
                                g.entities@[j],
                            ),
                    decreases g.entities@.len() - i,
                {
                    proof {
                        assert(decreases_to!(*e => *g));
                        assert(decreases_to!(*g => g.entities));
                        assert(decreases_to!(g.entities => g.entities@));
                        assert(decreases_to!(g.entities@ => g.entities@[i as int]));
                    }
                    let child = TreeItem::from_entity(&g.entities[i]);
                    children.push(child);
                    i = i + 1;
                }
                TreeItem { label, children }
            },
            EntityInfo::Dataset(d) => {
                TreeItem { label: d.name.clone(), children: Vec::new() }
            },
        }
    }
}

impl FileInfo {
    /// Project every root-level entity to a view node, keeping the
    /// discovery order.
    #[verifier::loop_isolation(false)]
    pub fn to_tree_items(&self) -> (r: Vec<TreeItem>)
        ensures
            r@.len() == self.entities@.len(),
            forall|i: int|
                0 <= i < self.entities@.len() ==> tree_item_matches(
                    #[trigger] r@[i],
                    self.entities@[i],
                ),
    {
        let mut items: Vec<TreeItem> = Vec::new();
        let mut i: usize = 0;
        while i < self.entities.len()
            invariant
                i <= self.entities@.len(),
                items@.len() == i,
                forall|j: int|
                    0 <= j < i ==> tree_item_matches(#[trigger] items@[j], self.entities@[j]),
            decreases self.entities@.len() - i,
        {
            items.push(TreeItem::from_entity(&self.entities[i]));
            i = i + 1;
        }
        items
    }
}

} // verus!
