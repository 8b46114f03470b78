//! A schema tree together with its leaf columns in pre-order.
use vstd::prelude::*;

use crate::schema::{
    collect_leaves, leaves, lemma_leaf_count_is_primitive_count, primitive_count, ColumnDescriptor, LeafView, ParquetType, SchemaNode,
};

verus! {

/// Owns a schema tree and the leaf columns derived from it.
///
/// Leaf `i` is the `i`-th primitive node met in a pre-order walk of the tree, in
/// which a group contributes no leaf itself and visits its fields in their order.
#[derive(Debug)]
pub struct SchemaDescriptor {
    root: ParquetType,
    columns: Vec<ColumnDescriptor>,
}

impl SchemaDescriptor {
    /// The model of the tree.
    pub closed spec fn root_view(&self) -> SchemaNode {
        self.root.view_node()
    }

    /// The leaf columns that are held.
    pub closed spec fn columns_view(&self) -> Seq<LeafView> {
        self.columns@.map_values(|c: ColumnDescriptor| c@)
    }

    /// The leaf columns always are the pre-order leaves of the tree.
    pub closed spec fn wf(&self) -> bool {
        self.columns_view() == leaves(self.root_view())
    }

    /// Wraps `root` and derives its leaf columns.
    pub fn new(root: ParquetType) -> (r: SchemaDescriptor)
        ensures
            r.wf(),
            r.root_view() == root.view_node(),
    {
        let mut columns: Vec<ColumnDescriptor> = Vec::new();
        collect_leaves(&root, &mut columns);
        assert(columns@.map_values(|c: ColumnDescriptor| c@) =~= leaves(root.view_node()));
        SchemaDescriptor { root, columns }
    }

    /// The tree given at construction.
    pub fn root(&self) -> (r: &ParquetType)
        ensures
            r.view_node() == self.root_view(),
    {
        &self.root
    }

    /// The number of leaf columns.
    pub fn leaf_count(&self) -> (r: usize)
        requires
            self.wf(),
        ensures
            r == leaves(self.root_view()).len(),
    {
        self.columns.len()
    }

    /// The `i`-th leaf column; `i` must be below `leaf_count()`.
    pub fn leaf(&self, i: usize) -> (r: &ColumnDescriptor)
        requires
            self.wf(),
            i < leaves(self.root_view()).len(),
        ensures
            r@ == leaves(self.root_view())[i as int],
    {
        &self.columns[i]
    }
}

/// A descriptor has exactly one leaf column for each primitive node of its tree.
pub proof fn lemma_leaf_count_matches_primitives(d: SchemaDescriptor)
    requires
        d.wf(),
    ensures
        d.columns_view().len() == primitive_count(d.root_view()),
        leaves(d.root_view()).len() == primitive_count(d.root_view()),
{
    lemma_leaf_count_is_primitive_count(d.root_view());
}

/// Two descriptors of the same tree have the same leaf columns, in the same order.
pub proof fn lemma_leaves_depend_on_tree_alone(a: SchemaDescriptor, b: SchemaDescriptor)
    requires
        a.wf(),
        b.wf(),
        a.root_view() == b.root_view(),
    ensures
        a.columns_view() == b.columns_view(),
{
}

} // verus!
