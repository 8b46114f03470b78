//! The nested schema tree and its pre-order flattening into leaf columns.
use vstd::prelude::*;

verus! {

/// How often a field occurs in its parent.
#[derive(Clone, Copy, Debug, PartialEq, Eq, Structural)]
pub enum Repetition {
    Required,
    Optional,
    Repeated,
}

/// The physical storage type of a leaf column.
#[derive(Clone, Copy, Debug, PartialEq, Eq, Structural)]
pub enum PhysicalType {
    Boolean,
    Int32,
    Int64,
    Int96,
    Float,
    Double,
    ByteArray,
    FixedLenByteArray,
}

/// A node of the schema tree: a group of ordered child fields, or a primitive leaf.
#[derive(Debug)]
pub enum ParquetType {
    Group { name: String, repetition: Repetition, fields: Vec<ParquetType> },
    Primitive { name: String, repetition: Repetition, physical_type: PhysicalType },
}

/// The mathematical model of a schema tree.
pub enum SchemaNode {
    Group { name: Seq<char>, repetition: Repetition, fields: Seq<SchemaNode> },
    Primitive { name: Seq<char>, repetition: Repetition, physical_type: PhysicalType },
}

/// What a leaf column is, as seen through its primitive node.
pub struct LeafView {
    pub name: Seq<char>,
    pub repetition: Repetition,
    pub physical_type: PhysicalType,
}

/// Models a sequence of sibling nodes.
pub open spec fn forest_view(s: Seq<ParquetType>) -> Seq<SchemaNode>
    decreases s,
{
    if s.len() == 0 {
        seq![]
    } else {
        forest_view(s.subrange(0, s.len() - 1)).push(s[s.len() - 1].view_node())
    }
}

impl ParquetType {
    /// The model of this tree.
    pub open spec fn view_node(self) -> SchemaNode
        decreases self,
    {
        match self {
            ParquetType::Group { name, repetition, fields } => {
                SchemaNode::Group { name: name@, repetition, fields: forest_view(fields@) }
            },
            ParquetType::Primitive { name, repetition, physical_type } => {
                SchemaNode::Primitive { name: name@, repetition, physical_type }
            },
        }
    }
}

/// The leaves of a tree, in pre-order.
pub open spec fn leaves(n: SchemaNode) -> Seq<LeafView>
    decreases n,
{
    match n {
        SchemaNode::Group { fields, .. } => forest_leaves(fields),
        SchemaNode::Primitive { name, repetition, physical_type } => {
            seq![LeafView { name, repetition, physical_type }]
        },
    }
}

/// The leaves of a sequence of sibling trees, each tree's after those of the trees before it.
pub open spec fn forest_leaves(s: Seq<SchemaNode>) -> Seq<LeafView>
    decreases s,
{
    if s.len() == 0 {
        seq![]
    } else {
        forest_leaves(s.subrange(0, s.len() - 1)) + leaves(s[s.len() - 1])
    }
}

/// The number of primitive nodes in a tree.
pub open spec fn primitive_count(n: SchemaNode) -> nat
    decreases n,
{
    match n {
        SchemaNode::Group { fields, .. } => forest_primitive_count(fields),
        SchemaNode::Primitive { .. } => 1,
    }
}

/// The number of primitive nodes in a sequence of sibling trees.
pub open spec fn forest_primitive_count(s: Seq<SchemaNode>) -> nat
    decreases s,
{
    if s.len() == 0 {
        0
    } else {
        forest_primitive_count(s.subrange(0, s.len() - 1)) + primitive_count(s[s.len() - 1])
    }
}

/// A tree has exactly one leaf column for each of its primitive nodes.
pub proof fn lemma_leaf_count_is_primitive_count(n: SchemaNode)
    ensures
        leaves(n).len() == primitive_count(n),
    decreases n,
{
    match n {
        SchemaNode::Group { fields, .. } => lemma_forest_leaf_count(fields),
        SchemaNode::Primitive { .. } => {},
    }
}

/// A forest has exactly one leaf column for each of its primitive nodes.
pub proof fn lemma_forest_leaf_count(s: Seq<SchemaNode>)
    ensures
        forest_leaves(s).len() == forest_primitive_count(s),
    decreases s,
{
    if s.len() > 0 {
        lemma_forest_leaf_count(s.subrange(0, s.len() - 1));
        lemma_leaf_count_is_primitive_count(s[s.len() - 1]);
    }
}

/// A leaf column: a primitive node of the schema, addressed by its pre-order position.
#[derive(Debug)]
pub struct ColumnDescriptor {
    pub name: String,
    pub repetition: Repetition,
    pub physical_type: PhysicalType,
}

impl View for ColumnDescriptor {
    type V = LeafView;

    open spec fn view(&self) -> LeafView {
        LeafView { name: self.name@, repetition: self.repetition, physical_type: self.physical_type }
    }
}

/// Appends the leaves of `t` to `out`, in pre-order.
pub(crate) fn collect_leaves(t: &ParquetType, out: &mut Vec<ColumnDescriptor>)
    ensures
        final(out)@.map_values(|c: ColumnDescriptor| c@) == old(out)@.map_values(
            |c: ColumnDescriptor| c@,
        ) + leaves(t.view_node()),
    decreases t,
{
    match t {
        ParquetType::Primitive { name, repetition, physical_type } => {
            let c = ColumnDescriptor {
                name: name.clone(),
                repetition: *repetition,
                physical_type: *physical_type,
            };
            out.push(c);
            assert(final(out)@.map_values(|c: ColumnDescriptor| c@) =~= old(out)@.map_values(
                |c: ColumnDescriptor| c@,
            ) + leaves(t.view_node()));
        },
        ParquetType::Group { name, repetition, fields } => {
            let ghost start = out@.map_values(|c: ColumnDescriptor| c@);
            let mut j: usize = 0;
            while j < fields.len()
                invariant
                    j <= fields@.len(),
                    *t is Group,
                    t->Group_fields == *fields,
                    out@.map_values(|c: ColumnDescriptor| c@) == start + forest_leaves(
                        forest_view(fields@.subrange(0, j as int)),
                    ),
                decreases fields@.len() - j,
            {
                let ghost before = out@.map_values(|c: ColumnDescriptor| c@);
                proof {
                    assert(decreases_to!(*fields => fields@));
                    assert(decreases_to!(fields@ => fields@[j as int]));
                    assert(decreases_to!(*t => (*t)->Group_fields));
                }
                collect_leaves(&fields[j], out);
                proof {
                    let pre = fields@.subrange(0, j as int);
                    let next = fields@.subrange(0, j + 1);
                    assert(next.subrange(0, j as int) =~= pre);
                    assert(forest_view(next) == forest_view(pre).push(fields@[j as int].view_node()));
                    lemma_forest_view_len(pre);
                    assert(forest_view(next).subrange(0, j as int) =~= forest_view(pre));
                }
                j = j + 1;
            }
            assert(fields@.subrange(0, fields@.len() as int) =~= fields@);
        },
    }
}

/// Modelling a forest models each tree in place.
pub proof fn lemma_forest_view_map(s: Seq<ParquetType>)
    ensures
        forest_view(s) == s.map_values(|t: ParquetType| t.view_node()),
    decreases s,
{
    if s.len() > 0 {
        lemma_forest_view_map(s.subrange(0, s.len() - 1));
    }
    assert(forest_view(s) =~= s.map_values(|t: ParquetType| t.view_node()));
}

/// Modelling a forest keeps its length.
pub proof fn lemma_forest_view_len(s: Seq<ParquetType>)
    ensures
        forest_view(s).len() == s.len(),
    decreases s,
{
    if s.len() > 0 {
        lemma_forest_view_len(s.subrange(0, s.len() - 1));
    }
}

} // verus!
