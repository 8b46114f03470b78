//! The Thrift structures of `parquet_format` that the metadata is written to and
//! read from, and the mapping of the schema tree to and from their flat form.
use vstd::prelude::*;

use parquet_format::ColumnOrder as ThriftColumnOrder;
use parquet_format::FileMetaData as ThriftFileMetaData;
use parquet_format::KeyValue as ThriftKeyValue;
use parquet_format::{FieldRepetitionType, SchemaElement, Type};

use crate::error::ParquetError;
use crate::schema::{forest_view, lemma_forest_view_len, lemma_forest_view_map, ParquetType, PhysicalType, Repetition, SchemaNode};

verus! {

#[verifier::external_type_specification]
pub struct ExThriftFileMetaData(ThriftFileMetaData);

#[verifier::external_type_specification]
pub struct ExThriftRowGroup(parquet_format::RowGroup);

#[verifier::external_type_specification]
pub struct ExThriftKeyValue(ThriftKeyValue);

#[verifier::external_type_specification]
pub struct ExThriftSchemaElement(parquet_format::SchemaElement);

#[verifier::external_type_specification]
pub struct ExThriftType(parquet_format::Type);

#[verifier::external_type_specification]
pub struct ExThriftRepetition(parquet_format::FieldRepetitionType);

#[verifier::external_type_specification]
pub struct ExThriftConvertedType(parquet_format::ConvertedType);

#[verifier::external_type_specification]
#[verifier::external_body]
pub struct ExThriftLogicalType(parquet_format::LogicalType);

#[verifier::external_type_specification]
#[verifier::external_body]
pub struct ExThriftColumnChunk(parquet_format::ColumnChunk);

#[verifier::external_type_specification]
#[verifier::external_body]
pub struct ExThriftSortingColumn(parquet_format::SortingColumn);

#[verifier::external_type_specification]
#[verifier::external_body]
pub struct ExThriftColumnOrder(ThriftColumnOrder);

/// What a flat schema element says, as far as the tree is concerned.
pub struct ElementModel {
    pub name: Seq<char>,
    pub physical_type: Option<Type>,
    pub repetition: Option<FieldRepetitionType>,
    pub num_children: Option<i32>,
}

/// The model of a flat schema element.
pub open spec fn element_model(e: SchemaElement) -> ElementModel {
    ElementModel {
        name: e.name@,
        physical_type: e.type_,
        repetition: e.repetition_type,
        num_children: e.num_children,
    }
}

/// The element sets none of the fields that the tree does not carry.
pub open spec fn is_bare(e: SchemaElement) -> bool {
    &&& e.type_length is None
    &&& e.converted_type is None
    &&& e.scale is None
    &&& e.precision is None
    &&& e.field_id is None
    &&& e.logical_type is None
}

/// The models of a sequence of flat schema elements.
pub open spec fn elements_model(v: Seq<SchemaElement>) -> Seq<ElementModel> {
    v.map_values(|e: SchemaElement| element_model(e))
}

pub open spec fn repetition_to_thrift(r: Repetition) -> FieldRepetitionType {
    match r {
        Repetition::Required => FieldRepetitionType::Required,
        Repetition::Optional => FieldRepetitionType::Optional,
        Repetition::Repeated => FieldRepetitionType::Repeated,
    }
}

pub open spec fn repetition_from_thrift(r: FieldRepetitionType) -> Repetition {
    match r {
        FieldRepetitionType::Required => Repetition::Required,
        FieldRepetitionType::Optional => Repetition::Optional,
        FieldRepetitionType::Repeated => Repetition::Repeated,
    }
}

pub open spec fn type_to_thrift(t: PhysicalType) -> Type {
    match t {
        PhysicalType::Boolean => Type::Boolean,
        PhysicalType::Int32 => Type::Int32,
        PhysicalType::Int64 => Type::Int64,
        PhysicalType::Int96 => Type::Int96,
        PhysicalType::Float => Type::Float,
        PhysicalType::Double => Type::Double,
        PhysicalType::ByteArray => Type::ByteArray,
        PhysicalType::FixedLenByteArray => Type::FixedLenByteArray,
    }
}

pub open spec fn type_from_thrift(t: Type) -> PhysicalType {
    match t {
        Type::Boolean => PhysicalType::Boolean,
        Type::Int32 => PhysicalType::Int32,
        Type::Int64 => PhysicalType::Int64,
        Type::Int96 => PhysicalType::Int96,
        Type::Float => PhysicalType::Float,
        Type::Double => PhysicalType::Double,
        Type::ByteArray => PhysicalType::ByteArray,
        Type::FixedLenByteArray => PhysicalType::FixedLenByteArray,
    }
}

fn repetition_to_thrift_exec(r: Repetition) -> (w: FieldRepetitionType)
    ensures
        w == repetition_to_thrift(r),
{
    match r {
        Repetition::Required => FieldRepetitionType::Required,
        Repetition::Optional => FieldRepetitionType::Optional,
        Repetition::Repeated => FieldRepetitionType::Repeated,
    }
}

fn type_to_thrift_exec(t: PhysicalType) -> (w: Type)
    ensures
        w == type_to_thrift(t),
{
    match t {
        PhysicalType::Boolean => Type::Boolean,
        PhysicalType::Int32 => Type::Int32,
        PhysicalType::Int64 => Type::Int64,
        PhysicalType::Int96 => Type::Int96,
        PhysicalType::Float => Type::Float,
        PhysicalType::Double => Type::Double,
        PhysicalType::ByteArray => Type::ByteArray,
        PhysicalType::FixedLenByteArray => Type::FixedLenByteArray,
    }
}

/// Every group of the tree has few enough fields for the Thrift `num_children`.
pub open spec fn representable(n: SchemaNode) -> bool
    decreases n,
{
    match n {
        SchemaNode::Group { fields, .. } => fields.len() <= i32::MAX && forest_representable(fields),
        SchemaNode::Primitive { .. } => true,
    }
}

pub open spec fn forest_representable(s: Seq<SchemaNode>) -> bool
    decreases s,
{
    s.len() == 0 || (forest_representable(s.subrange(0, s.len() - 1)) && representable(
        s[s.len() - 1],
    ))
}

/// The flat, pre-order form of a tree: a group is one element that counts its
/// fields, followed by the flat forms of the fields.
pub open spec fn flatten(n: SchemaNode) -> Seq<ElementModel>
    decreases n,
{
    match n {
        SchemaNode::Group { name, repetition, fields } => seq![
            ElementModel {
                name,
                physical_type: None,
                repetition: Some(repetition_to_thrift(repetition)),
                num_children: Some(fields.len() as i32),
            },
        ] + forest_flatten(fields),
        SchemaNode::Primitive { name, repetition, physical_type } => seq![
            ElementModel {
                name,
                physical_type: Some(type_to_thrift(physical_type)),
                repetition: Some(repetition_to_thrift(repetition)),
                num_children: None,
            },
        ],
    }
}

pub open spec fn forest_flatten(s: Seq<SchemaNode>) -> Seq<ElementModel>
    decreases s,
{
    if s.len() == 0 {
        seq![]
    } else {
        forest_flatten(s.subrange(0, s.len() - 1)) + flatten(s[s.len() - 1])
    }
}

/// Appends the flat form of `t` to `out`; fails on a group with too many fields.
fn write_node(t: &ParquetType, out: &mut Vec<SchemaElement>) -> (r: Result<(), ParquetError>)
    requires
        forall|k: int| 0 <= k < old(out)@.len() ==> is_bare(#[trigger] old(out)@[k]),
    ensures
        r is Ok <==> representable(t.view_node()),
        r is Ok ==> elements_model(final(out)@) == elements_model(old(out)@) + flatten(
            t.view_node(),
        ),
        r is Ok ==> forall|k: int| 0 <= k < final(out)@.len() ==> is_bare(#[trigger] final(out)@[k]),
        r matches Err(e) ==> e is SchemaNotRepresentable,
    decreases t,
{
    match t {
        ParquetType::Primitive { name, repetition, physical_type } => {
            let e = SchemaElement {
                type_: Some(type_to_thrift_exec(*physical_type)),
                type_length: None,
                repetition_type: Some(repetition_to_thrift_exec(*repetition)),
                name: name.clone(),
                num_children: None,
                converted_type: None,
                scale: None,
                precision: None,
                field_id: None,
                logical_type: None,
            };
            out.push(e);
            assert(elements_model(final(out)@) =~= elements_model(old(out)@) + flatten(t.view_node()));
            Ok(())
        },
        ParquetType::Group { name, repetition, fields } => {
            if fields.len() > i32::MAX as usize {
                proof {
                    lemma_forest_view_len(fields@);
                }
                return Err(ParquetError::SchemaNotRepresentable(name.clone()));
            }
            let e = SchemaElement {
                type_: None,
                type_length: None,
                repetition_type: Some(repetition_to_thrift_exec(*repetition)),
                name: name.clone(),
                num_children: Some(fields.len() as i32),
                converted_type: None,
                scale: None,
                precision: None,
                field_id: None,
                logical_type: None,
            };
            out.push(e);
            proof {
                lemma_forest_view_len(fields@);
            }
            let ghost start = elements_model(out@);
            assert(start =~= elements_model(old(out)@) + seq![flatten(t.view_node())[0]]);
            let mut j: usize = 0;
            while j < fields.len()
                invariant
                    j <= fields@.len(),
                    *t is Group,
                    t->Group_fields == *fields,
                    forall|k: int| 0 <= k < out@.len() ==> is_bare(#[trigger] out@[k]),
                    elements_model(out@) == start + forest_flatten(
                        forest_view(fields@.subrange(0, j as int)),
                    ),
                    forest_representable(forest_view(fields@.subrange(0, j as int))),
                decreases fields@.len() - j,
            {
                proof {
                    assert(decreases_to!(*fields => fields@));
                    assert(decreases_to!(fields@ => fields@[j as int]));
                    assert(decreases_to!(*t => (*t)->Group_fields));
                }
                let ghost pre = fields@.subrange(0, j as int);
                let ghost next = fields@.subrange(0, j + 1);
                proof {
                    assert(next.subrange(0, j as int) =~= pre);
                    lemma_forest_view_len(pre);
                    assert(forest_view(next) == forest_view(pre).push(
                        fields@[j as int].view_node(),
                    ));
                    assert(forest_view(next).subrange(0, j as int)
                        =~= forest_view(pre));
                }
                let r = write_node(&fields[j], out);
                if r.is_err() {
                    proof {
                        if representable(t.view_node()) {
                            lemma_forest_view_len(fields@);
                            lemma_forest_representable_prefix(forest_view(fields@), j as int);
                            lemma_forest_view_index(fields@, j as int);
                        }
                    }
                    return r;
                }
                j = j + 1;
            }
            assert(fields@.subrange(0, fields@.len() as int) =~= fields@);
            assert(elements_model(final(out)@) =~= elements_model(old(out)@) + flatten(t.view_node()));
            Ok(())
        },
    }
}

/// The tree whose flat form starts at `pos`, and the position after it; `None`
/// where the elements from `pos` on do not start with the flat form of a tree.
/// An element without a repetition is read as required.
pub open spec fn parse_node(es: Seq<ElementModel>, pos: int) -> Option<(SchemaNode, int)>
    decreases es.len() - pos, 0int,
{
    if pos < 0 || pos >= es.len() {
        None
    } else {
        let e = es[pos];
        let repetition = match e.repetition {
            Some(r) => repetition_from_thrift(r),
            None => Repetition::Required,
        };
        match e.num_children {
            Some(k) => {
                if k < 0 {
                    None
                } else {
                    match parse_children(es, pos + 1, k as int) {
                        Some((fields, end)) => Some(
                            (SchemaNode::Group { name: e.name, repetition, fields }, end),
                        ),
                        None => None,
                    }
                }
            },
            None => match e.physical_type {
                Some(t) => Some(
                    (
                        SchemaNode::Primitive {
                            name: e.name,
                            repetition,
                            physical_type: type_from_thrift(t),
                        },
                        pos + 1,
                    ),
                ),
                None => None,
            },
        }
    }
}

/// The `k` sibling trees whose flat forms follow each other from `pos` on, and
/// the position after the last of them.
pub open spec fn parse_children(es: Seq<ElementModel>, pos: int, k: int) -> Option<
    (Seq<SchemaNode>, int),
>
    decreases es.len() - pos, k + 1,
{
    if k <= 0 {
        Some((seq![], pos))
    } else if pos < 0 || pos >= es.len() {
        None
    } else {
        match parse_node(es, pos) {
            None => None,
            Some((c, q)) => {
                if q <= pos || q > es.len() {
                    None
                } else {
                    match parse_children(es, q, k - 1) {
                        None => None,
                        Some((cs, end)) => Some((seq![c] + cs, end)),
                    }
                }
            },
        }
    }
}

/// The tree whose flat form is exactly `es`, where its root is a group.
pub open spec fn parse_schema(es: Seq<ElementModel>) -> Option<SchemaNode> {
    match parse_node(es, 0) {
        Some((n, end)) => if end == es.len() && n is Group {
            Some(n)
        } else {
            None
        },
        None => None,
    }
}

/// A tree that the Thrift schema can hold: its root is a group, and no group
/// has more fields than `num_children` can count.
pub open spec fn schema_representable(n: SchemaNode) -> bool {
    n is Group && representable(n)
}

fn repetition_from_thrift_exec(r: &Option<FieldRepetitionType>) -> (w: Repetition)
    ensures
        w == (match *r {
            Some(x) => repetition_from_thrift(x),
            None => Repetition::Required,
        }),
{
    match r {
        Some(FieldRepetitionType::Required) => Repetition::Required,
        Some(FieldRepetitionType::Optional) => Repetition::Optional,
        Some(FieldRepetitionType::Repeated) => Repetition::Repeated,
        None => Repetition::Required,
    }
}

fn type_from_thrift_exec(t: &Type) -> (w: PhysicalType)
    ensures
        w == type_from_thrift(*t),
{
    match t {
        Type::Boolean => PhysicalType::Boolean,
        Type::Int32 => PhysicalType::Int32,
        Type::Int64 => PhysicalType::Int64,
        Type::Int96 => PhysicalType::Int96,
        Type::Float => PhysicalType::Float,
        Type::Double => PhysicalType::Double,
        Type::ByteArray => PhysicalType::ByteArray,
        Type::FixedLenByteArray => PhysicalType::FixedLenByteArray,
    }
}

/// Reads the tree whose flat form starts at `pos`.
fn read_node(es: &Vec<SchemaElement>, pos: usize) -> (r: Option<(ParquetType, usize)>)
    ensures
        match (r, parse_node(elements_model(es@), pos as int)) {
            (None, None) => true,
            (Some((t, end)), Some((n, q))) => t.view_node() == n && end == q,
            _ => false,
        },
    decreases es@.len() - pos, 0int,
{
    let ghost m = elements_model(es@);
    if pos >= es.len() {
        return None;
    }
    let e = &es[pos];
    assert(m[pos as int] == element_model(*e));
    let repetition = repetition_from_thrift_exec(&e.repetition_type);
    match e.num_children {
        Some(k) => {
            if k < 0 {
                return None;
            }
            match read_children(es, pos + 1, k as usize) {
                Some((fields, end)) => {
                    Some((ParquetType::Group { name: e.name.clone(), repetition, fields }, end))
                },
                None => None,
            }
        },
        None => match &e.type_ {
            Some(t) => {
                let physical_type = type_from_thrift_exec(t);
                Some((ParquetType::Primitive { name: e.name.clone(), repetition, physical_type }, pos + 1))
            },
            None => None,
        },
    }
}

/// Reads `k` sibling trees whose flat forms follow each other from `pos` on.
fn read_children(es: &Vec<SchemaElement>, pos: usize, k: usize) -> (r: Option<(Vec<ParquetType>, usize)>)
    ensures
        match (r, parse_children(elements_model(es@), pos as int, k as int)) {
            (None, None) => true,
            (Some((v, end)), Some((s, q))) => forest_view(v@) == s && end == q,
            _ => false,
        },
    decreases es@.len() - pos, k + 1,
{
    let ghost m = elements_model(es@);
    if k == 0 {
        let v: Vec<ParquetType> = Vec::new();
        proof {
            lemma_forest_view_map(v@);
        }
        return Some((v, pos));
    }
    if pos >= es.len() {
        return None;
    }
    match read_node(es, pos) {
        None => None,
        Some((c, q)) => {
            if q <= pos || q > es.len() {
                return None;
            }
            match read_children(es, q, k - 1) {
                None => None,
                Some((mut rest, end)) => {
                    let ghost old_rest = rest@;
                    rest.insert(0, c);
                    proof {
                        lemma_forest_view_map(old_rest);
                        lemma_forest_view_map(rest@);
                        assert(rest@ =~= seq![c] + old_rest);
                        assert(forest_view(rest@) =~= seq![c.view_node()] + forest_view(old_rest));
                    }
                    Some((rest, end))
                },
            }
        },
    }
}

/// Writes a schema tree in its flat Thrift form.
///
/// Fails, naming the node, where the root is not a group or a group has more
/// fields than `num_children` can count.
pub fn schema_to_thrift(t: &ParquetType) -> (r: Result<Vec<SchemaElement>, ParquetError>)
    ensures
        r is Ok <==> schema_representable(t.view_node()),
        r matches Ok(v) ==> elements_model(v@) == flatten(t.view_node()) && forall|k: int|
            0 <= k < v@.len() ==> is_bare(#[trigger] v@[k]),
        r matches Err(e) ==> e is SchemaNotRepresentable,
        t.view_node() is Primitive ==> (r matches Err(ParquetError::SchemaNotRepresentable(s))
            && s@ == t.view_node()->Primitive_name),
{
    if let ParquetType::Primitive { name, .. } = t {
        return Err(ParquetError::SchemaNotRepresentable(name.clone()));
    }
    let mut out: Vec<SchemaElement> = Vec::new();
    match write_node(t, &mut out) {
        Ok(()) => {
            assert(elements_model(out@) =~= elements_model(Seq::<SchemaElement>::empty()) + flatten(t.view_node()));
            Ok(out)
        },
        Err(e) => Err(e),
    }
}

/// Reads a schema tree from its flat Thrift form.
pub fn schema_from_thrift(es: &Vec<SchemaElement>) -> (r: Result<ParquetType, ParquetError>)
    ensures
        match parse_schema(elements_model(es@)) {
            Some(n) => r matches Ok(t) && t.view_node() == n,
            None => r matches Err(e) && e is InvalidThriftSchema,
        },
{
    match read_node(es, 0) {
        Some((t, end)) => {
            if end == es.len() && matches!(t, ParquetType::Group { .. }) {
                Ok(t)
            } else {
                Err(ParquetError::InvalidThriftSchema)
            }
        },
        None => Err(ParquetError::InvalidThriftSchema),
    }
}

/// The flat form of a forest begins with that of its first tree.
proof fn lemma_forest_flatten_front(s: Seq<SchemaNode>)
    requires
        s.len() > 0,
    ensures
        forest_flatten(s) == flatten(s[0]) + forest_flatten(s.subrange(1, s.len() as int)),
        forest_representable(s) ==> representable(s[0]) && forest_representable(
            s.subrange(1, s.len() as int),
        ),
    decreases s.len(),
{
    let n = s.len();
    if n == 1 {
        assert(s.subrange(0, 0) =~= Seq::<SchemaNode>::empty());
        assert(s.subrange(1, 1) =~= Seq::<SchemaNode>::empty());
        assert(forest_flatten(s) =~= flatten(s[0]) + forest_flatten(s.subrange(1, 1)));
    } else {
        let init = s.subrange(0, n - 1);
        lemma_forest_flatten_front(init);
        let tail = s.subrange(1, n as int);
        assert(tail.subrange(0, tail.len() - 1) =~= init.subrange(1, init.len() as int));
        assert(tail[tail.len() - 1] == s[n - 1]);
        assert(forest_flatten(s) =~= flatten(s[0]) + forest_flatten(tail));
    }
}

/// Reading the flat form of a representable tree, wherever it stands, gives the tree back.
proof fn lemma_parse_flatten(n: SchemaNode, es: Seq<ElementModel>, pos: int)
    requires
        representable(n),
        0 <= pos,
        pos + flatten(n).len() <= es.len(),
        es.subrange(pos, pos + flatten(n).len()) == flatten(n),
    ensures
        parse_node(es, pos) == Some((n, pos + flatten(n).len())),
    decreases n, 0int,
{
    assert(es[pos] == es.subrange(pos, pos + flatten(n).len())[0]);
    match n {
        SchemaNode::Group { name, repetition, fields } => {
            let f = forest_flatten(fields);
            assert(es.subrange(pos + 1, pos + 1 + f.len()) =~= flatten(n).subrange(1, flatten(n).len() as int));
            assert(flatten(n).subrange(1, flatten(n).len() as int) =~= f);
            lemma_parse_forest(fields, es, pos + 1);
            assert(repetition_from_thrift(repetition_to_thrift(repetition)) == repetition);
        },
        SchemaNode::Primitive { repetition, physical_type, .. } => {
            assert(repetition_from_thrift(repetition_to_thrift(repetition)) == repetition);
            assert(type_from_thrift(type_to_thrift(physical_type)) == physical_type);
        },
    }
}

/// Reading the flat forms of representable sibling trees gives the trees back.
proof fn lemma_parse_forest(s: Seq<SchemaNode>, es: Seq<ElementModel>, pos: int)
    requires
        forest_representable(s),
        0 <= pos,
        pos + forest_flatten(s).len() <= es.len(),
        es.subrange(pos, pos + forest_flatten(s).len()) == forest_flatten(s),
    ensures
        parse_children(es, pos, s.len() as int) == Some((s, pos + forest_flatten(s).len())),
    decreases s, 1int,
{
    if s.len() > 0 {
        lemma_forest_flatten_front(s);
        let first = flatten(s[0]);
        let tail = s.subrange(1, s.len() as int);
        let whole = forest_flatten(s);
        assert(first.len() >= 1);
        assert(es.subrange(pos, pos + first.len()) =~= whole.subrange(0, first.len() as int));
        assert(whole.subrange(0, first.len() as int) =~= first);
        lemma_parse_flatten(s[0], es, pos);
        let q = pos + first.len();
        assert(es.subrange(q, q + forest_flatten(tail).len()) =~= whole.subrange(
            first.len() as int,
            whole.len() as int,
        ));
        assert(whole.subrange(first.len() as int, whole.len() as int) =~= forest_flatten(tail));
        lemma_parse_forest(tail, es, q);
        assert(seq![s[0]] + tail =~= s);
    }
}

/// Writing a schema tree in its flat form and reading it back gives the same tree.
pub proof fn lemma_schema_round_trip(n: SchemaNode)
    requires
        schema_representable(n),
    ensures
        parse_schema(flatten(n)) == Some(n),
{
    let es = flatten(n);
    assert(es.subrange(0, es.len() as int) =~= es);
    lemma_parse_flatten(n, es, 0);
}

/// The `j`-th model of a forest models its `j`-th tree.
proof fn lemma_forest_view_index(s: Seq<ParquetType>, j: int)
    requires
        0 <= j < s.len(),
    ensures
        forest_view(s)[j] == s[j].view_node(),
    decreases s.len(),
{
    lemma_forest_view_len(s);
    if j < s.len() - 1 {
        lemma_forest_view_index(s.subrange(0, s.len() - 1), j);
    }
}

/// A forest is representable only where each of its trees is.
proof fn lemma_forest_representable_prefix(s: Seq<SchemaNode>, j: int)
    requires
        0 <= j < s.len(),
        forest_representable(s),
    ensures
        representable(s[j]),
    decreases s.len(),
{
    if j < s.len() - 1 {
        lemma_forest_representable_prefix(s.subrange(0, s.len() - 1), j);
    }
}

} // verus!
