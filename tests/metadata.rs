use parquet_format::{ColumnChunk, ColumnMetaData, FieldRepetitionType, KeyValue, SchemaElement, Type};
use parquet_meta::column_order::{ColumnOrder, SortOrder};
use parquet_meta::error::ParquetError;
use parquet_meta::file_metadata::FileMetaData;
use parquet_meta::row_group::RowGroupMetaData;
use parquet_meta::schema::{ParquetType, PhysicalType, Repetition};
use parquet_meta::schema_descriptor::SchemaDescriptor;
use parquet_meta::thrift::{schema_from_thrift, schema_to_thrift};

fn prim(name: &str, physical_type: PhysicalType) -> ParquetType {
    ParquetType::Primitive {
        name: name.to_string(),
        repetition: Repetition::Optional,
        physical_type,
    }
}

fn group(name: &str, fields: Vec<ParquetType>) -> ParquetType {
    ParquetType::Group { name: name.to_string(), repetition: Repetition::Required, fields }
}

fn two_leaf_schema() -> SchemaDescriptor {
    SchemaDescriptor::new(group(
        "root",
        vec![prim("a", PhysicalType::Int32), prim("b", PhysicalType::ByteArray)],
    ))
}

fn chunk(offset: i64) -> ColumnChunk {
    ColumnChunk::new(
        None::<String>,
        offset,
        None::<ColumnMetaData>,
        None::<i64>,
        None::<i32>,
        None::<i64>,
        None::<i32>,
    )
}

fn metadata(
    num_rows: i64,
    column_orders: Option<Vec<ColumnOrder>>,
    key_value_metadata: Option<Vec<KeyValue>>,
) -> FileMetaData {
    let row_groups = vec![
        RowGroupMetaData::new(vec![chunk(4), chunk(40)], 5, 100),
        RowGroupMetaData::new(vec![chunk(140), chunk(180)], 5, 120),
    ];
    FileMetaData::new(
        2,
        num_rows,
        Some("test".to_string()),
        row_groups,
        key_value_metadata,
        two_leaf_schema(),
        column_orders,
    )
}

fn element(
    name: &str,
    type_: Option<Type>,
    repetition: Option<FieldRepetitionType>,
    num_children: Option<i32>,
) -> SchemaElement {
    SchemaElement::new(
        type_,
        None::<i32>,
        repetition,
        name.to_string(),
        num_children,
        None,
        None::<i32>,
        None::<i32>,
        None::<i32>,
        None,
    )
}

#[test]
fn two_leaves_in_order() {
    let d = two_leaf_schema();
    assert_eq!(d.leaf_count(), 2);
    assert_eq!(d.leaf(0).name, "a");
    assert_eq!(d.leaf(1).name, "b");
    assert_eq!(d.leaf(0).physical_type, PhysicalType::Int32);
    assert_eq!(d.leaf(1).physical_type, PhysicalType::ByteArray);
    assert_eq!(d.leaf(1).repetition, Repetition::Optional);
}

#[test]
fn nested_leaves_in_pre_order() {
    let root = group(
        "root",
        vec![
            prim("a", PhysicalType::Int64),
            group("g", vec![prim("b", PhysicalType::Boolean), group("empty", vec![]), prim("c", PhysicalType::Double)]),
            prim("d", PhysicalType::Int96),
        ],
    );
    let d = SchemaDescriptor::new(root);
    assert_eq!(d.leaf_count(), 4);
    let names: Vec<String> = (0..4).map(|i| d.leaf(i).name.clone()).collect();
    assert_eq!(names, vec!["a", "b", "c", "d"]);
    assert_eq!(d.leaf(2).physical_type, PhysicalType::Double);
}

#[test]
fn leaf_is_the_same_on_repeated_calls() {
    let d = two_leaf_schema();
    for i in 0..2 {
        assert_eq!(d.leaf(i).name, d.leaf(i).name);
        assert_eq!(d.leaf(i).physical_type, d.leaf(i).physical_type);
    }
    let e = two_leaf_schema();
    assert_eq!(d.leaf(1).name, e.leaf(1).name);
}

#[test]
fn group_without_primitives_has_no_leaves() {
    let d = SchemaDescriptor::new(group("root", vec![group("g", vec![])]));
    assert_eq!(d.leaf_count(), 0);
}

#[test]
fn primitive_root_is_its_own_leaf() {
    let d = SchemaDescriptor::new(prim("x", PhysicalType::Float));
    assert_eq!(d.leaf_count(), 1);
    assert_eq!(d.leaf(0).name, "x");
}

#[test]
fn schema_returns_the_root() {
    let m = metadata(10, None, None);
    match m.schema() {
        ParquetType::Group { name, fields, .. } => {
            assert_eq!(name, "root");
            assert_eq!(fields.len(), 2);
        }
        ParquetType::Primitive { .. } => panic!("root should be a group"),
    }
}

#[test]
fn column_order_absent_is_undefined() {
    let m = metadata(10, None, None);
    for i in [0usize, 1, 2, 100, usize::MAX] {
        assert_eq!(m.column_order(i), ColumnOrder::Undefined);
    }
}

#[test]
fn column_order_falls_back_past_the_list() {
    let m = metadata(10, Some(vec![ColumnOrder::TypeDefinedOrder(SortOrder::Signed)]), None);
    assert_eq!(m.column_order(0), ColumnOrder::TypeDefinedOrder(SortOrder::Signed));
    assert_eq!(m.column_order(1), ColumnOrder::Undefined);
}

#[test]
fn column_order_reads_each_entry() {
    let orders = vec![
        ColumnOrder::TypeDefinedOrder(SortOrder::Unsigned),
        ColumnOrder::Undefined,
        ColumnOrder::TypeDefinedOrder(SortOrder::Undefined),
    ];
    let m = metadata(10, Some(orders), None);
    assert_eq!(m.column_order(0), ColumnOrder::TypeDefinedOrder(SortOrder::Unsigned));
    assert_eq!(m.column_order(1), ColumnOrder::Undefined);
    assert_eq!(m.column_order(2), ColumnOrder::TypeDefinedOrder(SortOrder::Undefined));
    assert_eq!(m.column_order(3), ColumnOrder::Undefined);
}

#[test]
fn round_trip_keeps_fields_and_drops_column_orders() {
    let m = metadata(10, Some(vec![ColumnOrder::TypeDefinedOrder(SortOrder::Signed)]), None);
    let w = m.into_thrift().unwrap();
    assert!(w.column_orders.is_none());
    let back = FileMetaData::from_thrift(w).unwrap();
    assert_eq!(back.version, 2);
    assert_eq!(back.num_rows, 10);
    assert_eq!(back.created_by, Some("test".to_string()));
    assert!(back.key_value_metadata.is_none());
    assert!(back.column_orders.is_none());
    assert_eq!(back.row_groups.len(), 2);
    assert_eq!(back.row_groups[0].num_rows(), 5);
    assert_eq!(back.row_groups[1].num_rows(), 5);
    assert_eq!(back.row_groups[0].total_byte_size(), 100);
    assert_eq!(back.row_groups[1].total_byte_size(), 120);
    assert_eq!(back.row_groups[1].columns(), &vec![chunk(140), chunk(180)]);
    assert_eq!(back.schema_descr.leaf_count(), 2);
    assert_eq!(back.schema_descr.leaf(0).name, "a");
    assert_eq!(back.schema_descr.leaf(1).name, "b");
    assert_eq!(back.column_order(0), ColumnOrder::Undefined);
}

#[test]
fn lowering_maps_fields_one_for_one() {
    let kv = vec![
        KeyValue::new("k".to_string(), Some("1".to_string())),
        KeyValue::new("k".to_string(), Some("2".to_string())),
        KeyValue::new("z".to_string(), None::<String>),
    ];
    let m = metadata(10, None, Some(kv.clone()));
    let w = m.into_thrift().unwrap();
    assert_eq!(w.version, 2);
    assert_eq!(w.num_rows, 10);
    assert_eq!(w.created_by, Some("test".to_string()));
    assert_eq!(w.key_value_metadata, Some(kv));
    assert_eq!(w.row_groups.len(), 2);
    assert_eq!(w.row_groups[0].num_rows, 5);
    assert_eq!(w.row_groups[0].total_byte_size, 100);
    assert_eq!(w.row_groups[0].columns, vec![chunk(4), chunk(40)]);
    assert!(w.row_groups[0].sorting_columns.is_none());
    assert_eq!(w.schema.len(), 3);
}

#[test]
fn primitive_root_is_not_representable() {
    let m = FileMetaData::new(
        1,
        0,
        None,
        vec![],
        None,
        SchemaDescriptor::new(prim("lonely", PhysicalType::Int32)),
        None,
    );
    match m.into_thrift() {
        Err(ParquetError::SchemaNotRepresentable(name)) => assert_eq!(name, "lonely"),
        other => panic!("unexpected result: {:?}", other.map(|_| ())),
    }
}

#[test]
fn num_rows_is_not_checked_against_row_groups() {
    let m = metadata(999, None, None);
    assert_eq!(m.num_rows, 999);
    let w = m.into_thrift().unwrap();
    assert_eq!(w.num_rows, 999);
    let back = FileMetaData::from_thrift(w).unwrap();
    assert_eq!(back.num_rows, 999);
    let total: i64 = back.row_groups.iter().map(|g| g.num_rows()).sum();
    assert_eq!(total, 10);
}

#[test]
fn schema_to_thrift_writes_pre_order() {
    let root = group(
        "root",
        vec![prim("a", PhysicalType::Int32), group("g", vec![prim("b", PhysicalType::FixedLenByteArray)])],
    );
    let es = schema_to_thrift(&root).unwrap();
    let expected = vec![
        element("root", None, Some(FieldRepetitionType::Required), Some(2)),
        element("a", Some(Type::Int32), Some(FieldRepetitionType::Optional), None),
        element("g", None, Some(FieldRepetitionType::Required), Some(1)),
        element("b", Some(Type::FixedLenByteArray), Some(FieldRepetitionType::Optional), None),
    ];
    assert_eq!(es, expected);
}

#[test]
fn schema_from_thrift_reads_pre_order() {
    let es = vec![
        element("root", None, None, Some(2)),
        element("g", None, Some(FieldRepetitionType::Repeated), Some(1)),
        element("x", Some(Type::Int64), Some(FieldRepetitionType::Required), None),
        element("y", Some(Type::Boolean), None, None),
    ];
    let t = schema_from_thrift(&es).unwrap();
    let d = SchemaDescriptor::new(t);
    assert_eq!(d.leaf_count(), 2);
    assert_eq!(d.leaf(0).name, "x");
    assert_eq!(d.leaf(0).physical_type, PhysicalType::Int64);
    assert_eq!(d.leaf(1).name, "y");
    assert_eq!(d.leaf(1).repetition, Repetition::Required);
    match d.root() {
        ParquetType::Group { fields, repetition, .. } => {
            assert_eq!(*repetition, Repetition::Required);
            match &fields[0] {
                ParquetType::Group { name, repetition, fields } => {
                    assert_eq!(name, "g");
                    assert_eq!(*repetition, Repetition::Repeated);
                    assert_eq!(fields.len(), 1);
                }
                ParquetType::Primitive { .. } => panic!("expected a group"),
            }
        }
        ParquetType::Primitive { .. } => panic!("expected a group"),
    }
}

fn is_invalid(es: Vec<SchemaElement>) -> bool {
    matches!(schema_from_thrift(&es), Err(ParquetError::InvalidThriftSchema))
}

#[test]
fn schema_from_thrift_rejects_malformed_lists() {
    assert!(is_invalid(vec![]));
    assert!(is_invalid(vec![element("root", Some(Type::Int32), None, None)]));
    assert!(is_invalid(vec![element("root", None, None, Some(2)), element("a", Some(Type::Int32), None, None)]));
    assert!(is_invalid(vec![element("root", None, None, Some(-1))]));
    assert!(is_invalid(vec![element("root", None, None, Some(1)), element("a", None, None, None)]));
    assert!(is_invalid(vec![
        element("root", None, None, Some(1)),
        element("a", Some(Type::Int32), None, None),
        element("b", Some(Type::Int32), None, None),
    ]));
    assert!(!is_invalid(vec![element("root", None, None, Some(0))]));
}

#[test]
fn row_group_round_trip() {
    let rg = RowGroupMetaData::new(vec![chunk(7)], 3, 64);
    let w = rg.into_thrift();
    assert_eq!(w.num_rows, 3);
    assert_eq!(w.total_byte_size, 64);
    assert_eq!(w.columns, vec![chunk(7)]);
    let back = RowGroupMetaData::from_thrift(w);
    assert_eq!(back.num_rows(), 3);
    assert_eq!(back.total_byte_size(), 64);
    assert_eq!(back.columns(), &vec![chunk(7)]);
}
