//! Metadata of a whole file, and its translation to and from the Thrift form.
use vstd::prelude::*;

use parquet_format::FileMetaData as ThriftFileMetaData;

use crate::column_order::ColumnOrder;
use crate::error::ParquetError;
use crate::row_group::{row_group_lifted, row_group_lowered, RowGroupMetaData};
use crate::schema::ParquetType;
use crate::schema_descriptor::SchemaDescriptor;
use crate::thrift::{
    elements_model, flatten, is_bare, lemma_schema_round_trip, parse_schema, schema_from_thrift,
    schema_representable, schema_to_thrift,
};

verus! {

/// A free-form key/value pair of the file's metadata.
pub type KeyValue = parquet_format::KeyValue;

/// Metadata for a file.
#[derive(Debug)]
pub struct FileMetaData {
    /// Version of this file.
    pub version: i32,
    /// Number of rows in the file; recorded as given, not derived from the row groups.
    pub num_rows: i64,
    /// The application that wrote this file, conventionally in the form
    /// `<application> version <application version> (build <application build hash>)`.
    pub created_by: Option<String>,
    /// The row groups of this file, in order.
    pub row_groups: Vec<RowGroupMetaData>,
    /// Free-form key/value metadata; duplicate keys are kept, in order.
    pub key_value_metadata: Option<Vec<KeyValue>>,
    /// The schema and its leaf columns.
    pub schema_descr: SchemaDescriptor,
    /// The sort order of each leaf column's statistics, by leaf position.
    ///
    /// `None` means that no order is known for any column.
    pub column_orders: Option<Vec<ColumnOrder>>,
}

/// The order of leaf column `i`: the entry at `i` where the list is present and
/// long enough, `Undefined` otherwise.
pub open spec fn column_order_at(orders: Option<Vec<ColumnOrder>>, i: int) -> ColumnOrder {
    match orders {
        Some(v) => if 0 <= i < v@.len() {
            v@[i]
        } else {
            ColumnOrder::Undefined
        },
        None => ColumnOrder::Undefined,
    }
}

/// `w` is the Thrift form of `m`. The column orders are not written.
pub open spec fn file_lowered(m: FileMetaData, w: ThriftFileMetaData) -> bool {
    &&& w.version == m.version
    &&& w.num_rows == m.num_rows
    &&& w.created_by == m.created_by
    &&& w.key_value_metadata == m.key_value_metadata
    &&& w.column_orders is None
    &&& elements_model(w.schema@) == flatten(m.schema_descr.root_view())
    &&& forall|k: int| 0 <= k < w.schema@.len() ==> is_bare(#[trigger] w.schema@[k])
    &&& w.row_groups@.len() == m.row_groups@.len()
    &&& forall|k: int|
        0 <= k < w.row_groups@.len() ==> row_group_lowered(
            #[trigger] m.row_groups@[k],
            w.row_groups@[k],
        )
}

/// `m` is read from the Thrift form `w`: its schema tree is the one that the flat
/// schema of `w` describes.
/// Column orders are not read.
pub open spec fn file_lifted(w: ThriftFileMetaData, m: FileMetaData) -> bool {
    &&& m.version == w.version
    &&& m.num_rows == w.num_rows
    &&& m.created_by == w.created_by
    &&& m.key_value_metadata == w.key_value_metadata
    &&& m.column_orders is None
    &&& m.schema_descr.wf()
    &&& parse_schema(elements_model(w.schema@)) == Some(m.schema_descr.root_view())
    &&& m.row_groups@.len() == w.row_groups@.len()
    &&& forall|k: int|
        0 <= k < m.row_groups@.len() ==> row_group_lifted(
            #[trigger] w.row_groups@[k],
            m.row_groups@[k],
        )
}

impl FileMetaData {
    /// Creates file metadata from its parts, as given: nothing is checked
    /// across fields.
    pub fn new(
        version: i32,
        num_rows: i64,
        created_by: Option<String>,
        row_groups: Vec<RowGroupMetaData>,
        key_value_metadata: Option<Vec<KeyValue>>,
        schema_descr: SchemaDescriptor,
        column_orders: Option<Vec<ColumnOrder>>,
    ) -> (r: Self)
        ensures
            r.version == version,
            r.num_rows == num_rows,
            r.created_by == created_by,
            r.row_groups == row_groups,
            r.key_value_metadata == key_value_metadata,
            r.schema_descr == schema_descr,
            r.column_orders == column_orders,
    {
        FileMetaData {
            version,
            num_rows,
            created_by,
            row_groups,
            key_value_metadata,
            schema_descr,
            column_orders,
        }
    }

    /// The root of the schema tree.
    pub fn schema(&self) -> (r: &ParquetType)
        ensures
            r.view_node() == self.schema_descr.root_view(),
    {
        self.schema_descr.root()
    }

    /// The sort order of leaf column `i`.
    ///
    /// Unlike `SchemaDescriptor::leaf`, this is defined for every `i`: where the
    /// column orders are absent, or do not reach `i`, the order is `Undefined`.
    pub fn column_order(&self, i: usize) -> (r: ColumnOrder)
        ensures
            r == column_order_at(self.column_orders, i as int),
    {
        match &self.column_orders {
            Some(orders) => if i < orders.len() {
                orders[i]
            } else {
                ColumnOrder::Undefined
            },
            None => ColumnOrder::Undefined,
        }
    }

    /// The Thrift form of this metadata.
    ///
    /// Fails only where the schema has no Thrift form. The column orders are
    /// not written: the result carries none, whatever this metadata holds, so
    /// they do not survive a round trip. Whether the Thrift form should carry
    /// them is still open; until that is settled they are left out.
    pub fn into_thrift(self) -> (r: Result<ThriftFileMetaData, ParquetError>)
        ensures
            r is Ok <==> schema_representable(self.schema_descr.root_view()),
            r matches Ok(w) ==> file_lowered(self, w),
            r matches Err(e) ==> e is SchemaNotRepresentable,
    {
        let ghost input = self;
        let schema = match schema_to_thrift(self.schema()) {
            Ok(v) => v,
            Err(e) => return Err(e),
        };
        let FileMetaData {
            version,
            num_rows,
            created_by,
            row_groups,
            key_value_metadata,
            schema_descr: _,
            column_orders: _,
        } = self;
        let mut rest = row_groups;
        let mut lowered: Vec<parquet_format::RowGroup> = Vec::new();
        while rest.len() > 0
            invariant
                lowered@.len() + rest@.len() == input.row_groups@.len(),
                rest@ == input.row_groups@.subrange(lowered@.len() as int, input.row_groups@.len() as int),
                forall|k: int|
                    0 <= k < lowered@.len() ==> row_group_lowered(
                        #[trigger] input.row_groups@[k],
                        lowered@[k],
                    ),
            decreases rest@.len(),
        {
            let rg = rest.remove(0);
            let ghost k = lowered@.len() as int;
            assert(rg == input.row_groups@[k]);
            lowered.push(rg.into_thrift());
            assert(rest@ =~= input.row_groups@.subrange(lowered@.len() as int, input.row_groups@.len() as int));
        }
        Ok(ThriftFileMetaData {
            version,
            schema,
            num_rows,
            row_groups: lowered,
            key_value_metadata,
            created_by,
            column_orders: None,
        })
    }

    /// Reads metadata from its Thrift form.
    ///
    /// Fails where the flat schema does not describe exactly one tree with a
    /// group at its root. Column orders are not read: the result carries none.
    pub fn from_thrift(w: ThriftFileMetaData) -> (r: Result<Self, ParquetError>)
        ensures
            r is Ok <==> parse_schema(elements_model(w.schema@)) is Some,
            r matches Ok(m) ==> file_lifted(w, m),
            r matches Err(e) ==> e is InvalidThriftSchema,
    {
        let ghost input = w;
        let root = match schema_from_thrift(&w.schema) {
            Ok(t) => t,
            Err(e) => return Err(e),
        };
        let schema_descr = SchemaDescriptor::new(root);
        let ThriftFileMetaData {
            version,
            schema: _,
            num_rows,
            row_groups,
            key_value_metadata,
            created_by,
            column_orders: _,
        } = w;
        let mut rest = row_groups;
        let mut lifted: Vec<RowGroupMetaData> = Vec::new();
        while rest.len() > 0
            invariant
                lifted@.len() + rest@.len() == input.row_groups@.len(),
                rest@ == input.row_groups@.subrange(lifted@.len() as int, input.row_groups@.len() as int),
                forall|k: int|
                    0 <= k < lifted@.len() ==> row_group_lifted(
                        #[trigger] input.row_groups@[k],
                        lifted@[k],
                    ),
            decreases rest@.len(),
        {
            let rg = rest.remove(0);
            let ghost k = lifted@.len() as int;
            assert(rg == input.row_groups@[k]);
            lifted.push(RowGroupMetaData::from_thrift(rg));
            assert(rest@ =~= input.row_groups@.subrange(lifted@.len() as int, input.row_groups@.len() as int));
        }
        Ok(FileMetaData {
            version,
            num_rows,
            created_by,
            row_groups: lifted,
            key_value_metadata,
            schema_descr,
            column_orders: None,
        })
    }
}

/// Without column orders, every leaf column's order is `Undefined`.
pub proof fn lemma_no_column_orders_undefined(m: FileMetaData, i: int)
    requires
        m.column_orders is None,
    ensures
        column_order_at(m.column_orders, i) == ColumnOrder::Undefined,
{
}

/// Writing metadata in its Thrift form and reading it back keeps the version,
/// the row count, the writer, the key/value metadata, the schema tree and each
/// row group, in order; the column orders are lost, and reading cannot fail.
pub proof fn lemma_file_round_trip(m: FileMetaData, w: ThriftFileMetaData, back: FileMetaData)
    requires
        schema_representable(m.schema_descr.root_view()),
        file_lowered(m, w),
    ensures
        parse_schema(elements_model(w.schema@)) is Some,
        file_lifted(w, back) ==> {
            &&& back.version == m.version
            &&& back.num_rows == m.num_rows
            &&& back.created_by == m.created_by
            &&& back.key_value_metadata == m.key_value_metadata
            &&& back.column_orders is None
            &&& back.schema_descr.root_view() == m.schema_descr.root_view()
            &&& back.row_groups@.len() == m.row_groups@.len()
            &&& forall|k: int|
                0 <= k < back.row_groups@.len() ==> {
                    &&& (#[trigger] back.row_groups@[k]).num_rows == m.row_groups@[k].num_rows
                    &&& back.row_groups@[k].total_byte_size == m.row_groups@[k].total_byte_size
                    &&& back.row_groups@[k].columns@ == m.row_groups@[k].columns@
                }
        },
{
    lemma_schema_round_trip(m.schema_descr.root_view());
    if file_lifted(w, back) {
        assert forall|k: int| 0 <= k < back.row_groups@.len() implies {
            &&& (#[trigger] back.row_groups@[k]).num_rows == m.row_groups@[k].num_rows
            &&& back.row_groups@[k].total_byte_size == m.row_groups@[k].total_byte_size
            &&& back.row_groups@[k].columns@ == m.row_groups@[k].columns@
        } by {
            assert(row_group_lifted(w.row_groups@[k], back.row_groups@[k]));
            assert(row_group_lowered(m.row_groups@[k], w.row_groups@[k]));
        }
    }
}

} // verus!
