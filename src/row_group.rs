//! Metadata of one row group.
use vstd::prelude::*;

use parquet_format::{ColumnChunk, RowGroup};

verus! {

/// One horizontal partition of the file's rows.
///
/// Column chunk `i` holds the data of leaf column `i` of the schema.
#[derive(Debug)]
pub struct RowGroupMetaData {
    pub columns: Vec<ColumnChunk>,
    pub num_rows: i64,
    pub total_byte_size: i64,
}

/// `w` is the Thrift form of `m`: the same values, the chunks in the same order.
pub open spec fn row_group_lowered(m: RowGroupMetaData, w: RowGroup) -> bool {
    &&& w.columns@ == m.columns@
    &&& w.num_rows == m.num_rows
    &&& w.total_byte_size == m.total_byte_size
    &&& w.sorting_columns is None
}

/// `m` is read from the Thrift form `w`: the same values, the chunks in the same order.
pub open spec fn row_group_lifted(w: RowGroup, m: RowGroupMetaData) -> bool {
    &&& m.columns@ == w.columns@
    &&& m.num_rows == w.num_rows
    &&& m.total_byte_size == w.total_byte_size
}

impl RowGroupMetaData {
    /// Creates the metadata of a row group.
    pub fn new(columns: Vec<ColumnChunk>, num_rows: i64, total_byte_size: i64) -> (r: Self)
        ensures
            r.columns@ == columns@,
            r.num_rows == num_rows,
            r.total_byte_size == total_byte_size,
    {
        RowGroupMetaData { columns, num_rows, total_byte_size }
    }

    /// The number of rows.
    pub fn num_rows(&self) -> (r: i64)
        ensures
            r == self.num_rows,
    {
        self.num_rows
    }

    /// The total byte size of all the uncompressed column data.
    pub fn total_byte_size(&self) -> (r: i64)
        ensures
            r == self.total_byte_size,
    {
        self.total_byte_size
    }

    /// The column chunks, in the order of the schema's leaf columns.
    pub fn columns(&self) -> (r: &Vec<ColumnChunk>)
        ensures
            r@ == self.columns@,
    {
        &self.columns
    }

    /// The Thrift form of this row group.
    pub fn into_thrift(self) -> (r: RowGroup)
        ensures
            row_group_lowered(self, r),
    {
        RowGroup {
            columns: self.columns,
            total_byte_size: self.total_byte_size,
            num_rows: self.num_rows,
            sorting_columns: None,
        }
    }

    /// Reads a row group from its Thrift form.
    pub fn from_thrift(w: RowGroup) -> (r: Self)
        ensures
            row_group_lifted(w, r),
    {
        RowGroupMetaData {
            columns: w.columns,
            num_rows: w.num_rows,
            total_byte_size: w.total_byte_size,
        }
    }
}

} // verus!
