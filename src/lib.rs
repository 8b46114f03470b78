//! Structural metadata of a columnar file: the nested schema, its flattening
//! into leaf columns, row-group and file metadata, and the mapping to and from
//! the Thrift structures of `parquet_format`.
pub mod column_order;
pub mod error;
pub mod file_metadata;
pub mod row_group;
pub mod schema;
pub mod schema_descriptor;
pub mod thrift;
