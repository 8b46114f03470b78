//! The errors of translating metadata to and from its Thrift form.
use vstd::prelude::*;

verus! {

/// Why metadata could not be translated.
#[derive(Debug)]
pub enum ParquetError {
    /// The schema node with this name has no representation in the Thrift schema.
    SchemaNotRepresentable(String),
    /// The flat Thrift schema does not describe exactly one tree.
    InvalidThriftSchema,
}

} // verus!
