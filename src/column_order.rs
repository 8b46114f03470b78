//! How the min/max statistics of a leaf column are to be compared.
use vstd::prelude::*;

verus! {

/// The ordering under which a column's statistics were computed.
#[derive(Clone, Copy, Debug, PartialEq, Eq, Structural)]
pub enum SortOrder {
    /// Signed numeric comparison.
    Signed,
    /// Unsigned numeric, or lexicographic byte-wise, comparison.
    Unsigned,
    /// No ordering is known for the type.
    Undefined,
}

/// The sort order of one leaf column's statistics.
#[derive(Clone, Copy, Debug, PartialEq, Eq, Structural)]
pub enum ColumnOrder {
    /// The statistics follow the order that the column's type defines, and may be
    /// used for range pruning.
    TypeDefinedOrder(SortOrder),
    /// The statistics were written without a known order (a legacy writer), and
    /// must not be used for pruning.
    Undefined,
}

} // verus!
