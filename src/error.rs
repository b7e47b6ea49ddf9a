use vstd::prelude::*;

verus! {

/// Why a read failed.
#[derive(Debug, PartialEq, Eq)]
pub enum ParquetViewerError {
    /// A lower-level read failed.
    Io(String),
    /// The row-group container was malformed or unsupported.
    Parquet(String),
    /// The interchange container was malformed or unsupported.
    Arrow(String),
    /// The path does not exist.
    FileNotFound(String),
    /// A projection named a column outside the schema.
    InvalidProjection { index: usize, num_columns: usize },
}

} // verus!
