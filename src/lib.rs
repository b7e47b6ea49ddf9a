//! Read-only access to columnar files in two container formats: format
//! detection, a container-independent model of schema, metadata and read
//! plans, and the marshalling of that model for a C boundary.
use vstd::prelude::*;

pub mod boundary;
pub mod error;
pub mod format;
pub mod metadata;
pub mod model;
pub mod reader;
pub mod text;

pub use boundary::{
    batch_size_from_boundary,
    classify_cell,
    classify_rows,
    marshal_batch,
    marshal_metadata,
    marshal_schema,
    BoundaryBatch,
    BoundaryField,
    BoundaryKeyValue,
    BoundaryMetadata,
    CellValue,
};
pub use error::ParquetViewerError;
pub use format::{format_by_extension, format_by_magic, format_for_lowered_extension, FileFormat};
pub use metadata::{batch_file_metadata, row_group_metadata, FileMetadata};
pub use model::{BatchFile, Container, FieldDescriptor, RowGroupFooter};
pub use reader::{
    check_projection,
    chunk_layout,
    mask_fields,
    project_fields,
    read_data,
    read_data_with_projection,
    read_metadata,
    read_schema,
    select,
    ReadPlan,
};

verus! {

} // verus!
