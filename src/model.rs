use vstd::prelude::*;

use crate::format::FileFormat;

verus! {

/// One column of a schema.
#[derive(Debug)]
pub struct FieldDescriptor {
    pub name: String,
    /// The logical type, in its printed form.
    pub data_type: String,
    pub nullable: bool,
}

impl FieldDescriptor {
    /// An equal, independently owned descriptor.
    pub fn duplicate(&self) -> (r: FieldDescriptor)
        ensures
            r == *self,
    {
        FieldDescriptor {
            name: self.name.clone(),
            data_type: self.data_type.clone(),
            nullable: self.nullable,
        }
    }
}

/// What the footer of a row-group file states, without any row data.
#[derive(Debug)]
pub struct RowGroupFooter {
    /// The schema, in column order.
    pub fields: Vec<FieldDescriptor>,
    /// The stored row count of each row group.
    pub row_group_rows: Vec<i64>,
    pub version: i32,
    pub created_by: Option<String>,
    /// Key-value metadata; a key may come without a value.
    pub key_value_metadata: Option<Vec<(String, Option<String>)>>,
}

/// What a full scan of an interchange file finds.
#[derive(Debug)]
pub struct BatchFile {
    /// The schema of the embedded header, in column order.
    pub fields: Vec<FieldDescriptor>,
    /// The row count of each stored batch, in file order.
    pub batch_rows: Vec<usize>,
    /// The schema's metadata map, as pairs with unique keys.
    pub metadata: Vec<(String, String)>,
}

/// A file's contents, by container kind.
#[derive(Debug)]
pub enum Container {
    Parquet(RowGroupFooter),
    Arrow(BatchFile),
}

impl Container {
    pub open spec fn spec_format(&self) -> FileFormat {
        match self {
            Container::Parquet(_) => FileFormat::Parquet,
            Container::Arrow(_) => FileFormat::Arrow,
        }
    }

    pub open spec fn spec_fields(&self) -> Seq<FieldDescriptor> {
        match self {
            Container::Parquet(f) => f.fields@,
            Container::Arrow(b) => b.fields@,
        }
    }

    /// The container kind.
    pub fn format(&self) -> (r: FileFormat)
        ensures
            r == self.spec_format(),
    {
        match self {
            Container::Parquet(_) => FileFormat::Parquet,
            Container::Arrow(_) => FileFormat::Arrow,
        }
    }

    /// The schema's fields, in column order.
    pub fn fields(&self) -> (r: &Vec<FieldDescriptor>)
        ensures
            r@ == self.spec_fields(),
    {
        match self {
            Container::Parquet(f) => &f.fields,
            Container::Arrow(b) => &b.fields,
        }
    }
}

/// An independently owned copy of a field list.
pub fn duplicate_fields(fields: &Vec<FieldDescriptor>) -> (r: Vec<FieldDescriptor>)
    ensures
        r@ == fields@,
{
    let mut r: Vec<FieldDescriptor> = Vec::new();
    let mut i: usize = 0;
    while i < fields.len()
        invariant
            i <= fields@.len(),
            r@ == fields@.subrange(0, i as int),
        decreases fields@.len() - i,
    {
        r.push(fields[i].duplicate());
        i = i + 1;
        assert(r@ =~= fields@.subrange(0, i as int));
    }
    assert(fields@.subrange(0, fields@.len() as int) =~= fields@);
    r
}

} // verus!
