use vstd::prelude::*;

use crate::error::ParquetViewerError;
use crate::model::{BatchFile, Container, RowGroupFooter};

verus! {

/// Aggregate statistics of a file, alike for both container kinds.
#[derive(Debug, Clone)]
pub struct FileMetadata {
    pub file_size: usize,
    pub total_records: i64,
    pub total_fields: usize,
    /// For interchange files, the number of batches scanned.
    pub total_row_groups: usize,
    /// Zero for interchange files, which have no format version.
    pub version: i32,
    pub created_by: Option<String>,
    pub key_value_metadata: Option<Vec<(String, String)>>,
}

/// The sum of a sequence of signed counts.
pub open spec fn sum_signed(s: Seq<i64>) -> int
    decreases s.len(),
{
    if s.len() == 0 {
        0
    } else {
        sum_signed(s.drop_last()) + s.last()
    }
}

/// The sum of a sequence of unsigned counts.
pub open spec fn sum_unsigned(s: Seq<usize>) -> int
    decreases s.len(),
{
    if s.len() == 0 {
        0
    } else {
        sum_unsigned(s.drop_last()) + s.last()
    }
}

pub open spec fn fits_i64(x: int) -> bool {
    i64::MIN <= x <= i64::MAX
}

/// The record count that a container's metadata reports: stored row-group
/// statistics, or the rows of every scanned batch.
pub open spec fn total_records_of(c: Container) -> int {
    match c {
        Container::Parquet(f) => sum_signed(f.row_group_rows@),
        Container::Arrow(b) => sum_unsigned(b.batch_rows@),
    }
}

/// A value that is absent reads as the empty text.
pub open spec fn value_or_empty(v: Option<String>) -> Seq<char> {
    match v {
        Some(s) => s@,
        None => Seq::empty(),
    }
}

/// `dst` holds the pairs of `src` in order, each missing value as empty text.
pub open spec fn defaulted_pairs(
    src: Option<Vec<(String, Option<String>)>>,
    dst: Option<Vec<(String, String)>>,
) -> bool {
    match (src, dst) {
        (None, None) => true,
        (Some(s), Some(d)) => d@.len() == s@.len() && forall|i: int|
            0 <= i < s@.len() ==> (#[trigger] d@[i]).0 == s@[i].0 && d@[i].1@ == value_or_empty(
                s@[i].1,
            ),
        _ => false,
    }
}

/// `m` is the metadata of a row-group file of `file_size` bytes with footer `f`.
pub open spec fn describes_row_groups(m: FileMetadata, file_size: usize, f: RowGroupFooter) -> bool {
    &&& m.file_size == file_size
    &&& m.total_records == sum_signed(f.row_group_rows@)
    &&& m.total_fields == f.fields@.len()
    &&& m.total_row_groups == f.row_group_rows@.len()
    &&& m.version == f.version
    &&& m.created_by == f.created_by
    &&& defaulted_pairs(f.key_value_metadata, m.key_value_metadata)
}

/// `m` is the metadata of an interchange file of `file_size` bytes whose
/// scan found `b`.
pub open spec fn describes_batches(m: FileMetadata, file_size: usize, b: BatchFile) -> bool {
    &&& m.file_size == file_size
    &&& m.total_records == sum_unsigned(b.batch_rows@)
    &&& m.total_fields == b.fields@.len()
    &&& m.total_row_groups == b.batch_rows@.len()
    &&& m.version == 0
    &&& m.created_by matches Some(s) && s@ == "Arrow IPC"@
    &&& if b.metadata@.len() == 0 {
        m.key_value_metadata is None
    } else {
        m.key_value_metadata matches Some(kv) && kv@ == b.metadata@
    }
}

/// `m` is the metadata of a file of `file_size` bytes holding `c`.
pub open spec fn metadata_of(file_size: usize, c: Container, m: FileMetadata) -> bool {
    match c {
        Container::Parquet(f) => describes_row_groups(m, file_size, f),
        Container::Arrow(b) => describes_batches(m, file_size, b),
    }
}

/// The sum of the stored row-group counts, if it fits an `i64`.
pub fn sum_row_group_rows(rows: &Vec<i64>) -> (r: Option<i64>)
    ensures
        match r {
            Some(t) => fits_i64(sum_signed(rows@)) && t == sum_signed(rows@),
            None => !fits_i64(sum_signed(rows@)),
        },
{
    let mut acc: i128 = 0;
    let mut i: usize = 0;
    while i < rows.len()
        invariant
            i <= rows@.len(),
            acc == sum_signed(rows@.subrange(0, i as int)),
            -(i as int) * 0x8000_0000_0000_0000 <= acc <= (i as int) * 0x7FFF_FFFF_FFFF_FFFF,
        decreases rows@.len() - i,
    {
        assert(rows@.subrange(0, i + 1).drop_last() =~= rows@.subrange(0, i as int));
        acc = acc + rows[i] as i128;
        i = i + 1;
    }
    assert(rows@.subrange(0, rows@.len() as int) =~= rows@);
    if acc < i64::MIN as i128 || acc > i64::MAX as i128 {
        None
    } else {
        Some(acc as i64)
    }
}

/// The sum of the scanned batch sizes, if it fits an `i64`.
pub fn sum_batch_rows(rows: &Vec<usize>) -> (r: Option<i64>)
    ensures
        match r {
            Some(t) => sum_unsigned(rows@) <= i64::MAX && t == sum_unsigned(rows@),
            None => sum_unsigned(rows@) > i64::MAX,
        },
{
    let mut acc: u128 = 0;
    let mut i: usize = 0;
    while i < rows.len()
        invariant
            i <= rows@.len(),
            acc == sum_unsigned(rows@.subrange(0, i as int)),
            acc <= (i as int) * 0xFFFF_FFFF_FFFF_FFFF,
        decreases rows@.len() - i,
    {
        assert(rows@.subrange(0, i + 1).drop_last() =~= rows@.subrange(0, i as int));
        acc = acc + rows[i] as u128;
        i = i + 1;
    }
    assert(rows@.subrange(0, rows@.len() as int) =~= rows@);
    if acc > i64::MAX as u128 {
        None
    } else {
        Some(acc as i64)
    }
}

/// The key-value pairs with each missing value replaced by empty text.
fn default_missing_values(kv: &Vec<(String, Option<String>)>) -> (r: Vec<(String, String)>)
    ensures
        defaulted_pairs(Some(*kv), Some(r)),
{
    let mut r: Vec<(String, String)> = Vec::new();
    let mut i: usize = 0;
    while i < kv.len()
        invariant
            i <= kv@.len(),
            r@.len() == i,
            forall|j: int|
                0 <= j < i ==> (#[trigger] r@[j]).0 == kv@[j].0 && r@[j].1@ == value_or_empty(
                    kv@[j].1,
                ),
        decreases kv@.len() - i,
    {
        let key = kv[i].0.clone();
        let value = match &kv[i].1 {
            Some(v) => v.clone(),
            None => String::new(),
        };
        r.push((key, value));
        i = i + 1;
    }
    r
}

/// An independently owned copy of a list of pairs.
fn duplicate_pairs(kv: &Vec<(String, String)>) -> (r: Vec<(String, String)>)
    ensures
        r@ == kv@,
{
    let mut r: Vec<(String, String)> = Vec::new();
    let mut i: usize = 0;
    while i < kv.len()
        invariant
            i <= kv@.len(),
            r@ == kv@.subrange(0, i as int),
        decreases kv@.len() - i,
    {
        r.push((kv[i].0.clone(), kv[i].1.clone()));
        i = i + 1;
        assert(r@ =~= kv@.subrange(0, i as int));
    }
    assert(kv@.subrange(0, kv@.len() as int) =~= kv@);
    r
}

/// Metadata of a row-group file, from its footer alone: no row data is
/// decoded. Fails when the stored row counts do not sum to an `i64`.
pub fn row_group_metadata(file_size: usize, footer: &RowGroupFooter) -> (r: Result<
    FileMetadata,
    ParquetViewerError,
>)
    ensures
        match r {
            Ok(m) => fits_i64(sum_signed(footer.row_group_rows@)) && describes_row_groups(
                m,
                file_size,
                *footer,
            ),
            Err(e) => !fits_i64(sum_signed(footer.row_group_rows@)) && e is Parquet,
        },
{
    let total_records = match sum_row_group_rows(&footer.row_group_rows) {
        Some(t) => t,
        None => {
            return Err(ParquetViewerError::Parquet("row counts overflow".to_owned()));
        },
    };
    let key_value_metadata = match &footer.key_value_metadata {
        Some(kv) => Some(default_missing_values(kv)),
        None => None,
    };
    Ok(FileMetadata {
        file_size,
        total_records,
        total_fields: footer.fields.len(),
        total_row_groups: footer.row_group_rows.len(),
        version: footer.version,
        created_by: footer.created_by.clone(),
        key_value_metadata,
    })
}

/// Metadata of an interchange file, from a full scan of its batches. Fails
/// when the batch sizes do not sum to an `i64`.
pub fn batch_file_metadata(file_size: usize, file: &BatchFile) -> (r: Result<
    FileMetadata,
    ParquetViewerError,
>)
    ensures
        match r {
            Ok(m) => sum_unsigned(file.batch_rows@) <= i64::MAX && describes_batches(
                m,
                file_size,
                *file,
            ),
            Err(e) => sum_unsigned(file.batch_rows@) > i64::MAX && e is Arrow,
        },
{
    let total_records = match sum_batch_rows(&file.batch_rows) {
        Some(t) => t,
        None => {
            return Err(ParquetViewerError::Arrow("row counts overflow".to_owned()));
        },
    };
    let key_value_metadata = if file.metadata.len() == 0 {
        None
    } else {
        Some(duplicate_pairs(&file.metadata))
    };
    let created_by = "Arrow IPC".to_owned();
    proof {
        reveal_strlit("Arrow IPC");
    }
    Ok(FileMetadata {
        file_size,
        total_records,
        total_fields: file.fields.len(),
        total_row_groups: file.batch_rows.len(),
        version: 0,
        created_by: Some(created_by),
        key_value_metadata,
    })
}

} // verus!
