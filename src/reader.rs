use vstd::prelude::*;

use vstd::arithmetic::div_mod::{
    lemma_basic_div,
    lemma_div_plus_one,
    lemma_mod_self_0,
    lemma_mod_sub_multiples_vanish,
    lemma_small_mod,
};

use crate::error::ParquetViewerError;
use crate::format::FileFormat;
use crate::metadata::{
    batch_file_metadata,
    fits_i64,
    metadata_of,
    row_group_metadata,
    sum_unsigned,
    total_records_of,
    FileMetadata,
};
use crate::model::{duplicate_fields, Container, FieldDescriptor};

verus! {

/// How the batches of a file are to be decoded.
#[derive(Debug)]
pub struct ReadPlan {
    pub format: FileFormat,
    /// The column indices asked for; `None` decodes every column.
    pub projection: Option<Vec<usize>>,
    /// Rows per output batch; `None` keeps the storage's own grouping.
    pub batch_size: Option<usize>,
    /// The schema of the batches that come out.
    pub fields: Vec<FieldDescriptor>,
}

/// Every index names a column of an `n`-column schema.
pub open spec fn projection_valid(indices: Seq<usize>, n: usize) -> bool {
    forall|k: int| 0 <= k < indices.len() ==> #[trigger] indices[k] < n
}

/// The error that a projection out of range gives: it names the first index
/// that is too large.
pub open spec fn projection_error(indices: Seq<usize>, n: usize, e: ParquetViewerError) -> bool {
    exists|k: int|
        0 <= k < indices.len() && indices[k] >= n && (forall|j: int|
            0 <= j < k ==> #[trigger] indices[j] < n) && e == (ParquetViewerError::InvalidProjection {
            index: indices[k],
            num_columns: n,
        })
}

/// The batch size that a read honours: the interchange format keeps its
/// stored batches whatever is asked.
pub open spec fn honoured_batch_size(format: FileFormat, batch_size: Option<usize>) -> Option<usize> {
    match format {
        FileFormat::Parquet => batch_size,
        FileFormat::Arrow => None,
    }
}

/// Some index of `indices` is `col`.
pub open spec fn names(indices: Seq<usize>, col: int) -> bool {
    exists|k: int| 0 <= k < indices.len() && indices[k] as int == col
}

/// The first `n` fields that `indices` names, in schema order and each
/// once: the row-group format decodes a set of columns.
pub open spec fn masked_fields(fields: Seq<FieldDescriptor>, indices: Seq<usize>, n: nat) -> Seq<
    FieldDescriptor,
>
    decreases n,
{
    if n == 0 {
        Seq::empty()
    } else {
        let before = masked_fields(fields, indices, (n - 1) as nat);
        if names(indices, n - 1) {
            before.push(fields[n - 1])
        } else {
            before
        }
    }
}

/// The fields that `indices` names, in index order with repeats: the
/// interchange format slices each batch by index.
pub open spec fn sliced_fields(
    fields: Seq<FieldDescriptor>,
    indices: Seq<usize>,
    out: Seq<FieldDescriptor>,
) -> bool {
    out.len() == indices.len() && forall|k: int|
        0 <= k < indices.len() ==> #[trigger] out[k] == fields[indices[k] as int]
}

/// The schema of the batches that reading `c` with the column projection
/// `indices` yields.
pub open spec fn projected_schema(c: Container, indices: Seq<usize>, out: Seq<FieldDescriptor>) -> bool {
    match c.spec_format() {
        FileFormat::Parquet => out == masked_fields(
            c.spec_fields(),
            indices,
            c.spec_fields().len(),
        ),
        FileFormat::Arrow => sliced_fields(c.spec_fields(), indices, out),
    }
}

/// `p` is the plan for reading `c` with `projection` and `batch_size`.
pub open spec fn plan_of(
    c: Container,
    projection: Option<Seq<usize>>,
    batch_size: Option<usize>,
    p: ReadPlan,
) -> bool {
    &&& p.format == c.spec_format()
    &&& p.batch_size == honoured_batch_size(c.spec_format(), batch_size)
    &&& match projection {
        None => p.projection is None && p.fields@ == c.spec_fields(),
        Some(ix) => p.projection matches Some(v) && v@ == ix && projected_schema(c, ix, p.fields@),
    }
}

/// Checks a projection against an `n`-column schema before anything is decoded.
pub fn check_projection(indices: &Vec<usize>, num_columns: usize) -> (r: Result<(), ParquetViewerError>)
    ensures
        match r {
            Ok(()) => projection_valid(indices@, num_columns),
            Err(e) => !projection_valid(indices@, num_columns) && projection_error(
                indices@,
                num_columns,
                e,
            ),
        },
{
    let mut k: usize = 0;
    while k < indices.len()
        invariant
            k <= indices@.len(),
            forall|j: int| 0 <= j < k ==> #[trigger] indices@[j] < num_columns,
        decreases indices@.len() - k,
    {
        if indices[k] >= num_columns {
            let e = ParquetViewerError::InvalidProjection { index: indices[k], num_columns };
            assert(projection_error(indices@, num_columns, e));
            return Err(e);
        }
        k = k + 1;
    }
    Ok(())
}

/// The fields that a projection keeps, in projection order.
pub fn project_fields(fields: &Vec<FieldDescriptor>, indices: &Vec<usize>) -> (r: Vec<FieldDescriptor>)
    requires
        projection_valid(indices@, fields@.len() as usize),
    ensures
        r@.len() == indices@.len(),
        forall|k: int| 0 <= k < indices@.len() ==> #[trigger] r@[k] == fields@[indices@[k] as int],
{
    let mut r: Vec<FieldDescriptor> = Vec::new();
    let mut k: usize = 0;
    while k < indices.len()
        invariant
            k <= indices@.len(),
            projection_valid(indices@, fields@.len() as usize),
            r@.len() == k,
            forall|j: int| 0 <= j < k ==> #[trigger] r@[j] == fields@[indices@[j] as int],
        decreases indices@.len() - k,
    {
        let i = indices[k];
        assert(indices@[k as int] < fields@.len());
        r.push(fields[i].duplicate());
        k = k + 1;
    }
    r
}

/// Whether `indices` names column `i`.
fn names_column(indices: &Vec<usize>, i: usize) -> (r: bool)
    ensures
        r == names(indices@, i as int),
{
    let mut k: usize = 0;
    while k < indices.len()
        invariant
            k <= indices@.len(),
            forall|j: int| 0 <= j < k ==> #[trigger] indices@[j] != i,
        decreases indices@.len() - k,
    {
        if indices[k] == i {
            assert(indices@[k as int] == i);
            return true;
        }
        k = k + 1;
    }
    false
}

/// The fields that a projection names, in schema order and each once.
pub fn mask_fields(fields: &Vec<FieldDescriptor>, indices: &Vec<usize>) -> (r: Vec<FieldDescriptor>)
    ensures
        r@ == masked_fields(fields@, indices@, fields@.len()),
{
    let mut r: Vec<FieldDescriptor> = Vec::new();
    let mut i: usize = 0;
    while i < fields.len()
        invariant
            i <= fields@.len(),
            r@ == masked_fields(fields@, indices@, i as nat),
        decreases fields@.len() - i,
    {
        if names_column(indices, i) {
            r.push(fields[i].duplicate());
        }
        i = i + 1;
    }
    r
}

/// The items that a projection keeps, each cloned, in projection order.
pub fn select<T: Clone>(items: &Vec<T>, indices: &Vec<usize>) -> (r: Vec<T>)
    requires
        projection_valid(indices@, items@.len() as usize),
    ensures
        r@.len() == indices@.len(),
        forall|k: int|
            0 <= k < indices@.len() ==> cloned(items@[#[trigger] indices@[k] as int], r@[k]),
{
    let mut r: Vec<T> = Vec::new();
    let mut k: usize = 0;
    while k < indices.len()
        invariant
            k <= indices@.len(),
            projection_valid(indices@, items@.len() as usize),
            r@.len() == k,
            forall|j: int| 0 <= j < k ==> cloned(items@[#[trigger] indices@[j] as int], r@[j]),
        decreases indices@.len() - k,
    {
        let i = indices[k];
        assert(indices@[k as int] < items@.len());
        r.push(items[i].clone());
        k = k + 1;
    }
    r
}

/// The schema of a file, without its row data.
pub fn read_schema(c: &Container) -> (r: Vec<FieldDescriptor>)
    ensures
        r@ == c.spec_fields(),
{
    duplicate_fields(c.fields())
}

/// The aggregate metadata of a file of `file_size` bytes holding `c`. Fails,
/// with the container's own error kind, only when its record count does not
/// fit an `i64`.
pub fn read_metadata(file_size: usize, c: &Container) -> (r: Result<FileMetadata, ParquetViewerError>)
    ensures
        match r {
            Ok(m) => fits_i64(total_records_of(*c)) && metadata_of(file_size, *c, m),
            Err(e) => !fits_i64(total_records_of(*c)) && match c.spec_format() {
                FileFormat::Parquet => e is Parquet,
                FileFormat::Arrow => e is Arrow,
            },
        },
{
    match c {
        Container::Parquet(footer) => row_group_metadata(file_size, footer),
        Container::Arrow(file) => {
            proof {
                lemma_sum_unsigned_nonneg(file.batch_rows@);
            }
            batch_file_metadata(file_size, file)
        },
    }
}

/// The plan for reading every column of a file.
pub fn read_data(c: &Container, batch_size: Option<usize>) -> (r: ReadPlan)
    ensures
        plan_of(*c, None, batch_size, r),
{
    let format = c.format();
    ReadPlan {
        format,
        projection: None,
        batch_size: match format {
            FileFormat::Parquet => batch_size,
            FileFormat::Arrow => None,
        },
        fields: duplicate_fields(c.fields()),
    }
}

/// The plan for reading the columns `column_indices` of a file, in that
/// order. Fails before any decoding when an index is out of range.
pub fn read_data_with_projection(
    c: &Container,
    column_indices: Vec<usize>,
    batch_size: Option<usize>,
) -> (r: Result<ReadPlan, ParquetViewerError>)
    ensures
        match r {
            Ok(p) => projection_valid(column_indices@, c.spec_fields().len() as usize) && plan_of(
                *c,
                Some(column_indices@),
                batch_size,
                p,
            ),
            Err(e) => !projection_valid(column_indices@, c.spec_fields().len() as usize)
                && projection_error(column_indices@, c.spec_fields().len() as usize, e),
        },
{
    let fields = c.fields();
    match check_projection(&column_indices, fields.len()) {
        Ok(()) => {},
        Err(e) => {
            return Err(e);
        },
    }
    let format = c.format();
    let projected = match format {
        FileFormat::Parquet => mask_fields(fields, &column_indices),
        FileFormat::Arrow => project_fields(fields, &column_indices),
    };
    Ok(
        ReadPlan {
            format,
            projection: Some(column_indices),
            batch_size: match format {
                FileFormat::Parquet => batch_size,
                FileFormat::Arrow => None,
            },
            fields: projected,
        },
    )
}

/// The batch sizes that reading `rows` rows `size` at a time gives: full
/// batches, then the remainder.
pub open spec fn chunk_sizes(rows: nat, size: nat) -> Seq<nat>
    decreases rows,
{
    if size == 0 || rows == 0 {
        Seq::empty()
    } else if rows <= size {
        seq![rows]
    } else {
        seq![size] + chunk_sizes((rows - size) as nat, size)
    }
}

/// The batch sizes of a row-group read of `total_rows` rows at
/// `batch_size` rows per batch.
pub fn chunk_layout(total_rows: usize, batch_size: usize) -> (r: Vec<usize>)
    requires
        batch_size > 0,
    ensures
        r@.map_values(|x: usize| x as nat) == chunk_sizes(total_rows as nat, batch_size as nat),
{
    let mut r: Vec<usize> = Vec::new();
    let mut remaining: usize = total_rows;
    while remaining > 0
        invariant
            batch_size > 0,
            r@.map_values(|x: usize| x as nat) + chunk_sizes(remaining as nat, batch_size as nat)
                == chunk_sizes(total_rows as nat, batch_size as nat),
        decreases remaining,
    {
        let take = if remaining <= batch_size {
            remaining
        } else {
            batch_size
        };
        let ghost before = r@;
        r.push(take);
        assert(r@.map_values(|x: usize| x as nat) =~= before.map_values(|x: usize| x as nat)
            + seq![take as nat]);
        assert(chunk_sizes(remaining as nat, batch_size as nat) =~= seq![take as nat]
            + chunk_sizes((remaining - take) as nat, batch_size as nat));
        remaining = remaining - take;
    }
    assert(r@.map_values(|x: usize| x as nat) + Seq::<nat>::empty() =~= r@.map_values(
        |x: usize| x as nat,
    ));
    r
}

/// A sum of unsigned counts is never negative.
pub proof fn lemma_sum_unsigned_nonneg(s: Seq<usize>)
    ensures
        sum_unsigned(s) >= 0,
    decreases s.len(),
{
    if s.len() > 0 {
        lemma_sum_unsigned_nonneg(s.drop_last());
    }
}

/// Reading `rows` rows at `size` rows per batch gives ceil(rows / size)
/// batches, each of `size` rows but the last, which holds `rows mod size`
/// rows, or `size` when that is zero.
pub proof fn lemma_chunk_sizes(rows: nat, size: nat)
    requires
        size > 0,
    ensures
        chunk_sizes(rows, size).len() == (rows + size - 1) / (size as int),
        forall|i: int|
            0 <= i < chunk_sizes(rows, size).len() - 1 ==> #[trigger] chunk_sizes(rows, size)[i]
                == size,
        rows > 0 ==> chunk_sizes(rows, size).last() == if rows % size == 0 {
            size
        } else {
            rows % size
        },
    decreases rows,
{
    if rows == 0 {
        lemma_basic_div(size - 1, size as int);
    } else if rows <= size {
        lemma_basic_div(rows - 1, size as int);
        lemma_div_plus_one(rows - 1, size as int);
        if rows == size {
            lemma_mod_self_0(size as int);
        } else {
            lemma_small_mod(rows, size);
        }
    } else {
        let rest = (rows - size) as nat;
        lemma_chunk_sizes(rest, size);
        lemma_div_plus_one(rows - 1, size as int);
        lemma_mod_sub_multiples_vanish(rows as int, size as int);
        let s = chunk_sizes(rows, size);
        let t = chunk_sizes(rest, size);
        assert(s == seq![size] + t);
        assert forall|i: int| 0 <= i < s.len() - 1 implies #[trigger] s[i] == size by {
            if i > 0 {
                assert(s[i] == t[i - 1]);
            }
        }
    }
}

/// A file's metadata counts exactly the fields of its schema.
pub proof fn lemma_total_fields_is_schema_length(
    file_size: usize,
    c: Container,
    m: FileMetadata,
    schema: Seq<FieldDescriptor>,
)
    requires
        metadata_of(file_size, c, m),
        schema == c.spec_fields(),
    ensures
        m.total_fields == schema.len(),
{
}

/// A file's reported record count is the sum of its stored row-group counts
/// for row-group files, and the sum of the rows of every scanned batch for
/// interchange files.
pub proof fn lemma_total_records(file_size: usize, c: Container, m: FileMetadata)
    requires
        metadata_of(file_size, c, m),
    ensures
        m.total_records == total_records_of(c),
        c matches Container::Parquet(f) ==> m.total_records == crate::metadata::sum_signed(
            f.row_group_rows@,
        ),
        c matches Container::Arrow(b) ==> m.total_records == sum_unsigned(b.batch_rows@),
{
}

/// Of the first `n` fields, a projection onto column `i` keeps field `i`
/// alone when `i < n`, and nothing otherwise.
proof fn lemma_masked_single(fields: Seq<FieldDescriptor>, i: usize, n: nat)
    requires
        n <= fields.len(),
    ensures
        masked_fields(fields, seq![i], n) == (if i < n {
            seq![fields[i as int]]
        } else {
            Seq::<FieldDescriptor>::empty()
        }),
    decreases n,
{
    if n > 0 {
        lemma_masked_single(fields, i, (n - 1) as nat);
        assert(seq![i][0] == i);
        assert(names(seq![i], n - 1) == (i == n - 1));
        if i == n - 1 {
            assert(Seq::<FieldDescriptor>::empty().push(fields[i as int]) =~= seq![fields[i as int]]);
        }
    }
}

/// Projecting onto the single column `i` yields a one-column schema whose
/// field is the `i`-th field of the full schema, in either format.
pub proof fn lemma_single_column_projection(
    c: Container,
    i: usize,
    batch_size: Option<usize>,
    p: ReadPlan,
)
    requires
        i < c.spec_fields().len(),
        plan_of(c, Some(seq![i]), batch_size, p),
    ensures
        p.fields@.len() == 1,
        p.fields@[0].name == c.spec_fields()[i as int].name,
        p.fields@[0] == c.spec_fields()[i as int],
{
    assert(seq![i][0] == i);
    if c.spec_format() == FileFormat::Parquet {
        lemma_masked_single(c.spec_fields(), i, c.spec_fields().len());
    }
}

} // verus!
