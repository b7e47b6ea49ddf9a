use vstd::prelude::*;

use crate::metadata::FileMetadata;
use crate::model::FieldDescriptor;
use crate::text::{has_nul, same_text};

verus! {

/// A schema field as it crosses the C boundary; a text that holds NUL
/// crosses as an absent (null) string.
#[derive(Debug)]
pub struct BoundaryField {
    pub name: Option<String>,
    pub data_type: Option<String>,
    pub nullable: bool,
}

/// A key-value pair as it crosses the C boundary.
#[derive(Debug)]
pub struct BoundaryKeyValue {
    pub key: Option<String>,
    pub value: Option<String>,
}

/// File metadata as it crosses the C boundary.
#[derive(Debug)]
pub struct BoundaryMetadata {
    pub file_size: usize,
    pub total_records: i64,
    pub total_fields: usize,
    pub total_row_groups: usize,
    pub version: i32,
    pub created_by: Option<String>,
    /// Empty when the file has no key-value metadata.
    pub key_value_metadata: Vec<BoundaryKeyValue>,
}

/// One row batch as it crosses the C boundary: its rows as JSON text.
#[derive(Debug)]
pub struct BoundaryBatch {
    pub json: String,
    pub num_rows: usize,
    pub num_columns: usize,
}

/// One cell of a row batch, classified from its printed form.
#[derive(Debug, PartialEq, Eq)]
pub enum CellValue {
    Null,
    Integer(i64),
    Boolean(bool),
    /// Any other text: a decimal number or a plain string.
    Other(String),
}

/// A text as it crosses the boundary: absent when it holds NUL.
pub open spec fn boundary_text_of(s: Seq<char>) -> Option<Seq<char>> {
    if s.contains('\0') {
        None
    } else {
        Some(s)
    }
}

pub open spec fn option_text(t: Option<String>) -> Option<Seq<char>> {
    match t {
        Some(s) => Some(s@),
        None => None,
    }
}

pub open spec fn boundary_option_of(t: Option<String>) -> Option<Seq<char>> {
    match t {
        Some(s) => boundary_text_of(s@),
        None => None,
    }
}

/// `b` is field `f` as it crosses the boundary.
pub open spec fn marshals_field(f: FieldDescriptor, b: BoundaryField) -> bool {
    &&& option_text(b.name) == boundary_text_of(f.name@)
    &&& option_text(b.data_type) == boundary_text_of(f.data_type@)
    &&& b.nullable == f.nullable
}

/// `b` is metadata `m` as it crosses the boundary.
pub open spec fn marshals_metadata(m: FileMetadata, b: BoundaryMetadata) -> bool {
    &&& b.file_size == m.file_size
    &&& b.total_records == m.total_records
    &&& b.total_fields == m.total_fields
    &&& b.total_row_groups == m.total_row_groups
    &&& b.version == m.version
    &&& option_text(b.created_by) == boundary_option_of(m.created_by)
    &&& match m.key_value_metadata {
        None => b.key_value_metadata@.len() == 0,
        Some(kv) => b.key_value_metadata@.len() == kv@.len() && forall|i: int|
            0 <= i < kv@.len() ==> option_text((#[trigger] b.key_value_metadata@[i]).key)
                == boundary_text_of(kv@[i].0@) && option_text(b.key_value_metadata@[i].value)
                == boundary_text_of(kv@[i].1@),
    }
}

pub open spec fn is_digit(c: char) -> bool {
    '0' <= c <= '9'
}

/// The value of a non-empty run of decimal digits.
pub open spec fn digits_value(s: Seq<char>) -> int
    decreases s.len(),
{
    if s.len() == 0 {
        0
    } else {
        digits_value(s.drop_last()) * 10 + (s.last() as u32 - '0' as u32)
    }
}

/// The integer that `s` writes: an optional sign, then one or more decimal
/// digits and nothing else.
pub open spec fn decimal_integer(s: Seq<char>) -> Option<int> {
    let signed = s.len() > 0 && (s[0] == '-' || s[0] == '+');
    let body = if signed {
        s.drop_first()
    } else {
        s
    };
    if body.len() > 0 && forall|i: int| 0 <= i < body.len() ==> #[trigger] is_digit(body[i]) {
        Some(
            if signed && s[0] == '-' {
                -digits_value(body)
            } else {
                digits_value(body)
            },
        )
    } else {
        None
    }
}

/// The `i64` that `s` writes, if it writes one in range.
pub open spec fn parsed_i64(s: Seq<char>) -> Option<i64> {
    match decimal_integer(s) {
        Some(v) => if i64::MIN <= v <= i64::MAX {
            Some(v as i64)
        } else {
            None
        },
        None => None,
    }
}

/// `v` is how the printed cell `s` is classified: null, integer, boolean,
/// or other text kept as it is.
pub open spec fn classifies(s: Seq<char>, v: CellValue) -> bool {
    if s == "null"@ {
        v == CellValue::Null
    } else if parsed_i64(s) is Some {
        v == CellValue::Integer(parsed_i64(s)->0)
    } else if s == "true"@ {
        v == CellValue::Boolean(true)
    } else if s == "false"@ {
        v == CellValue::Boolean(false)
    } else {
        v matches CellValue::Other(t) && t@ == s
    }
}

/// Relies on `str::parse::<i64>`: it accepts an optional `+` or `-` followed
/// by decimal digits only, whose value lies in range.
#[verifier::external_body]
fn parse_i64(s: &str) -> (r: Option<i64>)
    ensures
        r == parsed_i64(s@),
{
    s.parse::<i64>().ok()
}

/// A text as it crosses the boundary: absent when it holds NUL.
pub fn boundary_text(s: &String) -> (r: Option<String>)
    ensures
        option_text(r) == boundary_text_of(s@),
{
    if has_nul(s.as_str()) {
        None
    } else {
        Some(s.clone())
    }
}

fn boundary_option(t: &Option<String>) -> (r: Option<String>)
    ensures
        option_text(r) == boundary_option_of(*t),
{
    match t {
        Some(s) => boundary_text(s),
        None => None,
    }
}

/// A schema as it crosses the boundary, field by field; one bad text does
/// not fail the rest.
pub fn marshal_schema(fields: &Vec<FieldDescriptor>) -> (r: Vec<BoundaryField>)
    ensures
        r@.len() == fields@.len(),
        forall|i: int| 0 <= i < fields@.len() ==> marshals_field(fields@[i], #[trigger] r@[i]),
{
    let mut r: Vec<BoundaryField> = Vec::new();
    let mut i: usize = 0;
    while i < fields.len()
        invariant
            i <= fields@.len(),
            r@.len() == i,
            forall|j: int| 0 <= j < i ==> marshals_field(fields@[j], #[trigger] r@[j]),
        decreases fields@.len() - i,
    {
        let f = &fields[i];
        r.push(
            BoundaryField {
                name: boundary_text(&f.name),
                data_type: boundary_text(&f.data_type),
                nullable: f.nullable,
            },
        );
        i = i + 1;
    }
    r
}

/// File metadata as it crosses the boundary; numbers are copied, texts
/// holding NUL become absent.
pub fn marshal_metadata(m: &FileMetadata) -> (r: BoundaryMetadata)
    ensures
        marshals_metadata(*m, r),
{
    let mut pairs: Vec<BoundaryKeyValue> = Vec::new();
    match &m.key_value_metadata {
        Some(kv) => {
            let mut i: usize = 0;
            while i < kv.len()
                invariant
                    i <= kv@.len(),
                    pairs@.len() == i,
                    forall|j: int|
                        0 <= j < i ==> option_text((#[trigger] pairs@[j]).key) == boundary_text_of(
                            kv@[j].0@,
                        ) && option_text(pairs@[j].value) == boundary_text_of(kv@[j].1@),
                decreases kv@.len() - i,
            {
                pairs.push(
                    BoundaryKeyValue {
                        key: boundary_text(&kv[i].0),
                        value: boundary_text(&kv[i].1),
                    },
                );
                i = i + 1;
            }
        },
        None => {},
    }
    BoundaryMetadata {
        file_size: m.file_size,
        total_records: m.total_records,
        total_fields: m.total_fields,
        total_row_groups: m.total_row_groups,
        version: m.version,
        created_by: boundary_option(&m.created_by),
        key_value_metadata: pairs,
    }
}

/// One batch as it crosses the boundary; JSON text holding NUL is replaced
/// by an empty object.
pub fn marshal_batch(json: &String, num_rows: usize, num_columns: usize) -> (r: BoundaryBatch)
    ensures
        r.json@ == (if json@.contains('\0') {
            "{}"@
        } else {
            json@
        }),
        r.num_rows == num_rows,
        r.num_columns == num_columns,
{
    let text = if has_nul(json.as_str()) {
        proof {
            reveal_strlit("{}");
        }
        "{}".to_owned()
    } else {
        json.clone()
    };
    BoundaryBatch { json: text, num_rows, num_columns }
}

/// The batch size that a boundary caller asks for: zero means unspecified.
pub fn batch_size_from_boundary(batch_size: usize) -> (r: Option<usize>)
    ensures
        r == (if batch_size == 0 {
            None
        } else {
            Some(batch_size)
        }),
{
    if batch_size == 0 {
        None
    } else {
        Some(batch_size)
    }
}

/// Classifies the printed form of a cell for the JSON rows of a batch.
pub fn classify_cell(text: &str) -> (r: CellValue)
    ensures
        classifies(text@, r),
{
    proof {
        reveal_strlit("null");
        reveal_strlit("true");
        reveal_strlit("false");
    }
    if same_text(text, "null") {
        return CellValue::Null;
    }
    match parse_i64(text) {
        Some(n) => {
            return CellValue::Integer(n);
        },
        None => {},
    }
    if same_text(text, "true") {
        CellValue::Boolean(true)
    } else if same_text(text, "false") {
        CellValue::Boolean(false)
    } else {
        CellValue::Other(text.to_owned())
    }
}

/// The cells of a batch, row by row, each paired with its column's name
/// and classified.
pub fn classify_rows(names: &Vec<String>, rows: &Vec<Vec<String>>) -> (r: Vec<
    Vec<(String, CellValue)>,
>)
    requires
        forall|i: int| 0 <= i < rows@.len() ==> (#[trigger] rows@[i])@.len() == names@.len(),
    ensures
        r@.len() == rows@.len(),
        forall|i: int|
            0 <= i < rows@.len() ==> (#[trigger] r@[i])@.len() == names@.len() && forall|j: int|
                0 <= j < names@.len() ==> (#[trigger] r@[i]@[j]).0 == names@[j] && classifies(
                    rows@[i]@[j]@,
                    r@[i]@[j].1,
                ),
{
    let mut r: Vec<Vec<(String, CellValue)>> = Vec::new();
    let mut i: usize = 0;
    while i < rows.len()
        invariant
            i <= rows@.len(),
            forall|k: int| 0 <= k < rows@.len() ==> (#[trigger] rows@[k])@.len() == names@.len(),
            r@.len() == i,
            forall|k: int|
                0 <= k < i ==> (#[trigger] r@[k])@.len() == names@.len() && forall|j: int|
                    0 <= j < names@.len() ==> (#[trigger] r@[k]@[j]).0 == names@[j] && classifies(
                        rows@[k]@[j]@,
                        r@[k]@[j].1,
                    ),
        decreases rows@.len() - i,
    {
        let row = &rows[i];
        let mut cells: Vec<(String, CellValue)> = Vec::new();
        let mut j: usize = 0;
        while j < names.len()
            invariant
                j <= names@.len(),
                row@.len() == names@.len(),
                cells@.len() == j,
                forall|m: int|
                    0 <= m < j ==> (#[trigger] cells@[m]).0 == names@[m] && classifies(
                        row@[m]@,
                        cells@[m].1,
                    ),
            decreases names@.len() - j,
        {
            cells.push((names[j].clone(), classify_cell(row[j].as_str())));
            j = j + 1;
        }
        r.push(cells);
        i = i + 1;
    }
    r
}

} // verus!
