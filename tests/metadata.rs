use parquet_viewer::{
    batch_file_metadata, read_metadata, read_schema, row_group_metadata, BatchFile, Container,
    FieldDescriptor, ParquetViewerError, RowGroupFooter,
};

fn field(name: &str, data_type: &str, nullable: bool) -> FieldDescriptor {
    FieldDescriptor { name: name.to_string(), data_type: data_type.to_string(), nullable }
}

fn two_fields() -> Vec<FieldDescriptor> {
    vec![field("id", "Int32", false), field("name", "Utf8", false)]
}

fn footer(rows: Vec<i64>) -> RowGroupFooter {
    RowGroupFooter {
        fields: two_fields(),
        row_group_rows: rows,
        version: 1,
        created_by: Some("parquet-rs version 60.0.0".to_string()),
        key_value_metadata: None,
    }
}

fn batch_file(rows: Vec<usize>, metadata: Vec<(String, String)>) -> BatchFile {
    BatchFile { fields: two_fields(), batch_rows: rows, metadata }
}

#[test]
fn test_read_schema() {
    let c = Container::Parquet(footer(vec![5]));
    let schema = read_schema(&c);
    assert_eq!(schema.len(), 2);
    assert_eq!(schema[0].name, "id");
    assert_eq!(schema[1].name, "name");
    assert_eq!(schema[0].data_type, "Int32");
    assert_eq!(schema[1].data_type, "Utf8");
}

#[test]
fn test_read_arrow_schema() {
    let c = Container::Arrow(batch_file(vec![5], vec![]));
    let schema = read_schema(&c);
    assert_eq!(schema.len(), 2);
    assert_eq!(schema[0].name, "id");
    assert_eq!(schema[1].name, "name");
    assert_eq!(schema[0].data_type, "Int32");
    assert_eq!(schema[1].data_type, "Utf8");
}

#[test]
fn test_read_metadata() {
    let c = Container::Parquet(footer(vec![5]));
    let metadata = read_metadata(1024, &c).unwrap();
    assert_eq!(metadata.total_records, 5);
    assert_eq!(metadata.total_fields, 2);
    assert_eq!(metadata.total_row_groups, 1);
    assert!(metadata.file_size > 0);
}

#[test]
fn test_read_arrow_metadata() {
    let c = Container::Arrow(batch_file(vec![5], vec![]));
    let metadata = read_metadata(1024, &c).unwrap();
    assert_eq!(metadata.total_records, 5);
    assert_eq!(metadata.total_fields, 2);
    assert!(metadata.file_size > 0);
    assert_eq!(metadata.created_by, Some("Arrow IPC".to_string()));
}

#[test]
fn row_group_metadata_copies_footer() {
    let m = row_group_metadata(777, &footer(vec![3, 4, 0])).unwrap();
    assert_eq!(m.file_size, 777);
    assert_eq!(m.total_records, 7);
    assert_eq!(m.total_fields, 2);
    assert_eq!(m.total_row_groups, 3);
    assert_eq!(m.version, 1);
    assert_eq!(m.created_by, Some("parquet-rs version 60.0.0".to_string()));
    assert_eq!(m.key_value_metadata, None);
}

#[test]
fn row_group_key_value_missing_value_becomes_empty() {
    let mut f = footer(vec![1]);
    f.key_value_metadata = Some(vec![
        ("ARROW:schema".to_string(), Some("abc".to_string())),
        ("note".to_string(), None),
    ]);
    let m = row_group_metadata(10, &f).unwrap();
    assert_eq!(
        m.key_value_metadata,
        Some(vec![
            ("ARROW:schema".to_string(), "abc".to_string()),
            ("note".to_string(), String::new()),
        ])
    );
}

#[test]
fn row_group_metadata_with_no_row_groups() {
    let m = row_group_metadata(12, &footer(vec![])).unwrap();
    assert_eq!(m.total_records, 0);
    assert_eq!(m.total_row_groups, 0);
}

#[test]
fn row_group_counts_that_overflow_are_a_container_error() {
    let r = row_group_metadata(10, &footer(vec![i64::MAX, 1]));
    assert!(matches!(r, Err(ParquetViewerError::Parquet(_))));
    let r = row_group_metadata(10, &footer(vec![i64::MIN, -1]));
    assert!(matches!(r, Err(ParquetViewerError::Parquet(_))));
}

#[test]
fn row_group_partial_sums_may_leave_range() {
    let m = row_group_metadata(10, &footer(vec![i64::MAX, 1, -2])).unwrap();
    assert_eq!(m.total_records, i64::MAX - 1);
}

#[test]
fn batch_metadata_counts_batches_and_rows() {
    let m = batch_file_metadata(2048, &batch_file(vec![2, 2, 1], vec![])).unwrap();
    assert_eq!(m.file_size, 2048);
    assert_eq!(m.total_records, 5);
    assert_eq!(m.total_fields, 2);
    assert_eq!(m.total_row_groups, 3);
    assert_eq!(m.version, 0);
    assert_eq!(m.created_by, Some("Arrow IPC".to_string()));
    assert_eq!(m.key_value_metadata, None);
}

#[test]
fn batch_metadata_keeps_nonempty_schema_metadata() {
    let kv = vec![("origin".to_string(), "sensor".to_string())];
    let m = batch_file_metadata(9, &batch_file(vec![], kv.clone())).unwrap();
    assert_eq!(m.key_value_metadata, Some(kv));
    assert_eq!(m.total_records, 0);
    assert_eq!(m.total_row_groups, 0);
}

#[test]
fn batch_counts_that_overflow_are_a_container_error() {
    let r = batch_file_metadata(9, &batch_file(vec![usize::MAX, usize::MAX], vec![]));
    assert!(matches!(r, Err(ParquetViewerError::Arrow(_))));
}

#[test]
fn five_rows_in_two_formats() {
    let parquet = read_metadata(100, &Container::Parquet(footer(vec![5]))).unwrap();
    assert_eq!((parquet.total_records, parquet.total_fields, parquet.total_row_groups), (5, 2, 1));
    let arrow = read_metadata(100, &Container::Arrow(batch_file(vec![2, 2, 1], vec![]))).unwrap();
    assert_eq!((arrow.total_records, arrow.total_fields, arrow.total_row_groups), (5, 2, 3));
}

#[test]
fn total_fields_equals_schema_length() {
    for c in [
        Container::Parquet(footer(vec![1, 2])),
        Container::Arrow(batch_file(vec![4], vec![])),
    ] {
        let m = read_metadata(1, &c).unwrap();
        assert_eq!(m.total_fields, read_schema(&c).len());
    }
}
