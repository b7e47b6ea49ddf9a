use parquet_viewer::{
    check_projection, chunk_layout, mask_fields, project_fields, read_data, read_data_with_projection, select,
    BatchFile, Container, FieldDescriptor, FileFormat, ParquetViewerError, RowGroupFooter,
};

fn field(name: &str, data_type: &str) -> FieldDescriptor {
    FieldDescriptor { name: name.to_string(), data_type: data_type.to_string(), nullable: false }
}

fn parquet_file() -> Container {
    Container::Parquet(RowGroupFooter {
        fields: vec![field("id", "Int32"), field("name", "Utf8")],
        row_group_rows: vec![5],
        version: 1,
        created_by: None,
        key_value_metadata: None,
    })
}

fn arrow_file() -> Container {
    Container::Arrow(BatchFile {
        fields: vec![field("id", "Int32"), field("name", "Utf8")],
        batch_rows: vec![5],
        metadata: vec![],
    })
}

#[test]
fn test_read_data() {
    let plan = read_data(&parquet_file(), None);
    assert_eq!(plan.format, FileFormat::Parquet);
    assert_eq!(plan.projection, None);
    assert_eq!(plan.batch_size, None);
    assert_eq!(plan.fields.len(), 2);
}

#[test]
fn test_read_arrow_data() {
    let plan = read_data(&arrow_file(), None);
    assert_eq!(plan.format, FileFormat::Arrow);
    assert_eq!(plan.projection, None);
    assert_eq!(plan.fields.len(), 2);
}

#[test]
fn test_read_data_with_projection() {
    let plan = read_data_with_projection(&parquet_file(), vec![1], None).unwrap();
    assert_eq!(plan.projection, Some(vec![1]));
    assert_eq!(plan.fields.len(), 1);
    assert_eq!(plan.fields[0].name, "name");
}

#[test]
fn test_read_arrow_data_with_projection() {
    let plan = read_data_with_projection(&arrow_file(), vec![1], None).unwrap();
    assert_eq!(plan.fields.len(), 1);
    assert_eq!(plan.fields[0].name, "name");
}

#[test]
fn batch_size_is_honoured_for_row_groups_only() {
    assert_eq!(read_data(&parquet_file(), Some(2)).batch_size, Some(2));
    assert_eq!(read_data(&arrow_file(), Some(2)).batch_size, None);
    let p = read_data_with_projection(&parquet_file(), vec![0], Some(3)).unwrap();
    assert_eq!(p.batch_size, Some(3));
    let a = read_data_with_projection(&arrow_file(), vec![0], Some(3)).unwrap();
    assert_eq!(a.batch_size, None);
}

#[test]
fn projection_out_of_range_fails_for_both_formats() {
    for c in [parquet_file(), arrow_file()] {
        let r = read_data_with_projection(&c, vec![5], None);
        assert_eq!(
            r.err(),
            Some(ParquetViewerError::InvalidProjection { index: 5, num_columns: 2 })
        );
    }
}

#[test]
fn projection_error_names_first_bad_index() {
    let indices = vec![0, 2, 1, 9];
    assert_eq!(
        check_projection(&indices, 2),
        Err(ParquetViewerError::InvalidProjection { index: 2, num_columns: 2 })
    );
    assert_eq!(check_projection(&vec![1, 0, 1], 2), Ok(()));
    assert_eq!(check_projection(&vec![], 0), Ok(()));
    assert_eq!(
        check_projection(&vec![0], 0),
        Err(ParquetViewerError::InvalidProjection { index: 0, num_columns: 0 })
    );
}

#[test]
fn projection_keeps_order_and_repeats() {
    let fields = vec![field("a", "Int64"), field("b", "Utf8"), field("c", "Boolean")];
    let p = project_fields(&fields, &vec![2, 0, 2]);
    let names: Vec<&str> = p.iter().map(|f| f.name.as_str()).collect();
    assert_eq!(names, vec!["c", "a", "c"]);
    assert_eq!(p[0].data_type, "Boolean");
}

#[test]
fn single_column_projection_matches_full_schema() {
    for i in 0..2 {
        let plan = read_data_with_projection(&arrow_file(), vec![i], None).unwrap();
        assert_eq!(plan.fields.len(), 1);
        assert_eq!(plan.fields[0].name, parquet_viewer::read_schema(&arrow_file())[i].name);
    }
}

#[test]
fn select_picks_columns_by_index() {
    let columns = vec![10u32, 20, 30, 40];
    assert_eq!(select(&columns, &vec![3, 1]), vec![40, 20]);
    assert_eq!(select(&columns, &vec![]), Vec::<u32>::new());
}

#[test]
fn five_rows_two_at_a_time() {
    assert_eq!(chunk_layout(5, 2), vec![2, 2, 1]);
}

#[test]
fn chunking_exact_multiple_and_edges() {
    assert_eq!(chunk_layout(4, 2), vec![2, 2]);
    assert_eq!(chunk_layout(0, 3), Vec::<usize>::new());
    assert_eq!(chunk_layout(3, 10), vec![3]);
    assert_eq!(chunk_layout(1, 1), vec![1]);
}

#[test]
fn chunk_count_is_ceiling_of_rows_over_size() {
    for rows in 0..40usize {
        for size in 1..9usize {
            let c = chunk_layout(rows, size);
            assert_eq!(c.len(), (rows + size - 1) / size);
            if rows > 0 {
                let last = if rows % size == 0 { size } else { rows % size };
                assert_eq!(*c.last().unwrap(), last);
                assert!(c[..c.len() - 1].iter().all(|&b| b == size));
            }
        }
    }
}

#[test]
fn row_group_projection_is_a_column_set_in_schema_order() {
    let plan = read_data_with_projection(&parquet_file(), vec![1, 0, 1], None).unwrap();
    let names: Vec<&str> = plan.fields.iter().map(|f| f.name.as_str()).collect();
    assert_eq!(names, vec!["id", "name"]);
    assert_eq!(plan.projection, Some(vec![1, 0, 1]));
}

#[test]
fn interchange_projection_slices_in_index_order() {
    let plan = read_data_with_projection(&arrow_file(), vec![1, 0, 1], None).unwrap();
    let names: Vec<&str> = plan.fields.iter().map(|f| f.name.as_str()).collect();
    assert_eq!(names, vec!["name", "id", "name"]);
}

#[test]
fn mask_keeps_named_columns_once() {
    let fields = vec![field("a", "Int64"), field("b", "Utf8"), field("c", "Boolean")];
    let names: Vec<String> = mask_fields(&fields, &vec![2, 0, 2, 7]).into_iter().map(|f| f.name).collect();
    assert_eq!(names, vec!["a".to_string(), "c".to_string()]);
    assert!(mask_fields(&fields, &vec![]).is_empty());
}
