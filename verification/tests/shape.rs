use embedders::{flatten, EmbedError};

#[test]
fn flatten_lays_rows_out_in_order() {
    let rows: Vec<Vec<f32>> = vec![vec![1.0, 2.0, 3.0], vec![4.0, 5.0, 6.0]];
    let result = flatten(2, &rows).expect("two rows of three");
    assert_eq!(result.count(), 2);
    assert_eq!(result.dimension(), 3);
    assert_eq!(result.flat(), &vec![1.0, 2.0, 3.0, 4.0, 5.0, 6.0]);
    assert_eq!(result.flat().len(), result.count() * result.dimension());
}

#[test]
fn flatten_of_one_row_keeps_it() {
    let rows: Vec<Vec<u8>> = vec![vec![9, 8, 7, 6]];
    let result = flatten(1, &rows).expect("one row");
    assert_eq!(result.into_parts(), (vec![9, 8, 7, 6], 1, 4));
}

#[test]
fn flatten_rejects_an_empty_response() {
    let rows: Vec<Vec<f32>> = Vec::new();
    assert_eq!(flatten(3, &rows).err(), Some(EmbedError::EmptyResponse));
    assert_eq!(flatten(0, &rows).err(), Some(EmbedError::EmptyResponse));
}

#[test]
fn flatten_rejects_a_wrong_number_of_rows() {
    let rows: Vec<Vec<f32>> = vec![vec![1.0], vec![2.0]];
    assert_eq!(flatten(3, &rows).err(), Some(EmbedError::CountMismatch));
    assert_eq!(flatten(1, &rows).err(), Some(EmbedError::CountMismatch));
    assert_eq!(flatten(0, &rows).err(), Some(EmbedError::CountMismatch));
}

#[test]
fn flatten_rejects_rows_of_different_length() {
    let short_last: Vec<Vec<f32>> = vec![vec![1.0, 2.0], vec![3.0, 4.0], vec![5.0]];
    assert_eq!(flatten(3, &short_last).err(), Some(EmbedError::RaggedResponse));
    let long_second: Vec<Vec<f32>> = vec![vec![1.0], vec![2.0, 3.0]];
    assert_eq!(flatten(2, &long_second).err(), Some(EmbedError::RaggedResponse));
}

#[test]
fn flatten_checks_the_count_before_the_lengths() {
    let rows: Vec<Vec<f32>> = vec![vec![1.0, 2.0], vec![3.0]];
    assert_eq!(flatten(5, &rows).err(), Some(EmbedError::CountMismatch));
}

#[test]
fn flatten_accepts_rows_of_length_zero() {
    let rows: Vec<Vec<f32>> = vec![Vec::new(), Vec::new()];
    let result = flatten(2, &rows).expect("two empty rows");
    assert_eq!(result.count(), 2);
    assert_eq!(result.dimension(), 0);
    assert!(result.flat().is_empty());
}

#[test]
fn row_gives_each_vector_back() {
    let rows: Vec<Vec<f32>> = vec![vec![0.5, 1.5], vec![2.5, 3.5], vec![4.5, 5.5]];
    let result = flatten(3, &rows).expect("three rows of two");
    for (index, row) in rows.iter().enumerate() {
        assert_eq!(result.row(index), Some(row.as_slice()));
    }
    assert_eq!(result.row(3), None);
    assert_eq!(result.row(usize::MAX), None);
}

#[test]
fn reshaping_the_buffer_recovers_the_rows() {
    let rows: Vec<Vec<i64>> = vec![vec![1, 2, 3, 4], vec![5, 6, 7, 8], vec![9, 10, 11, 12]];
    let (flat, count, dimension) = flatten(3, &rows).expect("three rows of four").into_parts();
    assert_eq!(flat.len(), count * dimension);
    let reshaped: Vec<Vec<i64>> = flat.chunks(dimension).map(|chunk| chunk.to_vec()).collect();
    assert_eq!(reshaped, rows);
}
