use threadline::rows::{row_from_columns, text_rows, ResultSet, TextRow};
use threadline::values::{integer_to_string, value_to_string, SqlValue};

#[test]
fn null_is_shown_as_nothing() {
    assert_eq!(value_to_string(&SqlValue::Null), "");
}

#[test]
fn blob_is_shown_as_nothing() {
    assert_eq!(value_to_string(&SqlValue::Blob(vec![1, 2, 3])), "");
    assert_eq!(value_to_string(&SqlValue::Blob(Vec::new())), "");
}

#[test]
fn integer_is_shown_in_decimal() {
    assert_eq!(value_to_string(&SqlValue::Integer(0)), "0");
    assert_eq!(value_to_string(&SqlValue::Integer(7)), "7");
    assert_eq!(value_to_string(&SqlValue::Integer(1234567890)), "1234567890");
    assert_eq!(value_to_string(&SqlValue::Integer(-42)), "-42");
    assert_eq!(
        value_to_string(&SqlValue::Integer(i64::MAX)),
        "9223372036854775807"
    );
    assert_eq!(
        value_to_string(&SqlValue::Integer(i64::MIN)),
        "-9223372036854775808"
    );
}

#[test]
fn real_and_text_are_shown_as_they_are() {
    assert_eq!(value_to_string(&SqlValue::Real("2.25".to_string())), "2.25");
    assert_eq!(value_to_string(&SqlValue::Text("héllo".to_string())), "héllo");
    assert_eq!(value_to_string(&SqlValue::Text(String::new())), "");
}

#[test]
fn new_row_is_empty() {
    let row = TextRow::new();
    assert_eq!(row.len(), 0);
    assert!(row.get("anything").is_none());
    assert!(row.entries().is_empty());
}

#[test]
fn with_entry_adds_and_replaces() {
    let row = TextRow::new()
        .with_entry("a".to_string(), "1".to_string())
        .with_entry("b".to_string(), "2".to_string());
    assert_eq!(row.len(), 2);
    assert_eq!(row.get("a").unwrap(), "1");
    assert_eq!(row.get("b").unwrap(), "2");
    let row = row.with_entry("a".to_string(), "3".to_string());
    assert_eq!(row.len(), 2);
    assert_eq!(row.get("a").unwrap(), "3");
    assert_eq!(row.get("b").unwrap(), "2");
    assert!(row.get("c").is_none());
    assert_eq!(
        row.entries(),
        &vec![
            ("a".to_string(), "3".to_string()),
            ("b".to_string(), "2".to_string())
        ]
    );
}

#[test]
fn row_from_columns_maps_names_to_texts() {
    let names = vec!["id".to_string(), "name".to_string(), "raw".to_string()];
    let values = vec![
        SqlValue::Integer(5),
        SqlValue::Text("x".to_string()),
        SqlValue::Blob(vec![0]),
    ];
    let row = row_from_columns(&names, &values);
    assert_eq!(row.len(), 3);
    assert_eq!(row.get("id").unwrap(), "5");
    assert_eq!(row.get("name").unwrap(), "x");
    assert_eq!(row.get("raw").unwrap(), "");
}

#[test]
fn row_from_columns_lets_the_later_column_win() {
    let names = vec!["a".to_string(), "b".to_string(), "a".to_string()];
    let values = vec![SqlValue::Integer(1), SqlValue::Integer(2), SqlValue::Null];
    let row = row_from_columns(&names, &values);
    assert_eq!(row.len(), 2);
    assert_eq!(row.get("a").unwrap(), "");
    assert_eq!(row.get("b").unwrap(), "2");
}

#[test]
fn text_rows_renders_each_row_in_order() {
    let results = ResultSet {
        columns: vec!["k".to_string(), "v".to_string()],
        rows: vec![
            vec![SqlValue::Integer(1), SqlValue::Text("one".to_string())],
            vec![SqlValue::Integer(2), SqlValue::Null],
        ],
    };
    let rows = text_rows(&results);
    assert_eq!(rows.len(), 2);
    assert_eq!(rows[0].get("k").unwrap(), "1");
    assert_eq!(rows[0].get("v").unwrap(), "one");
    assert_eq!(rows[1].get("k").unwrap(), "2");
    assert_eq!(rows[1].get("v").unwrap(), "");
}

#[test]
fn text_rows_of_nothing_is_nothing() {
    let results = ResultSet {
        columns: vec!["k".to_string()],
        rows: Vec::new(),
    };
    assert!(text_rows(&results).is_empty());
}

#[test]
fn row_with_fewer_values_than_columns_shows_nothing_for_the_rest() {
    let names = vec!["a".to_string(), "b".to_string()];
    let values = vec![SqlValue::Integer(1)];
    let row = row_from_columns(&names, &values);
    assert_eq!(row.len(), 2);
    assert_eq!(row.get("a").unwrap(), "1");
    assert_eq!(row.get("b").unwrap(), "");
}

#[test]
fn row_with_more_values_than_columns_shows_only_the_columns() {
    let names = vec!["a".to_string()];
    let values = vec![SqlValue::Integer(1), SqlValue::Integer(2)];
    let row = row_from_columns(&names, &values);
    assert_eq!(row.len(), 1);
    assert_eq!(row.get("a").unwrap(), "1");
}

#[test]
fn integer_text_is_the_decimal_text() {
    assert_eq!(integer_to_string(0), "0");
    assert_eq!(integer_to_string(9), "9");
    assert_eq!(integer_to_string(10), "10");
    assert_eq!(integer_to_string(-1), "-1");
    assert_eq!(integer_to_string(-10), "-10");
    assert_eq!(integer_to_string(1_000_000_007), "1000000007");
    assert_eq!(integer_to_string(i64::MAX), "9223372036854775807");
    assert_eq!(integer_to_string(i64::MIN), "-9223372036854775808");
    for i in -1234..1234 {
        assert_eq!(integer_to_string(i), i.to_string());
    }
}
