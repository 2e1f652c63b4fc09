use std::sync::Arc;

use psql_srv::oid;
use psql_srv::pgtype::Type;
use psql_srv::row::{Row, Value};

// The values that the rows of these tests hold. A decimal is its digits and
// its scale.
#[derive(Debug, Clone, PartialEq)]
enum DfValue {
    Int(i64),
    Text(String),
    Double(f64),
    Float(f32),
    Numeric(i64, u32),
}

fn collect_row_values(row: Row<DfValue>) -> Vec<Value<DfValue>> {
    let mut iter = row.into_iter();
    let mut values = Vec::new();
    while let Some(v) = iter.next() {
        values.push(v);
    }
    values
}

fn typed(oid: u32, value: DfValue) -> Value<DfValue> {
    Value {
        col_type: Type::simple(oid),
        value,
    }
}

#[test]
fn iterate_empty_row() {
    let row = Row {
        values: vec![],
        project_fields: Arc::new(vec![]),
        project_field_types: Arc::new(vec![]),
    };
    assert_eq!(collect_row_values(row), Vec::<Value<DfValue>>::new());
}

#[test]
fn iterate_singleton_row() {
    let row = Row {
        values: vec![DfValue::Int(43)],
        project_fields: Arc::new(vec![0]),
        project_field_types: Arc::new(vec![Type::simple(oid::INT4)]),
    };
    assert_eq!(collect_row_values(row), vec![typed(oid::INT4, DfValue::Int(43))]);
}

#[test]
fn iterate_row() {
    let row = Row {
        values: vec![
            DfValue::Int(43),
            DfValue::Text("abcde".into()),
            DfValue::Double(10.000000222),
            DfValue::Float(8.99),
            DfValue::Numeric(35901234, 4), // 3590.1234
        ],
        project_fields: Arc::new(vec![0, 1, 2, 3, 4]),
        project_field_types: Arc::new(vec![
            Type::simple(oid::INT4),
            Type::simple(oid::TEXT),
            Type::simple(oid::FLOAT8),
            Type::simple(oid::FLOAT4),
            Type::simple(oid::NUMERIC),
        ]),
    };
    assert_eq!(
        collect_row_values(row),
        vec![
            typed(oid::INT4, DfValue::Int(43)),
            typed(oid::TEXT, DfValue::Text("abcde".into())),
            typed(oid::FLOAT8, DfValue::Double(10.000000222)),
            typed(oid::FLOAT4, DfValue::Float(8.99)),
            typed(oid::NUMERIC, DfValue::Numeric(35901234, 4)),
        ]
    );
}

#[test]
fn iterate_row_with_trailing_unprojected_fields() {
    let row = Row {
        values: vec![
            DfValue::Int(43),
            DfValue::Text("abcde".into()),
            DfValue::Double(10.000000222),
            DfValue::Float(8.99),
            DfValue::Numeric(35901234, 4), // 3590.1234
            DfValue::Int(0),
        ],
        // Only the first five fields are specified for projection.
        project_fields: Arc::new(vec![0, 1, 2, 3, 4]),
        project_field_types: Arc::new(vec![
            Type::simple(oid::INT4),
            Type::simple(oid::TEXT),
            Type::simple(oid::FLOAT8),
            Type::simple(oid::FLOAT4),
            Type::simple(oid::NUMERIC),
        ]),
    };
    assert_eq!(
        collect_row_values(row),
        vec![
            typed(oid::INT4, DfValue::Int(43)),
            typed(oid::TEXT, DfValue::Text("abcde".into())),
            typed(oid::FLOAT8, DfValue::Double(10.000000222)),
            typed(oid::FLOAT4, DfValue::Float(8.99)),
            typed(oid::NUMERIC, DfValue::Numeric(35901234, 4)),
        ]
    );
}

#[test]
fn iterate_row_with_interleaved_unprojected_fields() {
    let row = Row {
        values: vec![
            DfValue::Int(0),
            DfValue::Int(43),
            DfValue::Text("abcde".into()),
            DfValue::Int(0),
            DfValue::Int(0),
            DfValue::Double(10.000000222),
            DfValue::Float(8.99),
            DfValue::Numeric(35901234, 4), // 3590.1234
            DfValue::Int(0),
        ],
        // Only some of the fields are specified for projection.
        project_fields: Arc::new(vec![1, 2, 5, 6, 7]),
        project_field_types: Arc::new(vec![
            Type::simple(oid::INT4),
            Type::simple(oid::TEXT),
            Type::simple(oid::FLOAT8),
            Type::simple(oid::FLOAT4),
            Type::simple(oid::NUMERIC),
        ]),
    };
    assert_eq!(
        collect_row_values(row),
        vec![
            typed(oid::INT4, DfValue::Int(43)),
            typed(oid::TEXT, DfValue::Text("abcde".into())),
            typed(oid::FLOAT8, DfValue::Double(10.000000222)),
            typed(oid::FLOAT4, DfValue::Float(8.99)),
            typed(oid::NUMERIC, DfValue::Numeric(35901234, 4)),
        ]
    );
}

#[test]
fn iteration_stops_at_the_first_index_outside_the_values() {
    let row = Row {
        values: vec![DfValue::Int(1), DfValue::Int(2)],
        project_fields: Arc::new(vec![1, 7, 0]),
        project_field_types: Arc::new(vec![
            Type::simple(oid::INT4),
            Type::simple(oid::INT4),
            Type::simple(oid::INT4),
        ]),
    };
    let mut iter = row.into_iter();
    assert_eq!(iter.next(), Some(typed(oid::INT4, DfValue::Int(2))));
    assert_eq!(iter.next(), None);
    // Once the end is reached, it stays reached.
    assert_eq!(iter.next(), None);
}

#[test]
fn iteration_stops_where_types_or_indices_run_out() {
    let fewer_types = Row {
        values: vec![DfValue::Int(1), DfValue::Int(2)],
        project_fields: Arc::new(vec![0, 1]),
        project_field_types: Arc::new(vec![Type::simple(oid::INT8)]),
    };
    assert_eq!(
        collect_row_values(fewer_types),
        vec![typed(oid::INT8, DfValue::Int(1))]
    );
    let fewer_indices = Row {
        values: vec![DfValue::Int(1), DfValue::Int(2)],
        project_fields: Arc::new(vec![1]),
        project_field_types: Arc::new(vec![Type::simple(oid::INT8), Type::simple(oid::INT8)]),
    };
    assert_eq!(
        collect_row_values(fewer_indices),
        vec![typed(oid::INT8, DfValue::Int(2))]
    );
}

#[test]
fn a_field_may_be_taken_twice() {
    let row = Row {
        values: vec![DfValue::Text("a".into()), DfValue::Text("b".into())],
        project_fields: Arc::new(vec![1, 1, 0]),
        project_field_types: Arc::new(vec![
            Type::simple(oid::TEXT),
            Type::simple(oid::VARCHAR),
            Type::simple(oid::TEXT),
        ]),
    };
    assert_eq!(
        row.into_iter().collect(),
        vec![
            typed(oid::TEXT, DfValue::Text("b".into())),
            typed(oid::VARCHAR, DfValue::Text("b".into())),
            typed(oid::TEXT, DfValue::Text("a".into())),
        ]
    );
}

#[test]
fn collect_takes_what_is_left() {
    let row = Row {
        values: vec![DfValue::Int(10), DfValue::Int(20), DfValue::Int(30)],
        project_fields: Arc::new(vec![2, 1, 0]),
        project_field_types: Arc::new(vec![
            Type::simple(oid::INT4),
            Type::simple(oid::INT4),
            Type::simple(oid::INT4),
        ]),
    };
    let mut iter = row.into_iter();
    assert_eq!(iter.next(), Some(typed(oid::INT4, DfValue::Int(30))));
    assert_eq!(
        iter.collect(),
        vec![
            typed(oid::INT4, DfValue::Int(20)),
            typed(oid::INT4, DfValue::Int(10)),
        ]
    );
}
