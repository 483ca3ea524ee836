//! Tests of the SQL synthesis and of the value-model conversions.

use data_access::datasource::sqlite::convert_condition;
use data_access::datasource::sqlite::insert_sql;
use data_access::datasource::sqlite::native_round_trip;
use data_access::datasource::sqlite::update_sql;
use data_access::datasource::FieldCondition;
use data_access::datasource::Row;
use data_access::datasource::Value;
use data_access::errors::Error;

#[test]
fn test_native_round_trip_keeps_every_variant() {
    let values = vec![
        Value::Binary(vec![0u8, 7u8, 255u8]),
        Value::Float(1.5f64.to_bits()),
        Value::Float((-0.0f64).to_bits()),
        Value::Float(f64::NAN.to_bits()),
        Value::Float(f64::INFINITY.to_bits()),
        Value::Integer(i64::MIN),
        Value::Integer(42),
        Value::String("".to_string()),
        Value::String("Goods_01".to_string()),
        Value::Null,
    ];
    for v in values {
        assert_eq!(v, native_round_trip(&v));
    }
}

#[test]
fn test_convert_condition_fragments() {
    let one = Value::Integer(1);
    let cases = vec![
        (
            FieldCondition::Equal("F".to_string(), one.clone()),
            "F = ?",
            1,
        ),
        (
            FieldCondition::NotEqual("F".to_string(), one.clone()),
            "F != ?",
            1,
        ),
        (
            FieldCondition::GreaterThan("F".to_string(), one.clone()),
            "F > ?",
            1,
        ),
        (
            FieldCondition::LessThan("F".to_string(), one.clone()),
            "F < ?",
            1,
        ),
        (FieldCondition::IsNotNull("F".to_string()), "F IS NOT NULL", 0),
        (FieldCondition::IsNull("F".to_string()), "F IS NULL", 0),
    ];
    for (cond, text, count) in cases {
        let (fragment, vals) = convert_condition(&cond);
        assert_eq!(text, fragment);
        assert_eq!(count, vals.len());
    }
}

#[test]
fn test_convert_condition_between_orders_low_then_high() {
    let (fragment, vals) = convert_condition(&FieldCondition::Between(
        "F_COUNT".to_string(),
        Value::Integer(2000),
        Value::Integer(3000),
    ));
    assert_eq!("F_COUNT BETWEEN ? AND ?", fragment);
    assert_eq!(
        vec![Value::Integer(2000), Value::Integer(3000)],
        vals
    );
}

#[test]
fn test_insert_sql_text_and_order() {
    let (sql, vals) = insert_sql(
        "t_test_01",
        &[
            ("ID".to_string(), Value::Integer(5)),
            ("F_NAME".to_string(), Value::String("Goods_05".to_string())),
            ("F_COUNT".to_string(), Value::Integer(1000)),
        ],
    );
    assert_eq!(
        "INSERT INTO t_test_01 (ID,F_NAME,F_COUNT) VALUES (?,?,?)",
        sql
    );
    assert_eq!(
        vec![
            Value::Integer(5),
            Value::String("Goods_05".to_string()),
            Value::Integer(1000),
        ],
        vals
    );
}

#[test]
fn test_insert_sql_with_no_columns() {
    let (sql, vals) = insert_sql("t", &[]);
    assert_eq!("INSERT INTO t () VALUES ()", sql);
    assert_eq!(0, vals.len());
}

#[test]
fn test_update_sql_text_and_order() {
    let result = update_sql(
        "t_test_01",
        &[
            ("F_UNIT_PRICE".to_string(), Value::Float(10.0f64.to_bits())),
            ("F_NAME".to_string(), Value::String("Renamed".to_string())),
        ],
        &[
            FieldCondition::Equal("F_COUNT".to_string(), Value::Integer(2000)),
            FieldCondition::Between(
                "ID".to_string(),
                Value::Integer(1),
                Value::Integer(4),
            ),
            FieldCondition::IsNotNull("F_CREATE_TIME".to_string()),
        ],
    );
    let (sql, vals) = result.unwrap();
    assert_eq!(
        "UPDATE t_test_01 SET F_UNIT_PRICE=?,F_NAME=? \
         WHERE F_COUNT = ? AND ID BETWEEN ? AND ? AND F_CREATE_TIME IS NOT NULL",
        sql
    );
    assert_eq!(
        vec![
            Value::Float(10.0f64.to_bits()),
            Value::String("Renamed".to_string()),
            Value::Integer(2000),
            Value::Integer(1),
            Value::Integer(4),
        ],
        vals
    );
}

#[test]
fn test_update_sql_rejects_empty_conditions() {
    let result = update_sql(
        "t",
        &[("A".to_string(), Value::Integer(1))],
        &[],
    );
    assert!(matches!(result, Err(Error::DB { .. })));
}

#[test]
fn test_value_equality_and_default() {
    assert_eq!(Value::default(), Value::Null);
    assert_eq!(Value::Integer(7), Value::Integer(7));
    assert!(Value::Integer(7) != Value::Integer(8));
    assert!(Value::Integer(7) != Value::Float(7u64));
    assert_eq!(
        Value::Binary(vec![1u8, 2u8]),
        Value::Binary(vec![1u8, 2u8])
    );
    assert!(Value::Binary(vec![1u8, 2u8]) != Value::Binary(vec![1u8]));
    assert_eq!(
        Value::String("a".to_string()),
        Value::String("a".to_string())
    );
    assert!(Value::String("a".to_string()) != Value::Null);
}

#[test]
fn test_row_lookup_last_binding_wins() {
    let row = Row::new(vec![
        ("A".to_string(), Value::Integer(1)),
        ("B".to_string(), Value::Null),
        ("A".to_string(), Value::Integer(2)),
    ]);
    assert_eq!(3, row.len());
    assert_eq!(Some(&Value::Integer(2)), row.get("A"));
    assert_eq!(Some(&Value::Null), row.get("B"));
    assert_eq!(None, row.get("C"));
}
