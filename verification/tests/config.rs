//! Tests of the configuration shapes, the discriminant check, the
//! parameter-type mapping, and the wiring.

use data_access::config::Config;
use data_access::config::ConfigKind;
use data_access::config::ConfigSpec;
use data_access::config::DataSourceDriver;
use data_access::config::DataSourceSpec;
use data_access::config::ParamType;
use data_access::datasource::connect;
use data_access::datasource::Value;
use data_access::errors::Error;

fn memory_spec(init: Option<&str>) -> DataSourceSpec {
    DataSourceSpec {
        driver: DataSourceDriver::Sqlite,
        path: ":memory:".to_string(),
        init_script: init.map(|s| s.to_string()),
        query: vec![],
    }
}

#[test]
fn test_map_spec_accepts_matching_kind() {
    let config = Config {
        kind: ConfigKind::DataSource,
        name: "sqlite_01".to_string(),
        service: None,
        spec: ConfigSpec::DataSource(memory_spec(None)),
    };
    let spec = config.map_spec().unwrap();
    match spec {
        ConfigSpec::DataSource(ds) => {
            assert_eq!(DataSourceDriver::Sqlite, ds.driver);
            assert_eq!(":memory:", ds.path);
        }
        ConfigSpec::DataService(_) => panic!("wrong payload"),
    }
}

#[test]
fn test_map_spec_rejects_mismatched_kind() {
    let config = Config {
        kind: ConfigKind::DataService,
        name: "sqlite_01".to_string(),
        service: None,
        spec: ConfigSpec::DataSource(memory_spec(None)),
    };
    let result = config.map_spec();
    assert!(matches!(result, Err(Error::Config { .. })));
}

#[test]
fn test_wiring_connect_runs_init_script() {
    let spec = memory_spec(Some(
        "CREATE TABLE t_w (A INTEGER); INSERT INTO t_w (A) VALUES (9)",
    ));
    let db = connect(&spec).unwrap();
    let rows = db.query("SELECT A FROM t_w", &[]).unwrap();
    assert_eq!(1, rows.len());
    assert_eq!(Some(&Value::Integer(9)), rows[0].get("A"));
}

#[test]
fn test_wiring_connect_fails_on_bad_init_script() {
    let spec = memory_spec(Some("THIS IS NOT SQL"));
    let result = connect(&spec);
    assert!(matches!(result, Err(Error::DB { .. })));
}

#[test]
fn test_param_type_placeholders() {
    assert_eq!(Value::Float(0), ParamType::Float.convert());
    assert_eq!(Value::Integer(0), ParamType::Integer.convert());
    assert_eq!(Value::String(String::new()), ParamType::String.convert());
}

#[test]
fn test_param_type_validate() {
    assert!(ParamType::Integer.validate(&Value::Integer(3)).is_ok());
    assert!(ParamType::Float
        .validate(&Value::Float(1.5f64.to_bits()))
        .is_ok());
    assert!(ParamType::String
        .validate(&Value::String("x".to_string()))
        .is_ok());

    // No coercion: a string never fits a declared integer slot, and
    // floats and integers are never mixed.
    let mismatch = ParamType::Integer.validate(&Value::String("3".to_string()));
    assert!(matches!(mismatch, Err(Error::Convert { .. })));
    let mixed = ParamType::Integer.validate(&Value::Float(3.0f64.to_bits()));
    assert!(matches!(mixed, Err(Error::Convert { .. })));
    let null = ParamType::Float.validate(&Value::Null);
    assert!(matches!(null, Err(Error::Convert { .. })));
}

#[test]
fn test_error_messages() {
    let e = Error::DB {
        cause: "x".to_string(),
    };
    assert_eq!("DB error, cause: x", e.message());
    let e = Error::Config {
        cause: "y".to_string(),
    };
    assert_eq!("Config error, cause: y", e.message());
    let e = Error::Convert {
        cause: "z".to_string(),
    };
    assert_eq!("Convert error, cause: z", e.message());
    let e = Error::IO {
        cause: "w".to_string(),
    };
    assert_eq!("IO error, cause: w", e.message());
}

#[test]
fn test_validate_args_against_declared_types() {
    let query = data_access::config::QueryInstant {
        name: "by_count".to_string(),
        sql: "SELECT * FROM t_test_01 WHERE F_COUNT = ? AND F_NAME = ?".to_string(),
        params: vec![
            data_access::config::QueryParam {
                name: "count".to_string(),
                p_type: ParamType::Integer,
            },
            data_access::config::QueryParam {
                name: "name".to_string(),
                p_type: ParamType::String,
            },
        ],
    };

    let good = query.validate_args(&[Value::Integer(2000), Value::String("Goods_02".to_string())]);
    assert!(good.is_ok());

    let swapped =
        query.validate_args(&[Value::String("Goods_02".to_string()), Value::Integer(2000)]);
    assert!(matches!(swapped, Err(Error::Convert { .. })));

    let short = query.validate_args(&[Value::Integer(2000)]);
    assert!(matches!(short, Err(Error::Convert { .. })));
}
