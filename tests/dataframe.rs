use ballista::config::{Configs, CSV_BATCH_SIZE};
use ballista::dataframe::{Context, ContextState, DataFrame, Execution};
use ballista::error::BallistaError;
use ballista::expr::{max, min, sum, Expr, ScalarValue};
use ballista::plan::LogicalPlan;
use ballista::schema::{DataType, Field, Schema};
use ballista::text::parse_usize;
use std::sync::Arc;

fn xy_schema() -> Schema {
    Schema::new(vec![Field::new("x", DataType::UInt64), Field::new("y", DataType::Utf8)])
}

fn xy_frame() -> DataFrame {
    let ctx = Context::local(vec![]);
    ctx.read_csv("/data/xy.csv", Some(xy_schema()), None, true).unwrap()
}

fn utf8(s: &str) -> Expr {
    Expr::Literal(ScalarValue::Utf8(s.to_string()))
}

fn field_names(s: &Schema) -> Vec<String> {
    s.fields.iter().map(|f| f.name.clone()).collect()
}

#[test]
fn create_context_ux() {
    let settings = vec![(CSV_BATCH_SIZE, "2048"), ("custom.setting", "/foo/bar")];
    let ctx = Context::local(settings);
    match ctx.state() {
        ContextState::Local { settings } => {
            assert_eq!(settings.len(), 2);
            assert_eq!(settings[0], (CSV_BATCH_SIZE.to_string(), "2048".to_string()));
            assert_eq!(settings[1], ("custom.setting".to_string(), "/foo/bar".to_string()));
        }
        other => panic!("unexpected state {:?}", other),
    }
}

#[test]
fn wildcard_expands_in_place() {
    let df = xy_frame();
    let p = df.project(vec![utf8("a"), Expr::Wildcard, utf8("b")]).unwrap();
    match p.plan() {
        LogicalPlan::Projection { expr, .. } => {
            assert_eq!(expr, &vec![utf8("a"), Expr::Column(0), Expr::Column(1), utf8("b")]);
        }
        other => panic!("unexpected plan {:?}", other),
    }
    assert_eq!(field_names(p.schema()), vec!["a", "x", "y", "b"]);
}

#[test]
fn two_wildcards_expand_each() {
    let df = xy_frame();
    let p = df.project(vec![Expr::Wildcard, Expr::Wildcard]).unwrap();
    assert_eq!(field_names(p.schema()), vec!["x", "y", "x", "y"]);
}

#[test]
fn projection_without_wildcard_keeps_length() {
    let df = xy_frame();
    let list = vec![
        Expr::Column(1),
        Expr::Literal(ScalarValue::UInt64(42)),
        Expr::Literal(ScalarValue::Boolean(true)),
        sum(Expr::Column(0)),
    ];
    let p = df.project(list).unwrap();
    let fields = &p.schema().fields;
    assert_eq!(fields.len(), 4);
    assert_eq!(fields[0], Field::new("y", DataType::Utf8));
    assert_eq!(fields[1], Field::new("42", DataType::UInt64));
    assert_eq!(fields[2], Field::new("true", DataType::Boolean));
    assert_eq!(fields[3], Field::new("SUM", DataType::Float64));
}

#[test]
fn literal_names_render_values() {
    let df = xy_frame();
    let p = df
        .project(vec![
            Expr::Literal(ScalarValue::UInt64(0)),
            Expr::Literal(ScalarValue::UInt64(18446744073709551615)),
            Expr::Literal(ScalarValue::Boolean(false)),
        ])
        .unwrap();
    assert_eq!(field_names(p.schema()), vec!["0", "18446744073709551615", "false"]);
}

#[test]
fn projection_of_missing_column_fails() {
    let df = xy_frame();
    let r = df.project(vec![Expr::Column(2)]);
    assert!(matches!(r, Err(BallistaError::SchemaError(_))));
}

#[test]
fn configs_resolve_overrides_then_defaults() {
    let c = Configs::new(vec![(CSV_BATCH_SIZE.to_string(), "2048".to_string())]);
    assert_eq!(c.get_setting(CSV_BATCH_SIZE), Some("2048".to_string()));
    let d = Configs::new(vec![]);
    assert_eq!(d.get_setting(CSV_BATCH_SIZE), Some("1024".to_string()));
    assert_eq!(d.csv_batch_size(), Some("1024".to_string()));
    assert_eq!(d.get_setting("unknown.key"), None);
}

#[test]
fn configs_return_overrides_of_unknown_keys() {
    let c = Configs::new(vec![("custom.setting".to_string(), "/foo/bar".to_string())]);
    assert_eq!(c.get_setting("custom.setting"), Some("/foo/bar".to_string()));
    assert_eq!(c.get_setting("Custom.Setting"), None);
}

#[test]
fn limit_keeps_schema_and_wraps_count() {
    let df = xy_frame();
    let l = df.limit(7).unwrap();
    assert_eq!(l.schema(), df.schema());
    match l.plan() {
        LogicalPlan::Limit { expr, .. } => {
            assert_eq!(expr, &Expr::Literal(ScalarValue::UInt64(7)));
        }
        other => panic!("unexpected plan {:?}", other),
    }
}

#[test]
fn aggregate_schema_is_groups_then_aggregates() {
    let df = xy_frame();
    let a = df.aggregate(vec![Expr::Column(0)], vec![sum(Expr::Column(1))]).unwrap();
    assert_eq!(
        a.schema().fields,
        vec![Field::new("x", DataType::UInt64), Field::new("SUM", DataType::Float64)]
    );
}

#[test]
fn aggregate_rejects_wildcard() {
    let df = xy_frame();
    let r = df.aggregate(vec![Expr::Wildcard], vec![]);
    assert!(matches!(r, Err(BallistaError::SchemaError(_))));
}

#[test]
fn local_batch_size_defaults() {
    let df = xy_frame();
    assert_eq!(df.execution(), Ok(Execution::Local { batch_size: 1024 }));
}

#[test]
fn local_batch_size_override() {
    let ctx = Context::local(vec![(CSV_BATCH_SIZE, "2048")]);
    let df = ctx.create_dataframe(0, xy_schema()).unwrap();
    assert_eq!(df.execution(), Ok(Execution::Local { batch_size: 2048 }));
}

#[test]
fn local_bad_batch_size_is_configuration_error() {
    let ctx = Context::local(vec![(CSV_BATCH_SIZE, "lots")]);
    let df = ctx.create_dataframe(0, xy_schema()).unwrap();
    assert!(matches!(df.execution(), Err(BallistaError::ConfigurationError(_))));
}

#[test]
fn spark_without_port_is_configuration_error() {
    let ctx = Context::spark("local[*]", vec![("spark.ballista.host", "localhost")]);
    let df = DataFrame::empty(Arc::new(ContextState::Spark {
        master: "local[*]".to_string(),
        spark_settings: vec![("spark.ballista.host".to_string(), "localhost".to_string())],
    }));
    assert!(matches!(df.execution(), Err(BallistaError::ConfigurationError(_))));
    let df2 = ctx.create_dataframe(0, xy_schema()).unwrap();
    assert!(matches!(df2.execution(), Err(BallistaError::ConfigurationError(_))));
}

#[test]
fn spark_with_bad_port_is_configuration_error() {
    let ctx = Context::spark(
        "local[*]",
        vec![("spark.ballista.host", "localhost"), ("spark.ballista.port", "50O51")],
    );
    let df = ctx.create_dataframe(0, xy_schema()).unwrap();
    assert!(matches!(df.execution(), Err(BallistaError::ConfigurationError(_))));
}

#[test]
fn spark_reads_host_and_port() {
    let ctx = Context::spark(
        "local[*]",
        vec![("spark.ballista.host", "executor"), ("spark.ballista.port", "50051")],
    );
    let df = ctx.create_dataframe(0, xy_schema()).unwrap();
    assert_eq!(
        df.execution(),
        Ok(Execution::Network { host: "executor".to_string(), port: 50051 })
    );
}

#[test]
fn spark_port_with_plus_sign_is_read() {
    let ctx = Context::spark(
        "local[*]",
        vec![("spark.ballista.host", "executor"), ("spark.ballista.port", "+1")],
    );
    let df = ctx.create_dataframe(0, xy_schema()).unwrap();
    assert_eq!(
        df.execution(),
        Ok(Execution::Network { host: "executor".to_string(), port: 1 })
    );
}

#[test]
fn local_batch_size_with_plus_sign_is_read() {
    let ctx = Context::local(vec![(CSV_BATCH_SIZE, "+2048")]);
    let df = ctx.create_dataframe(0, xy_schema()).unwrap();
    assert_eq!(df.execution(), Ok(Execution::Local { batch_size: 2048 }));
}

#[test]
fn spark_port_of_bare_plus_is_configuration_error() {
    let ctx = Context::spark(
        "local[*]",
        vec![("spark.ballista.host", "executor"), ("spark.ballista.port", "+")],
    );
    let df = ctx.create_dataframe(0, xy_schema()).unwrap();
    assert!(matches!(df.execution(), Err(BallistaError::ConfigurationError(_))));
}

#[test]
fn other_column_types_are_carried() {
    let schema = Schema::new(vec![
        Field::new("id", DataType::Int32),
        Field::new("day", DataType::Date32),
        Field::new("at", DataType::Other("Timestamp(Nanosecond, None)".to_string())),
    ]);
    let ctx = Context::local(vec![]);
    let df = ctx.read_csv("/d.csv", Some(schema.clone()), Some(vec![2, 0]), true).unwrap();
    assert_eq!(
        df.schema().fields,
        vec![
            Field::new("at", DataType::Other("Timestamp(Nanosecond, None)".to_string())),
            Field::new("id", DataType::Int32),
        ]
    );
    let p = df.project(vec![Expr::Wildcard]).unwrap();
    assert_eq!(p.schema(), df.schema());
}

#[test]
fn cloned_plans_are_equal_in_content() {
    let df = xy_frame().aggregate(vec![Expr::Column(0)], vec![max(Expr::Column(1))]).unwrap();
    let copy = df.plan().clone();
    assert_eq!(format!("{:?}", copy), format!("{:?}", df.plan()));
    let e = sum(Expr::Column(1));
    assert_eq!(e.clone(), e);
}

#[test]
fn remote_uses_context_address() {
    let ctx = Context::remote("10.0.0.1", 8080, vec![]);
    let df = ctx.create_dataframe(3, xy_schema()).unwrap();
    assert_eq!(
        df.execution(),
        Ok(Execution::Network { host: "10.0.0.1".to_string(), port: 8080 })
    );
}

#[test]
fn writes_are_not_implemented_anywhere() {
    let contexts = vec![
        Context::local(vec![]),
        Context::remote("h", 1, vec![]),
        Context::spark("m", vec![]),
    ];
    for ctx in contexts {
        let df = ctx.create_dataframe(0, xy_schema()).unwrap();
        assert!(matches!(df.write_csv("/tmp/out.csv"), Err(BallistaError::NotImplemented(_))));
        assert!(matches!(
            df.write_parquet("/tmp/out.parquet"),
            Err(BallistaError::NotImplemented(_))
        ));
    }
}

#[test]
fn filter_leaves_original_unchanged() {
    let df = xy_frame().project(vec![Expr::Column(1)]).unwrap();
    let schema_before = df.schema().clone();
    let f = df.filter(Expr::Literal(ScalarValue::Boolean(true))).unwrap();
    assert_eq!(df.schema(), &schema_before);
    assert!(matches!(df.plan(), LogicalPlan::Projection { .. }));
    match f.plan() {
        LogicalPlan::Selection { input, schema, .. } => {
            assert_eq!(format!("{:?}", input.as_ref()), format!("{:?}", df.plan()));
            assert_eq!(schema, &schema_before);
        }
        other => panic!("unexpected plan {:?}", other),
    }
}

#[test]
fn scan_projection_selects_in_order() {
    let ctx = Arc::new(ContextState::Local { settings: vec![] });
    let df = DataFrame::scan_csv(ctx.clone(), "/d.csv", &xy_schema(), Some(vec![1, 0])).unwrap();
    assert_eq!(field_names(df.schema()), vec!["y", "x"]);
    let r = DataFrame::scan_parquet(ctx, "/d.parquet", &xy_schema(), Some(vec![2]));
    assert!(matches!(r, Err(BallistaError::SchemaError(_))));
}

#[test]
fn read_csv_needs_schema() {
    let ctx = Context::local(vec![]);
    let r = ctx.read_csv("/d.csv", None, None, true);
    assert!(matches!(r, Err(BallistaError::SchemaError(_))));
}

#[test]
fn empty_relation_has_no_fields() {
    let df = DataFrame::empty(Arc::new(ContextState::Local { settings: vec![] }));
    assert!(df.schema().fields.is_empty());
}

#[test]
fn aggregate_helpers_name_functions() {
    let e = min(Expr::Column(0));
    assert_eq!(
        e,
        Expr::AggregateFunction {
            name: "MIN".to_string(),
            args: vec![Expr::Column(0)],
            return_type: DataType::Float64
        }
    );
    assert!(matches!(max(Expr::Column(1)), Expr::AggregateFunction { ref name, .. } if name == "MAX"));
}

#[test]
fn parse_usize_reads_decimal() {
    assert_eq!(parse_usize("1024"), Some(1024));
    assert_eq!(parse_usize("0"), Some(0));
    assert_eq!(parse_usize(""), None);
    assert_eq!(parse_usize("12a"), None);
    assert_eq!(parse_usize("-1"), None);
    assert_eq!(parse_usize("+1"), Some(1));
    assert_eq!(parse_usize("+"), None);
    assert_eq!(parse_usize("++1"), None);
    assert_eq!(parse_usize("1+"), None);
    assert_eq!(parse_usize("99999999999999999999999"), None);
}
