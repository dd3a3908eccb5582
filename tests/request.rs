use influxdb_timestream_connector::config::{EnvVar, Environment};
use influxdb_timestream_connector::error::ConnectorError;
use influxdb_timestream_connector::records_builder::{MeasureValueType, TimeUnit};
use influxdb_timestream_connector::request::{
    get_precision, precision_time_unit, records_for_body, JsonValue,
};

fn object(entries: Vec<(&str, JsonValue)>) -> JsonValue {
    JsonValue::Object(entries.into_iter().map(|(k, v)| (k.to_string(), v)).collect())
}

fn text(s: &str) -> JsonValue {
    JsonValue::Str(s.to_string())
}

#[test]
pub fn test_get_precision_query_string_parameters_array() -> Result<(), String> {
    let fake_event_value = object(vec![("queryStringParameters", object(vec![("precision", JsonValue::Array(vec![text("ms")]))]))]);
    let precision = get_precision(&fake_event_value);
    assert!(precision.is_some());
    assert!(precision.expect("Failed to get precision") == "ms");
    Ok(())
}

#[test]
pub fn test_get_precision_query_string_parameters_object() -> Result<(), String> {
    let fake_event_value = object(vec![("queryStringParameters", object(vec![("precision", text("ms"))]))]);
    let precision = get_precision(&fake_event_value);
    assert!(precision.is_some());
    assert!(precision.expect("Failed to get precision") == "ms");
    Ok(())
}

#[test]
pub fn test_get_precision_query_string_parameters_object_nanoseconds() -> Result<(), String> {
    let fake_event_value = object(vec![("queryStringParameters", object(vec![("precision", text("ns"))]))]);
    let precision = get_precision(&fake_event_value);
    assert!(precision.is_some());
    assert!(precision.expect("Failed to get precision") == "ns");
    Ok(())
}

#[test]
pub fn test_get_precision_query_string_parameters_object_microseconds() -> Result<(), String> {
    let fake_event_value = object(vec![("queryStringParameters", object(vec![("precision", text("us"))]))]);
    let precision = get_precision(&fake_event_value);
    assert!(precision.is_some());
    assert!(precision.expect("Failed to get precision") == "us");
    Ok(())
}

#[test]
pub fn test_get_precision_query_string_parameters_object_seconds() -> Result<(), String> {
    let fake_event_value = object(vec![("queryStringParameters", object(vec![("precision", text("s"))]))]);
    let precision = get_precision(&fake_event_value);
    assert!(precision.is_some());
    assert!(precision.expect("Failed to get precision") == "s");
    Ok(())
}

#[test]
pub fn test_get_precision_query_parameters_array() -> Result<(), String> {
    let fake_event_value = object(vec![("queryParameters", object(vec![("precision", JsonValue::Array(vec![text("ms")]))]))]);
    let precision = get_precision(&fake_event_value);
    assert!(precision.is_some());
    assert!(precision.expect("Failed to get precision") == "ms");
    Ok(())
}

#[test]
pub fn test_get_precision_query_parameters_object() -> Result<(), String> {
    let fake_event_value = object(vec![("queryParameters", object(vec![("precision", text("ms"))]))]);
    let precision = get_precision(&fake_event_value);
    assert!(precision.is_some());
    assert!(precision.expect("Failed to get precision") == "ms");
    Ok(())
}

#[test]
pub fn test_get_precision_incorrect_query_parameters_key() -> Result<(), String> {
    let fake_event_value = object(vec![("nomatch", object(vec![("precision", text("ms"))]))]);
    assert!(get_precision(&fake_event_value).is_none());
    Ok(())
}

#[test]
pub fn test_get_precision_incorrect_precision_key() -> Result<(), String> {
    let fake_event_value = object(vec![("queryStringParameters", object(vec![("nomatch", text("ms"))]))]);
    assert!(get_precision(&fake_event_value).is_none());
    Ok(())
}

#[test]
fn precision_prefers_query_string_parameters() {
    let event = object(vec![
        ("queryStringParameters", object(vec![("precision", text("s"))])),
        ("queryParameters", object(vec![("precision", text("ms"))])),
    ]);
    assert_eq!(get_precision(&event), Some("s".to_string()));
}

#[test]
fn precision_array_of_non_string_is_absent() {
    let event = object(vec![(
        "queryStringParameters",
        object(vec![("precision", JsonValue::Array(vec![JsonValue::Number("3".to_string())]))]),
    )]);
    assert_eq!(get_precision(&event), None);
    let empty = object(vec![("queryStringParameters", object(vec![("precision", JsonValue::Array(vec![]))]))]);
    assert_eq!(get_precision(&empty), None);
}

#[test]
fn precision_selects_time_unit() {
    assert_eq!(precision_time_unit(&Some("ms".to_string())), TimeUnit::Milliseconds);
    assert_eq!(precision_time_unit(&Some("us".to_string())), TimeUnit::Microseconds);
    assert_eq!(precision_time_unit(&Some("s".to_string())), TimeUnit::Seconds);
    assert_eq!(precision_time_unit(&Some("ns".to_string())), TimeUnit::Nanoseconds);
    assert_eq!(precision_time_unit(&Some("MS".to_string())), TimeUnit::Nanoseconds);
    assert_eq!(precision_time_unit(&None), TimeUnit::Nanoseconds);
}

fn minimal_env() -> Environment {
    let mut env = Environment::new();
    env.set(EnvVar::EnableTableCreation, "false".to_string());
    env.set(EnvVar::Region, "us-west-2".to_string());
    env.set(EnvVar::DatabaseName, "test-database".to_string());
    env.set(EnvVar::EnableDatabaseCreation, "false".to_string());
    env.set(EnvVar::MeasureNameForMultiMeasureRecords, "influxdb-measure".to_string());
    env
}

#[test]
fn body_becomes_records_under_configured_measure_name() {
    let env = minimal_env();
    let body = "readings,goal=baseline incline=125i 1577836800000\nvelocity speed=4.5 1577836800001";
    let batches = records_for_body(body, &env, &TimeUnit::Milliseconds).expect("records");
    assert_eq!(batches.len(), 2);
    assert_eq!(batches[0].0, "readings");
    assert_eq!(batches[1].0, "velocity");
    let record = &batches[0].1[0];
    assert_eq!(record.measure_name, "influxdb-measure");
    assert_eq!(record.time_unit, TimeUnit::Milliseconds);
    assert_eq!(batches[1].1[0].measure_values[0].value, "4.5");
    assert_eq!(batches[1].1[0].measure_values[0].value_type, MeasureValueType::Double);
}

#[test]
fn malformed_body_fails_before_configuration() {
    let env = Environment::new();
    let result = records_for_body("readings incline=tree 1577836800000", &env, &TimeUnit::Nanoseconds);
    assert!(matches!(result, Err(ConnectorError::Parse(_))));
}

#[test]
fn body_without_measure_name_fails() {
    let mut env = minimal_env();
    let mut without = Environment::new();
    for var in [EnvVar::EnableTableCreation, EnvVar::Region, EnvVar::DatabaseName, EnvVar::EnableDatabaseCreation] {
        without.set(var, env.get(var).expect("set"));
    }
    env = without;
    let result = records_for_body("readings incline=1i 1", &env, &TimeUnit::Nanoseconds);
    assert_eq!(
        result,
        Err(ConnectorError::MissingVariable(EnvVar::MeasureNameForMultiMeasureRecords))
    );
}

#[test]
fn many_distinct_field_keys_are_not_limited_locally() {
    let env = minimal_env();
    for count in [1024usize, 1025usize] {
        let fields: Vec<String> = (0..count).map(|i| format!("field{}={}i", i, i)).collect();
        let body = format!("readings,tag1=a {} 1577836800000", fields.join(","));
        let batches = records_for_body(&body, &env, &TimeUnit::Nanoseconds).expect("records");
        assert_eq!(batches.len(), 1);
        assert_eq!(batches[0].1.len(), 1);
        assert_eq!(batches[0].1[0].measure_values.len(), count);
        assert_eq!(batches[0].1[0].measure_values[count - 1].value, format!("{}", count - 1));
    }
}
