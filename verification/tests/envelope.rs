use runner::envelope::{ToolBatchExecuteRequest, ToolExecuteRequest, ToolEnvelope};
use serde_json::Value;

fn object(entries: Vec<(&str, Value)>) -> Value {
    let mut m = serde_json::Map::new();
    for (k, v) in entries {
        m.insert(k.to_string(), v);
    }
    Value::Object(m)
}

#[test]
fn test_envelope_ok_fields() {
    let env = ToolEnvelope::ok(
        "read_file",
        "content".to_string(),
        object(vec![("path", Value::from("a.txt"))]),
        42,
    );
    assert_eq!(env.tool, "read_file");
    assert!(env.ok);
    assert_eq!(env.exit_code, 0);
    assert_eq!(env.stdout, "content");
    assert!(env.stderr.is_empty());
    assert_eq!(env.timing_ms, 42);
    assert_eq!(env.artifacts, object(vec![("path", Value::from("a.txt"))]));
}

#[test]
fn test_envelope_err_fields() {
    let env = ToolEnvelope::err("exec", 1, "failed".to_string(), Value::Null, 100);
    assert_eq!(env.tool, "exec");
    assert!(!env.ok);
    assert_eq!(env.exit_code, 1);
    assert!(env.stdout.is_empty());
    assert_eq!(env.stderr, "failed");
    assert_eq!(env.timing_ms, 100);
}

#[test]
fn envelope_err_keeps_code_and_artifacts() {
    let env = ToolEnvelope::err("exec", -7, String::new(), Value::from(3), u128::MAX);
    assert_eq!(env.exit_code, -7);
    assert_eq!(env.artifacts, Value::from(3));
    assert_eq!(env.timing_ms, u128::MAX);
    assert!(env.stderr.is_empty());
}

#[test]
fn an_object_of_one_key_twice_holds_the_later_value() {
    let v = runner::json::json_object2("a", Value::from(1), "a", Value::from(2));
    let mut expected = serde_json::Map::new();
    expected.insert("a".to_string(), Value::from(2));
    assert_eq!(v, Value::Object(expected));
    let v = runner::json::json_object2("b", Value::from(1), "a", Value::from(2));
    assert_eq!(serde_json::to_string(&v).unwrap(), "{\"a\":2,\"b\":1}");
    assert_eq!(runner::json::json_object1("k", Value::Null), object(vec![("k", Value::Null)]));
    let list = runner::json::json_text_list(&vec!["x".to_string(), "y".to_string()]);
    assert_eq!(list, Value::from(vec!["x", "y"]));
}

#[test]
fn requests_are_plain_records() {
    let batch = ToolBatchExecuteRequest {
        calls: vec![
            ToolExecuteRequest { tool: "a".to_string(), input: Value::Null },
            ToolExecuteRequest { tool: "b".to_string(), input: object(vec![]) },
        ],
    };
    assert_eq!(batch.calls.len(), 2);
    assert_eq!(batch.calls[0].tool, "a");
    assert_eq!(batch.calls[1].tool, "b");
    assert!(batch.calls[0].input.is_null());
}
