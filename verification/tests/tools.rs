use copilot_sdk::json::{Json, JsonNumber};
use copilot_sdk::tools::{convert_mcp_call_tool_result, define_tool, normalize_result};
use copilot_sdk::types::ToolResultObject;

fn s(x: &str) -> Json {
    Json::Str(x.to_string())
}

fn obj(members: Vec<(&str, Json)>) -> Json {
    Json::Object(members.into_iter().map(|(k, v)| (k.to_string(), v)).collect())
}

fn same(a: &Json, b: &Json) -> bool {
    format!("{:?}", a) == format!("{:?}", b)
}

#[test]
fn test_normalize_null() {
    let result = normalize_result(Json::Null);
    assert_eq!(result.result_type, "success");
    assert_eq!(result.text_result_for_llm, "");
}

#[test]
fn test_normalize_string() {
    let result = normalize_result(Json::Str("hello".to_string()));
    assert_eq!(result.result_type, "success");
    assert_eq!(result.text_result_for_llm, "hello");
}

#[test]
fn test_normalize_tool_result_passthrough() {
    let val = obj(vec![
        ("resultType", s("success")),
        ("textResultForLlm", s("tool output")),
    ]);
    let result = normalize_result(val);
    assert_eq!(result.result_type, "success");
    assert_eq!(result.text_result_for_llm, "tool output");
}

#[test]
fn test_normalize_other_value() {
    let val = obj(vec![("key", s("value"))]);
    let result = normalize_result(val);
    assert_eq!(result.result_type, "success");
    assert!(result.text_result_for_llm.contains("key"));
}

#[test]
fn test_define_tool_basic() {
    let tool = define_tool("test_tool", "A test tool", None);
    assert_eq!(tool.name, "test_tool");
    assert_eq!(tool.description, "A test tool");
}

#[test]
fn test_define_tool_with_schema() {
    let schema = obj(vec![
        ("type", s("object")),
        ("properties", obj(vec![("q", obj(vec![("type", s("string"))]))])),
    ]);
    let tool = define_tool("search", "Search tool", Some(schema.clone()));
    assert_eq!(tool.name, "search");
    assert!(same(&tool.parameters_schema, &schema));
}

#[test]
fn define_tool_defaults_to_empty_object_schema() {
    let tool = define_tool("t", "d", None);
    assert!(same(&tool.parameters_schema, &obj(vec![])));
    assert!(!tool.skip_permission);
    assert!(!tool.overrides_built_in_tool);
}

#[test]
fn normalize_other_values_are_written_as_json() {
    let r = normalize_result(Json::Number(JsonNumber::PosInt(42)));
    assert_eq!(r.text_result_for_llm, "42");
    assert_eq!(r.result_type, "success");
    let r = normalize_result(Json::Array(vec![Json::Bool(true), Json::Null]));
    assert_eq!(r.text_result_for_llm, "[true,null]");
}

#[test]
fn normalize_undecodable_result_is_a_failure() {
    let val = obj(vec![
        ("resultType", s("success")),
        ("textResultForLlm", Json::Number(JsonNumber::PosInt(1))),
    ]);
    let r = normalize_result(val);
    assert_eq!(r.text_result_for_llm, "Failed to parse tool result");
    assert_eq!(r.result_type, "failure");
}

#[test]
fn normalize_passes_a_wire_result_through() {
    let mut r = ToolResultObject::error("boom");
    r.session_log = Some("log".into());
    let back = normalize_result(r.to_json());
    assert_eq!(format!("{:?}", back), format!("{:?}", r));
}

#[test]
fn mcp_result_conversion() {
    let call = obj(vec![
        ("isError", Json::Bool(false)),
        (
            "content",
            Json::Array(vec![
                obj(vec![("type", s("text")), ("text", s("first"))]),
                obj(vec![("type", s("image")), ("data", s("AAAA"))]),
                obj(vec![
                    ("type", s("resource")),
                    ("resource", obj(vec![("uri", s("file:///a")), ("text", s("body"))])),
                ]),
                obj(vec![("type", s("audio")), ("x", Json::Bool(true))]),
            ]),
        ),
    ]);
    let r = convert_mcp_call_tool_result(&call);
    assert_eq!(r.result_type, "success");
    let text = r.text_result_for_llm.clone();
    let lines: Vec<&str> = text.split('\n').collect();
    assert_eq!(lines[0], "first");
    assert_eq!(lines[1], "[resource: file:///a]");
    assert_eq!(lines[2], "body");
    assert!(lines[3].contains("audio"));
    let b = r.binary_results_for_llm.unwrap();
    assert_eq!(b.len(), 1);
    assert_eq!(b[0].data, "AAAA");
    assert_eq!(b[0].mime_type, "image/png");
    assert_eq!(b[0].result_type, "image");
}

#[test]
fn mcp_error_result_is_a_failure() {
    let call = obj(vec![("isError", Json::Bool(true)), ("content", Json::Array(vec![]))]);
    let r = convert_mcp_call_tool_result(&call);
    assert_eq!(r.result_type, "failure");
    assert_eq!(r.text_result_for_llm, "");
    assert!(r.binary_results_for_llm.is_none());
}
