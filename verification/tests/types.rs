use copilot_sdk::config::{MessageOptions, SessionConfig};
use copilot_sdk::json::Json;
use copilot_sdk::types::{
    ConnectionState, LogLevel, PermissionRequestResult, PingResponse, SessionMetadata, Tool,
    ToolBinaryResult, ToolResult, ToolResultObject,
};

fn s(x: &str) -> Json {
    Json::Str(x.to_string())
}

fn obj(members: Vec<(&str, Json)>) -> Json {
    Json::Object(members.into_iter().map(|(k, v)| (k.to_string(), v)).collect())
}

fn same(a: &Json, b: &Json) -> bool {
    format!("{:?}", a) == format!("{:?}", b)
}

#[test]
fn test_tool_result_text() {
    let result = ToolResult::text("Hello, world!");
    assert_eq!(result.text_result_for_llm, "Hello, world!");
    assert_eq!(result.result_type, "success");
}

#[test]
fn test_tool_result_error() {
    let result = ToolResult::error("Something went wrong");
    assert_eq!(result.result_type, "error");
    assert_eq!(result.error, Some("Something went wrong".to_string()));
}

#[test]
fn test_permission_result() {
    let approved = PermissionRequestResult::approved();
    assert_eq!(approved.kind, "approved");

    let denied = PermissionRequestResult::denied();
    assert!(denied.kind.starts_with("denied"));
}

#[test]
fn test_message_options_from_str() {
    let opts: MessageOptions = "Hello".into();
    assert_eq!(opts.prompt, "Hello");
}

#[test]
fn test_session_config_default() {
    let config = SessionConfig::default();
    assert!(config.model.is_none());
    assert!(config.tools.is_empty());
}

#[test]
fn test_tool_builder() {
    let tool = Tool::new("my_tool")
        .description("A test tool")
        .schema(obj(vec![("type", s("object"))]));

    assert_eq!(tool.name, "my_tool");
    assert_eq!(tool.description, "A test tool");
}

#[test]
fn defaults_of_enums() {
    assert_eq!(ConnectionState::default(), ConnectionState::Disconnected);
    assert_eq!(LogLevel::default(), LogLevel::Info);
    assert_eq!(LogLevel::Debug.to_string(), "debug");
    assert_eq!(LogLevel::Warn.to_string(), "warn");
}

#[test]
fn tool_result_wire_form_leaves_out_none() {
    let r = ToolResultObject::text("out");
    let j = r.to_json();
    assert!(same(
        &j,
        &obj(vec![("textResultForLlm", s("out")), ("resultType", s("success"))])
    ));
}

#[test]
fn tool_result_wire_roundtrip() {
    let r = ToolResultObject {
        text_result_for_llm: "t".into(),
        binary_results_for_llm: Some(vec![ToolBinaryResult {
            data: "AAAA".into(),
            mime_type: "image/png".into(),
            result_type: "image".into(),
            description: Some("pic".into()),
        }]),
        result_type: "failure".into(),
        error: Some("e".into()),
        session_log: None,
        tool_telemetry: Some(vec![("k".into(), Json::Bool(true))]),
    };
    let back = ToolResultObject::from_json(&r.to_json()).unwrap();
    assert_eq!(format!("{:?}", back), format!("{:?}", r));
}

#[test]
fn tool_result_decoding_defaults_and_errors() {
    let d = ToolResultObject::from_json(&obj(vec![("textResultForLlm", s("x"))])).unwrap();
    assert_eq!(d.result_type, "success");
    assert!(ToolResultObject::from_json(&obj(vec![("resultType", s("success"))])).is_none());
    assert!(ToolResultObject::from_json(&obj(vec![
        ("textResultForLlm", s("x")),
        ("resultType", Json::Null)
    ]))
    .is_none());
    let n = ToolResultObject::from_json(&obj(vec![
        ("textResultForLlm", s("x")),
        ("error", Json::Null),
    ]))
    .unwrap();
    assert!(n.error.is_none());
}

#[test]
fn permission_result_wire() {
    let j = PermissionRequestResult::denied().to_json();
    assert!(same(
        &j,
        &obj(vec![(
            "kind",
            s("denied-no-approval-rule-and-could-not-request-from-user")
        )])
    ));
}

#[test]
fn session_metadata_decoding() {
    let m = SessionMetadata::from_json(&obj(vec![
        ("sessionId", s("abc")),
        ("summary", s("hello")),
        ("isRemote", Json::Bool(true)),
    ]))
    .unwrap();
    assert_eq!(m.session_id, "abc");
    assert_eq!(m.summary, Some("hello".to_string()));
    assert!(m.start_time.is_none());
    assert!(m.is_remote);
    assert!(SessionMetadata::from_json(&obj(vec![("summary", s("x"))])).is_none());
    assert!(SessionMetadata::from_json(&obj(vec![
        ("sessionId", s("a")),
        ("isRemote", Json::Null)
    ]))
    .is_none());
}

#[test]
fn ping_response_defaults() {
    let p = PingResponse::from_result(&obj(vec![]));
    assert_eq!(p.message, "");
    assert_eq!(p.timestamp, 0);
    assert!(p.protocol_version.is_none());
    let p = PingResponse::from_result(&obj(vec![
        ("message", s("pong")),
        ("timestamp", Json::Number(copilot_sdk::json::JsonNumber::PosInt(7))),
        ("protocolVersion", Json::Number(copilot_sdk::json::JsonNumber::PosInt(1))),
    ]));
    assert_eq!(p.message, "pong");
    assert_eq!(p.timestamp, 7);
    assert_eq!(p.protocol_version, Some(1));
}

#[test]
fn setting_a_member_of_null_makes_an_object() {
    let mut v = Json::Null;
    v.set("a", Json::Bool(true));
    assert!(matches!(v.get("a"), Some(Json::Bool(true))));
    v.set("a", Json::Bool(false));
    assert!(matches!(v.get("a"), Some(Json::Bool(false))));
    match &v {
        Json::Object(es) => assert_eq!(es.len(), 1),
        _ => panic!("not an object"),
    }
}
