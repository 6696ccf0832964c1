use copilot_sdk::json::{Json, JsonNumber};
use copilot_sdk::session::{classify_event, update_capabilities, IncomingEvent, Received, SessionCapabilities, SessionUiCapabilities};
use copilot_sdk::session_fs::CreateSessionFsHandler;
use copilot_sdk::types::ToolInvocation;
use copilot_sdk::error::CopilotError;

fn s(x: &str) -> Json {
    Json::Str(x.to_string())
}

fn obj(members: Vec<(&str, Json)>) -> Json {
    Json::Object(members.into_iter().map(|(k, v)| (k.to_string(), v)).collect())
}

fn event(t: &str, data: Json) -> Json {
    obj(vec![("id", s("evt-1")), ("type", s(t)), ("data", data)])
}

#[test]
fn events_are_classified_by_type() {
    match classify_event(&event("session.idle", obj(vec![]))) {
        IncomingEvent::Other(Received::SessionIdle) => {}
        other => panic!("unexpected {:?}", other),
    }
    match classify_event(&event("assistant.message", obj(vec![("content", s("hi"))]))) {
        IncomingEvent::Other(Received::AssistantMessage(c)) => assert_eq!(c, "hi"),
        other => panic!("unexpected {:?}", other),
    }
    match classify_event(&event("assistant.message_delta", obj(vec![("deltaContent", s("h"))]))) {
        IncomingEvent::Other(Received::AssistantMessageDelta(c)) => assert_eq!(c, "h"),
        other => panic!("unexpected {:?}", other),
    }
    match classify_event(&event("session.error", obj(vec![("message", s("bad"))]))) {
        IncomingEvent::Other(Received::SessionError(m)) => assert_eq!(m, "bad"),
        other => panic!("unexpected {:?}", other),
    }
    match classify_event(&event(
        "external_tool.requested",
        obj(vec![("requestId", s("r")), ("toolName", s("t"))]),
    )) {
        IncomingEvent::ToolRequested(q) => {
            assert_eq!(q.request_id.as_deref(), Some("r"));
            assert_eq!(q.tool_name.as_deref(), Some("t"));
            assert!(q.arguments.is_none());
        }
        other => panic!("unexpected {:?}", other),
    }
    match classify_event(&event(
        "capabilities.changed",
        obj(vec![("ui", obj(vec![("elicitation", Json::Bool(true))]))]),
    )) {
        IncomingEvent::CapabilitiesChanged { elicitation, commands } => {
            assert_eq!(elicitation, Some(true));
            assert_eq!(commands, None);
        }
        other => panic!("unexpected {:?}", other),
    }
    match classify_event(&obj(vec![])) {
        IncomingEvent::Other(Received::OtherEvent) => {}
        other => panic!("unexpected {:?}", other),
    }
}

#[test]
fn capabilities_update_keeps_unreported_flags() {
    let current = SessionCapabilities { ui: SessionUiCapabilities { elicitation: false, commands: true } };
    let next = update_capabilities(Some(current), Some(true), None);
    assert!(next.ui.elicitation);
    assert!(next.ui.commands);
    let fresh = update_capabilities(None, None, Some(true));
    assert!(!fresh.ui.elicitation);
    assert!(fresh.ui.commands);
}

#[test]
fn session_fs_factory_is_called_with_the_session_id() {
    let factory = CreateSessionFsHandler::new(|id: &str| id.len());
    assert_eq!(factory.call("abcd"), 4);
}

#[test]
fn tool_invocation_arguments() {
    let inv = ToolInvocation::from_json(&obj(vec![
        ("sessionId", s("s")),
        ("toolCallId", s("c")),
        ("toolName", s("t")),
        ("arguments", obj(vec![("city", s("Paris")), ("n", Json::Number(JsonNumber::PosInt(2)))])),
    ]))
    .unwrap();
    assert_eq!(inv.arg_value("city").unwrap().as_str(), Some("Paris"));
    match inv.arg_value("zip") {
        Err(CopilotError::ToolError(m)) => assert_eq!(m, "Missing argument: zip"),
        other => panic!("unexpected {:?}", other),
    }
    let bare = ToolInvocation::from_json(&obj(vec![
        ("sessionId", s("s")),
        ("toolCallId", s("c")),
        ("toolName", s("t")),
        ("arguments", Json::Null),
    ]))
    .unwrap();
    match bare.arg_value("city") {
        Err(CopilotError::ToolError(m)) => assert_eq!(m, "No arguments provided"),
        other => panic!("unexpected {:?}", other),
    }
    match ToolInvocation::invalid_argument("n", "expected a string") {
        CopilotError::ToolError(m) => assert_eq!(m, "Invalid argument 'n': expected a string"),
        other => panic!("unexpected {:?}", other),
    }
    assert!(ToolInvocation::from_json(&obj(vec![("sessionId", s("s"))])).is_none());
}

#[test]
fn announced_port_and_bare_port_urls() {
    assert_eq!(copilot_sdk::client::parse_listening_port("listening on port 80"), Some(80));
    assert_eq!(copilot_sdk::client::parse_listening_port("listening on port 0"), Some(0));
    let (h, p) = copilot_sdk::client::parse_cli_url("65535").unwrap();
    assert_eq!((h.as_str(), p), ("localhost", 65535));
    let (h, p) = copilot_sdk::client::parse_cli_url("http://example.com:8080").unwrap();
    assert_eq!((h.as_str(), p), ("example.com", 8080));
    let (h, p) = copilot_sdk::client::parse_cli_url("::1:8080").unwrap();
    assert_eq!((h.as_str(), p), ("::1", 8080));
}
