use copilot_sdk::error::CopilotError;
use copilot_sdk::json::{json_text, parse_json_text, Json, JsonNumber};
use copilot_sdk::jsonrpc::{
    classify_message, error_message, frame_header, header_step, read_header_line,
    request_message, result_message, HeaderLine, HeaderStep, IncomingMessage,
};

fn parse(text: &str) -> Json {
    parse_json_text(text).unwrap()
}

#[test]
fn frame_header_names_the_body_length() {
    assert_eq!(frame_header(0), "Content-Length: 0\r\n\r\n");
    assert_eq!(frame_header(1234), "Content-Length: 1234\r\n\r\n");
}

#[test]
fn header_lines() {
    assert_eq!(read_header_line("Content-Length: 42\r\n"), HeaderLine::ContentLength(42));
    assert_eq!(read_header_line("content-length:7"), HeaderLine::ContentLength(7));
    assert_eq!(read_header_line("CONTENT-LENGTH :  +9 \n"), HeaderLine::ContentLength(9));
    assert_eq!(read_header_line("Content-Type: application/vscode-jsonrpc\r\n"), HeaderLine::Other);
    assert_eq!(read_header_line("\r\n"), HeaderLine::Blank);
    assert_eq!(read_header_line("\n"), HeaderLine::Blank);
    assert_eq!(read_header_line(""), HeaderLine::Blank);
    assert_eq!(read_header_line("no separator\r\n"), HeaderLine::Invalid);
    assert_eq!(read_header_line("Content-Length: ten\r\n"), HeaderLine::Invalid);
    assert_eq!(read_header_line("Content-Length: 18446744073709551616\r\n"), HeaderLine::Invalid);
}

#[test]
fn reading_a_header_block() {
    assert!(matches!(header_step(None, HeaderLine::ContentLength(5)), HeaderStep::Continue(Some(5))));
    assert!(matches!(header_step(Some(5), HeaderLine::Other), HeaderStep::Continue(Some(5))));
    assert!(matches!(header_step(Some(5), HeaderLine::ContentLength(6)), HeaderStep::Continue(Some(6))));
    assert!(matches!(header_step(Some(5), HeaderLine::Blank), HeaderStep::Body(5)));
    match header_step(None, HeaderLine::Blank) {
        HeaderStep::Failed(CopilotError::Protocol(m)) => assert_eq!(m, "Missing Content-Length header"),
        _ => panic!("expected a failure"),
    }
    match header_step(Some(1), HeaderLine::Invalid) {
        HeaderStep::Failed(CopilotError::Protocol(m)) => assert_eq!(m, "Invalid message header"),
        _ => panic!("expected a failure"),
    }
}

#[test]
fn outgoing_messages() {
    let req = request_message(3, "ping", Some(parse(r#"{"message":"hi"}"#)));
    assert_eq!(json_text(&req), r#"{"id":3,"jsonrpc":"2.0","method":"ping","params":{"message":"hi"}}"#);
    assert_eq!(req.get_str("jsonrpc"), Some("2.0"));
    assert_eq!(req.get_u64("id"), Some(3));
    assert_eq!(req.get_str("method"), Some("ping"));
    let bare = request_message(4, "status.get", None);
    assert!(bare.get("params").is_none());
    assert_eq!(json_text(&bare), r#"{"id":4,"jsonrpc":"2.0","method":"status.get"}"#);
    let ok = result_message(Json::Number(JsonNumber::PosInt(7)), Json::Bool(true));
    assert_eq!(json_text(&ok), r#"{"id":7,"jsonrpc":"2.0","result":true}"#);
    let err = error_message(Json::string("a"), -32601, "Unknown method: x");
    assert_eq!(
        json_text(&err),
        r#"{"error":{"code":-32601,"message":"Unknown method: x"},"id":"a","jsonrpc":"2.0"}"#
    );
}

#[test]
fn incoming_messages() {
    match classify_message(&parse(r#"{"jsonrpc":"2.0","id":"r1","method":"tool.call","params":{"a":1}}"#)) {
        IncomingMessage::Request { id, method, params } => {
            assert_eq!(id.as_str(), Some("r1"));
            assert_eq!(method, "tool.call");
            assert_eq!(params.get_u64("a"), Some(1));
        }
        other => panic!("unexpected {:?}", other),
    }
    match classify_message(&parse(r#"{"jsonrpc":"2.0","method":"session.event"}"#)) {
        IncomingMessage::Notification { method, params } => {
            assert_eq!(method, "session.event");
            assert!(params.is_null());
        }
        other => panic!("unexpected {:?}", other),
    }
    match classify_message(&parse(r#"{"jsonrpc":"2.0","id":9,"result":{"ok":true}}"#)) {
        IncomingMessage::Response { id: 9, result: Ok(v) } => assert_eq!(v.get_bool("ok"), Some(true)),
        other => panic!("unexpected {:?}", other),
    }
    match classify_message(&parse(r#"{"jsonrpc":"2.0","id":10,"error":{"code":-32000,"message":"boom","data":[1]}}"#)) {
        IncomingMessage::Response { id: 10, result: Err(CopilotError::JsonRpc { code, message, data }) } => {
            assert_eq!(code, -32000);
            assert_eq!(message, "boom");
            assert!(data.is_some());
        }
        other => panic!("unexpected {:?}", other),
    }
    match classify_message(&parse(r#"{"id":11,"error":{"code":99999999999}}"#)) {
        IncomingMessage::Response { result: Err(CopilotError::JsonRpc { code, message, data }), .. } => {
            assert_eq!(code, -32603);
            assert_eq!(message, "");
            assert!(data.is_none());
        }
        other => panic!("unexpected {:?}", other),
    }
    assert!(matches!(classify_message(&parse(r#"{"id":"x"}"#)), IncomingMessage::Invalid));
}
