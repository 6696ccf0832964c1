use copilot_sdk::error::CopilotError;
use std::time::Duration;

#[test]
fn test_error_display() {
    let err = CopilotError::ProtocolMismatch {
        expected: 1,
        actual: 2,
    };
    assert_eq!(err.message(), "Protocol version mismatch: expected 1, got 2");
}

#[test]
fn test_is_fatal() {
    assert!(CopilotError::ConnectionClosed.is_fatal());
    assert!(CopilotError::Shutdown.is_fatal());
    assert!(!CopilotError::Timeout(Duration::from_secs(30)).is_fatal());
}

#[test]
fn error_messages() {
    assert_eq!(CopilotError::NotConnected.message(), "Not connected");
    assert_eq!(
        CopilotError::json_rpc(-32601, "nope", None).message(),
        "JSON-RPC error -32601: nope"
    );
    assert_eq!(
        CopilotError::invalid_config("bad").message(),
        "Invalid configuration: bad"
    );
    assert_eq!(
        CopilotError::ProcessExit(Some(-1)).message(),
        "CLI exited unexpectedly with code Some(-1)"
    );
    assert_eq!(
        CopilotError::ProcessExit(None).message(),
        "CLI exited unexpectedly with code None"
    );
    assert!(CopilotError::Timeout(Duration::from_secs(15))
        .message()
        .starts_with("Request timed out after "));
    assert_eq!(
        CopilotError::ToolNotFound("x".into()).message(),
        "Tool not found: x"
    );
}

#[test]
fn fatal_errors_are_exactly_the_four() {
    assert!(CopilotError::ProcessExit(Some(1)).is_fatal());
    assert!(CopilotError::ProtocolMismatch { expected: 1, actual: 3 }.is_fatal());
    assert!(!CopilotError::NotConnected.is_fatal());
    assert!(!CopilotError::Protocol("x".into()).is_fatal());
}
