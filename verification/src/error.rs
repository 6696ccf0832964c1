//! Error types of the library.

use crate::json::Json;
use crate::text::{decimal, push_str, signed_decimal, i64_text, string_of, u64_text};
use vstd::prelude::*;

verus! {

#[verifier::external_type_specification]
#[verifier::external_body]
pub struct ExIoError(std::io::Error);

#[verifier::external_type_specification]
#[verifier::external_body]
pub struct ExSerdeJsonError(serde_json::Error);

/// Main error type of the library.
#[derive(Debug)]
pub enum CopilotError {
    /// Transport/IO error.
    Transport(std::io::Error),
    /// Connection was closed unexpectedly.
    ConnectionClosed,
    /// Client is not connected.
    NotConnected,
    /// JSON-RPC error from the server.
    JsonRpc { code: i32, message: String, data: Option<Json> },
    /// The server speaks another protocol version.
    ProtocolMismatch { expected: u32, actual: u32 },
    /// Protocol error (framing, invalid messages, etc.).
    Protocol(String),
    /// JSON serialization/deserialization error.
    Json(serde_json::Error),
    /// Request timed out.
    Timeout(core::time::Duration),
    /// Session not found.
    SessionNotFound(String),
    /// Session was already destroyed.
    SessionDestroyed,
    /// Invalid configuration.
    InvalidConfig(String),
    /// Failed to start the CLI process.
    ProcessStart(std::io::Error),
    /// The CLI process exited unexpectedly.
    ProcessExit(Option<i32>),
    /// Port detection failed in TCP mode.
    PortDetectionFailed,
    /// The client is shutting down.
    Shutdown,
    /// Tool not found.
    ToolNotFound(String),
    /// Tool execution error.
    ToolError(String),
    /// Permission denied.
    PermissionDenied(String),
    /// Internal channel error.
    ChannelError,
}

/// The text of an IO error (`std::io::Error`'s `Display`).
#[verifier::external_body]
fn io_error_text(e: &std::io::Error) -> String {
    format!("{}", e)
}

/// The text of a JSON error (`serde_json::Error`'s `Display`).
#[verifier::external_body]
fn json_error_text(e: &serde_json::Error) -> String {
    format!("{}", e)
}

/// The debug text of a duration (`Duration`'s `Debug`).
#[verifier::external_body]
fn duration_text(d: &core::time::Duration) -> String {
    format!("{:?}", d)
}

/// The message of an error whose payload is plain data, `None` for the others.
pub open spec fn plain_message(e: CopilotError) -> Option<Seq<char>> {
    match e {
        CopilotError::ConnectionClosed => Some("Connection closed"@),
        CopilotError::NotConnected => Some("Not connected"@),
        CopilotError::JsonRpc { code, message, data } => Some(
            "JSON-RPC error "@ + signed_decimal(code as int) + ": "@ + message@,
        ),
        CopilotError::ProtocolMismatch { expected, actual } => Some(
            "Protocol version mismatch: expected "@ + decimal(expected as nat) + ", got "@
                + decimal(actual as nat),
        ),
        CopilotError::Protocol(m) => Some("Protocol error: "@ + m@),
        CopilotError::SessionNotFound(m) => Some("Session not found: "@ + m@),
        CopilotError::SessionDestroyed => Some("Session already destroyed"@),
        CopilotError::InvalidConfig(m) => Some("Invalid configuration: "@ + m@),
        CopilotError::ProcessExit(None) => Some("CLI exited unexpectedly with code None"@),
        CopilotError::ProcessExit(Some(c)) => Some(
            "CLI exited unexpectedly with code Some("@ + signed_decimal(c as int) + ")"@,
        ),
        CopilotError::PortDetectionFailed => Some("Failed to detect CLI server port"@),
        CopilotError::Shutdown => Some("Client is shutting down"@),
        CopilotError::ToolNotFound(m) => Some("Tool not found: "@ + m@),
        CopilotError::ToolError(m) => Some("Tool execution error: "@ + m@),
        CopilotError::PermissionDenied(m) => Some("Permission denied: "@ + m@),
        CopilotError::ChannelError => Some("Internal channel error"@),
        _ => None,
    }
}

/// The prefix that the message of an error with an outside payload starts with.
pub open spec fn message_prefix(e: CopilotError) -> Seq<char> {
    match e {
        CopilotError::Transport(_) => "Transport error: "@,
        CopilotError::Json(_) => "JSON error: "@,
        CopilotError::Timeout(_) => "Request timed out after "@,
        CopilotError::ProcessStart(_) => "Failed to start CLI: "@,
        _ => Seq::empty(),
    }
}

/// Whether `m` is the message of `e`: exactly the plain message where there is one, else
/// text that starts with the prefix of its kind and goes on with its payload's own text.
pub open spec fn is_message_of(e: CopilotError, m: Seq<char>) -> bool {
    match plain_message(e) {
        Some(p) => m == p,
        None => m.len() >= message_prefix(e).len() && m.take(message_prefix(e).len() as int)
            == message_prefix(e),
    }
}

/// Whether an error means the connection can no longer be used.
pub open spec fn is_fatal_spec(e: CopilotError) -> bool {
    ||| e is ConnectionClosed
    ||| e is ProcessExit
    ||| e is Shutdown
    ||| e is ProtocolMismatch
}

fn lit(s: &str) -> (r: String)
    ensures
        r@ == s@,
{
    string_of(s)
}

impl CopilotError {
    /// Create a JSON-RPC error from its parts.
    pub fn json_rpc(code: i32, message: &str, data: Option<Json>) -> (r: CopilotError)
        ensures
            r matches CopilotError::JsonRpc { code: c, message: m, data: d } && c == code && m@
                == message@ && d == data,
    {
        CopilotError::JsonRpc { code, message: string_of(message), data }
    }

    /// Create an invalid configuration error.
    pub fn invalid_config(msg: &str) -> (r: CopilotError)
        ensures
            r matches CopilotError::InvalidConfig(m) && m@ == msg@,
    {
        CopilotError::InvalidConfig(string_of(msg))
    }

    /// Returns true if this error means the connection is no longer usable.
    pub fn is_fatal(&self) -> (r: bool)
        ensures
            r == is_fatal_spec(*self),
    {
        match self {
            CopilotError::ConnectionClosed => true,
            CopilotError::ProcessExit(_) => true,
            CopilotError::Shutdown => true,
            CopilotError::ProtocolMismatch { .. } => true,
            _ => false,
        }
    }

    /// The human-readable message of this error (its `Display` text).
    pub fn message(&self) -> (r: String)
        ensures
            is_message_of(*self, r@),
    {
        match self {
            CopilotError::Transport(e) => {
                let mut s = lit("Transport error: ");
                let t = io_error_text(e);
                push_str(&mut s, t.as_str());
                proof { reveal_strlit("Transport error: "); }
                assert(s@.take(17) =~= "Transport error: "@);
                s
            },
            CopilotError::ConnectionClosed => lit("Connection closed"),
            CopilotError::NotConnected => lit("Not connected"),
            CopilotError::JsonRpc { code, message, .. } => {
                let mut s = lit("JSON-RPC error ");
                let c = i64_text(*code as i64);
                push_str(&mut s, c.as_str());
                push_str(&mut s, ": ");
                push_str(&mut s, message.as_str());
                s
            },
            CopilotError::ProtocolMismatch { expected, actual } => {
                let mut s = lit("Protocol version mismatch: expected ");
                let e = u64_text(*expected as u64);
                push_str(&mut s, e.as_str());
                push_str(&mut s, ", got ");
                let a = u64_text(*actual as u64);
                push_str(&mut s, a.as_str());
                s
            },
            CopilotError::Protocol(m) => {
                let mut s = lit("Protocol error: ");
                push_str(&mut s, m.as_str());
                s
            },
            CopilotError::Json(e) => {
                let mut s = lit("JSON error: ");
                let t = json_error_text(e);
                push_str(&mut s, t.as_str());
                proof { reveal_strlit("JSON error: "); }
                assert(s@.take(12) =~= "JSON error: "@);
                s
            },
            CopilotError::Timeout(d) => {
                let mut s = lit("Request timed out after ");
                let t = duration_text(d);
                push_str(&mut s, t.as_str());
                proof { reveal_strlit("Request timed out after "); }
                assert(s@.take(24) =~= "Request timed out after "@);
                s
            },
            CopilotError::SessionNotFound(m) => {
                let mut s = lit("Session not found: ");
                push_str(&mut s, m.as_str());
                s
            },
            CopilotError::SessionDestroyed => lit("Session already destroyed"),
            CopilotError::InvalidConfig(m) => {
                let mut s = lit("Invalid configuration: ");
                push_str(&mut s, m.as_str());
                s
            },
            CopilotError::ProcessStart(e) => {
                let mut s = lit("Failed to start CLI: ");
                let t = io_error_text(e);
                push_str(&mut s, t.as_str());
                proof { reveal_strlit("Failed to start CLI: "); }
                assert(s@.take(21) =~= "Failed to start CLI: "@);
                s
            },
            CopilotError::ProcessExit(code) => match code {
                None => lit("CLI exited unexpectedly with code None"),
                Some(c) => {
                    let mut s = lit("CLI exited unexpectedly with code Some(");
                    let t = i64_text(*c as i64);
                    push_str(&mut s, t.as_str());
                    push_str(&mut s, ")");
                    s
                },
            },
            CopilotError::PortDetectionFailed => lit("Failed to detect CLI server port"),
            CopilotError::Shutdown => lit("Client is shutting down"),
            CopilotError::ToolNotFound(m) => {
                let mut s = lit("Tool not found: ");
                push_str(&mut s, m.as_str());
                s
            },
            CopilotError::ToolError(m) => {
                let mut s = lit("Tool execution error: ");
                push_str(&mut s, m.as_str());
                s
            },
            CopilotError::PermissionDenied(m) => {
                let mut s = lit("Permission denied: ");
                push_str(&mut s, m.as_str());
                s
            },
            CopilotError::ChannelError => lit("Internal channel error"),
        }
    }
}

#[verifier::external_type_specification]
#[verifier::external_body]
pub struct ExOneshotRecvError(tokio::sync::oneshot::error::RecvError);

/// A reply channel that closed before answering means the connection closed.
impl From<tokio::sync::oneshot::error::RecvError> for CopilotError {
    fn from(_e: tokio::sync::oneshot::error::RecvError) -> (r: CopilotError)
        ensures
            r is ConnectionClosed,
    {
        CopilotError::ConnectionClosed
    }
}

impl vstd::std_specs::convert::FromSpecImpl<tokio::sync::oneshot::error::RecvError> for CopilotError {
    open spec fn obeys_from_spec() -> bool {
        true
    }

    open spec fn from_spec(_e: tokio::sync::oneshot::error::RecvError) -> CopilotError {
        CopilotError::ConnectionClosed
    }
}

} // verus!
