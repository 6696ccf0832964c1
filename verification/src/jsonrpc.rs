//! JSON-RPC 2.0 as the CLI speaks it: messages framed by a `Content-Length` header, the
//! requests this client sends, and how a message that arrives is read (a response to a
//! request of ours, a request from the server, or a notification).

use crate::client::{ext_is, ext_matches};
use crate::config::{int_json, int_view};
use crate::error::CopilotError;
use crate::json::{opt_view, push_field, push_opt, push_opt_field, view_entries, Json, JsonView, NumberView};
use crate::session::obj;
use crate::text::{
    decimal, first_index_of, from_chars, parse_u64, parse_u64_spec, push_str, string_of, to_chars,
    trim, trim_chars, u64_text,
};
use vstd::prelude::*;

verus! {

// =============================================================================
// Framing
// =============================================================================

/// The header that precedes a message body of `len` bytes.
pub open spec fn frame_header_spec(len: nat) -> Seq<char> {
    "Content-Length: "@ + decimal(len) + "\r\n\r\n"@
}

/// The header to write before a message body of `body_len` bytes.
pub fn frame_header(body_len: usize) -> (r: String)
    ensures
        r@ == frame_header_spec(body_len as nat),
{
    let mut h = string_of("Content-Length: ");
    let n = u64_text(body_len as u64);
    push_str(&mut h, n.as_str());
    push_str(&mut h, "\r\n\r\n");
    h
}

/// A line of a message's header block.
#[derive(Debug, Clone, Copy, PartialEq, Eq, Structural)]
pub enum HeaderLine {
    /// The empty line that ends the header block.
    Blank,
    /// `Content-Length: <n>`.
    ContentLength(u64),
    /// Another header, which is ignored.
    Other,
    /// A line that is no header: no `:`, or a `Content-Length` that is no number.
    Invalid,
}

/// A line without its line ending (`\n`, then a `\r` before it).
pub open spec fn line_body(line: Seq<char>) -> Seq<char> {
    let a = if line.len() > 0 && line.last() == '\n' {
        line.drop_last()
    } else {
        line
    };
    if a.len() > 0 && a.last() == '\r' {
        a.drop_last()
    } else {
        a
    }
}

/// How a header line reads: the name before the first `:` is compared without ASCII case
/// and around white space, the value after it is trimmed.
pub open spec fn header_line_spec(line: Seq<char>) -> HeaderLine {
    let b = line_body(line);
    if b.len() == 0 {
        HeaderLine::Blank
    } else {
        match first_index_of(b, ':') {
            None => HeaderLine::Invalid,
            Some(k) => if ext_is(Some(trim(b.take(k))), "content-length"@) {
                match parse_u64_spec(trim(b.skip(k + 1))) {
                    Some(n) => HeaderLine::ContentLength(n),
                    None => HeaderLine::Invalid,
                }
            } else {
                HeaderLine::Other
            },
        }
    }
}

/// Reads a header line as it was read from the stream, with or without its line ending.
pub fn read_header_line(line: &str) -> (r: HeaderLine)
    ensures
        r == header_line_spec(line@),
{
    let mut cs = to_chars(line);
    if cs.len() > 0 && cs[cs.len() - 1] == '\n' {
        cs.pop();
    }
    if cs.len() > 0 && cs[cs.len() - 1] == '\r' {
        cs.pop();
    }
    assert(cs@ =~= line_body(line@));
    if cs.len() == 0 {
        return HeaderLine::Blank;
    }
    let k = match crate::text::find_char(cs.as_slice(), ':') {
        Some(k) => k,
        None => return HeaderLine::Invalid,
    };
    let mut name: Vec<char> = Vec::new();
    let mut i: usize = 0;
    while i < k
        invariant
            0 <= i <= k < cs@.len(),
            name@ =~= cs@.take(i as int),
        decreases k - i,
    {
        name.push(cs[i]);
        i = i + 1;
    }
    let mut value: Vec<char> = Vec::new();
    let mut j: usize = k + 1;
    while j < cs.len()
        invariant
            k + 1 <= j <= cs@.len(),
            value@ =~= cs@.subrange(k + 1, j as int),
        decreases cs.len() - j,
    {
        value.push(cs[j]);
        j = j + 1;
    }
    assert(value@ =~= cs@.skip(k + 1));
    let name_t = from_chars(trim_chars(name.as_slice()).as_slice());
    if !ext_matches(Some(name_t.as_str()), "content-length") {
        return HeaderLine::Other;
    }
    match parse_u64(trim_chars(value.as_slice()).as_slice()) {
        Some(n) => HeaderLine::ContentLength(n),
        None => HeaderLine::Invalid,
    }
}

/// Where reading a header block stands after a line.
#[derive(Debug)]
pub enum HeaderStep {
    /// Read the next line; the length seen so far, if any.
    Continue(Option<u64>),
    /// The header block has ended: read a body of this many bytes.
    Body(u64),
    /// The header block is malformed.
    Failed(CopilotError),
}

/// The next step of reading a header block, given the length seen so far and the line
/// just read: the blank line ends the block, which needs a length; a later
/// `Content-Length` replaces an earlier one; other headers are skipped.
pub fn header_step(length: Option<u64>, line: HeaderLine) -> (r: HeaderStep)
    ensures
        match line {
            HeaderLine::Blank => match length {
                Some(n) => r matches HeaderStep::Body(m) && m == n,
                None => r matches HeaderStep::Failed(CopilotError::Protocol(m)) && m@
                    == "Missing Content-Length header"@,
            },
            HeaderLine::ContentLength(n) => r matches HeaderStep::Continue(l) && l == Some(n),
            HeaderLine::Other => r matches HeaderStep::Continue(l) && l == length,
            HeaderLine::Invalid => r matches HeaderStep::Failed(CopilotError::Protocol(m)) && m@
                == "Invalid message header"@,
        },
{
    match line {
        HeaderLine::Blank => match length {
            Some(n) => HeaderStep::Body(n),
            None => HeaderStep::Failed(
                CopilotError::Protocol(string_of("Missing Content-Length header")),
            ),
        },
        HeaderLine::ContentLength(n) => HeaderStep::Continue(Some(n)),
        HeaderLine::Other => HeaderStep::Continue(length),
        HeaderLine::Invalid => HeaderStep::Failed(
            CopilotError::Protocol(string_of("Invalid message header")),
        ),
    }
}

// =============================================================================
// Messages
// =============================================================================

/// A request: `{"jsonrpc": "2.0", "id", "method", "params"}`, `params` left out when none.
pub open spec fn request_spec(id: u64, method: Seq<char>, params: Option<JsonView>) -> JsonView {
    obj(
        push_opt(
            seq![
                ("jsonrpc"@, JsonView::Str("2.0"@)),
                ("id"@, JsonView::Number(NumberView::PosInt(id))),
                ("method"@, JsonView::Str(method)),
            ],
            "params"@,
            params,
        ),
    )
}

/// The request `method` with `params`, numbered `id`.
pub fn request_message(id: u64, method: &str, params: Option<Json>) -> (r: Json)
    ensures
        r@ == request_spec(id, method@, opt_view(params)),
{
    let mut es: Vec<(String, Json)> = Vec::new();
    assert(view_entries(es@) =~= Seq::empty());
    push_field(&mut es, "jsonrpc", Json::string("2.0"));
    push_field(&mut es, "id", Json::Number(crate::json::JsonNumber::PosInt(id)));
    push_field(&mut es, "method", Json::string(method));
    push_opt_field(&mut es, "params", params);
    assert(view_entries(es@) =~= request_spec(id, method@, opt_view(params))->Object_0);
    Json::Object(es)
}

/// The reply `{"jsonrpc": "2.0", "id", "result"}` to the request numbered `id`.
pub fn result_message(id: Json, result: Json) -> (r: Json)
    ensures
        r@ == obj(
            seq![("jsonrpc"@, JsonView::Str("2.0"@)), ("id"@, id@), ("result"@, result@)],
        ),
{
    let ghost i = id@;
    let ghost v = result@;
    let mut es: Vec<(String, Json)> = Vec::new();
    assert(view_entries(es@) =~= Seq::empty());
    push_field(&mut es, "jsonrpc", Json::string("2.0"));
    push_field(&mut es, "id", id);
    push_field(&mut es, "result", result);
    assert(view_entries(es@) =~= seq![
        ("jsonrpc"@, JsonView::Str("2.0"@)),
        ("id"@, i),
        ("result"@, v),
    ]);
    Json::Object(es)
}

/// The error reply `{"jsonrpc": "2.0", "id", "error": {"code", "message"}}` to the request
/// numbered `id`.
pub fn error_message(id: Json, code: i64, message: &str) -> (r: Json)
    ensures
        r@ == obj(
            seq![
                ("jsonrpc"@, JsonView::Str("2.0"@)),
                ("id"@, id@),
                (
                    "error"@,
                    obj(seq![("code"@, int_view(code)), ("message"@, JsonView::Str(message@))]),
                ),
            ],
        ),
{
    let ghost i = id@;
    let mut err: Vec<(String, Json)> = Vec::new();
    assert(view_entries(err@) =~= Seq::empty());
    push_field(&mut err, "code", int_json(code));
    push_field(&mut err, "message", Json::string(message));
    let mut es: Vec<(String, Json)> = Vec::new();
    assert(view_entries(es@) =~= Seq::empty());
    push_field(&mut es, "jsonrpc", Json::string("2.0"));
    push_field(&mut es, "id", id);
    let ghost e = view_entries(err@);
    push_field(&mut es, "error", Json::Object(err));
    assert(e =~= seq![("code"@, int_view(code)), ("message"@, JsonView::Str(message@))]);
    assert(view_entries(es@) =~= seq![
        ("jsonrpc"@, JsonView::Str("2.0"@)),
        ("id"@, i),
        ("error"@, obj(e)),
    ]);
    Json::Object(es)
}

/// A message that arrived from the server.
#[derive(Debug)]
pub enum IncomingMessage {
    /// The reply to our request `id`: its result, or the error it carries.
    Response { id: u64, result: Result<Json, CopilotError> },
    /// A request the server makes of us, to be answered under `id`.
    Request { id: Json, method: String, params: Json },
    /// A notification from the server.
    Notification { method: String, params: Json },
    /// Neither: no `method` and no numeric `id`.
    Invalid,
}

/// A member, `null` when missing.
pub open spec fn member_or_null(v: JsonView, key: Seq<char>) -> JsonView {
    match v.get(key) {
        Some(x) => x,
        None => JsonView::Null,
    }
}

/// The code of an error object: its `code` when that is an `i32`, else the JSON-RPC
/// internal error `-32603`.
pub open spec fn error_code_spec(e: JsonView) -> i32 {
    match e.get_i64("code"@) {
        Some(c) => if i32::MIN <= c <= i32::MAX {
            c as i32
        } else {
            -32603i32
        },
        None => -32603i32,
    }
}

/// The error a response carries: its code, its message (empty when missing) and its data.
pub open spec fn response_error(e: JsonView, err: CopilotError) -> bool {
    err matches CopilotError::JsonRpc { code, message, data } && code == error_code_spec(e)
        && message@ == (match e.get_str("message"@) {
        Some(m) => m,
        None => Seq::empty(),
    }) && opt_view(data) == e.get("data"@)
}

/// A member, copied; `null` when missing.
fn member_or_null_exec(v: &Json, key: &str) -> (r: Json)
    ensures
        r@ == member_or_null(v@, key@),
{
    match v.get(key) {
        Some(x) => x.deep_clone(),
        None => Json::Null,
    }
}

/// Reads a message that arrived: one with a `method` is a request when it has an `id` and
/// a notification otherwise; one without, but with a numeric `id`, is the response to that
/// request, an error when it has an `error` member.
pub fn classify_message(v: &Json) -> (r: IncomingMessage)
    ensures
        match r {
            IncomingMessage::Request { id, method, params } => v@.get_str("method"@) == Some(
                method@,
            ) && v@.get("id"@) == Some(id@) && params@ == member_or_null(v@, "params"@),
            IncomingMessage::Notification { method, params } => v@.get_str("method"@) == Some(
                method@,
            ) && v@.get("id"@) is None && params@ == member_or_null(v@, "params"@),
            IncomingMessage::Response { id, result } => v@.get_str("method"@) is None
                && v@.get_u64("id"@) == Some(id) && match result {
                Ok(x) => v@.get("error"@) is None && x@ == member_or_null(v@, "result"@),
                Err(e) => v@.get("error"@) matches Some(ev) && response_error(ev, e),
            },
            IncomingMessage::Invalid => v@.get_str("method"@) is None && v@.get_u64("id"@) is None,
        },
{
    if let Some(m) = v.get_str("method") {
        let method = string_of(m);
        let params = member_or_null_exec(v, "params");
        return match v.get("id") {
            Some(id) => IncomingMessage::Request { id: id.deep_clone(), method, params },
            None => IncomingMessage::Notification { method, params },
        };
    }
    let id = match v.get_u64("id") {
        Some(id) => id,
        None => return IncomingMessage::Invalid,
    };
    match v.get("error") {
        Some(e) => {
            let code: i32 = match e.get_i64("code") {
                Some(c) => if -2147483648 <= c && c <= 2147483647 {
                    c as i32
                } else {
                    -32603
                },
                None => -32603,
            };
            let message = match e.get_str("message") {
                Some(m) => string_of(m),
                None => String::new(),
            };
            let data = match e.get("data") {
                Some(d) => Some(d.deep_clone()),
                None => None,
            };
            IncomingMessage::Response {
                id,
                result: Err(CopilotError::JsonRpc { code, message, data }),
            }
        },
        None => IncomingMessage::Response { id, result: Ok(member_or_null_exec(v, "result")) },
    }
}

} // verus!
