//! Core data types: connection states, tool results, permissions and configuration,
//! with their JSON wire forms.

use crate::json::{
    decode_optional_str, decode_required_str, json_view, lemma_assoc_get_push_opt,
    lemma_view_array, members_json, opt_str_view, opt_string_json, opt_string_view, push_field,
    push_opt, push_opt_field, values_json, view_array, view_entries, Json, JsonView,
};
use crate::registry::{assoc_get, lemma_assoc_get_push, Registry};
use crate::text::string_of;
use vstd::prelude::*;

verus! {

/// The protocol version that this library speaks.
pub const SDK_PROTOCOL_VERSION: u32 = 1;

/// Connection state of the client.
#[derive(Debug, Clone, Copy, PartialEq, Eq, Structural)]
pub enum ConnectionState {
    Disconnected,
    Connecting,
    Connected,
    Error,
}

impl Default for ConnectionState {
    fn default() -> (r: ConnectionState)
        ensures
            r == ConnectionState::Disconnected,
    {
        ConnectionState::Disconnected
    }
}

/// System message mode for session configuration.
#[derive(Debug, Clone, Copy, PartialEq, Eq, Structural)]
pub enum SystemMessageMode {
    Append,
    Replace,
}

impl SystemMessageMode {
    pub open spec fn wire_spec(self) -> Seq<char> {
        match self {
            SystemMessageMode::Append => "append"@,
            SystemMessageMode::Replace => "replace"@,
        }
    }

    /// The wire name (lower case).
    pub fn wire(&self) -> (r: String)
        ensures
            r@ == self.wire_spec(),
    {
        match self {
            SystemMessageMode::Append => string_of("append"),
            SystemMessageMode::Replace => string_of("replace"),
        }
    }
}

/// Attachment type for user messages.
#[derive(Debug, Clone, Copy, PartialEq, Eq, Structural)]
pub enum AttachmentType {
    File,
    Directory,
}

impl AttachmentType {
    pub open spec fn wire_spec(self) -> Seq<char> {
        match self {
            AttachmentType::File => "file"@,
            AttachmentType::Directory => "directory"@,
        }
    }

    /// The wire name (lower case).
    pub fn wire(&self) -> (r: String)
        ensures
            r@ == self.wire_spec(),
    {
        match self {
            AttachmentType::File => string_of("file"),
            AttachmentType::Directory => string_of("directory"),
        }
    }
}

/// Log level for the CLI.
#[derive(Debug, Clone, Copy, PartialEq, Eq, Structural)]
pub enum LogLevel {
    Debug,
    Info,
    Warn,
    Error,
}

impl Default for LogLevel {
    fn default() -> (r: LogLevel)
        ensures
            r == LogLevel::Info,
    {
        LogLevel::Info
    }
}

impl LogLevel {
    pub open spec fn text_spec(self) -> Seq<char> {
        match self {
            LogLevel::Debug => "debug"@,
            LogLevel::Info => "info"@,
            LogLevel::Warn => "warn"@,
            LogLevel::Error => "error"@,
        }
    }

    /// The level's name as the CLI's `--log-level` takes it (its `Display` text).
    pub fn to_string(&self) -> (r: String)
        ensures
            r@ == self.text_spec(),
    {
        match self {
            LogLevel::Debug => string_of("debug"),
            LogLevel::Info => string_of("info"),
            LogLevel::Warn => string_of("warn"),
            LogLevel::Error => string_of("error"),
        }
    }
}

// =============================================================================
// Tool results
// =============================================================================

/// Binary result from a tool execution.
#[derive(Debug, Clone)]
pub struct ToolBinaryResult {
    pub data: String,
    pub mime_type: String,
    pub result_type: String,
    pub description: Option<String>,
}

/// The mathematical view of a [`ToolBinaryResult`].
pub struct BinaryView {
    pub data: Seq<char>,
    pub mime_type: Seq<char>,
    pub result_type: Seq<char>,
    pub description: Option<Seq<char>>,
}

impl View for ToolBinaryResult {
    type V = BinaryView;

    open spec fn view(&self) -> BinaryView {
        BinaryView {
            data: self.data@,
            mime_type: self.mime_type@,
            result_type: self.result_type@,
            description: opt_string_view(self.description),
        }
    }
}

/// The wire form of a binary result: `{data, mimeType, type, description?}`.
pub open spec fn binary_wire(b: BinaryView) -> JsonView {
    JsonView::Object(
        push_opt(
            seq![
                ("data"@, JsonView::Str(b.data)),
                ("mimeType"@, JsonView::Str(b.mime_type)),
                ("type"@, JsonView::Str(b.result_type)),
            ],
            "description"@,
            opt_str_view(b.description),
        ),
    )
}

/// What a JSON value decodes to as a binary result: all three strings present, the
/// description absent, null or a string.
pub open spec fn decode_binary(v: JsonView) -> Option<BinaryView> {
    if v is Object && decode_required_str(v.get("data"@)) is Some && decode_required_str(
        v.get("mimeType"@),
    ) is Some && decode_required_str(v.get("type"@)) is Some && decode_optional_str(
        v.get("description"@),
    ) is Some {
        Some(
            BinaryView {
                data: decode_required_str(v.get("data"@))->0,
                mime_type: decode_required_str(v.get("mimeType"@))->0,
                result_type: decode_required_str(v.get("type"@))->0,
                description: decode_optional_str(v.get("description"@))->0,
            },
        )
    } else {
        None
    }
}

/// What a JSON array decodes to as binary results: each element decoded, or `None` when one
/// fails.
pub open spec fn decode_binaries(s: Seq<JsonView>) -> Option<Seq<BinaryView>>
    decreases s.len(),
{
    if s.len() == 0 {
        Some(Seq::empty())
    } else {
        match (decode_binaries(s.drop_last()), decode_binary(s.last())) {
            (Some(bs), Some(b)) => Some(bs.push(b)),
            _ => None,
        }
    }
}

impl ToolBinaryResult {
    pub fn to_json(&self) -> (r: Json)
        ensures
            r@ == binary_wire(self@),
    {
        let mut es: Vec<(String, Json)> = Vec::new();
        assert(view_entries(es@) =~= Seq::empty());
        push_field(&mut es, "data", Json::Str(self.data.clone()));
        push_field(&mut es, "mimeType", Json::Str(self.mime_type.clone()));
        push_field(&mut es, "type", Json::Str(self.result_type.clone()));
        assert(view_entries(es@) =~= seq![
            ("data"@, JsonView::Str(self.data@)),
            ("mimeType"@, JsonView::Str(self.mime_type@)),
            ("type"@, JsonView::Str(self.result_type@)),
        ]);
        push_opt_field(&mut es, "description", opt_string_json(&self.description));
        Json::Object(es)
    }

    /// Decodes the wire form; `None` when it is not an object or a field has the wrong shape.
    pub fn from_json(v: &Json) -> (r: Option<ToolBinaryResult>)
        ensures
            r matches Some(b) ==> decode_binary(v@) == Some(b@),
            r is None ==> decode_binary(v@) is None,
    {
        if !v.is_object() {
            return None;
        }
        let data = v.required_str_field("data")?;
        let mime_type = v.required_str_field("mimeType")?;
        let result_type = v.required_str_field("type")?;
        let description = v.optional_str_field("description")?;
        Some(ToolBinaryResult { data, mime_type, result_type, description })
    }
}

/// Result object returned from a tool execution.
#[derive(Debug, Clone)]
pub struct ToolResultObject {
    pub text_result_for_llm: String,
    pub binary_results_for_llm: Option<Vec<ToolBinaryResult>>,
    pub result_type: String,
    pub error: Option<String>,
    pub session_log: Option<String>,
    pub tool_telemetry: Option<Vec<(String, Json)>>,
}

/// Convenient alias for tool results.
pub type ToolResult = ToolResultObject;

/// The mathematical view of a [`ToolResultObject`].
pub struct ToolResultView {
    pub text: Seq<char>,
    pub binaries: Option<Seq<BinaryView>>,
    pub result_type: Seq<char>,
    pub error: Option<Seq<char>>,
    pub session_log: Option<Seq<char>>,
    pub telemetry: Option<Seq<(Seq<char>, JsonView)>>,
}

pub open spec fn binaries_seq_view(v: Seq<ToolBinaryResult>) -> Seq<BinaryView> {
    Seq::new(v.len(), |i: int| v[i]@)
}

impl View for ToolResultObject {
    type V = ToolResultView;

    open spec fn view(&self) -> ToolResultView {
        ToolResultView {
            text: self.text_result_for_llm@,
            binaries: match self.binary_results_for_llm {
                Some(b) => Some(binaries_seq_view(b@)),
                None => None,
            },
            result_type: self.result_type@,
            error: opt_string_view(self.error),
            session_log: opt_string_view(self.session_log),
            telemetry: match self.tool_telemetry {
                Some(t) => Some(view_entries(t@)),
                None => None,
            },
        }
    }
}

/// A result with only text and a result type.
pub open spec fn plain_result(text: Seq<char>, result_type: Seq<char>) -> ToolResultView {
    ToolResultView {
        text,
        binaries: None,
        result_type,
        error: None,
        session_log: None,
        telemetry: None,
    }
}

/// The wire form of a list of binary results.
pub open spec fn binaries_wire(bs: Seq<BinaryView>) -> JsonView {
    JsonView::Array(Seq::new(bs.len(), |i: int| binary_wire(bs[i])))
}

pub open spec fn opt_binaries_wire(bs: Option<Seq<BinaryView>>) -> Option<JsonView> {
    match bs {
        Some(b) => Some(binaries_wire(b)),
        None => None,
    }
}

pub open spec fn opt_object_wire(es: Option<Seq<(Seq<char>, JsonView)>>) -> Option<JsonView> {
    match es {
        Some(e) => Some(JsonView::Object(e)),
        None => None,
    }
}

/// The wire form of a tool result, members that are `None` left out.
pub open spec fn result_wire(r: ToolResultView) -> JsonView {
    JsonView::Object(
        push_opt(
            push_opt(
                push_opt(
                    push_opt(
                        seq![("textResultForLlm"@, JsonView::Str(r.text))],
                        "binaryResultsForLlm"@,
                        opt_binaries_wire(r.binaries),
                    ).push(("resultType"@, JsonView::Str(r.result_type))),
                    "error"@,
                    opt_str_view(r.error),
                ),
                "sessionLog"@,
                opt_str_view(r.session_log),
            ),
            "toolTelemetry"@,
            opt_object_wire(r.telemetry),
        ),
    )
}

/// What an optional list of binary results decodes to: `Some(None)` when absent or null,
/// `None` for a decoding error.
pub open spec fn decode_opt_binaries(f: Option<JsonView>) -> Option<Option<Seq<BinaryView>>> {
    match f {
        None => Some(None),
        Some(JsonView::Null) => Some(None),
        Some(JsonView::Array(a)) => match decode_binaries(a) {
            Some(bs) => Some(Some(bs)),
            None => None,
        },
        _ => None,
    }
}

/// What an optional map field decodes to: `Some(None)` when absent or null, `None` for a
/// decoding error.
pub open spec fn decode_opt_object(f: Option<JsonView>) -> Option<
    Option<Seq<(Seq<char>, JsonView)>>,
> {
    match f {
        None => Some(None),
        Some(JsonView::Null) => Some(None),
        Some(JsonView::Object(es)) => Some(Some(es)),
        _ => None,
    }
}

/// What a string field with a default decodes to: the default when absent.
pub open spec fn decode_defaulted_str(f: Option<JsonView>, default: Seq<char>) -> Option<
    Seq<char>,
> {
    match f {
        None => Some(default),
        Some(JsonView::Str(s)) => Some(s),
        _ => None,
    }
}

/// What a JSON object decodes to as a tool result, `None` when a member has the wrong shape.
pub open spec fn decode_tool_result(v: JsonView) -> Option<ToolResultView> {
    let text = decode_required_str(v.get("textResultForLlm"@));
    let binaries = decode_opt_binaries(v.get("binaryResultsForLlm"@));
    let result_type = decode_defaulted_str(v.get("resultType"@), "success"@);
    let error = decode_optional_str(v.get("error"@));
    let session_log = decode_optional_str(v.get("sessionLog"@));
    let telemetry = decode_opt_object(v.get("toolTelemetry"@));
    if v is Object && text is Some && binaries is Some && result_type is Some && error is Some
        && session_log is Some && telemetry is Some {
        Some(
            ToolResultView {
                text: text->0,
                binaries: binaries->0,
                result_type: result_type->0,
                error: error->0,
                session_log: session_log->0,
                telemetry: telemetry->0,
            },
        )
    } else {
        None
    }
}

/// The wire form of a binary result decodes back to it.
pub proof fn lemma_binary_wire_decodes(b: BinaryView)
    ensures
        decode_binary(binary_wire(b)) == Some(b),
{
    reveal_strlit("data");
    reveal_strlit("mimeType");
    reveal_strlit("type");
    reveal_strlit("description");
    let a = ("data"@, JsonView::Str(b.data));
    let m = ("mimeType"@, JsonView::Str(b.mime_type));
    let t = ("type"@, JsonView::Str(b.result_type));
    let e0 = Seq::<(Seq<char>, JsonView)>::empty();
    assert(seq![a, m, t] =~= e0.push(a).push(m).push(t));
    lemma_assoc_get_push(e0, a.0, a.1);
    lemma_assoc_get_push(e0.push(a), m.0, m.1);
    lemma_assoc_get_push(e0.push(a).push(m), t.0, t.1);
    lemma_assoc_get_push_opt(seq![a, m, t], "description"@, opt_str_view(b.description));
    let w = binary_wire(b);
    assert("data"@.len() == 4 && "mimeType"@.len() == 8 && "type"@.len() == 4);
    assert("data"@[0] == 'd' && "type"@[0] == 't' && "description"@.len() == 11);
    assert(assoc_get(e0, "data"@) is None);
    assert(w.get("data"@) == Some(JsonView::Str(b.data)));
    assert(w.get("mimeType"@) == Some(JsonView::Str(b.mime_type)));
    assert(w.get("type"@) == Some(JsonView::Str(b.result_type)));
    assert(w.get("description"@) == opt_str_view(b.description));
}

/// The wire form of a list of binary results decodes back to it.
pub proof fn lemma_binaries_wire_decode(bs: Seq<BinaryView>)
    ensures
        decode_binaries(binaries_wire(bs)->Array_0) == Some(bs),
    decreases bs.len(),
{
    let w = binaries_wire(bs)->Array_0;
    if bs.len() > 0 {
        lemma_binaries_wire_decode(bs.drop_last());
        assert(w.drop_last() =~= binaries_wire(bs.drop_last())->Array_0);
        lemma_binary_wire_decodes(bs.last());
        assert(bs.drop_last().push(bs.last()) =~= bs);
    } else {
        assert(bs =~= Seq::<BinaryView>::empty());
    }
}

/// Decoding the wire form of a tool result gives the result back.
pub proof fn law_tool_result_wire_roundtrip(r: ToolResultView)
    ensures
        decode_tool_result(result_wire(r)) == Some(r),
        result_wire(r).get("textResultForLlm"@) == Some(JsonView::Str(r.text)),
        result_wire(r).get("resultType"@) == Some(JsonView::Str(r.result_type)),
{
    reveal_strlit("textResultForLlm");
    reveal_strlit("binaryResultsForLlm");
    reveal_strlit("resultType");
    reveal_strlit("error");
    reveal_strlit("sessionLog");
    reveal_strlit("toolTelemetry");
    let e0 = Seq::<(Seq<char>, JsonView)>::empty();
    let t = ("textResultForLlm"@, JsonView::Str(r.text));
    let s1 = seq![t];
    assert(s1 =~= e0.push(t));
    lemma_assoc_get_push(e0, t.0, t.1);
    let s2 = push_opt(s1, "binaryResultsForLlm"@, opt_binaries_wire(r.binaries));
    lemma_assoc_get_push_opt(s1, "binaryResultsForLlm"@, opt_binaries_wire(r.binaries));
    let rt = ("resultType"@, JsonView::Str(r.result_type));
    lemma_assoc_get_push(s2, rt.0, rt.1);
    let s3 = s2.push(rt);
    lemma_assoc_get_push_opt(s3, "error"@, opt_str_view(r.error));
    let s4 = push_opt(s3, "error"@, opt_str_view(r.error));
    lemma_assoc_get_push_opt(s4, "sessionLog"@, opt_str_view(r.session_log));
    let s5 = push_opt(s4, "sessionLog"@, opt_str_view(r.session_log));
    lemma_assoc_get_push_opt(s5, "toolTelemetry"@, opt_object_wire(r.telemetry));
    assert("textResultForLlm"@.len() == 16 && "binaryResultsForLlm"@.len() == 19);
    assert("resultType"@.len() == 10 && "error"@.len() == 5 && "sessionLog"@.len() == 10);
    assert("toolTelemetry"@.len() == 13 && "resultType"@[0] == 'r' && "sessionLog"@[0] == 's');
    assert(assoc_get(e0, "textResultForLlm"@) is None);
    let w = result_wire(r);
    assert(w.get("textResultForLlm"@) == Some(JsonView::Str(r.text)));
    assert(w.get("binaryResultsForLlm"@) == opt_binaries_wire(r.binaries));
    assert(w.get("resultType"@) == Some(JsonView::Str(r.result_type)));
    assert(w.get("error"@) == opt_str_view(r.error));
    assert(w.get("sessionLog"@) == opt_str_view(r.session_log));
    assert(w.get("toolTelemetry"@) == opt_object_wire(r.telemetry));
    match r.binaries {
        Some(bs) => lemma_binaries_wire_decode(bs),
        None => {},
    }
}

/// The result type a decoded tool result takes when the wire form names none.
pub fn default_result_type() -> (r: String)
    ensures
        r@ == "success"@,
{
    string_of("success")
}

fn binaries_json(v: &Vec<ToolBinaryResult>) -> (r: Json)
    ensures
        r@ == binaries_wire(binaries_seq_view(v@)),
{
    let mut out: Vec<Json> = Vec::new();
    let mut i: usize = 0;
    while i < v.len()
        invariant
            0 <= i <= v.len(),
            out@.len() == i,
            forall|j: int| 0 <= j < i ==> #[trigger] json_view(out@[j]) == binary_wire(v@[j]@),
        decreases v.len() - i,
    {
        out.push(v[i].to_json());
        i = i + 1;
    }
    proof {
        lemma_view_array(out@);
        assert(view_array(out@) =~= Seq::new(
            v@.len(),
            |i: int| binary_wire(binaries_seq_view(v@)[i]),
        ));
    }
    Json::Array(out)
}

/// Decodes a JSON array as binary results.
fn binaries_from_json(a: &Vec<Json>) -> (r: Option<Vec<ToolBinaryResult>>)
    ensures
        r matches Some(bs) ==> decode_binaries(view_array(a@)) == Some(binaries_seq_view(bs@)),
        r is None ==> decode_binaries(view_array(a@)) is None,
{
    proof {
        lemma_view_array(a@);
    }
    let ghost va = view_array(a@);
    let mut out: Vec<ToolBinaryResult> = Vec::new();
    let mut i: usize = 0;
    while i < a.len()
        invariant
            0 <= i <= a.len(),
            va == view_array(a@),
            va.len() == a@.len(),
            forall|j: int| 0 <= j < a@.len() ==> #[trigger] va[j] == json_view(a@[j]),
            decode_binaries(va.take(i as int)) == Some(binaries_seq_view(out@)),
        decreases a.len() - i,
    {
        assert(va.take(i + 1).drop_last() =~= va.take(i as int));
        assert(va.take(i + 1).last() == va[i as int]);
        match ToolBinaryResult::from_json(&a[i]) {
            Some(b) => {
                let ghost pre = out@;
                out.push(b);
                assert(binaries_seq_view(out@) =~= binaries_seq_view(pre).push(b@));
            },
            None => {
                proof {
                    lemma_decode_binaries_prefix_none(va, i as int + 1);
                }
                return None;
            },
        }
        i = i + 1;
    }
    assert(va.take(a.len() as int) =~= va);
    Some(out)
}

/// A failure to decode a prefix is a failure to decode the whole.
proof fn lemma_decode_binaries_prefix_none(s: Seq<JsonView>, n: int)
    requires
        0 <= n <= s.len(),
        decode_binaries(s.take(n)) is None,
    ensures
        decode_binaries(s) is None,
    decreases s.len() - n,
{
    if n < s.len() {
        assert(s.take(n + 1).drop_last() =~= s.take(n));
        lemma_decode_binaries_prefix_none(s, n + 1);
    } else {
        assert(s.take(n) =~= s);
    }
}

impl ToolResultObject {
    /// A success result with text.
    pub fn text(result: &str) -> (r: ToolResultObject)
        ensures
            r@ == plain_result(result@, "success"@),
    {
        ToolResultObject {
            text_result_for_llm: string_of(result),
            binary_results_for_llm: None,
            result_type: string_of("success"),
            error: None,
            session_log: None,
            tool_telemetry: None,
        }
    }

    /// An error result.
    pub fn error(message: &str) -> (r: ToolResultObject)
        ensures
            r@ == (ToolResultView { error: Some(message@), ..plain_result(Seq::empty(), "error"@) }),
    {
        ToolResultObject {
            text_result_for_llm: String::new(),
            binary_results_for_llm: None,
            result_type: string_of("error"),
            error: Some(string_of(message)),
            session_log: None,
            tool_telemetry: None,
        }
    }

    /// The wire form, members that are `None` left out.
    pub fn to_json(&self) -> (r: Json)
        ensures
            r@ == result_wire(self@),
    {
        let mut es: Vec<(String, Json)> = Vec::new();
        assert(view_entries(es@) =~= Seq::empty());
        push_field(&mut es, "textResultForLlm", Json::Str(self.text_result_for_llm.clone()));
        assert(view_entries(es@) =~= seq![
            ("textResultForLlm"@, JsonView::Str(self.text_result_for_llm@)),
        ]);
        let b = match &self.binary_results_for_llm {
            Some(v) => Some(binaries_json(v)),
            None => None,
        };
        push_opt_field(&mut es, "binaryResultsForLlm", b);
        push_field(&mut es, "resultType", Json::Str(self.result_type.clone()));
        push_opt_field(&mut es, "error", opt_string_json(&self.error));
        push_opt_field(&mut es, "sessionLog", opt_string_json(&self.session_log));
        let t = match &self.tool_telemetry {
            Some(m) => Some(members_json(m)),
            None => None,
        };
        push_opt_field(&mut es, "toolTelemetry", t);
        Json::Object(es)
    }

    /// Decodes the wire form of a tool result from a JSON object; `None` when it is not an
    /// object or a member has the wrong shape.
    pub fn from_json(v: &Json) -> (r: Option<ToolResultObject>)
        ensures
            r matches Some(t) ==> decode_tool_result(v@) == Some(t@),
            r is None ==> decode_tool_result(v@) is None,
    {
        if !v.is_object() {
            return None;
        }
        let text_result_for_llm = v.required_str_field("textResultForLlm")?;
        let binary_results_for_llm = match v.get("binaryResultsForLlm") {
            None => None,
            Some(Json::Null) => None,
            Some(Json::Array(a)) => Some(binaries_from_json(a)?),
            Some(_) => return None,
        };
        let result_type = match v.get("resultType") {
            None => default_result_type(),
            Some(Json::Str(s)) => s.clone(),
            Some(_) => return None,
        };
        let error = v.optional_str_field("error")?;
        let session_log = v.optional_str_field("sessionLog")?;
        let tool_telemetry = match v.get("toolTelemetry") {
            None => None,
            Some(Json::Null) => None,
            Some(Json::Object(es)) => {
                let copy = members_json(es);
                match copy {
                    Json::Object(c) => Some(c),
                    _ => None,
                }
            },
            Some(_) => return None,
        };
        Some(
            ToolResultObject {
                text_result_for_llm,
                binary_results_for_llm,
                result_type,
                error,
                session_log,
                tool_telemetry,
            },
        )
    }
}

// =============================================================================
// Tool definitions
// =============================================================================

/// A tool definition for registration with a session; its handler is kept apart.
#[derive(Debug, Clone)]
pub struct Tool {
    pub name: String,
    pub description: String,
    pub parameters_schema: Json,
    pub skip_permission: bool,
    pub overrides_built_in_tool: bool,
}

/// The mathematical view of a [`Tool`].
pub struct ToolView {
    pub name: Seq<char>,
    pub description: Seq<char>,
    pub parameters_schema: JsonView,
    pub skip_permission: bool,
    pub overrides_built_in_tool: bool,
}

impl View for Tool {
    type V = ToolView;

    open spec fn view(&self) -> ToolView {
        ToolView {
            name: self.name@,
            description: self.description@,
            parameters_schema: self.parameters_schema@,
            skip_permission: self.skip_permission,
            overrides_built_in_tool: self.overrides_built_in_tool,
        }
    }
}

/// The wire form of a tool definition: `{name, description, parameters}`.
pub open spec fn tool_wire(t: ToolView) -> JsonView {
    JsonView::Object(
        seq![
            ("name"@, JsonView::Str(t.name)),
            ("description"@, JsonView::Str(t.description)),
            ("parameters"@, t.parameters_schema),
        ],
    )
}

impl Tool {
    /// A tool with the given name, an empty description and an empty object as its schema.
    pub fn new(name: &str) -> (r: Tool)
        ensures
            r@ == (ToolView {
                name: name@,
                description: Seq::empty(),
                parameters_schema: JsonView::Object(Seq::empty()),
                skip_permission: false,
                overrides_built_in_tool: false,
            }),
    {
        Tool {
            name: string_of(name),
            description: String::new(),
            parameters_schema: Json::empty_object(),
            skip_permission: false,
            overrides_built_in_tool: false,
        }
    }

    /// Sets the description.
    pub fn description(self, desc: &str) -> (r: Tool)
        ensures
            r@ == (ToolView { description: desc@, ..self@ }),
    {
        Tool { description: string_of(desc), ..self }
    }

    /// Sets the parameters JSON schema.
    pub fn schema(self, schema: Json) -> (r: Tool)
        ensures
            r@ == (ToolView { parameters_schema: schema@, ..self@ }),
    {
        Tool { parameters_schema: schema, ..self }
    }

    /// The wire form sent to the CLI.
    pub fn to_json(&self) -> (r: Json)
        ensures
            r@ == tool_wire(self@),
    {
        let mut es: Vec<(String, Json)> = Vec::new();
        assert(view_entries(es@) =~= Seq::empty());
        push_field(&mut es, "name", Json::Str(self.name.clone()));
        push_field(&mut es, "description", Json::Str(self.description.clone()));
        push_field(&mut es, "parameters", self.parameters_schema.deep_clone());
        let r = Json::Object(es);
        assert(view_entries(es@) =~= tool_wire(self@)->Object_0);
        r
    }
}

// =============================================================================
// Permissions
// =============================================================================

/// A permission request from the server.
#[derive(Debug, Clone)]
pub struct PermissionRequest {
    pub kind: String,
    pub tool_call_id: Option<String>,
    /// The request's other members, in the order they came.
    pub extension_data: Vec<(String, Json)>,
}

/// The result of a permission request, sent back to the CLI.
#[derive(Debug, Clone)]
pub struct PermissionRequestResult {
    pub kind: String,
    pub rules: Option<Vec<Json>>,
}

/// The kind that a denial carries.
pub open spec fn denied_kind() -> Seq<char> {
    "denied-no-approval-rule-and-could-not-request-from-user"@
}

impl PermissionRequestResult {
    /// An approved permission result.
    pub fn approved() -> (r: PermissionRequestResult)
        ensures
            r.kind@ == "approved"@,
            r.rules is None,
    {
        PermissionRequestResult { kind: string_of("approved"), rules: None }
    }

    /// A denied permission result.
    pub fn denied() -> (r: PermissionRequestResult)
        ensures
            r.kind@ == denied_kind(),
            r.rules is None,
    {
        PermissionRequestResult {
            kind: string_of("denied-no-approval-rule-and-could-not-request-from-user"),
            rules: None,
        }
    }

    /// The wire form: `{kind, rules?}`.
    pub fn to_json(&self) -> (r: Json)
        ensures
            r@ == permission_result_wire(self.kind@, rules_view(self.rules)),
    {
        let mut es: Vec<(String, Json)> = Vec::new();
        assert(view_entries(es@) =~= Seq::empty());
        push_field(&mut es, "kind", Json::Str(self.kind.clone()));
        assert(view_entries(es@) =~= seq![("kind"@, JsonView::Str(self.kind@))]);
        let rules = match &self.rules {
            Some(v) => Some(values_json(v)),
            None => None,
        };
        push_opt_field(&mut es, "rules", rules);
        Json::Object(es)
    }
}

/// The views of optional rules.
pub open spec fn rules_view(rules: Option<Vec<Json>>) -> Option<Seq<JsonView>> {
    match rules {
        Some(v) => Some(view_array(v@)),
        None => None,
    }
}

/// The wire form of a permission result.
pub open spec fn permission_result_wire(kind: Seq<char>, rules: Option<Seq<JsonView>>) -> JsonView {
    JsonView::Object(
        push_opt(
            seq![("kind"@, JsonView::Str(kind))],
            "rules"@,
            match rules {
                Some(r) => Some(JsonView::Array(r)),
                None => None,
            },
        ),
    )
}

// =============================================================================
// Client options
// =============================================================================

/// Options for creating a client.
#[derive(Debug, Clone)]
pub struct ClientOptions {
    pub cli_path: Option<String>,
    pub cli_args: Option<Vec<String>>,
    pub cwd: Option<String>,
    pub port: u16,
    pub use_stdio: bool,
    pub cli_url: Option<String>,
    pub log_level: LogLevel,
    pub auto_start: bool,
    pub auto_restart: bool,
    pub environment: Option<Registry<String>>,
}

impl Default for ClientOptions {
    fn default() -> (r: ClientOptions)
        ensures
            r.cli_path is None,
            r.cli_args is None,
            r.cwd is None,
            r.port == 0,
            r.use_stdio,
            r.cli_url is None,
            r.log_level == LogLevel::Info,
            r.auto_start,
            r.auto_restart,
            r.environment is None,
    {
        ClientOptions {
            cli_path: None,
            cli_args: None,
            cwd: None,
            port: 0,
            use_stdio: true,
            cli_url: None,
            log_level: LogLevel::Info,
            auto_start: true,
            auto_restart: true,
            environment: None,
        }
    }
}

// =============================================================================
// Responses
// =============================================================================

/// Metadata about a session.
#[derive(Debug, Clone)]
pub struct SessionMetadata {
    pub session_id: String,
    pub start_time: Option<String>,
    pub modified_time: Option<String>,
    pub summary: Option<String>,
    pub is_remote: bool,
}

/// The view of session metadata: the id, start and modified times, summary and whether the
/// session is remote.
pub type SessionMetadataView = (
    Seq<char>,
    Option<Seq<char>>,
    Option<Seq<char>>,
    Option<Seq<char>>,
    bool,
);

impl View for SessionMetadata {
    type V = SessionMetadataView;

    open spec fn view(&self) -> SessionMetadataView {
        (
            self.session_id@,
            opt_string_view(self.start_time),
            opt_string_view(self.modified_time),
            opt_string_view(self.summary),
            self.is_remote,
        )
    }
}

/// What a `bool` field with a default decodes to: `false` when absent.
pub open spec fn decode_defaulted_bool(f: Option<JsonView>) -> Option<bool> {
    match f {
        None => Some(false),
        Some(JsonView::Bool(b)) => Some(b),
        _ => None,
    }
}

/// What a JSON object decodes to as session metadata.
pub open spec fn decode_session_metadata(v: JsonView) -> Option<SessionMetadataView> {
    let id = decode_required_str(v.get("sessionId"@));
    let st = decode_optional_str(v.get("startTime"@));
    let mt = decode_optional_str(v.get("modifiedTime"@));
    let su = decode_optional_str(v.get("summary"@));
    let re = decode_defaulted_bool(v.get("isRemote"@));
    if v is Object && id is Some && st is Some && mt is Some && su is Some && re is Some {
        Some((id->0, st->0, mt->0, su->0, re->0))
    } else {
        None
    }
}

impl SessionMetadata {
    /// Decodes session metadata from a JSON object; `None` when it is not an object or a
    /// member has the wrong shape.
    pub fn from_json(v: &Json) -> (r: Option<SessionMetadata>)
        ensures
            match r {
                Some(m) => decode_session_metadata(v@) == Some(m@),
                None => decode_session_metadata(v@) is None,
            },
    {
        if !v.is_object() {
            return None;
        }
        let session_id = v.required_str_field("sessionId")?;
        let start_time = v.optional_str_field("startTime")?;
        let modified_time = v.optional_str_field("modifiedTime")?;
        let summary = v.optional_str_field("summary")?;
        let is_remote = match v.get("isRemote") {
            None => false,
            Some(Json::Bool(b)) => *b,
            Some(_) => return None,
        };
        Some(SessionMetadata { session_id, start_time, modified_time, summary, is_remote })
    }
}

/// Response from a ping request.
#[derive(Debug, Clone)]
pub struct PingResponse {
    pub message: String,
    pub timestamp: i64,
    pub protocol_version: Option<u32>,
}

impl PingResponse {
    /// Reads a ping reply: the message (empty when missing), the timestamp (0 when missing)
    /// and the protocol version, its low 32 bits.
    pub fn from_result(result: &Json) -> (r: PingResponse)
        ensures
            r.message@ == match result@.get_str("message"@) {
                Some(m) => m,
                None => Seq::empty(),
            },
            r.timestamp == match result@.get_i64("timestamp"@) {
                Some(t) => t,
                None => 0,
            },
            r.protocol_version == match result@.get_u64("protocolVersion"@) {
                Some(v) => Some(v as u32),
                None => None,
            },
    {
        PingResponse {
            message: match result.get_str("message") {
                Some(m) => string_of(m),
                None => String::new(),
            },
            timestamp: match result.get_i64("timestamp") {
                Some(t) => t,
                None => 0,
            },
            protocol_version: match result.get_u64("protocolVersion") {
                Some(v) => Some(v as u32),
                None => None,
            },
        }
    }
}

// =============================================================================
// Tool invocations
// =============================================================================

/// A tool invocation from the server.
#[derive(Debug, Clone)]
pub struct ToolInvocation {
    pub session_id: String,
    pub tool_call_id: String,
    pub tool_name: String,
    pub arguments: Option<Json>,
}

impl ToolInvocation {
    /// Decodes an invocation from a JSON object: the ids and the tool name are required;
    /// missing or null arguments are none.
    pub fn from_json(v: &Json) -> (r: Option<ToolInvocation>)
        ensures
            match r {
                Some(t) => v@ is Object && v@.get_str("sessionId"@) == Some(t.session_id@)
                    && v@.get_str("toolCallId"@) == Some(t.tool_call_id@) && v@.get_str(
                    "toolName"@,
                ) == Some(t.tool_name@) && crate::json::opt_view(t.arguments) == match v@.get(
                    "arguments"@,
                ) {
                    Some(JsonView::Null) => None,
                    other => other,
                },
                None => !(v@ is Object) || v@.get_str("sessionId"@) is None || v@.get_str(
                    "toolCallId"@,
                ) is None || v@.get_str("toolName"@) is None,
            },
    {
        if !v.is_object() {
            return None;
        }
        let session_id = v.required_str_field("sessionId")?;
        let tool_call_id = v.required_str_field("toolCallId")?;
        let tool_name = v.required_str_field("toolName")?;
        let arguments = match v.get("arguments") {
            Some(Json::Null) => None,
            Some(a) => Some(a.deep_clone()),
            None => None,
        };
        Some(ToolInvocation { session_id, tool_call_id, tool_name, arguments })
    }

    /// The raw value of argument `name`: an error when the invocation has no arguments or
    /// lacks this one.
    pub fn arg_value(&self, name: &str) -> (r: Result<&Json, crate::error::CopilotError>)
        ensures
            match self.arguments {
                None => r matches Err(crate::error::CopilotError::ToolError(m)) && m@
                    == "No arguments provided"@,
                Some(a) => match a@.get(name@) {
                    Some(x) => r matches Ok(v) && v@ == x,
                    None => r matches Err(crate::error::CopilotError::ToolError(m)) && m@
                        == "Missing argument: "@ + name@,
                },
            },
    {
        let args = match &self.arguments {
            Some(a) => a,
            None => {
                return Err(
                    crate::error::CopilotError::ToolError(string_of("No arguments provided")),
                )
            },
        };
        match args.get(name) {
            Some(v) => Ok(v),
            None => {
                let mut m = string_of("Missing argument: ");
                crate::text::push_str(&mut m, name);
                Err(crate::error::CopilotError::ToolError(m))
            },
        }
    }

    /// The error for an argument that does not decode to the asked-for type.
    pub fn invalid_argument(name: &str, detail: &str) -> (r: crate::error::CopilotError)
        ensures
            r matches crate::error::CopilotError::ToolError(m) && m@ == "Invalid argument '"@
                + name@ + "': "@ + detail@,
    {
        let mut m = string_of("Invalid argument '");
        crate::text::push_str(&mut m, name);
        crate::text::push_str(&mut m, "': ");
        crate::text::push_str(&mut m, detail);
        crate::error::CopilotError::ToolError(m)
    }
}

} // verus!
