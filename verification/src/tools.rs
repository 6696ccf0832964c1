//! Tool helpers: normalising handler output into tool results, defining tools, and
//! converting MCP call results.

use crate::json::{
    json_serialize, json_text, json_view, lemma_view_array, str_eq, view_array, Json, JsonView,
};
use crate::text::{push_str, string_of};
use crate::types::{
    binaries_seq_view, decode_tool_result, law_tool_result_wire_roundtrip, plain_result,
    result_wire, BinaryView, Tool, ToolBinaryResult,
    ToolResultObject, ToolResultView, ToolView,
};
use vstd::prelude::*;

verus! {

/// Whether a JSON value is an object holding `key`.
pub open spec fn has_key(v: JsonView, key: Seq<char>) -> bool {
    v.get(key) is Some
}

/// The tool result that handler output normalises to: null is an empty success, a string a
/// successful text, an object holding both `resultType` and `textResultForLlm` is decoded
/// as a result (a failure when it does not decode), and any other value is written out as
/// its JSON text.
pub open spec fn normalize_spec(v: JsonView) -> ToolResultView {
    match v {
        JsonView::Null => plain_result(Seq::empty(), "success"@),
        JsonView::Str(s) => plain_result(s, "success"@),
        _ => if v is Object && has_key(v, "resultType"@) && has_key(v, "textResultForLlm"@) {
            match decode_tool_result(v) {
                Some(r) => r,
                None => plain_result("Failed to parse tool result"@, "failure"@),
            }
        } else {
            plain_result(json_serialize(v), "success"@)
        },
    }
}

/// Normalises any handler output into a tool result.
pub fn normalize_result(result: Json) -> (r: ToolResultObject)
    ensures
        r@ == normalize_spec(result@),
{
    match result {
        Json::Null => ToolResultObject {
            text_result_for_llm: String::new(),
            binary_results_for_llm: None,
            result_type: string_of("success"),
            error: None,
            session_log: None,
            tool_telemetry: None,
        },
        Json::Str(s) => ToolResultObject {
            text_result_for_llm: s,
            binary_results_for_llm: None,
            result_type: string_of("success"),
            error: None,
            session_log: None,
            tool_telemetry: None,
        },
        other => {
            if other.is_object() && other.get("resultType").is_some() && other.get(
                "textResultForLlm",
            ).is_some() {
                match ToolResultObject::from_json(&other) {
                    Some(t) => t,
                    None => ToolResultObject {
                        text_result_for_llm: string_of("Failed to parse tool result"),
                        binary_results_for_llm: None,
                        result_type: string_of("failure"),
                        error: None,
                        session_log: None,
                        tool_telemetry: None,
                    },
                }
            } else {
                ToolResultObject {
                    text_result_for_llm: json_text(&other),
                    binary_results_for_llm: None,
                    result_type: string_of("success"),
                    error: None,
                    session_log: None,
                    tool_telemetry: None,
                }
            }
        },
    }
}

/// A tool result in its wire form passes through normalisation unchanged.
pub proof fn law_normalize_passes_results_through(r: ToolResultView)
    ensures
        normalize_spec(result_wire(r)) == r,
{
    law_tool_result_wire_roundtrip(r);
}

/// Defines a tool for registration on a session; a missing schema becomes an empty object.
pub fn define_tool(name: &str, description: &str, parameters_schema: Option<Json>) -> (r: Tool)
    ensures
        r@ == (ToolView {
            name: name@,
            description: description@,
            parameters_schema: match parameters_schema {
                Some(s) => s@,
                None => JsonView::Object(Seq::empty()),
            },
            skip_permission: false,
            overrides_built_in_tool: false,
        }),
{
    Tool {
        name: string_of(name),
        description: string_of(description),
        parameters_schema: match parameters_schema {
            Some(s) => s,
            None => Json::empty_object(),
        },
        skip_permission: false,
        overrides_built_in_tool: false,
    }
}

/// A string member, or `d` when it is absent or not a string.
pub open spec fn str_or(f: Option<JsonView>, d: Seq<char>) -> Seq<char> {
    match f {
        Some(JsonView::Str(s)) => s,
        _ => d,
    }
}

/// The `type` of an MCP content block, empty when it has none.
pub open spec fn item_type(item: JsonView) -> Seq<char> {
    str_or(item.get("type"@), Seq::empty())
}

/// The text that an MCP content block contributes, if any: a `text` block its text, a
/// `resource` block holding text a `[resource: uri]` header and the text, an image nothing,
/// and a block of any other type its JSON text.
pub open spec fn item_text(item: JsonView) -> Option<Seq<char>> {
    let t = item_type(item);
    if t == "text"@ {
        item.get_str("text"@)
    } else if t == "image"@ {
        None
    } else if t == "resource"@ {
        match item.get("resource"@) {
            Some(res) => match res.get_str("text"@) {
                Some(x) => Some(
                    "[resource: "@ + str_or(res.get("uri"@), Seq::empty()) + "]\n"@ + x,
                ),
                None => None,
            },
            None => None,
        }
    } else {
        Some(json_serialize(item))
    }
}

/// The binary result that an MCP `image` block becomes.
pub open spec fn item_binary(item: JsonView) -> Option<BinaryView> {
    if item_type(item) == "image"@ {
        Some(
            BinaryView {
                data: str_or(item.get("data"@), Seq::empty()),
                mime_type: str_or(item.get("mimeType"@), "image/png"@),
                result_type: "image"@,
                description: None,
            },
        )
    } else {
        None
    }
}

/// An MCP `image` block becomes an image binary result that keeps the block's own data
/// and its own `mimeType`; `image/png` stands in only when the block has no `mimeType`.
pub proof fn law_image_block_binary(item: JsonView)
    requires
        item.get_str("type"@) == Some("image"@),
    ensures
        item_binary(item) matches Some(b) && b.result_type == "image"@ && b.description is None
            && (item.get_str("mimeType"@) matches Some(m) ==> b.mime_type == m) && (item.get(
            "mimeType"@,
        ) is None ==> b.mime_type == "image/png"@) && (item.get_str("data"@) matches Some(d)
            ==> b.data == d),
{
}

/// The result of an MCP call whose content is one `image` block carries exactly one binary
/// result, with that block's `mimeType`.
pub proof fn law_image_result_keeps_mime_type(v: JsonView, item: JsonView, m: Seq<char>)
    requires
        v.get("content"@) == Some(JsonView::Array(seq![item])),
        item.get_str("type"@) == Some("image"@),
        item.get_str("mimeType"@) == Some(m),
    ensures
        convert_mcp_spec(v).binaries matches Some(bs) && bs.len() == 1 && bs[0].mime_type == m
            && bs[0].result_type == "image"@,
{
    let items = seq![item];
    assert(mcp_content(v) == items);
    assert(items.drop_last() =~= Seq::<JsonView>::empty());
    assert(items.last() == item);
    law_image_block_binary(item);
    assert(mcp_binaries(items) == mcp_binaries(Seq::<JsonView>::empty()).push(
        item_binary(item)->0,
    ));
}

/// The texts of a run of content blocks, in order.
pub open spec fn mcp_texts(items: Seq<JsonView>) -> Seq<Seq<char>>
    decreases items.len(),
{
    if items.len() == 0 {
        Seq::empty()
    } else {
        match item_text(items.last()) {
            Some(t) => mcp_texts(items.drop_last()).push(t),
            None => mcp_texts(items.drop_last()),
        }
    }
}

/// The binary results of a run of content blocks, in order.
pub open spec fn mcp_binaries(items: Seq<JsonView>) -> Seq<BinaryView>
    decreases items.len(),
{
    if items.len() == 0 {
        Seq::empty()
    } else {
        match item_binary(items.last()) {
            Some(b) => mcp_binaries(items.drop_last()).push(b),
            None => mcp_binaries(items.drop_last()),
        }
    }
}

/// The parts joined with line breaks (`[String]::join("\n")`).
pub open spec fn join_lines(parts: Seq<Seq<char>>) -> Seq<char>
    decreases parts.len(),
{
    if parts.len() == 0 {
        Seq::empty()
    } else if parts.len() == 1 {
        parts[0]
    } else {
        join_lines(parts.drop_last()) + "\n"@ + parts.last()
    }
}

/// The content blocks of an MCP call result, none when `content` is not an array.
pub open spec fn mcp_content(v: JsonView) -> Seq<JsonView> {
    match v.get("content"@) {
        Some(JsonView::Array(a)) => a,
        _ => Seq::empty(),
    }
}

/// The tool result that an MCP call result converts to.
pub open spec fn convert_mcp_spec(v: JsonView) -> ToolResultView {
    let items = mcp_content(v);
    let bs = mcp_binaries(items);
    ToolResultView {
        text: join_lines(mcp_texts(items)),
        binaries: if bs.len() == 0 {
            None
        } else {
            Some(bs)
        },
        result_type: if v.get_bool("isError"@) == Some(true) {
            "failure"@
        } else {
            "success"@
        },
        error: None,
        session_log: None,
        telemetry: None,
    }
}

/// A string member, or `d` when it is absent or not a string.
fn str_member_or(v: &Json, key: &str, d: &str) -> (r: String)
    ensures
        r@ == str_or(v@.get(key@), d@),
{
    match v.get(key) {
        Some(Json::Str(s)) => s.clone(),
        _ => string_of(d),
    }
}

/// The text that one content block contributes.
fn mcp_item_text(item: &Json) -> (r: Option<String>)
    ensures
        match r {
            Some(t) => item_text(item@) == Some(t@),
            None => item_text(item@) is None,
        },
{
    let t = str_member_or(item, "type", "");
    proof {
        reveal_strlit("");
    }
    assert(t@ == item_type(item@));
    if str_eq(t.as_str(), "text") {
        match item.get_str("text") {
            Some(x) => Some(string_of(x)),
            None => None,
        }
    } else if str_eq(t.as_str(), "image") {
        None
    } else if str_eq(t.as_str(), "resource") {
        match item.get("resource") {
            Some(res) => match res.get_str("text") {
                Some(x) => {
                    let mut s = string_of("[resource: ");
                    let uri = str_member_or(res, "uri", "");
                    push_str(&mut s, uri.as_str());
                    push_str(&mut s, "]\n");
                    push_str(&mut s, x);
                    assert(s@ == "[resource: "@ + str_or(res@.get("uri"@), Seq::empty()) + "]\n"@
                        + x@);
                    Some(s)
                },
                None => None,
            },
            None => None,
        }
    } else {
        assert(t@ != "text"@ && t@ != "image"@ && t@ != "resource"@);
        Some(json_text(item))
    }
}

/// The binary result that one content block becomes.
fn mcp_item_binary(item: &Json) -> (r: Option<ToolBinaryResult>)
    ensures
        match r {
            Some(b) => item_binary(item@) == Some(b@),
            None => item_binary(item@) is None,
        },
{
    let t = str_member_or(item, "type", "");
    proof {
        reveal_strlit("");
        assert(""@ =~= Seq::<char>::empty());
    }
    if str_eq(t.as_str(), "image") {
        let data = str_member_or(item, "data", "");
        let mime_type = str_member_or(item, "mimeType", "image/png");
        let result_type = string_of("image");
        let b = ToolBinaryResult { data, mime_type, result_type, description: None };
        assert(item_type(item@) == "image"@);
        assert(b@ == item_binary(item@)->0);
        Some(b)
    } else {
        None
    }
}

/// Converts an MCP `CallToolResult` into a tool result: text blocks and resource texts are
/// joined with line breaks, images become binary results, other blocks are written out as
/// JSON, and `isError` makes the result a failure.
pub fn convert_mcp_call_tool_result(call_result: &Json) -> (r: ToolResultObject)
    ensures
        r@ == convert_mcp_spec(call_result@),
{
    let is_error = match call_result.get_bool("isError") {
        Some(b) => b,
        None => false,
    };
    let mut text = String::new();
    let mut any_part = false;
    let ghost mut parts: Seq<Seq<char>> = Seq::empty();
    let mut binaries: Vec<ToolBinaryResult> = Vec::new();
    let ghost mut items: Seq<JsonView> = Seq::empty();
    match call_result.get("content") {
        Some(Json::Array(content)) => {
            proof {
                lemma_view_array(content@);
                items = view_array(content@);
            }
            let mut i: usize = 0;
            assert(items.take(0) =~= Seq::<JsonView>::empty());
            while i < content.len()
                invariant
                    0 <= i <= content.len(),
                    items == view_array(content@),
                    items.len() == content@.len(),
                    forall|j: int| 0 <= j < content@.len() ==> #[trigger] items[j] == json_view(content@[j]),
                    parts == mcp_texts(items.take(i as int)),
                    any_part == (parts.len() > 0),
                    text@ == join_lines(parts),
                    binaries_seq_view(binaries@) == mcp_binaries(items.take(i as int)),
                decreases content.len() - i,
            {
                let item = &content[i];
                assert(items.take(i + 1).drop_last() =~= items.take(i as int));
                assert(items.take(i + 1).last() == item@);
                match mcp_item_text(item) {
                    Some(t) => {
                        if any_part {
                            push_str(&mut text, "\n");
                        }
                        push_str(&mut text, t.as_str());
                        proof {
                            let np = parts.push(t@);
                            assert(np.drop_last() =~= parts);
                            if parts.len() == 0 {
                                assert(text@ =~= t@);
                            }
                            parts = np;
                        }
                        any_part = true;
                    },
                    None => {},
                }
                match mcp_item_binary(item) {
                    Some(b) => {
                        let ghost pre = binaries@;
                        binaries.push(b);
                        assert(binaries_seq_view(binaries@) =~= binaries_seq_view(pre).push(b@));
                    },
                    None => {},
                }
                i = i + 1;
            }
            assert(items.take(content.len() as int) =~= items);
        },
        _ => {},
    }
    assert(items == mcp_content(call_result@));
    ToolResultObject {
        text_result_for_llm: text,
        binary_results_for_llm: if binaries.len() == 0 {
            None
        } else {
            Some(binaries)
        },
        result_type: if is_error {
            string_of("failure")
        } else {
            string_of("success")
        },
        error: None,
        session_log: None,
        tool_telemetry: None,
    }
}

} // verus!
