//! Session and message configuration, with the JSON each is sent to the CLI as. Members that
//! are `None` are left out of the JSON.

use crate::json::{
    members_json, members_view, opt_str_view, opt_string_json, opt_string_view, push_field,
    push_opt, push_opt_field, strings_json, strings_view, view_entries, Json, JsonNumber,
    JsonView, NumberView,
};
use crate::process::env_view;
use crate::registry::{assoc_get, Registry};
use crate::text::string_of;
use crate::types::{tool_wire, AttachmentType, SystemMessageMode, Tool};
use vstd::prelude::*;

verus! {

/// The JSON view of a signed number.
pub open spec fn int_view(i: i64) -> JsonView {
    if i >= 0 {
        JsonView::Number(NumberView::PosInt(i as u64))
    } else {
        JsonView::Number(NumberView::NegInt(i))
    }
}

/// A signed number as JSON.
pub fn int_json(i: i64) -> (r: Json)
    ensures
        r@ == int_view(i),
{
    if i >= 0 {
        Json::Number(JsonNumber::PosInt(i as u64))
    } else {
        Json::Number(JsonNumber::NegInt(i))
    }
}

/// The JSON object of a string-to-string map.
pub open spec fn string_map_view(es: Seq<(Seq<char>, Seq<char>)>) -> JsonView {
    JsonView::Object(Seq::new(es.len(), |i: int| (es[i].0, JsonView::Str(es[i].1))))
}

/// A string-to-string map as a JSON object.
pub fn string_map_json(r: &Registry<String>) -> (j: Json)
    ensures
        j@ == string_map_view(env_view(*r)),
{
    let mut es: Vec<(String, Json)> = Vec::new();
    let mut i: usize = 0;
    let ghost ev = env_view(*r);
    assert(view_entries(es@) =~= Seq::empty());
    while i < r.len()
        invariant
            0 <= i <= r.view().len(),
            ev == env_view(*r),
            ev.len() == r.view().len(),
            view_entries(es@) =~= Seq::new(i as nat, |k: int| (ev[k].0, JsonView::Str(ev[k].1))),
        decreases r.view().len() - i,
    {
        let (k, v) = r.entry(i);
        push_field(&mut es, k.as_str(), Json::Str(v.clone()));
        i = i + 1;
    }
    Json::Object(es)
}

/// An optional string-to-string map's JSON view.
pub open spec fn opt_string_map_view(r: Option<Registry<String>>) -> Option<JsonView> {
    match r {
        Some(m) => Some(string_map_view(env_view(m))),
        None => None,
    }
}

fn opt_string_map_json(r: &Option<Registry<String>>) -> (j: Option<Json>)
    ensures
        crate::json::opt_view(j) == opt_string_map_view(*r),
{
    match r {
        Some(m) => Some(string_map_json(m)),
        None => None,
    }
}

/// An optional list of strings' JSON view.
pub open spec fn opt_strings_view(v: Option<Vec<String>>) -> Option<JsonView> {
    match v {
        Some(s) => Some(strings_view(s@)),
        None => None,
    }
}

fn opt_strings_json(v: &Option<Vec<String>>) -> (j: Option<Json>)
    ensures
        crate::json::opt_view(j) == opt_strings_view(*v),
{
    match v {
        Some(s) => Some(strings_json(s)),
        None => None,
    }
}

/// An optional member map's JSON view.
pub open spec fn opt_members_view(v: Option<Vec<(String, Json)>>) -> Option<JsonView> {
    match v {
        Some(m) => Some(members_view(m@)),
        None => None,
    }
}

fn opt_members_json(v: &Option<Vec<(String, Json)>>) -> (j: Option<Json>)
    ensures
        crate::json::opt_view(j) == opt_members_view(*v),
{
    match v {
        Some(m) => Some(members_json(m)),
        None => None,
    }
}

fn opt_int_json(v: Option<i32>) -> (j: Option<Json>)
    ensures
        crate::json::opt_view(j) == match v {
            Some(t) => Some(int_view(t as i64)),
            None => None,
        },
{
    match v {
        Some(t) => Some(int_json(t as i64)),
        None => None,
    }
}

// =============================================================================
// System message
// =============================================================================

/// System message configuration.
#[derive(Debug, Clone)]
pub struct SystemMessageConfig {
    pub mode: Option<SystemMessageMode>,
    pub content: Option<String>,
}

impl Default for SystemMessageConfig {
    fn default() -> (r: SystemMessageConfig)
        ensures
            r.mode is None && r.content is None,
    {
        SystemMessageConfig { mode: None, content: None }
    }
}

impl SystemMessageConfig {
    pub open spec fn wire(self) -> JsonView {
        JsonView::Object(
            push_opt(
                push_opt(
                    Seq::empty(),
                    "mode"@,
                    match self.mode {
                        Some(m) => Some(JsonView::Str(m.wire_spec())),
                        None => None,
                    },
                ),
                "content"@,
                opt_str_view(opt_string_view(self.content)),
            ),
        )
    }

    pub fn to_json(&self) -> (r: Json)
        ensures
            r@ == self.wire(),
    {
        let mut es: Vec<(String, Json)> = Vec::new();
        assert(view_entries(es@) =~= Seq::empty());
        let mode = match &self.mode {
            Some(m) => Some(Json::Str(m.wire())),
            None => None,
        };
        push_opt_field(&mut es, "mode", mode);
        push_opt_field(&mut es, "content", opt_string_json(&self.content));
        Json::Object(es)
    }
}

// =============================================================================
// Providers
// =============================================================================

/// Azure-specific provider options.
#[derive(Debug, Clone)]
pub struct AzureOptions {
    pub api_version: Option<String>,
}

impl Default for AzureOptions {
    fn default() -> (r: AzureOptions)
        ensures
            r.api_version is None,
    {
        AzureOptions { api_version: None }
    }
}

impl AzureOptions {
    pub open spec fn wire(self) -> JsonView {
        JsonView::Object(
            push_opt(Seq::empty(), "apiVersion"@, opt_str_view(opt_string_view(self.api_version))),
        )
    }

    pub fn to_json(&self) -> (r: Json)
        ensures
            r@ == self.wire(),
    {
        let mut es: Vec<(String, Json)> = Vec::new();
        assert(view_entries(es@) =~= Seq::empty());
        push_opt_field(&mut es, "apiVersion", opt_string_json(&self.api_version));
        Json::Object(es)
    }
}

/// Provider configuration for bringing one's own model key.
#[derive(Debug, Clone)]
pub struct ProviderConfig {
    pub base_url: String,
    pub provider_type: Option<String>,
    pub wire_api: Option<String>,
    pub api_key: Option<String>,
    pub bearer_token: Option<String>,
    pub azure: Option<AzureOptions>,
}

impl ProviderConfig {
    pub open spec fn wire(self) -> JsonView {
        JsonView::Object(
            push_opt(
                push_opt(
                    push_opt(
                        push_opt(
                            push_opt(
                                Seq::empty().push(("baseUrl"@, JsonView::Str(self.base_url@))),
                                "type"@,
                                opt_str_view(opt_string_view(self.provider_type)),
                            ),
                            "wireApi"@,
                            opt_str_view(opt_string_view(self.wire_api)),
                        ),
                        "apiKey"@,
                        opt_str_view(opt_string_view(self.api_key)),
                    ),
                    "bearerToken"@,
                    opt_str_view(opt_string_view(self.bearer_token)),
                ),
                "azure"@,
                match self.azure {
                    Some(a) => Some(a.wire()),
                    None => None,
                },
            ),
        )
    }

    pub fn to_json(&self) -> (r: Json)
        ensures
            r@ == self.wire(),
    {
        let mut es: Vec<(String, Json)> = Vec::new();
        assert(view_entries(es@) =~= Seq::empty());
        push_field(&mut es, "baseUrl", Json::Str(self.base_url.clone()));
        push_opt_field(&mut es, "type", opt_string_json(&self.provider_type));
        push_opt_field(&mut es, "wireApi", opt_string_json(&self.wire_api));
        push_opt_field(&mut es, "apiKey", opt_string_json(&self.api_key));
        push_opt_field(&mut es, "bearerToken", opt_string_json(&self.bearer_token));
        let azure = match &self.azure {
            Some(a) => Some(a.to_json()),
            None => None,
        };
        push_opt_field(&mut es, "azure", azure);
        Json::Object(es)
    }
}

// =============================================================================
// MCP servers
// =============================================================================

/// Configuration for a local (stdio) MCP server.
#[derive(Debug, Clone)]
pub struct McpLocalServerConfig {
    pub tools: Vec<String>,
    pub command: String,
    pub args: Vec<String>,
    pub server_type: Option<String>,
    pub timeout: Option<i32>,
    pub env: Option<Registry<String>>,
    pub cwd: Option<String>,
}

impl McpLocalServerConfig {
    pub open spec fn wire(self) -> JsonView {
        JsonView::Object(
            push_opt(
                push_opt(
                    push_opt(
                        push_opt(
                            Seq::empty().push(("tools"@, strings_view(self.tools@))).push(
                                ("command"@, JsonView::Str(self.command@)),
                            ).push(("args"@, strings_view(self.args@))),
                            "type"@,
                            opt_str_view(opt_string_view(self.server_type)),
                        ),
                        "timeout"@,
                        match self.timeout {
                            Some(t) => Some(int_view(t as i64)),
                            None => None,
                        },
                    ),
                    "env"@,
                    opt_string_map_view(self.env),
                ),
                "cwd"@,
                opt_str_view(opt_string_view(self.cwd)),
            ),
        )
    }

    pub fn to_json(&self) -> (r: Json)
        ensures
            r@ == self.wire(),
    {
        let mut es: Vec<(String, Json)> = Vec::new();
        assert(view_entries(es@) =~= Seq::empty());
        push_field(&mut es, "tools", strings_json(&self.tools));
        push_field(&mut es, "command", Json::Str(self.command.clone()));
        push_field(&mut es, "args", strings_json(&self.args));
        push_opt_field(&mut es, "type", opt_string_json(&self.server_type));
        push_opt_field(&mut es, "timeout", opt_int_json(self.timeout));
        push_opt_field(&mut es, "env", opt_string_map_json(&self.env));
        push_opt_field(&mut es, "cwd", opt_string_json(&self.cwd));
        Json::Object(es)
    }
}

/// Configuration for a remote (HTTP or SSE) MCP server.
#[derive(Debug, Clone)]
pub struct McpRemoteServerConfig {
    pub tools: Vec<String>,
    pub url: String,
    pub server_type: String,
    pub timeout: Option<i32>,
    pub headers: Option<Registry<String>>,
}

/// The server type a remote MCP configuration takes when it names none.
pub fn default_mcp_type() -> (r: String)
    ensures
        r@ == "http"@,
{
    string_of("http")
}

impl McpRemoteServerConfig {
    pub open spec fn wire(self) -> JsonView {
        JsonView::Object(
            push_opt(
                push_opt(
                    Seq::empty().push(("tools"@, strings_view(self.tools@))).push(
                        ("url"@, JsonView::Str(self.url@)),
                    ).push(("type"@, JsonView::Str(self.server_type@))),
                    "timeout"@,
                    match self.timeout {
                        Some(t) => Some(int_view(t as i64)),
                        None => None,
                    },
                ),
                "headers"@,
                opt_string_map_view(self.headers),
            ),
        )
    }

    pub fn to_json(&self) -> (r: Json)
        ensures
            r@ == self.wire(),
    {
        let mut es: Vec<(String, Json)> = Vec::new();
        assert(view_entries(es@) =~= Seq::empty());
        push_field(&mut es, "tools", strings_json(&self.tools));
        push_field(&mut es, "url", Json::Str(self.url.clone()));
        push_field(&mut es, "type", Json::Str(self.server_type.clone()));
        push_opt_field(&mut es, "timeout", opt_int_json(self.timeout));
        push_opt_field(&mut es, "headers", opt_string_map_json(&self.headers));
        Json::Object(es)
    }
}

/// An MCP server configuration, local or remote; its JSON is that of the configuration it
/// holds.
#[derive(Debug, Clone)]
pub enum McpServerConfig {
    Local(McpLocalServerConfig),
    Remote(McpRemoteServerConfig),
}

impl McpServerConfig {
    pub open spec fn wire(self) -> JsonView {
        match self {
            McpServerConfig::Local(l) => l.wire(),
            McpServerConfig::Remote(r) => r.wire(),
        }
    }

    pub fn to_json(&self) -> (r: Json)
        ensures
            r@ == self.wire(),
    {
        match self {
            McpServerConfig::Local(l) => l.to_json(),
            McpServerConfig::Remote(r) => r.to_json(),
        }
    }
}

// =============================================================================
// Custom agents
// =============================================================================

/// Configuration for a custom agent.
#[derive(Debug, Clone)]
pub struct CustomAgentConfig {
    pub name: String,
    pub prompt: String,
    pub display_name: Option<String>,
    pub description: Option<String>,
    pub tools: Option<Vec<String>>,
    pub mcp_servers: Option<Vec<(String, Json)>>,
    pub infer: Option<bool>,
}

impl CustomAgentConfig {
    pub open spec fn wire(self) -> JsonView {
        JsonView::Object(
            push_opt(
                push_opt(
                    push_opt(
                        push_opt(
                            push_opt(
                                Seq::empty().push(("name"@, JsonView::Str(self.name@))).push(
                                    ("prompt"@, JsonView::Str(self.prompt@)),
                                ),
                                "displayName"@,
                                opt_str_view(opt_string_view(self.display_name)),
                            ),
                            "description"@,
                            opt_str_view(opt_string_view(self.description)),
                        ),
                        "tools"@,
                        opt_strings_view(self.tools),
                    ),
                    "mcpServers"@,
                    opt_members_view(self.mcp_servers),
                ),
                "infer"@,
                match self.infer {
                    Some(b) => Some(JsonView::Bool(b)),
                    None => None,
                },
            ),
        )
    }

    pub fn to_json(&self) -> (r: Json)
        ensures
            r@ == self.wire(),
    {
        let mut es: Vec<(String, Json)> = Vec::new();
        assert(view_entries(es@) =~= Seq::empty());
        push_field(&mut es, "name", Json::Str(self.name.clone()));
        push_field(&mut es, "prompt", Json::Str(self.prompt.clone()));
        push_opt_field(&mut es, "displayName", opt_string_json(&self.display_name));
        push_opt_field(&mut es, "description", opt_string_json(&self.description));
        push_opt_field(&mut es, "tools", opt_strings_json(&self.tools));
        push_opt_field(&mut es, "mcpServers", opt_members_json(&self.mcp_servers));
        let infer = match self.infer {
            Some(b) => Some(Json::Bool(b)),
            None => None,
        };
        push_opt_field(&mut es, "infer", infer);
        Json::Object(es)
    }
}

/// The JSON array of a list of custom agents.
pub open spec fn agents_view(v: Seq<CustomAgentConfig>) -> JsonView {
    JsonView::Array(Seq::new(v.len(), |i: int| v[i].wire()))
}

fn agents_json(v: &Vec<CustomAgentConfig>) -> (r: Json)
    ensures
        r@ == agents_view(v@),
{
    let mut out: Vec<Json> = Vec::new();
    let mut i: usize = 0;
    while i < v.len()
        invariant
            0 <= i <= v.len(),
            out@.len() == i,
            forall|j: int| 0 <= j < i ==> #[trigger] crate::json::json_view(out@[j]) == v@[j].wire(),
        decreases v.len() - i,
    {
        out.push(v[i].to_json());
        i = i + 1;
    }
    proof {
        crate::json::lemma_view_array(out@);
        assert(crate::json::view_array(out@) =~= Seq::new(v@.len(), |i: int| v@[i].wire()));
    }
    Json::Array(out)
}

/// The JSON array of a list of tools.
pub open spec fn tools_view(v: Seq<Tool>) -> JsonView {
    JsonView::Array(Seq::new(v.len(), |i: int| tool_wire(v[i]@)))
}

fn tools_json(v: &Vec<Tool>) -> (r: Json)
    ensures
        r@ == tools_view(v@),
{
    let mut out: Vec<Json> = Vec::new();
    let mut i: usize = 0;
    while i < v.len()
        invariant
            0 <= i <= v.len(),
            out@.len() == i,
            forall|j: int| 0 <= j < i ==> #[trigger] crate::json::json_view(out@[j]) == tool_wire(v@[j]@),
        decreases v.len() - i,
    {
        out.push(v[i].to_json());
        i = i + 1;
    }
    proof {
        crate::json::lemma_view_array(out@);
        assert(crate::json::view_array(out@) =~= Seq::new(v@.len(), |i: int| tool_wire(v@[i]@)));
    }
    Json::Array(out)
}

// =============================================================================
// Sessions
// =============================================================================

/// Configuration for creating a session.
#[derive(Debug, Clone)]
pub struct SessionConfig {
    pub session_id: Option<String>,
    pub model: Option<String>,
    pub tools: Vec<Tool>,
    pub system_message: Option<SystemMessageConfig>,
    pub available_tools: Option<Vec<String>>,
    pub excluded_tools: Option<Vec<String>>,
    pub provider: Option<ProviderConfig>,
    /// Whether to stream; not sent to the CLI.
    pub streaming: bool,
    pub mcp_servers: Option<Vec<(String, Json)>>,
    pub custom_agents: Option<Vec<CustomAgentConfig>>,
}

impl Default for SessionConfig {
    fn default() -> (r: SessionConfig)
        ensures
            r.session_id is None && r.model is None && r.tools@.len() == 0 && r.system_message is None
                && r.available_tools is None && r.excluded_tools is None && r.provider is None
                && !r.streaming && r.mcp_servers is None && r.custom_agents is None,
    {
        SessionConfig {
            session_id: None,
            model: None,
            tools: Vec::new(),
            system_message: None,
            available_tools: None,
            excluded_tools: None,
            provider: None,
            streaming: false,
            mcp_servers: None,
            custom_agents: None,
        }
    }
}

/// The tools member: left out when there are none.
pub open spec fn tools_member(v: Seq<Tool>) -> Option<JsonView> {
    if v.len() == 0 {
        None
    } else {
        Some(tools_view(v))
    }
}

fn tools_member_json(v: &Vec<Tool>) -> (r: Option<Json>)
    ensures
        crate::json::opt_view(r) == tools_member(v@),
{
    if v.len() == 0 {
        None
    } else {
        Some(tools_json(v))
    }
}

impl SessionConfig {
    pub open spec fn wire(self) -> JsonView {
        JsonView::Object(
            push_opt(
                push_opt(
                    push_opt(
                        push_opt(
                            push_opt(
                                push_opt(
                                    push_opt(
                                        push_opt(
                                            push_opt(
                                                Seq::empty(),
                                                "sessionId"@,
                                                opt_str_view(opt_string_view(self.session_id)),
                                            ),
                                            "model"@,
                                            opt_str_view(opt_string_view(self.model)),
                                        ),
                                        "tools"@,
                                        tools_member(self.tools@),
                                    ),
                                    "systemMessage"@,
                                    match self.system_message {
                                        Some(m) => Some(m.wire()),
                                        None => None,
                                    },
                                ),
                                "availableTools"@,
                                opt_strings_view(self.available_tools),
                            ),
                            "excludedTools"@,
                            opt_strings_view(self.excluded_tools),
                        ),
                        "provider"@,
                        match self.provider {
                            Some(p) => Some(p.wire()),
                            None => None,
                        },
                    ),
                    "mcpServers"@,
                    opt_members_view(self.mcp_servers),
                ),
                "customAgents"@,
                match self.custom_agents {
                    Some(a) => Some(agents_view(a@)),
                    None => None,
                },
            ),
        )
    }

    /// The parameters of `session.create`.
    pub fn to_json(&self) -> (r: Json)
        ensures
            r@ == self.wire(),
    {
        let mut es: Vec<(String, Json)> = Vec::new();
        assert(view_entries(es@) =~= Seq::empty());
        push_opt_field(&mut es, "sessionId", opt_string_json(&self.session_id));
        push_opt_field(&mut es, "model", opt_string_json(&self.model));
        push_opt_field(&mut es, "tools", tools_member_json(&self.tools));
        let sm = match &self.system_message {
            Some(m) => Some(m.to_json()),
            None => None,
        };
        push_opt_field(&mut es, "systemMessage", sm);
        push_opt_field(&mut es, "availableTools", opt_strings_json(&self.available_tools));
        push_opt_field(&mut es, "excludedTools", opt_strings_json(&self.excluded_tools));
        let p = match &self.provider {
            Some(p) => Some(p.to_json()),
            None => None,
        };
        push_opt_field(&mut es, "provider", p);
        push_opt_field(&mut es, "mcpServers", opt_members_json(&self.mcp_servers));
        let a = match &self.custom_agents {
            Some(a) => Some(agents_json(a)),
            None => None,
        };
        push_opt_field(&mut es, "customAgents", a);
        Json::Object(es)
    }
}

/// Configuration for resuming a session.
#[derive(Debug, Clone)]
pub struct ResumeSessionConfig {
    pub tools: Vec<Tool>,
    pub provider: Option<ProviderConfig>,
    /// Whether to stream; not sent to the CLI.
    pub streaming: bool,
    pub mcp_servers: Option<Vec<(String, Json)>>,
    pub custom_agents: Option<Vec<CustomAgentConfig>>,
}

impl Default for ResumeSessionConfig {
    fn default() -> (r: ResumeSessionConfig)
        ensures
            r.tools@.len() == 0 && r.provider is None && !r.streaming && r.mcp_servers is None
                && r.custom_agents is None,
    {
        ResumeSessionConfig {
            tools: Vec::new(),
            provider: None,
            streaming: false,
            mcp_servers: None,
            custom_agents: None,
        }
    }
}

impl ResumeSessionConfig {
    pub open spec fn wire(self, session_id: Seq<char>) -> JsonView {
        JsonView::Object(
            push_opt(
                push_opt(
                    push_opt(
                        push_opt(Seq::empty(), "tools"@, tools_member(self.tools@)),
                        "provider"@,
                        match self.provider {
                            Some(p) => Some(p.wire()),
                            None => None,
                        },
                    ),
                    "mcpServers"@,
                    opt_members_view(self.mcp_servers),
                ),
                "customAgents"@,
                match self.custom_agents {
                    Some(a) => Some(agents_view(a@)),
                    None => None,
                },
            ).push(("sessionId"@, JsonView::Str(session_id))),
        )
    }

    /// The parameters of `session.resume` for the session `session_id`.
    pub fn to_json(&self, session_id: &str) -> (r: Json)
        ensures
            r@ == self.wire(session_id@),
    {
        let mut es: Vec<(String, Json)> = Vec::new();
        assert(view_entries(es@) =~= Seq::empty());
        push_opt_field(&mut es, "tools", tools_member_json(&self.tools));
        let p = match &self.provider {
            Some(p) => Some(p.to_json()),
            None => None,
        };
        push_opt_field(&mut es, "provider", p);
        push_opt_field(&mut es, "mcpServers", opt_members_json(&self.mcp_servers));
        let a = match &self.custom_agents {
            Some(a) => Some(agents_json(a)),
            None => None,
        };
        push_opt_field(&mut es, "customAgents", a);
        push_field(&mut es, "sessionId", Json::string(session_id));
        Json::Object(es)
    }
}

// =============================================================================
// Messages
// =============================================================================

/// An attachment of a user message.
#[derive(Debug, Clone)]
pub struct UserMessageAttachment {
    pub attachment_type: AttachmentType,
    pub path: String,
    pub display_name: String,
}

impl UserMessageAttachment {
    pub open spec fn wire(self) -> JsonView {
        JsonView::Object(
            Seq::empty().push(("type"@, JsonView::Str(self.attachment_type.wire_spec()))).push(
                ("path"@, JsonView::Str(self.path@)),
            ).push(("displayName"@, JsonView::Str(self.display_name@))),
        )
    }

    pub fn to_json(&self) -> (r: Json)
        ensures
            r@ == self.wire(),
    {
        let mut es: Vec<(String, Json)> = Vec::new();
        assert(view_entries(es@) =~= Seq::empty());
        push_field(&mut es, "type", Json::Str(self.attachment_type.wire()));
        push_field(&mut es, "path", Json::Str(self.path.clone()));
        push_field(&mut es, "displayName", Json::Str(self.display_name.clone()));
        Json::Object(es)
    }
}

/// The wire form of an attachment carries its kind (`file` or `directory`) under `type`,
/// its own path under `path` and its own display name under `displayName`.
pub proof fn law_attachment_wire_members(x: UserMessageAttachment)
    ensures
        x.wire().get_str("type"@) == Some(
            match x.attachment_type {
                AttachmentType::File => "file"@,
                AttachmentType::Directory => "directory"@,
            },
        ),
        x.wire().get_str("path"@) == Some(x.path@),
        x.wire().get_str("displayName"@) == Some(x.display_name@),
{
    reveal_strlit("type");
    reveal_strlit("path");
    reveal_strlit("displayName");
    assert("type"@[0] != "path"@[0]);
    assert("type"@.len() == 4 && "path"@.len() == 4 && "displayName"@.len() == 11);
    reveal_with_fuel(assoc_get, 4);
    let es = x.wire()->Object_0;
    assert(es.drop_first() =~= seq![
        ("path"@, JsonView::Str(x.path@)),
        ("displayName"@, JsonView::Str(x.display_name@)),
    ]);
    assert(es.drop_first().drop_first() =~= seq![("displayName"@, JsonView::Str(x.display_name@))]);
}

/// The parameters of `session.send` carry the prompt, the session's id, and, when
/// attachments are given, all of them in order as an `attachments` array, each with its own
/// kind, path and display name; without attachments there is no `attachments` member.
pub proof fn law_send_params_carry_attachments(o: MessageOptions, session_id: Seq<char>)
    ensures
        o.wire(session_id).get_str("prompt"@) == Some(o.prompt@),
        o.wire(session_id).get_str("sessionId"@) == Some(session_id),
        o.attachments is None ==> o.wire(session_id).get("attachments"@) is None,
        o.attachments matches Some(a) ==> (o.wire(session_id).get("attachments"@) matches Some(
            JsonView::Array(arr),
        ) && arr.len() == a@.len() && forall|i: int|
            0 <= i < a@.len() ==> (#[trigger] arr[i]).get_str("path"@) == Some(a@[i].path@)
                && arr[i].get_str("displayName"@) == Some(a@[i].display_name@) && arr[i].get_str(
                "type"@,
            ) == Some(
                match a@[i].attachment_type {
                    AttachmentType::File => "file"@,
                    AttachmentType::Directory => "directory"@,
                },
            )),
{
    reveal_strlit("prompt");
    reveal_strlit("attachments");
    reveal_strlit("mode");
    reveal_strlit("sessionId");
    assert("prompt"@.len() == 6 && "attachments"@.len() == 11 && "mode"@.len() == 4
        && "sessionId"@.len() == 9);
    reveal_with_fuel(assoc_get, 5);
    let p = ("prompt"@, JsonView::Str(o.prompt@));
    let sid = ("sessionId"@, JsonView::Str(session_id));
    let av: Option<JsonView> = match o.attachments {
        Some(a) => Some(JsonView::Array(Seq::new(a@.len(), |i: int| a@[i].wire()))),
        None => None,
    };
    let mv = opt_str_view(opt_string_view(o.mode));
    let es = o.wire(session_id)->Object_0;
    match av {
        Some(x) => match mv {
            Some(y) => {
                assert(es =~= seq![p, ("attachments"@, x), ("mode"@, y), sid]);
                assert(es.drop_first() =~= seq![("attachments"@, x), ("mode"@, y), sid]);
                assert(es.drop_first().drop_first() =~= seq![("mode"@, y), sid]);
                assert(es.drop_first().drop_first().drop_first() =~= seq![sid]);
            },
            None => {
                assert(es =~= seq![p, ("attachments"@, x), sid]);
                assert(es.drop_first() =~= seq![("attachments"@, x), sid]);
                assert(es.drop_first().drop_first() =~= seq![sid]);
            },
        },
        None => match mv {
            Some(y) => {
                assert(es =~= seq![p, ("mode"@, y), sid]);
                assert(es.drop_first() =~= seq![("mode"@, y), sid]);
                assert(es.drop_first().drop_first() =~= seq![sid]);
            },
            None => {
                assert(es =~= seq![p, sid]);
                assert(es.drop_first() =~= seq![sid]);
            },
        },
    }
    if let Some(a) = o.attachments {
        let arr = Seq::new(a@.len(), |i: int| a@[i].wire());
        assert forall|i: int| 0 <= i < a@.len() implies (#[trigger] arr[i]).get_str("path"@)
            == Some(a@[i].path@) && arr[i].get_str("displayName"@) == Some(a@[i].display_name@)
            && arr[i].get_str("type"@) == Some(
            match a@[i].attachment_type {
                AttachmentType::File => "file"@,
                AttachmentType::Directory => "directory"@,
            },
        ) by {
            law_attachment_wire_members(a@[i]);
        }
    }
}

/// Options for sending a message.
#[derive(Debug, Clone)]
pub struct MessageOptions {
    pub prompt: String,
    pub attachments: Option<Vec<UserMessageAttachment>>,
    pub mode: Option<String>,
}

impl Default for MessageOptions {
    fn default() -> (r: MessageOptions)
        ensures
            r.prompt@.len() == 0 && r.attachments is None && r.mode is None,
    {
        MessageOptions { prompt: String::new(), attachments: None, mode: None }
    }
}

impl From<&str> for MessageOptions {
    fn from(prompt: &str) -> (r: MessageOptions)
        ensures
            r.prompt@ == prompt@ && r.attachments is None && r.mode is None,
    {
        MessageOptions { prompt: string_of(prompt), attachments: None, mode: None }
    }
}

impl vstd::std_specs::convert::FromSpecImpl<&str> for MessageOptions {
    open spec fn obeys_from_spec() -> bool {
        false
    }

    open spec fn from_spec(prompt: &str) -> MessageOptions {
        choose|m: MessageOptions| m.prompt@ == prompt@ && m.attachments is None && m.mode is None
    }
}

impl From<String> for MessageOptions {
    fn from(prompt: String) -> (r: MessageOptions) {
        MessageOptions { prompt, attachments: None, mode: None }
    }
}

impl vstd::std_specs::convert::FromSpecImpl<String> for MessageOptions {
    open spec fn obeys_from_spec() -> bool {
        true
    }

    open spec fn from_spec(prompt: String) -> MessageOptions {
        MessageOptions { prompt, attachments: None, mode: None }
    }
}

impl MessageOptions {
    /// Options holding only a prompt.
    pub fn prompt(prompt: &str) -> (r: MessageOptions)
        ensures
            r.prompt@ == prompt@ && r.attachments is None && r.mode is None,
    {
        MessageOptions { prompt: string_of(prompt), attachments: None, mode: None }
    }

    pub open spec fn wire(self, session_id: Seq<char>) -> JsonView {
        JsonView::Object(
            push_opt(
                push_opt(
                    Seq::empty().push(("prompt"@, JsonView::Str(self.prompt@))),
                    "attachments"@,
                    match self.attachments {
                        Some(a) => Some(
                            JsonView::Array(Seq::new(a@.len(), |i: int| a@[i].wire())),
                        ),
                        None => None,
                    },
                ),
                "mode"@,
                opt_str_view(opt_string_view(self.mode)),
            ).push(("sessionId"@, JsonView::Str(session_id))),
        )
    }

    /// The parameters of `session.send` for the session `session_id`.
    pub fn to_json(&self, session_id: &str) -> (r: Json)
        ensures
            r@ == self.wire(session_id@),
    {
        let mut es: Vec<(String, Json)> = Vec::new();
        assert(view_entries(es@) =~= Seq::empty());
        push_field(&mut es, "prompt", Json::Str(self.prompt.clone()));
        let atts = match &self.attachments {
            Some(a) => {
                let mut out: Vec<Json> = Vec::new();
                let mut i: usize = 0;
                while i < a.len()
                    invariant
                        0 <= i <= a.len(),
                        out@.len() == i,
                        forall|j: int|
                            0 <= j < i ==> #[trigger] crate::json::json_view(out@[j]) == a@[j].wire(),
                    decreases a.len() - i,
                {
                    out.push(a[i].to_json());
                    i = i + 1;
                }
                proof {
                    crate::json::lemma_view_array(out@);
                    assert(crate::json::view_array(out@) =~= Seq::new(
                        a@.len(),
                        |i: int| a@[i].wire(),
                    ));
                }
                Some(Json::Array(out))
            },
            None => None,
        };
        push_opt_field(&mut es, "attachments", atts);
        push_opt_field(&mut es, "mode", opt_string_json(&self.mode));
        push_field(&mut es, "sessionId", Json::string(session_id));
        Json::Object(es)
    }
}

} // verus!
