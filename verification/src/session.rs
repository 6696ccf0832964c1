//! A session's own state (its tools, commands, hooks and capabilities) and the decisions it
//! makes on the events and requests the CLI sends it: which broadcast requests it answers
//! and with what, how the session filesystem and hooks are dispatched, how the system
//! message is transformed, how replies are collected, and the dialogs of its UI.

use crate::error::{is_message_of, CopilotError};
use crate::json::{
    json_view, lemma_view_array, opt_string_view, push_field, push_opt_field, str_eq, view_array,
    view_entries, Json, JsonView,
};
use crate::registry::{assoc_get, assoc_set, Registry};
use crate::text::{push_str, string_of};
use crate::types::{
    permission_result_wire, result_wire, rules_view, PermissionRequest, PermissionRequestResult, Tool,
    ToolResultObject, ToolView,
};
use vstd::prelude::*;

verus! {

// =============================================================================
// Capabilities
// =============================================================================

/// What the host's UI can do.
#[derive(Debug, Clone, Copy, PartialEq, Eq, Structural)]
pub struct SessionUiCapabilities {
    pub elicitation: bool,
    pub commands: bool,
}

/// What the session's host can do.
#[derive(Debug, Clone, Copy, PartialEq, Eq, Structural)]
pub struct SessionCapabilities {
    pub ui: SessionUiCapabilities,
}

/// The capabilities after a `capabilities.changed` event: the reported flags replace the
/// current ones (none at all counting as all off); flags it does not report stay.
pub fn update_capabilities(
    current: Option<SessionCapabilities>,
    elicitation: Option<bool>,
    commands: Option<bool>,
) -> (r: SessionCapabilities)
    ensures
        r.ui.elicitation == match elicitation {
            Some(e) => e,
            None => match current {
                Some(c) => c.ui.elicitation,
                None => false,
            },
        },
        r.ui.commands == match commands {
            Some(c) => c,
            None => match current {
                Some(c) => c.ui.commands,
                None => false,
            },
        },
{
    let mut next = match current {
        Some(c) => c,
        None => SessionCapabilities {
            ui: SessionUiCapabilities { elicitation: false, commands: false },
        },
    };
    if let Some(e) = elicitation {
        next.ui.elicitation = e;
    }
    if let Some(c) = commands {
        next.ui.commands = c;
    }
    next
}

// =============================================================================
// Tools
// =============================================================================

/// A tool registered with a session, with its handler.
#[derive(Debug)]
pub struct RegisteredTool<H> {
    pub tool: Tool,
    pub handler: Option<H>,
}

/// A copy of a tool definition.
pub fn copy_tool(t: &Tool) -> (r: Tool)
    ensures
        r@ == t@,
{
    Tool {
        name: t.name.clone(),
        description: t.description.clone(),
        parameters_schema: t.parameters_schema.deep_clone(),
        skip_permission: t.skip_permission,
        overrides_built_in_tool: t.overrides_built_in_tool,
    }
}

/// A session's own state. The handlers of its tools are values of `H`; the client runs
/// them.
#[derive(Debug)]
pub struct Session<H> {
    session_id: String,
    workspace_path: Option<String>,
    tools: Registry<RegisteredTool<H>>,
    capabilities: Option<SessionCapabilities>,
}

/// The tools of a registry, each with the view of its definition and its handler.
pub open spec fn tools_view<H>(es: Seq<(Seq<char>, RegisteredTool<H>)>) -> Seq<
    (Seq<char>, (ToolView, Option<H>)),
> {
    Seq::new(es.len(), |i: int| (es[i].0, (es[i].1.tool@, es[i].1.handler)))
}

impl<H> Session<H> {
    /// The session's id.
    pub closed spec fn id_spec(&self) -> Seq<char> {
        self.session_id@
    }

    /// The session's workspace path.
    pub closed spec fn workspace_spec(&self) -> Option<Seq<char>> {
        opt_string_view(self.workspace_path)
    }

    /// The registered tools by name, in registration order.
    pub closed spec fn tools_spec(&self) -> Seq<(Seq<char>, (ToolView, Option<H>))> {
        tools_view(self.tools.view())
    }

    /// The host's capabilities, once known.
    pub closed spec fn capabilities_spec(&self) -> Option<SessionCapabilities> {
        self.capabilities
    }

    /// A session with no tools and no known capabilities.
    pub fn new(session_id: String, workspace_path: Option<String>) -> (r: Session<H>)
        ensures
            r.id_spec() == session_id@,
            r.workspace_spec() == opt_string_view(workspace_path),
            r.tools_spec() == Seq::<(Seq<char>, (ToolView, Option<H>))>::empty(),
            r.capabilities_spec() is None,
    {
        let r = Session { session_id, workspace_path, tools: Registry::new(), capabilities: None };
        assert(tools_view(r.tools.view()) =~= Seq::<(Seq<char>, (ToolView, Option<H>))>::empty());
        r
    }

    /// The session's id.
    pub fn session_id(&self) -> (r: &str)
        ensures
            r@ == self.id_spec(),
    {
        self.session_id.as_str()
    }

    /// The session's workspace path, for infinite sessions.
    pub fn workspace_path(&self) -> (r: Option<&str>)
        ensures
            match r {
                Some(w) => self.workspace_spec() == Some(w@),
                None => self.workspace_spec() is None,
            },
    {
        match &self.workspace_path {
            Some(w) => Some(w.as_str()),
            None => None,
        }
    }

    /// The host's capabilities, once known.
    pub fn capabilities(&self) -> (r: Option<SessionCapabilities>)
        ensures
            r == self.capabilities_spec(),
    {
        self.capabilities
    }

    /// The host's UI capabilities, once known.
    pub fn ui_capabilities(&self) -> (r: Option<SessionUiCapabilities>)
        ensures
            r == match self.capabilities_spec() {
                Some(c) => Some(c.ui),
                None => None,
            },
    {
        match self.capabilities {
            Some(c) => Some(c.ui),
            None => None,
        }
    }

    /// Replaces the known capabilities.
    pub fn set_capabilities(&mut self, capabilities: Option<SessionCapabilities>)
        ensures
            final(self).capabilities_spec() == capabilities,
            final(self).id_spec() == old(self).id_spec(),
            final(self).tools_spec() == old(self).tools_spec(),
            final(self).workspace_spec() == old(self).workspace_spec(),
    {
        self.capabilities = capabilities;
    }

    /// Applies a `capabilities.changed` event.
    pub fn capabilities_changed(&mut self, elicitation: Option<bool>, commands: Option<bool>)
        ensures
            final(self).capabilities_spec() matches Some(c) && c.ui.elicitation == match elicitation {
                Some(e) => e,
                None => match old(self).capabilities_spec() {
                    Some(c) => c.ui.elicitation,
                    None => false,
                },
            } && c.ui.commands == match commands {
                Some(x) => x,
                None => match old(self).capabilities_spec() {
                    Some(c) => c.ui.commands,
                    None => false,
                },
            },
            final(self).id_spec() == old(self).id_spec(),
            final(self).tools_spec() == old(self).tools_spec(),
            final(self).workspace_spec() == old(self).workspace_spec(),
    {
        self.capabilities = Some(update_capabilities(self.capabilities, elicitation, commands));
    }

    /// Registers a tool with a handler (or none), replacing a tool of the same name.
    pub fn register_tool_with_handler(&mut self, tool: Tool, handler: Option<H>)
        ensures
            final(self).tools_spec() == assoc_set(old(self).tools_spec(), tool@.name, (tool@, handler)),
            final(self).id_spec() == old(self).id_spec(),
            final(self).capabilities_spec() == old(self).capabilities_spec(),
            final(self).workspace_spec() == old(self).workspace_spec(),
    {
        let ghost before = self.tools.view();
        let ghost tv = tool@;
        let name = tool.name.clone();
        let entry = RegisteredTool { tool, handler };
        self.tools.insert(name, entry);
        proof {
            lemma_tools_view_assoc_set(before, tv.name, entry);
        }
    }

    /// Registers a tool without a handler, replacing a tool of the same name.
    pub fn register_tool(&mut self, tool: Tool)
        ensures
            final(self).tools_spec() == assoc_set(old(self).tools_spec(), tool@.name, (tool@, None::<H>)),
            final(self).id_spec() == old(self).id_spec(),
            final(self).capabilities_spec() == old(self).capabilities_spec(),
            final(self).workspace_spec() == old(self).workspace_spec(),
    {
        self.register_tool_with_handler(tool, None);
    }

    /// Registers several tools without handlers, in order.
    pub fn register_tools(&mut self, tools: Vec<Tool>)
        ensures
            final(self).tools_spec() == register_all(old(self).tools_spec(), tools@),
            final(self).id_spec() == old(self).id_spec(),
            final(self).capabilities_spec() == old(self).capabilities_spec(),
            final(self).workspace_spec() == old(self).workspace_spec(),
    {
        let mut i: usize = 0;
        assert(tools@.take(0) =~= Seq::<Tool>::empty());
        while i < tools.len()
            invariant
                0 <= i <= tools.len(),
                self.tools_spec() == register_all(old(self).tools_spec(), tools@.take(i as int)),
                self.id_spec() == old(self).id_spec(),
                self.capabilities_spec() == old(self).capabilities_spec(),
                self.workspace_spec() == old(self).workspace_spec(),
            decreases tools.len() - i,
        {
            assert(tools@.take(i + 1).drop_last() =~= tools@.take(i as int));
            let t = copy_tool(&tools[i]);
            self.register_tool(t);
            i = i + 1;
        }
        assert(tools@.take(tools.len() as int) =~= tools@);
    }

    /// Copies of the registered tool definitions, in registration order.
    pub fn get_tools(&self) -> (r: Vec<Tool>)
        ensures
            r@.len() == self.tools_spec().len(),
            forall|i: int| 0 <= i < r@.len() ==> #[trigger] r@[i]@ == self.tools_spec()[i].1.0,
    {
        let mut out: Vec<Tool> = Vec::new();
        let mut i: usize = 0;
        while i < self.tools.len()
            invariant
                0 <= i <= self.tools.view().len(),
                out@.len() == i,
                forall|j: int| 0 <= j < i ==> #[trigger] out@[j]@ == self.tools_spec()[j].1.0,
            decreases self.tools.view().len() - i,
        {
            let (_, rt) = self.tools.entry(i);
            out.push(copy_tool(&rt.tool));
            i = i + 1;
        }
        out
    }

    /// The definition of a registered tool.
    pub fn get_tool(&self, name: &str) -> (r: Option<&Tool>)
        ensures
            match r {
                Some(t) => assoc_get(self.tools_spec(), name@) matches Some(e) && e.0 == t@,
                None => assoc_get(self.tools_spec(), name@) is None,
            },
    {
        proof {
            lemma_tools_view_get(self.tools.view(), name@);
        }
        match self.tools.get(name) {
            Some(rt) => Some(&rt.tool),
            None => None,
        }
    }

    /// The handler of a registered tool: an error when the tool is unknown or has no
    /// handler.
    pub fn tool_handler(&self, name: &str) -> (r: Result<&H, CopilotError>)
        ensures
            match assoc_get(self.tools_spec(), name@) {
                None => r matches Err(CopilotError::ToolNotFound(m)) && m@ == name@,
                Some((_, None)) => r matches Err(CopilotError::ToolError(m)) && m@
                    == "No handler for tool: "@ + name@,
                Some((_, Some(h))) => r matches Ok(x) && *x == h,
            },
    {
        proof {
            lemma_tools_view_get(self.tools.view(), name@);
        }
        match self.tools.get(name) {
            None => Err(CopilotError::ToolNotFound(string_of(name))),
            Some(rt) => match &rt.handler {
                Some(h) => Ok(h),
                None => {
                    let mut m = string_of("No handler for tool: ");
                    push_str(&mut m, name);
                    Err(CopilotError::ToolError(m))
                },
            },
        }
    }
}

/// The tools after registering each of `ts` in order, without handlers.
pub open spec fn register_all<H>(
    es: Seq<(Seq<char>, (ToolView, Option<H>))>,
    ts: Seq<Tool>,
) -> Seq<(Seq<char>, (ToolView, Option<H>))>
    decreases ts.len(),
{
    if ts.len() == 0 {
        es
    } else {
        assoc_set(register_all(es, ts.drop_last()), ts.last()@.name, (ts.last()@, None))
    }
}

/// Viewing the tools commutes with registering one.
proof fn lemma_tools_view_assoc_set<H>(
    es: Seq<(Seq<char>, RegisteredTool<H>)>,
    k: Seq<char>,
    v: RegisteredTool<H>,
)
    ensures
        tools_view(assoc_set(es, k, v)) == assoc_set(tools_view(es), k, (v.tool@, v.handler)),
    decreases es.len(),
{
    if es.len() == 0 {
        assert(tools_view(assoc_set(es, k, v)) =~= seq![(k, (v.tool@, v.handler))]);
    } else if es[0].0 == k {
        assert(tools_view(assoc_set(es, k, v)) =~= tools_view(es).update(0, (k, (v.tool@, v.handler))));
    } else {
        lemma_tools_view_assoc_set(es.drop_first(), k, v);
        assert(tools_view(es).drop_first() =~= tools_view(es.drop_first()));
        assert(tools_view(assoc_set(es, k, v)) =~= seq![tools_view(es)[0]] + tools_view(
            assoc_set(es.drop_first(), k, v),
        ));
    }
}

/// Looking a tool up through the view.
proof fn lemma_tools_view_get<H>(es: Seq<(Seq<char>, RegisteredTool<H>)>, k: Seq<char>)
    ensures
        assoc_get(tools_view(es), k) == match assoc_get(es, k) {
            Some(rt) => Some((rt.tool@, rt.handler)),
            None => None,
        },
    decreases es.len(),
{
    if es.len() > 0 {
        assert(tools_view(es).drop_first() =~= tools_view(es.drop_first()));
        lemma_tools_view_get(es.drop_first(), k);
    }
}

// =============================================================================
// Broadcast requests
// =============================================================================

/// A JSON object.
pub open spec fn obj(es: Seq<(Seq<char>, JsonView)>) -> JsonView {
    JsonView::Object(es)
}

/// An `external_tool.requested` broadcast: a tool call that any client holding the tool
/// may answer.
#[derive(Debug)]
pub struct ExternalToolRequest {
    pub request_id: Option<String>,
    pub tool_name: Option<String>,
    pub tool_call_id: Option<String>,
    pub arguments: Option<Json>,
}

/// A tool call this session answers: the request id, the tool and its arguments.
#[derive(Debug)]
pub struct ToolCallPlan {
    pub request_id: String,
    pub tool_name: String,
    pub arguments: Json,
}

impl<H> Session<H> {
    /// Whether this session answers a broadcast tool call: only one that carries a request
    /// id and a tool name, for a tool registered here (another client answers the rest).
    /// Missing arguments become an empty object.
    pub fn plan_tool_request(&self, req: &ExternalToolRequest) -> (r: Option<ToolCallPlan>)
        ensures
            match r {
                Some(p) => req.request_id is Some && req.request_id->0@ == p.request_id@
                    && req.tool_name is Some && req.tool_name->0@ == p.tool_name@ && assoc_get(
                    self.tools_spec(),
                    p.tool_name@,
                ) is Some && p.arguments@ == match req.arguments {
                    Some(a) => a@,
                    None => JsonView::Object(Seq::empty()),
                },
                None => req.request_id is None || req.tool_name is None || assoc_get(
                    self.tools_spec(),
                    req.tool_name->0@,
                ) is None,
            },
    {
        let request_id = match &req.request_id {
            Some(id) => id.clone(),
            None => return None,
        };
        let tool_name = match &req.tool_name {
            Some(n) => n.clone(),
            None => return None,
        };
        if self.get_tool(tool_name.as_str()).is_none() {
            return None;
        }
        let arguments = match &req.arguments {
            Some(a) => a.deep_clone(),
            None => Json::empty_object(),
        };
        Some(ToolCallPlan { request_id, tool_name, arguments })
    }
}

/// The method that answers a broadcast tool call.
pub fn pending_tool_call_method() -> (r: &'static str)
    ensures
        r@ == "session.tools.handlePendingToolCall"@,
{
    "session.tools.handlePendingToolCall"
}

/// The method that answers a broadcast permission request.
pub fn pending_permission_method() -> (r: &'static str)
    ensures
        r@ == "session.permissions.handlePendingPermissionRequest"@,
{
    "session.permissions.handlePendingPermissionRequest"
}

/// The method that answers a broadcast command.
pub fn pending_command_method() -> (r: &'static str)
    ensures
        r@ == "session.commands.handlePendingCommand"@,
{
    "session.commands.handlePendingCommand"
}

/// `{sessionId, requestId}` followed by `extra`.
fn request_params(session_id: &str, request_id: &str, extra: Option<(&str, Json)>) -> (r: Json)
    ensures
        r@ == obj(
            match extra {
                Some((k, v)) => seq![
                    ("sessionId"@, JsonView::Str(session_id@)),
                    ("requestId"@, JsonView::Str(request_id@)),
                    (k@, v@),
                ],
                None => seq![
                    ("sessionId"@, JsonView::Str(session_id@)),
                    ("requestId"@, JsonView::Str(request_id@)),
                ],
            },
        ),
{
    let mut es: Vec<(String, Json)> = Vec::new();
    assert(view_entries(es@) =~= Seq::empty());
    push_field(&mut es, "sessionId", Json::string(session_id));
    push_field(&mut es, "requestId", Json::string(request_id));
    let ghost base = view_entries(es@);
    match extra {
        Some((k, v)) => {
            let ghost vv = v@;
            push_field(&mut es, k, v);
            assert(view_entries(es@) =~= seq![
                ("sessionId"@, JsonView::Str(session_id@)),
                ("requestId"@, JsonView::Str(request_id@)),
                (k@, vv),
            ]);
        },
        None => {
            assert(view_entries(es@) =~= seq![
                ("sessionId"@, JsonView::Str(session_id@)),
                ("requestId"@, JsonView::Str(request_id@)),
            ]);
        },
    }
    Json::Object(es)
}

/// The result a broadcast tool call that failed in this library is answered with: the
/// message as the text, an error result.
pub open spec fn error_result(m: Seq<char>) -> JsonView {
    obj(
        seq![
            ("textResultForLlm"@, JsonView::Str(m)),
            ("resultType"@, JsonView::Str("error"@)),
            ("error"@, JsonView::Str(m)),
        ],
    )
}

/// The answer to a broadcast tool call: the tool's result, or, when running it failed here
/// (unknown tool, no handler), an error result carrying the message so that the model sees
/// what went wrong.
pub fn pending_tool_call_params(
    session_id: &str,
    request_id: &str,
    outcome: &Result<ToolResultObject, CopilotError>,
) -> (r: Json)
    ensures
        match outcome {
            Ok(t) => r@ == obj(
                seq![
                    ("sessionId"@, JsonView::Str(session_id@)),
                    ("requestId"@, JsonView::Str(request_id@)),
                    ("result"@, result_wire(t@)),
                ],
            ),
            Err(e) => exists|m: Seq<char>|
                is_message_of(*e, m) && r@ == obj(
                    seq![
                        ("sessionId"@, JsonView::Str(session_id@)),
                        ("requestId"@, JsonView::Str(request_id@)),
                        ("result"@, error_result(m)),
                    ],
                ),
        },
{
    match outcome {
        Ok(t) => request_params(session_id, request_id, Some(("result", t.to_json()))),
        Err(e) => {
            let m = e.message();
            let mut es: Vec<(String, Json)> = Vec::new();
            assert(view_entries(es@) =~= Seq::empty());
            push_field(&mut es, "textResultForLlm", Json::Str(m.clone()));
            push_field(&mut es, "resultType", Json::Str(string_of("error")));
            push_field(&mut es, "error", Json::Str(m.clone()));
            assert(view_entries(es@) =~= error_result(m@)->Object_0);
            let r = request_params(session_id, request_id, Some(("result", Json::Object(es))));
            assert(is_message_of(*e, m@));
            r
        },
    }
}

/// A `permission.requested` broadcast.
#[derive(Debug)]
pub struct PermissionRequestedEvent {
    pub request_id: Option<String>,
    pub permission_request: Option<Json>,
}

/// The request a permission broadcast asks about, when it carries a request id and data.
pub fn plan_permission_request(ev: &PermissionRequestedEvent) -> (r: Option<(String, PermissionRequest)>)
    ensures
        match r {
            Some((id, req)) => ev.request_id is Some && ev.request_id->0@ == id@
                && ev.permission_request is Some && req.kind@ == match ev.permission_request->0@.get_str("kind"@) {
                Some(k) => k,
                None => "unknown"@,
            } && opt_string_view(req.tool_call_id) == ev.permission_request->0@.get_str("toolCallId"@)
                && view_entries(req.extension_data@) == match ev.permission_request->0@ {
                JsonView::Object(es) => crate::client::extension_members(es),
                _ => Seq::empty(),
            },
            None => ev.request_id is None || ev.permission_request is None,
        },
{
    let id = match &ev.request_id {
        Some(x) => x.clone(),
        None => return None,
    };
    match &ev.permission_request {
        Some(d) => Some((id, PermissionRequest::from_json(d))),
        None => None,
    }
}

/// The answer to a broadcast permission request: `{sessionId, requestId, result: {kind,
/// rules?}}`.
pub fn pending_permission_params(
    session_id: &str,
    request_id: &str,
    result: &PermissionRequestResult,
) -> (r: Json)
    ensures
        r@ == obj(
            seq![
                ("sessionId"@, JsonView::Str(session_id@)),
                ("requestId"@, JsonView::Str(request_id@)),
                ("result"@, permission_result_wire(result.kind@, rules_view(result.rules))),
            ],
        ),
{
    request_params(session_id, request_id, Some(("result", result.to_json())))
}

/// The permission result when no handler is registered: a denial.
pub fn default_permission_result(handled: Option<PermissionRequestResult>) -> (r: PermissionRequestResult)
    ensures
        match handled {
            Some(h) => r == h,
            None => r.kind@ == crate::types::denied_kind() && r.rules is None,
        },
{
    match handled {
        Some(h) => h,
        None => PermissionRequestResult::denied(),
    }
}

// =============================================================================
// Commands
// =============================================================================

/// What a command handler is given.
#[derive(Debug, Clone)]
pub struct CommandContext {
    pub session_id: String,
    pub command: Option<String>,
    pub command_name: Option<String>,
    pub args: Option<String>,
    /// The same as `args`, under its older name.
    pub arguments: Option<String>,
    /// The same as `command`, under its older name.
    pub raw_input: Option<String>,
}

/// A `command.execute` broadcast.
#[derive(Debug)]
pub struct CommandExecuteEvent {
    pub request_id: Option<String>,
    pub command_name: Option<String>,
    pub command: Option<String>,
    pub args: Option<String>,
}

/// Slash commands registered with a session, each with its handler (or none).
#[derive(Debug)]
pub struct Commands<C> {
    pub commands: Registry<Option<C>>,
}

impl<C> Commands<C> {
    /// No commands.
    pub fn new() -> (r: Commands<C>)
        ensures
            r.commands.view() == Seq::<(Seq<char>, Option<C>)>::empty(),
    {
        Commands { commands: Registry::new() }
    }

    /// Registers a command, replacing one of the same name.
    pub fn register_command(&mut self, name: String, handler: Option<C>)
        ensures
            final(self).commands.view() == assoc_set(old(self).commands.view(), name@, handler),
    {
        self.commands.insert(name, handler);
    }

    /// Registers several commands in order, each replacing one of the same name.
    pub fn register_commands(&mut self, commands: Vec<(String, Option<C>)>)
        ensures
            final(self).commands.view() == register_commands_spec(
                old(self).commands.view(),
                commands@,
            ),
    {
        let ghost all = commands@;
        let mut rest = commands;
        while rest.len() > 0
            invariant
                register_commands_spec(old(self).commands.view(), all) == register_commands_spec(
                    self.commands.view(),
                    rest@,
                ),
            decreases rest.len(),
        {
            let ghost before = rest@;
            let (name, handler) = rest.remove(0);
            assert(rest@ =~= before.drop_first());
            self.commands.insert(name, handler);
        }
    }

    /// The handler of a registered command (`None` when it has none, which answers with the
    /// default result); an unknown command is a protocol error.
    pub fn command_handler(&self, name: &str) -> (r: Result<Option<&C>, CopilotError>)
        ensures
            match self.commands.lookup(name@) {
                None => r matches Err(CopilotError::Protocol(m)) && m@ == "Unknown command: "@
                    + name@,
                Some(None) => r == Ok::<Option<&C>, CopilotError>(None),
                Some(Some(h)) => r matches Ok(Some(x)) && *x == h,
            },
    {
        match self.commands.get(name) {
            None => {
                let mut m = string_of("Unknown command: ");
                push_str(&mut m, name);
                Err(CopilotError::Protocol(m))
            },
            Some(h) => match h {
                Some(x) => Ok(Some(x)),
                None => Ok(None),
            },
        }
    }

    /// Whether this session answers a broadcast command: only one that carries a request id
    /// and a command name registered here. Its context carries the command text and
    /// arguments under both their names.
    pub fn plan_command(&self, session_id: &str, ev: &CommandExecuteEvent) -> (r: Option<
        (String, String, CommandContext),
    >)
        ensures
            match r {
                Some((id, name, ctx)) => ev.request_id is Some && ev.request_id->0@ == id@
                    && ev.command_name is Some && ev.command_name->0@ == name@ && self.commands.lookup(
                    name@,
                ) is Some && ctx.session_id@ == session_id@ && opt_string_view(ctx.command)
                    == opt_string_view(ev.command) && opt_string_view(ctx.raw_input)
                    == opt_string_view(ev.command) && opt_string_view(ctx.args) == opt_string_view(
                    ev.args,
                ) && opt_string_view(ctx.arguments) == opt_string_view(ev.args)
                    && ctx.command_name is Some && ctx.command_name->0@ == name@,
                None => ev.request_id is None || ev.command_name is None || self.commands.lookup(
                    ev.command_name->0@,
                ) is None,
            },
    {
        let id = match &ev.request_id {
            Some(x) => x.clone(),
            None => return None,
        };
        let name = match &ev.command_name {
            Some(n) => n.clone(),
            None => return None,
        };
        if !self.commands.contains(name.as_str()) {
            return None;
        }
        let ctx = CommandContext {
            session_id: string_of(session_id),
            command: copy_opt(&ev.command),
            command_name: Some(name.clone()),
            args: copy_opt(&ev.args),
            arguments: copy_opt(&ev.args),
            raw_input: copy_opt(&ev.command),
        };
        Some((id, name, ctx))
    }
}

/// The commands after registering each of `cs` in order.
pub open spec fn register_commands_spec<C>(
    es: Seq<(Seq<char>, Option<C>)>,
    cs: Seq<(String, Option<C>)>,
) -> Seq<(Seq<char>, Option<C>)>
    decreases cs.len(),
{
    if cs.len() == 0 {
        es
    } else {
        register_commands_spec(assoc_set(es, cs[0].0@, cs[0].1), cs.drop_first())
    }
}

/// A copy of an optional string.
fn copy_opt(s: &Option<String>) -> (r: Option<String>)
    ensures
        opt_string_view(r) == opt_string_view(*s),
{
    match s {
        Some(x) => Some(x.clone()),
        None => None,
    }
}

/// The answer to a broadcast command: `{sessionId, requestId}`, with the error's message
/// when the command failed.
pub fn pending_command_params(
    session_id: &str,
    request_id: &str,
    outcome: &Result<(), CopilotError>,
) -> (r: Json)
    ensures
        match outcome {
            Ok(()) => r@ == obj(
                seq![
                    ("sessionId"@, JsonView::Str(session_id@)),
                    ("requestId"@, JsonView::Str(request_id@)),
                ],
            ),
            Err(e) => exists|m: Seq<char>|
                is_message_of(*e, m) && r@ == obj(
                    seq![
                        ("sessionId"@, JsonView::Str(session_id@)),
                        ("requestId"@, JsonView::Str(request_id@)),
                        ("error"@, JsonView::Str(m)),
                    ],
                ),
        },
{
    match outcome {
        Ok(()) => request_params(session_id, request_id, None),
        Err(e) => {
            let m = e.message();
            let ghost mv = m@;
            let r = request_params(session_id, request_id, Some(("error", Json::Str(m))));
            assert(is_message_of(*e, mv));
            r
        },
    }
}

// =============================================================================
// Hooks
// =============================================================================

/// The kinds of hook the runtime invokes.
#[derive(Debug, Clone, Copy, PartialEq, Eq, Structural)]
pub enum HookKind {
    PreToolUse,
    PostToolUse,
    UserPromptSubmitted,
    SessionStart,
    SessionEnd,
    ErrorOccurred,
}

impl HookKind {
    pub open spec fn name_spec(self) -> Seq<char> {
        match self {
            HookKind::PreToolUse => "preToolUse"@,
            HookKind::PostToolUse => "postToolUse"@,
            HookKind::UserPromptSubmitted => "userPromptSubmitted"@,
            HookKind::SessionStart => "sessionStart"@,
            HookKind::SessionEnd => "sessionEnd"@,
            HookKind::ErrorOccurred => "errorOccurred"@,
        }
    }

    /// The hook kind a `hooks.invoke` type names.
    pub fn from_name(name: &str) -> (r: Option<HookKind>)
        ensures
            match r {
                Some(k) => k.name_spec() == name@,
                None => forall|k: HookKind| k.name_spec() != name@,
            },
    {
        if str_eq(name, "preToolUse") {
            Some(HookKind::PreToolUse)
        } else if str_eq(name, "postToolUse") {
            Some(HookKind::PostToolUse)
        } else if str_eq(name, "userPromptSubmitted") {
            Some(HookKind::UserPromptSubmitted)
        } else if str_eq(name, "sessionStart") {
            Some(HookKind::SessionStart)
        } else if str_eq(name, "sessionEnd") {
            Some(HookKind::SessionEnd)
        } else if str_eq(name, "errorOccurred") {
            Some(HookKind::ErrorOccurred)
        } else {
            assert forall|k: HookKind| k.name_spec() != name@ by {
                match k {
                    HookKind::PreToolUse => {},
                    HookKind::PostToolUse => {},
                    HookKind::UserPromptSubmitted => {},
                    HookKind::SessionStart => {},
                    HookKind::SessionEnd => {},
                    HookKind::ErrorOccurred => {},
                }
            }
            None
        }
    }

    /// The hook's name as the runtime spells it.
    pub fn name(&self) -> (r: &'static str)
        ensures
            r@ == self.name_spec(),
    {
        match self {
            HookKind::PreToolUse => "preToolUse",
            HookKind::PostToolUse => "postToolUse",
            HookKind::UserPromptSubmitted => "userPromptSubmitted",
            HookKind::SessionStart => "sessionStart",
            HookKind::SessionEnd => "sessionEnd",
            HookKind::ErrorOccurred => "errorOccurred",
        }
    }
}

/// Which hooks are registered.
#[derive(Debug, Clone, Copy, PartialEq, Eq, Structural)]
pub struct HookSet {
    pub on_pre_tool_use: bool,
    pub on_post_tool_use: bool,
    pub on_user_prompt_submitted: bool,
    pub on_session_start: bool,
    pub on_session_end: bool,
    pub on_error_occurred: bool,
}

impl HookSet {
    pub open spec fn has_spec(self, k: HookKind) -> bool {
        match k {
            HookKind::PreToolUse => self.on_pre_tool_use,
            HookKind::PostToolUse => self.on_post_tool_use,
            HookKind::UserPromptSubmitted => self.on_user_prompt_submitted,
            HookKind::SessionStart => self.on_session_start,
            HookKind::SessionEnd => self.on_session_end,
            HookKind::ErrorOccurred => self.on_error_occurred,
        }
    }

    /// Whether any hook is registered.
    pub fn has_any(&self) -> (r: bool)
        ensures
            r == exists|k: HookKind| self.has_spec(k),
    {
        let r = self.on_pre_tool_use || self.on_post_tool_use || self.on_user_prompt_submitted
            || self.on_session_start || self.on_session_end || self.on_error_occurred;
        proof {
            if self.on_pre_tool_use {
                assert(self.has_spec(HookKind::PreToolUse));
            }
            if self.on_post_tool_use {
                assert(self.has_spec(HookKind::PostToolUse));
            }
            if self.on_user_prompt_submitted {
                assert(self.has_spec(HookKind::UserPromptSubmitted));
            }
            if self.on_session_start {
                assert(self.has_spec(HookKind::SessionStart));
            }
            if self.on_session_end {
                assert(self.has_spec(HookKind::SessionEnd));
            }
            if self.on_error_occurred {
                assert(self.has_spec(HookKind::ErrorOccurred));
            }
            if !r {
                assert forall|k: HookKind| !self.has_spec(k) by {
                    match k {
                        HookKind::PreToolUse => {},
                        HookKind::PostToolUse => {},
                        HookKind::UserPromptSubmitted => {},
                        HookKind::SessionStart => {},
                        HookKind::SessionEnd => {},
                        HookKind::ErrorOccurred => {},
                    }
                }
            }
        }
        r
    }

    /// Whether the hook of kind `k` is registered.
    pub fn has(&self, k: HookKind) -> (r: bool)
        ensures
            r == self.has_spec(k),
    {
        match k {
            HookKind::PreToolUse => self.on_pre_tool_use,
            HookKind::PostToolUse => self.on_post_tool_use,
            HookKind::UserPromptSubmitted => self.on_user_prompt_submitted,
            HookKind::SessionStart => self.on_session_start,
            HookKind::SessionEnd => self.on_session_end,
            HookKind::ErrorOccurred => self.on_error_occurred,
        }
    }
}

/// Which hook answers a `hooks.invoke` of type `hook_type`: none when no hooks are
/// registered, the type is unknown, or its hook is not registered (the answer is then
/// `null`).
pub fn hook_to_run(hooks: Option<HookSet>, hook_type: &str) -> (r: Option<HookKind>)
    ensures
        match r {
            Some(k) => hooks matches Some(h) && h.has_spec(k) && k.name_spec() == hook_type@,
            None => match hooks {
                None => true,
                Some(h) => forall|k: HookKind| k.name_spec() == hook_type@ ==> !h.has_spec(k),
            },
        },
{
    let h = match hooks {
        Some(h) => h,
        None => return None,
    };
    match HookKind::from_name(hook_type) {
        Some(k) => if h.has(k) {
            Some(k)
        } else {
            proof {
                assert forall|j: HookKind| j.name_spec() == hook_type@ implies !h.has_spec(j) by {
                    lemma_hook_names_distinct(j, k);
                }
            }
            None
        },
        None => None,
    }
}

/// Different hook kinds have different names.
proof fn lemma_hook_names_distinct(a: HookKind, b: HookKind)
    requires
        a.name_spec() == b.name_spec(),
    ensures
        a == b,
{
    reveal_strlit("preToolUse");
    reveal_strlit("postToolUse");
    reveal_strlit("userPromptSubmitted");
    reveal_strlit("sessionStart");
    reveal_strlit("sessionEnd");
    reveal_strlit("errorOccurred");
    assert("preToolUse"@[1] == 'r' && "postToolUse"@[1] == 'o');
    assert("userPromptSubmitted"@.len() == 19 && "sessionStart"@.len() == 12);
    assert("sessionEnd"@.len() == 10 && "errorOccurred"@.len() == 13);
    assert("preToolUse"@.len() == 10 && "postToolUse"@.len() == 11);
    assert("sessionEnd"@[0] == 's' && "preToolUse"@[0] == 'p');
}

/// The error for a hook input that does not decode.
pub fn invalid_hook_input(kind: HookKind, detail: &str) -> (r: CopilotError)
    ensures
        r matches CopilotError::Protocol(m) && m@ == "Invalid "@ + kind.name_spec() + " input: "@
            + detail@,
{
    let mut m = string_of("Invalid ");
    push_str(&mut m, kind.name());
    push_str(&mut m, " input: ");
    push_str(&mut m, detail);
    CopilotError::Protocol(m)
}

// =============================================================================
// System message transform
// =============================================================================

/// The sections a `systemMessage.transform` asks about, each with its content (empty when
/// it has none), in order.
pub open spec fn transform_inputs_spec(sections: JsonView) -> Seq<(Seq<char>, Seq<char>)> {
    match sections {
        JsonView::Object(es) => Seq::new(
            es.len(),
            |i: int|
                (es[i].0, match es[i].1.get_str("content"@) {
                    Some(c) => c,
                    None => Seq::empty(),
                }),
        ),
        _ => Seq::empty(),
    }
}

/// The sections of a `systemMessage.transform` with their contents.
pub fn transform_inputs(sections: &Json) -> (r: Vec<(String, String)>)
    ensures
        Seq::new(r@.len(), |i: int| (r@[i].0@, r@[i].1@)) == transform_inputs_spec(sections@),
{
    let mut out: Vec<(String, String)> = Vec::new();
    match sections {
        Json::Object(es) => {
            proof {
                crate::json::lemma_view_entries(es@);
            }
            let ghost ves = view_entries(es@);
            let mut i: usize = 0;
            while i < es.len()
                invariant
                    0 <= i <= es.len(),
                    ves == view_entries(es@),
                    ves.len() == es@.len(),
                    forall|j: int|
                        0 <= j < es@.len() ==> #[trigger] ves[j] == (es@[j].0@, json_view(es@[j].1)),
                    out@.len() == i,
                    forall|j: int|
                        0 <= j < i ==> (#[trigger] out@[j]).0@ == ves[j].0 && out@[j].1@ == match ves[j].1.get_str(
                            "content"@,
                        ) {
                            Some(c) => c,
                            None => Seq::empty(),
                        },
                decreases es.len() - i,
            {
                let content = match es[i].1.get_str("content") {
                    Some(c) => string_of(c),
                    None => String::new(),
                };
                out.push((es[i].0.clone(), content));
                i = i + 1;
            }
            assert(Seq::new(out@.len(), |i: int| (out@[i].0@, out@[i].1@)) =~= transform_inputs_spec(
                sections@,
            ));
            out
        },
        _ => {
            assert(Seq::new(out@.len(), |i: int| (out@[i].0@, out@[i].1@)) =~= transform_inputs_spec(
                sections@,
            ));
            out
        },
    }
}

/// The content a section goes back with: the callback's output when the section has one,
/// else its content unchanged.
pub fn transformed_content(callback_output: Option<String>, content: String) -> (r: String)
    ensures
        r == match callback_output {
            Some(o) => o,
            None => content,
        },
{
    match callback_output {
        Some(o) => o,
        None => content,
    }
}

/// The reply to a `systemMessage.transform`: `{sections: {id: {content}}}`.
pub open spec fn transform_reply_spec(results: Seq<(Seq<char>, Seq<char>)>) -> JsonView {
    obj(
        seq![
            ("sections"@, obj(
                Seq::new(
                    results.len(),
                    |i: int| (results[i].0, obj(seq![("content"@, JsonView::Str(results[i].1))])),
                ),
            )),
        ],
    )
}

/// Builds the reply to a `systemMessage.transform`.
pub fn transform_reply(results: &Vec<(String, String)>) -> (r: Json)
    ensures
        r@ == transform_reply_spec(Seq::new(results@.len(), |i: int| (results@[i].0@, results@[i].1@))),
{
    let ghost rv = Seq::new(results@.len(), |i: int| (results@[i].0@, results@[i].1@));
    let mut es: Vec<(String, Json)> = Vec::new();
    let mut i: usize = 0;
    assert(view_entries(es@) =~= Seq::empty());
    while i < results.len()
        invariant
            0 <= i <= results.len(),
            rv == Seq::new(results@.len(), |i: int| (results@[i].0@, results@[i].1@)),
            view_entries(es@) =~= Seq::new(
                i as nat,
                |k: int| (rv[k].0, obj(seq![("content"@, JsonView::Str(rv[k].1))])),
            ),
        decreases results.len() - i,
    {
        let mut inner: Vec<(String, Json)> = Vec::new();
        assert(view_entries(inner@) =~= Seq::empty());
        push_field(&mut inner, "content", Json::Str(results[i].1.clone()));
        assert(view_entries(inner@) =~= seq![("content"@, JsonView::Str(rv[i as int].1))]);
        push_field(&mut es, results[i].0.as_str(), Json::Object(inner));
        i = i + 1;
    }
    let mut outer: Vec<(String, Json)> = Vec::new();
    assert(view_entries(outer@) =~= Seq::empty());
    let ghost sv = view_entries(es@);
    push_field(&mut outer, "sections", Json::Object(es));
    assert(view_entries(outer@) =~= seq![("sections"@, obj(sv))]);
    Json::Object(outer)
}

// =============================================================================
// Waiting for replies
// =============================================================================

/// What a subscriber to the session's events receives, as far as waiting for a reply is
/// concerned.
#[derive(Debug, Clone)]
pub enum Received {
    /// A complete assistant message with its content.
    AssistantMessage(String),
    /// A piece of an assistant message being streamed.
    AssistantMessageDelta(String),
    /// The session became idle: the reply is complete.
    SessionIdle,
    /// The session reported an error with this message.
    SessionError(String),
    /// Any other event.
    OtherEvent,
    /// The event stream was closed.
    Closed,
    /// Some events were missed because the subscriber fell behind.
    Lagged,
}

/// What a waiter does after receiving something.
#[derive(Debug)]
pub enum WaitStep {
    /// Keep waiting.
    Continue,
    /// The wait is over.
    Finished,
    /// The wait failed.
    Failed(CopilotError),
}

/// The error a session error event ends a wait with.
pub open spec fn session_error_message(m: Seq<char>) -> Seq<char> {
    "Session error: "@ + m
}

/// Whether `s` is the step that ends or continues a wait after receiving `r`: idle finishes
/// it, a session error or a closed stream fails it, anything else continues it.
pub open spec fn wait_step_spec(r: Received, s: WaitStep) -> bool {
    match r {
        Received::SessionIdle => s is Finished,
        Received::SessionError(m) => s matches WaitStep::Failed(CopilotError::Protocol(x)) && x@
            == session_error_message(m@),
        Received::Closed => s matches WaitStep::Failed(CopilotError::ConnectionClosed),
        _ => s is Continue,
    }
}

/// The step a wait takes after receiving `r`.
pub fn wait_step(r: &Received) -> (s: WaitStep)
    ensures
        wait_step_spec(*r, s),
{
    match r {
        Received::SessionIdle => WaitStep::Finished,
        Received::SessionError(m) => {
            let mut x = string_of("Session error: ");
            push_str(&mut x, m.as_str());
            WaitStep::Failed(CopilotError::Protocol(x))
        },
        Received::Closed => WaitStep::Failed(CopilotError::ConnectionClosed),
        _ => WaitStep::Continue,
    }
}

/// The text that receiving `r` adds to a collected reply: a message's content or a delta.
pub open spec fn collected_piece(r: Received) -> Seq<char> {
    match r {
        Received::AssistantMessage(c) => c@,
        Received::AssistantMessageDelta(d) => d@,
        _ => Seq::empty(),
    }
}

/// Collects the text of a reply: every assistant message's content and every delta, in the
/// order they arrive, until the session is idle.
#[derive(Debug)]
pub struct ReplyCollector {
    pub content: String,
}

impl ReplyCollector {
    /// A collector holding no text.
    pub fn new() -> (r: ReplyCollector)
        ensures
            r.content@ == Seq::<char>::empty(),
    {
        ReplyCollector { content: String::new() }
    }

    /// Takes in what was received and says whether to go on.
    pub fn receive(&mut self, r: &Received) -> (s: WaitStep)
        ensures
            final(self).content@ == old(self).content@ + collected_piece(*r),
            *r matches Received::AssistantMessage(c) ==> final(self).content@ == old(self).content@
                + c@,
            *r matches Received::AssistantMessageDelta(d) ==> final(self).content@
                == old(self).content@ + d@,
            !(*r is AssistantMessage) && !(*r is AssistantMessageDelta) ==> final(self).content@
                == old(self).content@,
            wait_step_spec(*r, s),
    {
        match r {
            Received::AssistantMessage(c) => push_str(&mut self.content, c.as_str()),
            Received::AssistantMessageDelta(d) => push_str(&mut self.content, d.as_str()),
            _ => {
                assert(old(self).content@ + collected_piece(*r) =~= old(self).content@);
            },
        }
        wait_step(r)
    }
}

/// The text collected from everything received, in order.
pub open spec fn collected(rs: Seq<Received>) -> Seq<char>
    decreases rs.len(),
{
    if rs.len() == 0 {
        Seq::empty()
    } else {
        collected(rs.drop_last()) + collected_piece(rs.last())
    }
}

/// Receiving events one after another with [`ReplyCollector::receive`] collects the texts of
/// the assistant's messages and deltas among them, concatenated in the order received:
/// `contents[i]` is the collected text before the `i`-th event.
pub proof fn law_collector_concatenates(contents: Seq<Seq<char>>, rs: Seq<Received>)
    requires
        contents.len() == rs.len() + 1,
        forall|i: int|
            0 <= i < rs.len() ==> #[trigger] contents[i + 1] == contents[i] + collected_piece(rs[i]),
    ensures
        contents.last() == contents[0] + collected(rs),
    decreases rs.len(),
{
    if rs.len() == 0 {
        assert(contents[0] + collected(rs) =~= contents[0]);
    } else {
        let n = rs.len() as int;
        let front = contents.drop_last();
        assert forall|i: int| 0 <= i < rs.drop_last().len() implies #[trigger] front[i + 1] == front[i]
            + collected_piece(rs.drop_last()[i]) by {
            assert(contents[i + 1] == contents[i] + collected_piece(rs[i]));
        }
        law_collector_concatenates(front, rs.drop_last());
        assert(contents[n] == contents[n - 1] + collected_piece(rs[n - 1]));
        assert(contents.last() =~= contents[0] + collected(rs));
    }
}

/// What a collected reply is made of: a complete assistant message adds its whole content
/// after what was collected before it, a streamed delta adds its piece, and every other
/// event (idle, an error, other events, a closed or lagging stream) adds nothing.
pub proof fn law_collected_reply_texts(rs: Seq<Received>, c: String, r: Received)
    ensures
        collected(rs.push(Received::AssistantMessage(c))) == collected(rs) + c@,
        collected(rs.push(Received::AssistantMessageDelta(c))) == collected(rs) + c@,
        !(r is AssistantMessage) && !(r is AssistantMessageDelta) ==> collected(rs.push(r))
            == collected(rs),
        collected(seq![Received::AssistantMessage(c), Received::SessionIdle]) == c@,
{
    assert(rs.push(Received::AssistantMessage(c)).drop_last() =~= rs);
    assert(rs.push(Received::AssistantMessageDelta(c)).drop_last() =~= rs);
    assert(rs.push(r).drop_last() =~= rs);
    if !(r is AssistantMessage) && !(r is AssistantMessageDelta) {
        assert(collected(rs) + collected_piece(r) =~= collected(rs));
    }
    let one = seq![Received::AssistantMessage(c)];
    let two = seq![Received::AssistantMessage(c), Received::SessionIdle];
    assert(two.drop_last() =~= one);
    assert(one.drop_last() =~= Seq::<Received>::empty());
    assert(collected(Seq::<Received>::empty()) == Seq::<char>::empty());
    assert(collected(one) == collected(Seq::<Received>::empty()) + c@);
    assert(Seq::<char>::empty() + c@ =~= c@);
    assert(collected(two) == collected(one) + collected_piece(Received::SessionIdle));
    assert(c@ + Seq::<char>::empty() =~= c@);
}

/// A wait for idle remembers complete assistant messages and nothing else: not the
/// streamed deltas, and no other event.
pub proof fn law_remembers_complete_messages(c: String, r: Received)
    ensures
        is_assistant_message(Received::AssistantMessage(c)),
        !is_assistant_message(Received::AssistantMessageDelta(c)),
        !(r is AssistantMessage) ==> !is_assistant_message(r),
{
}

/// Whether a received event replaces the last assistant message a wait for idle reports.
pub open spec fn is_assistant_message(r: Received) -> bool {
    r is AssistantMessage
}

/// Whether a received event is a complete assistant message (the last of which a wait for
/// idle reports).
pub fn remembers(r: &Received) -> (b: bool)
    ensures
        b == is_assistant_message(*r),
        b <==> *r is AssistantMessage,
{
    match r {
        Received::AssistantMessage(_) => true,
        _ => false,
    }
}

/// The default time to wait for a reply, in seconds.
pub const DEFAULT_TIMEOUT_SECS: u64 = 60;

// =============================================================================
// Requests to the CLI
// =============================================================================

/// The id of a sent message; the reply must carry it.
pub fn message_id(result: &Json) -> (r: Result<String, CopilotError>)
    ensures
        match r {
            Ok(id) => result@.get_str("messageId"@) == Some(id@),
            Err(e) => result@.get_str("messageId"@) is None && (e matches CopilotError::Protocol(m)
                && m@ == "Missing messageId in response"@),
        },
{
    match result.get_str("messageId") {
        Some(id) => Ok(string_of(id)),
        None => Err(CopilotError::Protocol(string_of("Missing messageId in response"))),
    }
}

/// The events of a `session.getMessages` reply: its `events` array, else its `messages`
/// array; a protocol error when it has neither.
pub fn message_events(result: &Json) -> (r: Result<&Vec<Json>, CopilotError>)
    ensures
        match (result@.get("events"@), result@.get("messages"@)) {
            (Some(JsonView::Array(a)), _) => r matches Ok(v) && view_array(v@) == a,
            (_, Some(JsonView::Array(a))) => r matches Ok(v) && view_array(v@) == a,
            _ => r matches Err(CopilotError::Protocol(m)) && m@
                == "Missing events in getMessages response"@,
        },
{
    match result.get("events") {
        Some(Json::Array(a)) => return Ok(a),
        _ => {},
    }
    match result.get("messages") {
        Some(Json::Array(a)) => Ok(a),
        _ => Err(CopilotError::Protocol(string_of("Missing events in getMessages response"))),
    }
}

/// The parameters of `session.setModel`: the session, the model, and the reasoning effort
/// and capabilities override when given.
pub fn set_model_params(
    session_id: &str,
    model: &str,
    reasoning_effort: Option<String>,
    model_capabilities: Option<Json>,
) -> (r: Json)
    ensures
        r@ == obj(
            crate::json::push_opt(
                crate::json::push_opt(
                    seq![
                        ("sessionId"@, JsonView::Str(session_id@)),
                        ("model"@, JsonView::Str(model@)),
                    ],
                    "reasoningEffort"@,
                    crate::json::opt_str_view(opt_string_view(reasoning_effort)),
                ),
                "modelCapabilities"@,
                crate::json::opt_view(model_capabilities),
            ),
        ),
{
    let mut es: Vec<(String, Json)> = Vec::new();
    assert(view_entries(es@) =~= Seq::empty());
    push_field(&mut es, "sessionId", Json::string(session_id));
    push_field(&mut es, "model", Json::string(model));
    assert(view_entries(es@) =~= seq![
        ("sessionId"@, JsonView::Str(session_id@)),
        ("model"@, JsonView::Str(model@)),
    ]);
    let effort = match reasoning_effort {
        Some(e) => Some(Json::Str(e)),
        None => None,
    };
    push_opt_field(&mut es, "reasoningEffort", effort);
    push_opt_field(&mut es, "modelCapabilities", model_capabilities);
    Json::Object(es)
}

/// The parameters of `session.log`: the session, the message, and the level and whether it
/// is ephemeral when given.
pub fn log_params(session_id: &str, message: &str, level: Option<&str>, ephemeral: Option<bool>) -> (r: Json)
    ensures
        r@ == obj(
            crate::json::push_opt(
                crate::json::push_opt(
                    seq![
                        ("sessionId"@, JsonView::Str(session_id@)),
                        ("message"@, JsonView::Str(message@)),
                    ],
                    "level"@,
                    match level {
                        Some(l) => Some(JsonView::Str(l@)),
                        None => None,
                    },
                ),
                "ephemeral"@,
                match ephemeral {
                    Some(b) => Some(JsonView::Bool(b)),
                    None => None,
                },
            ),
        ),
{
    let mut es: Vec<(String, Json)> = Vec::new();
    assert(view_entries(es@) =~= Seq::empty());
    push_field(&mut es, "sessionId", Json::string(session_id));
    push_field(&mut es, "message", Json::string(message));
    assert(view_entries(es@) =~= seq![
        ("sessionId"@, JsonView::Str(session_id@)),
        ("message"@, JsonView::Str(message@)),
    ]);
    let l = match level {
        Some(l) => Some(Json::string(l)),
        None => None,
    };
    push_opt_field(&mut es, "level", l);
    let e = match ephemeral {
        Some(b) => Some(Json::Bool(b)),
        None => None,
    };
    push_opt_field(&mut es, "ephemeral", e);
    Json::Object(es)
}

// =============================================================================
// UI dialogs
// =============================================================================

/// Options of a text-input dialog.
#[derive(Debug, Clone)]
pub struct InputOptions {
    pub title: Option<String>,
    pub description: Option<String>,
    pub min_length: Option<u64>,
    pub max_length: Option<u64>,
    pub format: Option<String>,
    pub default: Option<String>,
}

/// The user's answer to a dialog.
#[derive(Debug, Clone)]
pub struct UiElicitationResult {
    /// `accept`, `decline` or `cancel`.
    pub action: String,
    /// The submitted form, when accepted.
    pub content: Option<Json>,
}

impl UiElicitationResult {
    /// Reads a `session.ui.elicitation` reply: the action is required, the content is kept
    /// when present and not null.
    pub fn from_json(v: &Json) -> (r: Option<UiElicitationResult>)
        ensures
            match r {
                Some(u) => v@ is Object && v@.get_str("action"@) == Some(u.action@) && crate::json::opt_view(
                    u.content,
                ) == match v@.get("content"@) {
                    Some(JsonView::Null) => None,
                    other => other,
                },
                None => !(v@ is Object) || v@.get_str("action"@) is None,
            },
    {
        if !v.is_object() {
            return None;
        }
        let action = match v.get_str("action") {
            Some(a) => string_of(a),
            None => return None,
        };
        let content = match v.get("content") {
            Some(Json::Null) => None,
            Some(c) => Some(c.deep_clone()),
            None => None,
        };
        Some(UiElicitationResult { action, content })
    }
}

/// The parameters of `session.ui.elicitation`.
pub fn elicitation_params(session_id: &str, message: &str, requested_schema: Json) -> (r: Json)
    ensures
        r@ == obj(
            seq![
                ("sessionId"@, JsonView::Str(session_id@)),
                ("message"@, JsonView::Str(message@)),
                ("requestedSchema"@, requested_schema@),
            ],
        ),
{
    let ghost sv = requested_schema@;
    let mut es: Vec<(String, Json)> = Vec::new();
    assert(view_entries(es@) =~= Seq::empty());
    push_field(&mut es, "sessionId", Json::string(session_id));
    push_field(&mut es, "message", Json::string(message));
    push_field(&mut es, "requestedSchema", requested_schema);
    assert(view_entries(es@) =~= seq![
        ("sessionId"@, JsonView::Str(session_id@)),
        ("message"@, JsonView::Str(message@)),
        ("requestedSchema"@, sv),
    ]);
    Json::Object(es)
}

/// A form schema with one required property `name` described by `field`.
pub open spec fn form_schema(name: Seq<char>, field: JsonView) -> JsonView {
    obj(
        seq![
            ("type"@, JsonView::Str("object"@)),
            ("properties"@, obj(seq![(name, field)])),
            ("required"@, JsonView::Array(seq![JsonView::Str(name)])),
        ],
    )
}

fn form_schema_json(name: &str, field: Json) -> (r: Json)
    ensures
        r@ == form_schema(name@, field@),
{
    let ghost fv = field@;
    let mut props: Vec<(String, Json)> = Vec::new();
    assert(view_entries(props@) =~= Seq::empty());
    push_field(&mut props, name, field);
    assert(view_entries(props@) =~= seq![(name@, fv)]);
    let mut req: Vec<Json> = Vec::new();
    req.push(Json::string(name));
    proof {
        lemma_view_array(req@);
        assert(view_array(req@) =~= seq![JsonView::Str(name@)]);
    }
    let mut es: Vec<(String, Json)> = Vec::new();
    assert(view_entries(es@) =~= Seq::empty());
    push_field(&mut es, "type", Json::string("object"));
    let ghost pv = view_entries(props@);
    push_field(&mut es, "properties", Json::Object(props));
    push_field(&mut es, "required", Json::Array(req));
    assert(view_entries(es@) =~= form_schema(name@, fv)->Object_0);
    Json::Object(es)
}

/// The schema of a confirmation dialog: a required boolean `confirmed`, `true` by default.
pub open spec fn confirm_schema_spec() -> JsonView {
    form_schema(
        "confirmed"@,
        obj(seq![("type"@, JsonView::Str("boolean"@)), ("default"@, JsonView::Bool(true))]),
    )
}

/// The schema of a confirmation dialog.
pub fn confirm_schema() -> (r: Json)
    ensures
        r@ == confirm_schema_spec(),
{
    let mut f: Vec<(String, Json)> = Vec::new();
    assert(view_entries(f@) =~= Seq::empty());
    push_field(&mut f, "type", Json::string("boolean"));
    push_field(&mut f, "default", Json::Bool(true));
    assert(view_entries(f@) =~= seq![
        ("type"@, JsonView::Str("boolean"@)),
        ("default"@, JsonView::Bool(true)),
    ]);
    form_schema_json("confirmed", Json::Object(f))
}

/// The schema of a select dialog: a required string `selection` among the options.
pub open spec fn select_schema_spec(options: Seq<String>) -> JsonView {
    form_schema(
        "selection"@,
        obj(
            seq![
                ("type"@, JsonView::Str("string"@)),
                ("enum"@, crate::json::strings_view(options)),
            ],
        ),
    )
}

/// The schema of a select dialog.
pub fn select_schema(options: &Vec<String>) -> (r: Json)
    ensures
        r@ == select_schema_spec(options@),
{
    let mut f: Vec<(String, Json)> = Vec::new();
    assert(view_entries(f@) =~= Seq::empty());
    push_field(&mut f, "type", Json::string("string"));
    push_field(&mut f, "enum", crate::json::strings_json(options));
    assert(view_entries(f@) =~= seq![
        ("type"@, JsonView::Str("string"@)),
        ("enum"@, crate::json::strings_view(options@)),
    ]);
    form_schema_json("selection", Json::Object(f))
}

/// The field of a text-input dialog: a string, with the options that are given.
pub open spec fn input_field_spec(o: Option<InputOptions>) -> JsonView {
    let base = seq![("type"@, JsonView::Str("string"@))];
    match o {
        None => obj(base),
        Some(opts) => obj(
            crate::json::push_opt(
                crate::json::push_opt(
                    crate::json::push_opt(
                        crate::json::push_opt(
                            crate::json::push_opt(
                                crate::json::push_opt(
                                    base,
                                    "title"@,
                                    crate::json::opt_str_view(opt_string_view(opts.title)),
                                ),
                                "description"@,
                                crate::json::opt_str_view(opt_string_view(opts.description)),
                            ),
                            "minLength"@,
                            u64_opt_view(opts.min_length),
                        ),
                        "maxLength"@,
                        u64_opt_view(opts.max_length),
                    ),
                    "format"@,
                    crate::json::opt_str_view(opt_string_view(opts.format)),
                ),
                "default"@,
                crate::json::opt_str_view(opt_string_view(opts.default)),
            ),
        ),
    }
}

/// An optional non-negative number's JSON view.
pub open spec fn u64_opt_view(v: Option<u64>) -> Option<JsonView> {
    match v {
        Some(n) => Some(JsonView::Number(crate::json::NumberView::PosInt(n))),
        None => None,
    }
}

fn u64_opt_json(v: Option<u64>) -> (r: Option<Json>)
    ensures
        crate::json::opt_view(r) == u64_opt_view(v),
{
    match v {
        Some(n) => Some(Json::Number(crate::json::JsonNumber::PosInt(n))),
        None => None,
    }
}

/// The schema of a text-input dialog: a required string `value`.
pub open spec fn input_schema_spec(o: Option<InputOptions>) -> JsonView {
    form_schema("value"@, input_field_spec(o))
}

/// The schema of a text-input dialog.
pub fn input_schema(options: Option<&InputOptions>) -> (r: Json)
    ensures
        r@ == input_schema_spec(match options {
            Some(o) => Some(*o),
            None => None,
        }),
{
    let mut f: Vec<(String, Json)> = Vec::new();
    assert(view_entries(f@) =~= Seq::empty());
    push_field(&mut f, "type", Json::string("string"));
    assert(view_entries(f@) =~= seq![("type"@, JsonView::Str("string"@))]);
    if let Some(opts) = options {
        push_opt_field(&mut f, "title", crate::json::opt_string_json(&opts.title));
        push_opt_field(&mut f, "description", crate::json::opt_string_json(&opts.description));
        push_opt_field(&mut f, "minLength", u64_opt_json(opts.min_length));
        push_opt_field(&mut f, "maxLength", u64_opt_json(opts.max_length));
        push_opt_field(&mut f, "format", crate::json::opt_string_json(&opts.format));
        push_opt_field(&mut f, "default", crate::json::opt_string_json(&opts.default));
    }
    form_schema_json("value", Json::Object(f))
}

/// Whether a dialog was accepted.
pub open spec fn accepted(r: UiElicitationResult) -> bool {
    r.action@ == "accept"@
}

/// The submitted member `key` of an accepted dialog.
pub open spec fn submitted(r: UiElicitationResult, key: Seq<char>) -> Option<JsonView> {
    match r.content {
        Some(c) => c@.get(key),
        None => None,
    }
}

/// The answer of a confirmation dialog: accepted with `confirmed` true.
pub fn confirm_result(r: &UiElicitationResult) -> (b: bool)
    ensures
        b == (accepted(*r) && submitted(*r, "confirmed"@) == Some(JsonView::Bool(true))),
{
    if !str_eq(r.action.as_str(), "accept") {
        return false;
    }
    match &r.content {
        Some(c) => match c.get_bool("confirmed") {
            Some(b) => b,
            None => false,
        },
        None => false,
    }
}

/// The string an accepted dialog submitted under `key`; `None` when declined, cancelled or
/// missing.
pub fn submitted_string(r: &UiElicitationResult, key: &str) -> (s: Option<String>)
    ensures
        match s {
            Some(x) => accepted(*r) && submitted(*r, key@) == Some(JsonView::Str(x@)),
            None => !accepted(*r) || !(submitted(*r, key@) matches Some(JsonView::Str(_))),
        },
{
    if !str_eq(r.action.as_str(), "accept") {
        return None;
    }
    match &r.content {
        Some(c) => match c.get_str(key) {
            Some(x) => Some(string_of(x)),
            None => None,
        },
        None => None,
    }
}

// =============================================================================
// Incoming events
// =============================================================================

/// What a session event sent by the CLI means to the session.
#[derive(Debug)]
pub enum IncomingEvent {
    /// `external_tool.requested`.
    ToolRequested(ExternalToolRequest),
    /// `permission.requested`.
    PermissionRequested(PermissionRequestedEvent),
    /// `command.execute`.
    CommandExecute(CommandExecuteEvent),
    /// `capabilities.changed`, with the UI flags it reports.
    CapabilitiesChanged { elicitation: Option<bool>, commands: Option<bool> },
    /// Anything else, as a waiter for replies sees it.
    Other(Received),
}

/// A string member of an event's `data`.
pub open spec fn data_str(event: JsonView, key: Seq<char>) -> Option<Seq<char>> {
    match event.get("data"@) {
        Some(d) => d.get_str(key),
        None => None,
    }
}

/// A member of an event's `data`.
pub open spec fn data_member(event: JsonView, key: Seq<char>) -> Option<JsonView> {
    match event.get("data"@) {
        Some(d) => d.get(key),
        None => None,
    }
}

/// A boolean of the `ui` member of an event's `data`.
pub open spec fn data_ui_flag(event: JsonView, key: Seq<char>) -> Option<bool> {
    match data_member(event, "ui"@) {
        Some(u) => u.get_bool(key),
        None => None,
    }
}

/// An optional string's view compared with an optional view.
pub open spec fn same_opt_str(s: Option<String>, v: Option<Seq<char>>) -> bool {
    opt_string_view(s) == v
}

/// A missing string read as empty.
pub open spec fn or_empty(v: Option<Seq<char>>) -> Seq<char> {
    match v {
        Some(s) => s,
        None => Seq::empty(),
    }
}

/// Whether `r` is what the event with type `t` means to the session.
pub open spec fn classify_spec(event: JsonView, r: IncomingEvent) -> bool {
    let t = event.get_str("type"@);
    if t == Some("external_tool.requested"@) {
        r matches IncomingEvent::ToolRequested(q) && same_opt_str(q.request_id, data_str(event, "requestId"@))
            && same_opt_str(q.tool_name, data_str(event, "toolName"@)) && same_opt_str(
            q.tool_call_id,
            data_str(event, "toolCallId"@),
        ) && crate::json::opt_view(q.arguments) == data_member(event, "arguments"@)
    } else if t == Some("permission.requested"@) {
        r matches IncomingEvent::PermissionRequested(q) && same_opt_str(q.request_id, data_str(event, "requestId"@))
            && crate::json::opt_view(q.permission_request) == data_member(
            event,
            "permissionRequest"@,
        )
    } else if t == Some("command.execute"@) {
        r matches IncomingEvent::CommandExecute(q) && same_opt_str(q.request_id, data_str(event, "requestId"@))
            && same_opt_str(q.command_name, data_str(event, "commandName"@)) && same_opt_str(
            q.command,
            data_str(event, "command"@),
        ) && same_opt_str(q.args, data_str(event, "args"@))
    } else if t == Some("capabilities.changed"@) {
        r == IncomingEvent::CapabilitiesChanged {
            elicitation: data_ui_flag(event, "elicitation"@),
            commands: data_ui_flag(event, "commands"@),
        }
    } else if t == Some("assistant.message"@) {
        r matches IncomingEvent::Other(Received::AssistantMessage(c)) && c@ == or_empty(
            data_str(event, "content"@),
        )
    } else if t == Some("assistant.message_delta"@) {
        r matches IncomingEvent::Other(Received::AssistantMessageDelta(c)) && c@ == or_empty(
            data_str(event, "deltaContent"@),
        )
    } else if t == Some("session.idle"@) {
        r matches IncomingEvent::Other(Received::SessionIdle)
    } else if t == Some("session.error"@) {
        r matches IncomingEvent::Other(Received::SessionError(m)) && m@ == or_empty(
            data_str(event, "message"@),
        )
    } else {
        r matches IncomingEvent::Other(Received::OtherEvent)
    }
}

/// A string member of the event's `data`, copied.
fn data_string(event: &Json, key: &str) -> (r: Option<String>)
    ensures
        same_opt_str(r, data_str(event@, key@)),
{
    match event.get("data") {
        Some(d) => match d.get_str(key) {
            Some(x) => Some(string_of(x)),
            None => None,
        },
        None => None,
    }
}

/// A member of the event's `data`, copied.
fn data_json(event: &Json, key: &str) -> (r: Option<Json>)
    ensures
        crate::json::opt_view(r) == data_member(event@, key@),
{
    match event.get("data") {
        Some(d) => match d.get(key) {
            Some(x) => Some(x.deep_clone()),
            None => None,
        },
        None => None,
    }
}

/// A flag of the `ui` member of the event's `data`.
fn data_flag(event: &Json, key: &str) -> (r: Option<bool>)
    ensures
        r == data_ui_flag(event@, key@),
{
    match event.get("data") {
        Some(d) => match d.get("ui") {
            Some(u) => u.get_bool(key),
            None => None,
        },
        None => None,
    }
}

/// Reads what a session event means to the session, by its `type`.
pub fn classify_event(event: &Json) -> (r: IncomingEvent)
    ensures
        classify_spec(event@, r),
{
    let t = match event.get_str("type") {
        Some(t) => t,
        None => "",
    };
    let has = event.get_str("type").is_some();
    proof {
        reveal_strlit("");
    }
    if has && str_eq(t, "external_tool.requested") {
        IncomingEvent::ToolRequested(
            ExternalToolRequest {
                request_id: data_string(event, "requestId"),
                tool_name: data_string(event, "toolName"),
                tool_call_id: data_string(event, "toolCallId"),
                arguments: data_json(event, "arguments"),
            },
        )
    } else if has && str_eq(t, "permission.requested") {
        IncomingEvent::PermissionRequested(
            PermissionRequestedEvent {
                request_id: data_string(event, "requestId"),
                permission_request: data_json(event, "permissionRequest"),
            },
        )
    } else if has && str_eq(t, "command.execute") {
        IncomingEvent::CommandExecute(
            CommandExecuteEvent {
                request_id: data_string(event, "requestId"),
                command_name: data_string(event, "commandName"),
                command: data_string(event, "command"),
                args: data_string(event, "args"),
            },
        )
    } else if has && str_eq(t, "capabilities.changed") {
        IncomingEvent::CapabilitiesChanged {
            elicitation: data_flag(event, "elicitation"),
            commands: data_flag(event, "commands"),
        }
    } else if has && str_eq(t, "assistant.message") {
        let c = match data_string(event, "content") {
            Some(c) => c,
            None => String::new(),
        };
        IncomingEvent::Other(Received::AssistantMessage(c))
    } else if has && str_eq(t, "assistant.message_delta") {
        let c = match data_string(event, "deltaContent") {
            Some(c) => c,
            None => String::new(),
        };
        IncomingEvent::Other(Received::AssistantMessageDelta(c))
    } else if has && str_eq(t, "session.idle") {
        IncomingEvent::Other(Received::SessionIdle)
    } else if has && str_eq(t, "session.error") {
        let m = match data_string(event, "message") {
            Some(m) => m,
            None => String::new(),
        };
        IncomingEvent::Other(Received::SessionError(m))
    } else {
        IncomingEvent::Other(Received::OtherEvent)
    }
}

} // verus!
