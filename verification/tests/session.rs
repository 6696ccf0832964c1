use copilot_sdk::dialogs::{
    handle_auto_mode_switch_request, handle_elicitation_request, handle_exit_plan_mode_request,
    handle_user_input_request, AutoModeSwitchRequest, AutoModeSwitchResponse, ElicitationContext,
    ElicitationParams, ElicitationResult, ExitPlanModeRequest, ExitPlanModeResult,
    UserInputInvocation, UserInputRequest, UserInputResponse,
};
use copilot_sdk::error::CopilotError;
use copilot_sdk::json::Json;
use copilot_sdk::session::{
    confirm_result, confirm_schema, hook_to_run, input_schema, message_events, message_id,
    pending_command_params, pending_permission_params, pending_tool_call_params,
    plan_permission_request, select_schema, submitted_string, transform_inputs, transform_reply,
    transformed_content, wait_step, CommandContext, CommandExecuteEvent, Commands,
    ExternalToolRequest, HookKind, HookSet, InputOptions, PermissionRequestedEvent, Received,
    ReplyCollector, Session, SessionCapabilities, SessionUiCapabilities, UiElicitationResult,
    WaitStep,
};
use copilot_sdk::types::{PermissionRequestResult, Tool, ToolResultObject};

type Handler = fn(&str, &Json) -> ToolResultObject;

fn echo(name: &str, _args: &Json) -> ToolResultObject {
    ToolResultObject::text(name)
}

fn s(x: &str) -> Json {
    Json::Str(x.to_string())
}

fn obj(members: Vec<(&str, Json)>) -> Json {
    Json::Object(members.into_iter().map(|(k, v)| (k.to_string(), v)).collect())
}

#[test]
fn test_session_id() {
    let session: Session<Handler> = Session::new("test-session-123".to_string(), None);
    assert_eq!(session.session_id(), "test-session-123");
}

#[test]
fn test_workspace_path() {
    let session: Session<Handler> =
        Session::new("test".to_string(), Some("/tmp/workspace".to_string()));
    assert_eq!(session.workspace_path(), Some("/tmp/workspace"));
}

#[test]
fn test_session_capabilities_accessors() {
    let mut session: Session<Handler> = Session::new("test".to_string(), None);
    assert!(session.capabilities().is_none());
    assert!(session.ui_capabilities().is_none());
    session.set_capabilities(Some(SessionCapabilities {
        ui: SessionUiCapabilities {
            elicitation: true,
            commands: true,
        },
    }));
    let capabilities = session.capabilities().unwrap();
    assert!(capabilities.ui.elicitation);
    assert!(capabilities.ui.commands);
    let ui = session.ui_capabilities().unwrap();
    assert!(ui.elicitation);
    assert!(ui.commands);
}

#[test]
fn test_capabilities_changed_event_updates_session_capabilities() {
    let mut session: Session<Handler> = Session::new("test".to_string(), None);
    session.capabilities_changed(Some(true), None);
    let ui = session.ui_capabilities().unwrap();
    assert!(ui.elicitation);
    assert!(!ui.commands);
}

#[test]
fn test_register_tool() {
    let mut session: Session<Handler> = Session::new("test".to_string(), None);
    let tool = Tool::new("my_tool").description("A test tool");
    session.register_tool(tool);
    let retrieved = session.get_tool("my_tool");
    assert!(retrieved.is_some());
    assert_eq!(retrieved.unwrap().description, "A test tool");
}

#[test]
fn test_register_tool_with_handler() {
    let mut session: Session<Handler> = Session::new("test".to_string(), None);
    session.register_tool_with_handler(Tool::new("echo"), Some(echo as Handler));
    let handler = session.tool_handler("echo").unwrap();
    let result = handler("echo", &obj(vec![]));
    assert_eq!(result.text_result_for_llm, "echo");
}

#[test]
fn test_invoke_unknown_tool() {
    let session: Session<Handler> = Session::new("test".to_string(), None);
    match session.tool_handler("nonexistent") {
        Err(CopilotError::ToolNotFound(name)) => assert_eq!(name, "nonexistent"),
        other => panic!("unexpected {:?}", other.map(|_| ())),
    }
}

#[test]
fn tool_without_handler_and_replacement() {
    let mut session: Session<Handler> = Session::new("test".to_string(), None);
    session.register_tools(vec![Tool::new("a"), Tool::new("b")]);
    match session.tool_handler("a") {
        Err(CopilotError::ToolError(m)) => assert_eq!(m, "No handler for tool: a"),
        other => panic!("unexpected {:?}", other.map(|_| ())),
    }
    session.register_tool(Tool::new("a").description("second"));
    assert_eq!(session.get_tool("a").unwrap().description, "second");
    assert!(session.get_tool("b").is_some());
}

#[test]
fn broadcast_tool_requests() {
    let mut session: Session<Handler> = Session::new("s1".to_string(), None);
    session.register_tool_with_handler(Tool::new("echo"), Some(echo as Handler));
    let req = ExternalToolRequest {
        request_id: Some("r1".into()),
        tool_name: Some("echo".into()),
        tool_call_id: None,
        arguments: None,
    };
    let plan = session.plan_tool_request(&req).unwrap();
    assert_eq!(plan.request_id, "r1");
    assert_eq!(plan.tool_name, "echo");
    assert!(matches!(plan.arguments, Json::Object(ref es) if es.is_empty()));
    let other = ExternalToolRequest {
        request_id: Some("r2".into()),
        tool_name: Some("elsewhere".into()),
        tool_call_id: None,
        arguments: None,
    };
    assert!(session.plan_tool_request(&other).is_none());
    let ok = pending_tool_call_params("s1", "r1", &Ok(ToolResultObject::text("hi")));
    assert_eq!(ok.get_str("sessionId"), Some("s1"));
    assert_eq!(ok.get_str("requestId"), Some("r1"));
    assert_eq!(ok.get("result").unwrap().get_str("textResultForLlm"), Some("hi"));
    let err = pending_tool_call_params("s1", "r1", &Err(CopilotError::ToolNotFound("x".into())));
    let inner = err.get("result").unwrap();
    assert_eq!(inner.get_str("textResultForLlm"), Some("Tool not found: x"));
    assert_eq!(inner.get_str("resultType"), Some("error"));
    assert_eq!(inner.get_str("error"), Some("Tool not found: x"));
}

#[test]
fn broadcast_permission_requests() {
    let ev = PermissionRequestedEvent {
        request_id: Some("r1".into()),
        permission_request: Some(obj(vec![("kind", s("write")), ("path", s("/x"))])),
    };
    let (id, req) = plan_permission_request(&ev).unwrap();
    assert_eq!(id, "r1");
    assert_eq!(req.kind, "write");
    let p = pending_permission_params("s1", "r1", &PermissionRequestResult::denied());
    assert_eq!(
        p.get("result").unwrap().get_str("kind"),
        Some("denied-no-approval-rule-and-could-not-request-from-user")
    );
    let none = PermissionRequestedEvent { request_id: None, permission_request: None };
    assert!(plan_permission_request(&none).is_none());
}

#[test]
fn test_command_context_back_compat_fields() {
    let ctx = CommandContext {
        session_id: "s".to_string(),
        command: Some("/help".into()),
        command_name: Some("help".into()),
        args: Some("".into()),
        arguments: Some("".into()),
        raw_input: Some("/help".into()),
    };
    assert_eq!(ctx.command.as_deref(), Some("/help"));
    assert_eq!(ctx.raw_input.as_deref(), Some("/help"));
}

#[test]
fn broadcast_commands() {
    let mut commands: Commands<u8> = Commands::new();
    commands.register_command("help".to_string(), Some(7));
    commands.register_command("quiet".to_string(), None);
    let ev = CommandExecuteEvent {
        request_id: Some("r".into()),
        command_name: Some("help".into()),
        command: Some("/help me".into()),
        args: Some("me".into()),
    };
    let (id, name, ctx) = commands.plan_command("s1", &ev).unwrap();
    assert_eq!((id.as_str(), name.as_str()), ("r", "help"));
    assert_eq!(ctx.raw_input.as_deref(), Some("/help me"));
    assert_eq!(ctx.arguments.as_deref(), Some("me"));
    assert_eq!(commands.command_handler("help").unwrap(), Some(&7));
    assert_eq!(commands.command_handler("quiet").unwrap(), None);
    match commands.command_handler("nope") {
        Err(CopilotError::Protocol(m)) => assert_eq!(m, "Unknown command: nope"),
        other => panic!("unexpected {:?}", other),
    }
    let ok = pending_command_params("s1", "r", &Ok(()));
    assert!(ok.get("error").is_none());
    let err = pending_command_params("s1", "r", &Err(CopilotError::Protocol("x".into())));
    assert_eq!(err.get_str("error"), Some("Protocol error: x"));
}

#[test]
fn test_hooks_invoke_no_handler_returns_null() {
    assert_eq!(hook_to_run(None, "preToolUse"), None);
    let only_start = HookSet {
        on_pre_tool_use: false,
        on_post_tool_use: false,
        on_user_prompt_submitted: false,
        on_session_start: true,
        on_session_end: false,
        on_error_occurred: false,
    };
    assert_eq!(hook_to_run(Some(only_start), "preToolUse"), None);
    assert_eq!(hook_to_run(Some(only_start), "sessionStart"), Some(HookKind::SessionStart));
    assert!(only_start.has_any());
}

#[test]
fn test_hooks_invoke_unknown_type_returns_null() {
    let pre = HookSet {
        on_pre_tool_use: true,
        on_post_tool_use: false,
        on_user_prompt_submitted: false,
        on_session_start: false,
        on_session_end: false,
        on_error_occurred: false,
    };
    assert_eq!(hook_to_run(Some(pre), "unknownHookType"), None);
    assert_eq!(hook_to_run(Some(pre), "preToolUse"), Some(HookKind::PreToolUse));
}

#[test]
fn test_system_message_transform_callback() {
    let sections = obj(vec![
        ("tone", obj(vec![("content", s("be friendly"))])),
        ("identity", obj(vec![("content", s("you are an agent"))])),
    ]);
    let inputs = transform_inputs(&sections);
    let results: Vec<(String, String)> = inputs
        .into_iter()
        .map(|(id, content)| {
            let out = if id == "tone" {
                Some(format!("{} [transformed]", content))
            } else {
                None
            };
            (id, transformed_content(out, content))
        })
        .collect();
    let response = transform_reply(&results);
    let out = response.get("sections").unwrap();
    assert_eq!(
        out.get("tone").unwrap().get("content").unwrap().as_str(),
        Some("be friendly [transformed]")
    );
    assert_eq!(
        out.get("identity").unwrap().get("content").unwrap().as_str(),
        Some("you are an agent")
    );
}

#[test]
fn collecting_a_reply() {
    let mut c = ReplyCollector::new();
    assert!(matches!(c.receive(&Received::AssistantMessageDelta("Hel".into())), WaitStep::Continue));
    assert!(matches!(c.receive(&Received::Lagged), WaitStep::Continue));
    assert!(matches!(c.receive(&Received::AssistantMessageDelta("lo".into())), WaitStep::Continue));
    assert!(matches!(c.receive(&Received::OtherEvent), WaitStep::Continue));
    assert!(matches!(c.receive(&Received::SessionIdle), WaitStep::Finished));
    assert_eq!(c.content, "Hello");
    match wait_step(&Received::SessionError("boom".into())) {
        WaitStep::Failed(CopilotError::Protocol(m)) => assert_eq!(m, "Session error: boom"),
        other => panic!("unexpected {:?}", other),
    }
    assert!(matches!(
        wait_step(&Received::Closed),
        WaitStep::Failed(CopilotError::ConnectionClosed)
    ));
}

#[test]
fn messages_and_events() {
    assert_eq!(message_id(&obj(vec![("messageId", s("m1"))])).unwrap(), "m1");
    assert!(message_id(&obj(vec![])).is_err());
    let r = obj(vec![("events", Json::Array(vec![obj(vec![("type", s("session.idle"))])]))]);
    assert_eq!(message_events(&r).unwrap().len(), 1);
    let r = obj(vec![("messages", Json::Array(vec![]))]);
    assert_eq!(message_events(&r).unwrap().len(), 0);
    match message_events(&obj(vec![])) {
        Err(CopilotError::Protocol(m)) => assert_eq!(m, "Missing events in getMessages response"),
        other => panic!("unexpected {:?}", other),
    }
}

#[test]
fn ui_dialogs() {
    let c = confirm_schema();
    assert_eq!(c.get_str("type"), Some("object"));
    let prop = c.get("properties").unwrap().get("confirmed").unwrap();
    assert_eq!(prop.get_str("type"), Some("boolean"));
    assert_eq!(prop.get_bool("default"), Some(true));
    let sel = select_schema(&vec!["a".to_string(), "b".to_string()]);
    let e = sel.get("properties").unwrap().get("selection").unwrap().get("enum").unwrap();
    assert!(matches!(e, Json::Array(v) if v.len() == 2));
    let opts = InputOptions {
        title: Some("Name".into()),
        description: None,
        min_length: Some(1),
        max_length: None,
        format: None,
        default: Some("x".into()),
    };
    let inp = input_schema(Some(&opts));
    let field = inp.get("properties").unwrap().get("value").unwrap();
    assert_eq!(field.get_str("title"), Some("Name"));
    assert_eq!(field.get_u64("minLength"), Some(1));
    assert!(field.get("maxLength").is_none());
    let accepted = UiElicitationResult::from_json(&obj(vec![
        ("action", s("accept")),
        ("content", obj(vec![("confirmed", Json::Bool(true)), ("value", s("v"))])),
    ]))
    .unwrap();
    assert!(confirm_result(&accepted));
    assert_eq!(submitted_string(&accepted, "value"), Some("v".to_string()));
    let declined = UiElicitationResult::from_json(&obj(vec![("action", s("decline"))])).unwrap();
    assert!(!confirm_result(&declined));
    assert_eq!(submitted_string(&declined, "value"), None);
}

#[test]
fn registering_several_commands() {
    let mut commands: Commands<u8> = Commands::new();
    commands.register_commands(vec![
        ("a".to_string(), Some(1)),
        ("b".to_string(), None),
        ("a".to_string(), Some(2)),
    ]);
    assert_eq!(commands.commands.len(), 2);
    assert_eq!(commands.command_handler("a").unwrap(), Some(&2));
    assert_eq!(commands.command_handler("b").unwrap(), None);
}

#[test]
fn test_user_input_handler() {
    let handler = |req: &UserInputRequest, _inv: &UserInputInvocation| {
        assert_eq!(req.question, "What color?");
        UserInputResponse { answer: "blue".into(), was_freeform: Some(true) }
    };
    let request = UserInputRequest {
        question: "What color?".into(),
        choices: Some(vec!["red".into(), "blue".into()]),
        allow_freeform: Some(true),
    };
    let invocation = UserInputInvocation::new("test");
    let response = handle_user_input_request(Some(&handler), &invocation, &request).unwrap();
    assert_eq!(response.answer, "blue");
    assert_eq!(response.was_freeform, Some(true));
}

#[test]
fn test_user_input_no_handler_errors() {
    let request = UserInputRequest { question: "?".into(), choices: None, allow_freeform: None };
    let invocation = UserInputInvocation::new("test");
    let none: Option<&fn(&UserInputRequest, &UserInputInvocation) -> UserInputResponse> = None;
    let result = handle_user_input_request(none, &invocation, &request);
    assert!(result.is_err());
    assert_eq!(result.unwrap_err().message(), "Protocol error: No user input handler registered");
}

#[test]
fn test_exit_plan_mode_default_when_unregistered() {
    let request = ExitPlanModeRequest {
        session_id: None,
        summary: "done".into(),
        plan_content: None,
        actions: vec!["autopilot".into()],
        recommended_action: "autopilot".into(),
    };
    let none: Option<&fn(&ExitPlanModeRequest) -> ExitPlanModeResult> = None;
    let result = handle_exit_plan_mode_request(none, &request);
    assert!(result.approved);
}

#[test]
fn test_exit_plan_mode_dispatch() {
    let handler = |req: &ExitPlanModeRequest| ExitPlanModeResult {
        approved: false,
        selected_action: Some(req.recommended_action.clone()),
        feedback: Some("not now".into()),
    };
    let request = ExitPlanModeRequest {
        session_id: Some("s".into()),
        summary: "done".into(),
        plan_content: None,
        actions: vec!["autopilot".into(), "manual".into()],
        recommended_action: "autopilot".into(),
    };
    let result = handle_exit_plan_mode_request(Some(&handler), &request);
    assert!(!result.approved);
    assert_eq!(result.selected_action.as_deref(), Some("autopilot"));
}

#[test]
fn test_auto_mode_switch_default_when_unregistered() {
    let req = AutoModeSwitchRequest::default();
    let none: Option<&fn(&AutoModeSwitchRequest) -> AutoModeSwitchResponse> = None;
    let resp = handle_auto_mode_switch_request(none, &req);
    assert_eq!(resp, AutoModeSwitchResponse::No);
}

#[test]
fn auto_mode_switch_uses_the_handler() {
    let handler = |_req: &AutoModeSwitchRequest| AutoModeSwitchResponse::YesAlways;
    let req = AutoModeSwitchRequest { error_code: Some("rate_limited".into()), retry_after_seconds: Some(30) };
    assert_eq!(handle_auto_mode_switch_request(Some(&handler), &req), AutoModeSwitchResponse::YesAlways);
}

#[test]
fn elicitation_uses_the_handler_or_fails_without_one() {
    let handler = |ctx: &ElicitationContext| {
        if ctx.params.elicitation_type == "confirm" {
            ElicitationResult::accept(Json::Bool(true))
        } else {
            ElicitationResult::dismiss()
        }
    };
    let context = ElicitationContext {
        session_id: "s".into(),
        params: ElicitationParams {
            elicitation_type: "confirm".into(),
            message: "Apply?".into(),
            options: None,
        },
    };
    let accepted = handle_elicitation_request(Some(&handler), &context).unwrap();
    assert_eq!(accepted.action, "accept");
    assert!(matches!(accepted.content, Some(Json::Bool(true))));
    let none: Option<&fn(&ElicitationContext) -> ElicitationResult> = None;
    let err = handle_elicitation_request(none, &context).unwrap_err();
    assert_eq!(err.message(), "Protocol error: No elicitation handler registered");
    let dismissed = ElicitationResult::dismiss();
    assert_eq!(dismissed.action, "cancel");
    assert!(dismissed.content.is_none());
}
