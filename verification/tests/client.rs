use copilot_sdk::client::{
    check_protocol_version, created_session_info, delete_outcome, normalize_tool_arguments,
    parse_cli_url, parse_listening_port, permission_call, permission_reply, resolve_cli_command,
    resolve_cli_command_with, route_request, session_event_target, sessions_from_result,
    tcp_address, tool_result_reply, unknown_session_reply, unsupported_tool_reply, Client,
    ConnectAction, LaunchPlan, RequestRoute, ToolCallRequest,
};
use copilot_sdk::error::CopilotError;
use copilot_sdk::json::{Json, JsonNumber};
use copilot_sdk::types::{
    ClientOptions, ConnectionState, LogLevel, PermissionRequest, PermissionRequestResult,
    ToolResultObject,
};

fn s(x: &str) -> Json {
    Json::Str(x.to_string())
}

fn n(x: u64) -> Json {
    Json::Number(JsonNumber::PosInt(x))
}

fn obj(members: Vec<(&str, Json)>) -> Json {
    Json::Object(members.into_iter().map(|(k, v)| (k.to_string(), v)).collect())
}

fn same(a: &Json, b: &Json) -> bool {
    format!("{:?}", a) == format!("{:?}", b)
}

#[test]
fn test_client_builder() {
    let client = Client::builder()
        .cli_path("/usr/bin/copilot")
        .cli_arg("--foo")
        .use_stdio(true)
        .log_level(LogLevel::Debug)
        .cwd("/tmp")
        .env("FOO", "bar")
        .build();

    assert!(client.is_ok());
}

#[test]
fn test_client_mutually_exclusive_options() {
    let options = ClientOptions {
        cli_path: Some("/usr/bin/copilot".into()),
        cli_url: Some("http://localhost:8080".into()),
        ..Default::default()
    };
    assert!(matches!(
        Client::new(options),
        Err(CopilotError::InvalidConfig(_))
    ));

    let options = ClientOptions {
        cli_url: Some("localhost:8080".into()),
        port: 1234,
        ..Default::default()
    };
    assert!(matches!(
        Client::new(options),
        Err(CopilotError::InvalidConfig(_))
    ));

    let options = ClientOptions {
        use_stdio: true,
        port: 1234,
        ..Default::default()
    };
    assert!(matches!(
        Client::new(options),
        Err(CopilotError::InvalidConfig(_))
    ));
}

#[test]
fn test_client_state_initial() {
    let client = Client::new(ClientOptions::default()).unwrap();
    assert_eq!(client.state(), ConnectionState::Disconnected);
}

#[test]
fn test_normalize_tool_arguments_object() {
    let params = obj(vec![("arguments", obj(vec![("n", n(42))]))]);
    assert!(same(&normalize_tool_arguments(&params), &obj(vec![("n", n(42))])));
}

#[test]
fn test_normalize_tool_arguments_string() {
    let params = obj(vec![("arguments", s("{\"n\":42}"))]);
    assert!(same(&normalize_tool_arguments(&params), &obj(vec![("n", n(42))])));
}

#[test]
fn test_normalize_tool_arguments_fallback_arguments_json() {
    let params = obj(vec![("argumentsJson", s("{\"text\":\"hello\",\"shift\":-5}"))]);
    let got = normalize_tool_arguments(&params);
    assert_eq!(got.get_str("text"), Some("hello"));
    assert_eq!(got.get_i64("shift"), Some(-5));
    match &got {
        Json::Object(es) => assert_eq!(es.len(), 2),
        _ => panic!("expected an object"),
    }
}

#[test]
fn test_normalize_tool_arguments_invalid_json_string() {
    let params = obj(vec![("arguments", s("{not valid json"))]);
    assert!(same(&normalize_tool_arguments(&params), &obj(vec![])));
}

#[test]
fn normalize_tool_arguments_null_and_missing() {
    assert!(same(&normalize_tool_arguments(&obj(vec![])), &obj(vec![])));
    let params = obj(vec![("arguments", Json::Null), ("argumentsJson", s("{\"a\":1}"))]);
    assert!(same(&normalize_tool_arguments(&params), &obj(vec![])));
}

#[test]
fn cli_url_forms() {
    let (h, p) = parse_cli_url("8080").unwrap();
    assert_eq!((h.as_str(), p), ("localhost", 8080));
    let (h, p) = parse_cli_url("example.com:1234").unwrap();
    assert_eq!((h.as_str(), p), ("example.com", 1234));
    let (h, p) = parse_cli_url("  http://127.0.0.1:9000/path ").unwrap();
    assert_eq!((h.as_str(), p), ("127.0.0.1", 9000));
    let (h, p) = parse_cli_url(":77").unwrap();
    assert_eq!((h.as_str(), p), ("localhost", 77));
    match parse_cli_url("99999") {
        Err(CopilotError::InvalidConfig(m)) => assert_eq!(m, "Invalid port in cli_url: 99999"),
        other => panic!("unexpected {:?}", other),
    }
    match parse_cli_url("host:abc") {
        Err(CopilotError::InvalidConfig(m)) => assert_eq!(m, "Invalid port in cli_url: host:abc"),
        other => panic!("unexpected {:?}", other),
    }
    match parse_cli_url("hostonly") {
        Err(CopilotError::InvalidConfig(m)) => assert_eq!(
            m,
            "Invalid cli_url format (expected host:port or port): hostonly"
        ),
        other => panic!("unexpected {:?}", other),
    }
    assert!(parse_cli_url("").is_err());
}

#[test]
fn listening_port_lines() {
    assert_eq!(parse_listening_port("CLI server listening on port 4321"), Some(4321));
    assert_eq!(parse_listening_port("Listening On Port: 80 now"), Some(80));
    assert_eq!(parse_listening_port("listening on port"), None);
    assert_eq!(parse_listening_port("server started on 8080"), None);
    assert_eq!(parse_listening_port("listening on port 70000"), None);
}

#[test]
fn connection_state_machine() {
    let mut c = Client::new(ClientOptions::default()).unwrap();
    assert_eq!(c.connect_action().unwrap(), ConnectAction::Start);
    assert_eq!(c.begin_start().unwrap(), true);
    assert_eq!(c.state(), ConnectionState::Connecting);
    assert!(matches!(c.connect_action(), Err(CopilotError::NotConnected)));
    assert!(c.begin_start().is_err());
    c.start_succeeded();
    assert_eq!(c.begin_start().unwrap(), false);
    assert_eq!(c.connect_action().unwrap(), ConnectAction::Ready);
    assert!(c.should_retry(0, &CopilotError::ConnectionClosed));
    assert!(!c.should_retry(1, &CopilotError::ConnectionClosed));
    assert!(c.should_retry(0, &CopilotError::json_rpc(-32801, "gone", None)));
    assert!(!c.should_retry(0, &CopilotError::json_rpc(-32000, "x", None)));
    c.start_failed();
    assert_eq!(c.connect_action().unwrap(), ConnectAction::Restart);
    c.stopped();
    assert_eq!(c.state(), ConnectionState::Disconnected);

    let manual = Client::builder().auto_start(false).auto_restart(false).build().unwrap();
    assert!(matches!(manual.connect_action(), Err(CopilotError::NotConnected)));
}

#[test]
fn cli_url_turns_stdio_off() {
    let c = Client::builder().cli_url("localhost:9000").build().unwrap();
    assert!(!c.options().use_stdio);
    match c.launch_plan(None).unwrap() {
        LaunchPlan::Connect { host, port } => {
            assert_eq!(host, "localhost");
            assert_eq!(port, 9000);
        }
        other => panic!("unexpected {:?}", other),
    }
}

#[test]
fn spawn_plan_for_the_cli() {
    let c = Client::builder()
        .cli_path("/usr/bin/copilot")
        .cli_arg("--foo")
        .log_level(LogLevel::Debug)
        .cwd("/work")
        .env("FOO", "bar")
        .build()
        .unwrap();
    match c.launch_plan(None).unwrap() {
        LaunchPlan::Spawn { executable, args, options, cli_path, cli_args } => {
            assert_eq!(cli_path, "/usr/bin/copilot");
            assert_eq!(cli_args, args);
            assert_eq!(executable, "/usr/bin/copilot");
            assert_eq!(args, vec!["--foo", "--server", "--log-level", "debug", "--stdio"]);
            assert_eq!(options.working_directory, Some("/work".to_string()));
            assert_eq!(options.environment.get("FOO"), Some(&"bar".to_string()));
            assert_eq!(options.environment.get("NODE_DEBUG"), Some(&"".to_string()));
            assert!(options.redirect_stdin && options.redirect_stdout && options.redirect_stderr);
        }
        other => panic!("unexpected {:?}", other),
    }
    let tcp = Client::builder().use_stdio(false).port(5000).build().unwrap();
    match tcp.launch_plan(Some("copilot".to_string())).unwrap() {
        LaunchPlan::Spawn { executable, args, options, .. } => {
            assert_eq!(executable, "copilot");
            assert_eq!(args, vec!["--server", "--log-level", "info", "--port", "5000"]);
            assert!(!options.redirect_stdin);
        }
        other => panic!("unexpected {:?}", other),
    }
    let none = Client::builder().build().unwrap();
    match none.launch_plan(None) {
        Err(CopilotError::InvalidConfig(m)) => assert_eq!(m, "Could not find Copilot CLI executable"),
        other => panic!("unexpected {:?}", other),
    }
}

#[test]
fn node_scripts_run_through_node() {
    let args = vec!["--x".to_string()];
    let (exe, full) = resolve_cli_command_with("/a/cli.js", &args, Some("/usr/bin/node".into()));
    assert_eq!(exe, "/usr/bin/node");
    assert_eq!(full, vec!["/a/cli.js", "--x"]);
    let (exe, full) = resolve_cli_command_with("/a/cli.js", &args, None);
    assert_eq!(exe, "/a/cli.js");
    assert_eq!(full, vec!["--x"]);
    let (exe, full) = resolve_cli_command("/a/copilot", &args);
    assert_eq!(exe, "/a/copilot");
    assert_eq!(full, vec!["--x"]);
}

#[test]
fn windows_command_resolution() {
    let args = vec!["--x".to_string()];
    let (exe, full) = copilot_sdk::client::resolve_windows_command_with(
        "C:\\npm\\copilot.CMD", &args, Some("CMD"), Some("C:\\npm\\loader.js".into()), Some("node".into()), true);
    assert_eq!(exe, "node");
    assert_eq!(full, vec!["C:\\npm\\loader.js", "--x"]);
    let (exe, full) = copilot_sdk::client::resolve_windows_command_with(
        "C:\\npm\\copilot.cmd", &args, Some("cmd"), None, Some("node".into()), true);
    assert_eq!(exe, "cmd");
    assert_eq!(full, vec!["/c", "C:\\npm\\copilot.cmd", "--x"]);
    let (exe, full) = copilot_sdk::client::resolve_windows_command_with(
        "tool.bat", &args, Some("bat"), None, None, false);
    assert_eq!(exe, "cmd");
    assert_eq!(full, vec!["/c", "tool.bat", "--x"]);
    let (exe, full) = copilot_sdk::client::resolve_windows_command_with(
        "copilot", &args, None, None, None, false);
    assert_eq!(exe, "cmd");
    assert_eq!(full, vec!["/c", "copilot", "--x"]);
    let (exe, full) = copilot_sdk::client::resolve_windows_command_with(
        "C:\\bin\\copilot.exe", &args, Some("exe"), None, None, true);
    assert_eq!(exe, "C:\\bin\\copilot.exe");
    assert_eq!(full, vec!["--x"]);
    let (exe, full) = copilot_sdk::client::resolve_windows_command_with(
        "C:/a/cli.js", &args, Some("js"), None, Some("node".into()), true);
    assert_eq!(exe, "node");
    assert_eq!(full, vec!["C:/a/cli.js", "--x"]);
}

#[test]
fn addresses_and_protocol_version() {
    assert_eq!(tcp_address("127.0.0.1", 4321), "127.0.0.1:4321");
    assert!(check_protocol_version(&obj(vec![("protocolVersion", n(1))])).is_ok());
    assert!(check_protocol_version(&obj(vec![])).is_ok());
    match check_protocol_version(&obj(vec![("protocolVersion", n(3))])) {
        Err(CopilotError::ProtocolMismatch { expected, actual }) => {
            assert_eq!((expected, actual), (1, 3))
        }
        other => panic!("unexpected {:?}", other),
    }
}

#[test]
fn tool_call_requests_and_replies() {
    let params = obj(vec![
        ("sessionId", s("s1")),
        ("toolName", s("echo")),
        ("arguments", obj(vec![("x", n(1))])),
    ]);
    let req = ToolCallRequest::from_params(&params).unwrap();
    assert_eq!(req.session_id, "s1");
    assert_eq!(req.tool_name, "echo");
    match ToolCallRequest::from_params(&obj(vec![("toolName", s("echo"))])) {
        Err(CopilotError::InvalidConfig(m)) => assert_eq!(m, "Missing sessionId"),
        other => panic!("unexpected {:?}", other),
    }
    match ToolCallRequest::from_params(&obj(vec![("sessionId", s("s1"))])) {
        Err(CopilotError::InvalidConfig(m)) => assert_eq!(m, "Missing toolName"),
        other => panic!("unexpected {:?}", other),
    }
    let r = unknown_session_reply("s9");
    let inner = r.get("result").unwrap();
    assert_eq!(inner.get_str("textResultForLlm"), Some("Session not found"));
    assert_eq!(inner.get_str("resultType"), Some("failure"));
    assert_eq!(inner.get_str("error"), Some("Unknown session s9"));
    let r = unsupported_tool_reply("zap");
    let inner = r.get("result").unwrap();
    assert_eq!(inner.get_str("textResultForLlm"), Some("Tool 'zap' is not supported."));
    assert_eq!(inner.get_str("error"), Some("tool 'zap' not supported"));
    let ok = tool_result_reply(&Ok(ToolResultObject::text("done")));
    assert_eq!(ok.get("result").unwrap().get_str("textResultForLlm"), Some("done"));
    let failed = tool_result_reply(&Err(CopilotError::ToolError("bad".into())));
    let inner = failed.get("result").unwrap();
    assert_eq!(inner.get_str("textResultForLlm"), Some("Tool execution failed"));
    assert_eq!(inner.get_str("error"), Some("Tool execution error: bad"));
}

#[test]
fn permission_requests_and_replies() {
    let params = obj(vec![
        ("sessionId", s("s1")),
        (
            "permissionRequest",
            obj(vec![("kind", s("shell")), ("toolCallId", s("t1")), ("command", s("ls"))]),
        ),
    ]);
    let (sid, data) = permission_call(&params).unwrap();
    assert_eq!(sid, "s1");
    let req = PermissionRequest::from_json(&data);
    assert_eq!(req.kind, "shell");
    assert_eq!(req.tool_call_id, Some("t1".to_string()));
    assert_eq!(req.extension_data.len(), 1);
    assert_eq!(req.extension_data[0].0, "command");
    let bare = PermissionRequest::from_json(&obj(vec![]));
    assert_eq!(bare.kind, "unknown");
    let reply = permission_reply(&PermissionRequestResult::approved());
    assert_eq!(reply.get("result").unwrap().get_str("kind"), Some("approved"));
    assert!(reply.get("result").unwrap().get("rules").is_none());
}

#[test]
fn routes_and_notifications() {
    assert_eq!(route_request("tool.call"), RequestRoute::ToolCall);
    assert_eq!(route_request("permission.request"), RequestRoute::PermissionRequest);
    assert_eq!(route_request("other"), RequestRoute::Unknown);
    let params = obj(vec![("sessionId", s("s1")), ("event", obj(vec![("type", s("x"))]))]);
    let (sid, ev) = session_event_target("session.event", &params).unwrap();
    assert_eq!(sid, "s1");
    assert_eq!(ev.get_str("type"), Some("x"));
    assert!(session_event_target("other", &params).is_none());
    assert!(session_event_target("session.event", &obj(vec![("sessionId", s("s1"))])).is_none());
}

#[test]
fn session_replies() {
    let (id, ws) = created_session_info(&obj(vec![
        ("sessionId", s("abc")),
        ("workspacePath", s("/w")),
    ]))
    .unwrap();
    assert_eq!(id, "abc");
    assert_eq!(ws, Some("/w".to_string()));
    match created_session_info(&obj(vec![])) {
        Err(CopilotError::Protocol(m)) => assert_eq!(m, "Missing sessionId in response"),
        other => panic!("unexpected {:?}", other),
    }
    assert!(delete_outcome(&obj(vec![("success", Json::Bool(true))])).is_ok());
    assert!(delete_outcome(&obj(vec![])).is_ok());
    match delete_outcome(&obj(vec![("success", Json::Bool(false))])) {
        Err(CopilotError::Protocol(m)) => assert_eq!(m, "Failed to delete session: Unknown error"),
        other => panic!("unexpected {:?}", other),
    }
    let list = sessions_from_result(&obj(vec![(
        "sessions",
        Json::Array(vec![obj(vec![("sessionId", s("a"))]), obj(vec![("sessionId", s("b"))])]),
    )]));
    assert_eq!(list.len(), 2);
    assert_eq!(list[1].session_id, "b");
    let bad = sessions_from_result(&obj(vec![(
        "sessions",
        Json::Array(vec![obj(vec![("sessionId", s("a"))]), obj(vec![])]),
    )]));
    assert!(bad.is_empty());
}

#[test]
fn cli_url_round_trip_forms() {
    for (host, port) in [("example.com", 8080u16), ("127.0.0.1", 0), ("my host", 65535)] {
        let plain = format!("{host}:{port}");
        assert_eq!(parse_cli_url(&plain).unwrap(), (host.to_string(), port));
        let with_scheme = format!("http://{host}:{port}");
        assert_eq!(parse_cli_url(&with_scheme).unwrap(), (host.to_string(), port));
        assert_eq!(parse_cli_url(&port.to_string()).unwrap(), ("localhost".to_string(), port));
    }
}
