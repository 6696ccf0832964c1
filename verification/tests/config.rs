use copilot_sdk::config::{
    default_mcp_type, McpLocalServerConfig, McpRemoteServerConfig, McpServerConfig,
    MessageOptions, ProviderConfig, ResumeSessionConfig, SessionConfig, SystemMessageConfig,
};
use copilot_sdk::json::Json;
use copilot_sdk::types::{SystemMessageMode, Tool};

#[test]
fn message_options_from_string() {
    let opts: MessageOptions = String::from("Hi").into();
    assert_eq!(opts.prompt, "Hi");
    assert!(opts.attachments.is_none());
    let j = opts.to_json("s1");
    assert_eq!(j.get_str("prompt"), Some("Hi"));
    assert_eq!(j.get_str("sessionId"), Some("s1"));
    assert!(j.get("mode").is_none());
}

#[test]
fn session_config_wire() {
    let mut config = SessionConfig::default();
    let empty = config.to_json();
    assert!(matches!(empty, Json::Object(ref es) if es.is_empty()));
    config.model = Some("gpt".into());
    config.tools = vec![Tool::new("t")];
    config.system_message = Some(SystemMessageConfig {
        mode: Some(SystemMessageMode::Append),
        content: Some("be nice".into()),
    });
    config.streaming = true;
    let j = config.to_json();
    assert_eq!(j.get_str("model"), Some("gpt"));
    assert_eq!(j.get("systemMessage").unwrap().get_str("mode"), Some("append"));
    assert!(j.get("streaming").is_none());
    match j.get("tools") {
        Some(Json::Array(v)) => assert_eq!(v[0].get_str("name"), Some("t")),
        _ => panic!("tools missing"),
    }
    let resume = ResumeSessionConfig::default().to_json("abc");
    assert_eq!(resume.get_str("sessionId"), Some("abc"));
}

#[test]
fn mcp_and_provider_wire() {
    assert_eq!(default_mcp_type(), "http");
    let remote = McpServerConfig::Remote(McpRemoteServerConfig {
        tools: vec!["*".into()],
        url: "https://x".into(),
        server_type: default_mcp_type(),
        timeout: Some(-1),
        headers: None,
    });
    let j = remote.to_json();
    assert_eq!(j.get_str("type"), Some("http"));
    assert_eq!(j.get_i64("timeout"), Some(-1));
    let local = McpLocalServerConfig {
        tools: vec![],
        command: "node".into(),
        args: vec![],
        server_type: None,
        timeout: None,
        env: None,
        cwd: None,
    };
    let j = local.to_json();
    assert!(matches!(j.get("args"), Some(Json::Array(v)) if v.is_empty()));
    assert!(j.get("env").is_none());
    let provider = ProviderConfig {
        base_url: "https://api".into(),
        provider_type: Some("openai".into()),
        wire_api: None,
        api_key: None,
        bearer_token: None,
        azure: None,
    };
    let j = provider.to_json();
    assert_eq!(j.get_str("baseUrl"), Some("https://api"));
    assert_eq!(j.get_str("type"), Some("openai"));
    assert!(j.get("apiKey").is_none());
}
