use copilot_sdk::process::{
    cli_path_override, find_copilot_cli, find_node, is_node_script, pick_cli, ProcessOptions,
};

#[test]
fn test_process_options_builder() {
    let options = ProcessOptions::new()
        .working_dir("/tmp")
        .env("FOO", "bar")
        .inherit_env(false)
        .stdin(true)
        .stdout(true)
        .stderr(true);

    assert_eq!(options.working_directory, Some("/tmp".to_string()));
    assert_eq!(options.environment.get("FOO"), Some(&"bar".to_string()));
    assert!(!options.inherit_environment);
    assert!(options.redirect_stdin);
    assert!(options.redirect_stdout);
    assert!(options.redirect_stderr);
}

#[test]
fn test_process_options_default() {
    let options = ProcessOptions::default();

    assert!(options.working_directory.is_none());
    assert!(options.environment.is_empty());
    assert!(options.inherit_environment);
    assert!(options.redirect_stdin);
    assert!(options.redirect_stdout);
    assert!(!options.redirect_stderr);
}

#[test]
fn test_is_node_script() {
    assert!(is_node_script("script.js"));
    assert!(is_node_script("script.mjs"));
    assert!(is_node_script("/path/to/script.js"));
    assert!(!is_node_script("script.ts"));
    assert!(!is_node_script("script"));
    assert!(!is_node_script("script.py"));
}

#[test]
fn test_find_node() {
    // Whether node is found depends on the system; the call must not panic.
    let _ = find_node();
}

#[test]
fn test_find_copilot_cli() {
    // Whether the CLI is found depends on the system; the call must not panic.
    let _ = find_copilot_cli(None);
}

#[test]
fn find_copilot_cli_prefers_an_existing_override() {
    assert_eq!(
        find_copilot_cli(Some("/opt/copilot".to_string())),
        Some("/opt/copilot".to_string())
    );
}

#[test]
fn node_script_edge_cases() {
    assert!(!is_node_script(".js"));
    assert!(is_node_script("dir/loader.js/"));
    assert!(is_node_script("dir/loader.mjs/."));
    assert!(!is_node_script("dir/.."));
    assert!(!is_node_script(""));
    assert!(!is_node_script("archive.js.gz"));
    assert!(is_node_script("a.b.js"));
    assert!(!is_node_script("dir.js/script"));
}

#[test]
fn env_replaces_an_earlier_value() {
    let options = ProcessOptions::new().env("A", "1").env("B", "2").env("A", "3");
    assert_eq!(options.environment.len(), 2);
    assert_eq!(options.environment.get("A"), Some(&"3".to_string()));
    assert_eq!(options.environment.get("B"), Some(&"2".to_string()));
}

#[test]
fn spawn_plan_for_stdio_and_tcp() {
    let stdio = ProcessOptions::new().stdin(true).stdout(true).stderr(true);
    let plan = stdio.spawn_plan();
    assert!(plan.stdio_transport);
    assert!(!plan.keep_stdout);
    assert!(plan.keep_stderr);
    assert!(!plan.clear_environment);

    let tcp = ProcessOptions::new().stdin(false).stdout(true).stderr(false).inherit_env(false);
    let plan = tcp.spawn_plan();
    assert!(!plan.stdio_transport);
    assert!(plan.keep_stdout);
    assert!(!plan.pipe_stdin);
    assert!(!plan.keep_stderr);
    assert!(plan.clear_environment);
}

#[test]
fn cli_path_override_is_trimmed() {
    assert_eq!(cli_path_override("  /usr/bin/copilot \n"), Some("/usr/bin/copilot".to_string()));
    assert_eq!(cli_path_override("   "), None);
    assert_eq!(cli_path_override(""), None);
}

fn final_part(p: &str) -> &str {
    p.rsplit(|c| c == '/' || c == '\\' || c == ':').next().unwrap_or(p)
}

#[test]
fn path_lookups_name_the_file_asked_for() {
    if let Some(p) = find_node() {
        assert!(final_part(&p).to_ascii_lowercase().starts_with("node"));
    }
    if let Some(p) = find_copilot_cli(None) {
        assert!(final_part(&p).to_ascii_lowercase().starts_with("copilot"));
    }
}

#[test]
fn picking_the_cli_among_the_lookups() {
    let some = |s: &str| Some(s.to_string());
    assert_eq!(pick_cli(some("/bin/copilot"), some("c.cmd"), some("c.exe"), true), some("/bin/copilot"));
    assert_eq!(pick_cli(None, some("C:\\copilot.cmd"), some("C:\\copilot.exe"), true), some("C:\\copilot.cmd"));
    assert_eq!(pick_cli(None, None, some("C:\\copilot.exe"), true), some("C:\\copilot.exe"));
    assert_eq!(pick_cli(None, some("copilot.cmd"), some("copilot.exe"), false), None);
    assert_eq!(pick_cli(None, None, None, true), None);
}
