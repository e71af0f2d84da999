use grok_cli::command::program;
use grok_cli::output::limit_output;
use grok_cli::result::explain_timeout;
use grok_cli::text::{take_nonblank, write_decimal};
use grok_cli::{GrokCliConfig, GrokCliTool, Launch, Outcome, SecurityPolicy, Step, ToolResult};
use serde_json::Value;
use std::path::PathBuf;
use std::sync::Arc;

fn tool_with(config: GrokCliConfig) -> GrokCliTool {
    let security = SecurityPolicy {
        workspace_dir: PathBuf::from("/tmp"),
    };
    GrokCliTool::new(Arc::new(security), config)
}

fn launch_with(config: GrokCliConfig) -> Launch {
    let mut map = serde_json::Map::new();
    map.insert("prompt".to_string(), Value::String("hello".to_string()));
    match tool_with(config).execute(Ok(()), &Value::Object(map)) {
        Step::Run(launch) => launch,
        other => panic!("expected a run, got {other:?}"),
    }
}

fn finish(max_output_bytes: usize, success: bool, stdout: &[u8], stderr: &[u8]) -> ToolResult {
    let mut config = GrokCliConfig::default();
    config.max_output_bytes = max_output_bytes;
    tool_with(config).finish(Outcome::Exited {
        success,
        stdout: stdout.to_vec(),
        stderr: stderr.to_vec(),
    })
}

#[test]
fn program_depends_on_the_platform() {
    assert_eq!(program(true), "grok.cmd");
    assert_eq!(program(false), "grok");
}

#[test]
fn safe_variables_are_handed_on() {
    let launch = launch_with(GrokCliConfig::default());
    assert_eq!(
        launch.env_names,
        vec!["PATH", "HOME", "TERM", "LANG", "LC_ALL", "LC_CTYPE", "USER", "SHELL", "TMPDIR"]
    );
}

#[test]
fn environment_holds_what_is_named_and_set() {
    let mut config = GrokCliConfig::default();
    config.env_passthrough = vec![" XAI_API_KEY ".to_string(), " ".to_string()];
    let launch = launch_with(config);
    assert_eq!(launch.env_names.len(), 10);
    assert_eq!(launch.env_names[9], "XAI_API_KEY");
    let mut values: Vec<Option<String>> = vec![None; 10];
    values[0] = Some("/bin".to_string());
    values[9] = Some("key".to_string());
    assert_eq!(
        launch.environment(&values),
        vec![
            ("PATH".to_string(), "/bin".to_string()),
            ("XAI_API_KEY".to_string(), "key".to_string()),
        ]
    );
}

#[test]
fn a_clean_exit_is_a_success_without_error() {
    let result = finish(100, true, b"done", b"");
    assert!(result.success);
    assert_eq!(result.output, "done");
    assert!(result.error.is_none());
}

#[test]
fn the_error_stream_is_reported_beside_the_status() {
    let result = finish(100, true, b"done", b"careful");
    assert!(result.success);
    assert_eq!(result.error.as_deref(), Some("careful"));
    let result = finish(100, false, b"half", b"");
    assert!(!result.success);
    assert_eq!(result.output, "half");
    assert!(result.error.is_none());
}

#[test]
fn invalid_bytes_are_replaced() {
    let result = finish(100, true, b"a\xffb", b"\xff");
    assert_eq!(result.output, "a\u{fffd}b");
    assert_eq!(result.error.as_deref(), Some("\u{fffd}"));
}

#[test]
fn each_stream_is_decoded_by_itself() {
    let result = finish(100, true, b"", b"\xff");
    assert_eq!(result.output, "");
    assert_eq!(result.error.as_deref(), Some("\u{fffd}"));
    let result = finish(100, true, b"\xff", b"careful");
    assert_eq!(result.output, "\u{fffd}");
    assert_eq!(result.error.as_deref(), Some("careful"));
}

#[test]
fn output_of_the_allowed_length_is_whole() {
    assert_eq!(finish(4, true, b"done", b"").output, "done");
    assert_eq!(finish(0, true, b"", b"").output, "");
}

#[test]
fn longer_output_is_cut_with_a_notice() {
    assert_eq!(
        finish(3, true, b"done", b"").output,
        "don\n... [output truncated]"
    );
    assert_eq!(
        finish(0, true, b"done", b"").output,
        "\n... [output truncated]"
    );
}

#[test]
fn the_cut_never_splits_a_character() {
    let text = "a\u{20ac}b";
    assert_eq!(text.len(), 5);
    for (limit, kept) in [(0, ""), (1, "a"), (2, "a"), (3, "a"), (4, "a\u{20ac}")] {
        assert_eq!(
            limit_output(text.to_string(), limit),
            format!("{kept}\n... [output truncated]")
        );
    }
    assert_eq!(limit_output(text.to_string(), 5), text);
    assert_eq!(
        limit_output("\u{1f600}".to_string(), 3),
        "\n... [output truncated]"
    );
}

#[test]
fn the_error_stream_is_not_cut() {
    assert_eq!(
        finish(1, false, b"", b"long message").error.as_deref(),
        Some("long message")
    );
}

#[test]
fn a_missing_program_is_explained() {
    let tool = tool_with(GrokCliConfig::default());
    for reason in [
        "No such file or directory (os error 2)",
        "program not found",
        "The system cannot find the file specified.",
    ] {
        let result = tool.finish(Outcome::Failed(reason.to_string()));
        assert!(!result.success);
        assert_eq!(result.output, "");
        assert_eq!(
            result.error.as_deref(),
            Some("Grok Build CLI ('grok') not found in PATH. Install with: curl -fsSL https://x.ai/cli/install.sh | bash (then ensure ~/.grok/bin is on PATH)")
        );
    }
}

#[test]
fn another_failure_is_quoted() {
    let tool = tool_with(GrokCliConfig::default());
    let result = tool.finish(Outcome::Failed("Permission denied (os error 13)".to_string()));
    assert!(!result.success);
    assert_eq!(
        result.error.as_deref(),
        Some("Failed to execute grok: Permission denied (os error 13)")
    );
}

#[test]
fn a_timeout_names_the_limit() {
    let tool = tool_with(GrokCliConfig::default());
    let result = tool.finish(Outcome::TimedOut);
    assert!(!result.success);
    assert_eq!(result.output, "");
    assert_eq!(
        result.error.as_deref(),
        Some("Grok Build CLI timed out after 600s and was killed")
    );
    assert_eq!(
        explain_timeout(0),
        "Grok Build CLI timed out after 0s and was killed"
    );
}

#[test]
fn decimal_forms() {
    for n in [0, 7, 9, 10, 99, 100, 600, 1_000_000, u64::MAX] {
        assert_eq!(write_decimal(n), n.to_string());
    }
}

#[test]
fn trimming_knows_unicode_white_space() {
    assert_eq!(
        take_nonblank("\u{9}\u{b}\u{85}\u{a0} a b \u{1680}\u{2000}\u{200a}\u{2028}\u{2029}\u{202f}\u{205f}\u{3000}"),
        Some("a b".to_string())
    );
    assert_eq!(take_nonblank("a b"), Some("a b".to_string()));
    assert_eq!(take_nonblank("\u{200b}"), Some("\u{200b}".to_string()));
    assert_eq!(take_nonblank(" \r\n\u{c}"), None);
}
