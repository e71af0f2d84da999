use grok_cli::{
    GrokCliConfig, GrokCliTool, Launch, Outcome, SecurityPolicy, Step, ToolError, ToolOperation,
    ToolResult,
};
use serde_json::Value;
use std::path::PathBuf;
use std::sync::Arc;

fn test_config() -> GrokCliConfig {
    GrokCliConfig::default()
}

fn test_security_with_workspace(workspace_dir: &str) -> Arc<SecurityPolicy> {
    Arc::new(SecurityPolicy {
        workspace_dir: PathBuf::from(workspace_dir),
    })
}

fn test_security() -> Arc<SecurityPolicy> {
    test_security_with_workspace("/tmp")
}

fn test_tool() -> GrokCliTool {
    GrokCliTool::new(test_security(), test_config())
}

fn object(members: &[(&str, &str)]) -> Value {
    let mut map = serde_json::Map::new();
    for (key, text) in members {
        map.insert(key.to_string(), Value::String(text.to_string()));
    }
    Value::Object(map)
}

fn answer(step: Step) -> ToolResult {
    match step {
        Step::Answer(result) => result,
        other => panic!("expected an answer, got {other:?}"),
    }
}

fn launch(step: Step) -> Launch {
    match step {
        Step::Run(launch) => launch,
        other => panic!("expected a run, got {other:?}"),
    }
}

fn resolve(tool: &GrokCliTool, step: Step, directory: Option<&str>, workspace: Option<&str>) -> Step {
    let check = match step {
        Step::ResolveDirectory(check) => check,
        other => panic!("expected a directory to resolve, got {other:?}"),
    };
    match tool.directory_resolved(check, directory.map(PathBuf::from)) {
        Step::ResolveWorkspace(check) => {
            tool.workspace_resolved(check, workspace.map(PathBuf::from))
        }
        step => step,
    }
}

#[test]
fn grok_cli_tool_name() {
    let tool = test_tool();
    assert_eq!(tool.name(), "grok_cli");
}

#[test]
fn grok_cli_tool_schema_has_prompt() {
    let tool = test_tool();
    let schema = tool.parameters_schema();
    assert!(schema["properties"]["prompt"].is_object());
    assert!(schema["required"]
        .as_array()
        .expect("schema required should be an array")
        .contains(&Value::String("prompt".to_string())));
    assert!(schema["properties"]["working_directory"].is_object());
    assert!(schema["properties"]["session_id"].is_object());
    assert!(schema["properties"]["model"].is_object());
}

#[test]
fn grok_cli_blocks_rate_limited() {
    let tool = test_tool();
    let verdict = Err("Rate limit exceeded: action budget exhausted".to_string());
    let result = answer(tool.execute(verdict, &object(&[("prompt", "hello")])));
    assert!(!result.success);
    assert!(result.error.as_deref().unwrap_or("").contains("Rate limit"));
}

#[test]
fn grok_cli_blocks_readonly() {
    let tool = test_tool();
    let verdict = Err("Security policy: read-only mode, cannot perform 'grok_cli'".to_string());
    let result = answer(tool.execute(verdict, &object(&[("prompt", "hello")])));
    assert!(!result.success);
    assert!(result
        .error
        .as_deref()
        .unwrap_or("")
        .contains("read-only mode"));
}

#[test]
fn grok_cli_missing_prompt_param() {
    let tool = test_tool();
    match tool.execute(Ok(()), &object(&[])) {
        Step::Refuse(error) => {
            assert_eq!(error, ToolError::MissingPrompt);
            assert!(error.message().contains("prompt"));
            assert_eq!(error.message(), "Missing 'prompt' parameter");
        }
        other => panic!("expected an error, got {other:?}"),
    }
}

#[test]
fn grok_cli_rejects_path_outside_workspace() {
    let tool = test_tool();
    let args = object(&[("prompt", "hello"), ("working_directory", "/etc")]);
    let step = tool.execute(Ok(()), &args);
    match &step {
        Step::ResolveDirectory(check) => assert_eq!(check.path, PathBuf::from("/etc")),
        other => panic!("expected a directory to resolve, got {other:?}"),
    }
    let result = answer(resolve(&tool, step, Some("/etc"), Some("/tmp")));
    assert!(!result.success);
    assert!(result
        .error
        .as_deref()
        .unwrap_or("")
        .contains("outside the workspace"));
    assert_eq!(
        result.error.as_deref(),
        Some("working_directory '/etc' is outside the workspace '/tmp'")
    );
}

#[test]
fn grok_cli_resolves_relative_working_directory_under_workspace() {
    let relative_working_directory = "relative-workdir";
    let tool = GrokCliTool::new(test_security_with_workspace("/work/space"), test_config());
    let args = object(&[
        ("prompt", "hello"),
        ("working_directory", relative_working_directory),
    ]);
    let step = tool.execute(Ok(()), &args);
    match &step {
        Step::ResolveDirectory(check) => {
            assert_eq!(check.path, PathBuf::from("/work/space/relative-workdir"))
        }
        other => panic!("expected a directory to resolve, got {other:?}"),
    }
    let launch = launch(resolve(
        &tool,
        step,
        Some("/work/space/relative-workdir"),
        Some("/work/space"),
    ));
    assert_eq!(launch.work_dir, PathBuf::from("/work/space/relative-workdir"));
    let result = tool.finish(Outcome::Failed(
        "No such file or directory (os error 2)".to_string(),
    ));
    let error = result.error.as_deref().unwrap_or("");
    assert!(!result.success);
    assert!(
        !error.contains("outside the workspace"),
        "relative working_directory should resolve inside workspace; got {error:?}"
    );
    assert!(
        error.contains("Grok Build CLI ('grok') not found in PATH"),
        "expected missing Grok CLI after path validation; got {error:?}"
    );
}

#[test]
fn grok_cli_env_passthrough_defaults() {
    let config = GrokCliConfig::default();
    assert!(
        config.env_passthrough.is_empty(),
        "env_passthrough should default to empty"
    );
}

#[test]
fn grok_cli_extra_args_defaults() {
    let config = GrokCliConfig::default();
    assert!(
        config.extra_args.is_empty(),
        "extra_args should default to empty"
    );
}

#[test]
fn grok_cli_default_config_values() {
    let config = GrokCliConfig::default();
    assert!(!config.enabled);
    assert!(config.auto_approve);
    assert_eq!(config.timeout_secs, 600);
    assert_eq!(config.max_output_bytes, 2_097_152);
    assert!(config.default_model.is_none());
}

#[test]
fn description_names_the_cli() {
    let tool = test_tool();
    assert_eq!(
        tool.description(),
        "Delegate a coding task to Grok Build CLI (grok -p headless). Supports file editing and shell execution. Use for complex coding work that benefits from Grok's full agent loop. Optional session_id resumes a prior Grok session."
    );
}

#[test]
fn policy_is_asked_for_an_action_of_this_tool() {
    let tool = test_tool();
    assert_eq!(tool.policy_question(), (ToolOperation::Act, "grok_cli"));
}

#[test]
fn policy_refusal_comes_before_the_missing_prompt() {
    let tool = test_tool();
    let result = answer(tool.execute(Err("no".to_string()), &object(&[])));
    assert!(!result.success);
    assert_eq!(result.output, "");
    assert_eq!(result.error.as_deref(), Some("no"));
}

#[test]
fn parameters_that_are_no_strings_count_as_missing() {
    let tool = test_tool();
    let mut map = serde_json::Map::new();
    map.insert("prompt".to_string(), Value::Bool(true));
    assert!(matches!(
        tool.execute(Ok(()), &Value::Object(map)),
        Step::Refuse(ToolError::MissingPrompt)
    ));
    assert!(matches!(
        tool.execute(Ok(()), &Value::String("prompt".to_string())),
        Step::Refuse(ToolError::MissingPrompt)
    ));
    assert!(matches!(
        tool.execute(Ok(()), &Value::Null),
        Step::Refuse(ToolError::MissingPrompt)
    ));
}

#[test]
fn an_empty_prompt_is_a_prompt() {
    let tool = test_tool();
    let launch = launch(tool.execute(Ok(()), &object(&[("prompt", "")])));
    assert_eq!(launch.args[1], "");
}

#[test]
fn without_a_directory_the_workspace_is_used() {
    let tool = test_tool();
    let launch = launch(tool.execute(Ok(()), &object(&[("prompt", "hello")])));
    assert_eq!(launch.work_dir, PathBuf::from("/tmp"));
    assert_eq!(launch.timeout_secs, 600);
    assert_eq!(
        launch.args,
        vec![
            "-p",
            "hello",
            "--output-format",
            "plain",
            "--no-auto-update",
            "--always-approve",
            "--permission-mode",
            "bypassPermissions",
        ]
    );
}

#[test]
fn a_missing_directory_is_rejected() {
    let tool = test_tool();
    let args = object(&[("prompt", "hello"), ("working_directory", "gone")]);
    let step = tool.execute(Ok(()), &args);
    let result = answer(resolve(&tool, step, None, Some("/tmp")));
    assert!(!result.success);
    assert_eq!(result.output, "");
    assert_eq!(
        result.error.as_deref(),
        Some("working_directory 'gone' does not exist or is not accessible")
    );
}

#[test]
fn a_missing_workspace_is_rejected() {
    let tool = test_tool();
    let args = object(&[("prompt", "hello"), ("working_directory", "here")]);
    let step = tool.execute(Ok(()), &args);
    let result = answer(resolve(&tool, step, Some("/tmp/here"), None));
    assert!(!result.success);
    assert_eq!(
        result.error.as_deref(),
        Some("workspace directory '/tmp' does not exist or is not accessible")
    );
}

#[test]
fn only_whole_components_count_for_the_workspace() {
    let tool = GrokCliTool::new(test_security_with_workspace("/work"), test_config());
    let args = object(&[("prompt", "hello"), ("working_directory", "/workshop")]);
    let step = tool.execute(Ok(()), &args);
    let result = answer(resolve(&tool, step, Some("/workshop"), Some("/work")));
    assert_eq!(
        result.error.as_deref(),
        Some("working_directory '/workshop' is outside the workspace '/work'")
    );
}

#[test]
fn the_workspace_itself_is_inside() {
    let tool = test_tool();
    let args = object(&[("prompt", "hello"), ("working_directory", ".")]);
    let step = tool.execute(Ok(()), &args);
    let launch = launch(resolve(&tool, step, Some("/private/tmp"), Some("/private/tmp")));
    assert_eq!(launch.work_dir, PathBuf::from("/private/tmp"));
}

#[test]
fn session_and_model_are_trimmed_and_passed_on() {
    let mut config = test_config();
    config.auto_approve = false;
    config.default_model = Some("grok-3".to_string());
    let tool = GrokCliTool::new(test_security(), config);
    let args = object(&[
        ("prompt", " hello "),
        ("session_id", " abc\n"),
        ("model", "\t grok-4.5"),
    ]);
    assert_eq!(
        launch(tool.execute(Ok(()), &args)).args,
        vec![
            "-p",
            " hello ",
            "--output-format",
            "plain",
            "--no-auto-update",
            "-m",
            "grok-4.5",
            "--resume",
            "abc",
        ]
    );
}

#[test]
fn a_blank_model_falls_back_to_the_default() {
    let mut config = test_config();
    config.auto_approve = false;
    config.default_model = Some(" grok-3 ".to_string());
    let tool = GrokCliTool::new(test_security(), config);
    let args = object(&[("prompt", "hello"), ("session_id", "  "), ("model", "\u{3000}")]);
    let run = launch(tool.execute(Ok(()), &args));
    assert_eq!(run.args[5..], ["-m", "grok-3"]);
}

#[test]
fn a_blank_default_model_is_no_model() {
    let mut config = test_config();
    config.auto_approve = false;
    config.default_model = Some("   ".to_string());
    let tool = GrokCliTool::new(test_security(), config);
    let run = launch(tool.execute(Ok(()), &object(&[("prompt", "hello")])));
    assert_eq!(run.args.len(), 5);
}

#[test]
fn extra_arguments_come_last_without_blank_ones() {
    let mut config = test_config();
    config.auto_approve = false;
    config.extra_args = vec![
        " --max-turns ".to_string(),
        "".to_string(),
        "3".to_string(),
        " \t".to_string(),
    ];
    let tool = GrokCliTool::new(test_security(), config);
    let run = launch(tool.execute(Ok(()), &object(&[("prompt", "x"), ("session_id", "s")])));
    assert_eq!(run.args[5..], ["--resume", "s", "--max-turns", "3"]);
}

#[test]
fn schema_is_complete() {
    let schema = test_tool().parameters_schema();
    assert_eq!(schema.as_object().unwrap().len(), 3);
    assert_eq!(schema["type"], "object");
    let properties = schema["properties"].as_object().unwrap();
    assert_eq!(properties.len(), 4);
    for property in properties.values() {
        assert_eq!(property.as_object().unwrap().len(), 2);
        assert_eq!(property["type"], "string");
    }
    assert_eq!(
        properties["prompt"]["description"],
        "The coding task to delegate to Grok Build CLI"
    );
    assert_eq!(
        properties["working_directory"]["description"],
        "Working directory within the workspace (must be inside workspace_dir)"
    );
    assert_eq!(
        properties["session_id"]["description"],
        "Optional Grok session ID to resume with --resume (from a previous --output-format json response)"
    );
    assert_eq!(
        properties["model"]["description"],
        "Optional model ID override (e.g. grok-4.5). Falls back to [grok_cli].default_model when set."
    );
    assert_eq!(schema["required"].as_array().unwrap().len(), 1);
}

#[test]
fn the_directory_does_not_change_the_rest_of_the_run() {
    let tool = test_tool();
    let plain = launch(tool.execute(Ok(()), &object(&[("prompt", "x"), ("model", "m")])));
    let args = object(&[("prompt", "x"), ("model", "m"), ("working_directory", "sub")]);
    let step = tool.execute(Ok(()), &args);
    let placed = launch(resolve(&tool, step, Some("/tmp/sub"), Some("/tmp")));
    assert_eq!(placed.args, plain.args);
    assert_eq!(placed.env_names, plain.env_names);
    assert_eq!(placed.timeout_secs, plain.timeout_secs);
    assert_eq!(placed.work_dir, PathBuf::from("/tmp/sub"));
}

#[test]
fn parameters_outside_the_schema_are_not_read() {
    let tool = test_tool();
    let plain = launch(tool.execute(Ok(()), &object(&[("prompt", "x")])));
    let more = object(&[("prompt", "x"), ("resume", "s"), ("Model", "m")]);
    assert_eq!(launch(tool.execute(Ok(()), &more)).args, plain.args);
}
