//! The tool that delegates coding tasks to the Grok Build CLI.
//!
//! A call is a sequence of decisions with outside work between them: asking the policy, resolving
//! directories on disk, running the CLI. Each decision is a function here; it says in a `Step`
//! which outside work comes next, and the result of that work goes into the next function.
use crate::command::{build_launch, launch_of, Launch, LaunchView, Request, RequestView};
use crate::config::{ConfigView, GrokCliConfig, SecurityPolicy, ToolOperation};
use crate::json::{get_text, json_tree, text_member, Json};
use crate::path::{
    lies_within, path_from_text, path_of, path_text, place, placed, show_path, starts_with,
};
use crate::result::{
    answer, failure, report, report_failure, reports_streams, Outcome, ToolError, ToolResult,
    ToolResultView,
};
use crate::schema::{build_schema, schema_tree, MODEL, PROMPT, SESSION_ID, WORKING_DIRECTORY};
use crate::text::{nonblank, take_nonblank};
use std::path::PathBuf;
use std::sync::Arc;
use vstd::prelude::*;

verus! {

/// The name of the tool.
pub const TOOL_NAME: &'static str = "grok_cli";

/// What the tool is for.
pub const TOOL_DESCRIPTION: &'static str = "Delegate a coding task to Grok Build CLI (grok -p headless). Supports file editing and shell execution. Use for complex coding work that benefits from Grok's full agent loop. Optional session_id resumes a prior Grok session.";

/// Delegates coding tasks to the Grok Build CLI, which has an agent loop of its own with file
/// editing and shell tools.
///
/// The CLI authenticates with its own session. No API key is needed unless the settings hand one
/// on in an environment variable.
pub struct GrokCliTool {
    security: Arc<SecurityPolicy>,
    config: GrokCliConfig,
}

/// What a `GrokCliTool` works under.
pub struct ToolView {
    pub workspace: PathBuf,
    pub config: ConfigView,
}

impl View for GrokCliTool {
    type V = ToolView;

    closed spec fn view(&self) -> ToolView {
        ToolView { workspace: self.security.workspace_dir, config: self.config@ }
    }
}

/// The parameters of a call, each where it is given as a string.
#[derive(Debug)]
pub struct CallArgs {
    pub prompt: Option<String>,
    pub working_directory: Option<String>,
    pub session_id: Option<String>,
    pub model: Option<String>,
}

/// What a `CallArgs` says.
pub struct CallArgsView {
    pub prompt: Option<Seq<char>>,
    pub working_directory: Option<Seq<char>>,
    pub session_id: Option<Seq<char>>,
    pub model: Option<Seq<char>>,
}

impl View for CallArgs {
    type V = CallArgsView;

    open spec fn view(&self) -> CallArgsView {
        CallArgsView {
            prompt: self.prompt.deep_view(),
            working_directory: self.working_directory.deep_view(),
            session_id: self.session_id.deep_view(),
            model: self.model.deep_view(),
        }
    }
}

/// A call whose working directory is to be resolved on disk.
#[derive(Debug)]
pub struct DirectoryCheck {
    /// What is to run there.
    pub request: Request,
    /// The directory as the call names it.
    pub requested: String,
    /// The path to resolve.
    pub path: PathBuf,
}

/// A call whose working directory is resolved and has to be held against the workspace.
#[derive(Debug)]
pub struct WorkspaceCheck {
    /// What is to run there.
    pub request: Request,
    /// The directory as the call names it.
    pub requested: String,
    /// The resolved directory.
    pub directory: PathBuf,
    /// The workspace, which is to be resolved in turn.
    pub workspace: PathBuf,
}

/// What comes next in a call.
#[derive(Debug)]
pub enum Step {
    /// The call is over: it is in error.
    Refuse(ToolError),
    /// The call is over, with this answer.
    Answer(ToolResult),
    /// Resolve `path` on disk, and go on with `directory_resolved`.
    ResolveDirectory(DirectoryCheck),
    /// Resolve `workspace` on disk, and go on with `workspace_resolved`.
    ResolveWorkspace(WorkspaceCheck),
    /// Run the CLI, and go on with `finish`.
    Run(Launch),
}

/// What a `Step` says.
pub enum StepView {
    Refuse(ToolError),
    Answer(ToolResultView),
    ResolveDirectory { request: RequestView, requested: Seq<char>, path: PathBuf },
    ResolveWorkspace {
        request: RequestView,
        requested: Seq<char>,
        directory: PathBuf,
        workspace: PathBuf,
    },
    Run(LaunchView),
}

impl View for Step {
    type V = StepView;

    open spec fn view(&self) -> StepView {
        match self {
            Step::Refuse(error) => StepView::Refuse(*error),
            Step::Answer(result) => StepView::Answer(result@),
            Step::ResolveDirectory(check) => StepView::ResolveDirectory {
                request: check.request@,
                requested: check.requested@,
                path: check.path,
            },
            Step::ResolveWorkspace(check) => StepView::ResolveWorkspace {
                request: check.request@,
                requested: check.requested@,
                directory: check.directory,
                workspace: check.workspace,
            },
            Step::Run(launch) => StepView::Run(launch@),
        }
    }
}

/// The parameters that a JSON value holds.
pub open spec fn args_of(tree: Json) -> CallArgsView {
    CallArgsView {
        prompt: text_member(tree, PROMPT@),
        working_directory: text_member(tree, WORKING_DIRECTORY@),
        session_id: text_member(tree, SESSION_ID@),
        model: text_member(tree, MODEL@),
    }
}

/// A parameter trimmed, or nothing where it is missing or blank.
pub open spec fn given(value: Option<Seq<char>>) -> Option<Seq<char>> {
    match value {
        Some(s) => nonblank(s),
        None => None,
    }
}

/// The model to use: the one that the call names, else the one from the settings.
pub open spec fn chosen_model(
    named: Option<Seq<char>>,
    default_model: Option<Seq<char>>,
) -> Option<Seq<char>> {
    match given(named) {
        Some(model) => Some(model),
        None => given(default_model),
    }
}

/// What a call with the given prompt asks of the CLI.
pub open spec fn request_of(
    config: ConfigView,
    prompt: Seq<char>,
    args: CallArgsView,
) -> RequestView {
    RequestView {
        prompt,
        model: chosen_model(args.model, config.default_model),
        session_id: given(args.session_id),
    }
}

/// The first step of a call, where the policy said `verdict`.
/// A working directory that the call names is looked for under the path with that text, placed
/// in the workspace where it is relative.
pub open spec fn first_step(
    tool: ToolView,
    verdict: Result<(), Seq<char>>,
    args: CallArgsView,
) -> StepView {
    match verdict {
        Err(reason) => StepView::Answer(failure(reason)),
        Ok(_) => match args.prompt {
            None => StepView::Refuse(ToolError::MissingPrompt),
            Some(prompt) => {
                let request = request_of(tool.config, prompt, args);
                match args.working_directory {
                    None => StepView::Run(launch_of(tool.config, request, tool.workspace)),
                    Some(requested) => StepView::ResolveDirectory {
                        request,
                        requested,
                        path: placed(tool.workspace, path_of(requested)),
                    },
                }
            },
        },
    }
}

/// What is answered where the working directory cannot be resolved.
pub open spec fn no_directory_message(requested: Seq<char>) -> Seq<char> {
    "working_directory '"@ + requested + "' does not exist or is not accessible"@
}

/// What is answered where the workspace cannot be resolved.
pub open spec fn no_workspace_message(workspace: PathBuf) -> Seq<char> {
    "workspace directory '"@ + path_text(workspace) + "' does not exist or is not accessible"@
}

/// What is answered where the working directory is not in the workspace.
pub open spec fn outside_message(requested: Seq<char>, workspace: PathBuf) -> Seq<char> {
    "working_directory '"@ + requested + "' is outside the workspace '"@ + path_text(workspace)
        + "'"@
}

/// The step after the working directory was resolved to `canonical`, or could not be.
pub open spec fn directory_step(
    tool: ToolView,
    request: RequestView,
    requested: Seq<char>,
    canonical: Option<PathBuf>,
) -> StepView {
    match canonical {
        None => StepView::Answer(failure(no_directory_message(requested))),
        Some(directory) => StepView::ResolveWorkspace {
            request,
            requested,
            directory,
            workspace: tool.workspace,
        },
    }
}

/// The step after the workspace was resolved to `canonical`, or could not be.
pub open spec fn workspace_step(
    tool: ToolView,
    request: RequestView,
    requested: Seq<char>,
    directory: PathBuf,
    canonical: Option<PathBuf>,
) -> StepView {
    match canonical {
        None => StepView::Answer(failure(no_workspace_message(tool.workspace))),
        Some(workspace) => if lies_within(directory, workspace) {
            StepView::Run(launch_of(tool.config, request, directory))
        } else {
            StepView::Answer(failure(outside_message(requested, tool.workspace)))
        },
    }
}

/// What the policy said, with the text of its reason.
pub open spec fn verdict_view(verdict: Result<(), String>) -> Result<(), Seq<char>> {
    match verdict {
        Ok(_) => Ok(()),
        Err(reason) => Err(reason@),
    }
}

/// The parameters that a JSON value holds.
pub fn read_args(args: &serde_json::Value) -> (r: CallArgs)
    ensures
        r@ == args_of(json_tree(*args)),
{
    CallArgs {
        prompt: get_text(args, PROMPT),
        working_directory: get_text(args, WORKING_DIRECTORY),
        session_id: get_text(args, SESSION_ID),
        model: get_text(args, MODEL),
    }
}

/// A parameter trimmed, or nothing where it is missing or blank.
fn take_given(value: &Option<String>) -> (r: Option<String>)
    ensures
        r.deep_view() == given(value.deep_view()),
{
    match value {
        Some(s) => take_nonblank(s.as_str()),
        None => None,
    }
}

/// The model to use.
pub fn choose_model(named: &Option<String>, default_model: &Option<String>) -> (r: Option<String>)
    ensures
        r.deep_view() == chosen_model(named.deep_view(), default_model.deep_view()),
{
    match take_given(named) {
        Some(model) => Some(model),
        None => take_given(default_model),
    }
}

impl GrokCliTool {
    /// A tool that works under the given policy and settings.
    pub fn new(security: Arc<SecurityPolicy>, config: GrokCliConfig) -> (r: Self)
        ensures
            r@ == (ToolView { workspace: security.workspace_dir, config: config@ }),
    {
        Self { security, config }
    }

    /// The name of the tool.
    pub fn name(&self) -> (r: &str)
        ensures
            r@ == TOOL_NAME@,
    {
        TOOL_NAME
    }

    /// What the tool is for.
    pub fn description(&self) -> (r: &str)
        ensures
            r@ == TOOL_DESCRIPTION@,
    {
        TOOL_DESCRIPTION
    }

    /// The schema of the tool's parameters.
    pub fn parameters_schema(&self) -> (r: serde_json::Value)
        ensures
            json_tree(r) == schema_tree(),
    {
        build_schema()
    }

    /// What the policy has to allow before a call goes on: which kind of operation, and on behalf
    /// of which tool.
    pub fn policy_question(&self) -> (r: (ToolOperation, &str))
        ensures
            r.0 == ToolOperation::Act,
            r.1@ == TOOL_NAME@,
    {
        (ToolOperation::Act, TOOL_NAME)
    }

    /// Starts a call with the given JSON parameters, after the policy gave its verdict.
    pub fn execute(&self, verdict: Result<(), String>, args: &serde_json::Value) -> (r: Step)
        ensures
            r@ == first_step(self@, verdict_view(verdict), args_of(json_tree(*args))),
    {
        self.start(verdict, read_args(args))
    }

    /// Starts a call with the given parameters, after the policy gave its verdict.
    pub fn start(&self, verdict: Result<(), String>, args: CallArgs) -> (r: Step)
        ensures
            r@ == first_step(self@, verdict_view(verdict), args@),
    {
        if let Err(reason) = verdict {
            return Step::Answer(report_failure(reason));
        }
        let prompt = match args.prompt {
            None => return Step::Refuse(ToolError::MissingPrompt),
            Some(prompt) => prompt,
        };
        let request = Request {
            prompt,
            model: choose_model(&args.model, &self.config.default_model),
            session_id: take_given(&args.session_id),
        };
        match args.working_directory {
            None => Step::Run(
                build_launch(&self.config, &request, self.security.workspace_dir.clone()),
            ),
            Some(requested) => {
                let parsed = path_from_text(requested.as_str());
                let path = place(&self.security.workspace_dir, parsed);
                Step::ResolveDirectory(DirectoryCheck { request, requested, path })
            },
        }
    }

    /// Goes on with a call after its working directory was resolved to `canonical`, or could not
    /// be.
    pub fn directory_resolved(&self, check: DirectoryCheck, canonical: Option<PathBuf>) -> (r: Step)
        ensures
            r@ == directory_step(self@, check.request@, check.requested@, canonical),
    {
        match canonical {
            None => Step::Answer(
                report_failure(
                    "working_directory '".to_owned().concat(check.requested.as_str()).concat(
                        "' does not exist or is not accessible",
                    ),
                ),
            ),
            Some(directory) => Step::ResolveWorkspace(
                WorkspaceCheck {
                    request: check.request,
                    requested: check.requested,
                    directory,
                    workspace: self.security.workspace_dir.clone(),
                },
            ),
        }
    }

    /// Goes on with a call after the workspace was resolved to `canonical`, or could not be.
    pub fn workspace_resolved(&self, check: WorkspaceCheck, canonical: Option<PathBuf>) -> (r: Step)
        ensures
            r@ == workspace_step(
                self@,
                check.request@,
                check.requested@,
                check.directory,
                canonical,
            ),
    {
        let shown = show_path(&self.security.workspace_dir);
        match canonical {
            None => Step::Answer(
                report_failure(
                    "workspace directory '".to_owned().concat(shown.as_str()).concat(
                        "' does not exist or is not accessible",
                    ),
                ),
            ),
            Some(workspace) => if starts_with(&check.directory, &workspace) {
                Step::Run(build_launch(&self.config, &check.request, check.directory))
            } else {
                Step::Answer(
                    report_failure(
                        "working_directory '".to_owned().concat(check.requested.as_str()).concat(
                            "' is outside the workspace '",
                        ).concat(shown.as_str()).concat("'"),
                    ),
                )
            },
        }
    }

    /// The answer to a call whose run came to the given end.
    pub fn finish(&self, outcome: Outcome) -> (r: ToolResult)
        ensures
            r@ == answer(
                outcome@,
                self@.config.timeout_secs,
                self@.config.max_output_bytes,
            ),
            reports_streams(outcome@, self@.config.max_output_bytes, r@),
    {
        report(outcome, self.config.timeout_secs, self.config.max_output_bytes)
    }
}

} // verus!
