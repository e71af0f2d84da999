//! What holds of each step of a call.
use crate::command::RequestView;
use crate::laws::parameters::law_requests_hold_what_was_asked;
use crate::laws::runs::{law_arguments_by_place, law_variables_that_are_handed_on};
use crate::laws::settled;
use crate::path::{
    lies_within, path_components, path_is_absolute, path_joined, path_of, path_text, placed,
};
use crate::result::{ToolError, ToolResultView};
use crate::text::{nonblank_entries, trimmed};
use crate::tool::{
    directory_step, first_step, request_of, verdict_view, workspace_step, CallArgsView, StepView,
    ToolView,
};
use std::path::PathBuf;
use vstd::prelude::*;

verus! {

/// A verdict is taken as it was given.
pub proof fn law_verdicts_are_taken_as_given(verdict: Result<(), String>)
    ensures
        verdict is Ok ==> verdict_view(verdict) == Ok::<(), Seq<char>>(()),
        verdict matches Err(reason) ==> verdict_view(verdict) == Err::<(), Seq<char>>(reason@),
{
}

/// One path lies within another exactly when it has all of the other's components, in their places.
pub proof fn law_within_is_component_by_component(p: PathBuf, base: PathBuf)
    ensures
        lies_within(p, base) <==> {
            &&& path_components(base).len() <= path_components(p).len()
            &&& forall|i: int|
                0 <= i < path_components(base).len() ==> #[trigger] path_components(base)[i]
                    == path_components(p)[i]
        },
{
    let short = path_components(base);
    let long = path_components(p);
    if short.len() <= long.len() && (forall|i: int|
        0 <= i < short.len() ==> #[trigger] short[i] == long[i]) {
        assert(short =~= long.subrange(0, short.len() as int));
    }
    if lies_within(p, base) {
        assert(short == long.subrange(0, short.len() as int));
        assert forall|i: int| 0 <= i < short.len() implies #[trigger] short[i] == long[i] by {
            assert(long.subrange(0, short.len() as int)[i] == long[i]);
        }
    }
}

/// An absolute directory is looked for where it says, a relative one under the workspace.
pub proof fn law_directories_are_placed(workspace: PathBuf, requested: PathBuf)
    ensures
        path_is_absolute(requested) ==> placed(workspace, requested) == requested,
        !path_is_absolute(requested) ==> placed(workspace, requested) == path_joined(
            workspace,
            requested,
        ),
{
}

/// How a call starts: a refusal by the policy is the answer, with its reason; a call without a
/// prompt is in error; a call that names a directory has that directory resolved; any other runs in
/// the workspace.
pub proof fn law_how_a_call_starts(
    tool: ToolView,
    verdict: Result<(), Seq<char>>,
    args: CallArgsView,
)
    ensures
        ({
            let step = first_step(tool, verdict, args);
            &&& verdict matches Err(reason) ==> step == StepView::Answer(
                ToolResultView { success: false, output: Seq::empty(), error: Some(reason) },
            )
            &&& verdict is Ok && args.prompt is None ==> step == StepView::Refuse(
                ToolError::MissingPrompt,
            )
            &&& verdict is Ok && args.prompt is Some && args.working_directory is None ==> {
                &&& step is Run
                &&& step->Run_0.work_dir == tool.workspace
            }
            &&& verdict is Ok && args.prompt is Some ==> (args.working_directory matches Some(
                requested,
            ) ==> {
                &&& step is ResolveDirectory
                &&& step->ResolveDirectory_requested == requested
                &&& path_is_absolute(path_of(requested)) ==> step->ResolveDirectory_path == path_of(
                    requested,
                )
                &&& !path_is_absolute(path_of(requested)) ==> step->ResolveDirectory_path
                    == path_joined(tool.workspace, path_of(requested))
            })
        }),
{
}

/// A call that names a directory keeps what it asks for: prompt, session and model do not depend on
/// the directory.
pub proof fn law_requests_survive_the_directory(tool: ToolView, args: CallArgsView)
    requires
        args.prompt is Some,
        args.working_directory is Some,
    ensures
        ({
            let request = first_step(tool, Ok(()), args)->ResolveDirectory_request;
            let named = args.model is Some && trimmed(args.model->0).len() > 0;
            let preset = tool.config.default_model is Some && trimmed(
                tool.config.default_model->0,
            ).len() > 0;
            let resumed = args.session_id is Some && trimmed(args.session_id->0).len() > 0;
            &&& request.prompt == args.prompt->0
            &&& resumed ==> request.session_id == Some(trimmed(args.session_id->0))
            &&& !resumed ==> request.session_id is None
            &&& named ==> request.model == Some(trimmed(args.model->0))
            &&& !named && preset ==> request.model == Some(trimmed(tool.config.default_model->0))
            &&& !named && !preset ==> request.model is None
        }),
{
    law_requests_hold_what_was_asked(tool.config, args.prompt->0, args);
}

/// After the directory: where it could not be resolved the answer says so, otherwise the workspace
/// comes next, and the directory that was found is kept with the request.
pub proof fn law_after_the_directory(
    tool: ToolView,
    request: RequestView,
    requested: Seq<char>,
    canonical: Option<PathBuf>,
)
    ensures
        ({
            let step = directory_step(tool, request, requested, canonical);
            &&& canonical is None ==> step == StepView::Answer(
                ToolResultView {
                    success: false,
                    output: Seq::empty(),
                    error: Some(
                        "working_directory '"@ + requested
                            + "' does not exist or is not accessible"@,
                    ),
                },
            )
            &&& canonical matches Some(directory) ==> {
                &&& step is ResolveWorkspace
                &&& step->ResolveWorkspace_request == request
                &&& step->ResolveWorkspace_requested == requested
                &&& step->ResolveWorkspace_directory == directory
                &&& step->ResolveWorkspace_workspace == tool.workspace
            }
        }),
{
}

/// After the workspace: where it could not be resolved the answer says so. Otherwise the CLI runs in
/// the directory exactly when that has all components of the workspace in their places, with the
/// arguments of the request by their places; else the answer says that the directory is outside.
pub proof fn law_after_the_workspace(
    tool: ToolView,
    request: RequestView,
    requested: Seq<char>,
    directory: PathBuf,
    canonical: Option<PathBuf>,
)
    ensures
        ({
            let step = workspace_step(tool, request, requested, directory, canonical);
            let inside = {
                &&& path_components(canonical->0).len() <= path_components(directory).len()
                &&& forall|i: int|
                    0 <= i < path_components(canonical->0).len() ==> #[trigger] path_components(
                        canonical->0,
                    )[i] == path_components(directory)[i]
            };
            let model_at: int = if tool.config.auto_approve { 8 } else { 5 };
            let session_at: int = if request.model is Some { model_at + 2 } else { model_at };
            let extra_at: int = if request.session_id is Some { session_at + 2 } else { session_at };
            &&& canonical is None ==> step == StepView::Answer(
                ToolResultView {
                    success: false,
                    output: Seq::empty(),
                    error: Some(
                        "workspace directory '"@ + path_text(tool.workspace)
                            + "' does not exist or is not accessible"@,
                    ),
                },
            )
            &&& canonical is Some && !inside ==> step == StepView::Answer(
                ToolResultView {
                    success: false,
                    output: Seq::empty(),
                    error: Some(
                        "working_directory '"@ + requested + "' is outside the workspace '"@
                            + path_text(tool.workspace) + "'"@,
                    ),
                },
            )
            &&& canonical is Some && inside ==> {
                let launch = step->Run_0;
                &&& step is Run
                &&& launch.work_dir == directory
                &&& launch.timeout_secs == tool.config.timeout_secs
                &&& launch.args.len() == extra_at + nonblank_entries(tool.config.extra_args).len()
                &&& launch.args[1] == request.prompt
                &&& request.model is Some ==> {
                    &&& launch.args[model_at] == "-m"@
                    &&& launch.args[model_at + 1] == request.model->0
                }
                &&& request.session_id is Some ==> {
                    &&& launch.args[session_at] == "--resume"@
                    &&& launch.args[session_at + 1] == request.session_id->0
                }
                &&& launch.args.skip(extra_at) == nonblank_entries(tool.config.extra_args)
                &&& launch.env_names.skip(9) == nonblank_entries(tool.config.env_passthrough)
            }
        }),
{
    law_arguments_by_place(tool.config, request);
    law_variables_that_are_handed_on(tool.config);
    if let Some(workspace) = canonical {
        law_within_is_component_by_component(directory, workspace);
    }
}

/// A run of a call that names a directory is in the resolved directory, and that has all components
/// of the resolved workspace in their places. Where it has not, the call is answered as outside.
pub proof fn law_runs_have_the_workspace_components(
    tool: ToolView,
    args: CallArgsView,
    directory: PathBuf,
    workspace: PathBuf,
)
    requires
        args.prompt is Some,
        args.working_directory is Some,
    ensures
        ({
            let step = settled(tool, Ok(()), args, Some(directory), Some(workspace));
            let inside = {
                &&& path_components(workspace).len() <= path_components(directory).len()
                &&& forall|i: int|
                    0 <= i < path_components(workspace).len() ==> #[trigger] path_components(
                        workspace,
                    )[i] == path_components(directory)[i]
            };
            &&& inside ==> step is Run && step->Run_0.work_dir == directory
            &&& !inside ==> step == StepView::Answer(
                ToolResultView {
                    success: false,
                    output: Seq::empty(),
                    error: Some(
                        "working_directory '"@ + args.working_directory->0
                            + "' is outside the workspace '"@ + path_text(tool.workspace) + "'"@,
                    ),
                },
            )
        }),
{
    law_within_is_component_by_component(directory, workspace);
}

/// Whether or not a directory is named, a run has the prompt as it was given, the model with its
/// flag and the session with its flag at their places, taken from the parameters and the operator's
/// default model, then the operator's arguments.
pub proof fn law_runs_pass_on_what_was_asked(
    tool: ToolView,
    verdict: Result<(), Seq<char>>,
    args: CallArgsView,
    directory: Option<PathBuf>,
    workspace: Option<PathBuf>,
)
    ensures
        settled(tool, verdict, args, directory, workspace) matches StepView::Run(launch) ==> {
            let named = args.model is Some && trimmed(args.model->0).len() > 0;
            let preset = tool.config.default_model is Some && trimmed(
                tool.config.default_model->0,
            ).len() > 0;
            let resumed = args.session_id is Some && trimmed(args.session_id->0).len() > 0;
            let model_at: int = if tool.config.auto_approve { 8 } else { 5 };
            let session_at: int = if named || preset { model_at + 2 } else { model_at };
            let extra_at: int = if resumed { session_at + 2 } else { session_at };
            &&& verdict is Ok
            &&& args.prompt == Some(launch.args[1])
            &&& launch.args[0] == "-p"@
            &&& launch.args[2] == "--output-format"@
            &&& launch.args[3] == "plain"@
            &&& launch.args[4] == "--no-auto-update"@
            &&& tool.config.auto_approve ==> {
                &&& launch.args[5] == "--always-approve"@
                &&& launch.args[6] == "--permission-mode"@
                &&& launch.args[7] == "bypassPermissions"@
            }
            &&& named || preset ==> launch.args[model_at] == "-m"@
            &&& named ==> launch.args[model_at + 1] == trimmed(args.model->0)
            &&& !named && preset ==> launch.args[model_at + 1] == trimmed(
                tool.config.default_model->0,
            )
            &&& resumed ==> {
                &&& launch.args[session_at] == "--resume"@
                &&& launch.args[session_at + 1] == trimmed(args.session_id->0)
            }
            &&& launch.args.skip(extra_at) == nonblank_entries(tool.config.extra_args)
            &&& launch.args.len() == extra_at + nonblank_entries(tool.config.extra_args).len()
            &&& launch.timeout_secs == tool.config.timeout_secs
            &&& launch.env_names.len() == 9 + nonblank_entries(tool.config.env_passthrough).len()
            &&& launch.env_names.take(9) == seq![
                "PATH"@,
                "HOME"@,
                "TERM"@,
                "LANG"@,
                "LC_ALL"@,
                "LC_CTYPE"@,
                "USER"@,
                "SHELL"@,
                "TMPDIR"@,
            ]
            &&& launch.env_names.skip(9) == nonblank_entries(tool.config.env_passthrough)
        },
{
    if let StepView::Run(launch) = settled(tool, verdict, args, directory, workspace) {
        let request = request_of(tool.config, args.prompt->0, args);
        law_requests_hold_what_was_asked(tool.config, args.prompt->0, args);
        law_arguments_by_place(tool.config, request);
        law_variables_that_are_handed_on(tool.config);
        assert(launch.env_names.take(9) =~= seq![
            "PATH"@,
            "HOME"@,
            "TERM"@,
            "LANG"@,
            "LC_ALL"@,
            "LC_CTYPE"@,
            "USER"@,
            "SHELL"@,
            "TMPDIR"@,
        ]);
    }
}

} // verus!
