//! What the mathematical views of the library's types say: every field, as it stands.
use crate::command::{Launch, Request};
use crate::config::GrokCliConfig;
use crate::result::{Outcome, OutcomeView, ToolResult};
use crate::tool::{CallArgs, Step, StepView};
use vstd::prelude::*;

verus! {

/// A view of settings holds each setting.
pub proof fn law_views_of_settings(config: GrokCliConfig)
    ensures
        config@.enabled == config.enabled,
        config@.auto_approve == config.auto_approve,
        config@.default_model == config.default_model.deep_view(),
        config@.extra_args == config.extra_args.deep_view(),
        config@.env_passthrough == config.env_passthrough.deep_view(),
        config@.timeout_secs == config.timeout_secs,
        config@.max_output_bytes == config.max_output_bytes,
{
}

/// A view of parameters holds each parameter.
pub proof fn law_views_of_parameters(args: CallArgs)
    ensures
        args@.prompt == args.prompt.deep_view(),
        args@.working_directory == args.working_directory.deep_view(),
        args@.session_id == args.session_id.deep_view(),
        args@.model == args.model.deep_view(),
{
}

/// A view of a request holds what it asks for.
pub proof fn law_views_of_requests(request: Request)
    ensures
        request@.prompt == request.prompt@,
        request@.model == request.model.deep_view(),
        request@.session_id == request.session_id.deep_view(),
{
}

/// A view of a launch holds all that the run is started with.
pub proof fn law_views_of_launches(launch: Launch)
    ensures
        launch@.args == launch.args.deep_view(),
        launch@.env_names == launch.env_names.deep_view(),
        launch@.work_dir == launch.work_dir,
        launch@.timeout_secs == launch.timeout_secs,
{
}

/// A view of an answer holds all that is answered.
pub proof fn law_views_of_answers(result: ToolResult)
    ensures
        result@.success == result.success,
        result@.output == result.output@,
        result@.error == result.error.deep_view(),
{
}

/// A view of an outcome tells its kinds apart and holds what each carries.
pub proof fn law_views_of_outcomes(outcome: Outcome)
    ensures
        outcome matches Outcome::Exited { success, stdout, stderr } ==> outcome@
            == (OutcomeView::Exited { success, stdout: stdout@, stderr: stderr@ }),
        outcome matches Outcome::Failed(reason) ==> outcome@ == OutcomeView::Failed(reason@),
        outcome is TimedOut ==> outcome@ is TimedOut,
{
}

/// A view of a step tells its kinds apart and holds what each carries.
pub proof fn law_views_of_steps(step: Step)
    ensures
        step matches Step::Refuse(error) ==> step@ == StepView::Refuse(error),
        step matches Step::Answer(result) ==> step@ == StepView::Answer(result@),
        step matches Step::ResolveDirectory(check) ==> step@ == (StepView::ResolveDirectory {
            request: check.request@,
            requested: check.requested@,
            path: check.path,
        }),
        step matches Step::ResolveWorkspace(check) ==> step@ == (StepView::ResolveWorkspace {
            request: check.request@,
            requested: check.requested@,
            directory: check.directory,
            workspace: check.workspace,
        }),
        step matches Step::Run(launch) ==> step@ == StepView::Run(launch@),
{
}

} // verus!
