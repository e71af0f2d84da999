//! What holds of every call of the tool.
use crate::command::{
    command_args, launch_of, passed_env_vars, present_vars, safe_env_vars, RequestView,
};
use crate::config::ConfigView;
use crate::json::{member, text_member, Json};
use crate::output::{byte_len, char_width, fitting_chars, limited, truncation_notice};
use crate::path::{lies_within, path_is_absolute, path_joined, path_of};
use crate::result::{answer, failure, OutcomeView, ToolError};
use crate::schema::{properties, schema_tree, MODEL, PROMPT, SESSION_ID, WORKING_DIRECTORY};
use crate::text::{is_white_space, nonblank, nonblank_entries, trimmed, trimmed_end, trimmed_start};
use crate::tool::{
    args_of, chosen_model, directory_step, first_step, given, no_directory_message,
    no_workspace_message, outside_message, request_of, workspace_step, CallArgsView, StepView,
    ToolView,
};
use std::path::PathBuf;
use vstd::prelude::*;

pub mod answers;
pub mod parameters;
pub mod runs;
pub mod steps;
pub mod texts;
pub mod views;

verus! {

/// Where a call gets to before anything is run, when the disk resolves its working directory to
/// `directory` and the workspace to `workspace`.
pub open spec fn settled(
    tool: ToolView,
    verdict: Result<(), Seq<char>>,
    args: CallArgsView,
    directory: Option<PathBuf>,
    workspace: Option<PathBuf>,
) -> StepView {
    match first_step(tool, verdict, args) {
        StepView::ResolveDirectory { request, requested, path: _ } => match directory_step(
            tool,
            request,
            requested,
            directory,
        ) {
            StepView::ResolveWorkspace {
                request,
                requested,
                directory,
                workspace: _,
            } => workspace_step(tool, request, requested, directory, workspace),
            step => step,
        },
        step => step,
    }
}

/// A call settles on an error, an answer or a run.
pub proof fn law_every_call_settles(
    tool: ToolView,
    verdict: Result<(), Seq<char>>,
    args: CallArgsView,
    directory: Option<PathBuf>,
    workspace: Option<PathBuf>,
)
    ensures
        ({
            let step = settled(tool, verdict, args, directory, workspace);
            step is Refuse || step is Answer || step is Run
        }),
{
}

/// What the policy refuses is answered with its reason, whatever the call holds: a missing prompt
/// or a bad directory goes unmentioned.
pub proof fn law_policy_comes_first(
    tool: ToolView,
    reason: Seq<char>,
    args: CallArgsView,
    directory: Option<PathBuf>,
    workspace: Option<PathBuf>,
)
    ensures
        settled(tool, Err(reason), args, directory, workspace) == StepView::Answer(failure(reason)),
{
}

/// A call is in error exactly when the policy allows it and it has no prompt.
pub proof fn law_prompt_is_required(
    tool: ToolView,
    verdict: Result<(), Seq<char>>,
    args: CallArgsView,
    directory: Option<PathBuf>,
    workspace: Option<PathBuf>,
)
    ensures
        settled(tool, verdict, args, directory, workspace) is Refuse <==> verdict is Ok && args.prompt is None,
        verdict is Ok && args.prompt is None ==> settled(tool, verdict, args, directory, workspace)
            == StepView::Refuse(ToolError::MissingPrompt),
{
}

/// The CLI runs exactly when the policy allows it, there is a prompt, and the working directory,
/// where one is named, exists and lies in the workspace, which exists too.
pub proof fn law_when_the_cli_runs(
    tool: ToolView,
    verdict: Result<(), Seq<char>>,
    args: CallArgsView,
    directory: Option<PathBuf>,
    workspace: Option<PathBuf>,
)
    ensures
        settled(tool, verdict, args, directory, workspace) is Run <==> {
            &&& verdict is Ok
            &&& args.prompt is Some
            &&& args.working_directory is Some ==> {
                &&& directory is Some
                &&& workspace is Some
                &&& lies_within(directory->0, workspace->0)
            }
        },
{
}

/// The CLI never runs outside the workspace: without a named directory it runs in the workspace
/// itself, otherwise in the resolved directory, which lies in the resolved workspace.
pub proof fn law_runs_are_confined(
    tool: ToolView,
    verdict: Result<(), Seq<char>>,
    args: CallArgsView,
    directory: Option<PathBuf>,
    workspace: Option<PathBuf>,
)
    ensures
        settled(tool, verdict, args, directory, workspace) matches StepView::Run(launch) ==> {
            ||| args.working_directory is None && launch.work_dir == tool.workspace
            ||| args.working_directory is Some && directory == Some(launch.work_dir)
                && workspace is Some && lies_within(launch.work_dir, workspace->0)
        },
{
}

/// A call whose working directory is turned down is told which check it failed: the directory, the
/// workspace, or the one lying in the other, in that order.
pub proof fn law_rejected_directories_are_told_apart(
    tool: ToolView,
    args: CallArgsView,
    requested: Seq<char>,
    directory: Option<PathBuf>,
    workspace: Option<PathBuf>,
)
    requires
        args.prompt is Some,
        args.working_directory == Some(requested),
    ensures
        ({
            let step = settled(tool, Ok(()), args, directory, workspace);
            &&& directory is None ==> step == StepView::Answer(
                failure(no_directory_message(requested)),
            )
            &&& directory is Some && workspace is None ==> step == StepView::Answer(
                failure(no_workspace_message(tool.workspace)),
            )
            &&& directory is Some && workspace is Some && !lies_within(directory->0, workspace->0)
                ==> step == StepView::Answer(failure(outside_message(requested, tool.workspace)))
        }),
{
}

/// What a run is given besides its directory rests on the settings and the parameters alone.
pub proof fn law_runs_carry_the_request(
    tool: ToolView,
    verdict: Result<(), Seq<char>>,
    args: CallArgsView,
    directory: Option<PathBuf>,
    workspace: Option<PathBuf>,
)
    ensures
        settled(tool, verdict, args, directory, workspace) matches StepView::Run(launch) ==> {
            &&& args.prompt is Some
            &&& launch == launch_of(
                tool.config,
                request_of(tool.config, args.prompt->0, args),
                launch.work_dir,
            )
        },
{
}

/// A named directory is resolved from the path with its text: as it stands where that is
/// absolute, under the workspace where it is relative.
pub proof fn law_relative_directories_start_at_the_workspace(
    tool: ToolView,
    verdict: Result<(), Seq<char>>,
    args: CallArgsView,
)
    ensures
        first_step(tool, verdict, args) matches StepView::ResolveDirectory {
            request,
            requested,
            path,
        } ==> {
            &&& args.working_directory == Some(requested)
            &&& path_is_absolute(path_of(requested)) ==> path == path_of(requested)
            &&& !path_is_absolute(path_of(requested)) ==> path == path_joined(
                tool.workspace,
                path_of(requested),
            )
        },
{
}

/// A call that is answered without a run failed, wrote nothing and says why.
pub proof fn law_answers_without_a_run_say_why(
    tool: ToolView,
    verdict: Result<(), Seq<char>>,
    args: CallArgsView,
    directory: Option<PathBuf>,
    workspace: Option<PathBuf>,
)
    ensures
        settled(tool, verdict, args, directory, workspace) matches StepView::Answer(result) ==> {
            &&& !result.success
            &&& result.output.len() == 0
            &&& result.error is Some
        },
{
}

/// After a run the answer is a success exactly when the process exited with success.
/// Where the process did not end by itself, the answer holds no output and says why.
pub proof fn law_success_is_the_exit_status(
    outcome: OutcomeView,
    timeout_secs: u64,
    max_output_bytes: nat,
)
    ensures
        answer(outcome, timeout_secs, max_output_bytes).success <==> (outcome matches OutcomeView::Exited {
            success,
            ..
        } && success),
        !(outcome is Exited) ==> answer(outcome, timeout_secs, max_output_bytes).output.len() == 0
            && answer(outcome, timeout_secs, max_output_bytes).error is Some,
{
}

/// Every run is headless, hands the prompt on as it was given, and asks for plain output and no
/// self-update.
pub proof fn law_every_run_is_headless(config: ConfigView, request: RequestView)
    ensures
        ({
            let args = command_args(config, request);
            &&& args.len() >= 5
            &&& args[0] == "-p"@
            &&& args[1] == request.prompt
            &&& args[2] == "--output-format"@
            &&& args[3] == "plain"@
            &&& args[4] == "--no-auto-update"@
        }),
{
}

/// Auto-approval puts the arguments that waive permission right behind the fixed ones, and changes
/// nothing else.
pub proof fn law_approval_is_the_operators_choice(
    config: ConfigView,
    other: ConfigView,
    request: RequestView,
)
    requires
        config.auto_approve,
        other == (ConfigView { auto_approve: false, ..config }),
    ensures
        ({
            let with = command_args(config, request);
            let without = command_args(other, request);
            with == without.take(5) + seq![
                "--always-approve"@,
                "--permission-mode"@,
                "bypassPermissions"@,
            ] + without.skip(5)
        }),
{
    assert(command_args(config, request) =~= command_args(other, request).take(5) + seq![
        "--always-approve"@,
        "--permission-mode"@,
        "bypassPermissions"@,
    ] + command_args(other, request).skip(5));
}

/// Trimming leaves a run of the text with no white space at either end, and takes away nothing but
/// white space.
pub proof fn law_trimming(s: Seq<char>)
    ensures
        trimmed(s).len() > 0 ==> !is_white_space(trimmed(s).first()) && !is_white_space(
            trimmed(s).last(),
        ),
        exists|a: int, b: int|
            {
                &&& 0 <= a <= b <= s.len()
                &&& #[trigger] s.subrange(a, b) == trimmed(s)
                &&& forall|i: int| 0 <= i < a || b <= i < s.len() ==> is_white_space(s[i])
            },
{
    lemma_trimmed_start(s);
    let t = trimmed_start(s);
    lemma_trimmed_end(t);
    let a = s.len() - t.len();
    let b = a + trimmed(s).len();
    assert(s.subrange(a, b) =~= trimmed(s));
    assert forall|i: int| 0 <= i < a || b <= i < s.len() implies is_white_space(s[i]) by {
        if i >= b {
            assert(s[i] == t[i - a]);
        }
    }
}

/// Text that is trimmed already stays as it is.
pub proof fn law_trimming_twice(s: Seq<char>)
    ensures
        trimmed(trimmed(s)) == trimmed(s),
{
    law_trimming(s);
}

/// A parameter is taken to be missing exactly when it is not given or holds nothing but white
/// space.
pub proof fn law_blank_is_missing(value: Option<Seq<char>>)
    ensures
        given(value) is None <==> (value matches Some(s) ==> forall|i: int|
            0 <= i < s.len() ==> is_white_space(#[trigger] s[i])),
{
    if let Some(s) = value {
        law_trimming(s);
        let (a, b) = choose|a: int, b: int|
            {
                &&& 0 <= a <= b <= s.len()
                &&& #[trigger] s.subrange(a, b) == trimmed(s)
                &&& forall|i: int| 0 <= i < a || b <= i < s.len() ==> is_white_space(s[i])
            };
        if trimmed(s).len() == 0 {
            assert(a == b);
        } else {
            assert(s[a] == trimmed(s).first());
        }
    }
}

/// A model that the call names wins over the one from the settings. There is no model exactly
/// when neither holds text.
pub proof fn law_model_falls_back(named: Option<Seq<char>>, default_model: Option<Seq<char>>)
    ensures
        given(named) is Some ==> chosen_model(named, default_model) == given(named),
        given(named) is None ==> chosen_model(named, default_model) == given(default_model),
        chosen_model(named, default_model) is None <==> given(named) is None && given(
            default_model,
        ) is None,
{
}

/// Of a list of settings, exactly the entries that hold text are used, trimmed.
pub proof fn law_blank_entries_are_dropped(list: Seq<Seq<char>>, entry: Seq<char>)
    ensures
        nonblank_entries(list).contains(entry) <==> exists|i: int|
            0 <= i < list.len() && nonblank(#[trigger] list[i]) == Some(entry),
    decreases list.len(),
{
    lemma_nonblank_entries_step(list);
    if list.len() > 0 {
        let rest = list.drop_last();
        let kept = nonblank_entries(rest);
        law_blank_entries_are_dropped(rest, entry);
        if nonblank_entries(list).contains(entry) {
            if kept.contains(entry) {
                let i = choose|i: int|
                    0 <= i < rest.len() && nonblank(#[trigger] rest[i]) == Some(entry);
                assert(list[i] == rest[i]);
            } else {
                assert(nonblank(list[list.len() - 1]) == Some(entry));
            }
        }
        if exists|i: int| 0 <= i < list.len() && nonblank(#[trigger] list[i]) == Some(entry) {
            let i = choose|i: int|
                0 <= i < list.len() && nonblank(#[trigger] list[i]) == Some(entry);
            if i < rest.len() {
                assert(list[i] == rest[i]);
                let k = choose|k: int| 0 <= k < kept.len() && kept[k] == entry;
                assert(nonblank_entries(list)[k] == entry);
            } else {
                assert(nonblank_entries(list)[kept.len() as int] == entry);
            }
        }
    }
}

/// The run sees no variable but the safe ones and those that the operator named, and each with
/// the value that it has in the surrounding process.
pub proof fn law_environment_is_closed(
    config: ConfigView,
    values: Seq<Option<Seq<char>>>,
    name: Seq<char>,
    value: Seq<char>,
)
    requires
        values.len() == passed_env_vars(config).len(),
        present_vars(passed_env_vars(config), values).contains((name, value)),
    ensures
        safe_env_vars().contains(name) || exists|i: int|
            0 <= i < config.env_passthrough.len() && nonblank(#[trigger] config.env_passthrough[i])
                == Some(name),
        exists|i: int|
            {
                &&& 0 <= i < values.len()
                &&& #[trigger] passed_env_vars(config)[i] == name
                &&& values[i] == Some(value)
            },
{
    let names = passed_env_vars(config);
    lemma_present_vars(names, values, name, value);
    let i = choose|i: int|
        0 <= i < values.len() && #[trigger] names[i] == name && values[i] == Some(value);
    let safe = safe_env_vars();
    if i < safe.len() {
        assert(safe[i] == name);
    } else {
        let named = nonblank_entries(config.env_passthrough);
        assert(named[i - safe.len()] == name);
        law_blank_entries_are_dropped(config.env_passthrough, name);
    }
}

/// The run sees every variable that is handed on and set.
pub proof fn law_environment_is_complete(
    config: ConfigView,
    values: Seq<Option<Seq<char>>>,
    i: int,
)
    requires
        values.len() == passed_env_vars(config).len(),
        0 <= i < values.len(),
        values[i] is Some,
    ensures
        present_vars(passed_env_vars(config), values).contains(
            (passed_env_vars(config)[i], values[i]->0),
        ),
{
    lemma_present_vars(passed_env_vars(config), values, passed_env_vars(config)[i], values[i]->0);
}

/// What is kept of long output is a beginning of it, takes at most the allowed bytes, and is the
/// longest such beginning.
pub proof fn law_output_is_cut_between_characters(s: Seq<char>, budget: nat)
    ensures
        fitting_chars(s, budget).is_prefix_of(s),
        byte_len(fitting_chars(s, budget)) <= budget,
        forall|longer: Seq<char>|
            #![trigger byte_len(longer)]
            longer.is_prefix_of(s) && byte_len(longer) <= budget ==> longer.len() <= fitting_chars(
                s,
                budget,
            ).len(),
    decreases s.len(),
{
    if s.len() > 0 && char_width(s.first()) <= budget {
        let rest = s.drop_first();
        let left = (budget - char_width(s.first())) as nat;
        let kept = fitting_chars(s, budget);
        law_output_is_cut_between_characters(rest, left);
        assert(kept.drop_first() =~= fitting_chars(rest, left));
        assert(kept =~= s.take(kept.len() as int)) by {
            assert(fitting_chars(rest, left) =~= rest.take(fitting_chars(rest, left).len() as int));
        }
        assert forall|longer: Seq<char>|
            #![trigger byte_len(longer)]
            longer.is_prefix_of(s) && byte_len(longer) <= budget implies longer.len()
            <= kept.len() by {
            if longer.len() > 0 {
                assert(longer.first() == s.first());
                assert(longer.drop_first() =~= rest.take(longer.len() - 1));
                assert(byte_len(longer.drop_first()) <= left);
            }
        }
    } else {
        assert(fitting_chars(s, budget) =~= s.take(0));
        assert forall|longer: Seq<char>|
            #![trigger byte_len(longer)]
            longer.is_prefix_of(s) && byte_len(longer) <= budget implies longer.len() == 0 by {
            if longer.len() > 0 {
                assert(longer.first() == s.first());
            }
        }
    }
}

/// Output that is short enough is reported whole. Reported output never takes more than the
/// allowed bytes and those of the notice.
pub proof fn law_reported_output_is_bounded(s: Seq<char>, max_bytes: nat)
    ensures
        byte_len(s) <= max_bytes ==> limited(s, max_bytes) == s,
        byte_len(limited(s, max_bytes)) <= max_bytes + byte_len(truncation_notice()),
{
    law_output_is_cut_between_characters(s, max_bytes);
    lemma_byte_len_concat(fitting_chars(s, max_bytes), truncation_notice());
}

/// The schema describes every parameter that a call reads, each as a string, and no other; the
/// prompt alone is required.
pub proof fn law_schema_describes_what_is_read(left: Json, right: Json)
    requires
        forall|key: Seq<char>| #[trigger]
            properties().contains_key(key) ==> text_member(left, key) == text_member(right, key),
    ensures
        args_of(left) == args_of(right),
        member(schema_tree(), "properties"@) == Some(Json::Object(properties())),
        member(schema_tree(), "required"@) == Some(Json::List(seq![Json::Text(PROMPT@)])),
        forall|key: Seq<char>|
            properties().contains_key(key) <==> {
                ||| key == PROMPT@
                ||| key == WORKING_DIRECTORY@
                ||| key == SESSION_ID@
                ||| key == MODEL@
            },
        forall|key: Seq<char>| #[trigger]
            properties().contains_key(key) ==> text_member(properties()[key], "type"@) == Some(
                "string"@,
            ),
{
    lemma_schema_words();
    assert(properties().contains_key(PROMPT@));
    assert(properties().contains_key(WORKING_DIRECTORY@));
    assert(properties().contains_key(SESSION_ID@));
    assert(properties().contains_key(MODEL@));
}

/// The keywords of the schema differ from each other.
proof fn lemma_schema_words()
    ensures
        "type"@ != "description"@,
        "type"@ != "properties"@,
        "type"@ != "required"@,
        "properties"@ != "required"@,
{
    reveal_strlit("type");
    reveal_strlit("description");
    reveal_strlit("properties");
    reveal_strlit("required");
    assert("type"@.len() == 4);
    assert("description"@.len() == 11);
    assert("properties"@.len() == 10);
    assert("required"@.len() == 8);
}

proof fn lemma_trimmed_start(s: Seq<char>)
    ensures
        trimmed_start(s).len() <= s.len(),
        trimmed_start(s) == s.skip(s.len() - trimmed_start(s).len()),
        trimmed_start(s).len() > 0 ==> !is_white_space(trimmed_start(s).first()),
        forall|i: int| 0 <= i < s.len() - trimmed_start(s).len() ==> is_white_space(s[i]),
    decreases s.len(),
{
    if s.len() > 0 && is_white_space(s.first()) {
        let rest = s.drop_first();
        lemma_trimmed_start(rest);
        assert(trimmed_start(s) =~= s.skip(s.len() - trimmed_start(s).len()));
        assert forall|i: int| 0 <= i < s.len() - trimmed_start(s).len() implies is_white_space(
            s[i],
        ) by {
            if i > 0 {
                assert(s[i] == rest[i - 1]);
            }
        }
    } else {
        assert(s =~= s.skip(0));
    }
}

proof fn lemma_trimmed_end(s: Seq<char>)
    ensures
        trimmed_end(s).len() <= s.len(),
        trimmed_end(s) == s.take(trimmed_end(s).len() as int),
        trimmed_end(s).len() > 0 ==> !is_white_space(trimmed_end(s).last()),
        forall|i: int| trimmed_end(s).len() <= i < s.len() ==> is_white_space(s[i]),
    decreases s.len(),
{
    if s.len() > 0 && is_white_space(s.last()) {
        let rest = s.drop_last();
        lemma_trimmed_end(rest);
        assert(trimmed_end(s) =~= s.take(trimmed_end(s).len() as int));
        assert forall|i: int| trimmed_end(s).len() <= i < s.len() implies is_white_space(s[i]) by {
            if i < rest.len() {
                assert(s[i] == rest[i]);
            }
        }
    } else {
        assert(s =~= s.take(s.len() as int));
    }
}

proof fn lemma_nonblank_entries_step(list: Seq<Seq<char>>)
    ensures
        list.len() == 0 ==> nonblank_entries(list).len() == 0,
        list.len() > 0 ==> nonblank_entries(list) == match nonblank(list.last()) {
            Some(entry) => nonblank_entries(list.drop_last()).push(entry),
            None => nonblank_entries(list.drop_last()),
        },
{
    reveal(Seq::filter);
    if list.len() > 0 {
        let f = |s: Seq<char>| trimmed(s);
        assert(list.map_values(f).drop_last() =~= list.drop_last().map_values(f));
    }
}

proof fn lemma_present_vars(
    names: Seq<Seq<char>>,
    values: Seq<Option<Seq<char>>>,
    name: Seq<char>,
    value: Seq<char>,
)
    requires
        names.len() == values.len(),
    ensures
        present_vars(names, values).contains((name, value)) <==> exists|i: int|
            0 <= i < values.len() && #[trigger] names[i] == name && values[i] == Some(value),
    decreases names.len(),
{
    if names.len() > 0 {
        let fewer = names.drop_last();
        let some = values.drop_last();
        let before = present_vars(fewer, some);
        let all = present_vars(names, values);
        lemma_present_vars(fewer, some, name, value);
        if all.contains((name, value)) {
            if before.contains((name, value)) {
                let i = choose|i: int|
                    0 <= i < some.len() && #[trigger] fewer[i] == name && some[i] == Some(value);
                assert(names[i] == name);
            } else {
                assert(names[names.len() - 1] == name);
            }
        }
        if exists|i: int|
            0 <= i < values.len() && #[trigger] names[i] == name && values[i] == Some(value) {
            let i = choose|i: int|
                0 <= i < values.len() && #[trigger] names[i] == name && values[i] == Some(value);
            if i < some.len() {
                assert(fewer[i] == name && some[i] == Some(value));
                let k = choose|k: int| 0 <= k < before.len() && before[k] == (name, value);
                assert(all[k] == (name, value));
            } else {
                assert(all[before.len() as int] == (name, value));
            }
        }
    }
}

proof fn lemma_byte_len_concat(a: Seq<char>, b: Seq<char>)
    ensures
        byte_len(a + b) == byte_len(a) + byte_len(b),
    decreases a.len(),
{
    if a.len() == 0 {
        assert(a + b =~= b);
    } else {
        assert((a + b).drop_first() =~= a.drop_first() + b);
        lemma_byte_len_concat(a.drop_first(), b);
    }
}

} // verus!
