//! What holds of the command that a run is started with.
use crate::command::{
    command_args, launch_of, passed_env_vars, present_vars, program_name, RequestView,
};
use crate::config::ConfigView;
use crate::laws::law_blank_entries_are_dropped;
use crate::laws::texts::law_nonblank_is_trimmed;
use crate::text::{nonblank_entries, trimmed};
use std::path::PathBuf;
use vstd::prelude::*;

verus! {

/// The arguments by their places: five that are always there, three more with auto-approval, then
/// the model with its flag where there is one, the session with its flag where there is one, and
/// what the operator added.
pub proof fn law_arguments_by_place(config: ConfigView, request: RequestView)
    ensures
        ({
            let args = command_args(config, request);
            let model_at: int = if config.auto_approve { 8 } else { 5 };
            let session_at: int = if request.model is Some { model_at + 2 } else { model_at };
            let extra_at: int = if request.session_id is Some { session_at + 2 } else { session_at };
            &&& args.len() == extra_at + nonblank_entries(config.extra_args).len()
            &&& args[0] == "-p"@
            &&& args[1] == request.prompt
            &&& args[2] == "--output-format"@
            &&& args[3] == "plain"@
            &&& args[4] == "--no-auto-update"@
            &&& config.auto_approve ==> {
                &&& args[5] == "--always-approve"@
                &&& args[6] == "--permission-mode"@
                &&& args[7] == "bypassPermissions"@
            }
            &&& request.model matches Some(model) ==> {
                &&& args[model_at] == "-m"@
                &&& args[model_at + 1] == model
            }
            &&& request.session_id matches Some(session) ==> {
                &&& args[session_at] == "--resume"@
                &&& args[session_at + 1] == session
            }
            &&& args.skip(extra_at) == nonblank_entries(config.extra_args)
        }),
{
    let args = command_args(config, request);
    let model_at: int = if config.auto_approve { 8 } else { 5 };
    let session_at: int = if request.model is Some { model_at + 2 } else { model_at };
    let extra_at: int = if request.session_id is Some { session_at + 2 } else { session_at };
    assert(args.skip(extra_at) =~= nonblank_entries(config.extra_args));
}

/// Whatever else is set, every entry that the operator added and that holds text is among the
/// arguments, trimmed.
pub proof fn law_extra_arguments_are_passed(config: ConfigView, request: RequestView, i: int)
    requires
        0 <= i < config.extra_args.len(),
        trimmed(config.extra_args[i]).len() > 0,
    ensures
        command_args(config, request).contains(trimmed(config.extra_args[i])),
{
    let entry = trimmed(config.extra_args[i]);
    law_arguments_by_place(config, request);
    law_nonblank_is_trimmed(config.extra_args[i]);
    law_blank_entries_are_dropped(config.extra_args, entry);
    let args = command_args(config, request);
    let extra = nonblank_entries(config.extra_args);
    let k = choose|k: int| 0 <= k < extra.len() && extra[k] == entry;
    let at = args.len() - extra.len();
    assert(args.skip(at)[k] == args[at + k]);
}

/// The names that are handed on: the nine safe ones, and behind them what the operator named, with
/// nothing left out.
pub proof fn law_variables_that_are_handed_on(config: ConfigView)
    ensures
        passed_env_vars(config).len() == 9 + nonblank_entries(config.env_passthrough).len(),
        passed_env_vars(config)[0] == "PATH"@,
        passed_env_vars(config)[1] == "HOME"@,
        passed_env_vars(config)[2] == "TERM"@,
        passed_env_vars(config)[3] == "LANG"@,
        passed_env_vars(config)[4] == "LC_ALL"@,
        passed_env_vars(config)[5] == "LC_CTYPE"@,
        passed_env_vars(config)[6] == "USER"@,
        passed_env_vars(config)[7] == "SHELL"@,
        passed_env_vars(config)[8] == "TMPDIR"@,
        passed_env_vars(config).skip(9) == nonblank_entries(config.env_passthrough),
{
    assert(passed_env_vars(config).skip(9) =~= nonblank_entries(config.env_passthrough));
}

/// Every variable that the operator named is handed on, however many there are.
pub proof fn law_named_variables_are_handed_on(config: ConfigView, i: int)
    requires
        0 <= i < config.env_passthrough.len(),
        trimmed(config.env_passthrough[i]).len() > 0,
    ensures
        passed_env_vars(config).contains(trimmed(config.env_passthrough[i])),
{
    let name = trimmed(config.env_passthrough[i]);
    law_nonblank_is_trimmed(config.env_passthrough[i]);
    law_variables_that_are_handed_on(config);
    law_blank_entries_are_dropped(config.env_passthrough, name);
    let named = nonblank_entries(config.env_passthrough);
    let k = choose|k: int| 0 <= k < named.len() && named[k] == name;
    assert(passed_env_vars(config).skip(9)[k] == passed_env_vars(config)[9 + k]);
}

/// A variable counts by itself: what a run sees of two lists of variables put together is what it
/// sees of each, one without a value is left out and any other has its value.
pub proof fn law_variables_count_one_by_one(
    a: Seq<Seq<char>>,
    b: Seq<Seq<char>>,
    a_values: Seq<Option<Seq<char>>>,
    b_values: Seq<Option<Seq<char>>>,
    name: Seq<char>,
    value: Seq<char>,
)
    requires
        a.len() == a_values.len(),
        b.len() == b_values.len(),
    ensures
        present_vars(Seq::empty(), Seq::empty()) == Seq::<(Seq<char>, Seq<char>)>::empty(),
        present_vars(a + b, a_values + b_values) == present_vars(a, a_values) + present_vars(
            b,
            b_values,
        ),
        present_vars(seq![name], seq![Some(value)]) == seq![(name, value)],
        present_vars(seq![name], seq![None]) == Seq::<(Seq<char>, Seq<char>)>::empty(),
    decreases b.len(),
{
    reveal_with_fuel(present_vars, 2);
    assert(seq![name].drop_last() =~= Seq::empty());
    assert(present_vars(seq![name], seq![Some(value)]) =~= seq![(name, value)]);
    if b.len() == 0 {
        assert(a + b =~= a);
        assert(a_values + b_values =~= a_values);
    } else {
        law_variables_count_one_by_one(
            a,
            b.drop_last(),
            a_values,
            b_values.drop_last(),
            name,
            value,
        );
        assert((a + b).drop_last() =~= a + b.drop_last());
        assert((a_values + b_values).drop_last() =~= a_values + b_values.drop_last());
        assert(present_vars(a + b, a_values + b_values) =~= present_vars(a, a_values)
            + present_vars(b, b_values));
    }
}

/// A run goes where it was sent, under the operator's time limit, with the arguments of its
/// request and the operator's variables.
pub proof fn law_launches_carry_their_parts(
    config: ConfigView,
    request: RequestView,
    work_dir: PathBuf,
)
    ensures
        launch_of(config, request, work_dir).work_dir == work_dir,
        launch_of(config, request, work_dir).timeout_secs == config.timeout_secs,
        launch_of(config, request, work_dir).args == command_args(config, request),
        launch_of(config, request, work_dir).env_names == passed_env_vars(config),
{
}

/// On Windows the CLI is a command script, elsewhere a plain program.
pub proof fn law_program_by_platform(windows: bool)
    ensures
        windows ==> program_name(windows) == "grok.cmd"@,
        !windows ==> program_name(windows) == "grok"@,
{
}

} // verus!
