//! The command that runs the Grok Build CLI: its program, arguments and environment.
use crate::config::{ConfigView, GrokCliConfig};
use crate::text::{keep_nonblank, nonblank_entries};
use std::path::PathBuf;
use vstd::prelude::*;

verus! {

/// What one call asks of the CLI.
#[derive(Debug)]
pub struct Request {
    /// The task, as it was given.
    pub prompt: String,
    /// The model to use, where one is named.
    pub model: Option<String>,
    /// The session to go on with, where one is named.
    pub session_id: Option<String>,
}

/// What a `Request` says.
pub struct RequestView {
    pub prompt: Seq<char>,
    pub model: Option<Seq<char>>,
    pub session_id: Option<Seq<char>>,
}

impl View for Request {
    type V = RequestView;

    open spec fn view(&self) -> RequestView {
        RequestView {
            prompt: self.prompt@,
            model: self.model.deep_view(),
            session_id: self.session_id.deep_view(),
        }
    }
}

/// A run of the CLI that is ready to be started.
#[derive(Debug)]
pub struct Launch {
    /// The arguments, without the program.
    pub args: Vec<String>,
    /// The environment variables that are handed on, where they are set. No other is.
    pub env_names: Vec<String>,
    /// The directory to run in.
    pub work_dir: PathBuf,
    /// The time limit, in seconds.
    pub timeout_secs: u64,
}

/// What a `Launch` says.
pub struct LaunchView {
    pub args: Seq<Seq<char>>,
    pub env_names: Seq<Seq<char>>,
    pub work_dir: PathBuf,
    pub timeout_secs: u64,
}

impl View for Launch {
    type V = LaunchView;

    open spec fn view(&self) -> LaunchView {
        LaunchView {
            args: self.args.deep_view(),
            env_names: self.env_names.deep_view(),
            work_dir: self.work_dir,
            timeout_secs: self.timeout_secs,
        }
    }
}

/// The name under which the CLI is installed.
pub open spec fn program_name(windows: bool) -> Seq<char> {
    if windows {
        "grok.cmd"@
    } else {
        "grok"@
    }
}

/// The arguments that keep the CLI from asking for permission.
pub open spec fn approval_args(auto_approve: bool) -> Seq<Seq<char>> {
    if auto_approve {
        seq!["--always-approve"@, "--permission-mode"@, "bypassPermissions"@]
    } else {
        Seq::empty()
    }
}

/// A flag with its value, where there is one.
pub open spec fn optional_flag(flag: Seq<char>, value: Option<Seq<char>>) -> Seq<Seq<char>> {
    match value {
        Some(v) => seq![flag, v],
        None => Seq::empty(),
    }
}

/// The arguments of a run: headless with the prompt, plain output, no self-update, then what the
/// settings and the request add.
pub open spec fn command_args(config: ConfigView, request: RequestView) -> Seq<Seq<char>> {
    seq!["-p"@, request.prompt, "--output-format"@, "plain"@, "--no-auto-update"@]
        + approval_args(config.auto_approve)
        + optional_flag("-m"@, request.model)
        + optional_flag("--resume"@, request.session_id)
        + nonblank_entries(config.extra_args)
}

/// The environment variables that are always safe to hand on.
pub open spec fn safe_env_vars() -> Seq<Seq<char>> {
    seq![
        "PATH"@,
        "HOME"@,
        "TERM"@,
        "LANG"@,
        "LC_ALL"@,
        "LC_CTYPE"@,
        "USER"@,
        "SHELL"@,
        "TMPDIR"@,
    ]
}

/// The environment variables that a run gets to see: the safe ones, then those that the operator
/// named.
pub open spec fn passed_env_vars(config: ConfigView) -> Seq<Seq<char>> {
    safe_env_vars() + nonblank_entries(config.env_passthrough)
}

/// The run that a request leads to.
pub open spec fn launch_of(
    config: ConfigView,
    request: RequestView,
    work_dir: PathBuf,
) -> LaunchView {
    LaunchView {
        args: command_args(config, request),
        env_names: passed_env_vars(config),
        work_dir,
        timeout_secs: config.timeout_secs,
    }
}

/// The variables that have a value, each with it, in their order.
pub open spec fn present_vars(names: Seq<Seq<char>>, values: Seq<Option<Seq<char>>>) -> Seq<
    (Seq<char>, Seq<char>),
>
    decreases names.len(),
{
    if names.len() == 0 || values.len() == 0 {
        Seq::empty()
    } else {
        let before = present_vars(names.drop_last(), values.drop_last());
        match values.last() {
            Some(value) => before.push((names.last(), value)),
            None => before,
        }
    }
}

/// The program to run: on Windows the CLI is installed as a command script.
pub fn program(windows: bool) -> (r: &'static str)
    ensures
        r@ == program_name(windows),
{
    if windows {
        "grok.cmd"
    } else {
        "grok"
    }
}

/// Adds one argument.
fn push_text(list: &mut Vec<String>, text: &str)
    ensures
        final(list).deep_view() == old(list).deep_view().push(text@),
{
    list.push(text.to_owned());
    assert(list.deep_view() =~= old(list).deep_view().push(text@));
}

/// Adds all of `more`.
fn push_all(list: &mut Vec<String>, more: &Vec<String>)
    ensures
        final(list).deep_view() == old(list).deep_view() + more.deep_view(),
{
    let ghost start = list.deep_view();
    assert(start + more.deep_view().take(0) =~= start);
    for i in 0..more.len()
        invariant
            list.deep_view() == start + more.deep_view().take(i as int),
    {
        push_text(list, more[i].as_str());
        assert(start + more.deep_view().take(i + 1) =~= (start + more.deep_view().take(
            i as int,
        )).push(more.deep_view()[i as int]));
    }
    assert(more.deep_view().take(more.len() as int) =~= more.deep_view());
}

/// Adds a flag with its value, where there is one.
fn push_flag(list: &mut Vec<String>, flag: &str, value: &Option<String>)
    ensures
        final(list).deep_view() == old(list).deep_view() + optional_flag(
            flag@,
            value.deep_view(),
        ),
{
    let ghost start = list.deep_view();
    if let Some(v) = value {
        push_text(list, flag);
        push_text(list, v.as_str());
    }
    assert(list.deep_view() =~= start + optional_flag(flag@, value.deep_view()));
}

/// The arguments of the run for `request`.
pub fn build_args(config: &GrokCliConfig, request: &Request) -> (r: Vec<String>)
    ensures
        r.deep_view() == command_args(config@, request@),
{
    let mut args: Vec<String> = Vec::new();
    push_text(&mut args, "-p");
    push_text(&mut args, request.prompt.as_str());
    push_text(&mut args, "--output-format");
    push_text(&mut args, "plain");
    push_text(&mut args, "--no-auto-update");
    let ghost fixed = args.deep_view();
    assert(fixed =~= seq![
        "-p"@,
        request@.prompt,
        "--output-format"@,
        "plain"@,
        "--no-auto-update"@,
    ]);
    if config.auto_approve {
        push_text(&mut args, "--always-approve");
        push_text(&mut args, "--permission-mode");
        push_text(&mut args, "bypassPermissions");
    }
    assert(args.deep_view() =~= fixed + approval_args(config@.auto_approve));
    push_flag(&mut args, "-m", &request.model);
    push_flag(&mut args, "--resume", &request.session_id);
    push_all(&mut args, &keep_nonblank(&config.extra_args));
    args
}

/// The names of the environment variables that a run gets to see.
pub fn build_env_names(config: &GrokCliConfig) -> (r: Vec<String>)
    ensures
        r.deep_view() == passed_env_vars(config@),
{
    let mut names: Vec<String> = Vec::new();
    push_text(&mut names, "PATH");
    push_text(&mut names, "HOME");
    push_text(&mut names, "TERM");
    push_text(&mut names, "LANG");
    push_text(&mut names, "LC_ALL");
    push_text(&mut names, "LC_CTYPE");
    push_text(&mut names, "USER");
    push_text(&mut names, "SHELL");
    push_text(&mut names, "TMPDIR");
    assert(names.deep_view() =~= safe_env_vars());
    push_all(&mut names, &keep_nonblank(&config.env_passthrough));
    names
}

/// The run for `request` in `work_dir`.
pub fn build_launch(config: &GrokCliConfig, request: &Request, work_dir: PathBuf) -> (r: Launch)
    ensures
        r@ == launch_of(config@, request@, work_dir),
{
    Launch {
        args: build_args(config, request),
        env_names: build_env_names(config),
        work_dir,
        timeout_secs: config.timeout_secs,
    }
}

impl Launch {
    /// The whole environment of the run, given for each of `env_names` the value that it has in
    /// the surrounding process, if it has one.
    pub fn environment(&self, values: &Vec<Option<String>>) -> (r: Vec<(String, String)>)
        requires
            values.len() == self.env_names.len(),
        ensures
            r.deep_view() == present_vars(self@.env_names, values.deep_view()),
    {
        let mut r: Vec<(String, String)> = Vec::new();
        let ghost names = self@.env_names;
        let ghost given = values.deep_view();
        assert(r.deep_view() =~= present_vars(names.take(0), given.take(0)));
        for i in 0..values.len()
            invariant
                values.len() == self.env_names.len(),
                names == self@.env_names,
                given == values.deep_view(),
                r.deep_view() == present_vars(names.take(i as int), given.take(i as int)),
        {
            let ghost before = r.deep_view();
            assert(names.take(i + 1).drop_last() =~= names.take(i as int));
            assert(given.take(i + 1).drop_last() =~= given.take(i as int));
            if let Some(value) = &values[i] {
                r.push((self.env_names[i].clone(), value.clone()));
                assert(r.deep_view() =~= before.push((names[i as int], value@)));
            }
        }
        assert(names.take(values.len() as int) =~= names);
        assert(given.take(values.len() as int) =~= given);
        r
    }
}

} // verus!
