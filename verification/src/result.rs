//! What the tool answers, and what becomes of a run of the CLI.
use crate::output::{limit_output, limited};
use crate::text::{contains, decimal, decode_lossy, lossy_text, occurs_in, write_decimal};
use vstd::prelude::*;
use vstd::utf8::{decode_utf8, valid_utf8};

verus! {

/// What is answered where the CLI is not installed.
pub const NOT_FOUND_MESSAGE: &'static str = "Grok Build CLI ('grok') not found in PATH. Install with: curl -fsSL https://x.ai/cli/install.sh | bash (then ensure ~/.grok/bin is on PATH)";

/// The answer to one call of the tool.
#[derive(Debug)]
pub struct ToolResult {
    /// Whether the task was carried out.
    pub success: bool,
    /// What the CLI wrote.
    pub output: String,
    /// What went wrong, or what the CLI wrote to its error stream.
    pub error: Option<String>,
}

/// What a `ToolResult` says.
pub struct ToolResultView {
    pub success: bool,
    pub output: Seq<char>,
    pub error: Option<Seq<char>>,
}

impl View for ToolResult {
    type V = ToolResultView;

    open spec fn view(&self) -> ToolResultView {
        ToolResultView {
            success: self.success,
            output: self.output@,
            error: self.error.deep_view(),
        }
    }
}

/// A call that cannot be answered at all.
#[derive(Debug, Clone, Copy, PartialEq, Eq, Structural)]
pub enum ToolError {
    /// The call has no prompt.
    MissingPrompt,
}

impl ToolError {
    /// The error in words.
    pub open spec fn spec_message(self) -> Seq<char> {
        "Missing 'prompt' parameter"@
    }

    /// The error in words.
    pub fn message(&self) -> (r: &'static str)
        ensures
            r@ == self.spec_message(),
    {
        "Missing 'prompt' parameter"
    }
}

/// How a run of the CLI came to its end.
#[derive(Debug)]
pub enum Outcome {
    /// The process ended by itself.
    Exited {
        /// Whether its exit status means success.
        success: bool,
        stdout: Vec<u8>,
        stderr: Vec<u8>,
    },
    /// The process could not be run, for the reason given.
    Failed(String),
    /// The time limit passed and the process was killed.
    TimedOut,
}

/// What an `Outcome` says.
pub enum OutcomeView {
    Exited { success: bool, stdout: Seq<u8>, stderr: Seq<u8> },
    Failed(Seq<char>),
    TimedOut,
}

impl View for Outcome {
    type V = OutcomeView;

    open spec fn view(&self) -> OutcomeView {
        match self {
            Outcome::Exited { success, stdout, stderr } => OutcomeView::Exited {
                success: *success,
                stdout: stdout@,
                stderr: stderr@,
            },
            Outcome::Failed(reason) => OutcomeView::Failed(reason@),
            Outcome::TimedOut => OutcomeView::TimedOut,
        }
    }
}

/// The answer of a call that was turned down or came to nothing.
pub open spec fn failure(message: Seq<char>) -> ToolResultView {
    ToolResultView { success: false, output: Seq::empty(), error: Some(message) }
}

/// The answer after the process ended by itself with the texts `stdout` and `stderr`.
pub open spec fn exit_answer(
    success: bool,
    stdout: Seq<char>,
    stderr: Seq<char>,
    max_output_bytes: nat,
) -> ToolResultView {
    ToolResultView {
        success,
        output: limited(stdout, max_output_bytes),
        error: stream_error(stderr),
    }
}

/// What is reported of the text on the error stream: all of it, where there is any.
pub open spec fn stream_error(stderr: Seq<char>) -> Option<Seq<char>> {
    if stderr.len() == 0 {
        None
    } else {
        Some(stderr)
    }
}

/// Whether a reason for not running a program means that there is no such program.
pub open spec fn means_not_found(reason: Seq<char>) -> bool {
    ||| occurs_in("No such file or directory"@, reason)
    ||| occurs_in("not found"@, reason)
    ||| occurs_in("cannot find"@, reason)
}

/// What is answered where the process could not be run.
pub open spec fn failed_message(reason: Seq<char>) -> Seq<char> {
    if means_not_found(reason) {
        NOT_FOUND_MESSAGE@
    } else {
        "Failed to execute grok: "@ + reason
    }
}

/// What is answered where the time limit passed.
pub open spec fn timeout_message(timeout_secs: u64) -> Seq<char> {
    "Grok Build CLI timed out after "@ + decimal(timeout_secs as nat) + "s and was killed"@
}

/// The answer after a run.
pub open spec fn answer(
    outcome: OutcomeView,
    timeout_secs: u64,
    max_output_bytes: nat,
) -> ToolResultView {
    match outcome {
        OutcomeView::Exited { success, stdout, stderr } => exit_answer(
            success,
            lossy_text(stdout),
            lossy_text(stderr),
            max_output_bytes,
        ),
        OutcomeView::Failed(reason) => failure(failed_message(reason)),
        OutcomeView::TimedOut => failure(timeout_message(timeout_secs)),
    }
}

/// Whether `result` reports each stream that is valid UTF-8 by the text that was written to it,
/// whatever the other stream holds, and has an error exactly when something was written to the
/// error stream.
pub open spec fn reports_streams(
    outcome: OutcomeView,
    max_output_bytes: nat,
    result: ToolResultView,
) -> bool {
    outcome matches OutcomeView::Exited { success, stdout, stderr } ==> {
        &&& valid_utf8(stdout) ==> result.output == limited(decode_utf8(stdout), max_output_bytes)
        &&& valid_utf8(stderr) ==> result.error == stream_error(decode_utf8(stderr))
        &&& result.error is None <==> stderr.len() == 0
    }
}

/// An answer that only says what went wrong.
pub fn report_failure(message: String) -> (r: ToolResult)
    ensures
        r@ == failure(message@),
{
    let r = ToolResult { success: false, output: String::new(), error: Some(message) };
    assert(r@.output =~= Seq::<char>::empty());
    r
}

/// The answer after the process ended by itself.
pub fn report_exit(success: bool, stdout: String, stderr: String, max_output_bytes: usize) -> (r:
    ToolResult)
    ensures
        r@ == exit_answer(success, stdout@, stderr@, max_output_bytes as nat),
{
    let error = if stderr.as_str().is_empty() {
        None
    } else {
        Some(stderr)
    };
    ToolResult { success, output: limit_output(stdout, max_output_bytes), error }
}

/// What to say of a process that could not be run.
pub fn explain_failed(reason: &str) -> (r: String)
    ensures
        r@ == failed_message(reason@),
{
    if contains(reason, "No such file or directory") || contains(reason, "not found") || contains(
        reason,
        "cannot find",
    ) {
        NOT_FOUND_MESSAGE.to_owned()
    } else {
        "Failed to execute grok: ".to_owned().concat(reason)
    }
}

/// What to say of a process that was killed when its time was up.
pub fn explain_timeout(timeout_secs: u64) -> (r: String)
    ensures
        r@ == timeout_message(timeout_secs),
{
    "Grok Build CLI timed out after ".to_owned().concat(
        write_decimal(timeout_secs).as_str(),
    ).concat("s and was killed")
}

/// The answer after a run.
pub fn report(outcome: Outcome, timeout_secs: u64, max_output_bytes: usize) -> (r: ToolResult)
    ensures
        r@ == answer(outcome@, timeout_secs, max_output_bytes as nat),
        reports_streams(outcome@, max_output_bytes as nat, r@),
{
    match outcome {
        Outcome::Exited { success, stdout, stderr } => report_exit(
            success,
            decode_lossy(&stdout),
            decode_lossy(&stderr),
            max_output_bytes,
        ),
        Outcome::Failed(reason) => report_failure(explain_failed(reason.as_str())),
        Outcome::TimedOut => report_failure(explain_timeout(timeout_secs)),
    }
}

} // verus!
