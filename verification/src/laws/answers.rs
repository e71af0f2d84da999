//! What holds of the answer after a run.
use crate::laws::texts::{law_decimal_reads_back, law_parts_split_the_text, law_reported_output};
use crate::result::{
    answer, exit_answer, failed_message, failure, stream_error, timeout_message, OutcomeView,
    ToolResultView,
};
use crate::text::{decimal, lossy_text};
use vstd::prelude::*;
use vstd::utf8::encode_utf8;

verus! {

/// A failure holds its message and nothing else.
pub proof fn law_failures_hold_their_message(message: Seq<char>)
    ensures
        !failure(message).success,
        failure(message).output == Seq::<char>::empty(),
        failure(message).error == Some(message),
{
}

/// After a process that ended by itself: its status, its output as far as it fits, and all of its
/// error stream where there is any.
pub proof fn law_exits_are_reported(
    success: bool,
    stdout: Seq<char>,
    stderr: Seq<char>,
    max_bytes: nat,
)
    ensures
        ({
            let result = exit_answer(success, stdout, stderr, max_bytes);
            &&& result.success == success
            &&& stderr.len() == 0 ==> result.error is None && stream_error(stderr) is None
            &&& stderr.len() > 0 ==> result.error == Some(stderr) && stream_error(stderr) == Some(
                stderr,
            )
            &&& encode_utf8(stdout).len() <= max_bytes ==> result.output == stdout
            &&& encode_utf8(stdout).len() > max_bytes ==> exists|kept: int|
                {
                    &&& 0 <= kept < stdout.len()
                    &&& result.output == #[trigger] stdout.take(kept)
                        + "\n... [output truncated]"@
                    &&& encode_utf8(stdout.take(kept)).len() <= max_bytes
                    &&& forall|n: int|
                        kept < n <= stdout.len() ==> encode_utf8(#[trigger] stdout.take(n)).len()
                            > max_bytes
                }
        }),
{
    law_reported_output(stdout, max_bytes);
}

/// A process that could not be run is taken to be missing exactly when the reason holds one of three
/// phrases. Any other reason is quoted.
pub proof fn law_failed_starts_are_explained(reason: Seq<char>)
    ensures
        ({
            let missing = {
                ||| exists|a: Seq<char>, b: Seq<char>|
                    reason == #[trigger] (a + "No such file or directory"@ + b)
                ||| exists|a: Seq<char>, b: Seq<char>| reason == #[trigger] (a + "not found"@ + b)
                ||| exists|a: Seq<char>, b: Seq<char>| reason == #[trigger] (a + "cannot find"@ + b)
            };
            &&& missing ==> failed_message(reason)
                == "Grok Build CLI ('grok') not found in PATH. Install with: curl -fsSL https://x.ai/cli/install.sh | bash (then ensure ~/.grok/bin is on PATH)"@
            &&& !missing ==> failed_message(reason) == "Failed to execute grok: "@ + reason
        }),
{
    law_parts_split_the_text("No such file or directory"@, reason);
    law_parts_split_the_text("not found"@, reason);
    law_parts_split_the_text("cannot find"@, reason);
}

/// After the time limit passed, the message names the limit in seconds: digits alone, without a
/// leading zero, that read back as the limit.
pub proof fn law_timeouts_name_the_limit(timeout_secs: u64)
    ensures
        exists|digits: Seq<char>|
            {
                &&& timeout_message(timeout_secs) == #[trigger] ("Grok Build CLI timed out after "@
                    + digits + "s and was killed"@)
                &&& digits.len() > 0
                &&& forall|i: int| 0 <= i < digits.len() ==> '0' <= #[trigger] digits[i] <= '9'
                &&& timeout_secs > 0 ==> digits.first() != '0'
                &&& timeout_secs == 0 ==> digits.len() == 1
                &&& digits.fold_left(
                    0int,
                    |read: int, c: char| 10 * read + (c as int - '0' as int),
                ) == timeout_secs
            },
{
    let digits = decimal(timeout_secs as nat);
    law_decimal_reads_back(timeout_secs as nat);
    assert(timeout_message(timeout_secs) == "Grok Build CLI timed out after "@ + digits
        + "s and was killed"@);
}

/// The answer after any run: of a process that ended by itself its status and both streams, each
/// decoded by itself; of any other a failure with the message for it.
pub proof fn law_answers_follow_the_outcome(
    outcome: OutcomeView,
    timeout_secs: u64,
    max_bytes: nat,
)
    ensures
        ({
            let result = answer(outcome, timeout_secs, max_bytes);
            &&& outcome matches OutcomeView::Exited { success, stdout, stderr } ==> {
                let text = lossy_text(stdout);
                &&& result.success == success
                &&& lossy_text(stderr).len() == 0 ==> result.error is None
                &&& lossy_text(stderr).len() > 0 ==> result.error == Some(lossy_text(stderr))
                &&& encode_utf8(text).len() <= max_bytes ==> result.output == text
                &&& encode_utf8(text).len() > max_bytes ==> exists|kept: int|
                    {
                        &&& 0 <= kept < text.len()
                        &&& result.output == #[trigger] text.take(kept)
                            + "\n... [output truncated]"@
                        &&& encode_utf8(text.take(kept)).len() <= max_bytes
                        &&& forall|n: int|
                            kept < n <= text.len() ==> encode_utf8(#[trigger] text.take(n)).len()
                                > max_bytes
                    }
            }
            &&& outcome matches OutcomeView::Failed(reason) ==> result == (ToolResultView {
                success: false,
                output: Seq::empty(),
                error: Some(failed_message(reason)),
            })
            &&& outcome is TimedOut ==> result == (ToolResultView {
                success: false,
                output: Seq::empty(),
                error: Some(timeout_message(timeout_secs)),
            })
        }),
{
    if let OutcomeView::Exited { success, stdout, stderr } = outcome {
        law_reported_output(lossy_text(stdout), max_bytes);
    }
}

} // verus!
