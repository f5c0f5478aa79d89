//! The runner's result model: what one finished child process left behind
//! (decoded output streams and exit status) and the deterministic choice of
//! an error message for a run that failed.

use vstd::prelude::*;
use vstd::string::StringExecFns;

use crate::text::dec_int;

verus! {

/// What one launched process left behind: both output streams decoded to
/// text, whether the exit status was success, and the numeric exit code
/// where the platform reported one.
#[derive(Debug, PartialEq, Eq)]
pub struct ProcessResult {
    pub stdout: String,
    pub stderr: String,
    pub success: bool,
    pub code: Option<i32>,
}

/// The mathematical shadow of a `ProcessResult`.
pub struct ProcessResultView {
    pub stdout: Seq<char>,
    pub stderr: Seq<char>,
    pub success: bool,
    pub code: Option<int>,
}

impl View for ProcessResult {
    type V = ProcessResultView;

    open spec fn view(&self) -> ProcessResultView {
        ProcessResultView {
            stdout: self.stdout@,
            stderr: self.stderr@,
            success: self.success,
            code: match self.code {
                Some(c) => Some(c as int),
                None => None,
            },
        }
    }
}

/// The text that a byte stream decodes to, with every invalid sequence
/// replaced rather than refused.
pub uninterp spec fn lossy_decoded(bytes: Seq<u8>) -> Seq<char>;

/// Relies on `String::from_utf8_lossy`: the decoded text is a function of
/// the bytes alone, invalid sequences become replacement characters instead
/// of failures, and empty input decodes to empty text.
#[verifier::external_body]
fn decode_lossy(bytes: &Vec<u8>) -> (r: String)
    ensures
        r@ == lossy_decoded(bytes@),
        bytes@.len() == 0 ==> r@.len() == 0,
{
    String::from_utf8_lossy(bytes).into_owned()
}

impl ProcessResult {
    /// Builds the result of one run from the raw captured streams and the
    /// exit status. Decoding never fails: byte sequences that are not valid
    /// text come back with replacement characters.
    pub fn from_raw(stdout: Vec<u8>, stderr: Vec<u8>, success: bool, code: Option<i32>) -> (r:
        ProcessResult)
        ensures
            r@.stdout == lossy_decoded(stdout@),
            r@.stderr == lossy_decoded(stderr@),
            r@.success == success,
            r@.code == (match code {
                Some(c) => Some(c as int),
                None => None,
            }),
    {
        ProcessResult {
            stdout: decode_lossy(&stdout),
            stderr: decode_lossy(&stderr),
            success,
            code,
        }
    }
}

/// The exit code named in a synthesized message when the platform reported
/// none: the conventional "unknown" code.
pub open spec fn code_or_unknown(code: Option<int>) -> int {
    match code {
        Some(c) => c,
        None => -1,
    }
}

/// The message synthesized when a failed run printed nothing usable.
pub open spec fn exit_code_message(code: int) -> Seq<char> {
    "Exited with code: "@ + dec_int(code)
}

/// The error message recorded for a failed run. Selection is deterministic:
/// standard error wins when it holds anything beyond whitespace; otherwise
/// standard output does; when both are blank, a message naming the numeric
/// exit code is synthesized. The chosen stream's text is relayed untrimmed.
pub open spec fn error_message_of(r: ProcessResultView) -> Seq<char> {
    if crate::text::trimmed(r.stderr).len() > 0 {
        r.stderr
    } else if crate::text::trimmed(r.stdout).len() > 0 {
        r.stdout
    } else {
        exit_code_message(code_or_unknown(r.code))
    }
}

/// Chooses the error message for a failed run, exactly as
/// `error_message_of` states.
pub fn error_message(r: &ProcessResult) -> (m: String)
    ensures
        m@ == error_message_of(r@),
{
    let stderr_trimmed = crate::text::trim_str(r.stderr.as_str());
    if !stderr_trimmed.as_str().is_empty() {
        return r.stderr.clone();
    }
    let stdout_trimmed = crate::text::trim_str(r.stdout.as_str());
    if !stdout_trimmed.as_str().is_empty() {
        return r.stdout.clone();
    }
    let mut m = String::from_str("Exited with code: ");
    let code: i32 = match r.code {
        Some(c) => c,
        None => -1,
    };
    crate::text::push_decimal(&mut m, code);
    m
}

} // verus!
