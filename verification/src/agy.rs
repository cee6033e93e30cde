//! Reading the answer of one run of the `agy` command.

use vstd::prelude::*;
use vstd::utf8::{decode_utf8, valid_utf8};

use crate::error::AppError;
use crate::text::{trim, trimmed};

verus! {

/// How long a run of `agy` may take, in seconds.
pub const DEFAULT_TIMEOUT_SECS: u64 = 600;

/// How long a run of `agy` on a video may take, in seconds.
pub const VIDEO_TIMEOUT_SECS: u64 = 600;

/// What a finished run of `agy` left: whether it succeeded, its exit code
/// (none when a signal ended it), and what it printed.
#[derive(Debug)]
pub struct AgyOutput {
    pub success: bool,
    pub code: Option<i32>,
    pub stdout: Vec<u8>,
    pub stderr: Vec<u8>,
}

/// The text that `String::from_utf8_lossy` makes of the bytes.
pub uninterp spec fn utf8_lossy(bytes: Seq<u8>) -> Seq<char>;

/// Calls `String::from_utf8_lossy`. Its documentation says that it decodes
/// the bytes and replaces each invalid sequence with U+FFFD; the contract
/// claims that the text is a function of the bytes, and that valid UTF-8 is
/// decoded as it is.
#[verifier::external_body]
fn lossy_text(bytes: &[u8]) -> (s: String)
    ensures
        s@ == utf8_lossy(bytes@),
        valid_utf8(bytes@) ==> s@ == decode_utf8(bytes@),
{
    String::from_utf8_lossy(bytes).into_owned()
}

/// The model of an answer: the text, or the error.
pub enum AnswerView {
    Text(Seq<char>),
    Exit { status: i32, stderr: Seq<char> },
    Signaled,
    Empty,
}

/// The answer of a run, from its status and its printed text: a failed run
/// is an error (its exit code and trimmed standard error, or a signal); a
/// successful one answers with its trimmed standard output, or, when that is
/// blank, with its trimmed standard error, or is an error when both are blank.
pub open spec fn answer_of(success: bool, code: Option<i32>, out: Seq<char>, err: Seq<char>) -> AnswerView {
    if !success {
        match code {
            Some(c) => AnswerView::Exit { status: c, stderr: trim(err) },
            None => AnswerView::Signaled,
        }
    } else if trim(out).len() > 0 {
        AnswerView::Text(trim(out))
    } else if trim(err).len() > 0 {
        AnswerView::Text(trim(err))
    } else {
        AnswerView::Empty
    }
}

/// The result of reading a run matches its model.
pub open spec fn answers_as(r: Result<String, AppError>, a: AnswerView) -> bool {
    match a {
        AnswerView::Text(t) => r matches Ok(s) && s@ == t,
        AnswerView::Exit { status, stderr } => r matches Err(AppError::AgyExit { status: st, stderr: e })
            && st == status && e@ == stderr,
        AnswerView::Signaled => r matches Err(AppError::AgySignaled),
        AnswerView::Empty => r matches Err(AppError::EmptyOutput),
    }
}

/// The answer of a run, from its status and the text of what it printed.
pub fn answer_from(success: bool, code: Option<i32>, stdout: &str, stderr: &str) -> (r: Result<String, AppError>)
    ensures
        answers_as(r, answer_of(success, code, stdout@, stderr@)),
{
    if !success {
        let err = trimmed(stderr);
        return match code {
            Some(c) => Err(AppError::AgyExit { status: c, stderr: err }),
            None => Err(AppError::AgySignaled),
        };
    }
    let out = trimmed(stdout);
    if out.unicode_len() > 0 {
        return Ok(out);
    }
    let err = trimmed(stderr);
    if err.unicode_len() == 0 {
        Err(AppError::EmptyOutput)
    } else {
        Ok(err)
    }
}

/// The answer of a finished run of `agy`; what it printed is read as UTF-8,
/// invalid sequences replaced.
pub fn output_text(output: &AgyOutput) -> (r: Result<String, AppError>)
    ensures
        answers_as(
            r,
            answer_of(output.success, output.code, utf8_lossy(output.stdout@), utf8_lossy(output.stderr@)),
        ),
{
    let out = lossy_text(output.stdout.as_slice());
    let err = lossy_text(output.stderr.as_slice());
    answer_from(output.success, output.code, out.as_str(), err.as_str())
}

/// A failed run is never taken as an answer; a successful run that printed
/// something on its standard output answers with exactly that, trimmed.
pub proof fn lemma_answer_follows_status(success: bool, code: Option<i32>, out: Seq<char>, err: Seq<char>)
    ensures
        !success ==> !(answer_of(success, code, out, err) is Text),
        success && trim(out).len() > 0 ==> answer_of(success, code, out, err) == AnswerView::Text(
            trim(out),
        ),
{
}

/// A successful run whose standard output is blank answers with its
/// trimmed standard error, or is an empty-output error when that is blank
/// too; a failed run with an exit code reports that code and its trimmed
/// standard error; a run ended by a signal reports the signal.
pub proof fn lemma_answer_fallbacks(code: Option<i32>, out: Seq<char>, err: Seq<char>)
    ensures
        trim(out).len() == 0 && trim(err).len() > 0 ==> answer_of(true, code, out, err)
            == AnswerView::Text(trim(err)),
        trim(out).len() == 0 && trim(err).len() == 0 ==> answer_of(true, code, out, err)
            == AnswerView::Empty,
        forall|c: i32|
            code == Some(c) ==> #[trigger] answer_of(false, Some(c), out, err) == (AnswerView::Exit {
                status: c,
                stderr: trim(err),
            }),
        answer_of(false, None, out, err) == AnswerView::Signaled,
{
}

} // verus!
