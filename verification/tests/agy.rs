use gemini_multimodal_mcp::agy::{answer_from, output_text, AgyOutput};
use gemini_multimodal_mcp::error::AppError;

fn out(success: bool, code: Option<i32>, stdout: &[u8], stderr: &[u8]) -> AgyOutput {
    AgyOutput { success, code, stdout: stdout.to_vec(), stderr: stderr.to_vec() }
}

#[test]
fn successful_run_answers_with_trimmed_stdout() {
    let r = output_text(&out(true, Some(0), b"  answer\n", b"noise"));
    assert_eq!(r.unwrap(), "answer");
}

#[test]
fn blank_stdout_falls_back_to_stderr() {
    let r = output_text(&out(true, Some(0), b" \n", b"\tfrom stderr\n"));
    assert_eq!(r.unwrap(), "from stderr");
    assert!(matches!(output_text(&out(true, Some(0), b"", b" ")), Err(AppError::EmptyOutput)));
}

#[test]
fn failed_run_is_an_error() {
    match output_text(&out(false, Some(3), b"ignored", b" boom \n")) {
        Err(AppError::AgyExit { status, stderr }) => {
            assert_eq!(status, 3);
            assert_eq!(stderr, "boom");
        }
        other => panic!("expected AgyExit, got {other:?}"),
    }
    assert!(matches!(output_text(&out(false, None, b"x", b"")), Err(AppError::AgySignaled)));
}

#[test]
fn invalid_utf8_is_replaced() {
    let r = output_text(&out(true, Some(0), b"a\xffb", b""));
    assert_eq!(r.unwrap(), "a\u{fffd}b");
}

#[test]
fn answer_from_text() {
    assert_eq!(answer_from(true, Some(0), "\u{3000}x\u{2028}", "").unwrap(), "x");
}
