//! Errors of the library.

use vstd::prelude::*;

verus! {

/// Why a request could not be served.
///
/// Durations are carried as whole seconds.
#[derive(Debug)]
pub enum AppError {
    /// The input could not be resolved; the text says why.
    Input(String),
    /// A base64 payload could not be decoded.
    Base64(String),
    /// An I/O operation failed; the text is the operating system's message.
    Io(String),
    /// `agy` did not answer within the given number of seconds.
    Timeout(u64),
    /// `agy` exited with a non-zero status.
    AgyExit { status: i32, stderr: String },
    /// `agy` was terminated by a signal.
    AgySignaled,
    /// `agy` printed nothing.
    EmptyOutput,
    /// The media is longer than the threshold and no confirmation was given.
    LongMedia { secs: u64, threshold: u64 },
    /// The input is of another kind of media than the tool expects.
    InputTypeMismatch { expected: &'static str, actual: &'static str },
    /// The kind of the input could not be determined.
    UnknownInputType { expected: &'static str },
    /// The length of the media could not be determined.
    UnknownDuration,
}

} // verus!
