//! Programs to run, and how a run of one ended.

use vstd::prelude::*;
use vstd::utf8::{decode_utf8, valid_utf8};

verus! {

/// A program and its arguments.
#[derive(Debug, PartialEq, Eq)]
pub struct Command {
    pub program: String,
    pub args: Vec<String>,
}

/// How a run of a program ended.
#[derive(Debug, PartialEq, Eq)]
pub enum RunOutcome {
    /// The program could not be started; the text says why.
    NotStarted { error: String },
    /// The program ran. `code` is its exit code, absent where a signal ended
    /// it.
    Exited { code: Option<i32>, stdout: Vec<u8>, stderr: Vec<u8> },
}

/// Whether a run ended with exit code 0.
pub open spec fn succeeded(outcome: RunOutcome) -> bool {
    outcome matches RunOutcome::Exited { code, .. } && code == Some(0i32)
}

impl RunOutcome {
    /// Whether the program ran and ended with exit code 0.
    pub fn is_success(&self) -> (r: bool)
        ensures
            r == succeeded(*self),
    {
        match self {
            RunOutcome::NotStarted { .. } => false,
            RunOutcome::Exited { code, .. } => match code {
                Some(c) => *c == 0,
                None => false,
            },
        }
    }
}

/// The text that a run of bytes decodes to when every sequence that is not
/// valid UTF-8 is replaced by U+FFFD.
pub uninterp spec fn utf8_lossy(bytes: Seq<u8>) -> Seq<char>;

/// Whether `text` is what `bytes` decode to: the lossy decoding of the
/// bytes, which for valid UTF-8 is the text that the bytes encode.
pub open spec fn decoded(bytes: Seq<u8>, text: Seq<char>) -> bool {
    text == utf8_lossy(bytes) && (valid_utf8(bytes) ==> text == decode_utf8(bytes))
}

/// `String::from_utf8_lossy`. The result depends on the bytes alone, and
/// valid UTF-8 decodes to the text it encodes.
#[verifier::external_body]
pub(crate) fn from_utf8_lossy(bytes: &[u8]) -> (r: String)
    ensures
        r@ == utf8_lossy(bytes@),
        valid_utf8(bytes@) ==> r@ == decode_utf8(bytes@),
{
    String::from_utf8_lossy(bytes).into_owned()
}

} // verus!
