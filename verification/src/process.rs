//! A process as the library sees it: the command that is to be run, and what
//! came of running it. Running it is left to the caller.
use crate::error::{ending, DdError, DdErrorView};
use vstd::prelude::*;
use vstd::utf8::{decode_utf8, encode_utf8, valid_utf8};

verus! {

/// A command to run: a program and its arguments.
#[derive(Debug, PartialEq, Eq)]
pub struct Invocation {
    pub program: String,
    pub args: Vec<String>,
}

/// An [`Invocation`] as sequences of characters.
pub ghost struct InvocationView {
    pub program: Seq<char>,
    pub args: Seq<Seq<char>>,
}

/// The texts in `strings`, each as a sequence of characters.
pub open spec fn texts(strings: Seq<String>) -> Seq<Seq<char>> {
    strings.map_values(|s: String| s@)
}

impl View for Invocation {
    type V = InvocationView;

    open spec fn view(&self) -> InvocationView {
        InvocationView { program: self.program@, args: texts(self.args@) }
    }
}

/// What came of running a command to its end.
#[derive(Debug, PartialEq, Eq)]
pub enum Outcome {
    /// The program could not be started. Holds the system's account of why.
    NotStarted(String),
    /// The program ran and exited, with what it wrote to its two streams.
    Exited { success: bool, stdout: Vec<u8>, stderr: Vec<u8> },
}

/// An [`Outcome`] as sequences of characters and bytes.
pub ghost enum OutcomeView {
    NotStarted(Seq<char>),
    Exited { success: bool, stdout: Seq<u8>, stderr: Seq<u8> },
}

impl View for Outcome {
    type V = OutcomeView;

    open spec fn view(&self) -> OutcomeView {
        match self {
            Outcome::NotStarted(reason) => OutcomeView::NotStarted(reason@),
            Outcome::Exited { success, stdout, stderr } => OutcomeView::Exited {
                success: *success,
                stdout: stdout@,
                stderr: stderr@,
            },
        }
    }
}

/// The two commands of a run, in the order in which they are run.
#[derive(Debug, Clone, Copy, PartialEq, Eq)]
pub enum Phase {
    /// The binary is asked for its version.
    Check,
    /// The binary copies.
    Copy,
}

/// What a run asks for next.
#[derive(Debug, PartialEq, Eq)]
pub enum Step {
    /// Run this command, and report its outcome under the phase named.
    Run { phase: Phase, invocation: Invocation },
    /// The run is over.
    Done(Result<String, DdError>),
}

/// A [`Step`] as sequences of characters.
pub ghost enum StepView {
    Run { phase: Phase, invocation: InvocationView },
    Done(Result<Seq<char>, DdErrorView>),
}

impl View for Step {
    type V = StepView;

    open spec fn view(&self) -> StepView {
        match self {
            Step::Run { phase, invocation } => StepView::Run {
                phase: *phase,
                invocation: invocation@,
            },
            Step::Done(result) => StepView::Done(ending(*result)),
        }
    }
}

/// The text that `bytes` encode in UTF-8, if they encode one.
pub open spec fn text_of(bytes: Seq<u8>) -> Option<Seq<char>> {
    if valid_utf8(bytes) {
        Some(decode_utf8(bytes))
    } else {
        None
    }
}

/// `String::from_utf8` of the standard library, with the error dropped. It
/// gives a string exactly when the bytes are valid UTF-8, and the string then
/// holds those very bytes.
#[verifier::external_body]
fn string_from_utf8(bytes: Vec<u8>) -> (text: Option<String>)
    ensures
        text is Some <==> valid_utf8(bytes@),
        text matches Some(s) ==> encode_utf8(s@) == bytes@,
{
    String::from_utf8(bytes).ok()
}

/// Decodes `bytes` as UTF-8.
pub fn decode(bytes: Vec<u8>) -> (text: Option<String>)
    ensures
        match text {
            Some(s) => text_of(bytes@) == Some(s@),
            None => text_of(bytes@) is None,
        },
{
    let text = string_from_utf8(bytes);
    proof {
        if text is Some {
            vstd::utf8::encode_utf8_decode_utf8(text->0@);
        }
    }
    text
}

} // verus!
