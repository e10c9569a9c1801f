//! The ways in which a run of `dd` can fail.
use vstd::prelude::*;

verus! {

/// Why a run of `dd` came to nothing. A run ends in exactly one of these or in
/// the text that `dd` wrote, never in both.
#[derive(Debug, PartialEq, Eq)]
pub enum DdError {
    /// The binary was started and exited unsuccessfully, or the copy could not
    /// be started at all. Holds the diagnostic that is known of the failure.
    CantRun(String),
    /// The binary could not be started when it was asked for its version.
    Missing,
    /// Invalid encoding: what the process wrote is not valid UTF-8.
    InvalidUTF8,
    /// Invalid output format: the report of the version has no third token, or
    /// one that a `.` does not divide in two.
    InvalidOutput,
    /// The binary reports a version that comes before the minimum asked for.
    OldVersion,
    /// No input was given to copy from.
    NoInput,
}

/// A [`DdError`] with its diagnostic as a sequence of characters.
pub ghost enum DdErrorView {
    CantRun(Seq<char>),
    Missing,
    InvalidUTF8,
    InvalidOutput,
    OldVersion,
    NoInput,
}

impl View for DdError {
    type V = DdErrorView;

    open spec fn view(&self) -> DdErrorView {
        match self {
            DdError::CantRun(diagnostic) => DdErrorView::CantRun(diagnostic@),
            DdError::Missing => DdErrorView::Missing,
            DdError::InvalidUTF8 => DdErrorView::InvalidUTF8,
            DdError::InvalidOutput => DdErrorView::InvalidOutput,
            DdError::OldVersion => DdErrorView::OldVersion,
            DdError::NoInput => DdErrorView::NoInput,
        }
    }
}

/// How a run ended, with its text or diagnostic as a sequence of characters.
pub open spec fn ending(result: Result<String, DdError>) -> Result<Seq<char>, DdErrorView> {
    match result {
        Ok(text) => Ok(text@),
        Err(e) => Err(e@),
    }
}

} // verus!
