//! What the strategy reads of a request and of the way it ended.

use vstd::prelude::*;
use crate::method::Method;
use crate::version::Version;

verus! {

/// What the strategy reads of an incoming request.
#[derive(Debug, Clone, PartialEq, Eq)]
pub struct RequestHead {
    /// The routing pattern that matched, if routing has resolved one.
    pub route: Option<String>,
    pub method: Method,
    pub version: Version,
}

/// What the strategy reads of an error: its two formatted texts and the
/// status code that its kind stands for.
#[derive(Debug, Clone, PartialEq, Eq)]
pub struct ErrorReport {
    /// The error in its display form.
    pub message: String,
    /// The error in its debug form.
    pub details: String,
    /// The canonical status code of the error's kind.
    pub status_code: u16,
}

/// How a request ended.
#[derive(Debug, Clone, PartialEq, Eq)]
pub enum Outcome {
    /// A response was produced. It may carry the error that led to it.
    Response { status_code: u16, error: Option<ErrorReport> },
    /// No response was produced: the request failed with an error.
    Failure(ErrorReport),
}

impl Outcome {
    /// The error that the outcome carries, if any.
    pub open spec fn error(self) -> Option<ErrorReport> {
        match self {
            Outcome::Response { status_code, error } => error,
            Outcome::Failure(error) => Some(error),
        }
    }

    /// The status code that the outcome resolves to: that of the response
    /// where there is one, else the canonical one of the error.
    pub open spec fn resolved_status(self) -> u16 {
        match self {
            Outcome::Response { status_code, error } => status_code,
            Outcome::Failure(error) => error.status_code,
        }
    }
}

} // verus!
