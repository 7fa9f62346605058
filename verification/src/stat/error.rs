//! The ways in which a record can fail to be produced.

use vstd::prelude::*;
use vstd::string::StringExecFns;

use crate::stat::probe::Timestamp;

verus! {

/// Why no record was produced for an input line.
#[derive(Clone, Debug, PartialEq, Eq)]
pub enum StatError {
    /// The input line could not be read or decoded.
    Read { reason: String },
    /// The path is not valid text.
    InvalidPath,
    /// The metadata query for `path` failed: the entry does not exist, may not
    /// be looked at, or the system refused for a reason of its own.
    Query { path: String, reason: String },
    /// The platform supplies no modification time for `path`.
    NoModifiedTime { path: String },
    /// The modification time of `path` has no RFC 3339 text.
    TimeFormat { path: String, modified: Timestamp },
}

/// A [`StatError`] with its strings as sequences of characters.
pub enum StatErrorView {
    Read { reason: Seq<char> },
    InvalidPath,
    Query { path: Seq<char>, reason: Seq<char> },
    NoModifiedTime { path: Seq<char> },
    TimeFormat { path: Seq<char>, modified: Timestamp },
}

impl View for StatError {
    type V = StatErrorView;

    open spec fn view(&self) -> StatErrorView {
        match *self {
            StatError::Read { reason } => StatErrorView::Read { reason: reason@ },
            StatError::InvalidPath => StatErrorView::InvalidPath,
            StatError::Query { path, reason } => StatErrorView::Query {
                path: path@,
                reason: reason@,
            },
            StatError::NoModifiedTime { path } => StatErrorView::NoModifiedTime { path: path@ },
            StatError::TimeFormat { path, modified } => StatErrorView::TimeFormat {
                path: path@,
                modified,
            },
        }
    }
}

/// The one line of text that describes an error. An error about a path begins
/// with that path, as it was given.
pub open spec fn message_text(e: StatErrorView) -> Seq<char> {
    match e {
        StatErrorView::Read { reason } => reason,
        StatErrorView::InvalidPath => "invalid path"@,
        StatErrorView::Query { path, reason } => path + ": "@ + reason,
        StatErrorView::NoModifiedTime { path } => path + ": no modification time available"@,
        StatErrorView::TimeFormat { path, modified } => path
            + ": modification time has no RFC 3339 form"@,
    }
}

impl StatError {
    /// The text to show to a person.
    pub fn message(&self) -> (text: String)
        ensures
            text@ == message_text(self@),
    {
        match self {
            StatError::Read { reason } => reason.clone(),
            StatError::InvalidPath => String::from_str("invalid path"),
            StatError::Query { path, reason } => {
                let mut text = path.clone();
                text.append(": ");
                text.append(reason.as_str());
                text
            },
            StatError::NoModifiedTime { path } => {
                let mut text = path.clone();
                text.append(": no modification time available");
                text
            },
            StatError::TimeFormat { path, modified: _ } => {
                let mut text = path.clone();
                text.append(": modification time has no RFC 3339 form");
                text
            },
        }
    }
}

} // verus!
