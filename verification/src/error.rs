use vstd::prelude::*;

verus! {

/// Every way a solve or report call can fail. Each call ends in exactly one
/// of these or in success.
#[derive(Debug, Clone, PartialEq, Eq)]
pub enum Error {
    /// The request never produced a reply (network or I/O failure).
    Transport(String),
    /// The service refused the task at submission time.
    RemoteRejected { code: String, message: String },
    /// The service reported a failure while the task was being polled.
    RemoteFailed { code: String, message: String },
    /// The deadline passed, or the poll budget ran out, before the task
    /// finished.
    Timeout,
    /// A reply did not have any recognised shape.
    SchemaMismatch,
    /// The task description itself is malformed.
    InvalidInput(String),
    /// The service refused a report about a finished task.
    ReportRejected { code: String, message: String },
}

/// The mathematical content of an [`Error`].
pub enum ErrorView {
    Transport(Seq<char>),
    RemoteRejected { code: Seq<char>, message: Seq<char> },
    RemoteFailed { code: Seq<char>, message: Seq<char> },
    Timeout,
    SchemaMismatch,
    InvalidInput(Seq<char>),
    ReportRejected { code: Seq<char>, message: Seq<char> },
}

impl View for Error {
    type V = ErrorView;

    open spec fn view(&self) -> ErrorView {
        match *self {
            Error::Transport(m) => ErrorView::Transport(m@),
            Error::RemoteRejected { code, message } => ErrorView::RemoteRejected {
                code: code@,
                message: message@,
            },
            Error::RemoteFailed { code, message } => ErrorView::RemoteFailed {
                code: code@,
                message: message@,
            },
            Error::Timeout => ErrorView::Timeout,
            Error::SchemaMismatch => ErrorView::SchemaMismatch,
            Error::InvalidInput(m) => ErrorView::InvalidInput(m@),
            Error::ReportRejected { code, message } => ErrorView::ReportRejected {
                code: code@,
                message: message@,
            },
        }
    }
}

/// The text of an optional string, with absence read as the empty text.
pub open spec fn text_or_empty(text: Option<String>) -> Seq<char> {
    match text {
        Some(t) => t@,
        None => Seq::<char>::empty(),
    }
}

/// The view of an optional string.
pub open spec fn opt_text(text: Option<String>) -> Option<Seq<char>> {
    match text {
        Some(t) => Some(t@),
        None => None,
    }
}

/// Copies an optional string, giving the empty string where there is none.
pub fn clone_or_empty(text: &Option<String>) -> (r: String)
    ensures
        r@ == text_or_empty(*text),
{
    match text {
        Some(t) => t.clone(),
        None => String::new(),
    }
}

} // verus!
