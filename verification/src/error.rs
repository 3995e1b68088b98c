//! The failures a caller can be handed.

use vstd::prelude::*;
use vstd::string::StringExecFns;

verus! {

/// Why an operation did not produce its result.
#[derive(Debug, Clone, PartialEq, Eq)]
pub enum SofaError {
    /// The base URI is not an absolute URI, or a path or query could not be
    /// composed with it.
    Configuration,
    /// The request never got an answer: the network failed or the time ran out.
    Transport,
    /// The body of the answer does not have the expected JSON shape.
    Decode,
    /// The server answered, and reported that the operation failed.
    Server(String),
}

/// The mathematical value of a [`SofaError`].
pub enum ErrorView {
    Configuration,
    Transport,
    Decode,
    Server(Seq<char>),
}

impl View for SofaError {
    type V = ErrorView;

    open spec fn view(&self) -> ErrorView {
        match self {
            SofaError::Configuration => ErrorView::Configuration,
            SofaError::Transport => ErrorView::Transport,
            SofaError::Decode => ErrorView::Decode,
            SofaError::Server(message) => ErrorView::Server(message@),
        }
    }
}

/// The text shown for each kind of failure.
pub open spec fn message_of(e: ErrorView) -> Seq<char> {
    match e {
        ErrorView::Configuration => "invalid URI"@,
        ErrorView::Transport => "transport failure"@,
        ErrorView::Decode => "unexpected response body"@,
        ErrorView::Server(message) => message,
    }
}

impl SofaError {
    /// A human-readable description; for a server failure, the server's own
    /// words.
    pub fn message(&self) -> (text: String)
        ensures
            text@ == message_of(self@),
    {
        match self {
            SofaError::Configuration => String::from_str("invalid URI"),
            SofaError::Transport => String::from_str("transport failure"),
            SofaError::Decode => String::from_str("unexpected response body"),
            SofaError::Server(message) => message.clone(),
        }
    }
}

} // verus!
