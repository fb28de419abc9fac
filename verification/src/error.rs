//! The failures of a channel, by where they arise.

use vstd::prelude::*;

verus! {

/// Where a failure arose.
#[derive(Clone, Copy, Debug, PartialEq, Eq, Structural)]
pub enum ErrorKind {
    /// Dialing the byte stream failed.
    Connect,
    /// The stream was there, but the multiplexing handshake over it failed.
    Handshake,
    /// One call could not be sent or answered on a session that was live.
    Transport,
    /// The call's deadline passed before it had an answer.
    DeadlineExceeded,
    /// The background task that drives a session ended with an error.
    /// Such a failure is only ever logged.
    Driver,
}

impl ErrorKind {
    /// Whether a failure of this kind may be handed to a caller.
    pub open spec fn reaches_caller(self) -> bool {
        self != ErrorKind::Driver
    }

    /// The exec form of [`ErrorKind::reaches_caller`].
    pub fn is_caller_facing(&self) -> (r: bool)
        ensures
            r == self.reaches_caller(),
    {
        match self {
            ErrorKind::Driver => false,
            _ => true,
        }
    }
}

/// A failure with what the failing party said about it.
#[derive(Debug, PartialEq, Eq)]
pub struct Error {
    pub kind: ErrorKind,
    pub detail: String,
}

/// The model of an [`Error`].
pub struct ErrorView {
    pub kind: ErrorKind,
    pub detail: Seq<char>,
}

impl View for Error {
    type V = ErrorView;

    open spec fn view(&self) -> ErrorView {
        ErrorView { kind: self.kind, detail: self.detail@ }
    }
}

impl Clone for Error {
    fn clone(&self) -> (r: Self)
        ensures
            r == *self,
    {
        Error { kind: self.kind, detail: self.detail.clone() }
    }
}

impl Error {
    /// A failure of the given kind.
    pub fn new(kind: ErrorKind, detail: String) -> (r: Error)
        ensures
            r@ == (ErrorView { kind, detail: detail@ }),
    {
        Error { kind, detail }
    }

    /// Where the failure arose.
    pub fn kind(&self) -> (r: ErrorKind)
        ensures
            r == self@.kind,
    {
        self.kind
    }

    /// What the failing party said.
    pub fn detail(&self) -> (r: &str)
        ensures
            r@ == self@.detail,
    {
        self.detail.as_str()
    }
}

/// The model of a result that carries an [`Error`].
pub open spec fn result_view<T>(r: Result<T, Error>) -> Result<T, ErrorView> {
    match r {
        Ok(t) => Ok(t),
        Err(e) => Err(e@),
    }
}

} // verus!
