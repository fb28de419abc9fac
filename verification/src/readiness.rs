//! What a poll for readiness can say.

use crate::error::{Error, ErrorKind};
use vstd::prelude::*;

verus! {

/// What a collaborator outside the library said when it was polled: a byte-stream
/// connector, or the sender of a session. A failure comes with its words.
#[derive(Debug, PartialEq, Eq)]
pub enum Polled {
    Ready,
    Pending,
    Failed(String),
}

/// Whether a part of the channel can take a call.
#[derive(Debug, PartialEq, Eq)]
pub enum Readiness {
    Ready,
    Pending,
    Failed(Error),
}

/// The readiness that mirrors what a collaborator said, with its failure filed
/// under `kind`.
pub open spec fn mirrored(polled: Polled, kind: ErrorKind) -> Readiness {
    match polled {
        Polled::Ready => Readiness::Ready,
        Polled::Pending => Readiness::Pending,
        Polled::Failed(detail) => Readiness::Failed(Error { kind, detail }),
    }
}

/// The readiness that a poll of a part of the channel came to: nothing yet,
/// ready, or a failure, which stays what it is.
pub open spec fn settled(poll: Option<Result<(), Error>>) -> Readiness {
    match poll {
        None => Readiness::Pending,
        Some(Ok(_)) => Readiness::Ready,
        Some(Err(e)) => Readiness::Failed(e),
    }
}

impl Readiness {
    /// Mirrors what a collaborator said, with its failure filed under `kind`.
    pub fn mirror(polled: Polled, kind: ErrorKind) -> (r: Readiness)
        ensures
            r == mirrored(polled, kind),
    {
        match polled {
            Polled::Ready => Readiness::Ready,
            Polled::Pending => Readiness::Pending,
            Polled::Failed(detail) => Readiness::Failed(Error { kind, detail }),
        }
    }

    /// Whether a call can be taken now.
    pub fn is_ready(&self) -> (r: bool)
        ensures
            r == (*self is Ready),
    {
        match self {
            Readiness::Ready => true,
            _ => false,
        }
    }
}

} // verus!
