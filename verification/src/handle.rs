//! The handle that sends requests on one live session.

use crate::error::{Error, ErrorKind};
use crate::readiness::{mirrored, Polled, Readiness};
use vstd::prelude::*;

verus! {

/// The sender of one live multiplexed session. A handle is made by a successful
/// handshake and is never revived: when its session is gone, the next
/// connection attempt makes another.
#[derive(Debug, PartialEq, Eq)]
pub struct SendRequest<S> {
    pub inner: S,
}

impl<S: Clone> Clone for SendRequest<S> {
    /// Another handle on the same session, around a copy of the sender.
    fn clone(&self) -> (r: Self)
        ensures
            cloned::<S>(self.inner, r.inner),
    {
        SendRequest { inner: self.inner.clone() }
    }
}

/// How a call on a live session ends: with the response as the session gave it,
/// or with a transport failure that carries the session's words.
pub open spec fn call_result<T>(outcome: Result<T, String>) -> Result<T, Error> {
    match outcome {
        Ok(response) => Ok(response),
        Err(detail) => Err(Error { kind: ErrorKind::Transport, detail }),
    }
}

impl<S> SendRequest<S> {
    /// The handle around the sender of a session.
    pub fn from(inner: S) -> (r: SendRequest<S>)
        ensures
            r.inner == inner,
    {
        SendRequest { inner }
    }

    /// The sender of the session.
    pub fn sender(&self) -> (r: &S)
        ensures
            *r == self.inner,
    {
        &self.inner
    }

    /// The readiness of the handle, which is that of its session's sender. A
    /// failure of the sender is a transport failure.
    pub fn poll_ready(&self, sender: Polled) -> (r: Readiness)
        ensures
            r == mirrored(sender, ErrorKind::Transport),
    {
        Readiness::mirror(sender, ErrorKind::Transport)
    }

    /// Ends a call with what its one send on the session came to.
    pub fn resolve<T>(&self, outcome: Result<T, String>) -> (r: Result<T, Error>)
        ensures
            r == call_result(outcome),
    {
        match outcome {
            Ok(response) => Ok(response),
            Err(detail) => Err(Error { kind: ErrorKind::Transport, detail }),
        }
    }
}

/// A call on a session ends well or with a transport failure, whatever became
/// of the session's driver: no other kind of failure comes out of a handle.
pub proof fn lemma_call_fails_only_as_transport<T>(outcome: Result<T, String>)
    ensures
        call_result(outcome) is Ok <==> outcome is Ok,
        call_result(outcome) matches Err(e) ==> e.kind == ErrorKind::Transport
            && e.kind.reaches_caller(),
{
}

} // verus!
