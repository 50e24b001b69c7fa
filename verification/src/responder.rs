//! The single-use responder of the two-phase read-request protocol.
//!
//! When a central reads a characteristic, the worker does not answer at
//! once: it emits an event carrying a [`ReadResponder`] and suspends only the
//! native completion on the paired receiver. The application answers from
//! any thread by invoking the responder exactly once; if the bounded wait
//! elapses first, the worker completes the native request with the empty
//! value.

use vstd::prelude::*;

use crate::error::Error;
use crate::tokio_bridge::{oneshot_channel, oneshot_send, oneshot_try_recv, OneshotOutcome};

verus! {

/// A handle that must be invoked at most once to supply the value of one
/// read request. Created fresh per request; consumed by the first
/// invocation.
#[derive(Debug)]
pub struct ReadResponder {
    reply: Option<tokio::sync::oneshot::Sender<Vec<u8>>>,
}

impl ReadResponder {
    /// Whether the single permitted invocation already happened.
    pub closed spec fn responded(self) -> bool {
        self.reply is None
    }

    /// Law (single use): the first invocation consumes the handle, so the
    /// value it carried stays the one the native completion can see; every
    /// later invocation fails with `AlreadyResponded` and carries nothing.
    /// A first invocation whose request already expired (the completion has
    /// been resolved and dropped) fails with `RequestExpired`.
    pub fn respond(&mut self, value: Vec<u8>) -> (r: Result<(), Error>)
        ensures
            final(self).responded(),
            old(self).responded() ==> (r matches Err(Error::AlreadyResponded)),
            !old(self).responded() ==> (r matches Ok(u) && u == ()) || (r matches Err(
                Error::RequestExpired,
            )),
    {
        match self.reply.take() {
            None => Err(Error::AlreadyResponded),
            Some(tx) => match oneshot_send(tx, value) {
                Ok(()) => Ok(()),
                Err(_) => Err(Error::RequestExpired),
            },
        }
    }
}

/// A fresh responder and the completion the worker will resolve: the
/// receiving half of the one-shot channel behind the responder.
pub fn make_read_responder() -> (r: (ReadResponder, tokio::sync::oneshot::Receiver<Vec<u8>>))
    ensures
        !r.0.responded(),
{
    let (tx, rx) = oneshot_channel();
    (ReadResponder { reply: Some(tx) }, rx)
}

/// The value with which the worker resolves the native completion: the
/// responder's value when one arrived, the empty value when the bounded
/// wait elapsed without one — a read request never hangs the native layer.
pub fn read_completion_value(outcome: Option<Vec<u8>>) -> (v: Vec<u8>)
    ensures
        outcome matches Some(bytes) ==> v == bytes,
        outcome is None ==> v@ == Seq::<u8>::empty(),
{
    match outcome {
        Some(bytes) => bytes,
        None => Vec::new(),
    }
}

/// Polls a read completion once: the responder's value if it was already
/// invoked, nothing otherwise.
pub fn poll_read_completion(rx: &mut tokio::sync::oneshot::Receiver<Vec<u8>>) -> (r: Option<
    Vec<u8>,
>) {
    match oneshot_try_recv(rx) {
        OneshotOutcome::Received(v) => Some(v),
        OneshotOutcome::Pending => None,
        OneshotOutcome::Closed => None,
    }
}

/// Resolves a native completion from whatever the poll produced: the
/// application's value, or the empty value when none came in time.
pub fn resolve_read_completion(rx: &mut tokio::sync::oneshot::Receiver<Vec<u8>>) -> (v: Vec<u8>) {
    let outcome = poll_read_completion(rx);
    read_completion_value(outcome)
}

} // verus!
