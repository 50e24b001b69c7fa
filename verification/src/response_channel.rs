//! The command/response channel: a correlated request-reply primitive.
//!
//! Any number of independent callers hold clones of a [`ResponseSender`]; a single
//! consumer holds the shared receiving end. Every clone owns a private
//! reply sub-channel and sends its sending half along with each message, so
//! the consumer replies on the handle that came with the message and
//! concurrent callers never observe each other's replies. The correlation
//! protocol itself is stated and proved over a pure model in
//! [`crate::channel_model`]; this module is the executable form over
//! tokio's queues.

pub mod response_error;

use vstd::prelude::*;

use crate::tokio_bridge::{
    mpsc_blocking_recv, mpsc_blocking_send, mpsc_channel, mpsc_sender_clone, mpsc_try_recv,
    TryRecvOutcome, MAX_CHANNEL_BOUND,
};

verus! {

/// A caller's endpoint: the shared message queue plus this clone's private
/// reply sub-channel.
#[verifier::reject_recursive_types(M)]
#[verifier::reject_recursive_types(R)]
pub struct ResponseSender<M, R> {
    tx: tokio::sync::mpsc::Sender<(M, tokio::sync::mpsc::Sender<R>)>,
    reverse_tx: tokio::sync::mpsc::Sender<R>,
    reverse_rx: tokio::sync::mpsc::Receiver<R>,
    reverse_capacity: usize,
}

/// Opens a channel: a cloneable sender and the consumer's receiving end.
/// Each message arrives paired with the private reply handle of the clone
/// that sent it. `reverse_buffer` bounds every clone's reply sub-channel and
/// defaults to `buffer`. Both bounds must stay within what a tokio queue
/// accepts.
pub fn channel<M, R>(buffer: usize, reverse_buffer: Option<usize>) -> (r: (
    ResponseSender<M, R>,
    tokio::sync::mpsc::Receiver<(M, tokio::sync::mpsc::Sender<R>)>,
))
    requires
        1 <= buffer <= MAX_CHANNEL_BOUND,
        reverse_buffer matches Some(b) ==> 1 <= b <= MAX_CHANNEL_BOUND,
    ensures
        r.0.wf(),
{
    let reverse_capacity = match reverse_buffer {
        Some(b) => b,
        None => buffer,
    };
    let (tx, rx) = mpsc_channel(buffer);
    let (reverse_tx, reverse_rx) = mpsc_channel(reverse_capacity);
    (ResponseSender { tx, reverse_tx, reverse_rx, reverse_capacity }, rx)
}

impl<M, R> ResponseSender<M, R> {
    /// The reply sub-channel's bound is one a tokio queue accepts.
    pub closed spec fn wf(self) -> bool {
        1 <= self.reverse_capacity <= MAX_CHANNEL_BOUND
    }

    /// Enqueues `message` together with this clone's private reply handle,
    /// waiting for queue space. Fails with the message handed back exactly
    /// when the consumer is gone.
    pub fn send_await(&self, message: M) -> (r: Result<(), response_error::Error<M>>)
        ensures
            r matches Err(e) ==> (e matches response_error::Error::SendError(m) && m == message),
    {
        let reply_handle = mpsc_sender_clone(&self.reverse_tx);
        match mpsc_blocking_send(&self.tx, (message, reply_handle)) {
            Ok(()) => Ok(()),
            Err(returned) => Err(response_error::Error::SendError(returned.0)),
        }
    }

    /// [`ResponseSender::send_await`], then waits on the private reply sub-channel
    /// until the consumer's reply to this very message arrives. A reply
    /// sub-channel that yields nothing more means the consumer let this
    /// caller's reply handle go without replying: that exchange fails with
    /// `RecvError`, never with a success that carries no reply.
    pub fn send_await_automatic(&mut self, message: M) -> (r: Result<
        Option<R>,
        response_error::Error<M>,
    >)
        ensures
            final(self).wf() == old(self).wf(),
            r matches Ok(reply) ==> reply is Some,
            r matches Err(e) ==> (e matches response_error::Error::SendError(m) && m == message)
                || (e matches response_error::Error::RecvError),
    {
        if let Err(e) = self.send_await(message) {
            return Err(e);
        }
        match mpsc_blocking_recv(&mut self.reverse_rx) {
            Some(reply) => Ok(Some(reply)),
            None => Err(response_error::Error::RecvError),
        }
    }

    /// Takes a reply from the private sub-channel if one is already there,
    /// without waiting.
    pub fn recv_response(&mut self) -> (r: Option<R>)
        ensures
            final(self).wf() == old(self).wf(),
    {
        match mpsc_try_recv(&mut self.reverse_rx) {
            TryRecvOutcome::Received(v) => Some(v),
            TryRecvOutcome::Empty => None,
            TryRecvOutcome::Disconnected => None,
        }
    }
}

impl<M, R> Clone for ResponseSender<M, R> {
    /// A clone shares the message queue but owns a fresh, private reply
    /// sub-channel: replies to one clone can never surface at another.
    fn clone(&self) -> (r: Self)
        ensures
            self.wf() ==> r.wf(),
    {
        let (reverse_tx, reverse_rx) = if 1 <= self.reverse_capacity
            && self.reverse_capacity <= MAX_CHANNEL_BOUND {
            mpsc_channel(self.reverse_capacity)
        } else {
            mpsc_channel(1)
        };
        ResponseSender {
            tx: mpsc_sender_clone(&self.tx),
            reverse_tx,
            reverse_rx,
            reverse_capacity: self.reverse_capacity,
        }
    }
}

} // verus!
