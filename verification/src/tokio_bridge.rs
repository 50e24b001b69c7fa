//! The crate's only window onto tokio's synchronization primitives.
//!
//! Every declaration here is trusted: Verus believes the contracts without
//! reading tokio. The contracts therefore state only what tokio's own source
//! shows for every possible outcome — which value an error hands back —
//! and never which value a receive produces, since a channel's content
//! depends on what other endpoints did meanwhile.

use vstd::prelude::*;

verus! {

#[verifier::external_type_specification]
#[verifier::external_body]
#[verifier::reject_recursive_types(T)]
pub struct ExMpscSender<T>(tokio::sync::mpsc::Sender<T>);

#[verifier::external_type_specification]
#[verifier::external_body]
#[verifier::reject_recursive_types(T)]
pub struct ExMpscReceiver<T>(tokio::sync::mpsc::Receiver<T>);

#[verifier::external_type_specification]
#[verifier::external_body]
#[verifier::reject_recursive_types(T)]
pub struct ExOneshotSender<T>(tokio::sync::oneshot::Sender<T>);

#[verifier::external_type_specification]
#[verifier::external_body]
#[verifier::reject_recursive_types(T)]
pub struct ExOneshotReceiver<T>(tokio::sync::oneshot::Receiver<T>);

// Declared because the receiving half's trait impls mention the type; no
// verified code handles a value of it.
#[verifier::external_type_specification]
#[verifier::external_body]
pub struct ExOneshotRecvError(tokio::sync::oneshot::error::RecvError);

/// The largest queue bound a wrapper here accepts. tokio caps a bounded
/// queue's permits at `usize::MAX >> 3` and panics by assertion above it;
/// this constant is that cap on 32-bit platforms and lies below it on
/// wider ones, so staying under it keeps every platform clear of the
/// assertion.
pub const MAX_CHANNEL_BOUND: usize = 0x1FFF_FFFF;

/// Outcome of a non-blocking queue send.
pub enum TrySendOutcome<T> {
    /// The message is in the queue.
    Sent,
    /// The queue was full; the message comes back untouched.
    Full(T),
    /// The receiver is gone; the message comes back untouched.
    Closed(T),
}

/// Outcome of a non-blocking queue receive.
pub enum TryRecvOutcome<T> {
    Received(T),
    Empty,
    Disconnected,
}

/// Outcome of polling a one-shot receiver.
pub enum OneshotOutcome<T> {
    Received(T),
    Pending,
    Closed,
}

/// Relies on tokio::sync::mpsc::channel: creates a bounded FIFO queue.
/// The function panics on a zero buffer and on one above its permit cap,
/// so both inputs are excluded here.
#[verifier::external_body]
pub(crate) fn mpsc_channel<T>(buffer: usize) -> (r: (
    tokio::sync::mpsc::Sender<T>,
    tokio::sync::mpsc::Receiver<T>,
))
    requires
        1 <= buffer <= MAX_CHANNEL_BOUND,
{
    tokio::sync::mpsc::channel(buffer)
}

/// Relies on tokio::sync::mpsc::Sender::clone: a second sending endpoint of
/// the same queue.
#[verifier::external_body]
pub(crate) fn mpsc_sender_clone<T>(s: &tokio::sync::mpsc::Sender<T>) -> (r:
    tokio::sync::mpsc::Sender<T>)
{
    s.clone()
}

/// Relies on tokio::sync::mpsc::Sender::blocking_send: waits for space, then
/// enqueues; fails only when the receiver is gone, handing the message back.
/// Must be called outside an asynchronous context (tokio panics inside one).
#[verifier::external_body]
pub(crate) fn mpsc_blocking_send<T>(s: &tokio::sync::mpsc::Sender<T>, value: T) -> (r: Result<
    (),
    T,
>)
    ensures
        r matches Err(m) ==> m == value,
{
    s.blocking_send(value).map_err(|e| e.0)
}

/// Relies on tokio::sync::mpsc::Sender::try_send: enqueues if there is room;
/// a full or closed queue hands the message back untouched.
#[verifier::external_body]
pub(crate) fn mpsc_try_send<T>(s: &tokio::sync::mpsc::Sender<T>, value: T) -> (r: TrySendOutcome<
    T,
>)
    ensures
        r matches TrySendOutcome::Full(m) ==> m == value,
        r matches TrySendOutcome::Closed(m) ==> m == value,
{
    match s.try_send(value) {
        Ok(()) => TrySendOutcome::Sent,
        Err(tokio::sync::mpsc::error::TrySendError::Full(m)) => TrySendOutcome::Full(m),
        Err(tokio::sync::mpsc::error::TrySendError::Closed(m)) => TrySendOutcome::Closed(m),
    }
}

/// Relies on tokio::sync::mpsc::Receiver::try_recv: takes the oldest queued
/// message if one is there, without waiting.
#[verifier::external_body]
pub(crate) fn mpsc_try_recv<T>(r: &mut tokio::sync::mpsc::Receiver<T>) -> (res: TryRecvOutcome<
    T,
>) {
    match r.try_recv() {
        Ok(v) => TryRecvOutcome::Received(v),
        Err(tokio::sync::mpsc::error::TryRecvError::Empty) => TryRecvOutcome::Empty,
        Err(tokio::sync::mpsc::error::TryRecvError::Disconnected) => TryRecvOutcome::Disconnected,
    }
}

/// Relies on tokio::sync::mpsc::Receiver::blocking_recv: waits until a
/// message arrives or every sender is gone. Must be called outside an
/// asynchronous context (tokio panics inside one).
#[verifier::external_body]
pub(crate) fn mpsc_blocking_recv<T>(r: &mut tokio::sync::mpsc::Receiver<T>) -> (res: Option<T>) {
    r.blocking_recv()
}

/// Relies on tokio::sync::oneshot::channel: a channel that carries at most
/// one value, ever.
#[verifier::external_body]
pub(crate) fn oneshot_channel<T>() -> (r: (
    tokio::sync::oneshot::Sender<T>,
    tokio::sync::oneshot::Receiver<T>,
)) {
    tokio::sync::oneshot::channel()
}

/// Relies on tokio::sync::oneshot::Sender::send: consumes the sender, so no
/// second value can ever follow; fails only when the receiver is gone,
/// handing the value back.
#[verifier::external_body]
pub(crate) fn oneshot_send<T>(s: tokio::sync::oneshot::Sender<T>, value: T) -> (r: Result<(), T>)
    ensures
        r matches Err(m) ==> m == value,
{
    s.send(value)
}

/// Relies on tokio::sync::oneshot::Receiver::try_recv: takes the value if
/// the sender already sent one, without waiting.
#[verifier::external_body]
pub(crate) fn oneshot_try_recv<T>(r: &mut tokio::sync::oneshot::Receiver<T>) -> (res:
    OneshotOutcome<T>) {
    match r.try_recv() {
        Ok(v) => OneshotOutcome::Received(v),
        Err(tokio::sync::oneshot::error::TryRecvError::Empty) => OneshotOutcome::Pending,
        Err(tokio::sync::oneshot::error::TryRecvError::Closed) => OneshotOutcome::Closed,
    }
}

} // verus!
