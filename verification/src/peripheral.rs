//! The peripheral facade: the public surface over the command worker.
//!
//! A facade call forms a [`Command`], submits it through the
//! command/response channel, lets the worker execute it, and interprets the
//! typed reply. This module drives the worker synchronously, one command at
//! a time; a concurrent deployment runs the same worker loop on its own
//! thread and the same channel endpoints from any number of callers.

use vstd::prelude::*;

use crate::error::Error;
use crate::event_queue::EventQueue;
use crate::gatt::peripheral_event::{NativeEvent, PeripheralEvent};
use crate::gatt::service::Service;
use crate::response_channel::response_error::TokenKind;
use crate::response_channel::{channel, ResponseSender};
use crate::uuid128::Uuid;
use crate::worker::{
    publish_native_event, Command, CommandReply, ManagerAuthorization, NativeAdapter,
    PeripheralManager,
};

verus! {

/// How many commands may wait in the shared queue.
pub const COMMAND_CAPACITY: usize = 256;

/// How many events may wait for the subscriber before new ones are dropped.
pub const EVENT_CAPACITY: usize = 256;

/// Interprets the outcome of a query exchange: the boolean payload if one
/// came back, the exchange's or the command's own error if it failed, and
/// `Unknown` for a reply of the wrong type.
pub fn interpret_bool_reply(outcome: Result<CommandReply, Error>) -> (r: Result<bool, Error>)
    ensures
        outcome matches Ok(Ok(TokenKind::Boolean(b))) ==> r == Ok::<bool, Error>(b),
        outcome matches Ok(Ok(k)) && !(k is Boolean) ==> (r matches Err(Error::Unknown)),
        outcome matches Ok(Err(e)) ==> r == Err::<bool, Error>(e),
        outcome matches Err(e) ==> r == Err::<bool, Error>(e),
{
    match outcome {
        Ok(Ok(TokenKind::Boolean(value))) => Ok(value),
        Ok(Err(e)) => Err(e),
        Ok(Ok(_)) => Err(Error::Unknown),
        Err(e) => Err(e),
    }
}

/// Interprets the outcome of an effect exchange: success if the worker
/// replied `Unit`, the exchange's or the command's own error if it failed,
/// and `Unknown` for a reply of the wrong type.
pub fn interpret_unit_reply(outcome: Result<CommandReply, Error>) -> (r: Result<(), Error>)
    ensures
        outcome matches Ok(Ok(TokenKind::Unit)) ==> r is Ok,
        outcome matches Ok(Ok(k)) && !(k is Unit) ==> (r matches Err(Error::Unknown)),
        outcome matches Ok(Err(e)) ==> r == Err::<(), Error>(e),
        outcome matches Err(e) ==> r == Err::<(), Error>(e),
{
    match outcome {
        Ok(Ok(TokenKind::Unit)) => Ok(()),
        Ok(Err(e)) => Err(e),
        Ok(Ok(_)) => Err(Error::Unknown),
        Err(e) => Err(e),
    }
}

/// A GATT peripheral over a native adapter `A`. Owns the only worker, and
/// with it the only handle on the thread-confined native stack.
pub struct Peripheral<A: NativeAdapter> {
    sender: ResponseSender<Command, CommandReply>,
    manager: PeripheralManager<A>,
    events: EventQueue,
}

impl<A: NativeAdapter> Peripheral<A> {
    pub closed spec fn wf(self) -> bool {
        self.manager.wf() && self.sender.wf()
    }

    /// The identifiers of the services registered so far.
    pub closed spec fn registered_services(self) -> Seq<Uuid> {
        self.manager.registered_services()
    }

    /// The events queued for the subscriber, oldest first.
    pub closed spec fn events(self) -> Seq<PeripheralEvent> {
        self.events.contents()
    }

    /// The event queue's bound.
    pub closed spec fn events_cap(self) -> nat {
        self.events.cap()
    }

    /// Builds the peripheral, or refuses to: under a denied or restricted
    /// platform grant `new` fails with `PermissionDenied` and no worker
    /// comes into existence.
    pub fn new(adapter: A, authorization: ManagerAuthorization) -> (r: Result<Peripheral<A>, Error>)
        ensures
            r is Ok <==> crate::worker::permission_granted(authorization),
            !crate::worker::permission_granted(authorization) ==> (r matches Err(
                Error::PermissionDenied,
            )),
            r matches Ok(p) ==> p.wf() && p.registered_services() == Seq::<Uuid>::empty(),
    {
        let (sender, receiver) = channel(COMMAND_CAPACITY, None);
        match PeripheralManager::new(adapter, authorization, receiver) {
            Ok(manager) => Ok(
                Peripheral { sender, manager, events: EventQueue::new(EVENT_CAPACITY) },
            ),
            Err(e) => Err(e),
        }
    }

    /// Submits one command and collects its reply: the command travels
    /// through the shared queue with this caller's private reply handle,
    /// the worker executes it, and the reply is taken from the private
    /// sub-channel. `None` when the exchange broke down on the way.
    pub fn send_event(&mut self, command: Command) -> (r: Option<CommandReply>)
        requires
            old(self).wf(),
        ensures
            final(self).wf(),
    {
        match self.exchange(command) {
            Ok(reply) => Some(reply),
            Err(_) => None,
        }
    }

    /// One full exchange: `ChannelClosed` when the shared queue's consumer
    /// is gone, `ReplyLost` when the worker never produced a reply on this
    /// caller's private handle, otherwise the worker's reply.
    fn exchange(&mut self, command: Command) -> (r: Result<CommandReply, Error>)
        requires
            old(self).wf(),
        ensures
            final(self).wf(),
            r matches Err(e) ==> (e matches Error::ChannelClosed) || (e matches Error::ReplyLost),
    {
        if self.sender.send_await(command).is_err() {
            return Err(Error::ChannelClosed);
        }
        let processed = self.manager.wait_for_message();
        if !processed {
            return Err(Error::ReplyLost);
        }
        match self.sender.recv_response() {
            Some(reply) => Ok(reply),
            None => Err(Error::ReplyLost),
        }
    }

    /// Whether the radio is powered on.
    pub fn is_powered(&mut self) -> (r: Result<bool, Error>)
        requires
            old(self).wf(),
        ensures
            final(self).wf(),
    {
        let outcome = self.exchange(Command::IsPowered);
        interpret_bool_reply(outcome)
    }

    /// Whether an advertisement of ours is currently active.
    pub fn is_advertising(&mut self) -> (r: Result<bool, Error>)
        requires
            old(self).wf(),
        ensures
            final(self).wf(),
    {
        let outcome = self.exchange(Command::IsAdvertising);
        interpret_bool_reply(outcome)
    }

    /// Starts advertising under `name`, announcing `uuids`. An empty set is
    /// legal: the advertisement is then service-less.
    pub fn start_advertising(&mut self, name: &str, uuids: &[Uuid]) -> (r: Result<(), Error>)
        requires
            old(self).wf(),
        ensures
            final(self).wf(),
    {
        let command = Command::StartAdvertising {
            name: name.to_owned(),
            uuids: vstd::slice::slice_to_vec(uuids),
        };
        let outcome = self.exchange(command);
        interpret_unit_reply(outcome)
    }

    /// Stops advertising. Idempotent: stopping an idle peripheral succeeds.
    pub fn stop_advertising(&mut self) -> (r: Result<(), Error>)
        requires
            old(self).wf(),
        ensures
            final(self).wf(),
    {
        let outcome = self.exchange(Command::StopAdvertising);
        interpret_unit_reply(outcome)
    }

    /// Registers `service`. The attribute invariant is enforced before the
    /// native adapter can see the service: an attribute set the stack would
    /// refuse fails here with `InvalidAttribute`.
    pub fn add_service(&mut self, service: &Service) -> (r: Result<(), Error>)
        requires
            old(self).wf(),
        ensures
            final(self).wf(),
            !service.valid() ==> (r matches Err(Error::InvalidAttribute))
                && final(self).registered_services() == old(self).registered_services(),
    {
        if let Err(e) = service.validate() {
            return Err(e);
        }
        let outcome = self.exchange(Command::AddService(service.clone()));
        interpret_unit_reply(outcome)
    }

    /// Present for API parity: registration happens per service through
    /// [`Peripheral::add_service`]; there is no separate application to
    /// register.
    pub fn register_gatt(&mut self) -> (r: Result<(), Error>)
        ensures
            r is Ok,
    {
        Ok(())
    }

    /// Present for API parity, as [`Peripheral::register_gatt`].
    pub fn unregister_gatt(&mut self) -> (r: Result<(), Error>)
        ensures
            r is Ok,
    {
        Ok(())
    }

    /// Hands a native upcall to the worker's event path: the subscriber
    /// event is queued behind everything already waiting, and for a read
    /// request the pending native completion comes back — resolve it with
    /// the responder's value, or after the bounded wait with the empty
    /// value. A full queue drops the event.
    pub fn on_native_event(&mut self, event: NativeEvent) -> (completion: Option<
        tokio::sync::oneshot::Receiver<Vec<u8>>,
    >)
        requires
            old(self).wf(),
        ensures
            final(self).wf(),
            final(self).registered_services() == old(self).registered_services(),
            final(self).events_cap() == old(self).events_cap(),
            old(self).events().len() >= old(self).events_cap() ==> final(self).events() == old(
                self,
            ).events(),
            old(self).events().len() < old(self).events_cap() ==> {
                &&& final(self).events().len() == old(self).events().len() + 1
                &&& final(self).events().take(old(self).events().len() as int) == old(
                    self,
                ).events()
                &&& crate::worker::native_event_matches(
                    event,
                    final(self).events()[old(self).events().len() as int],
                )
            },
            completion is Some <==> event is ReadRequested,
    {
        publish_native_event(event, &mut self.events)
    }

    /// The subscriber's end of the event stream: the oldest undelivered
    /// event, in the order the worker observed them.
    pub fn next_event(&mut self) -> (r: Option<PeripheralEvent>)
        requires
            old(self).wf(),
        ensures
            final(self).wf(),
            final(self).registered_services() == old(self).registered_services(),
            final(self).events_cap() == old(self).events_cap(),
            old(self).events().len() == 0 ==> r is None && final(self).events() == old(
                self,
            ).events(),
            old(self).events().len() > 0 ==> (r matches Some(e) && e == old(self).events()[0])
                && final(self).events() == old(self).events().drop_first(),
    {
        self.events.next()
    }
}

} // verus!
