//! The command worker: the sole owner of the thread-confined native stack.
//!
//! One worker exists per peripheral. It consumes commands serially from the
//! shared end of the command/response channel, executes each against its
//! [`NativeAdapter`], replies on the private handle that came with the
//! command, and — interleaved — translates native upcalls into the events
//! the subscriber sees. Only the worker touches the adapter, so the
//! registered attribute state needs no lock: it is mutated exclusively
//! inside the worker's own methods.

use vstd::prelude::*;

use crate::error::Error;
use crate::event_queue::EventQueue;
use crate::gatt::peripheral_event::{NativeEvent, PeripheralEvent};
use crate::gatt::service::Service;
use crate::responder::make_read_responder;
use crate::response_channel::response_error::TokenKind;
use crate::tokio_bridge::{mpsc_try_recv, mpsc_try_send, TryRecvOutcome};
use crate::uuid128::Uuid;

verus! {

/// What the platform grants this process for Bluetooth use.
#[derive(Debug, Clone, Copy, PartialEq, Eq, Structural)]
pub enum ManagerAuthorization {
    NotDetermined,
    Restricted,
    Denied,
    AllowedAlways,
}

/// Whether the peripheral may come into existence under `authorization`:
/// an outright grant, or a grant not yet decided (the native stack will ask).
pub open spec fn permission_granted(authorization: ManagerAuthorization) -> bool {
    authorization == ManagerAuthorization::AllowedAlways || authorization
        == ManagerAuthorization::NotDetermined
}

/// Decides [`permission_granted`].
pub fn check_permission(authorization: ManagerAuthorization) -> (r: bool)
    ensures
        r == permission_granted(authorization),
{
    match authorization {
        ManagerAuthorization::AllowedAlways => true,
        ManagerAuthorization::NotDetermined => true,
        _ => false,
    }
}

/// The commands a caller can submit, each answered by exactly one reply.
#[derive(Debug)]
pub enum Command {
    StartAdvertising { name: String, uuids: Vec<Uuid> },
    StopAdvertising,
    AddService(Service),
    IsPowered,
    IsAdvertising,
}

/// One reply per command: a typed payload on success, a typed error
/// otherwise. A failed command never terminates the worker.
pub type CommandReply = Result<TokenKind, Error>;

/// The native stack, reduced to the five calls the worker makes and kept
/// behind this interface. Implementations live outside the verified core
/// (a platform binding, or a test double); the worker promises nothing
/// about the values they return, only what it does with them.
pub trait NativeAdapter {
    /// Whether the radio is powered on.
    fn query_powered(&mut self) -> bool;

    /// Whether an advertisement of ours is currently active.
    fn query_advertising(&mut self) -> bool;

    /// Starts advertising under `name`, announcing `uuids` (an empty set is
    /// legal: the advertisement is then service-less).
    fn start_advertising(&mut self, name: &String, uuids: &Vec<Uuid>) -> Result<(), String>;

    /// Stops advertising; never an error, even when nothing was advertised.
    fn stop_advertising(&mut self);

    /// Registers a validated service with the attribute server.
    fn register_service(&mut self, service: &Service) -> Result<(), String>;
}

/// No identifier occurs twice.
pub open spec fn unique_uuids(s: Seq<Uuid>) -> bool {
    forall|i: int, j: int| 0 <= i < j < s.len() ==> s[i] != s[j]
}

/// Whether `u` occurs among `s`.
pub fn contains_uuid(s: &Vec<Uuid>, u: Uuid) -> (r: bool)
    ensures
        r == s@.contains(u),
{
    let mut i: usize = 0;
    while i < s.len()
        invariant
            0 <= i <= s@.len(),
            forall|j: int| 0 <= j < i ==> s@[j] != u,
        decreases s@.len() - i,
    {
        if s[i] == u {
            return true;
        }
        i += 1;
    }
    false
}

/// The reply for an adapter call that yields no payload: `Unit` on success,
/// the adapter's message wrapped as `NativeOperationFailed` otherwise.
pub fn reply_for_native_outcome(outcome: Result<(), String>) -> (r: CommandReply)
    ensures
        outcome is Ok ==> r == Ok::<TokenKind, Error>(TokenKind::Unit),
        outcome matches Err(m) ==> r == Err::<TokenKind, Error>(Error::NativeOperationFailed(m)),
{
    match outcome {
        Ok(()) => Ok(TokenKind::Unit),
        Err(message) => Err(Error::NativeOperationFailed(message)),
    }
}

/// The worker actor. It owns the adapter, the shared receiving end of the
/// command channel, and the set of registered service identifiers.
pub struct PeripheralManager<A: NativeAdapter> {
    adapter: A,
    receiver: tokio::sync::mpsc::Receiver<(Command, tokio::sync::mpsc::Sender<CommandReply>)>,
    registered: Vec<Uuid>,
}

impl<A: NativeAdapter> PeripheralManager<A> {
    /// The identifiers of the services registered so far, in registration
    /// order.
    pub closed spec fn registered_services(self) -> Seq<Uuid> {
        self.registered@
    }

    /// The worker's invariant: registered identifiers are unique within the
    /// peripheral's active service set.
    pub open spec fn wf(self) -> bool {
        unique_uuids(self.registered_services())
    }

    /// Builds the worker, gating construction on the platform grant:
    /// without permission the peripheral fails to come into existence
    /// rather than existing in a broken state.
    pub fn new(
        adapter: A,
        authorization: ManagerAuthorization,
        receiver: tokio::sync::mpsc::Receiver<(Command, tokio::sync::mpsc::Sender<CommandReply>)>,
    ) -> (r: Result<PeripheralManager<A>, Error>)
        ensures
            r is Ok <==> permission_granted(authorization),
            !permission_granted(authorization) ==> (r matches Err(
                Error::PermissionDenied,
            )),
            r matches Ok(m) ==> m.wf() && m.registered_services() == Seq::<Uuid>::empty(),
    {
        if !check_permission(authorization) {
            return Err(Error::PermissionDenied);
        }
        Ok(PeripheralManager { adapter, receiver, registered: Vec::new() })
    }

    /// Executes one command against the adapter and forms its reply.
    ///
    /// Queries reply `Boolean`; stopping is idempotent and always `Unit`;
    /// starting an advertisement succeeds exactly when the adapter does. A
    /// service is validated, and checked against the registered set, before
    /// the adapter sees it: an attribute set the stack would refuse, or a
    /// duplicate identifier, is rejected as `InvalidAttribute` with the
    /// registered set unchanged. A service the adapter accepts is recorded.
    pub fn execute_command(&mut self, command: Command) -> (r: CommandReply)
        requires
            old(self).wf(),
        ensures
            final(self).wf(),
            command is IsPowered ==> (r matches Ok(TokenKind::Boolean(_)))
                && final(self).registered_services() == old(self).registered_services(),
            command is IsAdvertising ==> (r matches Ok(TokenKind::Boolean(_)))
                && final(self).registered_services() == old(self).registered_services(),
            command is StopAdvertising ==> r == Ok::<TokenKind, Error>(TokenKind::Unit)
                && final(self).registered_services() == old(self).registered_services(),
            command is StartAdvertising ==> ((r matches Ok(TokenKind::Unit)) || (r matches Err(
                Error::NativeOperationFailed(_),
            ))) && final(self).registered_services() == old(self).registered_services(),
            command matches Command::AddService(s) ==> {
                &&& !s.valid() ==> (r matches Err(Error::InvalidAttribute)) && final(self).registered_services() == old(self).registered_services()
                &&& s.valid() && old(self).registered_services().contains(s.uuid) ==> (
                r matches Err(Error::InvalidAttribute)) && final(self).registered_services()
                    == old(self).registered_services()
                &&& s.valid() && !old(self).registered_services().contains(s.uuid) ==> {
                    ||| (r matches Ok(TokenKind::Unit)) && final(self).registered_services()
                        == old(self).registered_services().push(s.uuid)
                    ||| (r matches Err(Error::NativeOperationFailed(_))) && final(self).registered_services() == old(self).registered_services()
                }
            },
    {
        match command {
            Command::IsPowered => Ok(TokenKind::Boolean(self.adapter.query_powered())),
            Command::IsAdvertising => Ok(TokenKind::Boolean(self.adapter.query_advertising())),
            Command::StopAdvertising => {
                self.adapter.stop_advertising();
                Ok(TokenKind::Unit)
            },
            Command::StartAdvertising { name, uuids } => {
                let outcome = self.adapter.start_advertising(&name, &uuids);
                reply_for_native_outcome(outcome)
            },
            Command::AddService(service) => {
                if let Err(e) = service.validate() {
                    return Err(e);
                }
                if contains_uuid(&self.registered, service.uuid) {
                    return Err(Error::InvalidAttribute);
                }
                let outcome = self.adapter.register_service(&service);
                if outcome.is_ok() {
                    self.registered.push(service.uuid);
                }
                reply_for_native_outcome(outcome)
            },
        }
    }

    /// Takes the next queued command, if any, executes it, and replies on
    /// the private handle that came with it, discarding a failed reply send
    /// (the caller may have abandoned the wait — that is the caller's
    /// cancellation, not a worker fault). Returns whether a command was
    /// processed.
    pub fn wait_for_message(&mut self) -> (processed: bool)
        requires
            old(self).wf(),
        ensures
            final(self).wf(),
    {
        match mpsc_try_recv(&mut self.receiver) {
            TryRecvOutcome::Received((command, reply_handle)) => {
                let reply = self.execute_command(command);
                let _ = mpsc_try_send(&reply_handle, reply);
                true
            },
            TryRecvOutcome::Empty => false,
            TryRecvOutcome::Disconnected => false,
        }
    }
}

/// Translates one native upcall into the subscriber's event and publishes
/// it. For a read request the event carries a fresh, unused responder and
/// the paired completion comes back to the caller, which must resolve it —
/// with the responder's value or, after the bounded wait, with the empty
/// value. A full queue drops the event (and with it a read request's
/// responder, which expires the request).
pub fn publish_native_event(event: NativeEvent, events: &mut EventQueue) -> (completion: Option<
    tokio::sync::oneshot::Receiver<Vec<u8>>,
>)
    ensures
        final(events).cap() == old(events).cap(),
        old(events).contents().len() >= old(events).cap() ==> final(events).contents() == old(events).contents(),
        old(events).contents().len() < old(events).cap() ==> {
            &&& final(events).contents().len() == old(events).contents().len() + 1
            &&& final(events).contents().take(old(events).contents().len() as int) == old(events).contents()
            &&& native_event_matches(
                event,
                final(events).contents()[old(events).contents().len() as int],
            )
        },
        completion is Some <==> event is ReadRequested,
{
    match event {
        NativeEvent::StateChanged { state } => {
            let is_powered = state.is_powered_on();
            let _ = events.publish(PeripheralEvent::DidUpdateState { is_powered });
            None
        },
        NativeEvent::AdvertisingStarted { error } => {
            let _ = events.publish(PeripheralEvent::DidStartAdvertising { error });
            None
        },
        NativeEvent::ServiceAdded { service, error } => {
            let _ = events.publish(PeripheralEvent::DidAddService { service, error });
            None
        },
        NativeEvent::Subscribed { client, service, characteristic } => {
            let _ = events.publish(
                PeripheralEvent::DidSubscribeToCharacteristic { client, service, characteristic },
            );
            None
        },
        NativeEvent::Unsubscribed { client, service, characteristic } => {
            let _ = events.publish(
                PeripheralEvent::DidUnsubscribeFromCharacteristic {
                    client,
                    service,
                    characteristic,
                },
            );
            None
        },
        NativeEvent::ReadRequested { client, service, characteristic } => {
            let (responder, completion) = make_read_responder();
            let _ = events.publish(
                PeripheralEvent::DidReceiveReadRequest {
                    client,
                    service,
                    characteristic,
                    responder,
                },
            );
            Some(completion)
        },
        NativeEvent::WriteRequested { client, service, characteristic, value } => {
            let _ = events.publish(
                PeripheralEvent::DidReceiveWriteRequest { client, service, characteristic, value },
            );
            None
        },
    }
}

/// How each native upcall must appear to the subscriber.
pub open spec fn native_event_matches(event: NativeEvent, published: PeripheralEvent) -> bool {
    match event {
        NativeEvent::StateChanged { state } => published matches PeripheralEvent::DidUpdateState {
            is_powered,
        } && is_powered == (state == crate::gatt::peripheral_event::ManagerState::PoweredOn),
        NativeEvent::AdvertisingStarted { error } => published
            matches PeripheralEvent::DidStartAdvertising { error: e } && e == error,
        NativeEvent::ServiceAdded { service, error } => published
            matches PeripheralEvent::DidAddService { service: s, error: e } && s == service && e
            == error,
        NativeEvent::Subscribed { client, service, characteristic } => published
            matches PeripheralEvent::DidSubscribeToCharacteristic {
            client: c,
            service: s,
            characteristic: h,
        } && c == client && s == service && h == characteristic,
        NativeEvent::Unsubscribed { client, service, characteristic } => published
            matches PeripheralEvent::DidUnsubscribeFromCharacteristic {
            client: c,
            service: s,
            characteristic: h,
        } && c == client && s == service && h == characteristic,
        NativeEvent::ReadRequested { client, service, characteristic } => published
            matches PeripheralEvent::DidReceiveReadRequest {
            client: c,
            service: s,
            characteristic: h,
            responder,
        } && c == client && s == service && h == characteristic && !responder.responded(),
        NativeEvent::WriteRequested { client, service, characteristic, value } => published
            matches PeripheralEvent::DidReceiveWriteRequest {
            client: c,
            service: s,
            characteristic: h,
            value: v,
        } && c == client && s == service && h == characteristic && v == value,
    }
}

} // verus!
