use vstd::prelude::*;

use crate::responder::ReadResponder;
use crate::uuid128::Uuid;

verus! {

/// The power state of the native manager, as its delegate reports it.
#[derive(Debug, Clone, Copy, PartialEq, Eq, Structural)]
pub enum ManagerState {
    Unknown,
    Resetting,
    Unsupported,
    Unauthorized,
    PoweredOff,
    PoweredOn,
}

impl ManagerState {
    /// Only `PoweredOn` counts as powered.
    pub fn is_powered_on(&self) -> (r: bool)
        ensures
            r == (*self == ManagerState::PoweredOn),
    {
        match self {
            ManagerState::PoweredOn => true,
            _ => false,
        }
    }
}

/// What the peripheral reports to its single subscriber, in the order the
/// worker observed it from the native layer. The stream is append-only and
/// not restartable; errors of a synchronous command never appear here.
#[derive(Debug)]
pub enum PeripheralEvent {
    DidUpdateState { is_powered: bool },
    DidStartAdvertising { error: Option<String> },
    DidAddService { service: Uuid, error: Option<String> },
    DidSubscribeToCharacteristic { client: String, service: Uuid, characteristic: Uuid },
    DidUnsubscribeFromCharacteristic { client: String, service: Uuid, characteristic: Uuid },
    DidReceiveReadRequest {
        client: String,
        service: Uuid,
        characteristic: Uuid,
        responder: ReadResponder,
    },
    DidReceiveWriteRequest { client: String, service: Uuid, characteristic: Uuid, value: Vec<u8> },
}

/// An upcall from the native layer into the worker: the raw form of the
/// event before the worker translates it for the subscriber.
#[derive(Debug)]
pub enum NativeEvent {
    StateChanged { state: ManagerState },
    AdvertisingStarted { error: Option<String> },
    ServiceAdded { service: Uuid, error: Option<String> },
    Subscribed { client: String, service: Uuid, characteristic: Uuid },
    Unsubscribed { client: String, service: Uuid, characteristic: Uuid },
    ReadRequested { client: String, service: Uuid, characteristic: Uuid },
    WriteRequested { client: String, service: Uuid, characteristic: Uuid, value: Vec<u8> },
}

} // verus!
