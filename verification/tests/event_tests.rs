use ble_peripheral_rust::event_queue::EventQueue;
use ble_peripheral_rust::gatt::peripheral_event::{ManagerState, NativeEvent, PeripheralEvent};
use ble_peripheral_rust::responder::resolve_read_completion;
use ble_peripheral_rust::uuid128::Uuid;
use ble_peripheral_rust::worker::publish_native_event;

fn client() -> String {
    String::from("central-1")
}

fn service_id() -> Uuid {
    Uuid::from_sdp_short_uuid(0x1234)
}

fn char_id() -> Uuid {
    Uuid::from_sdp_short_uuid(0x2A3D)
}

#[test]
fn subscribe_then_unsubscribe_is_delivered_in_that_order() {
    let mut events = EventQueue::new(8);
    publish_native_event(
        NativeEvent::Subscribed {
            client: client(),
            service: service_id(),
            characteristic: char_id(),
        },
        &mut events,
    );
    publish_native_event(
        NativeEvent::Unsubscribed {
            client: client(),
            service: service_id(),
            characteristic: char_id(),
        },
        &mut events,
    );
    match events.next() {
        Some(PeripheralEvent::DidSubscribeToCharacteristic { client: c, service, characteristic }) => {
            assert_eq!(c, client());
            assert_eq!(service, service_id());
            assert_eq!(characteristic, char_id());
        }
        other => panic!("expected the subscribe event first, got {:?}", other),
    }
    match events.next() {
        Some(PeripheralEvent::DidUnsubscribeFromCharacteristic { client: c, .. }) => {
            assert_eq!(c, client());
        }
        other => panic!("expected the unsubscribe event second, got {:?}", other),
    }
    assert!(events.next().is_none());
}

#[test]
fn state_change_reports_powered_only_for_powered_on() {
    let mut events = EventQueue::new(8);
    publish_native_event(NativeEvent::StateChanged { state: ManagerState::PoweredOn }, &mut events);
    publish_native_event(
        NativeEvent::StateChanged { state: ManagerState::PoweredOff },
        &mut events,
    );
    assert!(matches!(
        events.next(),
        Some(PeripheralEvent::DidUpdateState { is_powered: true })
    ));
    assert!(matches!(
        events.next(),
        Some(PeripheralEvent::DidUpdateState { is_powered: false })
    ));
}

#[test]
fn asynchronous_adapter_errors_ride_on_their_events() {
    let mut events = EventQueue::new(8);
    publish_native_event(
        NativeEvent::AdvertisingStarted { error: Some(String::from("late failure")) },
        &mut events,
    );
    publish_native_event(
        NativeEvent::ServiceAdded { service: service_id(), error: None },
        &mut events,
    );
    match events.next() {
        Some(PeripheralEvent::DidStartAdvertising { error }) => {
            assert_eq!(error, Some(String::from("late failure")));
        }
        other => panic!("expected the advertising event, got {:?}", other),
    }
    match events.next() {
        Some(PeripheralEvent::DidAddService { service, error }) => {
            assert_eq!(service, service_id());
            assert_eq!(error, None);
        }
        other => panic!("expected the service event, got {:?}", other),
    }
}

#[test]
fn write_request_carries_the_written_value() {
    let mut events = EventQueue::new(8);
    let completion = publish_native_event(
        NativeEvent::WriteRequested {
            client: client(),
            service: service_id(),
            characteristic: char_id(),
            value: vec![4, 5, 6],
        },
        &mut events,
    );
    assert!(completion.is_none());
    match events.next() {
        Some(PeripheralEvent::DidReceiveWriteRequest { value, .. }) => {
            assert_eq!(value, vec![4, 5, 6]);
        }
        other => panic!("expected the write event, got {:?}", other),
    }
}

#[test]
fn read_request_round_trip_uses_the_responder_value() {
    let mut events = EventQueue::new(8);
    let completion = publish_native_event(
        NativeEvent::ReadRequested {
            client: client(),
            service: service_id(),
            characteristic: char_id(),
        },
        &mut events,
    );
    let mut completion = completion.expect("a read request must hand back its completion");
    match events.next() {
        Some(PeripheralEvent::DidReceiveReadRequest { mut responder, client: c, .. }) => {
            assert_eq!(c, client());
            assert_eq!(responder.respond(String::from("hi").into_bytes()), Ok(()));
        }
        other => panic!("expected the read event, got {:?}", other),
    }
    assert_eq!(resolve_read_completion(&mut completion), b"hi".to_vec());
}

#[test]
fn a_full_queue_drops_new_events_and_keeps_order() {
    let mut queue = EventQueue::new(1);
    assert!(queue.publish(PeripheralEvent::DidUpdateState { is_powered: true }));
    assert!(!queue.publish(PeripheralEvent::DidUpdateState { is_powered: false }));
    assert_eq!(queue.len(), 1);
    assert!(matches!(
        queue.next(),
        Some(PeripheralEvent::DidUpdateState { is_powered: true })
    ));
    assert!(queue.next().is_none());
}
