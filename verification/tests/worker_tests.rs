use std::cell::RefCell;
use std::rc::Rc;

use ble_peripheral_rust::error::Error;
use ble_peripheral_rust::gatt::characteristic::Characteristic;
use ble_peripheral_rust::gatt::properties::{AttributePermission, CharacteristicProperty};
use ble_peripheral_rust::gatt::service::Service;
use ble_peripheral_rust::gatt::peripheral_event::{NativeEvent, PeripheralEvent};
use ble_peripheral_rust::peripheral::{interpret_bool_reply, interpret_unit_reply, Peripheral};
use ble_peripheral_rust::responder::resolve_read_completion;
use ble_peripheral_rust::response_channel::response_error::TokenKind;
use ble_peripheral_rust::uuid128::Uuid;
use ble_peripheral_rust::worker::{check_permission, Command, ManagerAuthorization, NativeAdapter};

#[derive(Default)]
struct AdapterLog {
    register_calls: usize,
    start_calls: usize,
    stop_calls: usize,
}

struct FakeAdapter {
    powered: bool,
    advertising: bool,
    fail_start: Option<String>,
    fail_register: Option<String>,
    log: Rc<RefCell<AdapterLog>>,
}

impl FakeAdapter {
    fn new(log: Rc<RefCell<AdapterLog>>) -> Self {
        FakeAdapter { powered: true, advertising: false, fail_start: None, fail_register: None, log }
    }
}

impl NativeAdapter for FakeAdapter {
    fn query_powered(&mut self) -> bool {
        self.powered
    }

    fn query_advertising(&mut self) -> bool {
        self.advertising
    }

    fn start_advertising(&mut self, _name: &String, _uuids: &Vec<Uuid>) -> Result<(), String> {
        self.log.borrow_mut().start_calls += 1;
        match &self.fail_start {
            Some(message) => Err(message.clone()),
            None => {
                self.advertising = true;
                Ok(())
            }
        }
    }

    fn stop_advertising(&mut self) {
        self.log.borrow_mut().stop_calls += 1;
        self.advertising = false;
    }

    fn register_service(&mut self, _service: &Service) -> Result<(), String> {
        self.log.borrow_mut().register_calls += 1;
        match &self.fail_register {
            Some(message) => Err(message.clone()),
            None => Ok(()),
        }
    }
}

fn benign_service(short: u16) -> Service {
    Service::new(
        Uuid::from_sdp_short_uuid(short),
        true,
        vec![Characteristic::new(
            Uuid::from_sdp_short_uuid(0x2A3D),
            vec![CharacteristicProperty::Read, CharacteristicProperty::Notify],
            vec![AttributePermission::Readable],
            None,
            vec![],
        )],
    )
}

fn invalid_service(short: u16) -> Service {
    Service::new(
        Uuid::from_sdp_short_uuid(short),
        true,
        vec![Characteristic::new(
            Uuid::from_sdp_short_uuid(0x2A3D),
            vec![CharacteristicProperty::Read],
            vec![AttributePermission::ReadEncryptionRequired],
            Some(vec![1, 2, 3]),
            vec![],
        )],
    )
}

#[test]
fn permission_gate_matches_the_grant() {
    assert!(check_permission(ManagerAuthorization::AllowedAlways));
    assert!(check_permission(ManagerAuthorization::NotDetermined));
    assert!(!check_permission(ManagerAuthorization::Denied));
    assert!(!check_permission(ManagerAuthorization::Restricted));
}

#[test]
fn construction_under_denied_grant_fails_without_a_worker() {
    let log = Rc::new(RefCell::new(AdapterLog::default()));
    let result = Peripheral::new(FakeAdapter::new(log.clone()), ManagerAuthorization::Denied);
    match result {
        Err(Error::PermissionDenied) => {}
        _ => panic!("construction must fail with PermissionDenied"),
    }
    let after = log.borrow();
    assert_eq!(after.register_calls, 0);
    assert_eq!(after.start_calls, 0);
    assert_eq!(after.stop_calls, 0);
}

#[test]
fn construction_under_restricted_grant_fails() {
    let log = Rc::new(RefCell::new(AdapterLog::default()));
    assert!(matches!(
        Peripheral::new(FakeAdapter::new(log), ManagerAuthorization::Restricted),
        Err(Error::PermissionDenied)
    ));
}

#[test]
fn queries_report_the_adapter_state() {
    let log = Rc::new(RefCell::new(AdapterLog::default()));
    let mut peripheral =
        Peripheral::new(FakeAdapter::new(log), ManagerAuthorization::AllowedAlways).unwrap();
    assert_eq!(peripheral.is_powered(), Ok(true));
    assert_eq!(peripheral.is_advertising(), Ok(false));
    peripheral
        .start_advertising("hello", &[Uuid::from_sdp_short_uuid(0x1234)])
        .unwrap();
    assert_eq!(peripheral.is_advertising(), Ok(true));
}

#[test]
fn advertising_failure_surfaces_as_native_operation_failed() {
    let log = Rc::new(RefCell::new(AdapterLog::default()));
    let mut adapter = FakeAdapter::new(log);
    adapter.fail_start = Some(String::from("radio busy"));
    let mut peripheral = Peripheral::new(adapter, ManagerAuthorization::AllowedAlways).unwrap();
    assert_eq!(
        peripheral.start_advertising("hello", &[]),
        Err(Error::NativeOperationFailed(String::from("radio busy")))
    );
}

#[test]
fn advertising_with_no_uuids_is_legal() {
    let log = Rc::new(RefCell::new(AdapterLog::default()));
    let mut peripheral =
        Peripheral::new(FakeAdapter::new(log), ManagerAuthorization::AllowedAlways).unwrap();
    assert_eq!(peripheral.start_advertising("nameless", &[]), Ok(()));
}

#[test]
fn stop_advertising_is_idempotent() {
    let log = Rc::new(RefCell::new(AdapterLog::default()));
    let mut peripheral =
        Peripheral::new(FakeAdapter::new(log.clone()), ManagerAuthorization::AllowedAlways)
            .unwrap();
    assert_eq!(peripheral.stop_advertising(), Ok(()));
    assert_eq!(peripheral.stop_advertising(), Ok(()));
    assert_eq!(log.borrow().stop_calls, 2);
}

#[test]
fn invalid_service_is_rejected_before_the_adapter() {
    let log = Rc::new(RefCell::new(AdapterLog::default()));
    let mut peripheral =
        Peripheral::new(FakeAdapter::new(log.clone()), ManagerAuthorization::AllowedAlways)
            .unwrap();
    assert_eq!(
        peripheral.add_service(&invalid_service(0x1234)),
        Err(Error::InvalidAttribute)
    );
    assert_eq!(log.borrow().register_calls, 0);
}

#[test]
fn valid_service_reaches_the_adapter_once() {
    let log = Rc::new(RefCell::new(AdapterLog::default()));
    let mut peripheral =
        Peripheral::new(FakeAdapter::new(log.clone()), ManagerAuthorization::AllowedAlways)
            .unwrap();
    assert_eq!(peripheral.add_service(&benign_service(0x1234)), Ok(()));
    assert_eq!(log.borrow().register_calls, 1);
}

#[test]
fn duplicate_service_uuid_is_rejected() {
    let log = Rc::new(RefCell::new(AdapterLog::default()));
    let mut peripheral =
        Peripheral::new(FakeAdapter::new(log.clone()), ManagerAuthorization::AllowedAlways)
            .unwrap();
    assert_eq!(peripheral.add_service(&benign_service(0x1234)), Ok(()));
    assert_eq!(
        peripheral.add_service(&benign_service(0x1234)),
        Err(Error::InvalidAttribute)
    );
    assert_eq!(log.borrow().register_calls, 1);
    assert_eq!(peripheral.add_service(&benign_service(0x5678)), Ok(()));
}

#[test]
fn register_failure_keeps_the_service_unregistered() {
    let log = Rc::new(RefCell::new(AdapterLog::default()));
    let mut adapter = FakeAdapter::new(log.clone());
    adapter.fail_register = Some(String::from("stack refused"));
    let mut peripheral = Peripheral::new(adapter, ManagerAuthorization::AllowedAlways).unwrap();
    assert_eq!(
        peripheral.add_service(&benign_service(0x1234)),
        Err(Error::NativeOperationFailed(String::from("stack refused")))
    );
    assert_eq!(log.borrow().register_calls, 1);
}

#[test]
fn send_event_answers_every_command_kind() {
    let log = Rc::new(RefCell::new(AdapterLog::default()));
    let mut peripheral =
        Peripheral::new(FakeAdapter::new(log), ManagerAuthorization::AllowedAlways).unwrap();
    assert_eq!(
        peripheral.send_event(Command::IsPowered),
        Some(Ok(TokenKind::Boolean(true)))
    );
    assert_eq!(
        peripheral.send_event(Command::StopAdvertising),
        Some(Ok(TokenKind::Unit))
    );
}

#[test]
fn reply_interpretation_is_exact() {
    assert_eq!(interpret_bool_reply(Ok(Ok(TokenKind::Boolean(false)))), Ok(false));
    assert_eq!(
        interpret_bool_reply(Ok(Ok(TokenKind::Unit))),
        Err(Error::Unknown)
    );
    assert_eq!(
        interpret_bool_reply(Err(Error::ChannelClosed)),
        Err(Error::ChannelClosed)
    );
    assert_eq!(
        interpret_bool_reply(Ok(Err(Error::NativeOperationFailed(String::from("x"))))),
        Err(Error::NativeOperationFailed(String::from("x")))
    );

    assert_eq!(interpret_unit_reply(Ok(Ok(TokenKind::Unit))), Ok(()));
    assert_eq!(
        interpret_unit_reply(Ok(Ok(TokenKind::Boolean(true)))),
        Err(Error::Unknown)
    );
    assert_eq!(
        interpret_unit_reply(Err(Error::ReplyLost)),
        Err(Error::ReplyLost)
    );
}

#[test]
fn facade_event_stream_preserves_order_and_serves_reads() {
    let log = Rc::new(RefCell::new(AdapterLog::default()));
    let mut peripheral =
        Peripheral::new(FakeAdapter::new(log), ManagerAuthorization::AllowedAlways).unwrap();

    let service = Uuid::from_sdp_short_uuid(0x1234);
    let characteristic = Uuid::from_sdp_short_uuid(0x2A3D);

    let none = peripheral.on_native_event(NativeEvent::Subscribed {
        client: String::from("central-1"),
        service,
        characteristic,
    });
    assert!(none.is_none());
    let completion = peripheral.on_native_event(NativeEvent::ReadRequested {
        client: String::from("central-1"),
        service,
        characteristic,
    });
    let mut completion = completion.expect("a read request must hand back its completion");
    let none = peripheral.on_native_event(NativeEvent::Unsubscribed {
        client: String::from("central-1"),
        service,
        characteristic,
    });
    assert!(none.is_none());

    match peripheral.next_event() {
        Some(PeripheralEvent::DidSubscribeToCharacteristic { client, .. }) => {
            assert_eq!(client, "central-1");
        }
        other => panic!("expected the subscribe event first, got {:?}", other),
    }
    match peripheral.next_event() {
        Some(PeripheralEvent::DidReceiveReadRequest { mut responder, .. }) => {
            assert_eq!(responder.respond(vec![7, 7]), Ok(()));
        }
        other => panic!("expected the read request second, got {:?}", other),
    }
    match peripheral.next_event() {
        Some(PeripheralEvent::DidUnsubscribeFromCharacteristic { client, .. }) => {
            assert_eq!(client, "central-1");
        }
        other => panic!("expected the unsubscribe event third, got {:?}", other),
    }
    assert!(peripheral.next_event().is_none());
    assert_eq!(resolve_read_completion(&mut completion), vec![7, 7]);
}
