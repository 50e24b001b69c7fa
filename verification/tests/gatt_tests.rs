use ble_peripheral_rust::error::Error;
use ble_peripheral_rust::gatt::characteristic::{Characteristic, ProtectionLevel};
use ble_peripheral_rust::gatt::descriptor::Descriptor;
use ble_peripheral_rust::gatt::properties::{AttributePermission, CharacteristicProperty};
use ble_peripheral_rust::gatt::service::Service;
use ble_peripheral_rust::uuid128::Uuid;

fn plain_characteristic(value: Option<Vec<u8>>, permissions: Vec<AttributePermission>) -> Characteristic {
    Characteristic::new(
        Uuid::from_sdp_short_uuid(0x2A3D),
        vec![CharacteristicProperty::Read, CharacteristicProperty::Write],
        permissions,
        value,
        vec![],
    )
}

#[test]
fn constructors_keep_their_arguments() {
    let uuid = Uuid::from_u64_pair(1, 2);
    let descriptor = Descriptor::new(
        uuid,
        vec![CharacteristicProperty::Read],
        vec![AttributePermission::Readable],
        Some(vec![1, 2, 3]),
    );
    assert_eq!(descriptor.uuid, uuid);
    assert_eq!(descriptor.properties, vec![CharacteristicProperty::Read]);
    assert_eq!(descriptor.permissions, vec![AttributePermission::Readable]);
    assert_eq!(descriptor.value, Some(vec![1, 2, 3]));

    let characteristic = Characteristic::new(
        uuid,
        vec![CharacteristicProperty::Notify],
        vec![AttributePermission::Readable],
        None,
        vec![descriptor],
    );
    assert_eq!(characteristic.uuid, uuid);
    assert_eq!(characteristic.descriptors.len(), 1);

    let service = Service::new(uuid, true, vec![characteristic]);
    assert_eq!(service.uuid, uuid);
    assert!(service.primary);
    assert_eq!(service.characteristics.len(), 1);
}

#[test]
fn service_without_static_values_is_valid() {
    let service = Service::new(
        Uuid::from_sdp_short_uuid(0x1234),
        true,
        vec![plain_characteristic(None, vec![AttributePermission::ReadEncryptionRequired])],
    );
    assert!(service.validate().is_ok());
}

#[test]
fn static_value_with_plain_permissions_is_valid() {
    let service = Service::new(
        Uuid::from_sdp_short_uuid(0x1234),
        true,
        vec![plain_characteristic(
            Some(vec![7]),
            vec![AttributePermission::Readable, AttributePermission::Writeable],
        )],
    );
    assert!(service.validate().is_ok());
}

#[test]
fn static_value_under_encryption_permission_is_rejected() {
    let service = Service::new(
        Uuid::from_sdp_short_uuid(0x1234),
        true,
        vec![plain_characteristic(
            Some(vec![7]),
            vec![AttributePermission::Readable, AttributePermission::ReadEncryptionRequired],
        )],
    );
    assert_eq!(service.validate(), Err(Error::InvalidAttribute));
}

#[test]
fn static_value_under_write_encryption_permission_is_rejected() {
    let characteristic = plain_characteristic(
        Some(vec![7]),
        vec![AttributePermission::WriteEncryptionRequired],
    );
    assert_eq!(characteristic.validate(), Err(Error::InvalidAttribute));
}

#[test]
fn descriptor_violation_is_found_inside_characteristic() {
    let descriptor = Descriptor::new(
        Uuid::from_sdp_short_uuid(0x2902),
        vec![CharacteristicProperty::Read],
        vec![AttributePermission::ReadEncryptionRequired],
        Some(vec![0]),
    );
    let characteristic = Characteristic::new(
        Uuid::from_sdp_short_uuid(0x2A3D),
        vec![CharacteristicProperty::Read],
        vec![AttributePermission::Readable],
        None,
        vec![descriptor],
    );
    assert_eq!(characteristic.validate(), Err(Error::InvalidAttribute));
    let service = Service::new(Uuid::from_sdp_short_uuid(0x1234), true, vec![characteristic]);
    assert_eq!(service.validate(), Err(Error::InvalidAttribute));
}

#[test]
fn flags_of_a_characteristic_follow_its_sets() {
    let characteristic = plain_characteristic(None, vec![AttributePermission::Readable]);
    assert_eq!(characteristic.get_properties_and_permissions(), (0x0a, 0x01));
}

#[test]
fn protection_levels_follow_the_encryption_permissions() {
    let plain = plain_characteristic(None, vec![AttributePermission::Readable]);
    assert_eq!(
        plain.extract_props_and_perms(),
        (0x0a, ProtectionLevel::Plain, ProtectionLevel::Plain)
    );

    let secured = plain_characteristic(
        None,
        vec![
            AttributePermission::ReadEncryptionRequired,
            AttributePermission::WriteEncryptionRequired,
        ],
    );
    assert_eq!(
        secured.extract_props_and_perms(),
        (
            0x0a,
            ProtectionLevel::EncryptionRequired,
            ProtectionLevel::EncryptionRequired
        )
    );

    let read_only_secure =
        plain_characteristic(None, vec![AttributePermission::ReadEncryptionRequired]);
    assert_eq!(
        read_only_secure.extract_props_and_perms(),
        (0x0a, ProtectionLevel::Plain, ProtectionLevel::EncryptionRequired)
    );
}
