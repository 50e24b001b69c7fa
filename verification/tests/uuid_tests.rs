use ble_peripheral_rust::uuid128::{Uuid, BASE_UUID_HI, BASE_UUID_LO};

#[test]
fn short_uuid_expands_onto_the_bluetooth_base() {
    let expanded = Uuid::from_sdp_short_uuid(0x2A3D);
    let reference = uuid::Uuid::parse_str("00002a3d-0000-1000-8000-00805f9b34fb").unwrap();
    assert_eq!(expanded.to_bytes(), reference.as_bytes().to_vec());
}

#[test]
fn zero_short_uuid_is_the_bare_base() {
    let expanded = Uuid::from_sdp_short_uuid(0);
    assert_eq!(expanded.hi, BASE_UUID_HI);
    assert_eq!(expanded.lo, BASE_UUID_LO);
    let reference = uuid::Uuid::parse_str("00000000-0000-1000-8000-00805f9b34fb").unwrap();
    assert_eq!(expanded.to_bytes(), reference.as_bytes().to_vec());
}

#[test]
fn halves_round_trip_through_the_reference_implementation() {
    let reference = uuid::Uuid::parse_str("0102030405060708090a0b0c0d0e0f10").unwrap();
    let (hi, lo) = reference.as_u64_pair();
    let ours = Uuid::from_u64_pair(hi, lo);
    assert_eq!(ours.to_bytes(), reference.as_bytes().to_vec());
}

#[test]
fn leading_fields_match_the_guid_decomposition() {
    let reference = uuid::Uuid::parse_str("12345678-9abc-def0-8000-00805f9b34fb").unwrap();
    let (hi, lo) = reference.as_u64_pair();
    let ours = Uuid::from_u64_pair(hi, lo);
    let (d1, d2, d3) = ours.to_fields();
    let (r1, r2, r3, _) = reference.as_fields();
    assert_eq!(d1, r1);
    assert_eq!(d2, r2);
    assert_eq!(d3, r3);
}

#[test]
fn equality_follows_the_halves() {
    assert_eq!(Uuid::from_u64_pair(1, 2), Uuid::from_u64_pair(1, 2));
    assert_ne!(Uuid::from_u64_pair(1, 2), Uuid::from_u64_pair(1, 3));
    assert_ne!(Uuid::from_u64_pair(2, 2), Uuid::from_u64_pair(1, 2));
}

use ble_peripheral_rust::uuid_text::parse_uuid_text;

#[test]
fn text_form_matches_the_reference_implementation() {
    let reference = uuid::Uuid::parse_str("12345678-9abc-def0-8000-00805f9b34fb").unwrap();
    let (hi, lo) = reference.as_u64_pair();
    let text = Uuid::from_u64_pair(hi, lo).to_uuid_text();
    assert_eq!(String::from_utf8(text).unwrap(), reference.to_string());
}

#[test]
fn short_uuid_text_round_trips_through_the_base() {
    let text = Uuid::from_sdp_short_uuid(0x180A).to_uuid_text();
    assert_eq!(
        String::from_utf8(text).unwrap(),
        "0000180a-0000-1000-8000-00805f9b34fb"
    );
}

#[test]
fn parsing_accepts_canonical_text_in_either_case() {
    let lower = parse_uuid_text(b"0000180a-0000-1000-8000-00805f9b34fb").unwrap();
    let upper = parse_uuid_text(b"0000180A-0000-1000-8000-00805F9B34FB").unwrap();
    assert_eq!(lower, upper);
    assert_eq!(lower, Uuid::from_sdp_short_uuid(0x180A));
}

#[test]
fn parsing_expands_short_forms_onto_the_base() {
    assert_eq!(
        parse_uuid_text(b"180a").unwrap(),
        Uuid::from_sdp_short_uuid(0x180A)
    );
    assert_eq!(
        parse_uuid_text(b"2A3D").unwrap(),
        Uuid::from_sdp_short_uuid(0x2A3D)
    );
    assert_eq!(
        parse_uuid_text(b"0000180a").unwrap(),
        Uuid::from_sdp_short_uuid(0x180A)
    );
}

#[test]
fn parsing_round_trips_the_text_form() {
    let identifier = Uuid::from_u64_pair(0x0102030405060708, 0x090a0b0c0d0e0f10);
    let text = identifier.to_uuid_text();
    assert_eq!(parse_uuid_text(&text), Some(identifier));
}

#[test]
fn parsing_rejects_malformed_text() {
    assert_eq!(parse_uuid_text(b""), None);
    assert_eq!(parse_uuid_text(b"180"), None);
    assert_eq!(parse_uuid_text(b"180g"), None);
    assert_eq!(parse_uuid_text(b"0000180a-0000-1000-8000-00805f9b34f"), None);
    assert_eq!(parse_uuid_text(b"0000180a+0000-1000-8000-00805f9b34fb"), None);
    assert_eq!(parse_uuid_text(b"0000180a-0000-1000-8000-00805f9b34fz"), None);
}
