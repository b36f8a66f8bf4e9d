//! BLE identifiers, services, characteristics and the server's attribute
//! registry.

use esp32framework::ble::ble_connection_oriented::ConnectionInformation;
use esp32framework::ble::ble_standard_uuids::StandardCharacteristicId;
use esp32framework::ble::ble_standard_uuids::StandardDescriptorId;
use esp32framework::ble::ble_standard_uuids::StandardServiceId;
use esp32framework::ble::ble_utils::BleUuid;
use esp32framework::ble::ble_utils::IOCapabilities;
use esp32framework::ble::ble_utils::Security;
use esp32framework::ble::service::PROPERTY_NOTIFY;
use esp32framework::ble::service::PROPERTY_READ;
use esp32framework::ble::service::PROPERTY_WRITE;
use esp32framework::ble::BleError;
use esp32framework::ble::BleId;
use esp32framework::ble::BleServer;
use esp32framework::ble::Characteristic;
use esp32framework::ble::Descriptor;
use esp32framework::ble::Service;
use esp32framework::InterruptDriver;

#[test]
fn standard_ids_occupy_two_bytes() {
    assert_eq!(StandardServiceId::Battery.byte_size(), 2);
    assert_eq!(StandardCharacteristicId::BatteryLevel.byte_size(), 2);
    assert_eq!(StandardDescriptorId::ValidRange.byte_size(), 2);
    assert_eq!(StandardServiceId::GAP.code(), 0x1800);
    assert_eq!(StandardServiceId::Battery.code(), 0x180F);
    assert_eq!(StandardDescriptorId::CharacteristicUserDescription.code(), 0x2901);
}

#[test]
fn ble_id_byte_sizes() {
    assert_eq!(BleId::StandardService(StandardServiceId::Battery).byte_size(), 2);
    assert_eq!(BleId::FromUuid16(0x1234).byte_size(), 2);
    assert_eq!(BleId::FromUuid32(0x1234_5678).byte_size(), 4);
    assert_eq!(BleId::FromUuid128([0; 16]).byte_size(), 16);
    assert_eq!(BleId::ByName(String::from("button")).byte_size(), 16);
}

#[test]
fn ble_id_to_uuid_hashes_names() {
    // The version-3 UUID of "button" under the OID namespace begins with
    // the bytes 94 b5 50 ae; a name-based identifier truncates the digest
    // to those four bytes, big-endian.
    let id = BleId::ByName(String::from("button"));
    assert_eq!(id.to_uuid(), BleUuid::Uuid32(0x94B5_50AE));
    let other = BleId::ByName(String::from("sensor"));
    assert_eq!(other.to_uuid(), BleUuid::Uuid32(0x6245_B414));
    assert_eq!(
        BleId::StandardService(StandardServiceId::GATT).to_uuid(),
        BleUuid::Uuid16(0x1801)
    );
    assert_eq!(BleId::FromUuid16(7).to_uuid(), BleUuid::Uuid16(7));
    assert_eq!(BleId::FromUuid128([3; 16]).to_uuid(), BleUuid::Uuid128([3; 16]));
}

#[test]
fn ble_id_from_uuid_round_trips() {
    assert_eq!(BleId::from_uuid(BleUuid::Uuid16(7)).to_uuid(), BleUuid::Uuid16(7));
    assert_eq!(
        BleId::from_uuid(BleUuid::Uuid128([9; 16])),
        BleId::FromUuid128([9; 16])
    );
}

#[test]
fn ble_id_equality_compares_payloads() {
    let a = BleId::ByName(String::from("x"));
    let b = BleId::ByName(String::from("x"));
    let c = BleId::ByName(String::from("y"));
    assert!(a.eq_id(&b));
    assert!(!a.eq_id(&c));
    assert!(!a.eq_id(&BleId::FromUuid16(1)));
    assert!(BleId::FromUuid128([7; 16]).eq_id(&BleId::FromUuid128([7; 16])));
    assert!(!BleId::FromUuid128([7; 16]).eq_id(&BleId::FromUuid128([8; 16])));
}

#[test]
fn ble_error_from_code_maps_documented_codes() {
    assert_eq!(BleError::from_code(0), None);
    assert_eq!(BleError::from_code(4), Some(BleError::ServiceDoesNotFit));
    assert_eq!(BleError::from_code(14), Some(BleError::AlreadyConnected));
    assert_eq!(BleError::from_code(7), Some(BleError::DeviceNotFound));
    assert_eq!(BleError::from_code(99), Some(BleError::Code(99, String::new())));
}

#[test]
fn service_too_big_is_rejected() {
    // With data, the payload spends 4 header bytes; a 16-byte identifier
    // leaves 11 bytes of room in the 31-byte advertisement payload.
    let id = BleId::FromUuid128([1; 16]);
    assert!(Service::new(&id, vec![0; 11]).is_ok());
    assert_eq!(Service::new(&id, vec![0; 12]).unwrap_err(), BleError::ServiceTooBig);
    // Without data only 2 header bytes are spent.
    let small = BleId::FromUuid16(0x180F);
    let service = Service::new(&small, vec![]).unwrap();
    assert_eq!(service.data.len(), 0);
    assert!(service.characteristics.is_empty());
}

#[test]
fn characteristic_properties_toggle() {
    let mut characteristic = Characteristic::new(BleId::FromUuid16(0x0101), vec![1]);
    assert_eq!(characteristic.properties, 0);
    characteristic.readeable(true).writable(true).notifiable(true);
    assert_eq!(
        characteristic.properties,
        PROPERTY_READ | PROPERTY_WRITE | PROPERTY_NOTIFY
    );
    characteristic.writable(false);
    assert_eq!(characteristic.properties, PROPERTY_READ | PROPERTY_NOTIFY);
    characteristic.update_data(vec![4, 5]);
    assert_eq!(characteristic.data, vec![4, 5]);
}

#[test]
fn descriptor_properties_toggle() {
    let mut descriptor = Descriptor::new(BleId::FromUuid16(0x2901), vec![]);
    descriptor.readeable(true).writable(true);
    assert_eq!(descriptor.properties, 0x01 | 0x02);
    descriptor.writable(false);
    assert_eq!(descriptor.properties, 0x01);
    assert_eq!(descriptor.get_properties(), Ok(0x01));
    let mut characteristic = Characteristic::new(BleId::FromUuid16(0x0101), vec![]);
    characteristic.add_descriptor(descriptor);
    assert_eq!(characteristic.descriptors.len(), 1);
}

#[test]
fn security_toggles_auth_requirements() {
    let mut security = Security::new(123_456, IOCapabilities::DisplayOnly);
    assert_eq!(security.auth_mode, 0);
    security.allow_bonding(true).man_in_the_middle(true).secure_connection(true);
    assert_eq!(security.auth_mode, 0x01 | 0x04 | 0x08);
    security.man_in_the_middle(false);
    assert_eq!(security.auth_mode, 0x01 | 0x08);
    assert_eq!(IOCapabilities::NoInputNoOutput.get_code(), 3);
    assert_eq!(IOCapabilities::KeyboardDisplay.get_code(), 4);
}

#[test]
fn server_updates_existing_characteristic_data() {
    let service_id = BleId::FromUuid16(0x1515);
    let mut characteristic = Characteristic::new(BleId::FromUuid16(0x0101), vec![1]);
    characteristic.readeable(true);
    let mut service = Service::new(&service_id, vec![]).unwrap();
    service.add_characteristic(characteristic);
    let mut server = BleServer::new(String::from("server"), vec![service]);

    let update = Characteristic::new(BleId::FromUuid16(0x0101), vec![9, 9]);
    server.set_characteristic(service_id.clone(), update).unwrap();
    assert_eq!(server.service_count(), 1);
    assert_eq!(server.service(0).characteristics.len(), 1);
    assert_eq!(server.service(0).characteristics[0].data, vec![9, 9]);
}

#[test]
fn server_creates_missing_characteristic() {
    let service_id = BleId::FromUuid16(0x1515);
    let service = Service::new(&service_id, vec![]).unwrap();
    let mut server = BleServer::new(String::from("server"), vec![service]);

    let mut fresh = Characteristic::new(BleId::FromUuid16(0x0202), vec![5]);
    fresh.writable(true);
    server.set_characteristic(service_id.clone(), fresh).unwrap();
    assert_eq!(server.service(0).characteristics.len(), 1);
    assert_eq!(server.service(0).characteristics[0].data, vec![5]);

    let unknown_service = Characteristic::new(BleId::FromUuid16(0x0202), vec![5]);
    assert_eq!(
        server.set_characteristic(BleId::FromUuid16(0x9999), unknown_service),
        Err(BleError::ServiceNotFound)
    );
}

#[test]
fn server_rejects_unknown_property_bits() {
    let service_id = BleId::FromUuid16(0x1515);
    let service = Service::new(&service_id, vec![]).unwrap();
    let mut server = BleServer::new(String::from("server"), vec![service]);

    let mut invalid = Characteristic::new(BleId::FromUuid16(0x0303), vec![]);
    invalid.properties = 0x8000;
    assert_eq!(
        server.set_characteristic(service_id, invalid),
        Err(BleError::PropertiesError)
    );
    assert_eq!(server.service(0).characteristics.len(), 0);
}

#[test]
fn server_set_service_creates_and_fills() {
    let service_id = BleId::FromUuid16(0x1600);
    let mut service = Service::new(&service_id, vec![2]).unwrap();
    let mut characteristic = Characteristic::new(BleId::FromUuid16(0x0404), vec![8]);
    characteristic.readeable(true);
    service.add_characteristic(characteristic);

    let mut server = BleServer::new(String::from("server"), vec![]);
    server.set_service(service).unwrap();
    assert_eq!(server.service_count(), 1);
    assert_eq!(server.service(0).data, vec![2]);
    assert_eq!(server.service(0).characteristics.len(), 1);
    assert_eq!(server.service(0).characteristics[0].data, vec![8]);
}

#[test]
fn server_notify_value_requires_existing_characteristic() {
    let service_id = BleId::FromUuid16(0x1515);
    let mut service = Service::new(&service_id, vec![]).unwrap();
    service.add_characteristic(Characteristic::new(BleId::FromUuid16(0x0101), vec![1]));
    let mut server = BleServer::new(String::from("server"), vec![service]);

    let update = Characteristic::new(BleId::FromUuid16(0x0101), vec![3]);
    server.notify_value(service_id.clone(), update).unwrap();
    assert_eq!(server.service(0).characteristics[0].data, vec![3]);

    let missing = Characteristic::new(BleId::FromUuid16(0x0777), vec![]);
    assert_eq!(
        server.notify_value(service_id, missing),
        Err(BleError::CharacteristicNotFound)
    );
}

fn connection(handle: u16) -> ConnectionInformation {
    ConnectionInformation::from_connection_values(
        [1, 2, 3, 4, 5, 6],
        [1, 2, 3, 4, 5, 6],
        handle,
        10,
        100,
        0,
        23,
        false,
        false,
        false,
        16,
        Ok(-40),
        true,
        None,
    )
}

#[test]
fn connection_information_keeps_disconnection_cause_only_when_disconnected() {
    let live = connection(1);
    assert_eq!(live.disconnection_result, None);
    let dropped = ConnectionInformation::from_connection_values(
        [0; 6],
        [0; 6],
        2,
        10,
        100,
        0,
        23,
        false,
        false,
        false,
        16,
        Err(531),
        false,
        Some(531),
    );
    assert_eq!(dropped.disconnection_result, Some(531));
}

#[test]
fn server_queues_connection_events_for_the_drain() {
    let mut server = BleServer::new(String::from("server"), vec![]);
    server.on_connection(connection(1));
    server.on_connection(connection(2));
    let events = server.handle_connection_changes();
    assert_eq!(events.len(), 2);
    assert_eq!(events[0].conn_handle, 1);
    assert_eq!(events[1].conn_handle, 2);
    assert!(server.handle_connection_changes().is_empty());
    server.on_disconnection(connection(3));
    let gone = server.handle_disconnection_changes();
    assert_eq!(gone.len(), 1);
    assert_eq!(gone[0].conn_handle, 3);
}

#[test]
fn server_drains_as_interrupt_driver() {
    let mut server = BleServer::new(String::from("server"), vec![]);
    server.on_connection(connection(7));
    assert_eq!(server.get_connections_handled(), 0);
    assert!(server.update_interrupt().is_ok());
    assert!(server.handle_connection_changes().is_empty());
    assert_eq!(server.get_connections_handled(), 1);
    assert!(server.start().is_ok());
    assert!(server.is_started());
}
