//! Bluetooth Low Energy data modelling: identifiers, services,
//! characteristics, descriptors, security settings and the server's
//! attribute registry.

pub mod ble_connection_oriented;
pub mod ble_standard_uuids;
pub mod ble_utils;
pub mod service;

pub use ble_connection_oriented::BleServer;
pub use ble_connection_oriented::ConnectionInformation;
pub use ble_standard_uuids::StandardCharacteristicId;
pub use ble_standard_uuids::StandardDescriptorId;
pub use ble_standard_uuids::StandardServiceId;
pub use ble_utils::BleError;
pub use ble_utils::BleId;
pub use ble_utils::BleUuid;
pub use ble_utils::ConnectionMode;
pub use ble_utils::DiscoverableMode;
pub use ble_utils::IOCapabilities;
pub use ble_utils::Security;
pub use service::Characteristic;
pub use service::Descriptor;
pub use service::Service;
