//! Shared Bluetooth Low Energy types: errors, identifiers, advertisement
//! modes and security settings.

use vstd::prelude::*;

use crate::ble::ble_standard_uuids::StandardCharacteristicId;
use crate::ble::ble_standard_uuids::StandardServiceId;
use crate::utils::timer_driver::TimerDriverError;

verus! {

/// The NimBLE host's code for a message that does not fit.
pub const BLE_HS_EMSGSIZE: u32 = 4;

/// The NimBLE host's code for an operation that is already done.
pub const BLE_HS_EDONE: u32 = 14;

/// The NimBLE host's code for an operation on no connection.
pub const BLE_HS_ENOTCONN: u32 = 7;

/// Authentication requirement flag: allow bonding.
pub const AUTH_REQ_BOND: u8 = 0x01;

/// Authentication requirement flag: man-in-the-middle protection.
pub const AUTH_REQ_MITM: u8 = 0x04;

/// Authentication requirement flag: secure connection pairing.
pub const AUTH_REQ_SC: u8 = 0x08;

/// The possible errors when working with BLE.
#[derive(Debug, Clone, PartialEq, Eq)]
pub enum BleError {
    ServiceDoesNotFit,
    ServiceTooBig,
    ServiceUnknown,
    StartingFailure,
    StoppingFailure,
    TimerDriverError(TimerDriverError),
    Code(u32, String),
    ServiceNotFound,
    CharacteristicNotFound,
    PropertiesError,
    AdvertisementError,
    StartingAdvertisementError,
    IncorrectHandle,
    ConnectionError,
    InvalidParameters,
    DeviceNotFound,
    AlreadyConnected,
}

impl BleError {
    /// Creates the `BleError` a NimBLE host status code stands for, or
    /// nothing when the code reports success: zero is success, the
    /// documented codes map to their named errors, and any other code is
    /// carried through as-is, with no message text attached.
    pub fn from_code(code: u32) -> (result: Option<BleError>)
        ensures
            (code == 0) <==> (result is None),
            code == BLE_HS_EMSGSIZE ==> result == Some(BleError::ServiceDoesNotFit),
            code == BLE_HS_EDONE ==> result == Some(BleError::AlreadyConnected),
            code == BLE_HS_ENOTCONN ==> result == Some(BleError::DeviceNotFound),
            code != 0 && code != BLE_HS_EMSGSIZE && code != BLE_HS_EDONE && code != BLE_HS_ENOTCONN
                ==> (result matches Some(e) && e matches BleError::Code(c, message) && c == code
                && message@ == Seq::<char>::empty()),
    {
        if code == 0 {
            Option::<BleError>::None
        } else if code == BLE_HS_EMSGSIZE {
            Some(BleError::ServiceDoesNotFit)
        } else if code == BLE_HS_EDONE {
            Some(BleError::AlreadyConnected)
        } else if code == BLE_HS_ENOTCONN {
            Some(BleError::DeviceNotFound)
        } else {
            Some(BleError::Code(code, String::new()))
        }
    }
}

/// The discoverable modes of an advertisement. Limited and general
/// discoverability carry the minimum and maximum advertising interval, in
/// units of 0.625 milliseconds.
#[derive(Debug, Clone, Copy, PartialEq, Eq, Structural)]
pub enum DiscoverableMode {
    /// The device does not advertise itself.
    NonDiscoverable,
    /// The device advertises itself for a limited amount of time.
    LimitedDiscoverable(u16, u16),
    /// The device advertises itself continuously.
    GeneralDiscoverable(u16, u16),
}

/// The discoverability selector the NimBLE host takes.
#[derive(Debug, Clone, Copy, PartialEq, Eq, Structural)]
pub enum DiscMode {
    Non,
    Ltd,
    Gen,
}

impl DiscoverableMode {
    /// The NimBLE discoverability selector of this mode.
    pub open spec fn get_code_spec(self) -> DiscMode {
        match self {
            DiscoverableMode::NonDiscoverable => DiscMode::Non,
            DiscoverableMode::LimitedDiscoverable(_, _) => DiscMode::Ltd,
            DiscoverableMode::GeneralDiscoverable(_, _) => DiscMode::Gen,
        }
    }

    /// Gets the NimBLE discoverability selector of this mode.
    pub fn get_code(&self) -> (code: DiscMode)
        ensures
            code == self.get_code_spec(),
    {
        match self {
            DiscoverableMode::NonDiscoverable => DiscMode::Non,
            DiscoverableMode::LimitedDiscoverable(_, _) => DiscMode::Ltd,
            DiscoverableMode::GeneralDiscoverable(_, _) => DiscMode::Gen,
        }
    }
}

/// The connection modes of an advertisement.
#[derive(Debug, Clone, Copy, PartialEq, Eq, Structural)]
pub enum ConnectionMode {
    /// The device does not allow connections.
    NonConnectable,
    /// The device only allows connections from a specific device.
    DirectedConnectable,
    /// The device allows connections from any device.
    UndirectedConnectable,
}

/// The connection selector the NimBLE host takes.
#[derive(Debug, Clone, Copy, PartialEq, Eq, Structural)]
pub enum ConnMode {
    Non,
    Dir,
    Und,
}

impl ConnectionMode {
    /// The NimBLE connection selector of this mode.
    pub open spec fn get_code_spec(self) -> ConnMode {
        match self {
            ConnectionMode::NonConnectable => ConnMode::Non,
            ConnectionMode::DirectedConnectable => ConnMode::Dir,
            ConnectionMode::UndirectedConnectable => ConnMode::Und,
        }
    }

    /// Gets the NimBLE connection selector of this mode.
    pub fn get_code(&self) -> (code: ConnMode)
        ensures
            code == self.get_code_spec(),
    {
        match self {
            ConnectionMode::NonConnectable => ConnMode::Non,
            ConnectionMode::DirectedConnectable => ConnMode::Dir,
            ConnectionMode::UndirectedConnectable => ConnMode::Und,
        }
    }
}

/// A 16-, 32- or 128-bit Bluetooth UUID.
#[derive(Debug, Clone, Copy, PartialEq, Eq)]
pub enum BleUuid {
    Uuid16(u16),
    Uuid32(u32),
    Uuid128([u8; 16]),
}

/// The digest the version-3 (name-based) UUID scheme assigns to a name
/// under the OID namespace: sixteen bytes that depend on the name alone.
pub uninterp spec fn uuid_v3_oid_of(name: Seq<char>) -> Seq<u8>;

/// Relies on uuid::Uuid::new_v3 with the OID namespace: a version-3 UUID is
/// a digest of the namespace and the name bytes alone, sixteen bytes long.
#[verifier::external_body]
fn uuid_v3_oid(name: &str) -> (bytes: Vec<u8>)
    ensures
        bytes@ == uuid_v3_oid_of(name@),
        bytes@.len() == 16,
{
    uuid::Uuid::new_v3(&uuid::Uuid::NAMESPACE_OID, name.as_bytes()).into_bytes().to_vec()
}

/// The big-endian 32-bit value of the first four bytes of a digest.
pub open spec fn be_u32_of(bytes: Seq<u8>) -> int {
    bytes[0] * 0x1000000 + bytes[1] * 0x10000 + bytes[2] * 0x100 + bytes[3]
}

/// The possible kinds of BLE identifiers.
#[derive(Debug, PartialEq, Eq, Hash)]
pub enum BleId {
    /// The UUID of a standard BLE service.
    StandardService(StandardServiceId),
    /// The UUID of a standard BLE characteristic.
    StandarCharacteristic(StandardCharacteristicId),
    /// A name hashed into a 32-bit UUID.
    ByName(String),
    /// A 16-bit UUID.
    FromUuid16(u16),
    /// A 32-bit UUID.
    FromUuid32(u32),
    /// A 128-bit UUID.
    FromUuid128([u8; 16]),
}

/// Whether two identifiers denote the same UUID source: the same variant
/// with the same payload.
pub open spec fn id_eq(a: BleId, b: BleId) -> bool {
    match (a, b) {
        (BleId::StandardService(x), BleId::StandardService(y)) => x == y,
        (BleId::StandarCharacteristic(x), BleId::StandarCharacteristic(y)) => x == y,
        (BleId::ByName(x), BleId::ByName(y)) => x@ == y@,
        (BleId::FromUuid16(x), BleId::FromUuid16(y)) => x == y,
        (BleId::FromUuid32(x), BleId::FromUuid32(y)) => x == y,
        (BleId::FromUuid128(x), BleId::FromUuid128(y)) => x@ == y@,
        _ => false,
    }
}

impl Clone for BleId {
    /// An identifier equal to this one.
    fn clone(&self) -> (res: BleId)
        ensures
            res == *self,
    {
        match self {
            BleId::StandardService(id) => BleId::StandardService(*id),
            BleId::StandarCharacteristic(id) => BleId::StandarCharacteristic(*id),
            BleId::ByName(name) => BleId::ByName(name.clone()),
            BleId::FromUuid16(uuid) => BleId::FromUuid16(*uuid),
            BleId::FromUuid32(uuid) => BleId::FromUuid32(*uuid),
            BleId::FromUuid128(uuid) => BleId::FromUuid128(*uuid),
        }
    }
}

impl BleId {
    /// Creates the identifier a plain UUID denotes.
    pub fn from_uuid(uuid: BleUuid) -> (id: BleId)
        ensures
            id == (match uuid {
                BleUuid::Uuid16(value) => BleId::FromUuid16(value),
                BleUuid::Uuid32(value) => BleId::FromUuid32(value),
                BleUuid::Uuid128(value) => BleId::FromUuid128(value),
            }),
    {
        match uuid {
            BleUuid::Uuid16(value) => BleId::FromUuid16(value),
            BleUuid::Uuid32(value) => BleId::FromUuid32(value),
            BleUuid::Uuid128(value) => BleId::FromUuid128(value),
        }
    }

    /// The UUID this identifier denotes. A name is hashed by the version-3
    /// UUID scheme and truncated to its first four bytes, big-endian.
    pub open spec fn to_uuid_spec(self) -> BleUuid {
        match self {
            BleId::StandardService(service) => BleUuid::Uuid16(service.code_spec()),
            BleId::StandarCharacteristic(characteristic) => BleUuid::Uuid16(
                characteristic.code_spec(),
            ),
            BleId::ByName(name) => BleUuid::Uuid32(be_u32_of(uuid_v3_oid_of(name@)) as u32),
            BleId::FromUuid16(uuid) => BleUuid::Uuid16(uuid),
            BleId::FromUuid32(uuid) => BleUuid::Uuid32(uuid),
            BleId::FromUuid128(uuid) => BleUuid::Uuid128(uuid),
        }
    }

    /// Creates the `BleUuid` this identifier denotes.
    pub fn to_uuid(&self) -> (uuid: BleUuid)
        ensures
            uuid == self.to_uuid_spec(),
    {
        match self {
            BleId::StandardService(service) => BleUuid::Uuid16(service.code()),
            BleId::StandarCharacteristic(characteristic) => BleUuid::Uuid16(characteristic.code()),
            BleId::ByName(name) => {
                let bytes = uuid_v3_oid(name.as_str());
                let word: u32 = (bytes[0] as u32) * 0x1000000 + (bytes[1] as u32) * 0x10000 + (
                bytes[2] as u32) * 0x100 + (bytes[3] as u32);
                proof {
                    assert(word == be_u32_of(uuid_v3_oid_of(name@)));
                }
                BleUuid::Uuid32(word)
            },
            BleId::FromUuid16(uuid) => BleUuid::Uuid16(*uuid),
            BleId::FromUuid32(uuid) => BleUuid::Uuid32(*uuid),
            BleId::FromUuid128(uuid) => BleUuid::Uuid128(*uuid),
        }
    }

    /// How many bytes this identifier occupies in an advertisement payload.
    pub open spec fn byte_size_spec(self) -> usize {
        match self {
            BleId::StandardService(service) => 2,
            BleId::StandarCharacteristic(characteristic) => 2,
            BleId::ByName(_) => 16,
            BleId::FromUuid16(_) => 2,
            BleId::FromUuid32(_) => 4,
            BleId::FromUuid128(_) => 16,
        }
    }

    /// Gets the byte size of this identifier in an advertisement payload.
    pub fn byte_size(&self) -> (size: usize)
        ensures
            size == self.byte_size_spec(),
    {
        match self {
            BleId::StandardService(service) => service.byte_size(),
            BleId::StandarCharacteristic(characteristic) => characteristic.byte_size(),
            BleId::ByName(_) => 16,
            BleId::FromUuid16(_) => 2,
            BleId::FromUuid32(_) => 4,
            BleId::FromUuid128(_) => 16,
        }
    }

    /// Whether this identifier denotes the same UUID source as `other`.
    pub fn eq_id(&self, other: &BleId) -> (equal: bool)
        ensures
            equal == id_eq(*self, *other),
    {
        match (self, other) {
            (BleId::StandardService(x), BleId::StandardService(y)) => *x == *y,
            (BleId::StandarCharacteristic(x), BleId::StandarCharacteristic(y)) => *x == *y,
            (BleId::ByName(x), BleId::ByName(y)) => *x == *y,
            (BleId::FromUuid16(x), BleId::FromUuid16(y)) => *x == *y,
            (BleId::FromUuid32(x), BleId::FromUuid32(y)) => *x == *y,
            (BleId::FromUuid128(x), BleId::FromUuid128(y)) => {
                let mut i: usize = 0;
                let mut equal = true;
                while i < 16
                    invariant
                        i <= 16,
                        equal == (forall|k: int| 0 <= k < i ==> x@[k] == y@[k]),
                    decreases 16 - i,
                {
                    if x[i] != y[i] {
                        equal = false;
                    }
                    i = i + 1;
                }
                proof {
                    if equal {
                        assert(x@ =~= y@);
                    }
                }
                equal
            },
            _ => false,
        }
    }
}

/// The device's input and output capabilities, which determine the level of
/// security and the key generation method of pairing.
#[derive(Debug, Clone, Copy, PartialEq, Eq, Structural)]
pub enum IOCapabilities {
    /// Displays information but receives no input.
    DisplayOnly,
    /// Displays information and yes/no questions.
    DisplayYesNo,
    /// Receives input through a keyboard.
    KeyboardOnly,
    /// Neither displays information nor receives input.
    NoInputNoOutput,
    /// Receives input through a keyboard and displays information.
    KeyboardDisplay,
}

impl IOCapabilities {
    /// The NimBLE input/output capability code of this capability.
    pub open spec fn get_code_spec(self) -> u8 {
        match self {
            IOCapabilities::DisplayOnly => 0,
            IOCapabilities::DisplayYesNo => 1,
            IOCapabilities::KeyboardOnly => 2,
            IOCapabilities::NoInputNoOutput => 3,
            IOCapabilities::KeyboardDisplay => 4,
        }
    }

    /// Gets the NimBLE input/output capability code of this capability.
    pub fn get_code(&self) -> (code: u8)
        ensures
            code == self.get_code_spec(),
    {
        match self {
            IOCapabilities::DisplayOnly => 0,
            IOCapabilities::DisplayYesNo => 1,
            IOCapabilities::KeyboardOnly => 2,
            IOCapabilities::NoInputNoOutput => 3,
            IOCapabilities::KeyboardDisplay => 4,
        }
    }
}

/// What a secure BLE server needs: a passkey, the input/output capabilities
/// and the authorization requirements.
#[derive(Debug, Clone, Copy, PartialEq, Eq, Structural)]
pub struct Security {
    pub passkey: u32,
    pub auth_mode: u8,
    pub io_capabilities: IOCapabilities,
}

impl Security {
    /// A flag of the authentication mode, set or cleared.
    pub open spec fn toggled(self, value: bool, flag: u8) -> Security {
        if value {
            Security { auth_mode: self.auth_mode | flag, ..self }
        } else {
            Security { auth_mode: self.auth_mode & !flag, ..self }
        }
    }

    /// Creates a `Security` with its passkey and input/output capabilities
    /// and no authentication requirements; those are set separately.
    pub fn new(passkey: u32, io_capabilities: IOCapabilities) -> (security: Security)
        ensures
            security == (Security { passkey, auth_mode: 0, io_capabilities }),
    {
        Security { passkey, auth_mode: 0, io_capabilities }
    }

    /// Sets or clears a flag of the authentication mode.
    fn toggle(&mut self, value: bool, flag: u8)
        ensures
            *final(self) == old(self).toggled(value, flag),
    {
        if value {
            self.auth_mode = self.auth_mode | flag;
        } else {
            self.auth_mode = self.auth_mode & !flag;
        }
    }

    /// Sets or clears the bonding requirement: bonded devices remember
    /// their pairing information, which makes future connections faster and
    /// more secure.
    pub fn allow_bonding(&mut self, value: bool) -> (res: &mut Security)
        ensures
            *res == old(self).toggled(value, AUTH_REQ_BOND),
            *final(self) == *final(res),
    {
        self.toggle(value, AUTH_REQ_BOND);
        self
    }
    /// Sets or clears the man-in-the-middle requirement: authentication
    /// then requires a verification that makes interception hard.
    pub fn man_in_the_middle(&mut self, value: bool) -> (res: &mut Security)
        ensures
            *res == old(self).toggled(value, AUTH_REQ_MITM),
            *final(self) == *final(res),
    {
        self.toggle(value, AUTH_REQ_MITM);
        self
    }
    /// Sets or clears the secure-connection requirement: pairing then uses
    /// elliptic-curve Diffie-Hellman key agreement.
    pub fn secure_connection(&mut self, value: bool) -> (res: &mut Security)
        ensures
            *res == old(self).toggled(value, AUTH_REQ_SC),
            *final(self) == *final(res),
    {
        self.toggle(value, AUTH_REQ_SC);
        self
    }
}

} // verus!
