//! A Bluetooth Low Energy service and what it contains: characteristics,
//! each with properties, data and descriptors.

use vstd::prelude::*;

use crate::ble::ble_utils::BleError;
use crate::ble::ble_utils::BleId;

verus! {

/// How many bytes an advertisement payload can carry.
pub const MAX_ADV_PAYLOAD_SIZE: usize = 31;

/// How many bytes one payload field identifier occupies.
pub const PAYLOAD_FIELD_IDENTIFIER_SIZE: usize = 2;

/// Characteristic property flag: broadcastable.
pub const PROPERTY_BROADCAST: u16 = 0x0001;

/// Characteristic property flag: readable.
pub const PROPERTY_READ: u16 = 0x0002;

/// Characteristic property flag: writable without a response.
pub const PROPERTY_WRITE_NO_RSP: u16 = 0x0004;

/// Characteristic property flag: writable.
pub const PROPERTY_WRITE: u16 = 0x0008;

/// Characteristic property flag: notifiable.
pub const PROPERTY_NOTIFY: u16 = 0x0010;

/// Characteristic property flag: indicatable.
pub const PROPERTY_INDICATE: u16 = 0x0020;

/// Characteristic property flag: readable only when encrypted.
pub const PROPERTY_READ_ENC: u16 = 0x0200;

/// Characteristic property flag: readable only when authenticated.
pub const PROPERTY_READ_AUTHEN: u16 = 0x0400;

/// Characteristic property flag: readable only when authorized.
pub const PROPERTY_READ_AUTHOR: u16 = 0x0800;

/// Characteristic property flag: writable only when encrypted.
pub const PROPERTY_WRITE_ENC: u16 = 0x1000;

/// Characteristic property flag: writable only when authenticated.
pub const PROPERTY_WRITE_AUTHEN: u16 = 0x2000;

/// Characteristic property flag: writable only when authorized.
pub const PROPERTY_WRITE_AUTHOR: u16 = 0x4000;

/// Every characteristic property flag the NimBLE host defines.
pub const PROPERTIES_MASK: u16 = 0x7E3F;

/// Descriptor property flag: readable.
pub const DESCRIPTOR_READ: u8 = 0x01;

/// Descriptor property flag: writable.
pub const DESCRIPTOR_WRITE: u8 = 0x02;

/// Descriptor property flag: readable only when encrypted.
pub const DESCRIPTOR_READ_ENC: u8 = 0x04;

/// Descriptor property flag: readable only when authenticated.
pub const DESCRIPTOR_READ_AUTHEN: u8 = 0x08;

/// Descriptor property flag: readable only when authorized.
pub const DESCRIPTOR_READ_AUTHOR: u8 = 0x10;

/// Descriptor property flag: writable only when encrypted.
pub const DESCRIPTOR_WRITE_ENC: u8 = 0x20;

/// Descriptor property flag: writable only when authenticated.
pub const DESCRIPTOR_WRITE_AUTHEN: u8 = 0x40;

/// Descriptor property flag: writable only when authorized.
pub const DESCRIPTOR_WRITE_AUTHOR: u8 = 0x80;

/// Copies a byte vector, keeping its contents.
pub(crate) fn clone_bytes(data: &Vec<u8>) -> (res: Vec<u8>)
    ensures
        res@ == data@,
{
    let res = data.clone();
    proof {
        assert(res@ =~= data@);
    }
    res
}

/// A descriptor of a BLE characteristic: an identifier, properties saying
/// how clients may interact with it, and its data.
#[derive(Debug)]
pub struct Descriptor {
    pub id: BleId,
    pub properties: u8,
    pub data: Vec<u8>,
}

/// Whether two descriptors carry the same identifier, properties and data.
pub open spec fn same_descriptor(a: Descriptor, b: Descriptor) -> bool {
    a.id == b.id && a.properties == b.properties && a.data@ == b.data@
}

impl Clone for Descriptor {
    /// A descriptor with the same identifier, properties and data.
    fn clone(&self) -> (res: Descriptor)
        ensures
            same_descriptor(res, *self),
    {
        Descriptor {
            id: self.id.clone(),
            properties: self.properties,
            data: clone_bytes(&self.data),
        }
    }
}

impl Descriptor {
    /// The descriptor with one property flag set or cleared.
    pub open spec fn toggled(self, value: bool, flag: u8) -> Descriptor {
        if value {
            Descriptor { properties: self.properties | flag, ..self }
        } else {
            Descriptor { properties: self.properties & !flag, ..self }
        }
    }

    /// Creates a descriptor with its identifier and data and no properties;
    /// those are set separately.
    pub fn new(id: BleId, data: Vec<u8>) -> (descriptor: Descriptor)
        ensures
            descriptor == (Descriptor { id, properties: 0u8, data }),
    {
        Descriptor { id, properties: 0, data }
    }

    /// Gets the properties of the descriptor. Every bit of the property
    /// byte is a defined flag, so the properties are always wellformed.
    pub fn get_properties(&self) -> (result: Result<u8, BleError>)
        ensures
            result == Ok::<u8, BleError>(self.properties),
    {
        Ok(self.properties)
    }

    /// Sets or clears a property flag.
    fn toggle(&mut self, value: bool, flag: u8)
        ensures
            *final(self) == old(self).toggled(value, flag),
    {
        if value {
            self.properties = self.properties | flag;
        } else {
            self.properties = self.properties & !flag;
        }
    }

    /// Adds or removes the property that lets the descriptor's data be
    /// writable by the client.
    pub fn writable(&mut self, value: bool) -> (res: &mut Descriptor)
        ensures
            *res == old(self).toggled(value, DESCRIPTOR_WRITE),
            *final(self) == *final(res),
    {
        self.toggle(value, DESCRIPTOR_WRITE);
        self
    }
    /// Adds or removes the property that lets the descriptor's data be
    /// readable by the client.
    pub fn readeable(&mut self, value: bool) -> (res: &mut Descriptor)
        ensures
            *res == old(self).toggled(value, DESCRIPTOR_READ),
            *final(self) == *final(res),
    {
        self.toggle(value, DESCRIPTOR_READ);
        self
    }
    /// Adds or removes the property that lets the descriptor's data be
    /// readable by the client, only when the communication is encrypted.
    pub fn readeable_enc(&mut self, value: bool) -> (res: &mut Descriptor)
        ensures
            *res == old(self).toggled(value, DESCRIPTOR_READ_ENC),
            *final(self) == *final(res),
    {
        self.toggle(value, DESCRIPTOR_READ_ENC);
        self
    }
    /// Adds or removes the property that lets the descriptor's data be
    /// readable by the client, only when the communication is authenticated.
    pub fn readeable_authen(&mut self, value: bool) -> (res: &mut Descriptor)
        ensures
            *res == old(self).toggled(value, DESCRIPTOR_READ_AUTHEN),
            *final(self) == *final(res),
    {
        self.toggle(value, DESCRIPTOR_READ_AUTHEN);
        self
    }
    /// Adds or removes the property that lets the descriptor's data be
    /// readable by the client, only when authorized by the server.
    pub fn readeable_author(&mut self, value: bool) -> (res: &mut Descriptor)
        ensures
            *res == old(self).toggled(value, DESCRIPTOR_READ_AUTHOR),
            *final(self) == *final(res),
    {
        self.toggle(value, DESCRIPTOR_READ_AUTHOR);
        self
    }
    /// Adds or removes the property that lets the descriptor's data be
    /// writable by the client, only when the communication is encrypted.
    pub fn writeable_enc(&mut self, value: bool) -> (res: &mut Descriptor)
        ensures
            *res == old(self).toggled(value, DESCRIPTOR_WRITE_ENC),
            *final(self) == *final(res),
    {
        self.toggle(value, DESCRIPTOR_WRITE_ENC);
        self
    }
    /// Adds or removes the property that lets the descriptor's data be
    /// writable by the client, only when the communication is authenticated.
    pub fn writeable_authen(&mut self, value: bool) -> (res: &mut Descriptor)
        ensures
            *res == old(self).toggled(value, DESCRIPTOR_WRITE_AUTHEN),
            *final(self) == *final(res),
    {
        self.toggle(value, DESCRIPTOR_WRITE_AUTHEN);
        self
    }
    /// Adds or removes the property that lets the descriptor's data be
    /// writable by the client, only when authorized by the server.
    pub fn writeable_author(&mut self, value: bool) -> (res: &mut Descriptor)
        ensures
            *res == old(self).toggled(value, DESCRIPTOR_WRITE_AUTHOR),
            *final(self) == *final(res),
    {
        self.toggle(value, DESCRIPTOR_WRITE_AUTHOR);
        self
    }
}

/// A characteristic of a BLE service: an identifier clients see, properties
/// saying how they may interact with it, the data they read or write, and
/// its descriptors.
#[derive(Debug)]
pub struct Characteristic {
    pub id: BleId,
    pub properties: u16,
    pub data: Vec<u8>,
    pub descriptors: Vec<Descriptor>,
}

/// Whether two characteristics carry the same identifier, properties, data
/// and descriptors.
pub open spec fn same_characteristic(a: Characteristic, b: Characteristic) -> bool {
    &&& a.id == b.id
    &&& a.properties == b.properties
    &&& a.data@ == b.data@
    &&& a.descriptors@.len() == b.descriptors@.len()
    &&& forall|i: int|
        0 <= i < a.descriptors@.len() ==> same_descriptor(
            #[trigger] a.descriptors@[i],
            b.descriptors@[i],
        )
}

impl Clone for Characteristic {
    /// A characteristic with the same identifier, properties, data and
    /// descriptors.
    fn clone(&self) -> (res: Characteristic)
        ensures
            same_characteristic(res, *self),
    {
        let mut descriptors: Vec<Descriptor> = Vec::new();
        let mut i: usize = 0;
        while i < self.descriptors.len()
            invariant
                i <= self.descriptors.len(),
                descriptors@.len() == i,
                forall|k: int|
                0 <= k < i ==> same_descriptor(#[trigger] descriptors@[k], self.descriptors@[k]),
            decreases self.descriptors.len() - i,
        {
            descriptors.push(self.descriptors[i].clone());
            i = i + 1;
        }
        Characteristic {
            id: self.id.clone(),
            properties: self.properties,
            data: clone_bytes(&self.data),
            descriptors,
        }
    }
}

impl Characteristic {
    /// The characteristic with one property flag set or cleared.
    pub open spec fn toggled(self, value: bool, flag: u16) -> Characteristic {
        if value {
            Characteristic { properties: self.properties | flag, ..self }
        } else {
            Characteristic { properties: self.properties & !flag, ..self }
        }
    }

    /// Creates a characteristic with its identifier and data and no
    /// properties; those are set separately.
    pub fn new(id: BleId, data: Vec<u8>) -> (characteristic: Characteristic)
        ensures
            characteristic.id == id,
            characteristic.properties == 0,
            characteristic.data == data,
            characteristic.descriptors@ == Seq::<Descriptor>::empty(),
    {
        Characteristic { id, properties: 0, data, descriptors: Vec::new() }
    }

    /// Adds a descriptor to the characteristic.
    pub fn add_descriptor(&mut self, descriptor: Descriptor) -> (res: &mut Characteristic)
        ensures
            res.id == old(self).id,
            res.properties == old(self).properties,
            res.data == old(self).data,
            res.descriptors@ == old(self).descriptors@.push(descriptor),
            *final(self) == *final(res),
    {
        self.descriptors.push(descriptor);
        self
    }

    /// Sets new data on the characteristic. The server must be notified of
    /// the change for clients to see the new value.
    pub fn update_data(&mut self, data: Vec<u8>) -> (res: &mut Characteristic)
        ensures
            res.id == old(self).id,
            res.properties == old(self).properties,
            res.data == data,
            res.descriptors == old(self).descriptors,
            *final(self) == *final(res),
    {
        self.data = data;
        self
    }

    /// Sets or clears a property flag.
    fn toggle(&mut self, value: bool, flag: u16)
        ensures
            *final(self) == old(self).toggled(value, flag),
    {
        if value {
            self.properties = self.properties | flag;
        } else {
            self.properties = self.properties & !flag;
        }
    }

    /// Adds or removes the property that lets the characteristic's data be
    /// writable by the client.
    pub fn writable(&mut self, value: bool) -> (res: &mut Characteristic)
        ensures
            *res == old(self).toggled(value, PROPERTY_WRITE),
            *final(self) == *final(res),
    {
        self.toggle(value, PROPERTY_WRITE);
        self
    }
    /// Adds or removes the property that lets the characteristic's data be
    /// readable by the client.
    pub fn readeable(&mut self, value: bool) -> (res: &mut Characteristic)
        ensures
            *res == old(self).toggled(value, PROPERTY_READ),
            *final(self) == *final(res),
    {
        self.toggle(value, PROPERTY_READ);
        self
    }
    /// Adds or removes the property that lets the characteristic's data be
    /// published to the client without waiting for an acknowledgement.
    pub fn notifiable(&mut self, value: bool) -> (res: &mut Characteristic)
        ensures
            *res == old(self).toggled(value, PROPERTY_NOTIFY),
            *final(self) == *final(res),
    {
        self.toggle(value, PROPERTY_NOTIFY);
        self
    }
    /// Adds or removes the property that lets the characteristic's data be
    /// readable by the client, only when the communication is encrypted.
    pub fn readeable_enc(&mut self, value: bool) -> (res: &mut Characteristic)
        ensures
            *res == old(self).toggled(value, PROPERTY_READ_ENC),
            *final(self) == *final(res),
    {
        self.toggle(value, PROPERTY_READ_ENC);
        self
    }
    /// Adds or removes the property that lets the characteristic's data be
    /// readable by the client, only when the communication is authenticated.
    pub fn readeable_authen(&mut self, value: bool) -> (res: &mut Characteristic)
        ensures
            *res == old(self).toggled(value, PROPERTY_READ_AUTHEN),
            *final(self) == *final(res),
    {
        self.toggle(value, PROPERTY_READ_AUTHEN);
        self
    }
    /// Adds or removes the property that lets the characteristic's data be
    /// readable by the client, only when authorized by the server.
    pub fn readeable_author(&mut self, value: bool) -> (res: &mut Characteristic)
        ensures
            *res == old(self).toggled(value, PROPERTY_READ_AUTHOR),
            *final(self) == *final(res),
    {
        self.toggle(value, PROPERTY_READ_AUTHOR);
        self
    }
    /// Adds or removes the property that lets the characteristic's data be
    /// writable by the client without waiting for a response.
    pub fn writeable_no_rsp(&mut self, value: bool) -> (res: &mut Characteristic)
        ensures
            *res == old(self).toggled(value, PROPERTY_WRITE_NO_RSP),
            *final(self) == *final(res),
    {
        self.toggle(value, PROPERTY_WRITE_NO_RSP);
        self
    }
    /// Adds or removes the property that lets the characteristic's data be
    /// writable by the client, only when the communication is encrypted.
    pub fn writeable_enc(&mut self, value: bool) -> (res: &mut Characteristic)
        ensures
            *res == old(self).toggled(value, PROPERTY_WRITE_ENC),
            *final(self) == *final(res),
    {
        self.toggle(value, PROPERTY_WRITE_ENC);
        self
    }
    /// Adds or removes the property that lets the characteristic's data be
    /// writable by the client, only when the communication is authenticated.
    pub fn writeable_authen(&mut self, value: bool) -> (res: &mut Characteristic)
        ensures
            *res == old(self).toggled(value, PROPERTY_WRITE_AUTHEN),
            *final(self) == *final(res),
    {
        self.toggle(value, PROPERTY_WRITE_AUTHEN);
        self
    }
    /// Adds or removes the property that lets the characteristic's data be
    /// writable by the client, only when authorized by the server.
    pub fn writeable_author(&mut self, value: bool) -> (res: &mut Characteristic)
        ensures
            *res == old(self).toggled(value, PROPERTY_WRITE_AUTHOR),
            *final(self) == *final(res),
    {
        self.toggle(value, PROPERTY_WRITE_AUTHOR);
        self
    }
    /// Adds or removes the property that lets the characteristic's data be
    /// broadcastable by the server.
    pub fn broadcastable(&mut self, value: bool) -> (res: &mut Characteristic)
        ensures
            *res == old(self).toggled(value, PROPERTY_BROADCAST),
            *final(self) == *final(res),
    {
        self.toggle(value, PROPERTY_BROADCAST);
        self
    }
    /// Adds or removes the property that lets the characteristic's data be
    /// published to the client, waiting for an acknowledgement.
    pub fn indicatable(&mut self, value: bool) -> (res: &mut Characteristic)
        ensures
            *res == old(self).toggled(value, PROPERTY_INDICATE),
            *final(self) == *final(res),
    {
        self.toggle(value, PROPERTY_INDICATE);
        self
    }
}

/// A BLE service: a container of related characteristics, with an
/// identifier and service-specific data.
#[derive(Debug)]
pub struct Service {
    pub id: BleId,
    pub data: Vec<u8>,
    pub characteristics: Vec<Characteristic>,
}

/// Whether two services carry the same identifier, data and
/// characteristics.
pub open spec fn same_service(a: Service, b: Service) -> bool {
    &&& a.id == b.id
    &&& a.data@ == b.data@
    &&& a.characteristics@.len() == b.characteristics@.len()
    &&& forall|i: int|
        0 <= i < a.characteristics@.len() ==> same_characteristic(
            #[trigger] a.characteristics@[i],
            b.characteristics@[i],
        )
}

impl Clone for Service {
    /// A service with the same identifier, data and characteristics.
    fn clone(&self) -> (res: Service)
        ensures
            same_service(res, *self),
    {
        let mut characteristics: Vec<Characteristic> = Vec::new();
        let mut i: usize = 0;
        while i < self.characteristics.len()
            invariant
                i <= self.characteristics.len(),
                characteristics@.len() == i,
                forall|k: int|
                0 <= k < i ==> same_characteristic(
                    #[trigger] characteristics@[k],
                    self.characteristics@[k],
                ),
            decreases self.characteristics.len() - i,
        {
            characteristics.push(self.characteristics[i].clone());
            i = i + 1;
        }
        Service {
            id: self.id.clone(),
            data: clone_bytes(&self.data),
            characteristics,
        }
    }
}

/// How many header bytes the advertisement payload spends on a service
/// whose data has the given length.
pub open spec fn header_bytes_spec(data_len: nat) -> nat {
    if data_len == 0 {
        PAYLOAD_FIELD_IDENTIFIER_SIZE as nat
    } else {
        2 * PAYLOAD_FIELD_IDENTIFIER_SIZE as nat
    }
}

impl Service {
    /// Creates a new service with its identifier and data, and no
    /// characteristics yet. The identifier, the payload headers and the
    /// data must together fit an advertisement payload; a service over that
    /// size is rejected.
    pub fn new(id: &BleId, data: Vec<u8>) -> (result: Result<Service, BleError>)
        ensures
            match result {
                Ok(service) => {
                    &&& data@.len() + header_bytes_spec(data@.len()) + id.byte_size_spec()
                        <= MAX_ADV_PAYLOAD_SIZE
                    &&& service.id == *id
                    &&& service.data == data
                    &&& service.characteristics@ == Seq::<Characteristic>::empty()
                },
                Err(e) => {
                    &&& data@.len() + header_bytes_spec(data@.len()) + id.byte_size_spec()
                        > MAX_ADV_PAYLOAD_SIZE
                    &&& e == BleError::ServiceTooBig
                },
            },
    {
        let header_bytes = if data.len() == 0 {
            PAYLOAD_FIELD_IDENTIFIER_SIZE
        } else {
            PAYLOAD_FIELD_IDENTIFIER_SIZE * 2
        };
        if data.len() > MAX_ADV_PAYLOAD_SIZE || data.len() + header_bytes + id.byte_size()
            > MAX_ADV_PAYLOAD_SIZE {
            Err(BleError::ServiceTooBig)
        } else {
            Ok(Service { id: id.clone(), data, characteristics: Vec::new() })
        }
    }

    /// Adds a new characteristic to the service.
    pub fn add_characteristic(&mut self, characteristic: Characteristic) -> (res: &mut Service)
        ensures
            res.id == old(self).id,
            res.data == old(self).data,
            res.characteristics@ == old(self).characteristics@.push(characteristic),
            *final(self) == *final(res),
    {
        self.characteristics.push(characteristic);
        self
    }
}

} // verus!
