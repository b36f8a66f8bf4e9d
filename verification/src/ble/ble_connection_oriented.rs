//! The connection-oriented side of BLE: the server that holds the attribute
//! registry and consumes connection events as an interrupt-driven device.
//!
//! The NimBLE stack raises connection and disconnection events in interrupt
//! context; each event is pushed onto a bounded ISR-safe queue and wakes the
//! run loop, which later drains the queue and hands every event to the user
//! callback on the consumer thread.

use vstd::prelude::*;

use crate::ble::ble_utils::id_eq;
use crate::ble::ble_utils::BleError;
use crate::ble::ble_utils::BleId;
use crate::ble::ble_utils::ConnectionMode;
use crate::ble::ble_utils::DiscoverableMode;
use crate::ble::service::clone_bytes;
use crate::ble::service::Characteristic;
use crate::ble::service::Service;
use crate::ble::service::PROPERTIES_MASK;
use crate::utils::auxiliary::ISRQueue;

verus! {

/// How many connection events the server's queues can hold.
pub const CONNECTION_QUEUE_SIZE: usize = 1000;

/// What a server knows about one client connection or disconnection, for
/// use in the user's connection callbacks.
#[derive(Debug, Clone, Copy, PartialEq, Eq)]
pub struct ConnectionInformation {
    pub address: [u8; 6],
    pub id_address: [u8; 6],
    pub conn_handle: u16,
    pub interval: u16,
    pub timeout: u16,
    pub latency: u16,
    pub mtu: u16,
    pub bonded: bool,
    pub encrypted: bool,
    pub authenticated: bool,
    pub sec_key_size: u32,
    pub rssi: Result<i8, u32>,
    pub disconnection_result: Option<u32>,
}

impl ConnectionInformation {
    /// Assembles the information of one connection event from the values
    /// the stack reports. A live connection carries no disconnection
    /// result; a disconnection carries the error code of its cause, if the
    /// stack reported one.
    pub fn from_connection_values(
        address: [u8; 6],
        id_address: [u8; 6],
        conn_handle: u16,
        interval: u16,
        timeout: u16,
        latency: u16,
        mtu: u16,
        bonded: bool,
        encrypted: bool,
        authenticated: bool,
        sec_key_size: u32,
        rssi: Result<i8, u32>,
        is_connected: bool,
        disconnection_code: Option<u32>,
    ) -> (info: ConnectionInformation)
        ensures
            info == (ConnectionInformation {
                address,
                id_address,
                conn_handle,
                interval,
                timeout,
                latency,
                mtu,
                bonded,
                encrypted,
                authenticated,
                sec_key_size,
                rssi,
                disconnection_result: if is_connected {
                    Option::<u32>::None
                } else {
                    disconnection_code
                },
            }),
    {
        let disconnection_result = if is_connected {
            Option::<u32>::None
        } else {
            disconnection_code
        };
        ConnectionInformation {
            address,
            id_address,
            conn_handle,
            interval,
            timeout,
            latency,
            mtu,
            bonded,
            encrypted,
            authenticated,
            sec_key_size,
            rssi,
            disconnection_result,
        }
    }
}

/// The index of the first service of `services` whose identifier denotes
/// the same UUID source as `id`, or the length when there is none.
pub open spec fn find_service(services: Seq<Service>, id: BleId) -> int
    decreases services.len(),
{
    if services.len() == 0 {
        0
    } else if id_eq(services[0].id, id) {
        0
    } else {
        1 + find_service(services.drop_first(), id)
    }
}

/// The index of the first characteristic of `characteristics` whose
/// identifier denotes the same UUID source as `id`, or the length when
/// there is none.
pub open spec fn find_characteristic(characteristics: Seq<Characteristic>, id: BleId) -> int
    decreases characteristics.len(),
{
    if characteristics.len() == 0 {
        0
    } else if id_eq(characteristics[0].id, id) {
        0
    } else {
        1 + find_characteristic(characteristics.drop_first(), id)
    }
}

/// The service search stops at exactly the first index whose identifier
/// matches: if the first `j` identifiers do not match, and the one at `j`
/// does (or `j` is the length), the search yields `j`.
proof fn lemma_find_service_at(services: Seq<Service>, id: BleId, j: int)
    requires
        0 <= j <= services.len(),
        forall|i: int| 0 <= i < j ==> !id_eq(#[trigger] services[i].id, id),
        j < services.len() ==> id_eq(services[j].id, id),
    ensures
        find_service(services, id) == j,
    decreases services.len(),
{
    if services.len() > 0 && j > 0 {
        assert(forall|i: int|
            0 <= i < j - 1 ==> !id_eq(#[trigger] services.drop_first()[i].id, id));
        lemma_find_service_at(services.drop_first(), id, j - 1);
    }
}

/// The characteristic search stops at exactly the first index whose
/// identifier matches, in the same way.
proof fn lemma_find_characteristic_at(
    characteristics: Seq<Characteristic>,
    id: BleId,
    j: int,
)
    requires
        0 <= j <= characteristics.len(),
        forall|i: int| 0 <= i < j ==> !id_eq(#[trigger] characteristics[i].id, id),
        j < characteristics.len() ==> id_eq(characteristics[j].id, id),
    ensures
        find_characteristic(characteristics, id) == j,
    decreases characteristics.len(),
{
    if characteristics.len() > 0 && j > 0 {
        assert(forall|i: int|
            0 <= i < j - 1 ==> !id_eq(#[trigger] characteristics.drop_first()[i].id, id));
        lemma_find_characteristic_at(characteristics.drop_first(), id, j - 1);
    }
}

/// `count` plus `more`, held at the top of the counter's range instead of
/// wrapping.
pub open spec fn sat_add(count: u64, more: nat) -> u64 {
    if count + more <= u64::MAX {
        (count + more) as u64
    } else {
        u64::MAX
    }
}

/// A BLE server: the side that holds the information used in a
/// connection-oriented relationship. Clients scanning see the advertising
/// name; the information itself is encapsulated in services, the server's
/// attribute registry.
pub struct BleServer {
    advertising_name: String,
    services: Vec<Service>,
    conn_queue: ISRQueue<ConnectionInformation>,
    disc_queue: ISRQueue<ConnectionInformation>,
    discoverable_mode: DiscoverableMode,
    connection_mode: ConnectionMode,
    high_duty_cycle: bool,
    started: bool,
    connections_handled: u64,
    disconnections_handled: u64,
}

impl BleServer {
    /// The name clients scanning will see.
    pub closed spec fn advertising_name(self) -> Seq<char> {
        self.advertising_name@
    }

    /// The attribute registry: the services the server offers.
    pub closed spec fn services(self) -> Seq<Service> {
        self.services@
    }

    /// The connection events waiting to be handled.
    pub closed spec fn pending_connections(self) -> Seq<ConnectionInformation> {
        self.conn_queue.contents()
    }

    /// The disconnection events waiting to be handled.
    pub closed spec fn pending_disconnections(self) -> Seq<ConnectionInformation> {
        self.disc_queue.contents()
    }

    /// The configured discoverable mode of the advertisement.
    pub closed spec fn discoverable_mode(self) -> DiscoverableMode {
        self.discoverable_mode
    }

    /// The configured connection mode of the advertisement.
    pub closed spec fn connection_mode(self) -> ConnectionMode {
        self.connection_mode
    }

    /// Whether the advertisement uses a high duty cycle.
    pub closed spec fn high_duty_cycle(self) -> bool {
        self.high_duty_cycle
    }

    /// Whether the advertisement was started.
    pub closed spec fn started(self) -> bool {
        self.started
    }

    /// How many connection events the user's connection callback has been
    /// handed. The count saturates instead of wrapping.
    pub closed spec fn connections_handled(self) -> u64 {
        self.connections_handled
    }

    /// How many disconnection events the user's disconnection callback has
    /// been handed. The count saturates instead of wrapping.
    pub closed spec fn disconnections_handled(self) -> u64 {
        self.disconnections_handled
    }

    /// How many connection events the connection queue can hold.
    pub closed spec fn connection_capacity(self) -> usize {
        self.conn_queue.capacity()
    }

    /// How many disconnection events the disconnection queue can hold.
    pub closed spec fn disconnection_capacity(self) -> usize {
        self.disc_queue.capacity()
    }

    /// The one characteristic-set step on a characteristic sequence: the
    /// data of the matching characteristic is updated if one matches by
    /// identifier; otherwise a characteristic whose property bits are all
    /// defined flags is appended, and one with unknown bits changes
    /// nothing.
    pub open spec fn characteristics_after_set(
        cs: Seq<Characteristic>,
        c: Characteristic,
    ) -> Seq<Characteristic> {
        let j = find_characteristic(cs, c.id);
        if j < cs.len() {
            cs.update(j, Characteristic { data: c.data, ..cs[j] })
        } else if c.properties & !PROPERTIES_MASK == 0 {
            cs.push(c)
        } else {
            cs
        }
    }

    /// The error the one characteristic-set step raises, if any.
    pub open spec fn characteristics_set_error(
        cs: Seq<Characteristic>,
        c: Characteristic,
    ) -> Option<BleError> {
        let j = find_characteristic(cs, c.id);
        if j < cs.len() || c.properties & !PROPERTIES_MASK == 0 {
            Option::<BleError>::None
        } else {
            Some(BleError::PropertiesError)
        }
    }

    /// The characteristic sequence after setting each of `new` in order,
    /// stopping at the first one that raises an error.
    pub open spec fn characteristics_after_set_all(
        cs: Seq<Characteristic>,
        new: Seq<Characteristic>,
    ) -> Seq<Characteristic>
        decreases new.len(),
    {
        if new.len() == 0 {
            cs
        } else if Self::characteristics_set_error(cs, new[0]) is Some {
            cs
        } else {
            Self::characteristics_after_set_all(
                Self::characteristics_after_set(cs, new[0]),
                new.drop_first(),
            )
        }
    }

    /// The first error setting each of `new` in order raises, if any.
    pub open spec fn characteristics_set_all_error(
        cs: Seq<Characteristic>,
        new: Seq<Characteristic>,
    ) -> Option<BleError>
        decreases new.len(),
    {
        if new.len() == 0 {
            Option::<BleError>::None
        } else if Self::characteristics_set_error(cs, new[0]) is Some {
            Self::characteristics_set_error(cs, new[0])
        } else {
            Self::characteristics_set_all_error(
                Self::characteristics_after_set(cs, new[0]),
                new.drop_first(),
            )
        }
    }

    /// The advertisement side of the server, unchanged: name, queue
    /// capacities, modes and the started flag.
    pub open spec fn advert_unchanged(pre: BleServer, post: BleServer) -> bool {
        &&& post.advertising_name() == pre.advertising_name()
        &&& post.connection_capacity() == pre.connection_capacity()
        &&& post.disconnection_capacity() == pre.disconnection_capacity()
        &&& post.discoverable_mode() == pre.discoverable_mode()
        &&& post.connection_mode() == pre.connection_mode()
        &&& post.high_duty_cycle() == pre.high_duty_cycle()
        &&& post.started() == pre.started()
    }

    /// The event side of the server, unchanged: both queues and both
    /// handled counts.
    pub open spec fn events_unchanged(pre: BleServer, post: BleServer) -> bool {
        &&& post.pending_connections() == pre.pending_connections()
        &&& post.pending_disconnections() == pre.pending_disconnections()
        &&& post.connections_handled() == pre.connections_handled()
        &&& post.disconnections_handled() == pre.disconnections_handled()
    }

    /// Everything of the server except the attribute registry, unchanged.
    pub open spec fn config_unchanged(pre: BleServer, post: BleServer) -> bool {
        Self::advert_unchanged(pre, post) && Self::events_unchanged(pre, post)
    }

    /// What one run loop pass leaves of a registered server: both queues
    /// drained, every drained event handed to its user callback (the
    /// handled counts grow by exactly the events drained), and everything
    /// else standing.
    pub open spec fn server_drained(pre: BleServer, post: BleServer) -> bool {
        &&& post.pending_connections() == Seq::<ConnectionInformation>::empty()
        &&& post.pending_disconnections() == Seq::<ConnectionInformation>::empty()
        &&& post.connections_handled() == sat_add(
            pre.connections_handled(),
            pre.pending_connections().len(),
        )
        &&& post.disconnections_handled() == sat_add(
            pre.disconnections_handled(),
            pre.pending_disconnections().len(),
        )
        &&& post.services() == pre.services()
        &&& Self::advert_unchanged(pre, post)
    }

    /// Creates a server with its advertising name, adopting the services
    /// handed in as its attribute registry.
    pub fn new(name: String, services: Vec<Service>) -> (server: BleServer)
        ensures
            server.advertising_name() == name@,
            server.services() == services@,
            server.pending_connections() == Seq::<ConnectionInformation>::empty(),
            server.pending_disconnections() == Seq::<ConnectionInformation>::empty(),
            server.connection_capacity() == CONNECTION_QUEUE_SIZE,
            server.disconnection_capacity() == CONNECTION_QUEUE_SIZE,
            server.connections_handled() == 0,
            server.disconnections_handled() == 0,
            server.discoverable_mode() == DiscoverableMode::NonDiscoverable,
            server.connection_mode() == ConnectionMode::NonConnectable,
            !server.high_duty_cycle(),
            !server.started(),
    {
        BleServer {
            advertising_name: name,
            services,
            conn_queue: ISRQueue::new(CONNECTION_QUEUE_SIZE),
            disc_queue: ISRQueue::new(CONNECTION_QUEUE_SIZE),
            discoverable_mode: DiscoverableMode::NonDiscoverable,
            connection_mode: ConnectionMode::NonConnectable,
            high_duty_cycle: false,
            started: false,
            connections_handled: 0,
            disconnections_handled: 0,
        }
    }

    /// How many services the server registers.
    pub fn service_count(&self) -> (count: usize)
        ensures
            count == self.services().len(),
    {
        self.services.len()
    }

    /// A borrow of the registered service at index `k`.
    pub fn service(&self, k: usize) -> (service: &Service)
        requires
            k < self.services().len(),
        ensures
            *service == self.services()[k as int],
    {
        &self.services[k]
    }

    /// How many connection events have been handed to the user's
    /// connection callback.
    pub fn get_connections_handled(&self) -> (count: u64)
        ensures
            count == self.connections_handled(),
    {
        self.connections_handled
    }

    /// How many disconnection events have been handed to the user's
    /// disconnection callback.
    pub fn get_disconnections_handled(&self) -> (count: u64)
        ensures
            count == self.disconnections_handled(),
    {
        self.disconnections_handled
    }

    /// Whether the advertisement was started.
    pub fn is_started(&self) -> (started: bool)
        ensures
            started == self.started(),
    {
        self.started
    }

    /// The index of the registered service whose identifier denotes the
    /// same UUID source as `id`, if there is one.
    fn find_service_index(&self, id: &BleId) -> (result: Option<usize>)
        ensures
            match result {
                Some(k) => k as int == find_service(self.services(), *id) && k
                    < self.services().len(),
                _ => find_service(self.services(), *id) == self.services().len(),
            },
    {
        let mut k: usize = 0;
        let mut found = false;
        while k < self.services.len() && !found
            invariant
                k <= self.services.len(),
                forall|i: int| 0 <= i < k ==> !id_eq(#[trigger] self.services@[i].id, *id),
                found ==> k < self.services@.len() && id_eq(self.services@[k as int].id, *id),
            decreases self.services.len() - k + (if found { 0int } else { 1int }),
        {
            if self.services[k].id.eq_id(id) {
                found = true;
            } else {
                k = k + 1;
            }
        }
        proof {
            lemma_find_service_at(self.services@, *id, k as int);
        }
        if found {
            Some(k)
        } else {
            Option::<usize>::None
        }
    }

    /// The index of the characteristic of service `k` whose identifier
    /// denotes the same UUID source as `id`, if there is one.
    fn find_characteristic_index(&self, k: usize, id: &BleId) -> (result: Option<usize>)
        requires
            k < self.services().len(),
        ensures
            match result {
                Some(j) => j as int == find_characteristic(
                    self.services()[k as int].characteristics@,
                    *id,
                ) && j < self.services()[k as int].characteristics@.len(),
                _ => find_characteristic(self.services()[k as int].characteristics@, *id)
                    == self.services()[k as int].characteristics@.len(),
            },
    {
        let mut j: usize = 0;
        let mut found = false;
        let len = self.services[k].characteristics.len();
        while j < len && !found
            invariant
                k < self.services@.len(),
                len == self.services@[k as int].characteristics@.len(),
                j <= len,
                forall|i: int|
                    0 <= i < j ==> !id_eq(
                        #[trigger] self.services@[k as int].characteristics@[i].id,
                        *id,
                    ),
                found ==> j < len && id_eq(
                    self.services@[k as int].characteristics@[j as int].id,
                    *id,
                ),
            decreases len - j + (if found { 0int } else { 1int }),
        {
            if self.services[k].characteristics[j].id.eq_id(id) {
                found = true;
            } else {
                j = j + 1;
            }
        }
        proof {
            lemma_find_characteristic_at(self.services@[k as int].characteristics@, *id, j as int);
        }
        if found {
            Some(j)
        } else {
            Option::<usize>::None
        }
    }

    /// Performs the one characteristic-set step on the service at index
    /// `k`: updates the data of the matching characteristic, appends a new
    /// wellformed one, or rejects unknown property bits.
    fn set_characteristic_at(&mut self, k: usize, characteristic: Characteristic) -> (result:
        Result<(), BleError>)
        requires
            k < old(self).services().len(),
        ensures
            Self::config_unchanged(*old(self), *final(self)),
            final(self).services().len() == old(self).services().len(),
            forall|i: int|
                0 <= i < old(self).services().len() && i != k ==> final(self).services()[i] == old(self).services()[i],
            final(self).services()[k as int].id == old(self).services()[k as int].id,
            final(self).services()[k as int].data == old(self).services()[k as int].data,
            final(self).services()[k as int].characteristics@ == Self::characteristics_after_set(
                old(self).services()[k as int].characteristics@,
                characteristic,
            ),
            match result {
                Ok(()) => Self::characteristics_set_error(
                    old(self).services()[k as int].characteristics@,
                    characteristic,
                ) is None,
                Err(e) => Self::characteristics_set_error(
                    old(self).services()[k as int].characteristics@,
                    characteristic,
                ) == Some(e),
            },
    {
        let ghost cs0 = self.services@[k as int].characteristics@;
        match self.find_characteristic_index(k, &characteristic.id) {
            Some(j) => {
                let service = &mut self.services[k];
                let charac = &mut service.characteristics[j];
                charac.data = characteristic.data;
                proof {
                    assert(final(self).services()[k as int].characteristics@ =~= cs0.update(
                        j as int,
                        Characteristic { data: characteristic.data, ..cs0[j as int] },
                    ));
                }
                Ok(())
            },
            _ => {
                if characteristic.properties & !PROPERTIES_MASK == 0 {
                    let service = &mut self.services[k];
                    service.characteristics.push(characteristic);
                    proof {
                        assert(final(self).services()[k as int].characteristics@ =~= cs0.push(
                            characteristic,
                        ));
                    }
                    Ok(())
                } else {
                    Err(BleError::PropertiesError)
                }
            },
        }
    }

    /// Sets a new characteristic, or updates the data of the existing one,
    /// on the service with identifier `service_id`. Fails when no such
    /// service is registered, or when a new characteristic carries unknown
    /// property bits.
    pub fn set_characteristic(&mut self, service_id: BleId, characteristic: Characteristic) -> (result: Result<(), BleError>)
        ensures
            Self::config_unchanged(*old(self), *final(self)),
            ({
                let k = find_service(old(self).services(), service_id);
                if k < old(self).services().len() {
                    &&& final(self).services().len() == old(self).services().len()
                    &&& (forall|i: int|
                        0 <= i < old(self).services().len() && i != k ==> final(self).services()[i]
                            == old(self).services()[i])
                    &&& final(self).services()[k].id == old(self).services()[k].id
                    &&& final(self).services()[k].data == old(self).services()[k].data
                    &&& final(self).services()[k].characteristics@
                        == Self::characteristics_after_set(
                        old(self).services()[k].characteristics@,
                        characteristic,
                    )
                    &&& (match result {
                        Ok(()) => Self::characteristics_set_error(
                            old(self).services()[k].characteristics@,
                            characteristic,
                        ) is None,
                        Err(e) => Self::characteristics_set_error(
                            old(self).services()[k].characteristics@,
                            characteristic,
                        ) == Some(e),
                    })
                } else {
                    &&& final(self).services() == old(self).services()
                    &&& result == Err::<(), BleError>(BleError::ServiceNotFound)
                }
            }),
    {
        match self.find_service_index(&service_id) {
            Some(k) => self.set_characteristic_at(k, characteristic),
            _ => Err(BleError::ServiceNotFound),
        }
    }

    /// Updates the data of the characteristic matching by identifier on
    /// the service at index `k`. Fails when no characteristic matches.
    fn try_to_update_characteristic(&mut self, k: usize, characteristic: Characteristic) -> (result: Result<(), BleError>)
        requires
            k < old(self).services().len(),
        ensures
            Self::config_unchanged(*old(self), *final(self)),
            ({
                let cs = old(self).services()[k as int].characteristics@;
                let j = find_characteristic(cs, characteristic.id);
                if j < cs.len() {
                    &&& final(self).services().len() == old(self).services().len()
                    &&& (forall|i: int|
                        0 <= i < old(self).services().len() && i != k ==> final(self).services()[i]
                            == old(self).services()[i])
                    &&& final(self).services()[k as int].id == old(self).services()[k as int].id
                    &&& final(self).services()[k as int].data == old(self).services()[k as int].data
                    &&& final(self).services()[k as int].characteristics@ == cs.update(
                        j,
                        Characteristic { data: characteristic.data, ..cs[j] },
                    )
                    &&& result is Ok
                } else {
                    &&& final(self).services() == old(self).services()
                    &&& result == Err::<(), BleError>(BleError::CharacteristicNotFound)
                }
            }),
    {
        let ghost cs0 = self.services@[k as int].characteristics@;
        match self.find_characteristic_index(k, &characteristic.id) {
            Some(j) => {
                let service = &mut self.services[k];
                let charac = &mut service.characteristics[j];
                charac.data = characteristic.data;
                proof {
                    assert(final(self).services()[k as int].characteristics@ =~= cs0.update(
                        j as int,
                        Characteristic { data: characteristic.data, ..cs0[j as int] },
                    ));
                }
                Ok(())
            },
            _ => Err(BleError::CharacteristicNotFound),
        }
    }

    /// Updates the data of an existing characteristic of the service with
    /// identifier `service_id` and publishes the change to connected
    /// clients. Fails when no such service or characteristic exists.
    pub fn notify_value(&mut self, service_id: BleId, characteristic: Characteristic) -> (result:
        Result<(), BleError>)
        ensures
            Self::config_unchanged(*old(self), *final(self)),
            ({
                let k = find_service(old(self).services(), service_id);
                if k < old(self).services().len() {
                    let cs = old(self).services()[k].characteristics@;
                    let j = find_characteristic(cs, characteristic.id);
                    if j < cs.len() {
                        &&& final(self).services().len() == old(self).services().len()
                        &&& (forall|i: int|
                            0 <= i < old(self).services().len() && i != k ==> final(self).services()[i] == old(self).services()[i])
                        &&& final(self).services()[k].id == old(self).services()[k].id
                        &&& final(self).services()[k].data == old(self).services()[k].data
                        &&& final(self).services()[k].characteristics@ == cs.update(
                            j,
                            Characteristic { data: characteristic.data, ..cs[j] },
                        )
                        &&& result is Ok
                    } else {
                        &&& final(self).services() == old(self).services()
                        &&& result == Err::<(), BleError>(BleError::CharacteristicNotFound)
                    }
                } else {
                    &&& final(self).services() == old(self).services()
                    &&& result == Err::<(), BleError>(BleError::ServiceNotFound)
                }
            }),
    {
        match self.find_service_index(&service_id) {
            Some(k) => self.try_to_update_characteristic(k, characteristic),
            _ => Err(BleError::ServiceNotFound),
        }
    }

    /// Sets or overwrites a service: an entry with the service's
    /// identifier is created if none is registered, and each
    /// characteristic of the service is then set on it in order, stopping
    /// at the first one that fails.
    pub fn set_service(&mut self, service: Service) -> (result: Result<(), BleError>)
        ensures
            Self::config_unchanged(*old(self), *final(self)),
            ({
                let k = find_service(old(self).services(), service.id);
                if k < old(self).services().len() {
                    &&& final(self).services().len() == old(self).services().len()
                    &&& (forall|i: int|
                        0 <= i < old(self).services().len() && i != k ==> final(self).services()[i]
                            == old(self).services()[i])
                    &&& final(self).services()[k].id == old(self).services()[k].id
                    &&& final(self).services()[k].data == old(self).services()[k].data
                    &&& final(self).services()[k].characteristics@
                        == Self::characteristics_after_set_all(
                        old(self).services()[k].characteristics@,
                        service.characteristics@,
                    )
                    &&& (match result {
                        Ok(()) => Self::characteristics_set_all_error(
                            old(self).services()[k].characteristics@,
                            service.characteristics@,
                        ) is None,
                        Err(e) => Self::characteristics_set_all_error(
                            old(self).services()[k].characteristics@,
                            service.characteristics@,
                        ) == Some(e),
                    })
                } else {
                    &&& final(self).services().len() == old(self).services().len() + 1
                    &&& (forall|i: int|
                        0 <= i < old(self).services().len() ==> final(self).services()[i] == old(self).services()[i])
                    &&& final(self).services().last().id == service.id
                    &&& final(self).services().last().data == service.data
                    &&& final(self).services().last().characteristics@
                        == Self::characteristics_after_set_all(
                        Seq::<Characteristic>::empty(),
                        service.characteristics@,
                    )
                    &&& (match result {
                        Ok(()) => Self::characteristics_set_all_error(
                            Seq::<Characteristic>::empty(),
                            service.characteristics@,
                        ) is None,
                        Err(e) => Self::characteristics_set_all_error(
                            Seq::<Characteristic>::empty(),
                            service.characteristics@,
                        ) == Some(e),
                    })
                }
            }),
    {
        let ghost pre = *self;
        let ghost svc_cs = service.characteristics@;
        let ghost k0 = find_service(pre.services(), service.id);
        let Service { id, data, mut characteristics } = service;
        let k = match self.find_service_index(&id) {
            Some(k) => k,
            _ => {
                let bare = Service { id, data, characteristics: Vec::new() };
                self.services.push(bare);
                self.services.len() - 1
            },
        };
        let ghost cs_start = self.services@[k as int].characteristics@;
        proof {
            if k0 < pre.services().len() {
                assert(cs_start == pre.services()[k0].characteristics@);
            } else {
                assert(cs_start =~= Seq::<Characteristic>::empty());
            }
        }
        while characteristics.len() > 0
            invariant
                pre == *old(self),
                svc_cs == service.characteristics@,
                k0 == find_service(pre.services(), service.id),
                k < self.services@.len(),
                Self::config_unchanged(pre, *self),
                self.services@.len() == (if k0 < pre.services().len() {
                    pre.services().len()
                } else {
                    pre.services().len() + 1
                }),
                k as int == (if k0 < pre.services().len() {
                    k0
                } else {
                    pre.services().len() as int
                }),
                forall|i: int|
                    0 <= i < pre.services().len() && i != k ==> #[trigger] self.services@[i]
                        == pre.services()[i],
                self.services@[k as int].id == (if k0 < pre.services().len() {
                    pre.services()[k0].id
                } else {
                    service.id
                }),
                self.services@[k as int].data == (if k0 < pre.services().len() {
                    pre.services()[k0].data
                } else {
                    service.data
                }),
                cs_start == (if k0 < pre.services().len() {
                    pre.services()[k0].characteristics@
                } else {
                    Seq::<Characteristic>::empty()
                }),
                Self::characteristics_after_set_all(cs_start, svc_cs)
                    == Self::characteristics_after_set_all(
                    self.services@[k as int].characteristics@,
                    characteristics@,
                ),
                Self::characteristics_set_all_error(cs_start, svc_cs)
                    == Self::characteristics_set_all_error(
                    self.services@[k as int].characteristics@,
                    characteristics@,
                ),
            decreases characteristics.len(),
        {
            let ghost cs_cur = self.services@[k as int].characteristics@;
            let ghost rest = characteristics@;
            let c = characteristics.remove(0);
            proof {
                assert(rest[0] == c);
                assert(characteristics@ =~= rest.drop_first());
            }
            let result = self.set_characteristic_at(k, c);
            match result {
                Ok(()) => {
                    proof {
                        assert(Self::characteristics_after_set_all(cs_cur, rest)
                            == Self::characteristics_after_set_all(
                            Self::characteristics_after_set(cs_cur, rest[0]),
                            rest.drop_first(),
                        ));
                    }
                },
                Err(e) => {
                    proof {
                        assert(Self::characteristics_set_error(cs_cur, rest[0]) == Some(e));
                        assert(Self::characteristics_after_set_all(cs_cur, rest) == cs_cur);
                        assert(Self::characteristics_set_all_error(cs_cur, rest) == Some(e));
                        assert(self.services@[k as int].characteristics@
                            == Self::characteristics_after_set(cs_cur, rest[0]));
                        assert(self.services@[k as int].characteristics@ == cs_cur);
                    }
                    return Err(e);
                },
            }
        }
        proof {
            assert(characteristics@ =~= Seq::<Characteristic>::empty());
        }
        Ok(())
    }

    /// The entry the BLE stack calls in interrupt context when a client
    /// connects: the event is queued for the run loop and the server's
    /// notifier wakes the loop. A full queue drops the event; the queue
    /// state itself is the record of the loss.
    pub fn on_connection(&mut self, info: ConnectionInformation) -> (woke: bool)
        ensures
            final(self).services() == old(self).services(),
            Self::advert_unchanged(*old(self), *final(self)),
            final(self).pending_disconnections() == old(self).pending_disconnections(),
            final(self).connections_handled() == old(self).connections_handled(),
            final(self).disconnections_handled() == old(self).disconnections_handled(),
            old(self).pending_connections().len() < old(self).connection_capacity() ==> final(self).pending_connections() == old(self).pending_connections().push(info),
            old(self).pending_connections().len() >= old(self).connection_capacity() ==> final(self).pending_connections() == old(self).pending_connections(),
            woke,
    {
        let _ = self.conn_queue.send_timeout(info, 1_000_000);
        true
    }

    /// The entry the BLE stack calls in interrupt context when a client
    /// disconnects, in the same way.
    pub fn on_disconnection(&mut self, info: ConnectionInformation) -> (woke: bool)
        ensures
            final(self).services() == old(self).services(),
            Self::advert_unchanged(*old(self), *final(self)),
            final(self).pending_connections() == old(self).pending_connections(),
            final(self).connections_handled() == old(self).connections_handled(),
            final(self).disconnections_handled() == old(self).disconnections_handled(),
            old(self).pending_disconnections().len() < old(self).disconnection_capacity() ==> final(self).pending_disconnections() == old(self).pending_disconnections().push(info),
            old(self).pending_disconnections().len() >= old(self).disconnection_capacity() ==> final(self).pending_disconnections() == old(self).pending_disconnections(),
            woke,
    {
        let _ = self.disc_queue.send_timeout(info, 1_000_000);
        true
    }

    /// Drains the queued connection events on the consumer thread and hands
    /// them back in arrival order, for the run loop to feed to the user's
    /// connection callback one at a time; the handled count records every
    /// event handed over.
    pub fn handle_connection_changes(&mut self) -> (events: Vec<ConnectionInformation>)
        ensures
            events@ == old(self).pending_connections(),
            final(self).pending_connections() == Seq::<ConnectionInformation>::empty(),
            final(self).pending_disconnections() == old(self).pending_disconnections(),
            final(self).connections_handled() == sat_add(
                old(self).connections_handled(),
                old(self).pending_connections().len(),
            ),
            final(self).disconnections_handled() == old(self).disconnections_handled(),
            final(self).services() == old(self).services(),
            Self::advert_unchanged(*old(self), *final(self)),
    {
        let mut events: Vec<ConnectionInformation> = Vec::new();
        loop
            invariant
                events@ + self.conn_queue.contents() == old(self).pending_connections(),
                self.connections_handled == sat_add(
                    old(self).connections_handled(),
                    events@.len(),
                ),
                self.disconnections_handled == old(self).disconnections_handled,
                self.disc_queue.contents() == old(self).pending_disconnections(),
                self.services == old(self).services,
                self.advertising_name == old(self).advertising_name,
                self.conn_queue.capacity() == old(self).connection_capacity(),
                self.disc_queue.capacity() == old(self).disconnection_capacity(),
                self.discoverable_mode == old(self).discoverable_mode,
                self.connection_mode == old(self).connection_mode,
                self.high_duty_cycle == old(self).high_duty_cycle,
                self.started == old(self).started,
            decreases self.conn_queue.contents().len(),
        {
            match self.conn_queue.try_recv() {
                Ok(info) => {
                    events.push(info);
                    self.connections_handled = if self.connections_handled < u64::MAX {
                        self.connections_handled + 1
                    } else {
                        self.connections_handled
                    };
                    proof {
                        assert(events@ + self.conn_queue.contents() == old(self).pending_connections());
                    }
                },
                Err(_) => {
                    proof {
                        assert(events@ =~= old(self).pending_connections());
                    }
                    return events;
                },
            }
        }
    }

    /// Drains the queued disconnection events, in the same way.
    pub fn handle_disconnection_changes(&mut self) -> (events: Vec<ConnectionInformation>)
        ensures
            events@ == old(self).pending_disconnections(),
            final(self).pending_disconnections() == Seq::<ConnectionInformation>::empty(),
            final(self).pending_connections() == old(self).pending_connections(),
            final(self).disconnections_handled() == sat_add(
                old(self).disconnections_handled(),
                old(self).pending_disconnections().len(),
            ),
            final(self).connections_handled() == old(self).connections_handled(),
            final(self).services() == old(self).services(),
            Self::advert_unchanged(*old(self), *final(self)),
    {
        let mut events: Vec<ConnectionInformation> = Vec::new();
        loop
            invariant
                events@ + self.disc_queue.contents() == old(self).pending_disconnections(),
                self.disconnections_handled == sat_add(
                    old(self).disconnections_handled(),
                    events@.len(),
                ),
                self.connections_handled == old(self).connections_handled,
                self.conn_queue.contents() == old(self).pending_connections(),
                self.services == old(self).services,
                self.advertising_name == old(self).advertising_name,
                self.conn_queue.capacity() == old(self).connection_capacity(),
                self.disc_queue.capacity() == old(self).disconnection_capacity(),
                self.discoverable_mode == old(self).discoverable_mode,
                self.connection_mode == old(self).connection_mode,
                self.high_duty_cycle == old(self).high_duty_cycle,
                self.started == old(self).started,
            decreases self.disc_queue.contents().len(),
        {
            match self.disc_queue.try_recv() {
                Ok(info) => {
                    events.push(info);
                    self.disconnections_handled = if self.disconnections_handled < u64::MAX {
                        self.disconnections_handled + 1
                    } else {
                        self.disconnections_handled
                    };
                    proof {
                        assert(events@ + self.disc_queue.contents() == old(self).pending_disconnections());
                    }
                },
                Err(_) => {
                    proof {
                        assert(events@ =~= old(self).pending_disconnections());
                    }
                    return events;
                },
            }
        }
    }

    /// Sets the discoverable mode of the advertisement.
    pub fn set_discoverable_mode(&mut self, disc_mode: DiscoverableMode) -> (res: &mut BleServer)
        ensures
            res.discoverable_mode() == disc_mode,
            res.services() == old(self).services(),
            *final(self) == *final(res),
    {
        self.discoverable_mode = disc_mode;
        self
    }

    /// Sets the connection mode of the advertisement.
    pub fn set_connection_mode(&mut self, conn_mode: ConnectionMode) -> (res: &mut BleServer)
        ensures
            res.connection_mode() == conn_mode,
            res.services() == old(self).services(),
            *final(self) == *final(res),
    {
        self.connection_mode = conn_mode;
        self
    }

    /// Sets a high advertising duty cycle: intervals between advertising
    /// packets in the range of 20 to 100 milliseconds. Valid only for a
    /// directed-connectable advertisement.
    pub fn set_high_advertising_duty_cycle(&mut self) -> (res: &mut BleServer)
        ensures
            res.high_duty_cycle(),
            res.services() == old(self).services(),
            *final(self) == *final(res),
    {
        self.high_duty_cycle = true;
        self
    }

    /// Sets a low advertising duty cycle: intervals between advertising
    /// packets in the range of 1,000 to 10,240 milliseconds. Valid only for
    /// a directed-connectable advertisement.
    pub fn set_low_advertising_duty_cycle(&mut self) -> (res: &mut BleServer)
        ensures
            !res.high_duty_cycle(),
            res.services() == old(self).services(),
            *final(self) == *final(res),
    {
        self.high_duty_cycle = false;
        self
    }

    /// Starts advertising the server's name and services.
    pub fn start(&mut self) -> (result: Result<(), BleError>)
        ensures
            result is Ok,
            final(self).started(),
            final(self).services() == old(self).services(),
            final(self).pending_connections() == old(self).pending_connections(),
            final(self).pending_disconnections() == old(self).pending_disconnections(),
    {
        self.started = true;
        Ok(())
    }
}

impl crate::microcontroller_src::interrupt_driver::InterruptDriver for BleServer {
    /// Consumes the server's pending updates: drains the queued connection
    /// and disconnection events on the consumer thread, handing every event
    /// to its user callback in arrival order, and never fails.
    fn update_interrupt(&mut self) -> (result: Result<
        (),
        crate::utils::esp32_framework_error::Esp32FrameworkError,
    >)
        ensures
            BleServer::server_drained(*old(self), *final(self)),
            result is Ok,
    {
        let _connections = self.handle_connection_changes();
        let _disconnections = self.handle_disconnection_changes();
        Ok(())
    }
}

} // verus!
