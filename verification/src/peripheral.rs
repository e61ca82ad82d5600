//! The virtual peripheral that the client builds from the topology model: the
//! same tree of UUIDs, with the local hooks that the capabilities allow and one
//! event router per characteristic.

use vstd::prelude::*;

use crate::gatt_uuid::{parse_uuid, uuid_parse};
use crate::router::{EventRouter, RouterView};
use crate::topology::{Characteristic, CharacteristicView, Device, DeviceView, Service, ServiceView};

verus! {

/// Whether a hook asks the central for an encrypted link.
#[derive(Clone, Copy, Debug, PartialEq, Eq)]
pub enum Security {
    Secure,
    Insecure,
}

/// The kind of write hook of a virtual characteristic.
#[derive(Clone, Copy, Debug, PartialEq, Eq)]
pub enum WriteHook {
    /// Writes are acknowledged.
    WithResponse(Security),
    /// Writes are taken without an acknowledgement.
    WithoutResponse,
}

/// The local hooks of a virtual characteristic. A hook that is absent is not
/// registered with the peripheral stack, so a central cannot use it.
#[derive(Clone, Copy, Debug, PartialEq, Eq)]
pub struct Hooks {
    pub read: Option<Security>,
    pub write: Option<WriteHook>,
    pub notify: bool,
    pub indicate: bool,
}

/// A characteristic of the virtual peripheral.
#[derive(Clone, Copy, Debug, PartialEq, Eq)]
pub struct VirtualCharacteristic {
    pub uuid: u128,
    pub hooks: Hooks,
    /// The index of the router that the hooks feed, among the routers of the
    /// peripheral.
    pub router: usize,
}

/// A service of the virtual peripheral. It is well formed where no two of its
/// characteristics have the same UUID.
#[derive(Clone, Debug, PartialEq, Eq)]
pub struct VirtualService {
    pub uuid: u128,
    pub primary: bool,
    pub characteristics: Vec<VirtualCharacteristic>,
}

/// A [`VirtualService`] as a mathematical value.
pub struct VirtualServiceView {
    pub uuid: u128,
    pub primary: bool,
    pub characteristics: Seq<VirtualCharacteristic>,
}

impl View for VirtualService {
    type V = VirtualServiceView;

    open spec fn view(&self) -> VirtualServiceView {
        VirtualServiceView {
            uuid: self.uuid,
            primary: self.primary,
            characteristics: self.characteristics@,
        }
    }
}

impl VirtualServiceView {
    /// No two characteristics of the service have the same UUID.
    pub open spec fn wf(self) -> bool {
        forall|a: int, b: int|
            0 <= a < b < self.characteristics.len() ==> self.characteristics[a].uuid
                != self.characteristics[b].uuid
    }
}

/// The description of the virtual peripheral: the name it advertises, its
/// services, and the service UUIDs it advertises. It is well formed where its
/// services are and where it advertises the UUID of each of them, in order.
#[derive(Clone, Debug, PartialEq, Eq)]
pub struct VirtualPeripheral {
    pub name: String,
    pub services: Vec<VirtualService>,
    pub advertised: Vec<u128>,
}

/// A [`VirtualPeripheral`] as a mathematical value.
pub struct VirtualPeripheralView {
    pub name: Seq<char>,
    pub services: Seq<VirtualServiceView>,
    pub advertised: Seq<u128>,
}

impl View for VirtualPeripheral {
    type V = VirtualPeripheralView;

    open spec fn view(&self) -> VirtualPeripheralView {
        VirtualPeripheralView {
            name: self.name@,
            services: self.services@.map_values(|s: VirtualService| s@),
            advertised: self.advertised@,
        }
    }
}

impl VirtualPeripheralView {
    /// Every service is well formed, and the advertised UUIDs are those of the
    /// services, in order.
    pub open spec fn wf(self) -> bool {
        &&& forall|i: int| 0 <= i < self.services.len() ==> (#[trigger] self.services[i]).wf()
        &&& self.advertised.len() == self.services.len()
        &&& forall|i: int|
            0 <= i < self.services.len() ==> (#[trigger] self.advertised[i])
                == self.services[i].uuid
    }
}

/// A UUID of the topology that cannot be read, by its place.
#[derive(Clone, Copy, Debug, PartialEq, Eq)]
pub enum TopologyError {
    /// The UUID of the service at this index.
    InvalidServiceUuid { service: usize },
    /// The UUID of the characteristic at this index of the service at this index.
    InvalidCharacteristicUuid { service: usize, characteristic: usize },
}

impl TopologyError {
    /// The index of the service that the error lies in.
    pub open spec fn service_index(self) -> usize {
        match self {
            TopologyError::InvalidServiceUuid { service } => service,
            TopologyError::InvalidCharacteristicUuid { service, .. } => service,
        }
    }
}

impl CharacteristicView {
    /// The hooks that the capabilities allow: an insecure read hook where the
    /// characteristic can be read, a write hook without response where it can
    /// be written, and both the notify and the indicate hook where it can be
    /// subscribed to.
    pub open spec fn hooks(self) -> Hooks {
        Hooks {
            read: if self.can_read {
                Some(Security::Insecure)
            } else {
                None
            },
            write: if self.can_write {
                Some(WriteHook::WithoutResponse)
            } else {
                None
            },
            notify: self.can_subscribe,
            indicate: self.can_subscribe,
        }
    }
}

/// A characteristic with the UUID `uuid` is among `list`.
pub open spec fn occurs(list: Seq<VirtualCharacteristic>, uuid: u128) -> bool {
    exists|k: int| 0 <= k < list.len() && (#[trigger] list[k]).uuid == uuid
}

/// `list` with `characteristic` added at its end, unless a characteristic with
/// the same UUID is among `list` already.
pub open spec fn insert_distinct(
    list: Seq<VirtualCharacteristic>,
    characteristic: VirtualCharacteristic,
) -> Seq<VirtualCharacteristic> {
    if occurs(list, characteristic.uuid) {
        list
    } else {
        list.push(characteristic)
    }
}

impl ServiceView {
    /// The UUID of the service and those of its characteristics can be read.
    pub open spec fn readable(self) -> bool {
        &&& uuid_parse(self.uuid) is Some
        &&& forall|j: int|
            0 <= j < self.characteristics.len() ==> uuid_parse(
                #[trigger] self.characteristics[j].uuid,
            ) is Some
    }

    /// The virtual characteristics for the first `count` characteristics of
    /// the service, whose routers are numbered from `first_router`: each with
    /// its UUID as a value, its hooks and its router; of several with one UUID
    /// the first is kept.
    pub open spec fn virtual_characteristics(self, count: nat, first_router: nat) -> Seq<
        VirtualCharacteristic,
    >
        decreases count,
    {
        if count == 0 {
            Seq::empty()
        } else {
            let last = self.characteristics[count - 1];
            insert_distinct(
                self.virtual_characteristics((count - 1) as nat, first_router),
                VirtualCharacteristic {
                    uuid: uuid_parse(last.uuid).unwrap(),
                    hooks: last.hooks(),
                    router: (first_router + count - 1) as usize,
                },
            )
        }
    }

    /// The virtual service for the service, which is a primary one. The
    /// routers of its characteristics are numbered from `first_router`.
    pub open spec fn virtual_service(self, first_router: nat) -> VirtualServiceView {
        VirtualServiceView {
            uuid: uuid_parse(self.uuid).unwrap(),
            primary: true,
            characteristics: self.virtual_characteristics(
                self.characteristics.len(),
                first_router,
            ),
        }
    }

    /// `error` names the first UUID that cannot be read in the service, which
    /// is the service at `index`: its characteristics come first, in order,
    /// and its own UUID last.
    pub open spec fn unreadable_at(self, index: usize, error: TopologyError) -> bool {
        match error {
            TopologyError::InvalidCharacteristicUuid { service, characteristic } => {
                &&& service == index
                &&& characteristic < self.characteristics.len()
                &&& uuid_parse(self.characteristics[characteristic as int].uuid) is None
                &&& forall|j: int|
                    0 <= j < characteristic ==> uuid_parse(
                        #[trigger] self.characteristics[j].uuid,
                    ) is Some
            },
            TopologyError::InvalidServiceUuid { service } => {
                &&& service == index
                &&& uuid_parse(self.uuid) is None
                &&& forall|j: int|
                    0 <= j < self.characteristics.len() ==> uuid_parse(
                        #[trigger] self.characteristics[j].uuid,
                    ) is Some
            },
        }
    }
}

/// The UUIDs of all characteristics of `services` as the topology spells them,
/// service by service.
pub open spec fn characteristic_uuids(services: Seq<ServiceView>) -> Seq<Seq<char>>
    decreases services.len(),
{
    if services.len() == 0 {
        Seq::empty()
    } else {
        characteristic_uuids(services.drop_last()) + services.last().characteristics.map_values(
            |c: CharacteristicView| c.uuid,
        )
    }
}

impl DeviceView {
    /// Every UUID of the device can be read.
    pub open spec fn readable(self) -> bool {
        forall|i: int| 0 <= i < self.services.len() ==> (#[trigger] self.services[i]).readable()
    }

    /// `error` names the first UUID of the device that cannot be read, the
    /// services taken in order.
    pub open spec fn unreadable_at(self, error: TopologyError) -> bool {
        &&& error.service_index() < self.services.len()
        &&& forall|i: int|
            0 <= i < error.service_index() ==> (#[trigger] self.services[i]).readable()
        &&& self.services[error.service_index() as int].unreadable_at(
            error.service_index(),
            error,
        )
    }

    /// How many characteristics the services before the one at `index` have.
    /// The routers of the service at `index` are numbered from there.
    pub open spec fn first_router(self, index: int) -> nat {
        characteristic_uuids(self.services.take(index)).len()
    }

    /// The description of the virtual peripheral for the device: it advertises
    /// the device's name and the UUIDs of all its services.
    pub open spec fn virtual_peripheral(self) -> VirtualPeripheralView {
        VirtualPeripheralView {
            name: self.display_name,
            services: Seq::new(
                self.services.len(),
                |i: int| self.services[i].virtual_service(self.first_router(i)),
            ),
            advertised: self.services.map_values(|s: ServiceView| uuid_parse(s.uuid).unwrap()),
        }
    }
}

/// No two virtual characteristics of a service have the same UUID, whatever
/// the topology holds.
pub proof fn lemma_virtual_characteristics_distinct(
    service: ServiceView,
    count: nat,
    first_router: nat,
)
    ensures
        forall|a: int, b: int|
            0 <= a < b < service.virtual_characteristics(count, first_router).len()
                ==> service.virtual_characteristics(count, first_router)[a].uuid
                != service.virtual_characteristics(count, first_router)[b].uuid,
    decreases count,
{
    if count > 0 {
        lemma_virtual_characteristics_distinct(service, (count - 1) as nat, first_router);
    }
}

/// The virtual peripheral of a device is well formed, whatever the topology
/// holds.
pub proof fn lemma_virtual_peripheral_well_formed(device: DeviceView)
    ensures
        device.virtual_peripheral().wf(),
{
    let made = device.virtual_peripheral();
    assert forall|i: int| 0 <= i < made.services.len() implies (#[trigger] made.services[i]).wf() by {
        lemma_virtual_characteristics_distinct(
            device.services[i],
            device.services[i].characteristics.len(),
            device.first_router(i),
        );
    }
}

/// The characteristics of one more service come after those of the services
/// before it, and the characteristics of the first services of a device are
/// the first characteristics of the device.
pub proof fn lemma_characteristic_uuids_take(services: Seq<ServiceView>, index: int)
    requires
        0 <= index < services.len(),
    ensures
        characteristic_uuids(services.take(index + 1)) == characteristic_uuids(
            services.take(index),
        ) + services[index].characteristics.map_values(|c: CharacteristicView| c.uuid),
        characteristic_uuids(services.take(index + 1)).len() <= characteristic_uuids(
            services,
        ).len(),
        forall|k: int|
            0 <= k < characteristic_uuids(services.take(index + 1)).len() ==> characteristic_uuids(
                services.take(index + 1),
            )[k] == characteristic_uuids(services)[k],
    decreases services.len() - index,
{
    assert(services.take(index + 1).drop_last() =~= services.take(index));
    if index + 1 < services.len() {
        lemma_characteristic_uuids_take(services, index + 1);
    }
}

/// The router that a virtual characteristic names is the one bound to the
/// characteristic's UUID: the router of the characteristic at `characteristic`
/// of the service at `service` has the number of that service's first router
/// plus `characteristic`.
pub proof fn lemma_router_of_characteristic(device: DeviceView, service: int, characteristic: int)
    requires
        0 <= service < device.services.len(),
        0 <= characteristic < device.services[service].characteristics.len(),
    ensures
        device.first_router(service) + characteristic < characteristic_uuids(
            device.services,
        ).len(),
        characteristic_uuids(device.services)[device.first_router(service) + characteristic]
            == device.services[service].characteristics[characteristic].uuid,
{
    lemma_characteristic_uuids_take(device.services, service);
}

impl Hooks {
    /// The hooks that the capabilities of `characteristic` allow.
    pub fn for_characteristic(characteristic: &Characteristic) -> (hooks: Hooks)
        ensures
            hooks == characteristic@.hooks(),
    {
        Hooks {
            read: if characteristic.can_read {
                Some(Security::Insecure)
            } else {
                None
            },
            write: if characteristic.can_write {
                Some(WriteHook::WithoutResponse)
            } else {
                None
            },
            notify: characteristic.can_subscribe,
            indicate: characteristic.can_subscribe,
        }
    }
}

impl VirtualCharacteristic {
    /// The virtual characteristic for `characteristic`, whose UUID has been
    /// read as `uuid` and whose events go to the router at `router`.
    pub fn new(uuid: u128, characteristic: &Characteristic, router: usize) -> (made:
        VirtualCharacteristic)
        ensures
            made == (VirtualCharacteristic { uuid, hooks: characteristic@.hooks(), router }),
    {
        VirtualCharacteristic { uuid, hooks: Hooks::for_characteristic(characteristic), router }
    }
}

/// Whether a characteristic with the UUID `uuid` is among `list`.
pub fn contains_uuid(list: &Vec<VirtualCharacteristic>, uuid: u128) -> (found: bool)
    ensures
        found == occurs(list@, uuid),
{
    let n = list.len();
    let mut k: usize = 0;
    while k < n
        invariant
            n == list.len(),
            k <= n,
            forall|x: int| 0 <= x < k ==> (#[trigger] list[x]).uuid != uuid,
        decreases n - k,
    {
        if list[k].uuid == uuid {
            return true;
        }
        k += 1;
    }
    false
}

/// Adds `characteristic` at the end of `list` unless a characteristic with the
/// same UUID is among `list` already, and says whether it was added.
pub fn insert_characteristic(
    list: &mut Vec<VirtualCharacteristic>,
    characteristic: VirtualCharacteristic,
) -> (added: bool)
    ensures
        final(list)@ == insert_distinct(old(list)@, characteristic),
        added == !occurs(old(list)@, characteristic.uuid),
{
    if contains_uuid(list, characteristic.uuid) {
        false
    } else {
        list.push(characteristic);
        true
    }
}

/// The virtual service for `service`, the service at `index` of its device,
/// whose routers are numbered from `first_router`.
pub fn build_virtual_service(service: &Service, index: usize, first_router: usize) -> (built:
    Result<VirtualService, TopologyError>)
    requires
        first_router + service.characteristics.len() <= usize::MAX,
    ensures
        built is Ok <==> service@.readable(),
        match built {
            Ok(made) => made@ == service@.virtual_service(first_router as nat) && made@.wf(),
            Err(error) => service@.unreadable_at(index, error),
        },
{
    proof {
        lemma_virtual_characteristics_distinct(
            service@,
            service@.characteristics.len(),
            first_router as nat,
        );
    }
    let mut characteristics: Vec<VirtualCharacteristic> = Vec::new();
    let n = service.characteristics.len();
    let mut j: usize = 0;
    while j < n
        invariant
            n == service.characteristics.len(),
            first_router + n <= usize::MAX,
            j <= n,
            characteristics@ == service@.virtual_characteristics(j as nat, first_router as nat),
            forall|k: int|
                0 <= k < j ==> uuid_parse(#[trigger] service@.characteristics[k].uuid) is Some,
        decreases n - j,
    {
        let characteristic = &service.characteristics[j];
        match parse_uuid(characteristic.uuid.as_str()) {
            None => {
                assert(uuid_parse(service@.characteristics[j as int].uuid) is None);
                return Err(
                    TopologyError::InvalidCharacteristicUuid { service: index, characteristic: j },
                );
            },
            Some(uuid) => {
                insert_characteristic(
                    &mut characteristics,
                    VirtualCharacteristic::new(uuid, characteristic, first_router + j),
                );
            },
        }
        j += 1;
    }
    match parse_uuid(service.uuid.as_str()) {
        None => Err(TopologyError::InvalidServiceUuid { service: index }),
        Some(uuid) => Ok(VirtualService { uuid, primary: true, characteristics }),
    }
}

/// One router for every characteristic of `device`, service by service, each
/// bound to its characteristic's UUID, idle and with nothing waiting.
pub fn build_routers<S>(device: &Device) -> (routers: Vec<EventRouter<S>>)
    ensures
        routers.len() == characteristic_uuids(device@.services).len(),
        forall|k: int|
            0 <= k < routers.len() ==> (#[trigger] routers[k])@ == RouterView::<S>::fresh(
                characteristic_uuids(device@.services)[k],
            ),
{
    let mut routers: Vec<EventRouter<S>> = Vec::new();
    let n = device.services.len();
    let mut i: usize = 0;
    while i < n
        invariant
            n == device.services.len(),
            i <= n,
            routers.len() == characteristic_uuids(device@.services.take(i as int)).len(),
            forall|k: int|
                0 <= k < routers.len() ==> (#[trigger] routers[k])@ == RouterView::<S>::fresh(
                    characteristic_uuids(device@.services.take(i as int))[k],
                ),
        decreases n - i,
    {
        let service = &device.services[i];
        let ghost before = characteristic_uuids(device@.services.take(i as int));
        let ghost own = service@.characteristics.map_values(|c: CharacteristicView| c.uuid);
        proof {
            lemma_characteristic_uuids_take(device@.services, i as int);
        }
        let m = service.characteristics.len();
        let mut j: usize = 0;
        while j < m
            invariant
                m == service.characteristics.len(),
                j <= m,
                own == service@.characteristics.map_values(|c: CharacteristicView| c.uuid),
                routers.len() == before.len() + j,
                forall|k: int|
                    0 <= k < routers.len() ==> (#[trigger] routers[k])@ == RouterView::<S>::fresh(
                        (before + own)[k],
                    ),
            decreases m - j,
        {
            let router = EventRouter::new(service.characteristics[j].uuid.clone());
            routers.push(router);
            j += 1;
        }
        i += 1;
    }
    assert(device@.services.take(n as int) =~= device@.services);
    routers
}

/// Builds the virtual peripheral for the topology model: a virtual service for
/// every service, in order, each with a virtual characteristic for every
/// characteristic and the hooks that its capabilities allow, and one router per
/// characteristic. Each virtual characteristic names its router.
///
/// It fails where a UUID of the topology cannot be read, and names the first
/// such UUID.
pub fn build_virtual_peripheral<S>(device: &Device) -> (built: Result<
    (VirtualPeripheral, Vec<EventRouter<S>>),
    TopologyError,
>)
    ensures
        built is Ok <==> device@.readable(),
        match built {
            Ok((peripheral, routers)) => {
                &&& peripheral@ == device@.virtual_peripheral()
                &&& peripheral@.wf()
                &&& routers.len() == characteristic_uuids(device@.services).len()
                &&& forall|k: int|
                    0 <= k < routers.len() ==> (#[trigger] routers[k])@ == RouterView::<S>::fresh(
                        characteristic_uuids(device@.services)[k],
                    )
            },
            Err(error) => device@.unreadable_at(error),
        },
{
    proof {
        lemma_virtual_peripheral_well_formed(device@);
    }
    let routers = build_routers(device);
    let mut services: Vec<VirtualService> = Vec::new();
    let mut advertised: Vec<u128> = Vec::new();
    let n = device.services.len();
    let mut first_router: usize = 0;
    let mut i: usize = 0;
    while i < n
        invariant
            n == device.services.len(),
            i <= n,
            services.len() == i,
            advertised.len() == i,
            first_router == device@.first_router(i as int),
            characteristic_uuids(device@.services).len() <= usize::MAX,
            forall|k: int| 0 <= k < i ==> (#[trigger] device@.services[k]).readable(),
            forall|k: int|
                0 <= k < i ==> (#[trigger] services[k])@ == device@.services[k].virtual_service(
                    device@.first_router(k),
                ),
            forall|k: int|
                0 <= k < i ==> (#[trigger] advertised[k]) == uuid_parse(
                    device@.services[k].uuid,
                ).unwrap(),
        decreases n - i,
    {
        proof {
            lemma_characteristic_uuids_take(device@.services, i as int);
        }
        match build_virtual_service(&device.services[i], i, first_router) {
            Err(error) => {
                return Err(error);
            },
            Ok(service) => {
                advertised.push(service.uuid);
                services.push(service);
            },
        }
        first_router = first_router + device.services[i].characteristics.len();
        i += 1;
    }
    let peripheral = VirtualPeripheral {
        name: device.display_name.clone(),
        services,
        advertised,
    };
    assert(peripheral@.services =~= device@.virtual_peripheral().services);
    assert(peripheral@.advertised =~= device@.virtual_peripheral().advertised);
    Ok((peripheral, routers))
}

} // verus!
