//! What holds of the way a topology travels from the real device to the
//! virtual peripheral.

use vstd::prelude::*;

use crate::flags::{PropertyFlags, INDICATE, NOTIFY, READ, WRITE, WRITE_WITHOUT_RESPONSE};
use crate::gatt_uuid::{uuid_parse, uuid_text};
use crate::native::{
    maps_to, native_distinct, NativeCharacteristic, NativeServiceView, PeripheralPropertiesView,
};
use crate::peripheral::{
    characteristic_uuids, lemma_characteristic_uuids_take, lemma_router_of_characteristic, occurs,
    Hooks, Security, VirtualCharacteristic, VirtualPeripheralView, VirtualServiceView, WriteHook,
};
use crate::topology::{CharacteristicView, DeviceView, ServiceView};

verus! {

impl PropertyFlags {
    /// The local hooks that the hardware flags allow: a read hook where the
    /// read flag is set, a write hook where either write flag is, the notify
    /// and the indicate hook where notify or indicate is.
    pub open spec fn hooks(self) -> Hooks {
        Hooks {
            read: if self.readable() {
                Some(Security::Insecure)
            } else {
                None
            },
            write: if self.writable() {
                Some(WriteHook::WithoutResponse)
            } else {
                None
            },
            notify: self.subscribable(),
            indicate: self.subscribable(),
        }
    }
}

/// How many characteristics the native services before the one at `index`
/// have.
pub open spec fn native_first_router(services: Seq<NativeServiceView>, index: int) -> nat
    decreases index,
{
    if index <= 0 {
        0
    } else {
        native_first_router(services, index - 1) + services[index - 1].characteristics.len()
    }
}

impl NativeCharacteristic {
    /// The virtual characteristic that mirrors the native one and feeds the
    /// router at `router`.
    pub open spec fn mirror(self, router: nat) -> VirtualCharacteristic {
        VirtualCharacteristic {
            uuid: self.uuid,
            hooks: self.properties.hooks(),
            router: router as usize,
        }
    }
}

impl NativeServiceView {
    /// The virtual service that mirrors the native one: the same UUID, and a
    /// mirror of every characteristic, in order, with routers numbered from
    /// `first_router`.
    pub open spec fn mirror(self, first_router: nat) -> VirtualServiceView {
        VirtualServiceView {
            uuid: self.uuid,
            primary: true,
            characteristics: Seq::new(
                self.characteristics.len(),
                |j: int| self.characteristics[j].mirror((first_router + j) as nat),
            ),
        }
    }
}

/// The virtual peripheral that mirrors the native topology.
pub open spec fn mirror(
    properties: PeripheralPropertiesView,
    services: Seq<NativeServiceView>,
) -> VirtualPeripheralView {
    VirtualPeripheralView {
        name: properties.display_name(),
        services: Seq::new(
            services.len(),
            |i: int| services[i].mirror(native_first_router(services, i)),
        ),
        advertised: services.map_values(|s: NativeServiceView| s.uuid),
    }
}

/// The capabilities of the topology model are those of the hardware flags, so
/// both allow the same hooks.
pub proof fn lemma_hooks_follow_flags(uuid: Seq<char>, properties: PropertyFlags)
    ensures
        CharacteristicView::from_native(uuid, properties).hooks() == properties.hooks(),
        properties.hooks().read is Some <==> properties.has(READ),
        properties.hooks().write is Some <==> properties.has(WRITE) || properties.has(
            WRITE_WITHOUT_RESPONSE,
        ),
        properties.hooks().notify <==> properties.has(NOTIFY) || properties.has(INDICATE),
        properties.hooks().indicate == properties.hooks().notify,
{
}

/// A characteristic with the notify flag alone can be subscribed to and
/// neither read nor written; one with a write flag, whichever of the two, can
/// be written.
pub proof fn lemma_capabilities_of_flags(properties: PropertyFlags)
    ensures
        properties.bits == NOTIFY ==> properties.subscribable() && !properties.readable()
            && !properties.writable(),
        properties.has(WRITE) ==> properties.writable(),
        properties.has(WRITE_WITHOUT_RESPONSE) ==> properties.writable(),
        properties.has(WRITE | WRITE_WITHOUT_RESPONSE) ==> properties.writable(),
        properties.bits == 0 ==> !properties.subscribable() && !properties.readable()
            && !properties.writable(),
{
    let bits = properties.bits;
    assert(bits == 0x10u8 ==> bits & 0x10u8 == 0x10u8 && bits & 0x02u8 != 0x02u8 && bits & 0x08u8
        != 0x08u8 && bits & 0x04u8 != 0x04u8) by (bit_vector);
    assert(bits & (0x08u8 | 0x04u8) == (0x08u8 | 0x04u8) ==> bits & 0x08u8 == 0x08u8)
        by (bit_vector);
    assert(bits == 0u8 ==> bits & 0x10u8 != 0x10u8 && bits & 0x20u8 != 0x20u8 && bits & 0x02u8
        != 0x02u8 && bits & 0x08u8 != 0x08u8 && bits & 0x04u8 != 0x04u8) by (bit_vector);
}

/// The virtual characteristics of a mapped service mirror the native ones, one
/// for one, as long as the native UUIDs differ.
proof fn lemma_characteristics_mirror(
    service: ServiceView,
    native: NativeServiceView,
    count: nat,
    first_router: nat,
)
    requires
        count <= native.characteristics.len(),
        native.distinct(),
        service.characteristics.len() == native.characteristics.len(),
        forall|j: int|
            0 <= j < native.characteristics.len() ==> {
                &&& uuid_of(#[trigger] service.characteristics[j]) == Some(
                    native.characteristics[j].uuid,
                )
                &&& service.characteristics[j].hooks() == native.characteristics[j].properties.hooks()
            },
    ensures
        service.virtual_characteristics(count, first_router) == Seq::new(
            count,
            |j: int| native.characteristics[j].mirror((first_router + j) as nat),
        ),
    decreases count,
{
    if count > 0 {
        lemma_characteristics_mirror(service, native, (count - 1) as nat, first_router);
        let earlier = service.virtual_characteristics((count - 1) as nat, first_router);
        assert(!occurs(earlier, native.characteristics[count - 1].uuid));
    }
}

/// The UUID that is read from the spelling of a characteristic's UUID.
pub open spec fn uuid_of(characteristic: CharacteristicView) -> Option<u128> {
    uuid_parse(characteristic.uuid)
}

/// The routers of a mapped device are numbered as the characteristics of the
/// native topology are.
proof fn lemma_first_router_follows_native(
    services: Seq<NativeServiceView>,
    device: DeviceView,
    index: int,
)
    requires
        0 <= index <= services.len(),
        device.services.len() == services.len(),
        forall|i: int|
            0 <= i < services.len() ==> (#[trigger] device.services[i]).characteristics.len()
                == services[i].characteristics.len(),
    ensures
        device.first_router(index) == native_first_router(services, index),
    decreases index,
{
    if index > 0 {
        lemma_first_router_follows_native(services, device, index - 1);
        lemma_characteristic_uuids_take(device.services, index - 1);
    }
}

/// The topology survives the round trip. Whatever topology model
/// `map_native_topology` makes of a native topology with unique UUIDs,
/// `build_virtual_peripheral` succeeds on it and builds the peripheral that
/// mirrors the native topology: the same services with the same UUIDs in the
/// same order, in each the same characteristics with the same UUIDs, and for
/// each characteristic exactly the hooks that its hardware flags allow.
pub proof fn lemma_topology_round_trip(
    properties: PeripheralPropertiesView,
    services: Seq<NativeServiceView>,
    device: DeviceView,
)
    requires
        maps_to(properties, services, device),
        native_distinct(services),
    ensures
        device.readable(),
        device.virtual_peripheral() == mirror(properties, services),
{
    assert forall|i: int| 0 <= i < device.services.len() implies ((
    #[trigger] device.services[i]).readable() && device.services[i].virtual_service(
        device.first_router(i),
    ) == services[i].mirror(native_first_router(services, i))) by {
        lemma_first_router_follows_native(services, device, i);
        lemma_characteristics_mirror(
            device.services[i],
            services[i],
            services[i].characteristics.len(),
            device.first_router(i),
        );
    }
    assert(device.virtual_peripheral().services =~= mirror(properties, services).services);
    assert(device.virtual_peripheral().advertised =~= mirror(properties, services).advertised);
}

/// After the round trip, the router that a virtual characteristic names is
/// the one bound to the UUID of the native characteristic it mirrors: the
/// mirror of the characteristic at `characteristic` of the service at
/// `service` names a router, and the router at that place is bound to the text
/// of that characteristic's UUID. The routers of the device are as many as a
/// vector can hold, as those that `build_virtual_peripheral` returns are.
pub proof fn lemma_round_trip_binds_routers(
    properties: PeripheralPropertiesView,
    services: Seq<NativeServiceView>,
    device: DeviceView,
    service: int,
    characteristic: int,
)
    requires
        maps_to(properties, services, device),
        characteristic_uuids(device.services).len() <= usize::MAX,
        0 <= service < services.len(),
        0 <= characteristic < services[service].characteristics.len(),
    ensures
        ({
            let router = native_first_router(services, service) + characteristic;
            &&& mirror(properties, services).services[service].characteristics[characteristic].router
                == router
            &&& router < characteristic_uuids(device.services).len()
            &&& characteristic_uuids(device.services)[router] == uuid_text(
                services[service].characteristics[characteristic].uuid,
            )
        }),
{
    lemma_first_router_follows_native(services, device, service);
    lemma_router_of_characteristic(device, service, characteristic);
    assert(device.services[service] == services[service].model());
}

} // verus!
