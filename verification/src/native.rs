//! The topology as the central stack reports it, and its mapping to the
//! topology model.

use vstd::prelude::*;
use vstd::string::StringExecFns;

use crate::flags::PropertyFlags;
use crate::gatt_uuid::{format_uuid, uuid_parse, uuid_text};
use crate::topology::{
    Characteristic, CharacteristicView, Device, DeviceView, Service, ServiceView,
};

verus! {

/// A characteristic of the real device: its UUID and its hardware flags.
#[derive(Clone, Copy, Debug, PartialEq, Eq, Structural)]
pub struct NativeCharacteristic {
    pub uuid: u128,
    pub properties: PropertyFlags,
}

/// A service of the real device.
#[derive(Clone, Debug, PartialEq, Eq)]
pub struct NativeService {
    pub uuid: u128,
    pub primary: bool,
    pub characteristics: Vec<NativeCharacteristic>,
}

/// A [`NativeService`] as a mathematical value.
pub struct NativeServiceView {
    pub uuid: u128,
    pub primary: bool,
    pub characteristics: Seq<NativeCharacteristic>,
}

impl View for NativeService {
    type V = NativeServiceView;

    open spec fn view(&self) -> NativeServiceView {
        NativeServiceView {
            uuid: self.uuid,
            primary: self.primary,
            characteristics: self.characteristics@,
        }
    }
}

/// What the central stack knows of the device itself.
#[derive(Clone, Debug, PartialEq, Eq)]
pub struct PeripheralProperties {
    /// The hardware address, as text.
    pub address: String,
    /// The name the device advertises, if it advertises one.
    pub local_name: Option<String>,
}

/// [`PeripheralProperties`] as a mathematical value.
pub struct PeripheralPropertiesView {
    pub address: Seq<char>,
    pub local_name: Option<Seq<char>>,
}

impl View for PeripheralProperties {
    type V = PeripheralPropertiesView;

    open spec fn view(&self) -> PeripheralPropertiesView {
        PeripheralPropertiesView {
            address: self.address@,
            local_name: match self.local_name {
                Some(name) => Some(name@),
                None => None,
            },
        }
    }
}

/// The services of a native topology as mathematical values.
pub open spec fn native_views(services: Seq<NativeService>) -> Seq<NativeServiceView> {
    services.map_values(|s: NativeService| s@)
}

impl PeripheralPropertiesView {
    /// The name under which the device is shown: the advertised name, or
    /// "unknown" where the device advertises none.
    pub open spec fn display_name(self) -> Seq<char> {
        match self.local_name {
            Some(name) => name,
            None => "unknown"@,
        }
    }
}

impl NativeServiceView {
    /// No two characteristics of the service have the same UUID.
    pub open spec fn distinct(self) -> bool {
        forall|a: int, b: int|
            0 <= a < b < self.characteristics.len() ==> self.characteristics[a].uuid
                != self.characteristics[b].uuid
    }

    /// The service in the topology model.
    pub open spec fn model(self) -> ServiceView {
        ServiceView {
            uuid: uuid_text(self.uuid),
            characteristics: self.characteristics.map_values(
                |c: NativeCharacteristic|
                    CharacteristicView::from_native(uuid_text(c.uuid), c.properties),
            ),
        }
    }
}

/// UUIDs are unique within their scope in the native topology.
pub open spec fn native_distinct(services: Seq<NativeServiceView>) -> bool {
    &&& forall|a: int, b: int|
        0 <= a < b < services.len() ==> services[a].uuid != services[b].uuid
    &&& forall|i: int| 0 <= i < services.len() ==> (#[trigger] services[i]).distinct()
}

/// The topology model of a device with the given properties and services.
pub open spec fn device_model(
    properties: PeripheralPropertiesView,
    services: Seq<NativeServiceView>,
) -> DeviceView {
    DeviceView {
        id: properties.address,
        display_name: properties.display_name(),
        services: services.map_values(|s: NativeServiceView| s.model()),
    }
}

/// Every UUID of `device` is spelled so that it is read back as the UUID at
/// the same place of the native topology.
pub open spec fn spells(device: DeviceView, services: Seq<NativeServiceView>) -> bool {
    &&& device.services.len() == services.len()
    &&& forall|i: int|
        0 <= i < services.len() ==> {
            &&& uuid_parse(#[trigger] device.services[i].uuid) == Some(services[i].uuid)
            &&& device.services[i].characteristics.len() == services[i].characteristics.len()
        }
    &&& forall|i: int, j: int|
        0 <= i < services.len() && 0 <= j < services[i].characteristics.len() ==> uuid_parse(
            #[trigger] device.services[i].characteristics[j].uuid,
        ) == Some(services[i].characteristics[j].uuid)
}

/// `device` is the topology model of the native topology: it is what
/// [`map_native_topology`] returns for it.
pub open spec fn maps_to(
    properties: PeripheralPropertiesView,
    services: Seq<NativeServiceView>,
    device: DeviceView,
) -> bool {
    &&& device == device_model(properties, services)
    &&& spells(device, services)
}

/// Where the native UUIDs are unique within their scope, so are the UUIDs of
/// the topology model made of them.
pub proof fn lemma_model_keeps_uuids_apart(
    properties: PeripheralPropertiesView,
    services: Seq<NativeServiceView>,
    device: DeviceView,
)
    requires
        maps_to(properties, services, device),
        native_distinct(services),
    ensures
        device.wf(),
{
}

/// The service of the topology model for a native service.
fn map_native_service(native: &NativeService) -> (service: Service)
    ensures
        service@ == native@.model(),
        uuid_parse(service@.uuid) == Some(native.uuid),
        forall|j: int|
            0 <= j < native.characteristics.len() ==> uuid_parse(
                #[trigger] service@.characteristics[j].uuid,
            ) == Some(native.characteristics[j].uuid),
{
    let mut characteristics: Vec<Characteristic> = Vec::new();
    let n = native.characteristics.len();
    let mut j: usize = 0;
    while j < n
        invariant
            n == native.characteristics.len(),
            j <= n,
            characteristics.len() == j,
            forall|k: int|
                0 <= k < j ==> (#[trigger] characteristics[k])@ == CharacteristicView::from_native(
                    uuid_text(native.characteristics[k].uuid),
                    native.characteristics[k].properties,
                ),
            forall|k: int|
                0 <= k < j ==> uuid_parse((#[trigger] characteristics[k]).uuid@) == Some(
                    native.characteristics[k].uuid,
                ),
        decreases n - j,
    {
        let c = native.characteristics[j];
        let text = format_uuid(c.uuid);
        characteristics.push(Characteristic::from_native(text, c.properties));
        j += 1;
    }
    let service = Service { uuid: format_uuid(native.uuid), characteristics };
    assert(service@.characteristics =~= native@.model().characteristics);
    service
}

/// Maps the topology that the central stack reports to the topology model.
///
/// Services and characteristics keep their order. Each UUID is written as
/// text. A characteristic can be read where the hardware "readable" flag is
/// set, written where "writable" or "writable-without-response" is, and
/// subscribed to where "notifiable" or "indicatable" is; without any flag it
/// can do nothing, which is valid. The device is named "unknown" where it
/// advertises no name. There is no error case.
pub fn map_native_topology(properties: &PeripheralProperties, services: &Vec<NativeService>) -> (device:
    Device)
    ensures
        maps_to(properties@, native_views(services@), device@),
{
    let mut mapped: Vec<Service> = Vec::new();
    let n = services.len();
    let mut i: usize = 0;
    while i < n
        invariant
            n == services.len(),
            i <= n,
            mapped.len() == i,
            forall|k: int| 0 <= k < i ==> (#[trigger] mapped[k])@ == services[k]@.model(),
            forall|k: int|
                0 <= k < i ==> uuid_parse((#[trigger] mapped[k])@.uuid) == Some(services[k].uuid),
            forall|k: int, j: int|
                0 <= k < i && 0 <= j < services[k].characteristics.len() ==> uuid_parse(
                    #[trigger] mapped[k]@.characteristics[j].uuid,
                ) == Some(services[k].characteristics[j].uuid),
        decreases n - i,
    {
        let service = map_native_service(&services[i]);
        mapped.push(service);
        i += 1;
    }
    let display_name = match &properties.local_name {
        Some(name) => name.clone(),
        None => String::from_str("unknown"),
    };
    let device = Device { id: properties.address.clone(), display_name, services: mapped };
    assert(device@.services =~= device_model(properties@, native_views(services@)).services);
    device
}

} // verus!
