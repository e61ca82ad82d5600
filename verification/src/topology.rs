//! The topology model: the services and characteristics of a device, with what
//! each characteristic can do. It is the answer of the discovery call and the
//! blueprint of the virtual peripheral.

use vstd::prelude::*;

use crate::flags::PropertyFlags;

verus! {

/// A characteristic and the operations it supports.
#[derive(Clone, Debug, PartialEq, Eq)]
pub struct Characteristic {
    pub uuid: String,
    pub can_read: bool,
    pub can_write: bool,
    pub can_subscribe: bool,
}

/// A [`Characteristic`] as a mathematical value.
pub struct CharacteristicView {
    pub uuid: Seq<char>,
    pub can_read: bool,
    pub can_write: bool,
    pub can_subscribe: bool,
}

impl View for Characteristic {
    type V = CharacteristicView;

    open spec fn view(&self) -> CharacteristicView {
        CharacteristicView {
            uuid: self.uuid@,
            can_read: self.can_read,
            can_write: self.can_write,
            can_subscribe: self.can_subscribe,
        }
    }
}

/// A service: a group of characteristics.
#[derive(Clone, Debug, PartialEq, Eq)]
pub struct Service {
    pub uuid: String,
    pub characteristics: Vec<Characteristic>,
}

/// A [`Service`] as a mathematical value.
pub struct ServiceView {
    pub uuid: Seq<char>,
    pub characteristics: Seq<CharacteristicView>,
}

impl View for Service {
    type V = ServiceView;

    open spec fn view(&self) -> ServiceView {
        ServiceView {
            uuid: self.uuid@,
            characteristics: self.characteristics@.map_values(|c: Characteristic| c@),
        }
    }
}

/// A device: its identifier, its name and its services, in order.
#[derive(Clone, Debug, PartialEq, Eq)]
pub struct Device {
    pub id: String,
    pub display_name: String,
    pub services: Vec<Service>,
}

/// A [`Device`] as a mathematical value.
pub struct DeviceView {
    pub id: Seq<char>,
    pub display_name: Seq<char>,
    pub services: Seq<ServiceView>,
}

impl View for Device {
    type V = DeviceView;

    open spec fn view(&self) -> DeviceView {
        DeviceView {
            id: self.id@,
            display_name: self.display_name@,
            services: self.services@.map_values(|s: Service| s@),
        }
    }
}

impl CharacteristicView {
    /// The characteristic spelled `uuid` whose capabilities are derived from
    /// the hardware flags: readable where the read flag is set, writable where
    /// either write flag is, subscribable where notify or indicate is.
    pub open spec fn from_native(uuid: Seq<char>, properties: PropertyFlags) -> CharacteristicView {
        CharacteristicView {
            uuid,
            can_read: properties.readable(),
            can_write: properties.writable(),
            can_subscribe: properties.subscribable(),
        }
    }
}

impl ServiceView {
    /// No two characteristics of the service have the same UUID.
    pub open spec fn wf(self) -> bool {
        forall|a: int, b: int|
            0 <= a < b < self.characteristics.len() ==> self.characteristics[a].uuid
                != self.characteristics[b].uuid
    }
}

impl DeviceView {
    /// UUIDs are unique within their scope: no two services of the device and
    /// no two characteristics of one service have the same UUID.
    pub open spec fn wf(self) -> bool {
        &&& forall|a: int, b: int|
            0 <= a < b < self.services.len() ==> self.services[a].uuid != self.services[b].uuid
        &&& forall|i: int| 0 <= i < self.services.len() ==> (#[trigger] self.services[i]).wf()
    }
}

impl Characteristic {
    /// The characteristic spelled `uuid` with the capabilities that the
    /// hardware flags give it. A characteristic without any flag is valid and
    /// can do nothing.
    pub fn from_native(uuid: String, properties: PropertyFlags) -> (characteristic: Characteristic)
        ensures
            characteristic@ == CharacteristicView::from_native(uuid@, properties),
    {
        Characteristic {
            uuid,
            can_read: properties.contains(crate::flags::READ),
            can_write: properties.contains(crate::flags::WRITE) || properties.contains(
                crate::flags::WRITE_WITHOUT_RESPONSE,
            ),
            can_subscribe: properties.contains(crate::flags::NOTIFY) || properties.contains(
                crate::flags::INDICATE,
            ),
        }
    }
}

impl Service {
    /// Whether no two characteristics of the service have the same UUID.
    pub fn is_well_formed(&self) -> (ok: bool)
        ensures
            ok == self@.wf(),
    {
        let n = self.characteristics.len();
        let mut b: usize = 0;
        while b < n
            invariant
                n == self.characteristics.len(),
                b <= n,
                forall|x: int, y: int|
                    0 <= x < y < b ==> self@.characteristics[x].uuid
                        != self@.characteristics[y].uuid,
            decreases n - b,
        {
            let mut a: usize = 0;
            while a < b
                invariant
                    n == self.characteristics.len(),
                    a <= b < n,
                    forall|x: int|
                        0 <= x < a ==> self@.characteristics[x].uuid
                            != self@.characteristics[b as int].uuid,
                decreases b - a,
            {
                if self.characteristics[a].uuid == self.characteristics[b].uuid {
                    assert(self@.characteristics[a as int].uuid
                        == self@.characteristics[b as int].uuid);
                    return false;
                }
                a += 1;
            }
            b += 1;
        }
        true
    }
}

impl Device {
    /// Whether UUIDs are unique within their scope.
    pub fn is_well_formed(&self) -> (ok: bool)
        ensures
            ok == self@.wf(),
    {
        let n = self.services.len();
        let mut b: usize = 0;
        while b < n
            invariant
                n == self.services.len(),
                b <= n,
                forall|x: int, y: int|
                    0 <= x < y < b ==> self@.services[x].uuid != self@.services[y].uuid,
                forall|i: int| 0 <= i < b ==> (#[trigger] self@.services[i]).wf(),
            decreases n - b,
        {
            if !self.services[b].is_well_formed() {
                assert(!self@.services[b as int].wf());
                return false;
            }
            let mut a: usize = 0;
            while a < b
                invariant
                    n == self.services.len(),
                    a <= b < n,
                    forall|x: int|
                        0 <= x < a ==> self@.services[x].uuid != self@.services[b as int].uuid,
                decreases b - a,
            {
                if self.services[a].uuid == self.services[b].uuid {
                    assert(self@.services[a as int].uuid == self@.services[b as int].uuid);
                    return false;
                }
                a += 1;
            }
            b += 1;
        }
        true
    }
}

} // verus!
