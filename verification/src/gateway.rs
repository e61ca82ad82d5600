//! The decisions of the gateway service that sits next to the real device.
//!
//! The service answers discover, connect, read, write, subscribe and
//! unsubscribe. What it decides stands here: which characteristic a call
//! means, whether the characteristic allows the operation, which hardware
//! subscriptions are on, and which characteristic is busy. The hardware calls
//! themselves are made by the caller, which hands their results back.

use vstd::prelude::*;

use crate::error::{ConnectionError, RpcError, RpcErrorView};
use crate::flags::PropertyFlags;
use crate::gatt_uuid::{parse_uuid, uuid_parse};
use crate::native::{
    map_native_topology, maps_to, native_views, NativeService, NativeServiceView,
    PeripheralProperties, PeripheralPropertiesView,
};
use crate::topology::Device;

verus! {

/// The listen port of the gateway where none is given.
pub const DEFAULT_LISTEN_PORT: u16 = 5555;

/// The place of a characteristic in the native topology.
#[derive(Clone, Copy, Debug, PartialEq, Eq, Structural)]
pub struct Target {
    /// The index of the service.
    pub service: usize,
    /// The index of the characteristic within the service.
    pub characteristic: usize,
}

/// An operation on a characteristic that needs a capability.
#[derive(Clone, Copy, Debug, PartialEq, Eq, Structural)]
pub enum Operation {
    Read,
    Write,
    Subscribe,
}

/// How a hardware write is made.
#[derive(Clone, Copy, Debug, PartialEq, Eq, Structural)]
pub enum WriteType {
    /// The device confirms the write.
    WithResponse,
    /// The write is sent and not confirmed.
    WithoutResponse,
}

/// The hardware write that a write call asks for.
#[derive(Clone, Debug, PartialEq, Eq)]
pub struct HardwareWrite {
    pub target: Target,
    pub write_type: WriteType,
    pub data: Vec<u8>,
}

/// The answer to a connect call.
#[derive(Clone, Debug, PartialEq, Eq)]
pub struct ConnectResponse {
    pub is_ok: bool,
    pub error: Option<String>,
}

/// A [`ConnectResponse`] as a mathematical value.
pub struct ConnectResponseView {
    pub is_ok: bool,
    pub error: Option<Seq<char>>,
}

impl View for ConnectResponse {
    type V = ConnectResponseView;

    open spec fn view(&self) -> ConnectResponseView {
        ConnectResponseView {
            is_ok: self.is_ok,
            error: match self.error {
                Some(text) => Some(text@),
                None => None,
            },
        }
    }
}

impl PropertyFlags {
    /// The flags allow `operation`.
    pub open spec fn permits(self, operation: Operation) -> bool {
        match operation {
            Operation::Read => self.readable(),
            Operation::Write => self.writable(),
            Operation::Subscribe => self.subscribable(),
        }
    }
}

impl Target {
    /// The target lies within `services`.
    pub open spec fn within(self, services: Seq<NativeServiceView>) -> bool {
        &&& self.service < services.len()
        &&& self.characteristic < services[self.service as int].characteristics.len()
    }

    /// The hardware flags of the characteristic at the target.
    pub open spec fn flags(self, services: Seq<NativeServiceView>) -> PropertyFlags {
        services[self.service as int].characteristics[self.characteristic as int].properties
    }

    /// The UUID of the characteristic at the target.
    pub open spec fn uuid(self, services: Seq<NativeServiceView>) -> u128 {
        services[self.service as int].characteristics[self.characteristic as int].uuid
    }
}

/// No characteristic of `services` has the UUID `uuid`.
pub open spec fn unknown(services: Seq<NativeServiceView>, uuid: u128) -> bool {
    forall|i: int, j: int|
        0 <= i < services.len() && 0 <= j < services[i].characteristics.len() ==> (
        #[trigger] services[i].characteristics[j]).uuid != uuid
}

/// `target` is the first characteristic of `services` with the UUID `uuid`,
/// the services taken in order and the characteristics of each in order.
pub open spec fn first_match(services: Seq<NativeServiceView>, uuid: u128, target: Target) -> bool {
    &&& target.within(services)
    &&& target.uuid(services) == uuid
    &&& forall|i: int, j: int|
        0 <= i < services.len() && 0 <= j < services[i].characteristics.len() && (i
            < target.service || (i == target.service && j < target.characteristic)) ==> (
        #[trigger] services[i].characteristics[j]).uuid != uuid
}

/// `verdict` is the answer to a call that names the characteristic `uuid`
/// (`None` where the name could not be read as a UUID) and needs the
/// capability for `operation`: the first characteristic with that UUID where
/// it allows the operation, "unsupported" where it does not, and "not found"
/// where there is no such characteristic.
pub open spec fn verdict_for(
    services: Seq<NativeServiceView>,
    uuid: Option<u128>,
    operation: Operation,
    verdict: Result<Target, RpcErrorView>,
) -> bool {
    match verdict {
        Ok(target) => {
            &&& uuid matches Some(value)
            &&& first_match(services, value, target)
            &&& target.flags(services).permits(operation)
        },
        Err(RpcErrorView::NotFound) => uuid matches Some(value) ==> unknown(services, value),
        Err(RpcErrorView::Unsupported) => {
            &&& uuid matches Some(value)
            &&& exists|target: Target|
                first_match(services, value, target) && !target.flags(services).permits(operation)
        },
        Err(RpcErrorView::DeviceError(_)) => false,
    }
}

/// The view of the result of a decision.
pub open spec fn verdict_view(verdict: Result<Target, RpcError>) -> Result<Target, RpcErrorView> {
    match verdict {
        Ok(target) => Ok(target),
        Err(error) => Err(error@),
    }
}

/// A finite set of targets.
#[derive(Debug)]
pub struct TargetSet {
    items: Vec<Target>,
}

impl View for TargetSet {
    type V = Set<Target>;

    closed spec fn view(&self) -> Set<Target> {
        self.items@.to_set()
    }
}

impl TargetSet {
    /// The empty set.
    pub fn new() -> (set: TargetSet)
        ensures
            set@ == Set::<Target>::empty(),
    {
        let set = TargetSet { items: Vec::new() };
        set
    }

    /// Whether `target` is in the set.
    pub fn contains(&self, target: Target) -> (found: bool)
        ensures
            found == self@.contains(target),
    {
        let n = self.items.len();
        let mut k: usize = 0;
        while k < n
            invariant
                n == self.items.len(),
                k <= n,
                forall|x: int| 0 <= x < k ==> self.items[x] != target,
            decreases n - k,
        {
            if self.items[k] == target {
                return true;
            }
            k += 1;
        }
        false
    }

    /// Puts `target` into the set and says whether it was not in it before.
    pub fn insert(&mut self, target: Target) -> (added: bool)
        ensures
            final(self)@ == old(self)@.insert(target),
            added == !old(self)@.contains(target),
    {
        if self.contains(target) {
            false
        } else {
            let ghost before = self.items@;
            self.items.push(target);
            proof {
                lemma_contains_push(before, target);
            }
            true
        }
    }

    /// Takes `target` out of the set and says whether it was in it.
    pub fn remove(&mut self, target: Target) -> (removed: bool)
        ensures
            final(self)@ == old(self)@.remove(target),
            removed == old(self)@.contains(target),
    {
        let ghost before = self.items@;
        let mut kept: Vec<Target> = Vec::new();
        let mut removed = false;
        let n = self.items.len();
        let mut k: usize = 0;
        while k < n
            invariant
                n == self.items.len(),
                self.items@ == before,
                k <= n,
                forall|t: Target|
                    #[trigger] kept@.contains(t) <==> t != target && before.take(k as int).contains(
                        t,
                    ),
                removed == before.take(k as int).contains(target),
            decreases n - k,
        {
            let item = self.items[k];
            let ghost upto = before.take(k as int);
            let ghost kept_before = kept@;
            proof {
                assert(before.take(k + 1) =~= upto.push(item));
                lemma_contains_push(upto, item);
            }
            if item == target {
                removed = true;
            } else {
                kept.push(item);
                proof {
                    lemma_contains_push(kept_before, item);
                }
            }
            k += 1;
        }
        assert(before.take(n as int) =~= before);
        self.items = kept;
        removed
    }
}

/// What a sequence holds after one more element.
proof fn lemma_contains_push(list: Seq<Target>, item: Target)
    ensures
        forall|t: Target| #[trigger] list.push(item).contains(t) <==> list.contains(t) || t == item,
{
    assert forall|t: Target| #[trigger] list.push(item).contains(t) <==> list.contains(t) || t
        == item by {
        if list.contains(t) {
            let k = choose|k: int| 0 <= k < list.len() && list[k] == t;
            assert(list.push(item)[k] == t);
        }
        if t == item {
            assert(list.push(item)[list.len() as int] == t);
        }
    }
}

/// The gateway service of one device: the topology captured at discovery and
/// the device's properties, the hardware subscriptions that are on, and the
/// characteristics that a hardware call is busy with.
#[derive(Debug)]
pub struct BleProxyImpl {
    services: Vec<NativeService>,
    properties: PeripheralProperties,
    subscribed: TargetSet,
    busy: TargetSet,
}

/// A [`BleProxyImpl`] as a mathematical value.
pub struct GatewayView {
    pub services: Seq<NativeServiceView>,
    pub properties: PeripheralPropertiesView,
    /// The characteristics whose hardware notifications are on.
    pub subscribed: Set<Target>,
    /// The characteristics that a hardware call is under way for.
    pub busy: Set<Target>,
}

impl View for BleProxyImpl {
    type V = GatewayView;

    closed spec fn view(&self) -> GatewayView {
        GatewayView {
            services: native_views(self.services@),
            properties: self.properties@,
            subscribed: self.subscribed@,
            busy: self.busy@,
        }
    }
}

/// The result of a hardware call as the answer to the remote caller: a failure
/// of the hardware stack becomes a device error with the stack's message.
pub fn device_result<T>(outcome: Result<T, String>) -> (answer: Result<T, RpcError>)
    ensures
        match outcome {
            Ok(value) => answer == Ok::<T, RpcError>(value),
            Err(message) => answer matches Err(error) && error@ == RpcErrorView::DeviceError(
                message@,
            ),
        },
{
    match outcome {
        Ok(value) => Ok(value),
        Err(message) => Err(RpcError::DeviceError(message)),
    }
}

impl BleProxyImpl {
    /// The gateway of the device with the given topology and properties, with
    /// no subscription on and no characteristic busy.
    pub fn new(services: Vec<NativeService>, properties: PeripheralProperties) -> (gateway:
        BleProxyImpl)
        ensures
            gateway@ == (GatewayView {
                services: native_views(services@),
                properties: properties@,
                subscribed: Set::empty(),
                busy: Set::empty(),
            }),
    {
        BleProxyImpl { services, properties, subscribed: TargetSet::new(), busy: TargetSet::new() }
    }

    /// Answers a discover call with the topology model of the device. The call
    /// changes nothing, so every call gets the same answer.
    pub fn discover_device(&self) -> (device: Device)
        ensures
            maps_to(self@.properties, self@.services, device@),
    {
        map_native_topology(&self.properties, &self.services)
    }

    /// Answers a connect call, given how the attempt to connect to the device
    /// went. A failed attempt is reported with its reason; nothing is retried.
    pub fn connect_to_device(&self, attempt: Result<(), ConnectionError>) -> (response:
        ConnectResponse)
        ensures
            response@ == (ConnectResponseView {
                is_ok: attempt is Ok,
                error: match attempt {
                    Ok(_) => None,
                    Err(error) => Some(error@),
                },
            }),
    {
        match attempt {
            Ok(_) => ConnectResponse { is_ok: true, error: None },
            Err(error) => ConnectResponse { is_ok: false, error: Some(error.reason) },
        }
    }

    /// The first characteristic with the UUID `uuid`, the services taken in
    /// order and the characteristics of each in order.
    pub fn locate(&self, uuid: u128) -> (found: Option<Target>)
        ensures
            match found {
                Some(target) => first_match(self@.services, uuid, target),
                None => unknown(self@.services, uuid),
            },
    {
        let n = self.services.len();
        let mut i: usize = 0;
        while i < n
            invariant
                n == self.services.len(),
                i <= n,
                forall|a: int, b: int|
                    0 <= a < i && 0 <= b < self@.services[a].characteristics.len() ==> (
                    #[trigger] self@.services[a].characteristics[b]).uuid != uuid,
            decreases n - i,
        {
            let service = &self.services[i];
            let m = service.characteristics.len();
            let mut j: usize = 0;
            while j < m
                invariant
                    m == service.characteristics.len(),
                    j <= m,
                    i < self.services.len(),
                    service@ == self@.services[i as int],
                    forall|a: int, b: int|
                        0 <= a < i && 0 <= b < self@.services[a].characteristics.len() ==> (
                        #[trigger] self@.services[a].characteristics[b]).uuid != uuid,
                    forall|b: int| 0 <= b < j ==> (#[trigger] service.characteristics[b]).uuid != uuid,
                decreases m - j,
            {
                if service.characteristics[j].uuid == uuid {
                    return Some(Target { service: i, characteristic: j });
                }
                j += 1;
            }
            i += 1;
        }
        None
    }

    /// The UUIDs of the service and of the characteristic at `target`, if
    /// there is one.
    pub fn native_uuids(&self, target: Target) -> (uuids: Option<(u128, u128)>)
        ensures
            uuids == if target.within(self@.services) {
                Some((self@.services[target.service as int].uuid, target.uuid(self@.services)))
            } else {
                None
            },
    {
        if target.service < self.services.len() {
            let service = &self.services[target.service];
            if target.characteristic < service.characteristics.len() {
                return Some((service.uuid, service.characteristics[target.characteristic].uuid));
            }
        }
        None
    }

    /// Decides a call that names the characteristic `uuid` and needs the
    /// capability for `operation`. `uuid` is `None` where the name could not be
    /// read as a UUID, which no characteristic has.
    pub fn authorize(&self, uuid: Option<u128>, operation: Operation) -> (verdict: Result<
        Target,
        RpcError,
    >)
        ensures
            verdict_for(self@.services, uuid, operation, verdict_view(verdict)),
    {
        let value = match uuid {
            None => {
                return Err(RpcError::NotFound);
            },
            Some(value) => value,
        };
        match self.locate(value) {
            None => Err(RpcError::NotFound),
            Some(target) => {
                let flags = self.services[target.service].characteristics[target.characteristic].properties;
                let allowed = match operation {
                    Operation::Read => flags.contains(crate::flags::READ),
                    Operation::Write => flags.contains(crate::flags::WRITE) || flags.contains(
                        crate::flags::WRITE_WITHOUT_RESPONSE,
                    ),
                    Operation::Subscribe => flags.contains(crate::flags::NOTIFY) || flags.contains(
                        crate::flags::INDICATE,
                    ),
                };
                if allowed {
                    Ok(target)
                } else {
                    Err(RpcError::Unsupported)
                }
            },
        }
    }

    /// Decides a read call: the characteristic to read from the hardware, or
    /// why the call is refused.
    pub fn read(&self, characteristic_uuid: &str) -> (verdict: Result<Target, RpcError>)
        ensures
            verdict_for(
                self@.services,
                uuid_parse(characteristic_uuid@),
                Operation::Read,
                verdict_view(verdict),
            ),
    {
        self.authorize(parse_uuid(characteristic_uuid), Operation::Read)
    }

    /// Decides a write call: the hardware write to make, acknowledged where
    /// `ack` is set and fire-and-forget otherwise, or why the call is refused.
    pub fn write(&self, characteristic_uuid: &str, ack: bool, data: Vec<u8>) -> (verdict: Result<
        HardwareWrite,
        RpcError,
    >)
        ensures
            verdict_for(
                self@.services,
                uuid_parse(characteristic_uuid@),
                Operation::Write,
                match verdict {
                    Ok(write) => Ok(write.target),
                    Err(error) => Err(error@),
                },
            ),
            verdict matches Ok(write) ==> write.data@ == data@ && write.write_type == (if ack {
                WriteType::WithResponse
            } else {
                WriteType::WithoutResponse
            }),
    {
        match self.authorize(parse_uuid(characteristic_uuid), Operation::Write) {
            Err(error) => Err(error),
            Ok(target) => Ok(
                HardwareWrite {
                    target,
                    write_type: if ack {
                        WriteType::WithResponse
                    } else {
                        WriteType::WithoutResponse
                    },
                    data,
                },
            ),
        }
    }

    /// Decides a subscribe call. Where it is accepted, the hardware
    /// notifications of the characteristic are to be switched on, and the
    /// gateway records that they are on. A refused call changes nothing.
    pub fn subscribe(&mut self, characteristic_uuid: &str) -> (verdict: Result<Target, RpcError>)
        ensures
            verdict_for(
                old(self)@.services,
                uuid_parse(characteristic_uuid@),
                Operation::Subscribe,
                verdict_view(verdict),
            ),
            final(self)@ == (GatewayView {
                subscribed: match verdict {
                    Ok(target) => old(self)@.subscribed.insert(target),
                    Err(_) => old(self)@.subscribed,
                },
                ..old(self)@
            }),
    {
        let verdict = self.authorize(parse_uuid(characteristic_uuid), Operation::Subscribe);
        if let Ok(target) = &verdict {
            self.subscribed.insert(*target);
        }
        verdict
    }

    /// Decides an unsubscribe call. Where it is accepted, the hardware
    /// notifications of the characteristic are to be switched off, and the
    /// gateway records that they are off. A refused call changes nothing.
    pub fn unsubscribe(&mut self, characteristic_uuid: &str) -> (verdict: Result<Target, RpcError>)
        ensures
            verdict_for(
                old(self)@.services,
                uuid_parse(characteristic_uuid@),
                Operation::Subscribe,
                verdict_view(verdict),
            ),
            final(self)@ == (GatewayView {
                subscribed: match verdict {
                    Ok(target) => old(self)@.subscribed.remove(target),
                    Err(_) => old(self)@.subscribed,
                },
                ..old(self)@
            }),
    {
        let verdict = self.authorize(parse_uuid(characteristic_uuid), Operation::Subscribe);
        if let Ok(target) = &verdict {
            self.subscribed.remove(*target);
        }
        verdict
    }

    /// Records that the notification stream of `target` was dropped, and says
    /// whether the hardware notifications are still on and have to be switched
    /// off now. After an unsubscribe they are off already.
    pub fn stream_dropped(&mut self, target: Target) -> (disable: bool)
        ensures
            disable == old(self)@.subscribed.contains(target),
            final(self)@ == (GatewayView {
                subscribed: old(self)@.subscribed.remove(target),
                ..old(self)@
            }),
    {
        self.subscribed.remove(target)
    }

    /// Whether the hardware notifications of `target` are on.
    pub fn is_subscribed(&self, target: Target) -> (on: bool)
        ensures
            on == self@.subscribed.contains(target),
    {
        self.subscribed.contains(target)
    }

    /// Whether a value that the hardware reports for the characteristic `uuid`
    /// belongs to the notification stream of `target`: it does where `target`
    /// is a characteristic with that UUID whose notifications are on.
    pub fn carries(&self, target: Target, uuid: u128) -> (belongs: bool)
        ensures
            belongs == (target.within(self@.services) && target.uuid(self@.services) == uuid
                && self@.subscribed.contains(target)),
    {
        match self.native_uuids(target) {
            Some((_, own)) => own == uuid && self.subscribed.contains(target),
            None => false,
        }
    }

    /// Asks for the hardware on behalf of a call on `target`. The call may go
    /// ahead where no other call on the same characteristic is under way, and
    /// the characteristic is busy from then on; else it has to wait. Calls on
    /// other characteristics do not matter.
    pub fn begin(&mut self, target: Target) -> (admitted: bool)
        ensures
            admitted == !old(self)@.busy.contains(target),
            final(self)@ == (GatewayView { busy: old(self)@.busy.insert(target), ..old(self)@ }),
    {
        self.busy.insert(target)
    }

    /// Whether a hardware call on `target` is under way.
    pub fn is_busy(&self, target: Target) -> (busy: bool)
        ensures
            busy == self@.busy.contains(target),
    {
        self.busy.contains(target)
    }

    /// Records that the hardware call on `target` is over.
    pub fn finish(&mut self, target: Target)
        ensures
            final(self)@ == (GatewayView { busy: old(self)@.busy.remove(target), ..old(self)@ }),
    {
        self.busy.remove(target);
    }
}

} // verus!
