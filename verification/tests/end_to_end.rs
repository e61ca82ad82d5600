use ble_over_ip::error::{RemoteStatus, RpcError};
use ble_over_ip::flags::{PropertyFlags, NOTIFY, READ, WRITE};
use ble_over_ip::gateway::{device_result, BleProxyImpl, Target, WriteType};
use ble_over_ip::native::{NativeCharacteristic, NativeService, PeripheralProperties};
use ble_over_ip::peripheral::{build_virtual_peripheral, Security, WriteHook};
use ble_over_ip::router::{
    Command, Event, EventRouter, Input, Interaction, Outcome, Request, Response,
};

const S1: u128 = 0x0000180f_0000_1000_8000_00805f9b34fb;
const C1: u128 = 0x00002a19_0000_1000_8000_00805f9b34fb;
const C1_TEXT: &str = "00002a19-0000-1000-8000-00805f9b34fb";

/// The real device and the gateway next to it, with a record of the hardware
/// calls that were made.
struct Remote {
    gateway: BleProxyImpl,
    value: Vec<u8>,
    reads: Vec<Target>,
    writes: Vec<(Target, WriteType, Vec<u8>)>,
    calls: Vec<Request>,
    fail_hardware: bool,
}

impl Remote {
    fn new() -> Remote {
        let services = vec![NativeService {
            uuid: S1,
            primary: true,
            characteristics: vec![NativeCharacteristic {
                uuid: C1,
                properties: PropertyFlags::from_bits(READ | WRITE | NOTIFY),
            }],
        }];
        let properties = PeripheralProperties {
            address: String::from("AA:BB:CC:DD:EE:FF"),
            local_name: Some(String::from("sensor")),
        };
        Remote {
            gateway: BleProxyImpl::new(services, properties),
            value: vec![0x2a],
            reads: Vec::new(),
            writes: Vec::new(),
            calls: Vec::new(),
            fail_hardware: false,
        }
    }

    fn serve(&mut self, request: Request) -> Result<Vec<u8>, RemoteStatus> {
        self.calls.push(request.clone());
        let answer: Result<Vec<u8>, RpcError> = match request {
            Request::Read { characteristic_uuid } => {
                match self.gateway.read(&characteristic_uuid) {
                    Err(error) => Err(error),
                    Ok(target) => {
                        assert!(self.gateway.begin(target));
                        self.reads.push(target);
                        let outcome = if self.fail_hardware {
                            Err(String::from("Not connected"))
                        } else {
                            Ok(self.value.clone())
                        };
                        self.gateway.finish(target);
                        device_result(outcome)
                    }
                }
            }
            Request::Write { characteristic_uuid, ack, data } => {
                match self.gateway.write(&characteristic_uuid, ack, data) {
                    Err(error) => Err(error),
                    Ok(write) => {
                        assert!(self.gateway.begin(write.target));
                        self.value = write.data.clone();
                        self.writes.push((write.target, write.write_type, write.data));
                        self.gateway.finish(write.target);
                        device_result(Ok(Vec::new()))
                    }
                }
            }
            Request::Subscribe { characteristic_uuid, .. } => {
                self.gateway.subscribe(&characteristic_uuid).map(|_| Vec::new())
            }
            Request::Unsubscribe { characteristic_uuid, .. } => {
                self.gateway.unsubscribe(&characteristic_uuid).map(|_| Vec::new())
            }
        };
        answer.map_err(|error| error.to_status())
    }
}

fn call(step_command: Command) -> Request {
    match step_command {
        Command::Call(request) => request,
        other => panic!("expected a call, got {:?}", other),
    }
}

fn bridge() -> (Remote, EventRouter<u32>) {
    let remote = Remote::new();
    let device = remote.gateway.discover_device();
    let (peripheral, mut routers) = build_virtual_peripheral::<u32>(&device).unwrap();
    assert_eq!(peripheral.name, "sensor");
    assert_eq!(peripheral.advertised, vec![S1]);
    assert_eq!(peripheral.services.len(), 1);
    assert_eq!(peripheral.services[0].uuid, S1);
    assert_eq!(peripheral.services[0].characteristics.len(), 1);
    let c1 = peripheral.services[0].characteristics[0];
    assert_eq!(c1.uuid, C1);
    assert_eq!(c1.hooks.read, Some(Security::Insecure));
    assert_eq!(c1.hooks.write, Some(WriteHook::WithoutResponse));
    assert!(c1.hooks.notify);
    assert!(c1.hooks.indicate);
    assert_eq!(routers.len(), 1);
    let router = routers.remove(c1.router);
    assert_eq!(router.uuid(), C1_TEXT);
    (remote, router)
}

#[test]
fn local_read_makes_one_remote_read_and_delivers_the_bytes() {
    let (mut remote, mut router) = bridge();
    let request = call(router.step(Input::Event(Event::ReadRequested)).command);
    assert_eq!(request, Request::Read { characteristic_uuid: String::from(C1_TEXT) });
    let completion = remote.serve(request);
    let step = router.step(Input::Completed(completion));
    assert_eq!(step.command, Command::AwaitEvent);
    assert_eq!(step.outcome, Some(Outcome::ReadValue(vec![0x2a])));
    assert_eq!(step.outcome.unwrap().response(), Some(Response::Success(vec![0x2a])));
    assert_eq!(remote.calls.len(), 1);
    assert_eq!(remote.reads, vec![Target { service: 0, characteristic: 0 }]);
    assert!(remote.writes.is_empty());
}

#[test]
fn local_write_without_response_makes_one_unacknowledged_remote_write() {
    let (mut remote, mut router) = bridge();
    let event = Event::write_requested(vec![0xde, 0xad], true);
    let request = call(router.step(Input::Event(event)).command);
    assert_eq!(
        request,
        Request::Write {
            characteristic_uuid: String::from(C1_TEXT),
            ack: false,
            data: vec![0xde, 0xad],
        }
    );
    let completion = remote.serve(request);
    let step = router.step(Input::Completed(completion));
    assert_eq!(step.outcome, Some(Outcome::WriteCompleted));
    assert_eq!(remote.calls.len(), 1);
    assert_eq!(
        remote.writes,
        vec![(
            Target { service: 0, characteristic: 0 },
            WriteType::WithoutResponse,
            vec![0xde, 0xad]
        )]
    );
}

#[test]
fn local_write_with_response_makes_an_acknowledged_remote_write() {
    let (mut remote, mut router) = bridge();
    let event = Event::write_requested(vec![1], false);
    let request = call(router.step(Input::Event(event)).command);
    let completion = remote.serve(request);
    router.step(Input::Completed(completion));
    assert_eq!(
        remote.writes,
        vec![(Target { service: 0, characteristic: 0 }, WriteType::WithResponse, vec![1])]
    );
}

#[test]
fn local_subscribe_delivers_one_notification_once() {
    let (mut remote, mut router) = bridge();
    let event = Event::SubscribeRequested { notify_sink: 77 };
    let request = call(router.step(Input::Event(event)).command);
    assert_eq!(
        request,
        Request::Subscribe { characteristic_uuid: String::from(C1_TEXT), ack: false }
    );
    let completion = remote.serve(request);
    assert_eq!(router.step(Input::Completed(completion)).command, Command::AwaitNotification);
    let target = Target { service: 0, characteristic: 0 };
    assert!(remote.gateway.is_subscribed(target));

    let mut sink: Vec<Vec<u8>> = Vec::new();
    assert!(remote.gateway.carries(target, C1));
    match router.step(Input::Notification(vec![0x6e, 0x31])).command {
        Command::Forward(value) => {
            assert_eq!(router.sink(), Some(&77));
            sink.push(value);
        }
        other => panic!("expected a forward, got {:?}", other),
    }
    assert_eq!(router.step(Input::Forwarded).command, Command::AwaitNotification);
    assert_eq!(sink, vec![vec![0x6e, 0x31]]);
    assert_eq!(remote.calls.len(), 1);

    let request = call(router.step(Input::Event(Event::UnsubscribeRequested)).command);
    assert_eq!(
        request,
        Request::Unsubscribe { characteristic_uuid: String::from(C1_TEXT), ack: false }
    );
    let completion = remote.serve(request);
    assert_eq!(router.step(Input::Completed(completion)).outcome, Some(Outcome::Unsubscribed));
    assert!(!remote.gateway.is_subscribed(target));
    assert!(!remote.gateway.carries(target, C1));
    assert!(!remote.gateway.stream_dropped(target));
}

#[test]
fn hardware_failure_reaches_the_local_reader_and_the_bridge_goes_on() {
    let (mut remote, mut router) = bridge();
    remote.fail_hardware = true;
    let request = call(router.step(Input::Event(Event::ReadRequested)).command);
    let completion = remote.serve(request);
    let step = router.step(Input::Completed(completion));
    match step.outcome {
        Some(Outcome::Failed { interaction, error }) => {
            assert_eq!(interaction, Interaction::Read);
            assert_eq!(error.status, RemoteStatus::new(13, String::from("Not connected")));
            assert_eq!(
                Outcome::Failed { interaction, error }.response(),
                Some(Response::UnlikelyError)
            );
        }
        other => panic!("expected a failure, got {:?}", other),
    }
    remote.fail_hardware = false;
    let request = call(router.step(Input::Event(Event::ReadRequested)).command);
    let completion = remote.serve(request);
    assert_eq!(
        router.step(Input::Completed(completion)).outcome,
        Some(Outcome::ReadValue(vec![0x2a]))
    );
    assert_eq!(remote.calls.len(), 2);
}

#[test]
fn write_then_read_goes_through_the_bridge_in_order() {
    let (mut remote, mut router) = bridge();
    let write = call(router.step(Input::Event(Event::write_requested(vec![9], false))).command);
    assert_eq!(router.step(Input::Event(Event::ReadRequested)).command, Command::Continue);
    let completion = remote.serve(write);
    let step = router.step(Input::Completed(completion));
    assert_eq!(step.outcome, Some(Outcome::WriteCompleted));
    let read = call(step.command);
    let completion = remote.serve(read);
    assert_eq!(
        router.step(Input::Completed(completion)).outcome,
        Some(Outcome::ReadValue(vec![9]))
    );
    assert_eq!(remote.calls.len(), 2);
    assert!(matches!(remote.calls[0], Request::Write { .. }));
    assert!(matches!(remote.calls[1], Request::Read { .. }));
}
