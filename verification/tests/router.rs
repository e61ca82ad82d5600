use ble_over_ip::error::{CharacteristicProxyError, RemoteStatus};
use ble_over_ip::router::{
    Command, Event, EventRouter, Input, Interaction, Outcome, Phase, Request, Response, Step,
    INBOX_CAPACITY,
};

const UUID: &str = "00002a19-0000-1000-8000-00805f9b34fb";

fn router() -> EventRouter<&'static str> {
    EventRouter::new(String::from(UUID))
}

fn status(code: i32, message: &str) -> RemoteStatus {
    RemoteStatus::new(code, String::from(message))
}

fn proxy_error(code: i32, message: &str) -> CharacteristicProxyError {
    CharacteristicProxyError::new(status(code, message))
}

fn read_call() -> Command {
    Command::Call(Request::Read { characteristic_uuid: String::from(UUID) })
}

fn write_call(ack: bool, data: &[u8]) -> Command {
    Command::Call(Request::Write {
        characteristic_uuid: String::from(UUID),
        ack,
        data: data.to_vec(),
    })
}

fn subscribe_call() -> Command {
    Command::Call(Request::Subscribe { characteristic_uuid: String::from(UUID), ack: false })
}

fn unsubscribe_call() -> Command {
    Command::Call(Request::Unsubscribe { characteristic_uuid: String::from(UUID), ack: false })
}

fn streaming() -> EventRouter<&'static str> {
    let mut router = router();
    router.step(Input::Event(Event::SubscribeRequested { notify_sink: "sink" }));
    router.step(Input::Completed(Ok(Vec::new())));
    assert_eq!(router.phase(), Phase::Streaming);
    router
}

fn plain(command: Command) -> Step<&'static str> {
    Step { outcome: None, command, rejected: None }
}

#[test]
fn inbox_holds_one_event() {
    assert_eq!(INBOX_CAPACITY, 1);
}

#[test]
fn new_router_is_idle_and_empty() {
    let router = router();
    assert_eq!(router.phase(), Phase::Idle);
    assert_eq!(router.uuid(), UUID);
    assert!(router.has_room());
    assert!(router.sink().is_none());
    assert!(!router.is_subscribed());
}

#[test]
fn write_event_is_acknowledged_unless_without_response() {
    assert_eq!(
        Event::<u8>::write_requested(vec![1, 2], true),
        Event::WriteRequested { data: vec![1, 2], ack_required: false }
    );
    assert_eq!(
        Event::<u8>::write_requested(vec![3], false),
        Event::WriteRequested { data: vec![3], ack_required: true }
    );
}

#[test]
fn read_event_calls_read_and_delivers_the_bytes() {
    let mut router = router();
    assert_eq!(router.step(Input::Event(Event::ReadRequested)), plain(read_call()));
    assert_eq!(router.phase(), Phase::Reading);
    assert_eq!(
        router.step(Input::Completed(Ok(vec![0x64]))),
        Step {
            outcome: Some(Outcome::ReadValue(vec![0x64])),
            command: Command::AwaitEvent,
            rejected: None,
        }
    );
    assert_eq!(router.phase(), Phase::Idle);
}

#[test]
fn write_event_calls_write_with_its_data_and_ack() {
    let mut router = router();
    let event = Event::write_requested(vec![9, 8, 7], false);
    assert_eq!(router.step(Input::Event(event)), plain(write_call(true, &[9, 8, 7])));
    assert_eq!(router.phase(), Phase::Writing);
    assert_eq!(
        router.step(Input::Completed(Ok(Vec::new()))),
        Step {
            outcome: Some(Outcome::WriteCompleted),
            command: Command::AwaitEvent,
            rejected: None,
        }
    );
    assert_eq!(router.phase(), Phase::Idle);
}

#[test]
fn unsubscribe_event_of_an_idle_router_calls_unsubscribe() {
    let mut router = router();
    assert_eq!(router.step(Input::Event(Event::UnsubscribeRequested)), plain(unsubscribe_call()));
    assert_eq!(router.phase(), Phase::Unsubscribing);
    assert_eq!(
        router.step(Input::Completed(Ok(Vec::new()))),
        Step { outcome: Some(Outcome::Unsubscribed), command: Command::AwaitEvent, rejected: None }
    );
    assert_eq!(router.phase(), Phase::Idle);
}

#[test]
fn subscribe_event_opens_the_stream_and_keeps_the_sink() {
    let mut router = router();
    let event = Event::SubscribeRequested { notify_sink: "sink" };
    assert_eq!(router.step(Input::Event(event)), plain(subscribe_call()));
    assert_eq!(router.phase(), Phase::Subscribing);
    assert_eq!(router.sink(), Some(&"sink"));
    assert!(router.is_subscribed());
    assert_eq!(router.step(Input::Completed(Ok(Vec::new()))), plain(Command::AwaitNotification));
    assert_eq!(router.phase(), Phase::Streaming);
    assert_eq!(router.sink(), Some(&"sink"));
    assert!(router.is_subscribed());
    router.step(Input::Notification(vec![1]));
    assert!(router.is_subscribed());
    router.step(Input::Event(Event::UnsubscribeRequested));
    assert!(!router.is_subscribed());
}

#[test]
fn failed_subscribe_does_not_open_the_stream() {
    let mut router = router();
    router.step(Input::Event(Event::SubscribeRequested { notify_sink: "sink" }));
    assert_eq!(
        router.step(Input::Completed(Err(status(14, "gateway down")))),
        Step {
            outcome: Some(Outcome::Failed {
                interaction: Interaction::Subscribe,
                error: proxy_error(14, "gateway down"),
            }),
            command: Command::AwaitEvent,
            rejected: None,
        }
    );
    assert_eq!(router.phase(), Phase::Idle);
    assert!(router.sink().is_none());
    assert_eq!(
        router.step(Input::Notification(vec![1])).rejected,
        Some(Input::Notification(vec![1]))
    );
}

#[test]
fn second_waiting_event_is_handed_back() {
    let mut router = router();
    router.step(Input::Event(Event::ReadRequested));
    assert_eq!(
        router.step(Input::Event(Event::write_requested(vec![1], true))),
        plain(Command::Continue)
    );
    assert!(!router.has_room());
    let third = router.step(Input::Event(Event::UnsubscribeRequested));
    assert_eq!(
        third,
        Step {
            outcome: None,
            command: Command::Continue,
            rejected: Some(Input::Event(Event::UnsubscribeRequested)),
        }
    );
    assert_eq!(router.phase(), Phase::Reading);
    assert!(!router.has_room());
    assert_eq!(
        router.step(Input::Completed(Ok(vec![5]))),
        Step {
            outcome: Some(Outcome::ReadValue(vec![5])),
            command: write_call(false, &[1]),
            rejected: None,
        }
    );
    assert!(router.has_room());
    assert_eq!(
        router.step(Input::Event(Event::UnsubscribeRequested)),
        plain(Command::Continue)
    );
}

#[test]
fn events_are_dispatched_in_arrival_order() {
    let mut router = router();
    assert_eq!(
        router.step(Input::Event(Event::write_requested(vec![1], false))),
        plain(write_call(true, &[1]))
    );
    let queued = router.step(Input::Event(Event::ReadRequested));
    assert_eq!(queued, plain(Command::Continue));
    assert_eq!(router.phase(), Phase::Writing);
    let completed = router.step(Input::Completed(Ok(Vec::new())));
    assert_eq!(completed.outcome, Some(Outcome::WriteCompleted));
    assert_eq!(completed.command, read_call());
    assert_eq!(router.phase(), Phase::Reading);
    let last = router.step(Input::Completed(Ok(vec![2])));
    assert_eq!(last.outcome, Some(Outcome::ReadValue(vec![2])));
    assert_eq!(last.command, Command::AwaitEvent);
}

#[test]
fn failed_read_is_reported_and_the_next_event_is_served() {
    let mut router = router();
    router.step(Input::Event(Event::ReadRequested));
    assert_eq!(
        router.step(Input::Completed(Err(status(13, "device gone")))),
        Step {
            outcome: Some(Outcome::Failed {
                interaction: Interaction::Read,
                error: proxy_error(13, "device gone"),
            }),
            command: Command::AwaitEvent,
            rejected: None,
        }
    );
    assert_eq!(router.phase(), Phase::Idle);
    assert_eq!(router.step(Input::Event(Event::ReadRequested)), plain(read_call()));
    assert_eq!(
        router.step(Input::Completed(Ok(vec![1]))).outcome,
        Some(Outcome::ReadValue(vec![1]))
    );
}

#[test]
fn failed_write_and_failed_unsubscribe_name_their_interaction() {
    let mut router = router();
    router.step(Input::Event(Event::write_requested(vec![1], true)));
    assert_eq!(
        router.step(Input::Completed(Err(status(5, "no")))).outcome,
        Some(Outcome::Failed { interaction: Interaction::Write, error: proxy_error(5, "no") })
    );
    router.step(Input::Event(Event::UnsubscribeRequested));
    assert_eq!(
        router.step(Input::Completed(Err(status(5, "no")))).outcome,
        Some(Outcome::Failed { interaction: Interaction::Unsubscribe, error: proxy_error(5, "no") })
    );
    assert_eq!(router.phase(), Phase::Idle);
}

#[test]
fn failure_with_a_waiting_event_dispatches_it() {
    let mut router = router();
    router.step(Input::Event(Event::ReadRequested));
    router.step(Input::Event(Event::write_requested(vec![4], true)));
    let step = router.step(Input::Completed(Err(status(14, "down"))));
    assert_eq!(
        step.outcome,
        Some(Outcome::Failed { interaction: Interaction::Read, error: proxy_error(14, "down") })
    );
    assert_eq!(step.command, write_call(false, &[4]));
    assert_eq!(router.phase(), Phase::Writing);
}

#[test]
fn values_reach_the_sink_in_stream_order() {
    let mut router = streaming();
    let mut delivered = Vec::new();
    for value in [vec![1u8], vec![2u8], vec![3u8]] {
        match router.step(Input::Notification(value)).command {
            Command::Forward(data) => delivered.push(data),
            other => panic!("unexpected command {:?}", other),
        }
        assert_eq!(router.phase(), Phase::Forwarding);
        assert_eq!(router.sink(), Some(&"sink"));
        assert_eq!(router.step(Input::Forwarded), plain(Command::AwaitNotification));
        assert_eq!(router.phase(), Phase::Streaming);
    }
    assert_eq!(delivered, vec![vec![1u8], vec![2u8], vec![3u8]]);
}

#[test]
fn value_is_handed_back_while_the_sink_is_busy() {
    let mut router = streaming();
    assert_eq!(router.step(Input::Notification(vec![1])), plain(Command::Forward(vec![1])));
    assert_eq!(
        router.step(Input::Notification(vec![2])),
        Step {
            outcome: None,
            command: Command::Continue,
            rejected: Some(Input::Notification(vec![2])),
        }
    );
    assert_eq!(router.phase(), Phase::Forwarding);
    assert_eq!(router.step(Input::Forwarded), plain(Command::AwaitNotification));
    assert_eq!(router.step(Input::Notification(vec![2])), plain(Command::Forward(vec![2])));
}

#[test]
fn unsubscribe_ends_forwarding() {
    let mut router = streaming();
    assert_eq!(router.step(Input::Notification(vec![1])), plain(Command::Forward(vec![1])));
    assert_eq!(router.step(Input::Forwarded), plain(Command::AwaitNotification));
    assert_eq!(router.step(Input::Event(Event::UnsubscribeRequested)), plain(unsubscribe_call()));
    assert_eq!(router.phase(), Phase::Unsubscribing);
    assert!(router.sink().is_none());
    for late in [vec![2u8], vec![3u8]] {
        let step = router.step(Input::Notification(late.clone()));
        assert_eq!(step.command, Command::Continue);
        assert_eq!(step.rejected, Some(Input::Notification(late)));
    }
    assert_eq!(
        router.step(Input::Completed(Ok(Vec::new()))),
        Step { outcome: Some(Outcome::Unsubscribed), command: Command::AwaitEvent, rejected: None }
    );
    assert_eq!(router.phase(), Phase::Idle);
}

#[test]
fn unsubscribe_while_a_value_is_on_its_way_is_safe() {
    let mut router = streaming();
    assert_eq!(router.step(Input::Notification(vec![1])), plain(Command::Forward(vec![1])));
    assert_eq!(router.step(Input::Event(Event::UnsubscribeRequested)), plain(unsubscribe_call()));
    assert_eq!(router.phase(), Phase::Unsubscribing);
    let late = router.step(Input::Forwarded);
    assert_eq!(late.command, Command::Continue);
    assert_eq!(late.rejected, Some(Input::Forwarded));
    assert_eq!(router.phase(), Phase::Unsubscribing);
}

#[test]
fn unsubscribe_that_arrived_before_the_stream_opened_ends_it_at_once() {
    let mut router = router();
    router.step(Input::Event(Event::SubscribeRequested { notify_sink: "sink" }));
    assert_eq!(
        router.step(Input::Event(Event::UnsubscribeRequested)),
        plain(Command::Continue)
    );
    assert_eq!(router.step(Input::Completed(Ok(Vec::new()))), plain(unsubscribe_call()));
    assert_eq!(router.phase(), Phase::Unsubscribing);
    assert!(router.sink().is_none());
    assert!(router.has_room());
}

#[test]
fn stream_end_returns_to_idle() {
    let mut router = streaming();
    assert_eq!(
        router.step(Input::StreamEnded),
        Step {
            outcome: Some(Outcome::SubscriptionEnded),
            command: Command::AwaitEvent,
            rejected: None,
        }
    );
    assert_eq!(router.phase(), Phase::Idle);
    assert!(router.sink().is_none());
    assert_eq!(router.step(Input::Event(Event::ReadRequested)), plain(read_call()));
}

#[test]
fn stream_error_ends_the_subscription_and_the_router_goes_on() {
    let mut router = streaming();
    assert_eq!(
        router.step(Input::StreamFailed(status(14, "link lost"))),
        Step {
            outcome: Some(Outcome::SubscriptionFailed(proxy_error(14, "link lost"))),
            command: Command::AwaitEvent,
            rejected: None,
        }
    );
    assert_eq!(router.phase(), Phase::Idle);
    let event = Event::SubscribeRequested { notify_sink: "again" };
    assert_eq!(router.step(Input::Event(event)), plain(subscribe_call()));
    assert_eq!(router.sink(), Some(&"again"));
}

#[test]
fn other_event_waits_for_the_stream_to_end() {
    let mut router = streaming();
    assert_eq!(router.step(Input::Event(Event::ReadRequested)), plain(Command::Continue));
    assert_eq!(router.phase(), Phase::Streaming);
    assert!(!router.has_room());
    assert_eq!(router.step(Input::Notification(vec![1])), plain(Command::Forward(vec![1])));
    assert_eq!(router.step(Input::Forwarded), plain(Command::AwaitNotification));
    let rejected = router.step(Input::Event(Event::UnsubscribeRequested));
    assert_eq!(rejected.rejected, Some(Input::Event(Event::UnsubscribeRequested)));
    let ended = router.step(Input::StreamEnded);
    assert_eq!(ended.outcome, Some(Outcome::SubscriptionEnded));
    assert_eq!(ended.command, read_call());
    assert_eq!(router.phase(), Phase::Reading);
}

#[test]
fn inputs_that_do_not_fit_the_state_are_handed_back() {
    let mut router = router();
    for input in [
        Input::Completed(Ok(vec![1])),
        Input::Completed(Err(status(2, "late"))),
        Input::Notification(vec![1]),
        Input::StreamEnded,
        Input::StreamFailed(status(2, "late")),
        Input::Forwarded,
    ] {
        let copy = match &input {
            Input::Completed(Ok(bytes)) => Input::Completed(Ok(bytes.clone())),
            Input::Completed(Err(error)) => Input::Completed(Err(error.duplicate())),
            Input::Notification(bytes) => Input::Notification(bytes.clone()),
            Input::StreamEnded => Input::StreamEnded,
            Input::StreamFailed(error) => Input::StreamFailed(error.duplicate()),
            Input::Forwarded => Input::Forwarded,
            Input::Event(_) => unreachable!(),
        };
        assert_eq!(
            router.step(input),
            Step { outcome: None, command: Command::Continue, rejected: Some(copy) }
        );
        assert_eq!(router.phase(), Phase::Idle);
    }
    router.step(Input::Event(Event::ReadRequested));
    for input in [Input::Notification(vec![1]), Input::StreamEnded, Input::Forwarded] {
        assert!(router.step(input).rejected.is_some());
        assert_eq!(router.phase(), Phase::Reading);
    }
    let mut open = streaming();
    assert!(open.step(Input::Completed(Ok(Vec::new()))).rejected.is_some());
    assert!(open.step(Input::Forwarded).rejected.is_some());
    assert_eq!(open.phase(), Phase::Streaming);
}

#[test]
fn outcomes_answer_the_hooks_of_reads_and_writes_only() {
    assert_eq!(Outcome::ReadValue(vec![1, 2]).response(), Some(Response::Success(vec![1, 2])));
    assert_eq!(Outcome::WriteCompleted.response(), Some(Response::Success(Vec::new())));
    assert_eq!(
        Outcome::Failed { interaction: Interaction::Read, error: proxy_error(5, "x") }.response(),
        Some(Response::UnlikelyError)
    );
    assert_eq!(
        Outcome::Failed { interaction: Interaction::Write, error: proxy_error(5, "x") }.response(),
        Some(Response::UnlikelyError)
    );
    assert_eq!(
        Outcome::Failed { interaction: Interaction::Subscribe, error: proxy_error(5, "x") }
            .response(),
        None
    );
    assert_eq!(
        Outcome::Failed { interaction: Interaction::Unsubscribe, error: proxy_error(5, "x") }
            .response(),
        None
    );
    assert_eq!(Outcome::SubscriptionEnded.response(), None);
    assert_eq!(Outcome::SubscriptionFailed(proxy_error(5, "x")).response(), None);
    assert_eq!(Outcome::Unsubscribed.response(), None);
}
