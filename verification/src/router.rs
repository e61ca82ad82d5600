//! The per-characteristic event router of the client side.
//!
//! A router owns one characteristic of the virtual peripheral. It is a state
//! machine: the driver hands it one [`Input`] at a time (a local GATT event, the
//! completion of the remote call in flight, an item of the notification stream)
//! and gets back a [`Step`] that says what happened to the interaction that was
//! under way and what to do next. The router makes no call itself and never
//! stops: every input leaves it in a state that accepts further inputs.

use vstd::prelude::*;

use crate::error::{CharacteristicProxyError, RemoteStatus, RemoteStatusView};

verus! {

/// How many local events may wait for one characteristic while another is
/// being dispatched.
pub const INBOX_CAPACITY: usize = 1;

/// A GATT interaction that the local peripheral stack asks the router to carry out.
#[derive(Clone, Debug, PartialEq, Eq)]
pub enum Event<S> {
    /// A central reads the characteristic.
    ReadRequested,
    /// A central writes `data`; with `ack_required` the write is acknowledged.
    WriteRequested { data: Vec<u8>, ack_required: bool },
    /// A central subscribes; notification values go into `notify_sink`.
    SubscribeRequested { notify_sink: S },
    /// The subscribed central unsubscribes.
    UnsubscribeRequested,
}

/// An [`Event`] as a mathematical value.
pub enum EventView<S> {
    ReadRequested,
    WriteRequested { data: Seq<u8>, ack_required: bool },
    SubscribeRequested { notify_sink: S },
    UnsubscribeRequested,
}

impl<S> View for Event<S> {
    type V = EventView<S>;

    open spec fn view(&self) -> EventView<S> {
        match *self {
            Event::ReadRequested => EventView::ReadRequested,
            Event::WriteRequested { data, ack_required } => EventView::WriteRequested {
                data: data@,
                ack_required,
            },
            Event::SubscribeRequested { notify_sink } => EventView::SubscribeRequested {
                notify_sink,
            },
            Event::UnsubscribeRequested => EventView::UnsubscribeRequested,
        }
    }
}

impl<S> Event<S> {
    /// The write event for a local write request: the write is acknowledged
    /// unless the request was made without response.
    pub fn write_requested(data: Vec<u8>, without_response: bool) -> (event: Event<S>)
        ensures
            event@ == (EventView::<S>::WriteRequested {
                data: data@,
                ack_required: !without_response,
            }),
    {
        Event::WriteRequested { data, ack_required: !without_response }
    }
}

/// A call to the gateway service.
#[derive(Clone, Debug, PartialEq, Eq)]
pub enum Request {
    Read { characteristic_uuid: String },
    Write { characteristic_uuid: String, ack: bool, data: Vec<u8> },
    Subscribe { characteristic_uuid: String, ack: bool },
    Unsubscribe { characteristic_uuid: String, ack: bool },
}

/// A [`Request`] as a mathematical value.
pub enum RequestView {
    Read { characteristic_uuid: Seq<char> },
    Write { characteristic_uuid: Seq<char>, ack: bool, data: Seq<u8> },
    Subscribe { characteristic_uuid: Seq<char>, ack: bool },
    Unsubscribe { characteristic_uuid: Seq<char>, ack: bool },
}

impl View for Request {
    type V = RequestView;

    open spec fn view(&self) -> RequestView {
        match *self {
            Request::Read { characteristic_uuid } => RequestView::Read {
                characteristic_uuid: characteristic_uuid@,
            },
            Request::Write { characteristic_uuid, ack, data } => RequestView::Write {
                characteristic_uuid: characteristic_uuid@,
                ack,
                data: data@,
            },
            Request::Subscribe { characteristic_uuid, ack } => RequestView::Subscribe {
                characteristic_uuid: characteristic_uuid@,
                ack,
            },
            Request::Unsubscribe { characteristic_uuid, ack } => RequestView::Unsubscribe {
                characteristic_uuid: characteristic_uuid@,
                ack,
            },
        }
    }
}

/// What the driver hands to the router.
#[derive(Debug, PartialEq, Eq)]
pub enum Input<S> {
    /// The local stack submits an event for the characteristic.
    Event(Event<S>),
    /// The remote call in flight has returned: its payload (the bytes read;
    /// nothing of interest for the other calls) or the status it failed with.
    Completed(Result<Vec<u8>, RemoteStatus>),
    /// The notification stream yielded a value.
    Notification(Vec<u8>),
    /// The notification stream ended.
    StreamEnded,
    /// The notification stream yielded an error.
    StreamFailed(RemoteStatus),
    /// The notify sink has taken the value handed to it.
    Forwarded,
}

/// An [`Input`] as a mathematical value.
pub enum InputView<S> {
    Event(EventView<S>),
    Completed(Result<Seq<u8>, RemoteStatusView>),
    Notification(Seq<u8>),
    StreamEnded,
    StreamFailed(RemoteStatusView),
    Forwarded,
}

impl<S> View for Input<S> {
    type V = InputView<S>;

    open spec fn view(&self) -> InputView<S> {
        match *self {
            Input::Event(event) => InputView::Event(event@),
            Input::Completed(Ok(payload)) => InputView::Completed(Ok(payload@)),
            Input::Completed(Err(status)) => InputView::Completed(Err(status@)),
            Input::Notification(value) => InputView::Notification(value@),
            Input::StreamEnded => InputView::StreamEnded,
            Input::StreamFailed(status) => InputView::StreamFailed(status@),
            Input::Forwarded => InputView::Forwarded,
        }
    }
}

/// What the driver has to do after a step.
#[derive(Clone, Debug, PartialEq, Eq)]
pub enum Command {
    /// Wait for the next local event.
    AwaitEvent,
    /// Make this remote call and hand back its completion.
    Call(Request),
    /// Wait for the next item of the notification stream, and for the next
    /// local event while the router has room for one.
    AwaitNotification,
    /// Push this value into the notify sink, take nothing from the stream
    /// meanwhile, and hand back [`Input::Forwarded`].
    Forward(Vec<u8>),
    /// Nothing new: carry on with the call or the wait that is under way.
    Continue,
}

/// A [`Command`] as a mathematical value.
pub enum CommandView {
    AwaitEvent,
    Call(RequestView),
    AwaitNotification,
    Forward(Seq<u8>),
    Continue,
}

impl View for Command {
    type V = CommandView;

    open spec fn view(&self) -> CommandView {
        match *self {
            Command::AwaitEvent => CommandView::AwaitEvent,
            Command::Call(request) => CommandView::Call(request@),
            Command::AwaitNotification => CommandView::AwaitNotification,
            Command::Forward(value) => CommandView::Forward(value@),
            Command::Continue => CommandView::Continue,
        }
    }
}

/// The kinds of local interaction.
#[derive(Clone, Copy, Debug, PartialEq, Eq, Structural)]
pub enum Interaction {
    Read,
    Write,
    Subscribe,
    Unsubscribe,
}

/// How the interaction that a step finished has ended. It is reported to the
/// local hook of that interaction and to nobody else.
#[derive(Clone, Debug, PartialEq, Eq)]
pub enum Outcome {
    /// The read returned these bytes.
    ReadValue(Vec<u8>),
    /// The write was carried out.
    WriteCompleted,
    /// The remote stream of the subscription ended.
    SubscriptionEnded,
    /// The remote stream of the subscription yielded an error, which ends it.
    SubscriptionFailed(CharacteristicProxyError),
    /// The remote unsubscribe was carried out.
    Unsubscribed,
    /// The remote call of the interaction failed.
    Failed { interaction: Interaction, error: CharacteristicProxyError },
}

/// An [`Outcome`] as a mathematical value.
pub enum OutcomeView {
    ReadValue(Seq<u8>),
    WriteCompleted,
    SubscriptionEnded,
    SubscriptionFailed(RemoteStatusView),
    Unsubscribed,
    Failed { interaction: Interaction, error: RemoteStatusView },
}

/// What the local hook of a read or a write is answered with.
#[derive(Clone, Debug, PartialEq, Eq)]
pub enum Response {
    /// The interaction succeeded, with these bytes.
    Success(Vec<u8>),
    /// The interaction failed.
    UnlikelyError,
}

/// A [`Response`] as a mathematical value.
pub enum ResponseView {
    Success(Seq<u8>),
    UnlikelyError,
}

impl View for Response {
    type V = ResponseView;

    open spec fn view(&self) -> ResponseView {
        match *self {
            Response::Success(value) => ResponseView::Success(value@),
            Response::UnlikelyError => ResponseView::UnlikelyError,
        }
    }
}

impl OutcomeView {
    /// The answer that the outcome owes to a local hook: the bytes of a read,
    /// no bytes for a write, an error for a read or a write that failed. The
    /// other interactions have no hook that waits for an answer.
    pub open spec fn response(self) -> Option<ResponseView> {
        match self {
            OutcomeView::ReadValue(value) => Some(ResponseView::Success(value)),
            OutcomeView::WriteCompleted => Some(ResponseView::Success(Seq::empty())),
            OutcomeView::Failed { interaction, .. } => if interaction == Interaction::Read
                || interaction == Interaction::Write {
                Some(ResponseView::UnlikelyError)
            } else {
                None
            },
            _ => None,
        }
    }
}

impl View for Outcome {
    type V = OutcomeView;

    open spec fn view(&self) -> OutcomeView {
        match *self {
            Outcome::ReadValue(value) => OutcomeView::ReadValue(value@),
            Outcome::WriteCompleted => OutcomeView::WriteCompleted,
            Outcome::SubscriptionEnded => OutcomeView::SubscriptionEnded,
            Outcome::SubscriptionFailed(error) => OutcomeView::SubscriptionFailed(error@),
            Outcome::Unsubscribed => OutcomeView::Unsubscribed,
            Outcome::Failed { interaction, error } => OutcomeView::Failed {
                interaction,
                error: error@,
            },
        }
    }
}

impl Outcome {
    /// The answer that the outcome owes to the local hook of its interaction,
    /// if that interaction has one.
    pub fn response(self) -> (response: Option<Response>)
        ensures
            match response {
                Some(answer) => self@.response() == Some(answer@),
                None => self@.response() is None,
            },
    {
        match self {
            Outcome::ReadValue(value) => Some(Response::Success(value)),
            Outcome::WriteCompleted => Some(Response::Success(Vec::new())),
            Outcome::Failed { interaction, .. } => match interaction {
                Interaction::Read | Interaction::Write => Some(Response::UnlikelyError),
                _ => None,
            },
            _ => None,
        }
    }
}

/// The result of one step of a router.
#[derive(Debug, PartialEq, Eq)]
pub struct Step<S> {
    /// How the interaction that this step finished has ended, if it finished one.
    pub outcome: Option<Outcome>,
    /// What the driver has to do next.
    pub command: Command,
    /// The input itself, handed back, where the router could not take it: an
    /// event while another one is waiting, or an input that does not fit the
    /// state. The state is then unchanged.
    pub rejected: Option<Input<S>>,
}

/// A [`Step`] as a mathematical value.
pub struct StepView<S> {
    pub outcome: Option<OutcomeView>,
    pub command: CommandView,
    pub rejected: Option<InputView<S>>,
}

impl<S> View for Step<S> {
    type V = StepView<S>;

    open spec fn view(&self) -> StepView<S> {
        StepView {
            outcome: match self.outcome {
                Some(outcome) => Some(outcome@),
                None => None,
            },
            command: self.command@,
            rejected: match self.rejected {
                Some(input) => Some(input@),
                None => None,
            },
        }
    }
}

/// Where a router stands with the event it is dispatching.
#[derive(Clone, Copy, Debug, PartialEq, Eq, Structural)]
pub enum Phase {
    /// No event is being dispatched.
    Idle,
    /// The remote read is in flight.
    Reading,
    /// The remote write is in flight.
    Writing,
    /// The remote subscribe is in flight; the stream is not open yet.
    Subscribing,
    /// The stream is open and the router waits for its next item.
    Streaming,
    /// A value of the stream is on its way into the notify sink.
    Forwarding,
    /// The remote unsubscribe is in flight.
    Unsubscribing,
}

/// A router as a mathematical value.
pub struct RouterView<S> {
    /// The UUID of the characteristic, as the topology spells it.
    pub uuid: Seq<char>,
    /// Where the router stands.
    pub phase: Phase,
    /// The notify sink of the subscription under way.
    pub sink: Option<S>,
    /// The event that waits for the one under way to finish.
    pub pending: Option<EventView<S>>,
}

impl<S> EventView<S> {
    /// The remote call that dispatches the event for the characteristic `uuid`.
    pub open spec fn request(self, uuid: Seq<char>) -> RequestView {
        match self {
            EventView::ReadRequested => RequestView::Read { characteristic_uuid: uuid },
            EventView::WriteRequested { data, ack_required } => RequestView::Write {
                characteristic_uuid: uuid,
                ack: ack_required,
                data,
            },
            EventView::SubscribeRequested { .. } => RequestView::Subscribe {
                characteristic_uuid: uuid,
                ack: false,
            },
            EventView::UnsubscribeRequested => RequestView::Unsubscribe {
                characteristic_uuid: uuid,
                ack: false,
            },
        }
    }

    /// The phase in which the remote call of the event is in flight.
    pub open spec fn phase(self) -> Phase {
        match self {
            EventView::ReadRequested => Phase::Reading,
            EventView::WriteRequested { .. } => Phase::Writing,
            EventView::SubscribeRequested { .. } => Phase::Subscribing,
            EventView::UnsubscribeRequested => Phase::Unsubscribing,
        }
    }

    /// The notify sink that the event brings along.
    pub open spec fn sink(self) -> Option<S> {
        match self {
            EventView::SubscribeRequested { notify_sink } => Some(notify_sink),
            _ => None,
        }
    }
}

impl Phase {
    /// A remote call is in flight.
    pub open spec fn calling(self) -> bool {
        self == Phase::Reading || self == Phase::Writing || self == Phase::Subscribing || self
            == Phase::Unsubscribing
    }

    /// A subscription is under way: its call is in flight or its stream is open.
    pub open spec fn subscribed(self) -> bool {
        self == Phase::Subscribing || self == Phase::Streaming || self == Phase::Forwarding
    }

    /// The stream of a subscription is open.
    pub open spec fn streaming(self) -> bool {
        self == Phase::Streaming || self == Phase::Forwarding
    }

    /// The interaction whose remote call is in flight in the phase.
    pub open spec fn interaction(self) -> Interaction {
        match self {
            Phase::Reading => Interaction::Read,
            Phase::Writing => Interaction::Write,
            Phase::Unsubscribing => Interaction::Unsubscribe,
            _ => Interaction::Subscribe,
        }
    }
}

/// How a call that was in flight in `phase` has ended, given what it returned.
pub open spec fn call_outcome(phase: Phase, result: Result<Seq<u8>, RemoteStatusView>)
    -> OutcomeView {
    match result {
        Err(status) => OutcomeView::Failed { interaction: phase.interaction(), error: status },
        Ok(payload) => match phase {
            Phase::Reading => OutcomeView::ReadValue(payload),
            Phase::Writing => OutcomeView::WriteCompleted,
            _ => OutcomeView::Unsubscribed,
        },
    }
}

impl<S> RouterView<S> {
    /// The router of the characteristic `uuid` before its first event.
    pub open spec fn fresh(uuid: Seq<char>) -> RouterView<S> {
        RouterView { uuid, phase: Phase::Idle, sink: None, pending: None }
    }

    /// The state is one that a router can be in: an idle router has no event
    /// waiting, and a notify sink is held exactly while a subscription is
    /// under way.
    pub open spec fn wf(self) -> bool {
        &&& self.phase == Phase::Idle ==> self.pending is None
        &&& self.sink is Some <==> self.phase.subscribed()
    }

    /// The router has room for one more local event.
    pub open spec fn has_room(self) -> bool {
        self.pending is None
    }

    /// Starts the dispatch of `event`, which no other event precedes any more,
    /// and reports `outcome` for the interaction that ended just before.
    pub open spec fn dispatch(self, event: EventView<S>, outcome: Option<OutcomeView>) -> (
        RouterView<S>,
        StepView<S>,
    ) {
        (
            RouterView {
                uuid: self.uuid,
                phase: event.phase(),
                sink: event.sink(),
                pending: None,
            },
            StepView {
                outcome,
                command: CommandView::Call(event.request(self.uuid)),
                rejected: None,
            },
        )
    }

    /// Ends the interaction under way with `outcome` and goes on with the
    /// event that waits, or becomes idle where none does.
    pub open spec fn settle(self, outcome: OutcomeView) -> (RouterView<S>, StepView<S>) {
        match self.pending {
            Some(next) => self.dispatch(next, Some(outcome)),
            None => (
                RouterView { uuid: self.uuid, phase: Phase::Idle, sink: None, pending: None },
                StepView {
                    outcome: Some(outcome),
                    command: CommandView::AwaitEvent,
                    rejected: None,
                },
            ),
        }
    }

    /// Stops forwarding and asks the gateway to unsubscribe.
    pub open spec fn cancel(self) -> (RouterView<S>, StepView<S>) {
        (
            RouterView {
                uuid: self.uuid,
                phase: Phase::Unsubscribing,
                sink: None,
                pending: None,
            },
            StepView {
                outcome: None,
                command: CommandView::Call(
                    RequestView::Unsubscribe { characteristic_uuid: self.uuid, ack: false },
                ),
                rejected: None,
            },
        )
    }

    /// Hands `input` back and stays as it is.
    pub open spec fn refuse(self, input: InputView<S>) -> (RouterView<S>, StepView<S>) {
        (self, StepView { outcome: None, command: CommandView::Continue, rejected: Some(input) })
    }

    /// Takes a local event.
    pub open spec fn on_event(self, event: EventView<S>) -> (RouterView<S>, StepView<S>) {
        if self.pending is Some {
            self.refuse(InputView::Event(event))
        } else if self.phase == Phase::Idle {
            self.dispatch(event, None)
        } else if self.phase.streaming() && event is UnsubscribeRequested {
            self.cancel()
        } else {
            (
                RouterView {
                    uuid: self.uuid,
                    phase: self.phase,
                    sink: self.sink,
                    pending: Some(event),
                },
                StepView { outcome: None, command: CommandView::Continue, rejected: None },
            )
        }
    }

    /// Takes the completion of the remote call in flight.
    pub open spec fn on_completed(self, result: Result<Seq<u8>, RemoteStatusView>) -> (
        RouterView<S>,
        StepView<S>,
    ) {
        if !self.phase.calling() {
            self.refuse(InputView::Completed(result))
        } else if self.phase == Phase::Subscribing && result is Ok {
            if self.pending == Some(EventView::<S>::UnsubscribeRequested) {
                self.cancel()
            } else {
                (
                    RouterView {
                        uuid: self.uuid,
                        phase: Phase::Streaming,
                        sink: self.sink,
                        pending: self.pending,
                    },
                    StepView {
                        outcome: None,
                        command: CommandView::AwaitNotification,
                        rejected: None,
                    },
                )
            }
        } else {
            self.settle(call_outcome(self.phase, result))
        }
    }

    /// The state after `input`, and what the step reports.
    pub open spec fn step(self, input: InputView<S>) -> (RouterView<S>, StepView<S>) {
        match input {
            InputView::Event(event) => self.on_event(event),
            InputView::Completed(result) => self.on_completed(result),
            InputView::Notification(value) => if self.phase == Phase::Streaming {
                (
                    RouterView {
                        uuid: self.uuid,
                        phase: Phase::Forwarding,
                        sink: self.sink,
                        pending: self.pending,
                    },
                    StepView {
                        outcome: None,
                        command: CommandView::Forward(value),
                        rejected: None,
                    },
                )
            } else {
                self.refuse(input)
            },
            InputView::Forwarded => if self.phase == Phase::Forwarding {
                (
                    RouterView {
                        uuid: self.uuid,
                        phase: Phase::Streaming,
                        sink: self.sink,
                        pending: self.pending,
                    },
                    StepView {
                        outcome: None,
                        command: CommandView::AwaitNotification,
                        rejected: None,
                    },
                )
            } else {
                self.refuse(input)
            },
            InputView::StreamEnded => if self.phase == Phase::Streaming {
                self.settle(OutcomeView::SubscriptionEnded)
            } else {
                self.refuse(input)
            },
            InputView::StreamFailed(status) => if self.phase == Phase::Streaming {
                self.settle(OutcomeView::SubscriptionFailed(status))
            } else {
                self.refuse(input)
            },
        }
    }
}

/// The outcome of an interaction whose remote call failed with `status`.
fn failure(interaction: Interaction, status: RemoteStatus) -> (outcome: Outcome)
    ensures
        outcome@ == (OutcomeView::Failed { interaction, error: status@ }),
{
    Outcome::Failed { interaction, error: CharacteristicProxyError { status } }
}

/// The router of one characteristic of the virtual peripheral.
#[derive(Debug)]
pub struct EventRouter<S> {
    uuid: String,
    phase: Phase,
    sink: Option<S>,
    pending: Option<Event<S>>,
}

impl<S> View for EventRouter<S> {
    type V = RouterView<S>;

    closed spec fn view(&self) -> RouterView<S> {
        RouterView {
            uuid: self.uuid@,
            phase: self.phase,
            sink: self.sink,
            pending: match self.pending {
                Some(event) => Some(event@),
                None => None,
            },
        }
    }
}

impl<S> EventRouter<S> {
    /// The router of the characteristic `uuid`: idle, with nothing waiting.
    pub fn new(uuid: String) -> (router: EventRouter<S>)
        ensures
            router@ == RouterView::<S>::fresh(uuid@),
            router@.wf(),
    {
        EventRouter { uuid, phase: Phase::Idle, sink: None, pending: None }
    }

    /// The UUID of the characteristic.
    pub fn uuid(&self) -> (uuid: &String)
        ensures
            uuid@ == self@.uuid,
    {
        &self.uuid
    }

    /// Where the router stands.
    pub fn phase(&self) -> (phase: Phase)
        ensures
            phase == self@.phase,
    {
        self.phase
    }

    /// The notify sink of the subscription under way.
    pub fn sink(&self) -> (sink: Option<&S>)
        ensures
            sink matches Some(s) ==> self@.sink == Some(*s),
            sink is None ==> self@.sink is None,
    {
        self.sink.as_ref()
    }

    /// Whether a subscription is under way, so that the driver has to keep
    /// its notification stream.
    pub fn is_subscribed(&self) -> (subscribed: bool)
        ensures
            subscribed == self@.phase.subscribed(),
    {
        match self.phase {
            Phase::Subscribing | Phase::Streaming | Phase::Forwarding => true,
            _ => false,
        }
    }

    /// Whether the router has room for one more local event.
    pub fn has_room(&self) -> (room: bool)
        ensures
            room == self@.has_room(),
    {
        self.pending.is_none()
    }

    fn refuse(&self, input: Input<S>) -> (step: Step<S>)
        ensures
            step@ == self@.refuse(input@).1,
    {
        Step { outcome: None, command: Command::Continue, rejected: Some(input) }
    }

    fn dispatch(&mut self, event: Event<S>, outcome: Option<Outcome>) -> (step: Step<S>)
        ensures
            final(self)@ == old(self)@.dispatch(
                event@,
                match outcome {
                    Some(o) => Some(o@),
                    None => None,
                },
            ).0,
            step@ == old(self)@.dispatch(
                event@,
                match outcome {
                    Some(o) => Some(o@),
                    None => None,
                },
            ).1,
    {
        let characteristic_uuid = self.uuid.clone();
        self.pending = None;
        let request = match event {
            Event::ReadRequested => {
                self.phase = Phase::Reading;
                self.sink = None;
                Request::Read { characteristic_uuid }
            },
            Event::WriteRequested { data, ack_required } => {
                self.phase = Phase::Writing;
                self.sink = None;
                Request::Write { characteristic_uuid, ack: ack_required, data }
            },
            Event::SubscribeRequested { notify_sink } => {
                self.phase = Phase::Subscribing;
                self.sink = Some(notify_sink);
                Request::Subscribe { characteristic_uuid, ack: false }
            },
            Event::UnsubscribeRequested => {
                self.phase = Phase::Unsubscribing;
                self.sink = None;
                Request::Unsubscribe { characteristic_uuid, ack: false }
            },
        };
        Step { outcome, command: Command::Call(request), rejected: None }
    }

    fn settle(&mut self, outcome: Outcome) -> (step: Step<S>)
        ensures
            final(self)@ == old(self)@.settle(outcome@).0,
            step@ == old(self)@.settle(outcome@).1,
    {
        match self.pending.take() {
            Some(next) => self.dispatch(next, Some(outcome)),
            None => {
                self.phase = Phase::Idle;
                self.sink = None;
                Step { outcome: Some(outcome), command: Command::AwaitEvent, rejected: None }
            },
        }
    }

    fn cancel(&mut self) -> (step: Step<S>)
        ensures
            final(self)@ == old(self)@.cancel().0,
            step@ == old(self)@.cancel().1,
    {
        self.phase = Phase::Unsubscribing;
        self.sink = None;
        self.pending = None;
        Step {
            outcome: None,
            command: Command::Call(
                Request::Unsubscribe { characteristic_uuid: self.uuid.clone(), ack: false },
            ),
            rejected: None,
        }
    }

    fn on_event(&mut self, event: Event<S>) -> (step: Step<S>)
        ensures
            final(self)@ == old(self)@.on_event(event@).0,
            step@ == old(self)@.on_event(event@).1,
    {
        if self.pending.is_some() {
            return self.refuse(Input::Event(event));
        }
        match self.phase {
            Phase::Idle => self.dispatch(event, None),
            Phase::Streaming | Phase::Forwarding => match event {
                Event::UnsubscribeRequested => self.cancel(),
                other => {
                    self.pending = Some(other);
                    Step { outcome: None, command: Command::Continue, rejected: None }
                },
            },
            _ => {
                self.pending = Some(event);
                Step { outcome: None, command: Command::Continue, rejected: None }
            },
        }
    }

    fn on_completed(&mut self, result: Result<Vec<u8>, RemoteStatus>) -> (step: Step<S>)
        ensures
            final(self)@ == old(self)@.on_completed(
                match result {
                    Ok(payload) => Ok(payload@),
                    Err(status) => Err(status@),
                },
            ).0,
            step@ == old(self)@.on_completed(
                match result {
                    Ok(payload) => Ok(payload@),
                    Err(status) => Err(status@),
                },
            ).1,
    {
        match self.phase {
            Phase::Reading => match result {
                Ok(payload) => self.settle(Outcome::ReadValue(payload)),
                Err(status) => self.settle(failure(Interaction::Read, status)),
            },
            Phase::Writing => match result {
                Ok(_) => self.settle(Outcome::WriteCompleted),
                Err(status) => self.settle(failure(Interaction::Write, status)),
            },
            Phase::Unsubscribing => match result {
                Ok(_) => self.settle(Outcome::Unsubscribed),
                Err(status) => self.settle(failure(Interaction::Unsubscribe, status)),
            },
            Phase::Subscribing => match result {
                Ok(_) => {
                    let unsubscribe_waits = match &self.pending {
                        Some(Event::UnsubscribeRequested) => true,
                        _ => false,
                    };
                    if unsubscribe_waits {
                        self.cancel()
                    } else {
                        self.phase = Phase::Streaming;
                        Step {
                            outcome: None,
                            command: Command::AwaitNotification,
                            rejected: None,
                        }
                    }
                },
                Err(status) => self.settle(failure(Interaction::Subscribe, status)),
            },
            _ => self.refuse(Input::Completed(result)),
        }
    }

    /// Takes one input and says what the driver has to do next.
    ///
    /// A local event is dispatched at once by an idle router. While another
    /// event is under way it waits, one at most, and is dispatched by the very
    /// step that ends the one before it; an unsubscribe that arrives while the
    /// stream of a subscription is open does not wait but ends the forwarding.
    /// The completion of the call in flight ends a read, a write or an
    /// unsubscribe with its outcome and opens the stream of a subscribe; a
    /// failed call is reported for its own event only. While the stream is open
    /// each value is handed to the sink, one at a time, and the stream's end or
    /// error ends the subscription. Any other input is handed back.
    pub fn step(&mut self, input: Input<S>) -> (step: Step<S>)
        ensures
            final(self)@ == old(self)@.step(input@).0,
            step@ == old(self)@.step(input@).1,
            old(self)@.wf() ==> final(self)@.wf(),
    {
        match input {
            Input::Event(event) => self.on_event(event),
            Input::Completed(result) => self.on_completed(result),
            Input::Notification(value) => match self.phase {
                Phase::Streaming => {
                    self.phase = Phase::Forwarding;
                    Step { outcome: None, command: Command::Forward(value), rejected: None }
                },
                _ => self.refuse(Input::Notification(value)),
            },
            Input::Forwarded => match self.phase {
                Phase::Forwarding => {
                    self.phase = Phase::Streaming;
                    Step { outcome: None, command: Command::AwaitNotification, rejected: None }
                },
                _ => self.refuse(Input::Forwarded),
            },
            Input::StreamEnded => match self.phase {
                Phase::Streaming => self.settle(Outcome::SubscriptionEnded),
                _ => self.refuse(Input::StreamEnded),
            },
            Input::StreamFailed(status) => match self.phase {
                Phase::Streaming => self.settle(
                    Outcome::SubscriptionFailed(CharacteristicProxyError { status }),
                ),
                _ => self.refuse(Input::StreamFailed(status)),
            },
        }
    }
}

} // verus!
