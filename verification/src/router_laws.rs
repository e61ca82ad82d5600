//! What holds of every run of an event router.

use vstd::prelude::*;

use crate::error::RemoteStatusView;
use crate::router::{
    call_outcome, CommandView, EventView, InputView, OutcomeView, Phase, RequestView, RouterView,
    StepView, INBOX_CAPACITY,
};

verus! {

impl<S> RouterView<S> {
    /// How many local events wait in the router.
    pub open spec fn waiting(self) -> nat {
        if self.pending is Some {
            1
        } else {
            0
        }
    }

    /// The state after all of `inputs`, taken in order, and the steps reported
    /// on the way.
    pub open spec fn run(self, inputs: Seq<InputView<S>>) -> (RouterView<S>, Seq<StepView<S>>)
        decreases inputs.len(),
    {
        if inputs.len() == 0 {
            (self, Seq::empty())
        } else {
            let (before, steps) = self.run(inputs.drop_last());
            let (after, step) = before.step(inputs.last());
            (after, steps.push(step))
        }
    }
}

/// The values that the steps told the driver to push into the notify sink, in
/// the order of the steps.
pub open spec fn forwarded<S>(steps: Seq<StepView<S>>) -> Seq<Seq<u8>>
    decreases steps.len(),
{
    if steps.len() == 0 {
        Seq::empty()
    } else {
        match steps.last().command {
            CommandView::Forward(value) => forwarded(steps.drop_last()).push(value),
            _ => forwarded(steps.drop_last()),
        }
    }
}

/// The inputs of a driver that receives `values` from the stream one after the
/// other and lets the sink take each before it goes back to the stream.
pub open spec fn deliveries<S>(values: Seq<Seq<u8>>) -> Seq<InputView<S>>
    decreases values.len(),
{
    if values.len() == 0 {
        Seq::empty()
    } else {
        deliveries::<S>(values.drop_last()).push(InputView::Notification(values.last())).push(
            InputView::Forwarded,
        )
    }
}

/// The inputs of a stream that yields `values` one after the other.
pub open spec fn notifications<S>(values: Seq<Seq<u8>>) -> Seq<InputView<S>> {
    Seq::new(values.len(), |i: int| InputView::Notification(values[i]))
}

/// Running one more input is one more step.
pub proof fn lemma_run_push<S>(router: RouterView<S>, inputs: Seq<InputView<S>>, input: InputView<S>)
    ensures
        router.run(inputs.push(input)).0 == router.run(inputs).0.step(input).0,
        router.run(inputs.push(input)).1 == router.run(inputs).1.push(
            router.run(inputs).0.step(input).1,
        ),
{
    assert(inputs.push(input).drop_last() == inputs);
}

/// The forwarded values of one more step.
pub proof fn lemma_forwarded_push<S>(steps: Seq<StepView<S>>, step: StepView<S>)
    ensures
        forwarded(steps.push(step)) == match step.command {
            CommandView::Forward(value) => forwarded(steps).push(value),
            _ => forwarded(steps),
        },
{
    assert(steps.push(step).drop_last() == steps);
}

/// Every step keeps the characteristic's UUID and leaves a state that a router
/// can be in.
pub proof fn lemma_step_keeps_router_sound<S>(router: RouterView<S>, input: InputView<S>)
    requires
        router.wf(),
    ensures
        router.step(input).0.wf(),
        router.step(input).0.uuid == router.uuid,
        router.step(input).0.waiting() <= INBOX_CAPACITY,
{
}

/// The inbox of a characteristic holds one event. An event submitted while
/// another one waits is handed back, and the router stays exactly as it was.
pub proof fn lemma_full_inbox_hands_event_back<S>(router: RouterView<S>, event: EventView<S>)
    requires
        router.pending is Some,
    ensures
        router.waiting() == INBOX_CAPACITY,
        router.step(InputView::Event(event)).0 == router,
        router.step(InputView::Event(event)).1 == (StepView {
            outcome: None,
            command: CommandView::Continue,
            rejected: Some(InputView::Event(event)),
        }),
{
}

/// While a remote call is in flight, no step starts another one unless its
/// input is the completion of the call in flight; any other input leaves the
/// phase as it is.
pub proof fn lemma_one_call_at_a_time<S>(router: RouterView<S>, input: InputView<S>)
    requires
        router.phase.calling(),
        !(input is Completed),
    ensures
        !(router.step(input).1.command is Call),
        router.step(input).0.phase == router.phase,
        router.step(input).1.outcome is None,
{
}

/// Events are dispatched in the order of their arrival. The call of the first
/// event is made when it arrives at the idle router. The second event, which
/// arrives while that call is in flight, waits: no call is made for it. The
/// step that ends the first event makes the call of the second one. The first
/// event ends with the completion of its call, or, where it opened the stream
/// of a subscription, with the end of that stream; an unsubscribe that waited
/// for the stream to open ends it at once.
pub proof fn lemma_events_dispatched_in_arrival_order<S>(
    router: RouterView<S>,
    first: EventView<S>,
    second: EventView<S>,
    result: Result<Seq<u8>, RemoteStatusView>,
)
    requires
        router.wf(),
        router.phase == Phase::Idle,
    ensures
        ({
            let (arrived, first_step) = router.step(InputView::Event(first));
            let (queued, second_step) = arrived.step(InputView::Event(second));
            let (completed, third_step) = queued.step(InputView::Completed(result));
            let opened = first is SubscribeRequested && result is Ok;
            &&& first_step.command == CommandView::Call(first.request(router.uuid))
            &&& arrived.phase == first.phase()
            &&& second_step.command == CommandView::Continue
            &&& second_step.rejected is None
            &&& queued.phase == first.phase()
            &&& queued.pending == Some(second)
            &&& !opened ==> {
                &&& third_step.outcome == Some(call_outcome(first.phase(), result))
                &&& third_step.command == CommandView::Call(second.request(router.uuid))
                &&& completed.phase == second.phase()
                &&& completed.pending is None
            }
            &&& opened && second is UnsubscribeRequested ==> {
                &&& third_step.command == CommandView::Call(second.request(router.uuid))
                &&& completed.phase == second.phase()
                &&& completed.pending is None
            }
            &&& opened && !(second is UnsubscribeRequested) ==> {
                &&& third_step.command == CommandView::AwaitNotification
                &&& completed.phase == Phase::Streaming
                &&& completed.pending == Some(second)
                &&& completed.step(InputView::StreamEnded).1.command == CommandView::Call(
                    second.request(router.uuid),
                )
                &&& completed.step(InputView::StreamEnded).0.phase == second.phase()
            }
        }),
{
}

/// Handling an event never stops the router. When a read, a write or an
/// unsubscribe completes, when a subscribe fails, and when the stream of a
/// subscription ends or fails, the router is idle again and waits for the next
/// event, unless an event waits already, which it then dispatches.
pub proof fn lemma_ended_interaction_returns_to_idle<S>(
    router: RouterView<S>,
    input: InputView<S>,
)
    requires
        router.wf(),
        router.pending is None,
        match input {
            InputView::Completed(result) => router.phase.calling() && !(router.phase
                == Phase::Subscribing && result is Ok),
            InputView::StreamEnded => router.phase == Phase::Streaming,
            InputView::StreamFailed(_) => router.phase == Phase::Streaming,
            _ => false,
        },
    ensures
        router.step(input).0 == RouterView::<S>::fresh(router.uuid),
        router.step(input).1.command == CommandView::AwaitEvent,
        router.step(input).1.outcome is Some,
        router.step(input).1.rejected is None,
{
}

/// No state of a router is final: in every state there is an input that the
/// router takes.
pub proof fn lemma_no_state_is_final<S>(router: RouterView<S>, event: EventView<S>)
    requires
        router.wf(),
    ensures
        router.phase == Phase::Idle ==> router.step(InputView::Event(event)).1.rejected is None,
        router.phase.calling() ==> router.step(
            InputView::Completed(Ok(Seq::empty())),
        ).1.rejected is None,
        router.phase == Phase::Streaming ==> router.step(InputView::StreamEnded).1.rejected
            is None,
        router.phase == Phase::Forwarding ==> router.step(InputView::Forwarded).1.rejected
            is None,
        router.phase == Phase::Idle || router.phase.calling() || router.phase == Phase::Streaming
            || router.phase == Phase::Forwarding,
{
}

/// A failed remote call is reported for its own event and does not stop the
/// router. Where another event waits, the same step makes its call; where none
/// does, the router is as it was before its first event, so that the next
/// event is dispatched like the first one of a new router.
pub proof fn lemma_failed_call_does_not_halt<S>(
    router: RouterView<S>,
    status: RemoteStatusView,
    next: EventView<S>,
)
    requires
        router.wf(),
        router.phase.calling(),
    ensures
        ({
            let (after, step) = router.step(InputView::Completed(Err(status)));
            &&& step.outcome == Some(
                OutcomeView::Failed { interaction: router.phase.interaction(), error: status },
            )
            &&& step.rejected is None
            &&& match router.pending {
                Some(waiting) => {
                    &&& step.command == CommandView::Call(waiting.request(router.uuid))
                    &&& after.phase == waiting.phase()
                },
                None => {
                    &&& step.command == CommandView::AwaitEvent
                    &&& after == RouterView::<S>::fresh(router.uuid)
                    &&& after.step(InputView::Event(next)).1.command == CommandView::Call(
                        next.request(router.uuid),
                    )
                    &&& after.step(InputView::Event(next)).0.phase == next.phase()
                },
            }
        }),
{
}

/// An error of the notification stream ends the subscription, is reported as
/// its end, and does not stop the router either.
pub proof fn lemma_failed_stream_does_not_halt<S>(
    router: RouterView<S>,
    status: RemoteStatusView,
    next: EventView<S>,
)
    requires
        router.wf(),
        router.phase == Phase::Streaming,
    ensures
        ({
            let (after, step) = router.step(InputView::StreamFailed(status));
            &&& step.outcome == Some(OutcomeView::SubscriptionFailed(status))
            &&& match router.pending {
                Some(waiting) => {
                    &&& step.command == CommandView::Call(waiting.request(router.uuid))
                    &&& after.phase == waiting.phase()
                },
                None => {
                    &&& after == RouterView::<S>::fresh(router.uuid)
                    &&& after.step(InputView::Event(next)).1.command == CommandView::Call(
                        next.request(router.uuid),
                    )
                },
            }
        }),
{
}

/// A value goes to the notify sink only from a router whose stream is open and
/// which is not busy with an earlier value, and it is the value that the
/// stream has just yielded.
pub proof fn lemma_forward_only_from_open_stream<S>(router: RouterView<S>, input: InputView<S>)
    ensures
        router.step(input).1.command matches CommandView::Forward(value) ==> {
            &&& router.phase == Phase::Streaming
            &&& input == InputView::<S>::Notification(value)
        },
{
}

/// The values of the stream reach the notify sink in the order in which the
/// stream yields them, each exactly once, and the stream stays open.
pub proof fn lemma_values_forwarded_in_order<S>(router: RouterView<S>, values: Seq<Seq<u8>>)
    requires
        router.phase == Phase::Streaming,
    ensures
        forwarded(router.run(deliveries(values)).1) == values,
        router.run(deliveries(values)).0 == router,
    decreases values.len(),
{
    if values.len() > 0 {
        let earlier = values.drop_last();
        let value = values.last();
        lemma_values_forwarded_in_order(router, earlier);
        let received = deliveries::<S>(earlier).push(InputView::Notification(value));
        lemma_run_push(router, deliveries::<S>(earlier), InputView::Notification(value));
        lemma_run_push(router, received, InputView::Forwarded);
        let steps = router.run(deliveries::<S>(earlier)).1;
        let forward = router.step(InputView::Notification(value));
        lemma_forwarded_push(steps, forward.1);
        lemma_forwarded_push(steps.push(forward.1), forward.0.step(InputView::Forwarded).1);
    }
}

/// An unsubscribe that arrives while the stream is open ends the forwarding:
/// the step asks the gateway to unsubscribe, and of the values that the stream
/// yields after it none reaches the notify sink.
pub proof fn lemma_nothing_forwarded_after_unsubscribe<S>(
    router: RouterView<S>,
    late: Seq<Seq<u8>>,
)
    requires
        router.phase.streaming(),
        router.pending is None,
    ensures
        ({
            let (stopped, step) = router.step(InputView::Event(EventView::UnsubscribeRequested));
            &&& step.command == CommandView::Call(
                RequestView::Unsubscribe { characteristic_uuid: router.uuid, ack: false },
            )
            &&& stopped.phase == Phase::Unsubscribing
            &&& stopped.sink is None
            &&& forwarded(stopped.run(notifications(late)).1) == Seq::<Seq<u8>>::empty()
            &&& stopped.run(notifications(late)).0 == stopped
        }),
    decreases late.len(),
{
    let stopped = router.step(InputView::Event(EventView::UnsubscribeRequested)).0;
    if late.len() > 0 {
        let earlier = late.drop_last();
        lemma_nothing_forwarded_after_unsubscribe(router, earlier);
        assert(notifications::<S>(late) =~= notifications::<S>(earlier).push(
            InputView::Notification(late.last()),
        ));
        lemma_run_push(stopped, notifications::<S>(earlier), InputView::Notification(late.last()));
        lemma_forwarded_push(
            stopped.run(notifications::<S>(earlier)).1,
            stopped.step(InputView::Notification(late.last())).1,
        );
    }
}

} // verus!
