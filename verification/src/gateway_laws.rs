//! What holds of every gateway.

use vstd::prelude::*;

use crate::error::RpcErrorView;
use crate::gateway::{first_match, unknown, verdict_for, Operation, Target};
use crate::native::NativeServiceView;

verus! {

/// At most one characteristic is the first one with a given UUID.
pub proof fn lemma_first_match_is_unique(
    services: Seq<NativeServiceView>,
    uuid: u128,
    one: Target,
    other: Target,
)
    requires
        first_match(services, uuid, one),
        first_match(services, uuid, other),
    ensures
        one == other,
{
}

/// A call has one answer: the topology, the UUID that the call names and the
/// operation decide whether the call is accepted, and for which
/// characteristic, or with which error it is refused.
pub proof fn lemma_verdict_is_determined(
    services: Seq<NativeServiceView>,
    uuid: Option<u128>,
    operation: Operation,
    one: Result<Target, RpcErrorView>,
    other: Result<Target, RpcErrorView>,
)
    requires
        verdict_for(services, uuid, operation, one),
        verdict_for(services, uuid, operation, other),
    ensures
        one == other,
        uuid is None ==> one == Err::<Target, RpcErrorView>(RpcErrorView::NotFound),
{
    if let Some(value) = uuid {
        let first = first_target(services, value, one);
        let second = first_target(services, value, other);
        if first is Some && second is Some {
            lemma_first_match_is_unique(services, value, first.unwrap(), second.unwrap());
        }
    }
}

/// The characteristic that a verdict was reached on, if it was reached on one.
pub open spec fn first_target(
    services: Seq<NativeServiceView>,
    uuid: u128,
    verdict: Result<Target, RpcErrorView>,
) -> Option<Target> {
    match verdict {
        Ok(target) => Some(target),
        Err(RpcErrorView::Unsupported) => Some(
            choose|target: Target| first_match(services, uuid, target),
        ),
        _ => None,
    }
}

/// A call is accepted exactly where the UUID it names is that of a
/// characteristic and the first such characteristic allows the operation; it
/// is refused as "not found" exactly where no characteristic has the UUID.
pub proof fn lemma_verdict_cases(
    services: Seq<NativeServiceView>,
    uuid: u128,
    operation: Operation,
    verdict: Result<Target, RpcErrorView>,
)
    requires
        verdict_for(services, Some(uuid), operation, verdict),
    ensures
        verdict == Err::<Target, RpcErrorView>(RpcErrorView::NotFound) <==> unknown(services, uuid),
        verdict is Ok <==> exists|target: Target|
            first_match(services, uuid, target) && target.flags(services).permits(operation),
        !(verdict matches Err(RpcErrorView::DeviceError(_))),
{
    if verdict == Err::<Target, RpcErrorView>(RpcErrorView::Unsupported) {
        let refused = choose|target: Target|
            first_match(services, uuid, target) && !target.flags(services).permits(operation);
        assert forall|target: Target|
            first_match(services, uuid, target) implies !target.flags(services).permits(
            operation,
        ) by {
            lemma_first_match_is_unique(services, uuid, target, refused);
        }
    }
}

/// Hardware calls on one characteristic take turns, and calls on different
/// characteristics do not wait for each other. Once a call on `target` has
/// been admitted, which makes the characteristic busy, a second call on it is
/// not admitted until the first is over; whether a call on `other` is admitted
/// is the same as before.
pub proof fn lemma_calls_take_turns(busy: Set<Target>, target: Target, other: Target)
    requires
        other != target,
    ensures
        busy.insert(target).contains(target),
        !busy.insert(target).remove(target).contains(target),
        busy.insert(target).contains(other) == busy.contains(other),
        busy.remove(target).contains(other) == busy.contains(other),
{
}

/// Subscriptions do not leak. After a subscribe on `target`, the end of the
/// subscription switches the hardware notifications off exactly once: an
/// unsubscribe or the drop of the stream, whichever comes first, finds them on,
/// and whichever comes second finds them off already. Other characteristics
/// are not touched.
pub proof fn lemma_subscriptions_are_paired(subscribed: Set<Target>, target: Target, other: Target)
    requires
        other != target,
    ensures
        subscribed.insert(target).contains(target),
        !subscribed.insert(target).remove(target).contains(target),
        subscribed.insert(target).remove(target).remove(target) == subscribed.insert(target).remove(
            target,
        ),
        subscribed.insert(target).remove(target).contains(other) == subscribed.contains(other),
{
}

} // verus!
