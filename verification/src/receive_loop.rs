//! The receive loop: take a delivery, route it by its kind, acknowledge or reject it.
use crate::message::Message;
use vstd::prelude::*;

verus! {

/// A call that the host makes on behalf of the loop.
#[derive(Debug)]
pub enum LoopAction<C, E, P, Id> {
    /// Wait for the next delivery.
    Receive,
    /// Run the command path on the command.
    Dispatch(C),
    /// Run the event path on the event.
    HandleEvent(E),
    /// Hand the projection to the projector.
    Project(P),
    /// Acknowledge the delivery.
    Ack(Id),
    /// Reject the delivery; the error is why, for whoever keeps a log.
    Nack(Id, anyhow::Error),
    /// The loop is over: hand this result to the caller.
    Return(Result<(), anyhow::Error>),
}

/// How a call ended, as the host reports it.
#[derive(Debug)]
pub enum LoopReply<C, E, P, Id> {
    /// The next delivery, or `None` when the transport's sequence has ended.
    Delivered(Option<(Id, Message<C, E, P>)>),
    /// The routed operation returned.
    Routed(Result<(), anyhow::Error>),
    /// The acknowledgement, or the rejection, returned.
    Settled(Result<(), anyhow::Error>),
}

/// Where the loop stands.
#[derive(Debug)]
pub enum ReceiveLoop<Id> {
    /// Waiting for a delivery.
    Receiving,
    /// The delivery with this identifier is being handled.
    Routing(Id),
    /// The delivery is being acknowledged or rejected.
    Settling,
    /// The loop is over.
    Stopped,
}

/// The call that handles `message`: by its variant, with its payload.
pub open spec fn route_of<C, E, P, Id>(message: Message<C, E, P>) -> LoopAction<C, E, P, Id> {
    match message {
        Message::Command(cmd) => LoopAction::Dispatch(cmd),
        Message::Event(event) => LoopAction::HandleEvent(event),
        Message::Projection(projection) => LoopAction::Project(projection),
    }
}

/// Routes an envelope: a command to the command path, an event to the event
/// path, a projection to the projector.
pub fn route<C, E, P, Id>(message: Message<C, E, P>) -> (out: LoopAction<C, E, P, Id>)
    ensures
        out == route_of::<C, E, P, Id>(message),
{
    match message {
        Message::Command(cmd) => LoopAction::Dispatch(cmd),
        Message::Event(event) => LoopAction::HandleEvent(event),
        Message::Projection(projection) => LoopAction::Project(projection),
    }
}

/// The call that settles a delivery: an acknowledgement after success, a
/// rejection after failure.
pub open spec fn settlement_of<C, E, P, Id>(
    id: Id,
    routed: Result<(), anyhow::Error>,
) -> LoopAction<C, E, P, Id> {
    match routed {
        Ok(_) => LoopAction::Ack(id),
        Err(e) => LoopAction::Nack(id, e),
    }
}

impl<Id> ReceiveLoop<Id> {
    /// The loop waits for the outcome of `action`.
    pub open spec fn awaits<C, E, P>(self, action: LoopAction<C, E, P, Id>) -> bool {
        match (self, action) {
            (ReceiveLoop::Receiving, LoopAction::Receive) => true,
            (ReceiveLoop::Routing(_), LoopAction::Dispatch(_)) => true,
            (ReceiveLoop::Routing(_), LoopAction::HandleEvent(_)) => true,
            (ReceiveLoop::Routing(_), LoopAction::Project(_)) => true,
            (ReceiveLoop::Settling, LoopAction::Ack(_)) => true,
            (ReceiveLoop::Settling, LoopAction::Nack(_, _)) => true,
            (ReceiveLoop::Stopped, LoopAction::Return(_)) => true,
            _ => false,
        }
    }

    /// The transition table. `None` where `reply` is no answer to the call in
    /// flight; else the next state and the next call.
    ///
    /// A routed operation that fails costs its delivery a rejection and the
    /// loop nothing. The loop stops when the sequence of deliveries ends, and
    /// when an acknowledgement or a rejection fails.
    pub open spec fn advance<C, E, P>(self, reply: LoopReply<C, E, P, Id>) -> Option<
        (ReceiveLoop<Id>, LoopAction<C, E, P, Id>),
    > {
        match (self, reply) {
            (ReceiveLoop::Receiving, LoopReply::Delivered(Some((id, message)))) => Some(
                (ReceiveLoop::Routing(id), route_of(message)),
            ),
            (ReceiveLoop::Receiving, LoopReply::Delivered(None)) => Some(
                (ReceiveLoop::Stopped, LoopAction::Return(Ok(()))),
            ),
            (ReceiveLoop::Routing(id), LoopReply::Routed(outcome)) => Some(
                (ReceiveLoop::Settling, settlement_of(id, outcome)),
            ),
            (ReceiveLoop::Settling, LoopReply::Settled(Ok(_))) => Some(
                (ReceiveLoop::Receiving, LoopAction::Receive),
            ),
            (ReceiveLoop::Settling, LoopReply::Settled(Err(e))) => Some(
                (ReceiveLoop::Stopped, LoopAction::Return(Err(e))),
            ),
            _ => None,
        }
    }

    /// Starts the loop: the first call is to wait for a delivery.
    pub fn begin<C, E, P>() -> (out: (ReceiveLoop<Id>, LoopAction<C, E, P, Id>))
        ensures
            out.0 == ReceiveLoop::<Id>::Receiving,
            out.1 == LoopAction::<C, E, P, Id>::Receive,
    {
        (ReceiveLoop::Receiving, LoopAction::Receive)
    }

    /// Takes the outcome of the call in flight and names the next call.
    ///
    /// A reply that does not answer the call in flight changes nothing: it
    /// comes back in `Err`, beside the loop as it was.
    pub fn step<C, E, P>(self, reply: LoopReply<C, E, P, Id>) -> (out: Result<
        (ReceiveLoop<Id>, LoopAction<C, E, P, Id>),
        (ReceiveLoop<Id>, LoopReply<C, E, P, Id>),
    >)
        ensures
            match self.advance(reply) {
                Some(next) => out == Ok::<_, (ReceiveLoop<Id>, LoopReply<C, E, P, Id>)>(next),
                None => out == Err::<(ReceiveLoop<Id>, LoopAction<C, E, P, Id>), _>((self, reply)),
            },
    {
        match (self, reply) {
            (ReceiveLoop::Receiving, LoopReply::Delivered(Some((id, message)))) => Ok(
                (ReceiveLoop::Routing(id), route(message)),
            ),
            (ReceiveLoop::Receiving, LoopReply::Delivered(None)) => Ok(
                (ReceiveLoop::Stopped, LoopAction::Return(Ok(()))),
            ),
            (ReceiveLoop::Routing(id), LoopReply::Routed(Ok(_))) => Ok(
                (ReceiveLoop::Settling, LoopAction::Ack(id)),
            ),
            (ReceiveLoop::Routing(id), LoopReply::Routed(Err(e))) => Ok(
                (ReceiveLoop::Settling, LoopAction::Nack(id, e)),
            ),
            (ReceiveLoop::Settling, LoopReply::Settled(Ok(_))) => Ok(
                (ReceiveLoop::Receiving, LoopAction::Receive),
            ),
            (ReceiveLoop::Settling, LoopReply::Settled(Err(e))) => Ok(
                (ReceiveLoop::Stopped, LoopAction::Return(Err(e))),
            ),
            (flow, reply) => Err((flow, reply)),
        }
    }
}

/// One delivery, and how the calls made for it end.
///
/// Any sequence of such values is a possible run of the transport and of the
/// capabilities behind the loop: the laws below hold of all of them.
pub struct Delivery<C, E, P, Id> {
    /// The identifier that the transport gave to the delivery.
    pub id: Id,
    /// The envelope delivered.
    pub message: Message<C, E, P>,
    /// How the routed operation ends.
    pub routed: Result<(), anyhow::Error>,
    /// How the acknowledgement or the rejection ends.
    pub settled: Result<(), anyhow::Error>,
}

impl<C, E, P, Id> Delivery<C, E, P, Id> {
    /// The three calls that the loop makes for this delivery.
    pub open spec fn calls(self) -> Seq<LoopAction<C, E, P, Id>> {
        seq![
            LoopAction::<C, E, P, Id>::Receive,
            route_of(self.message),
            settlement_of(self.id, self.routed),
        ]
    }
}

impl<Id> ReceiveLoop<Id> {
    /// A bound on the steps still to come for the delivery at hand.
    pub open spec fn remaining(self) -> nat {
        match self {
            ReceiveLoop::Receiving => 3,
            ReceiveLoop::Routing(_) => 2,
            ReceiveLoop::Settling => 1,
            ReceiveLoop::Stopped => 0,
        }
    }
}

/// The reply to `action` when `pending` are the deliveries still to be
/// settled, the first of them being the one at hand.
pub open spec fn answer<C, E, P, Id>(
    action: LoopAction<C, E, P, Id>,
    pending: Seq<Delivery<C, E, P, Id>>,
) -> Option<LoopReply<C, E, P, Id>> {
    match action {
        LoopAction::Receive => Some(
            LoopReply::Delivered(
                if pending.len() > 0 {
                    Some((pending[0].id, pending[0].message))
                } else {
                    None
                },
            ),
        ),
        LoopAction::Dispatch(_) | LoopAction::HandleEvent(_) | LoopAction::Project(_) => {
            if pending.len() > 0 {
                Some(LoopReply::Routed(pending[0].routed))
            } else {
                None
            }
        },
        LoopAction::Ack(_) | LoopAction::Nack(_, _) => {
            if pending.len() > 0 {
                Some(LoopReply::Settled(pending[0].settled))
            } else {
                None
            }
        },
        LoopAction::Return(_) => None,
    }
}

/// The deliveries still to be settled once `action` is answered.
pub open spec fn left_after<C, E, P, Id>(
    action: LoopAction<C, E, P, Id>,
    pending: Seq<Delivery<C, E, P, Id>>,
) -> Seq<Delivery<C, E, P, Id>> {
    if (action is Ack || action is Nack) && pending.len() > 0 {
        pending.drop_first()
    } else {
        pending
    }
}

/// The calls that follow from `action` on, `action` included, when the
/// transport delivers `pending` and then ends.
pub open spec fn calls_from<C, E, P, Id>(
    flow: ReceiveLoop<Id>,
    action: LoopAction<C, E, P, Id>,
    pending: Seq<Delivery<C, E, P, Id>>,
) -> Seq<LoopAction<C, E, P, Id>>
    decreases pending.len(), flow.remaining(),
{
    match answer(action, pending) {
        None => seq![action],
        Some(reply) => match flow.advance(reply) {
            Some((next, then)) if left_after(action, pending).len() < pending.len() || (left_after(
                action,
                pending,
            ) == pending && next.remaining() < flow.remaining()) => seq![action] + calls_from(
                next,
                then,
                left_after(action, pending),
            ),
            _ => seq![action],
        },
    }
}

/// Every call that the loop makes, in order, when the transport delivers
/// `deliveries` and then ends.
pub open spec fn loop_calls<C, E, P, Id>(deliveries: Seq<Delivery<C, E, P, Id>>) -> Seq<
    LoopAction<C, E, P, Id>,
> {
    calls_from(ReceiveLoop::Receiving, LoopAction::Receive, deliveries)
}

/// How many of `calls` are acknowledgements.
pub open spec fn acks<C, E, P, Id>(calls: Seq<LoopAction<C, E, P, Id>>) -> nat
    decreases calls.len(),
{
    if calls.len() == 0 {
        0
    } else {
        (if calls[0] is Ack {
            1nat
        } else {
            0nat
        }) + acks(calls.drop_first())
    }
}

/// How many of `calls` are rejections.
pub open spec fn nacks<C, E, P, Id>(calls: Seq<LoopAction<C, E, P, Id>>) -> nat
    decreases calls.len(),
{
    if calls.len() == 0 {
        0
    } else {
        (if calls[0] is Nack {
            1nat
        } else {
            0nat
        }) + nacks(calls.drop_first())
    }
}

/// How many of `deliveries` have a routed operation that succeeds.
pub open spec fn successes<C, E, P, Id>(deliveries: Seq<Delivery<C, E, P, Id>>) -> nat
    decreases deliveries.len(),
{
    if deliveries.len() == 0 {
        0
    } else {
        (if deliveries[0].routed is Ok {
            1nat
        } else {
            0nat
        }) + successes(deliveries.drop_first())
    }
}

/// No acknowledgement and no rejection fails.
pub open spec fn all_settle<C, E, P, Id>(deliveries: Seq<Delivery<C, E, P, Id>>) -> bool {
    forall|j: int| 0 <= j < deliveries.len() ==> (#[trigger] deliveries[j]).settled is Ok
}

/// Every routed operation succeeds.
pub open spec fn all_succeed<C, E, P, Id>(deliveries: Seq<Delivery<C, E, P, Id>>) -> bool {
    forall|j: int| 0 <= j < deliveries.len() ==> (#[trigger] deliveries[j]).routed is Ok
}

/// With nothing left to deliver the loop waits once more and returns `Ok`.
pub proof fn ended_transport_stops_loop<C, E, P, Id>()
    ensures
        loop_calls(Seq::<Delivery<C, E, P, Id>>::empty()) == seq![
            LoopAction::<C, E, P, Id>::Receive,
            LoopAction::Return(Ok(())),
        ],
{
    reveal_with_fuel(calls_from, 3);
}

/// A delivery that is settled costs three calls; then the loop goes on with
/// the deliveries behind it.
pub proof fn settled_delivery_is_followed_by_the_rest<C, E, P, Id>(
    deliveries: Seq<Delivery<C, E, P, Id>>,
)
    requires
        deliveries.len() > 0,
        deliveries[0].settled is Ok,
    ensures
        loop_calls(deliveries) == deliveries[0].calls() + loop_calls(deliveries.drop_first()),
{
    reveal_with_fuel(calls_from, 4);
    let rest = loop_calls(deliveries.drop_first());
    assert(loop_calls(deliveries) =~= deliveries[0].calls() + rest);
}

/// An acknowledgement or a rejection that fails ends the loop: its error is
/// returned and nothing more is received.
pub proof fn failed_settlement_stops_loop<C, E, P, Id>(deliveries: Seq<Delivery<C, E, P, Id>>)
    requires
        deliveries.len() > 0,
        deliveries[0].settled is Err,
    ensures
        loop_calls(deliveries) == deliveries[0].calls().push(
            LoopAction::Return(Err(deliveries[0].settled->Err_0)),
        ),
{
    reveal_with_fuel(calls_from, 5);
    assert(loop_calls(deliveries) =~= deliveries[0].calls().push(
        LoopAction::Return(Err(deliveries[0].settled->Err_0)),
    ));
}

proof fn rest_settles<C, E, P, Id>(deliveries: Seq<Delivery<C, E, P, Id>>)
    requires
        deliveries.len() > 0,
    ensures
        all_settle(deliveries) ==> all_settle(deliveries.drop_first()),
        all_succeed(deliveries) ==> all_succeed(deliveries.drop_first()),
{
    let rest = deliveries.drop_first();
    assert forall|j: int| 0 <= j < rest.len() implies rest[j] == deliveries[j + 1] by {}
}

/// While no acknowledgement and no rejection fails, the loop stops only when
/// the transport ends: it makes three calls for each delivery, then waits
/// once more, learns that nothing is left, and returns `Ok`.
pub proof fn loop_ends_with_the_transport<C, E, P, Id>(deliveries: Seq<Delivery<C, E, P, Id>>)
    requires
        all_settle(deliveries),
    ensures
        loop_calls(deliveries).len() == 3 * deliveries.len() + 2,
        loop_calls(deliveries)[3 * deliveries.len() as int] == LoopAction::<C, E, P, Id>::Receive,
        loop_calls(deliveries)[3 * deliveries.len() as int + 1] == LoopAction::<C, E, P, Id>::Return(
            Ok(()),
        ),
    decreases deliveries.len(),
{
    if deliveries.len() == 0 {
        ended_transport_stops_loop::<C, E, P, Id>();
        assert(deliveries =~= Seq::empty());
    } else {
        let rest = deliveries.drop_first();
        rest_settles(deliveries);
        settled_delivery_is_followed_by_the_rest(deliveries);
        loop_ends_with_the_transport(rest);
        assert(loop_calls(deliveries)[3 * deliveries.len() as int] == loop_calls(rest)[3 * rest.len() as int]);
        assert(loop_calls(deliveries)[3 * deliveries.len() as int + 1] == loop_calls(rest)[3 * rest.len() as int + 1]);
    }
}

proof fn delivery_is_handled_at_its_place<C, E, P, Id>(
    deliveries: Seq<Delivery<C, E, P, Id>>,
    i: int,
)
    requires
        all_settle(deliveries),
        0 <= i < deliveries.len(),
    ensures
        loop_calls(deliveries).len() == 3 * deliveries.len() + 2,
        loop_calls(deliveries)[3 * i] == LoopAction::<C, E, P, Id>::Receive,
        loop_calls(deliveries)[3 * i + 1] == route_of::<C, E, P, Id>(deliveries[i].message),
        loop_calls(deliveries)[3 * i + 2] == settlement_of::<C, E, P, Id>(
            deliveries[i].id,
            deliveries[i].routed,
        ),
    decreases deliveries.len(),
{
    let rest = deliveries.drop_first();
    rest_settles(deliveries);
    settled_delivery_is_followed_by_the_rest(deliveries);
    loop_ends_with_the_transport(deliveries);
    if i > 0 {
        delivery_is_handled_at_its_place(rest, i - 1);
        assert(rest[i - 1] == deliveries[i]);
        assert(loop_calls(deliveries)[3 * i] == loop_calls(rest)[3 * (i - 1)]);
        assert(loop_calls(deliveries)[3 * i + 1] == loop_calls(rest)[3 * (i - 1) + 1]);
        assert(loop_calls(deliveries)[3 * i + 2] == loop_calls(rest)[3 * (i - 1) + 2]);
    }
}

/// While no acknowledgement and no rejection fails, the loop handles the
/// deliveries one at a time and in the order of delivery: it receives the
/// delivery, routes the envelope by its kind, and settles the delivery under
/// its own identifier, by an acknowledgement if the routed operation
/// succeeded and by a rejection if it failed.
pub proof fn deliveries_are_handled_in_turn<C, E, P, Id>(deliveries: Seq<Delivery<C, E, P, Id>>)
    requires
        all_settle(deliveries),
    ensures
        forall|i: int|
            0 <= i < deliveries.len() ==> {
                &&& loop_calls(deliveries)[3 * i] == LoopAction::<C, E, P, Id>::Receive
                &&& loop_calls(deliveries)[3 * i + 1] == route_of::<C, E, P, Id>(
                    (#[trigger] deliveries[i]).message,
                )
                &&& loop_calls(deliveries)[3 * i + 2] == settlement_of::<C, E, P, Id>(
                    deliveries[i].id,
                    deliveries[i].routed,
                )
            },
{
    assert forall|i: int| 0 <= i < deliveries.len() implies {
        &&& loop_calls(deliveries)[3 * i] == LoopAction::<C, E, P, Id>::Receive
        &&& loop_calls(deliveries)[3 * i + 1] == route_of::<C, E, P, Id>(
            (#[trigger] deliveries[i]).message,
        )
        &&& loop_calls(deliveries)[3 * i + 2] == settlement_of::<C, E, P, Id>(
            deliveries[i].id,
            deliveries[i].routed,
        )
    } by {
        delivery_is_handled_at_its_place(deliveries, i);
    }
}

proof fn counts_of_concat<C, E, P, Id>(
    a: Seq<LoopAction<C, E, P, Id>>,
    b: Seq<LoopAction<C, E, P, Id>>,
)
    ensures
        acks(a + b) == acks(a) + acks(b),
        nacks(a + b) == nacks(a) + nacks(b),
    decreases a.len(),
{
    if a.len() == 0 {
        assert(a + b =~= b);
    } else {
        counts_of_concat(a.drop_first(), b);
        assert((a + b).drop_first() =~= a.drop_first() + b);
    }
}

/// While no acknowledgement and no rejection fails, each delivery is settled
/// once: the loop acknowledges as many deliveries as have a routed operation
/// that succeeds, and rejects the others.
pub proof fn each_delivery_is_settled_once<C, E, P, Id>(deliveries: Seq<Delivery<C, E, P, Id>>)
    requires
        all_settle(deliveries),
    ensures
        acks(loop_calls(deliveries)) == successes(deliveries),
        nacks(loop_calls(deliveries)) == deliveries.len() - successes(deliveries),
        successes(deliveries) <= deliveries.len(),
    decreases deliveries.len(),
{
    if deliveries.len() == 0 {
        ended_transport_stops_loop::<C, E, P, Id>();
        assert(deliveries =~= Seq::empty());
        reveal_with_fuel(acks, 3);
        reveal_with_fuel(nacks, 3);
    } else {
        let rest = deliveries.drop_first();
        rest_settles(deliveries);
        settled_delivery_is_followed_by_the_rest(deliveries);
        each_delivery_is_settled_once(rest);
        counts_of_concat(deliveries[0].calls(), loop_calls(rest));
        reveal_with_fuel(acks, 4);
        reveal_with_fuel(nacks, 4);
    }
}

proof fn all_count_as_successes<C, E, P, Id>(deliveries: Seq<Delivery<C, E, P, Id>>)
    requires
        all_succeed(deliveries),
    ensures
        successes(deliveries) == deliveries.len(),
    decreases deliveries.len(),
{
    if deliveries.len() > 0 {
        rest_settles(deliveries);
        all_count_as_successes(deliveries.drop_first());
    }
}

/// Where every routed operation succeeds and every acknowledgement goes
/// through, `n` deliveries get `n` acknowledgements and no rejection: each
/// delivery is acknowledged under its own identifier, and after each
/// acknowledgement the loop receives again.
pub proof fn all_acknowledged_when_all_succeed<C, E, P, Id>(
    deliveries: Seq<Delivery<C, E, P, Id>>,
)
    requires
        all_succeed(deliveries),
        all_settle(deliveries),
    ensures
        acks(loop_calls(deliveries)) == deliveries.len(),
        nacks(loop_calls(deliveries)) == 0,
        forall|i: int|
            0 <= i < deliveries.len() ==> {
                &&& loop_calls(deliveries)[3 * i + 2] == LoopAction::<C, E, P, Id>::Ack(
                    (#[trigger] deliveries[i]).id,
                )
                &&& loop_calls(deliveries)[3 * i + 3] == LoopAction::<C, E, P, Id>::Receive
            },
{
    each_delivery_is_settled_once(deliveries);
    all_count_as_successes(deliveries);
    loop_ends_with_the_transport(deliveries);
    assert forall|i: int| 0 <= i < deliveries.len() implies {
        &&& loop_calls(deliveries)[3 * i + 2] == LoopAction::<C, E, P, Id>::Ack(
            (#[trigger] deliveries[i]).id,
        )
        &&& loop_calls(deliveries)[3 * i + 3] == LoopAction::<C, E, P, Id>::Receive
    } by {
        delivery_is_handled_at_its_place(deliveries, i);
        if i + 1 < deliveries.len() {
            delivery_is_handled_at_its_place(deliveries, i + 1);
        }
    }
}

/// One failure does not halt the loop: where the routed operation of delivery
/// `k` fails and no acknowledgement or rejection does, delivery `k` is
/// rejected with the error of its operation, and the loop then receives
/// again; if a delivery follows, it is routed as any other.
pub proof fn failure_is_rejected_and_loop_goes_on<C, E, P, Id>(
    deliveries: Seq<Delivery<C, E, P, Id>>,
    k: int,
)
    requires
        all_settle(deliveries),
        0 <= k < deliveries.len(),
        deliveries[k].routed is Err,
    ensures
        loop_calls(deliveries)[3 * k + 2] == LoopAction::<C, E, P, Id>::Nack(
            deliveries[k].id,
            deliveries[k].routed->Err_0,
        ),
        loop_calls(deliveries)[3 * k + 3] == LoopAction::<C, E, P, Id>::Receive,
        k + 1 < deliveries.len() ==> loop_calls(deliveries)[3 * k + 4] == route_of::<C, E, P, Id>(
            deliveries[k + 1].message,
        ),
{
    delivery_is_handled_at_its_place(deliveries, k);
    loop_ends_with_the_transport(deliveries);
    if k + 1 < deliveries.len() {
        delivery_is_handled_at_its_place(deliveries, k + 1);
    }
}

} // verus!
