//! The path of one event: policy context, policy, publish, close.
use crate::message::{side_effect_envelopes, wrap_side_effects, Message, SideEffect};
use vstd::prelude::*;

verus! {

/// A call that the host makes on behalf of an event in flight.
#[derive(Debug)]
pub enum EventAction<C, E, P> {
    /// Create a policy context.
    OpenContext,
    /// Apply the policy to the event, with the context.
    Apply,
    /// Publish the batch in one call.
    PublishBatch(Vec<Message<C, E, P>>),
    /// Close the context.
    Close,
    /// Nothing is left to do: hand this result to the caller.
    Return(Result<(), anyhow::Error>),
}

/// An [`EventAction`] with its batch as a sequence.
pub enum EventActionView<C, E, P> {
    OpenContext,
    Apply,
    PublishBatch(Seq<Message<C, E, P>>),
    Close,
    Return(Result<(), anyhow::Error>),
}

impl<C, E, P> View for EventAction<C, E, P> {
    type V = EventActionView<C, E, P>;

    open spec fn view(&self) -> EventActionView<C, E, P> {
        match *self {
            EventAction::OpenContext => EventActionView::OpenContext,
            EventAction::Apply => EventActionView::Apply,
            EventAction::PublishBatch(batch) => EventActionView::PublishBatch(batch@),
            EventAction::Close => EventActionView::Close,
            EventAction::Return(result) => EventActionView::Return(result),
        }
    }
}

/// How a call ended, as the host reports it.
#[derive(Debug)]
pub enum EventReply<C, P> {
    /// The factory made a context, or failed.
    Opened(Result<(), anyhow::Error>),
    /// The policy returned its side effects, or failed.
    Applied(Result<Vec<SideEffect<C, P>>, anyhow::Error>),
    /// The broker took the batch, or failed.
    Published(Result<(), anyhow::Error>),
    /// The context's close returned.
    Closed(Result<(), anyhow::Error>),
}

/// An [`EventReply`] with its side effects as a sequence.
pub enum EventReplyView<C, P> {
    Opened(Result<(), anyhow::Error>),
    Applied(Result<Seq<SideEffect<C, P>>, anyhow::Error>),
    Published(Result<(), anyhow::Error>),
    Closed(Result<(), anyhow::Error>),
}

impl<C, P> View for EventReply<C, P> {
    type V = EventReplyView<C, P>;

    open spec fn view(&self) -> EventReplyView<C, P> {
        match *self {
            EventReply::Opened(r) => EventReplyView::Opened(r),
            EventReply::Applied(r) => EventReplyView::Applied(
                match r {
                    Ok(effects) => Ok(effects@),
                    Err(e) => Err(e),
                },
            ),
            EventReply::Published(r) => EventReplyView::Published(r),
            EventReply::Closed(r) => EventReplyView::Closed(r),
        }
    }
}

/// Where an event stands: which call is in flight, and what is kept for later.
#[derive(Debug)]
pub enum EventFlow {
    /// The context is being created.
    Opening,
    /// The policy is running.
    Applying,
    /// The policy succeeded; its side effects are being published.
    Publishing,
    /// The context is being closed; this is how evaluation and publishing ended.
    Closing(Result<(), anyhow::Error>),
    /// The result was handed out.
    Finished,
}

impl EventFlow {
    /// A bound on the steps still to come; each step lowers it.
    pub open spec fn remaining(self) -> nat {
        match self {
            EventFlow::Opening => 4,
            EventFlow::Applying => 3,
            EventFlow::Publishing => 2,
            EventFlow::Closing(_) => 1,
            EventFlow::Finished => 0,
        }
    }

    /// The flow waits for the outcome of `action`.
    pub open spec fn awaits<C, E, P>(self, action: EventActionView<C, E, P>) -> bool {
        match (self, action) {
            (EventFlow::Opening, EventActionView::OpenContext) => true,
            (EventFlow::Applying, EventActionView::Apply) => true,
            (EventFlow::Publishing, EventActionView::PublishBatch(_)) => true,
            (EventFlow::Closing(_), EventActionView::Close) => true,
            (EventFlow::Finished, EventActionView::Return(_)) => true,
            _ => false,
        }
    }

    /// The transition table. `None` where `reply` is no answer to the call in
    /// flight; else the next state and the next call.
    ///
    /// Once a context exists, every way on leads through `Closing`. A failure
    /// of the policy or of the broker is kept there and returned after the
    /// close, whatever the close answers; after a success the answer of the
    /// close is the result.
    pub open spec fn advance<C, E, P>(self, reply: EventReplyView<C, P>) -> Option<
        (EventFlow, EventActionView<C, E, P>),
    > {
        match (self, reply) {
            (EventFlow::Opening, EventReplyView::Opened(Ok(_))) => Some(
                (EventFlow::Applying, EventActionView::Apply),
            ),
            (EventFlow::Opening, EventReplyView::Opened(Err(e))) => Some(
                (EventFlow::Finished, EventActionView::Return(Err(e))),
            ),
            (EventFlow::Applying, EventReplyView::Applied(Ok(effects))) => Some(
                (
                    EventFlow::Publishing,
                    EventActionView::PublishBatch(side_effect_envelopes(effects)),
                ),
            ),
            (EventFlow::Applying, EventReplyView::Applied(Err(e))) => Some(
                (EventFlow::Closing(Err(e)), EventActionView::Close),
            ),
            (EventFlow::Publishing, EventReplyView::Published(outcome)) => Some(
                (EventFlow::Closing(outcome), EventActionView::Close),
            ),
            (EventFlow::Closing(Ok(_)), EventReplyView::Closed(outcome)) => Some(
                (EventFlow::Finished, EventActionView::Return(outcome)),
            ),
            (EventFlow::Closing(Err(e)), EventReplyView::Closed(_)) => Some(
                (EventFlow::Finished, EventActionView::Return(Err(e))),
            ),
            _ => None,
        }
    }

    /// Starts on an event: the first call is to create a policy context.
    pub fn begin<C, E, P>() -> (out: (EventFlow, EventAction<C, E, P>))
        ensures
            out.0 == EventFlow::Opening,
            out.1@ == EventActionView::<C, E, P>::OpenContext,
    {
        (EventFlow::Opening, EventAction::OpenContext)
    }

    /// Takes the outcome of the call in flight and names the next call.
    ///
    /// A reply that does not answer the call in flight changes nothing: it
    /// comes back in `Err`, beside the flow as it was.
    pub fn step<C, E, P>(self, reply: EventReply<C, P>) -> (out: Result<
        (EventFlow, EventAction<C, E, P>),
        (EventFlow, EventReply<C, P>),
    >)
        ensures
            match self.advance::<C, E, P>(reply@) {
                Some((next, action)) => out matches Ok((flow, call)) && flow == next && call@
                    == action,
                None => out matches Err((flow, back)) && flow == self && back == reply,
            },
    {
        match (self, reply) {
            (EventFlow::Opening, EventReply::Opened(Ok(_))) => Ok(
                (EventFlow::Applying, EventAction::Apply),
            ),
            (EventFlow::Opening, EventReply::Opened(Err(e))) => Ok(
                (EventFlow::Finished, EventAction::Return(Err(e))),
            ),
            (EventFlow::Applying, EventReply::Applied(Ok(effects))) => Ok(
                (EventFlow::Publishing, EventAction::PublishBatch(wrap_side_effects(effects))),
            ),
            (EventFlow::Applying, EventReply::Applied(Err(e))) => Ok(
                (EventFlow::Closing(Err(e)), EventAction::Close),
            ),
            (EventFlow::Publishing, EventReply::Published(outcome)) => Ok(
                (EventFlow::Closing(outcome), EventAction::Close),
            ),
            (EventFlow::Closing(Ok(_)), EventReply::Closed(outcome)) => Ok(
                (EventFlow::Finished, EventAction::Return(outcome)),
            ),
            (EventFlow::Closing(Err(e)), EventReply::Closed(_)) => Ok(
                (EventFlow::Finished, EventAction::Return(Err(e))),
            ),
            (flow, reply) => Err((flow, reply)),
        }
    }
}

/// What each capability answers for one event, should the bus call it.
///
/// Any four answers make a value of this type: the laws below hold however
/// the capabilities behave.
pub struct EventOutcomes<C, P> {
    /// The factory's answer.
    pub opened: Result<(), anyhow::Error>,
    /// The policy's answer: its side effects.
    pub applied: Result<Seq<SideEffect<C, P>>, anyhow::Error>,
    /// The broker's answer to the batch.
    pub published: Result<(), anyhow::Error>,
    /// The answer of the context to the close.
    pub closed: Result<(), anyhow::Error>,
}

impl<C, P> EventOutcomes<C, P> {
    /// The reply that these outcomes give to `action`; `None` for `Return`,
    /// which calls nothing.
    pub open spec fn answer<E>(self, action: EventActionView<C, E, P>) -> Option<
        EventReplyView<C, P>,
    > {
        match action {
            EventActionView::OpenContext => Some(EventReplyView::Opened(self.opened)),
            EventActionView::Apply => Some(EventReplyView::Applied(self.applied)),
            EventActionView::PublishBatch(_) => Some(EventReplyView::Published(self.published)),
            EventActionView::Close => Some(EventReplyView::Closed(self.closed)),
            EventActionView::Return(_) => None,
        }
    }

    /// What `handle_event` returns under these outcomes.
    pub open spec fn result(self) -> Result<(), anyhow::Error> {
        match (self.opened, self.applied, self.published) {
            (Err(e), _, _) => Err(e),
            (Ok(_), Err(e), _) => Err(e),
            (Ok(_), Ok(_), Err(e)) => Err(e),
            (Ok(_), Ok(_), Ok(_)) => self.closed,
        }
    }
}

/// The calls that follow from `action` on, `action` included, when every call
/// is answered as `outcomes` says.
pub open spec fn calls_from<C, E, P>(
    flow: EventFlow,
    action: EventActionView<C, E, P>,
    outcomes: EventOutcomes<C, P>,
) -> Seq<EventActionView<C, E, P>>
    decreases flow.remaining(),
{
    match outcomes.answer(action) {
        None => seq![action],
        Some(reply) => match flow.advance::<C, E, P>(reply) {
            Some((next, then)) if next.remaining() < flow.remaining() => seq![action] + calls_from(
                next,
                then,
                outcomes,
            ),
            _ => seq![action],
        },
    }
}

/// Every call made for one event, in order, ending with `Return`.
pub open spec fn handle_event_calls<C, E, P>(outcomes: EventOutcomes<C, P>) -> Seq<
    EventActionView<C, E, P>,
> {
    calls_from(EventFlow::Opening, EventActionView::OpenContext, outcomes)
}

/// Each step leaves fewer calls to come, and the call it names is the one
/// that the next state waits for.
pub proof fn step_makes_progress<C, E, P>(flow: EventFlow, reply: EventReplyView<C, P>)
    ensures
        flow.advance::<C, E, P>(reply) matches Some((next, action)) ==> next.remaining()
            < flow.remaining() && next.awaits(action),
{
}

/// The outcome of the call in flight is always taken, whatever it is.
pub proof fn answer_is_taken<C, E, P>(
    flow: EventFlow,
    action: EventActionView<C, E, P>,
    outcomes: EventOutcomes<C, P>,
)
    requires
        flow.awaits(action),
        !(action is Return),
    ensures
        outcomes.answer(action) matches Some(reply) && flow.advance::<C, E, P>(reply) is Some,
{
}

/// Where a policy context is made, it is closed exactly once, whether the
/// policy and the broker succeed or fail: the close is the last call before
/// the return, and no other call is a close.
pub proof fn context_closed_once<C, E, P>(outcomes: EventOutcomes<C, P>)
    requires
        outcomes.opened is Ok,
    ensures
        handle_event_calls::<C, E, P>(outcomes).len() >= 4,
        handle_event_calls::<C, E, P>(outcomes).last() is Return,
        forall|k: int|
            0 <= k < handle_event_calls::<C, E, P>(outcomes).len() ==> (
            #[trigger] handle_event_calls::<C, E, P>(outcomes)[k] is Close <==> k + 2
                == handle_event_calls::<C, E, P>(outcomes).len()),
{
    reveal_with_fuel(calls_from, 6);
}

/// Where no policy context can be made, there is none to close: nothing else
/// is called, and the factory's error is returned.
pub proof fn failed_factory_calls_nothing<C, E, P>(outcomes: EventOutcomes<C, P>)
    requires
        outcomes.opened is Err,
    ensures
        handle_event_calls::<C, E, P>(outcomes) == seq![
            EventActionView::<C, E, P>::OpenContext,
            EventActionView::Return(Err(outcomes.opened->Err_0)),
        ],
{
    reveal_with_fuel(calls_from, 6);
}

/// Where the policy succeeds, its side effects are published as one batch:
/// one envelope for each, of the matching variant, in the policy's order.
/// Then the context is closed.
pub proof fn side_effects_published_in_order<C, E, P>(outcomes: EventOutcomes<C, P>)
    requires
        outcomes.opened is Ok,
        outcomes.applied is Ok,
    ensures
        handle_event_calls::<C, E, P>(outcomes) == seq![
            EventActionView::<C, E, P>::OpenContext,
            EventActionView::Apply,
            EventActionView::PublishBatch(side_effect_envelopes(outcomes.applied->Ok_0)),
            EventActionView::Close,
            EventActionView::Return(outcomes.result()),
        ],
{
    reveal_with_fuel(calls_from, 6);
}

/// Where the policy fails, nothing is published, the context is closed, and
/// the policy's error is returned whatever the close answers.
pub proof fn failed_policy_publishes_nothing<C, E, P>(outcomes: EventOutcomes<C, P>)
    requires
        outcomes.opened is Ok,
        outcomes.applied is Err,
    ensures
        handle_event_calls::<C, E, P>(outcomes) == seq![
            EventActionView::<C, E, P>::OpenContext,
            EventActionView::Apply,
            EventActionView::Close,
            EventActionView::Return(Err(outcomes.applied->Err_0)),
        ],
{
    reveal_with_fuel(calls_from, 6);
}

/// The calls always end with `Return`, and it carries [`EventOutcomes::result`].
pub proof fn handle_event_returns_result<C, E, P>(outcomes: EventOutcomes<C, P>)
    ensures
        handle_event_calls::<C, E, P>(outcomes).last() == EventActionView::<
            C,
            E,
            P,
        >::Return(outcomes.result()),
{
    reveal_with_fuel(calls_from, 6);
}

} // verus!
