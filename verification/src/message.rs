use crate::driver::MessageBusDriver;
use vstd::prelude::*;

verus! {

/// An envelope that carries one command, one event or one projection.
///
/// The transport moves envelopes without looking inside; the bus routes each
/// one by its variant.
#[derive(Debug, PartialEq, Eq)]
pub enum Message<C, E, P> {
    /// An intent to change domain state.
    Command(C),
    /// A fact: a command's mutation has occurred.
    Event(E),
    /// An instruction for a read model or for infrastructure.
    Projection(P),
}

/// What a policy may ask for in answer to an event.
///
/// There is no variant for events: a policy consumes events and never emits
/// them again.
#[derive(Debug, PartialEq, Eq)]
pub enum SideEffect<C, P> {
    /// A follow-up command.
    Command(C),
    /// A projection.
    Projection(P),
}

/// The envelope of a driver's message types.
pub type DriverMessage<D> = Message<
    <D as MessageBusDriver>::Command,
    <D as MessageBusDriver>::Event,
    <D as MessageBusDriver>::Projection,
>;

/// The side effect of a driver's message types.
pub type DriverSideEffect<D> = SideEffect<
    <D as MessageBusDriver>::Command,
    <D as MessageBusDriver>::Projection,
>;

impl<C, P> SideEffect<C, P> {
    /// The envelope of the same variant around the same payload.
    pub open spec fn envelope<E>(self) -> Message<C, E, P> {
        match self {
            SideEffect::Command(c) => Message::Command(c),
            SideEffect::Projection(p) => Message::Projection(p),
        }
    }

    /// Wraps the side effect in the envelope of the matching variant.
    pub fn into_message<E>(self) -> (out: Message<C, E, P>)
        ensures
            out == self.envelope::<E>(),
    {
        match self {
            SideEffect::Command(c) => Message::Command(c),
            SideEffect::Projection(p) => Message::Projection(p),
        }
    }
}

/// Each event in its envelope, in the same order.
pub open spec fn event_envelopes<C, E, P>(events: Seq<E>) -> Seq<Message<C, E, P>> {
    Seq::new(events.len(), |i: int| Message::Event(events[i]))
}

/// Each side effect in the envelope of its variant, in the same order.
pub open spec fn side_effect_envelopes<C, E, P>(effects: Seq<SideEffect<C, P>>) -> Seq<
    Message<C, E, P>,
> {
    Seq::new(effects.len(), |i: int| effects[i].envelope::<E>())
}

/// Each side effect becomes one envelope, at the same place, of the same
/// variant and around the same payload; none becomes an event.
pub proof fn envelopes_match_side_effects<C, E, P>(effects: Seq<SideEffect<C, P>>, i: int)
    requires
        0 <= i < effects.len(),
    ensures
        side_effect_envelopes::<C, E, P>(effects).len() == effects.len(),
        effects[i] matches SideEffect::Command(cmd) ==> side_effect_envelopes::<C, E, P>(
            effects,
        )[i] == Message::<C, E, P>::Command(cmd),
        effects[i] matches SideEffect::Projection(projection) ==> side_effect_envelopes::<
            C,
            E,
            P,
        >(effects)[i] == Message::<C, E, P>::Projection(projection),
        !(side_effect_envelopes::<C, E, P>(effects)[i] is Event),
{
}

/// Each event becomes one event envelope, at the same place.
pub proof fn envelopes_match_events<C, E, P>(events: Seq<E>, i: int)
    requires
        0 <= i < events.len(),
    ensures
        event_envelopes::<C, E, P>(events).len() == events.len(),
        event_envelopes::<C, E, P>(events)[i] == Message::<C, E, P>::Event(events[i]),
{
}

/// Wraps the events that a unit of work released, one envelope for each and
/// in the order given.
pub fn wrap_events<C, E, P>(events: Vec<E>) -> (out: Vec<Message<C, E, P>>)
    ensures
        out@ == event_envelopes::<C, E, P>(events@),
{
    let mut out: Vec<Message<C, E, P>> = Vec::new();
    for event in it: events.into_iter()
        invariant
            it.seq() == events@,
            out@ == event_envelopes::<C, E, P>(events@.take(it.index() as int)),
    {
        out.push(Message::Event(event));
        assert(out@ =~= event_envelopes::<C, E, P>(events@.take(it.index() + 1)));
    }
    assert(events@.take(events@.len() as int) =~= events@);
    out
}

/// Wraps the side effects that a policy returned, one envelope for each and
/// in the order given.
pub fn wrap_side_effects<C, E, P>(effects: Vec<SideEffect<C, P>>) -> (out: Vec<Message<C, E, P>>)
    ensures
        out@ == side_effect_envelopes::<C, E, P>(effects@),
{
    let mut out: Vec<Message<C, E, P>> = Vec::new();
    for effect in it: effects.into_iter()
        invariant
            it.seq() == effects@,
            out@ == side_effect_envelopes::<C, E, P>(effects@.take(it.index() as int)),
    {
        out.push(effect.into_message());
        assert(out@ =~= side_effect_envelopes::<C, E, P>(effects@.take(it.index() + 1)));
    }
    assert(effects@.take(effects@.len() as int) =~= effects@);
    out
}

} // verus!
