//! The configuration that a bus is built from.
use crate::broker::MessageBroker;
use crate::handler::Command;
use crate::message::DriverMessage;
use crate::policy::PolicyContext;
use crate::projector::Projector;
use crate::uow::UnitOfWork;
use vstd::prelude::*;

verus! {

/// An instruction for a read model or for infrastructure. Every type that can
/// be sent is one.
pub trait Projection: Send {

}

impl<T: Send> Projection for T {

}

/// A fact: a command's mutation has occurred. Every type that can be sent is
/// one.
pub trait Event: Send {

}

impl<T: Send> Event for T {

}

/// One choice of message types and of capabilities, checked at compile time.
///
/// A driver names the three message types and the type of each capability of
/// a bus. The handler and the policy are bound where they are called, by
/// [`CommandHandler`](crate::handler::CommandHandler) and
/// [`Policy`](crate::policy::Policy).
pub trait MessageBusDriver: Clone + Sized + Send + Sync + 'static {
    /// What a handled command may name in its response.
    type Identifier: Send;

    /// The commands that the bus routes.
    type Command: Command;

    /// The events of the domain.
    type Event: Event;

    /// The projections.
    type Projection: Projection;

    /// The transport.
    type Broker: MessageBroker<Message = DriverMessage<Self>>;

    /// The transactional scope of a command.
    type UnitOfWork: UnitOfWork<Event = Self::Event>;

    /// The read-only scope of an event.
    type PolicyContext: PolicyContext;

    /// Applies projections.
    type Projector: Projector<Self::Projection>;

    /// Handles commands.
    type Handler: Clone + Send + Sync;

    /// Answers events with side effects.
    type Policy: Clone + Send + Sync;

    /// Answers queries.
    type Viewer: Clone + Send + Sync;
}

} // verus!
