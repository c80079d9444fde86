//! The capabilities of a bus, held in one place.
use crate::driver::MessageBusDriver;
use crate::policy::PolicyContext;
use crate::uow::UnitOfWork;
use vstd::prelude::*;

verus! {

/// One instance of each capability that a driver names.
///
/// The engine does nothing by itself: the paths of the bus read what it
/// holds. Two clones share what the capabilities themselves share, and
/// nothing else.
pub struct MessageBusEngine<D: MessageBusDriver> {
    /// The driver that the capabilities were built from.
    pub driver: D,
    /// Publishes, delivers and settles envelopes.
    pub broker: D::Broker,
    /// Applies projections.
    pub projector: D::Projector,
    /// Handles commands.
    pub handler: D::Handler,
    /// Answers events with side effects.
    pub policy: D::Policy,
    /// Answers queries.
    pub viewer: D::Viewer,
    /// Makes a policy context for each event.
    pub policy_context_factory: <D::PolicyContext as PolicyContext>::Factory,
    /// Makes a unit of work for each command.
    pub uow_factory: <D::UnitOfWork as UnitOfWork>::Factory,
}

impl<D: MessageBusDriver> Clone for MessageBusEngine<D> {
    /// Clones each capability by its own `clone`.
    fn clone(&self) -> (out: Self)
        ensures
            cloned(self.driver, out.driver),
            cloned(self.broker, out.broker),
            cloned(self.projector, out.projector),
            cloned(self.handler, out.handler),
            cloned(self.policy, out.policy),
            cloned(self.viewer, out.viewer),
            cloned(self.policy_context_factory, out.policy_context_factory),
            cloned(self.uow_factory, out.uow_factory),
    {
        MessageBusEngine {
            driver: self.driver.clone(),
            broker: self.broker.clone(),
            projector: self.projector.clone(),
            handler: self.handler.clone(),
            policy: self.policy.clone(),
            viewer: self.viewer.clone(),
            policy_context_factory: self.policy_context_factory.clone(),
            uow_factory: self.uow_factory.clone(),
        }
    }
}

impl<D: MessageBusDriver> From<&D> for MessageBusEngine<D> where
    D::Broker: for <'a>From<&'a D>,
    D::Projector: for <'a>From<&'a D>,
    D::Handler: for <'a>From<&'a D>,
    D::Policy: for <'a>From<&'a D>,
    D::Viewer: for <'a>From<&'a D>,
    <D::UnitOfWork as UnitOfWork>::Factory: for <'a>From<&'a D>,
    <D::PolicyContext as PolicyContext>::Factory: for <'a>From<&'a D>,
 {
    /// Builds each capability from the one driver, by the capability's own
    /// `From`, and keeps a clone of the driver.
    fn from(driver: &D) -> (out: Self)
        ensures
            cloned(*driver, out.driver),
            call_ensures(<D::Broker as From<&D>>::from, (driver,), out.broker),
            call_ensures(<D::Projector as From<&D>>::from, (driver,), out.projector),
            call_ensures(<D::Handler as From<&D>>::from, (driver,), out.handler),
            call_ensures(<D::Policy as From<&D>>::from, (driver,), out.policy),
            call_ensures(<D::Viewer as From<&D>>::from, (driver,), out.viewer),
            call_ensures(
                <<D::PolicyContext as PolicyContext>::Factory as From<&D>>::from,
                (driver,),
                out.policy_context_factory,
            ),
            call_ensures(
                <<D::UnitOfWork as UnitOfWork>::Factory as From<&D>>::from,
                (driver,),
                out.uow_factory,
            ),
    {
        MessageBusEngine {
            driver: driver.clone(),
            broker: From::from(driver),
            projector: From::from(driver),
            handler: From::from(driver),
            policy: From::from(driver),
            viewer: From::from(driver),
            policy_context_factory: From::from(driver),
            uow_factory: From::from(driver),
        }
    }
}

/// What `from` makes depends on what the driver's `clone` and each
/// capability's `From` return; no spec function of the driver alone gives it.
/// The contract of `from` says what holds of the result.
impl<D: MessageBusDriver> vstd::std_specs::convert::FromSpecImpl<&D> for MessageBusEngine<D> where
    D::Broker: for <'a>From<&'a D>,
    D::Projector: for <'a>From<&'a D>,
    D::Handler: for <'a>From<&'a D>,
    D::Policy: for <'a>From<&'a D>,
    D::Viewer: for <'a>From<&'a D>,
    <D::UnitOfWork as UnitOfWork>::Factory: for <'a>From<&'a D>,
    <D::PolicyContext as PolicyContext>::Factory: for <'a>From<&'a D>,
 {
    open spec fn obeys_from_spec() -> bool {
        false
    }

    open spec fn from_spec(driver: &D) -> Self {
        arbitrary()
    }
}

} // verus!
