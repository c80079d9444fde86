//! The transactional scope of one command.
use crate::factory::Factory;
use vstd::prelude::*;

verus! {

/// A transactional scope, made for one command and used once.
///
/// It collects the events that the handler captures. A commit persists the
/// changes and releases the events in the order of capture; a rollback
/// discards both. Each consumes the unit of work, so no unit of work is ever
/// committed and rolled back.
pub trait UnitOfWork: Send {
    /// Makes the unit of work of each command.
    type Factory: Factory<Output = Self> + Clone;

    /// The events that this unit of work collects.
    type Event: Send;

    /// Keeps an event until commit or rollback. It must not publish the
    /// event: the bus does, after the commit.
    fn capture_event(&mut self, event: impl Into<Self::Event>) -> Result<(), anyhow::Error>;

    /// Persists the changes and hands out the captured events.
    fn commit(self) -> Result<Vec<Self::Event>, anyhow::Error>;

    /// Discards the changes and the captured events.
    fn rollback(self) -> Result<(), anyhow::Error>;
}

} // verus!
