//! Commands and their handler.
use crate::driver::MessageBusDriver;
use vstd::prelude::*;

verus! {

/// An intent to change domain state. Every type that can be sent is one.
pub trait Command: Send {

}

impl<T: Send> Command for T {

}

/// Runs commands of type `C` against the domain, inside a unit of work.
pub trait CommandHandler<C: Command, D: MessageBusDriver>: Clone + Send + Sync {
    /// Handles `cmd`. What it changes and the events it captures live in
    /// `uow`: after `Ok` the bus commits the unit of work, after `Err` it
    /// rolls it back.
    fn handle(&self, uow: &mut D::UnitOfWork, cmd: C) -> Result<
        Option<D::Identifier>,
        anyhow::Error,
    >;
}

} // verus!
