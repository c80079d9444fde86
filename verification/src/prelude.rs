//! What an implementor of a driver needs in scope.
pub use crate::broker::MessageBroker;
pub use crate::driver::{Event, MessageBusDriver, Projection};
pub use crate::factory::Factory;
pub use crate::handler::{Command, CommandHandler};
pub use crate::message::{DriverMessage, DriverSideEffect, Message, SideEffect};
pub use crate::policy::{Policy, PolicyContext};
pub use crate::projector::Projector;
pub use crate::uow::UnitOfWork;
