//! A message bus for commands, events and projections.
//!
//! A command is handled inside a unit of work; the events that the unit of
//! work releases on commit are published; a policy answers each event with
//! side effects, which are published in turn; projections go to a projector.
//!
//! The order of these calls is decided by three small state machines
//! ([`command_path`], [`event_path`], [`receive_loop`]). A machine performs no
//! call itself: it names the next call, the host makes it and reports the
//! outcome. What the machines guarantee is stated and proved beside them:
//! events are published once and only behind a successful commit, a failed
//! handler costs a rollback and publishes nothing, a policy context is closed
//! once on every way out, and one failed delivery does not halt the loop.
//!
//! [`bus::MessageBus`] is such a host, for capabilities whose calls return
//! when they are done. The capabilities are traits for the application to
//! implement: [`broker::MessageBroker`], [`uow::UnitOfWork`],
//! [`handler::CommandHandler`], [`policy::Policy`], [`policy::PolicyContext`],
//! [`projector::Projector`], [`view::Viewer`], and [`factory::Factory`] for the
//! two short-lived ones. A [`driver::MessageBusDriver`] names one choice of
//! them all.
use vstd::prelude::*;

pub mod broker;
pub mod bus;
pub mod command_path;
pub mod driver;
pub mod engine;
pub mod event_path;
pub mod factory;
pub mod handler;
pub mod message;
pub mod policy;
pub mod prelude;
pub mod projector;
pub mod receive_loop;
pub mod uow;
pub mod view;

verus! {

/// `anyhow::Error`, the error that every capability reports. The bus hands
/// such values on and never looks inside.
#[verifier::external_type_specification]
#[verifier::external_body]
pub struct ExError(anyhow::Error);

} // verus!
