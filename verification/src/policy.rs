//! Policies: from an event to its side effects.
use crate::driver::MessageBusDriver;
use crate::factory::Factory;
use vstd::prelude::*;

verus! {

/// A read-only scope, made for one event and closed after the policy ran.
pub trait PolicyContext: Send {
    /// Makes the context of each event.
    type Factory: Factory<Output = Self> + Clone;

    /// Releases what the context holds. The bus calls it once for each
    /// context, whether the policy succeeded or not.
    fn close(self) -> Result<(), anyhow::Error>;
}

/// A stateless rule that answers events of type `E` with side effects.
pub trait Policy<E: Send, D: MessageBusDriver>: Clone + Send + Sync {
    /// What the policy returns: for the bus, a side effect.
    type Output: Send;

    /// The side effects of `event`, in the order in which they are to be
    /// published. The policy reads through `ctx` and changes nothing.
    fn apply(&self, ctx: &mut D::PolicyContext, event: E) -> Result<
        Vec<Self::Output>,
        anyhow::Error,
    >;
}

} // verus!
