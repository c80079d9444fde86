//! The transport behind the bus.
use vstd::prelude::*;

verus! {

/// Moves envelopes: takes what the bus publishes, delivers it later, and
/// learns for each delivery whether it was handled.
///
/// The bus never looks at how this is done. It expects each delivery to come
/// again until it is acknowledged, and an identifier to stay valid until the
/// delivery is acknowledged or rejected.
pub trait MessageBroker: Clone + Send + Sync {
    /// The envelope that the broker moves.
    type Message: Send;

    /// Names one delivery, for `ack` and `nack`.
    type Id: Send;

    /// The next delivery. It returns when there is one, and `None` when the
    /// sequence of deliveries has ended.
    fn receive(&self) -> Option<(Self::Id, Self::Message)>;

    /// Queues one envelope.
    fn publish(&self, message: Self::Message) -> Result<(), anyhow::Error>;

    /// Queues a batch of envelopes; each is delivered on its own.
    fn publish_batch(&self, messages: Vec<Self::Message>) -> Result<(), anyhow::Error>;

    /// The delivery was handled and need not come again.
    fn ack(&self, id: Self::Id) -> Result<(), anyhow::Error>;

    /// The delivery was not handled: retry it or set it aside, as the
    /// transport sees fit.
    fn nack(&self, id: Self::Id) -> Result<(), anyhow::Error>;
}

} // verus!
