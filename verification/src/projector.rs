//! Projections into read models and infrastructure.
use vstd::prelude::*;

verus! {

/// Applies projections of type `P` outside any transaction.
///
/// A rejected delivery may come again, so applying a projection twice must do
/// no harm.
pub trait Projector<P>: Clone + Sync + Send {
    /// Applies `projection`.
    fn project(&self, projection: P) -> Result<(), anyhow::Error>;
}

} // verus!
