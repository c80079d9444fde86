//! Queries against read models.
use vstd::prelude::*;

verus! {

/// Answers queries of type `Q`.
pub trait Viewer<Q> {
    /// What a query is answered with.
    type View;

    /// Answers `query`.
    fn view(&self, query: Q) -> Result<Self::View, anyhow::Error>;
}

} // verus!
